//! A registry of submitted media links with upvote and downvote counters,
//! kept in one fixed-capacity storage account.

pub mod instructions;
pub mod laws;
pub mod state;

pub use instructions::{add_gif, downvote_gif, start_stuff_off, upvote_gif};
pub use state::{AddGif, BaseAccount, ItemStruct, RegistryError, StartStuffOff};
