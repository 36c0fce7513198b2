//! The rules of a single poll: creating it, opening and closing it, and
//! accepting or refusing votes, with their contracts and the laws they obey.

pub mod identity;
pub mod laws;
pub mod poll;

pub use identity::Identity;
pub use poll::{close_poll, open_poll, start_poll, vote, Errors, Poll, PollView};
