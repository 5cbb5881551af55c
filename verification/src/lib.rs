//! Episode resolution and stream-source extraction for a "download the next
//! episode" workflow.
//!
//! The crate decides which `(show, episode)` pair is meant, either from
//! explicit numbers or from the newest file of a directory listing, builds the
//! address of the episode page, and extracts the stream address and container
//! extension from that page's markup.

pub mod failure;
pub mod text;
pub mod resolver;
pub mod markup;
pub mod locator;
pub mod laws;
