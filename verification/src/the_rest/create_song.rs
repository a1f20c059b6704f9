//! Song record creation, as the API module offers it.

pub use crate::api::create_song::{create, response};
