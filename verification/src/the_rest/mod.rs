pub mod create_coverart;
pub mod create_song;
pub mod wipe_data;
