pub mod coverart_queue;
pub mod song_queue;
