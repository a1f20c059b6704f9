pub mod fetch_next_queue_item;
