pub mod access_count_flusher;
