pub mod create_short_url;
pub mod get_short_url_stats;
pub mod resolve_short_url;
