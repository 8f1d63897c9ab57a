pub mod outside_error;
pub mod short_url_repository;
