pub mod app;
pub mod application;
pub mod config;
pub mod domain;
pub mod infrastructure;
pub mod interfaces;
pub mod ports;
pub mod text;
pub mod workers;
