pub mod base62_generator;
