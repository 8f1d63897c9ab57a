pub mod code;
