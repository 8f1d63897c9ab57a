pub mod short_code;
pub mod url;
