pub mod errors;
pub mod request;
pub mod response;
