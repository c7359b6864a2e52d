pub mod types;
pub mod session;
pub mod preview;
pub mod lifecycle;
pub mod pairing;
pub mod client;
