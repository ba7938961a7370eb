pub mod pairing;
pub mod vpn;
pub mod discovery;
