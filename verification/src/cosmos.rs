pub mod auth;
pub mod bank;
pub mod params;
pub mod tx;
