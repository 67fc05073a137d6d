//! Settings that the server reads from its environment at startup.

use vstd::prelude::*;

verus! {

/// The settings of the application.
pub struct ApplicationConfig {
    pub debug: bool,
    pub database_url: String,
    pub jwt_secret: String,
    pub allowed_origin: String,
    /// How long a session token lasts, in minutes, as written in the environment.
    pub jwt_duration: String,
    /// How long the session cookie lasts, in hours.
    pub jwt_max_age: i64,
}

/// The settings of the persistence layer.
pub struct Config {
    pub database_url: String,
    pub jwt_secret: String,
    pub allowed_origin: String,
    pub jwt_duration: String,
    pub jwt_max_age: i64,
}

} // verus!
