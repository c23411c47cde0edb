//! The error types of the application.

use vstd::prelude::*;

verus! {

/// `std::io::Error`, carried as the source of a failed file read.
#[verifier::external_type_specification]
#[verifier::external_body]
pub struct ExIoError(std::io::Error);

/// `toml::de::Error`, carried as the source of a failed configuration parse.
#[verifier::external_type_specification]
#[verifier::external_body]
pub struct ExTomlDeError(toml::de::Error);

/// Any error that stops the application at start-up.
#[derive(Debug)]
pub enum AppError {
    Config(ConfigError),
    Logging(LoggingError),
    Wallet(WalletError),
}

/// Errors while loading the configuration file.
#[derive(Debug)]
pub enum ConfigError {
    Read { path: String, source: std::io::Error },
    Parse { path: String, source: toml::de::Error },
    Validation(String),
}

/// Errors while setting up logging.
#[derive(Debug)]
pub enum LoggingError {
    Init(String),
}

/// Errors while loading the wallet key pair.
#[derive(Debug)]
pub enum WalletError {
    Read { path: String, source: std::io::Error },
    Empty { path: String },
    Parse { path: String, message: String },
}

impl From<ConfigError> for AppError {
    fn from(error: ConfigError) -> (r: AppError)
        ensures
            r == AppError::Config(error),
    {
        AppError::Config(error)
    }
}

impl vstd::std_specs::convert::FromSpecImpl<ConfigError> for AppError {
    open spec fn obeys_from_spec() -> bool {
        true
    }

    open spec fn from_spec(error: ConfigError) -> AppError {
        AppError::Config(error)
    }
}

impl From<LoggingError> for AppError {
    fn from(error: LoggingError) -> (r: AppError)
        ensures
            r == AppError::Logging(error),
    {
        AppError::Logging(error)
    }
}

impl vstd::std_specs::convert::FromSpecImpl<LoggingError> for AppError {
    open spec fn obeys_from_spec() -> bool {
        true
    }

    open spec fn from_spec(error: LoggingError) -> AppError {
        AppError::Logging(error)
    }
}

impl From<WalletError> for AppError {
    fn from(error: WalletError) -> (r: AppError)
        ensures
            r == AppError::Wallet(error),
    {
        AppError::Wallet(error)
    }
}

impl vstd::std_specs::convert::FromSpecImpl<WalletError> for AppError {
    open spec fn obeys_from_spec() -> bool {
        true
    }

    open spec fn from_spec(error: WalletError) -> AppError {
        AppError::Wallet(error)
    }
}

/// A validation error carrying `message`.
pub(crate) fn validation_error(message: &str) -> (r: ConfigError)
    ensures
        r matches ConfigError::Validation(m) && m@ == message@,
{
    ConfigError::Validation(String::from_str(message))
}

} // verus!
