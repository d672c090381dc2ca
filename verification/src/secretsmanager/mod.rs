//! Secrets Manager: secrets.
mod dto;

pub use dto::{SecretRef};
