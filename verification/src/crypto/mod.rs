//! Mnemonic phrases and password strength.

pub mod mnemonic;
pub mod password_strength;
