//! Key derivation, address encoding, transaction signing and address
//! validation for a multi-chain offline wallet.

pub mod address_format;
pub mod amount;
pub mod chains;
pub mod codec;
pub mod commands;
pub mod crypto;
pub mod digest;
pub mod json;
pub mod keys;
pub mod laws;
pub mod mobile;
pub mod qr_scanner;
pub mod qrcode;
pub mod security;
pub mod text;
pub mod webview_perf;
