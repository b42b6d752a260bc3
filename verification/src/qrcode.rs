//! What travels in a QR code between the offline and the online wallet.

use vstd::prelude::*;

verus! {

/// What a QR code carries.
#[derive(Debug, Clone, Copy, PartialEq, Eq, Structural)]
pub enum QRCodeType {
    Address,
    SignedTransaction,
    /// From the online wallet to the offline wallet.
    UnsignedTransaction,
    /// For backup and recovery only.
    Mnemonic,
}

/// What every QR code carries.
#[derive(Debug, Clone)]
pub struct QRCodeBase {
    pub qr_type: QRCodeType,
    pub version: String,
    pub timestamp: u64,
    pub chain: String,
}

/// An address to pay to.
#[derive(Debug, Clone)]
pub struct AddressQRCode {
    pub base: QRCodeBase,
    pub address: String,
    pub label: Option<String>,
}

/// A signed transaction to broadcast.
#[derive(Debug, Clone)]
pub struct SignedTransactionQRCode {
    pub base: QRCodeBase,
    /// The signed transaction as JSON.
    pub signed_tx: String,
    pub tx_hash: String,
}

/// A transaction to sign.
#[derive(Debug, Clone)]
pub struct UnsignedTransactionQRCode {
    pub base: QRCodeBase,
    /// The transaction as JSON.
    pub unsigned_tx: String,
    pub description: Option<String>,
}

impl QRCodeType {
    /// The name of the type as it is written in a QR code.
    pub open spec fn spec_name(&self) -> Seq<char> {
        match self {
            QRCodeType::Address => "address"@,
            QRCodeType::SignedTransaction => "signed_transaction"@,
            QRCodeType::UnsignedTransaction => "unsigned_transaction"@,
            QRCodeType::Mnemonic => "mnemonic"@,
        }
    }

    /// The name of the type as it is written in a QR code.
    pub fn name(&self) -> (out: &'static str)
        ensures
            out@ == self.spec_name(),
    {
        match self {
            QRCodeType::Address => "address",
            QRCodeType::SignedTransaction => "signed_transaction",
            QRCodeType::UnsignedTransaction => "unsigned_transaction",
            QRCodeType::Mnemonic => "mnemonic",
        }
    }
}

} // verus!
