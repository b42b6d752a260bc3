//! Settings and results of the barcode scanner and of biometric
//! authentication on mobile devices.

use crate::text::{lowercased, same_text, str_lowercase};
use vstd::prelude::*;
use vstd::string::*;

verus! {

/// What a scan has read.
#[derive(Debug, Clone)]
pub struct BarcodeScanResult {
    pub content: String,
    /// The format of the code, such as `QR_CODE`.
    pub format: String,
}

/// How to scan.
#[derive(Debug, Clone)]
pub struct ScanConfig {
    /// `true` for a transparent window under a web page, `false` for the
    /// scanner's own full screen.
    pub windowed: bool,
    /// The formats to look for.
    pub formats: Vec<String>,
    /// `back` or `front`.
    pub camera_direction: Option<String>,
}

/// A kind of biometric authentication.
#[derive(Debug, Clone, Copy, PartialEq, Eq, Structural)]
pub enum BiometricType {
    Fingerprint,
    Face,
    Iris,
    Unknown,
}

/// Whether biometric authentication can be used.
#[derive(Debug, Clone, Copy, PartialEq, Eq, Structural)]
pub enum BiometricStatus {
    Available,
    Unavailable,
    NotSet,
    NotSupported,
}

/// Outcome of a biometric authentication.
#[derive(Debug, Clone)]
pub struct BiometricResult {
    pub success: bool,
    pub error: Option<String>,
}

impl ScanConfig {
    /// Whether this is the configuration that scans QR codes with the back
    /// camera, in a window or not.
    pub open spec fn is_qr_back(&self, windowed: bool) -> bool {
        &&& self.windowed == windowed
        &&& self.formats@.len() == 1
        &&& self.formats@[0]@ == "QR_CODE"@
        &&& self.camera_direction is Some
        &&& self.camera_direction->Some_0@ == "back"@
    }
}

fn qr_back(windowed: bool) -> (config: ScanConfig)
    ensures
        config.is_qr_back(windowed),
{
    let mut formats: Vec<String> = Vec::new();
    formats.push(String::from_str("QR_CODE"));
    ScanConfig { windowed, formats, camera_direction: Some(String::from_str("back")) }
}

impl Default for ScanConfig {
    /// QR codes, back camera, full screen.
    fn default() -> (config: ScanConfig)
        ensures
            config.is_qr_back(false),
    {
        qr_back(false)
    }
}

/// The configuration for the scanner's own full screen: QR codes, back
/// camera.
pub fn default_scan_config() -> (config: ScanConfig)
    ensures
        config.is_qr_back(false),
{
    qr_back(false)
}

/// The configuration for scanning in a transparent window: QR codes, back
/// camera.
pub fn windowed_scan_config() -> (config: ScanConfig)
    ensures
        config.is_qr_back(true),
{
    qr_back(true)
}

/// The kind of biometric authentication that a lowercased name stands for.
pub open spec fn biometric_type_of(name: Seq<char>) -> BiometricType {
    if name == "fingerprint"@ || name == "touchid"@ {
        BiometricType::Fingerprint
    } else if name == "face"@ || name == "faceid"@ {
        BiometricType::Face
    } else if name == "iris"@ {
        BiometricType::Iris
    } else {
        BiometricType::Unknown
    }
}

/// Reads the name of a kind of biometric authentication, in any case.
pub fn parse_biometric_type(s: &str) -> (kind: BiometricType)
    ensures
        kind == biometric_type_of(str_lowercase(s@)),
{
    let lower = lowercased(s);
    let name = lower.as_str();
    if same_text(name, "fingerprint") || same_text(name, "touchid") {
        BiometricType::Fingerprint
    } else if same_text(name, "face") || same_text(name, "faceid") {
        BiometricType::Face
    } else if same_text(name, "iris") {
        BiometricType::Iris
    } else {
        BiometricType::Unknown
    }
}

} // verus!
