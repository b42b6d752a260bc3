//! Configuration of the QR scanner of the offline wallet.

use vstd::prelude::*;
use vstd::string::*;

verus! {

/// How to scan.
#[derive(Debug, Clone)]
pub struct ScanConfig {
    /// `true` for a transparent window under a web page, `false` for the
    /// scanner's own full screen.
    pub windowed: bool,
    /// `back` or `front`.
    pub camera_direction: Option<String>,
}

/// What a scan has read.
#[derive(Debug, Clone)]
pub struct ScanResult {
    pub content: String,
    /// The format of the code, such as `QR_CODE`.
    pub format: Option<String>,
}

impl ScanConfig {
    /// Whether this configuration uses the back camera, in a window or not.
    pub open spec fn is_back(&self, windowed: bool) -> bool {
        &&& self.windowed == windowed
        &&& self.camera_direction is Some
        &&& self.camera_direction->Some_0@ == "back"@
    }
}

impl Default for ScanConfig {
    /// Back camera, in a window.
    fn default() -> (config: ScanConfig)
        ensures
            config.is_back(true),
    {
        ScanConfig { windowed: true, camera_direction: Some(String::from_str("back")) }
    }
}

/// The configuration for scanning in a window: the given one, or the
/// default.
pub fn prepare_windowed_scan(config: Option<ScanConfig>) -> (r: Result<ScanConfig, String>)
    ensures
        r is Ok,
        config is Some ==> r->Ok_0 == config->Some_0,
        config is None ==> r->Ok_0.is_back(true),
{
    match config {
        Some(c) => Ok(c),
        None => Ok(ScanConfig::default()),
    }
}

/// The configuration for the scanner's own full screen.
pub fn prepare_native_scan() -> (r: Result<ScanConfig, String>)
    ensures
        r is Ok,
        r->Ok_0.is_back(false),
{
    Ok(ScanConfig { windowed: false, camera_direction: Some(String::from_str("back")) })
}

} // verus!
