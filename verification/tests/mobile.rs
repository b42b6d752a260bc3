use offline_wallet::mobile::{
    default_scan_config, parse_biometric_type, windowed_scan_config, BiometricStatus,
    BiometricType, ScanConfig,
};
use offline_wallet::qr_scanner;
use offline_wallet::qrcode::QRCodeType;
use offline_wallet::webview_perf::PreloadManager;

#[test]
fn test_scan_config_default() {
    let config = ScanConfig::default();
    assert_eq!(config.windowed, false);
    assert_eq!(config.formats, vec!["QR_CODE".to_string()]);
    assert_eq!(config.camera_direction, Some("back".to_string()));
}

#[test]
fn test_biometric_type() {
    assert_eq!(BiometricType::Fingerprint, BiometricType::Fingerprint);
    assert_ne!(BiometricType::Fingerprint, BiometricType::Face);
}

#[test]
fn test_biometric_status() {
    assert_eq!(BiometricStatus::Available, BiometricStatus::Available);
    assert_ne!(BiometricStatus::Available, BiometricStatus::Unavailable);
}

#[test]
fn test_default_scan_config() {
    let config = default_scan_config();
    assert_eq!(config.windowed, false);
    assert_eq!(config.formats, vec!["QR_CODE".to_string()]);
}

#[test]
fn test_windowed_scan_config() {
    let config = windowed_scan_config();
    assert_eq!(config.windowed, true);
}

#[test]
fn test_parse_biometric_type() {
    assert_eq!(parse_biometric_type("fingerprint"), BiometricType::Fingerprint);
    assert_eq!(parse_biometric_type("TouchID"), BiometricType::Fingerprint);
    assert_eq!(parse_biometric_type("face"), BiometricType::Face);
    assert_eq!(parse_biometric_type("FaceID"), BiometricType::Face);
    assert_eq!(parse_biometric_type("unknown"), BiometricType::Unknown);
}

#[test]
fn iris_and_the_camera() {
    assert_eq!(parse_biometric_type("IRIS"), BiometricType::Iris);
    assert_eq!(parse_biometric_type(""), BiometricType::Unknown);
    assert_eq!(windowed_scan_config().camera_direction, Some("back".to_string()));
    assert_eq!(windowed_scan_config().formats, vec!["QR_CODE".to_string()]);
}

#[test]
fn scanner_preparation() {
    let d = qr_scanner::ScanConfig::default();
    assert!(d.windowed);
    assert_eq!(d.camera_direction, Some("back".to_string()));
    let given = qr_scanner::ScanConfig { windowed: false, camera_direction: None };
    let r = qr_scanner::prepare_windowed_scan(Some(given)).unwrap();
    assert!(!r.windowed);
    assert_eq!(r.camera_direction, None);
    let r = qr_scanner::prepare_windowed_scan(None).unwrap();
    assert!(r.windowed);
    let r = qr_scanner::prepare_native_scan().unwrap();
    assert!(!r.windowed);
    assert_eq!(r.camera_direction, Some("back".to_string()));
}

#[test]
fn qr_code_type_names() {
    assert_eq!(QRCodeType::Address.name(), "address");
    assert_eq!(QRCodeType::SignedTransaction.name(), "signed_transaction");
    assert_eq!(QRCodeType::UnsignedTransaction.name(), "unsigned_transaction");
    assert_eq!(QRCodeType::Mnemonic.name(), "mnemonic");
}

#[test]
fn preload_list_keeps_the_order() {
    let mut m = PreloadManager::new();
    assert!(m.get_preload_resources().is_empty());
    m.add_preload_resource("a.css".to_string());
    m.add_preload_resource("b.js".to_string());
    assert_eq!(m.get_preload_resources(), ["a.css".to_string(), "b.js".to_string()]);
    assert!(PreloadManager::default().get_preload_resources().is_empty());
}
