use offline_wallet::address_format;
use offline_wallet::chains::address_validation::{
    validate_address, validate_address_with_message, validate_btc_address, validate_eth_address,
    validate_kaspa_address, validate_sol_address, validate_tron_address,
};
use offline_wallet::commands;

const ETH: &str = "0x742d35Cc6634C0532925a3b844Bc454e4438f44e";
const TRON: &str = "TQn9Y2khEsLMWD7j5qZz5qZz5qZz5qZz5q";
const KASPA: &str = "kaspa:qqqqqqqqqqqqqqqqqqqqqqqqqqqqqqqqqqqqqqqqqqqqqqqqqqqqqkx9awp4e";

#[test]
fn test_validate_eth_address() {
    assert!(!validate_eth_address("0x742d35Cc6634C0532925a3b844Bc9e7595f0bEb"));
    assert!(validate_eth_address(ETH));
    assert!(!validate_eth_address("0x742d35Cc6634C0532925a3b844Bc9e7595f0bEbG"));
    assert!(!validate_eth_address("742d35Cc6634C0532925a3b844Bc9e7595f0bEb"));
}

#[test]
fn test_validate_btc_address() {
    assert!(validate_btc_address("bc1qw508d6qejxtdg4y5r3zarvary0c5xw7kv8f3t4"));
    assert!(validate_btc_address("1A1zP1eP5QGefi2DMPTfTL5SLmv7DivfNa"));
}

#[test]
fn test_validate_sol_address() {
    assert!(validate_sol_address("11111111111111111111111111111111"));
    assert!(validate_sol_address("So11111111111111111111111111111111111111112"));
}

#[test]
fn test_validate_tron_address() {
    assert!(!validate_tron_address("TQn9Y2khEsLMWD7j5qZz5qZz5qZz5qZz5qZz"));
    assert!(validate_tron_address(TRON));
    assert!(!validate_tron_address("0x742d35Cc6634C0532925a3b844Bc9e7595f0bEb"));
}

#[test]
fn address_validation_test_validate_eth_address() {
    assert!(!address_format::validate_address("eth", "0x742d35Cc6634C0532925a3b844Bc9e7595f0bEb"));
    assert!(address_format::validate_address("ETH", ETH));
    assert!(address_format::validate_address("bnb", ETH));
    assert!(!address_format::validate_address("eth", "0x742d35Cc6634C0532925a3b844Bc9e7595f0bEbG"));
    assert!(!address_format::validate_address("eth", "742d35Cc6634C0532925a3b844Bc9e7595f0bEb"));
}

#[test]
fn address_validation_test_validate_btc_address() {
    assert!(address_format::validate_address("btc", "bc1qw508d6qejxtdg4y5r3zarvary0c5xw7kv8f3t4"));
    assert!(address_format::validate_address("Btc", "1A1zP1eP5QGefi2DMPTfTL5SLmv7DivfNa"));
    assert!(!address_format::validate_address("btc", ETH));
}

#[test]
fn address_validation_test_validate_sol_address() {
    assert!(address_format::validate_address("sol", "11111111111111111111111111111111"));
    assert!(address_format::validate_address(
        "SOL",
        "So11111111111111111111111111111111111111112"
    ));
}

#[test]
fn address_validation_test_validate_tron_address() {
    assert!(!address_format::validate_address("tron", "TQn9Y2khEsLMWD7j5qZz5qZz5qZz5qZz5qZz"));
    assert!(address_format::validate_address("tron", TRON));
    assert!(!address_format::validate_address("tron", ETH));
    assert!(!address_format::validate_address("doge", ETH));
}

#[test]
fn eth_address_is_hex_in_either_case() {
    assert!(validate_eth_address("0xabcdefABCDEF0123456789abcdefABCDEF012345"));
    assert!(!validate_eth_address("0Xabcdefabcdef0123456789abcdefabcdef012345"));
    assert!(!validate_eth_address(""));
    assert!(!validate_eth_address("0x"));
    assert!(!validate_eth_address("0x742d35Cc6634C0532925a3b844Bc454e4438f44\u{e9}"));
}

#[test]
fn btc_validator_takes_script_hash_and_rejects_noise() {
    assert!(validate_btc_address("3J98t1WpEZ73CNmQviecrnyiWrnqRhWNLy"));
    assert!(!validate_btc_address("bc1qw508d6qejxtdg4y5r3zarvary0c5xw7kv8f3t5"));
    assert!(!validate_btc_address("not an address"));
    assert!(!validate_btc_address(""));
}

#[test]
fn sol_address_bounds_and_alphabet() {
    assert!(!validate_sol_address("1111111111111111111111111111111"));
    assert!(validate_sol_address("11111111111111111111111111111111111111111111"));
    assert!(!validate_sol_address("111111111111111111111111111111111111111111111"));
    assert!(!validate_sol_address("0111111111111111111111111111111111"));
    assert!(!validate_sol_address("O111111111111111111111111111111111"));
    assert!(!validate_sol_address("I111111111111111111111111111111111"));
    assert!(!validate_sol_address("l111111111111111111111111111111111"));
}

#[test]
fn tron_address_shape() {
    assert!(!validate_tron_address("AQn9Y2khEsLMWD7j5qZz5qZz5qZz5qZz5q"));
    assert!(!validate_tron_address("TQn9Y2khEsLMWD7j5qZz5qZz5qZz5qZz5"));
    assert!(!validate_tron_address("TQn9Y2khEsLMWD7j5qZz5qZz5qZz5qZz50"));
}

#[test]
fn kaspa_address_must_decode() {
    assert!(validate_kaspa_address(KASPA));
    assert!(validate_kaspa_address(
        "kaspatest:qyqqqqqqqqqqqqqqqqqqqqqqqqqqqqqqqqqqqqqqqqqqqqqqqqqqqqqhe837j2d"
    ));
    assert!(!validate_kaspa_address(
        "kaspa:qqqqqqqqqqqqqqqqqqqqqqqqqqqqqqqqqqqqqqqqqqqqqqqqqqqqqkx9awp4f"
    ));
    assert!(!validate_kaspa_address("kaspadev:qqqqqqqqqqqq"));
    assert!(!validate_kaspa_address("qqqqqqqqqqqqq"));
    assert!(!validate_kaspa_address("kaspa:3xjng3c9"));
    assert!(!validate_kaspa_address("kaspa:qqqqqqqqqqqqqqqqqqqqqqqqqqqqqqqqqqqhsc8uvq"));
    assert!(!validate_kaspa_address("kaspa:"));
    assert!(!validate_kaspa_address("kaspa:q"));
}

#[test]
fn the_format_check_of_kaspa_decodes_too() {
    assert!(address_format::validate_kaspa_address(KASPA));
    assert!(address_format::validate_kaspa_address(
        "kaspatest:qyqqqqqqqqqqqqqqqqqqqqqqqqqqqqqqqqqqqqqqqqqqqqqqqqqqqqqhe837j2d"
    ));
    assert!(!address_format::validate_kaspa_address(
        "kaspa:qqqqqqqqqqqqqqqqqqqqqqqqqqqqqqqqqqqqqqqqqqqqqqqqqqqqqkx9awp4f"
    ));
    assert!(!address_format::validate_kaspa_address("kaspa:anything"));
    assert!(!address_format::validate_kaspa_address("kaspa:abc"));
    assert!(!address_format::validate_kaspa_address("kaspa:3xjng3c9"));
    assert!(!address_format::validate_kaspa_address("qqqq"));
    assert!(address_format::validate_address("kaspa", KASPA));
    assert!(address_format::validate_address("KAS", KASPA));
    assert!(!address_format::validate_address("kas", "kaspa:anything"));
    assert_eq!(
        address_format::detect_chain_from_address(
            "kaspatest:qyqqqqqqqqqqqqqqqqqqqqqqqqqqqqqqqqqqqqqqqqqqqqqqqqqqqqqhe837j2d"
        ),
        vec!["kaspa".to_string()]
    );
    assert_eq!(
        address_format::detect_chain_from_address(
            "kaspa:qqqqqqqqqqqqqqqqqqqqqqqqqqqqqqqqqqqqqqqqqqqqqqqqqqqqqkx9awp4f"
        ),
        Vec::<String>::new()
    );
}

fn is_white_space(c: char) -> bool {
    matches!(
        c,
        '\u{9}'..='\u{d}'
            | ' '
            | '\u{85}'
            | '\u{a0}'
            | '\u{1680}'
            | '\u{2000}'..='\u{200a}'
            | '\u{2028}'
            | '\u{2029}'
            | '\u{202f}'
            | '\u{205f}'
            | '\u{3000}'
    )
}

#[test]
fn white_space_is_trimmed_and_nothing_else() {
    let mut code = 0u32;
    while code <= 0x3400 {
        if let Some(c) = char::from_u32(code) {
            let padded = format!("{}{}{}{}", c, c, ETH, c);
            let r = validate_address_with_message("ETH", &padded);
            assert_eq!(r.is_valid, is_white_space(c));
            let front = format!("{}{}", c, ETH);
            assert_eq!(validate_address("ETH", &front), is_white_space(c));
            let back = format!("{}{}", ETH, c);
            assert_eq!(validate_address("ETH", &back), is_white_space(c));
        }
        code += 1;
    }
    for c in ['\u{180e}', '\u{200b}', '\u{2060}', '\u{feff}', '\u{e0020}', '\u{10ffff}'] {
        assert!(!validate_address("ETH", &format!("{}{}", c, ETH)));
    }
    assert!(!validate_address("ETH", &format!("0x742d35Cc6634C0532925 a3b844Bc454e4438f44e")));
    let r = validate_address_with_message("ETH", " \t\n ");
    assert_eq!(r.error_message, Some("地址不能为空".to_string()));
}

#[test]
fn validation_by_chain_name() {
    assert!(validate_address("ETH", ETH));
    assert!(validate_address("BNB", ETH));
    assert!(validate_address("BTC", "1A1zP1eP5QGefi2DMPTfTL5SLmv7DivfNa"));
    assert!(validate_address("SOL", "11111111111111111111111111111111"));
    assert!(validate_address("TRON", TRON));
    assert!(validate_address("KASPA", KASPA));
    assert!(validate_address("KAS", KASPA));
    assert!(!validate_address("eth", ETH));
    assert!(!validate_address("DOGE", ETH));
}

#[test]
fn validation_trims_the_address() {
    let r = validate_address_with_message("ETH", "  0x742d35Cc6634C0532925a3b844Bc454e4438f44e\n");
    assert!(r.is_valid);
    assert_eq!(r.error_message, None);
}

#[test]
fn validation_messages() {
    let r = validate_address_with_message("ETH", "   ");
    assert!(!r.is_valid);
    assert_eq!(r.error_message, Some("地址不能为空".to_string()));

    let r = validate_address_with_message("ETH", "742d35");
    assert_eq!(r.error_message, Some("以太坊地址必须以 0x 开头".to_string()));

    let r = validate_address_with_message("BNB", "0x742d35");
    assert_eq!(
        r.error_message,
        Some("以太坊地址长度应为 42 字符，当前为 8 字符".to_string())
    );

    let r = validate_address_with_message("ETH", "0x742d35Cc6634C0532925a3b844Bc454e4438f44Z");
    assert_eq!(
        r.error_message,
        Some("以太坊地址包含无效字符，只能包含 0-9 和 a-f（或 A-F）".to_string())
    );

    let r = validate_address_with_message("SOL", "abc");
    assert_eq!(
        r.error_message,
        Some("Solana 地址长度应在 32-44 字符之间，当前为 3 字符".to_string())
    );

    let r = validate_address_with_message("SOL", "0111111111111111111111111111111111");
    assert_eq!(
        r.error_message,
        Some("Solana 地址包含无效字符，必须是有效的 Base58 编码".to_string())
    );

    let r = validate_address_with_message("TRON", "Xabc");
    assert_eq!(r.error_message, Some("Tron 地址必须以 T 开头".to_string()));

    let r = validate_address_with_message("TRON", "Tabc");
    assert_eq!(
        r.error_message,
        Some("Tron 地址长度应为 34 字符，当前为 4 字符".to_string())
    );

    let r = validate_address_with_message("TRON", "TQn9Y2khEsLMWD7j5qZz5qZz5qZz5qZz50");
    assert_eq!(
        r.error_message,
        Some("Tron 地址包含无效字符，必须是有效的 Base58 编码".to_string())
    );

    let r = validate_address_with_message("KASPA", "qqqq");
    assert_eq!(
        r.error_message,
        Some("Kaspa 地址必须以 kaspa: 或 kaspatest: 开头".to_string())
    );

    let r = validate_address_with_message("KAS", "kaspa:qqqq");
    assert!(!r.is_valid);
    assert!(r.error_message.unwrap().starts_with("Kaspa 地址格式无效: "));

    let r = validate_address_with_message("BTC", "nonsense");
    assert!(!r.is_valid);
    assert!(r.error_message.unwrap().starts_with("Bitcoin 地址格式无效: "));

    let r = validate_address_with_message("DOGE", ETH);
    assert_eq!(r.error_message, Some("不支持的链类型: DOGE".to_string()));
}

#[test]
fn length_in_a_message_counts_bytes() {
    let r = validate_address_with_message("TRON", "T\u{e9}");
    assert_eq!(
        r.error_message,
        Some("Tron 地址长度应为 34 字符，当前为 3 字符".to_string())
    );
}

#[test]
fn commands_take_the_chain_in_any_case() {
    assert!(commands::validate_address("eth", ETH));
    assert!(commands::validate_address("Kas", KASPA));
    assert!(!commands::validate_address("doge", ETH));
    let r = commands::validate_address_with_message("doge", ETH);
    assert_eq!(r.error_message, Some("不支持的链类型: DOGE".to_string()));
}

#[test]
fn detected_chains() {
    assert_eq!(
        address_format::detect_chain_from_address(ETH),
        vec!["eth".to_string(), "bnb".to_string()]
    );
    assert_eq!(
        address_format::detect_chain_from_address("1A1zP1eP5QGefi2DMPTfTL5SLmv7DivfNa"),
        vec!["btc".to_string(), "sol".to_string()]
    );
    assert_eq!(address_format::detect_chain_from_address(TRON), vec!["tron".to_string()]);
    assert_eq!(
        address_format::detect_chain_from_address("So11111111111111111111111111111111111111112"),
        vec!["sol".to_string()]
    );
    assert_eq!(address_format::detect_chain_from_address(KASPA), vec!["kaspa".to_string()]);
    assert_eq!(address_format::detect_chain_from_address("???"), Vec::<String>::new());
}
