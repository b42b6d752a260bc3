use offline_wallet::crypto::password_strength::{
    check_password_strength, validate_password_strength, PasswordStrength,
};

#[test]
fn test_password_strength() {
    let result = check_password_strength("123");
    assert_eq!(result.strength, PasswordStrength::VeryWeak);

    let result = check_password_strength("Password123");
    assert!(!result.strength.is_sufficient());
    let result = check_password_strength("Passphrase123");
    assert!(result.strength.is_sufficient());

    let result = check_password_strength("MyStr0ng!P@ssw0rd");
    assert!(matches!(result.strength, PasswordStrength::Strong | PasswordStrength::VeryStrong));
}

#[test]
fn test_validate_password() {
    assert!(validate_password_strength("123", PasswordStrength::Medium).is_err());
    assert!(validate_password_strength("password", PasswordStrength::Medium).is_err());
    assert!(validate_password_strength("Password123!", PasswordStrength::Medium).is_ok());
}

#[test]
fn scores_and_times() {
    let r = check_password_strength("");
    assert_eq!(r.score, 0);
    assert_eq!(r.crack_time_seconds, 1);
    assert_eq!(
        r.feedback,
        vec![
            "密码至少需要8个字符".to_string(),
            "建议包含大写字母".to_string(),
            "建议包含小写字母".to_string(),
            "建议包含数字".to_string(),
            "建议包含特殊字符".to_string(),
        ]
    );

    let r = check_password_strength("abcdefgh");
    assert_eq!(r.score, 1);
    assert_eq!(r.strength, PasswordStrength::VeryWeak);
    assert_eq!(r.crack_time_seconds, 60);

    let r = check_password_strength("Abcdefgh");
    assert_eq!(r.score, 2);
    assert_eq!(r.strength, PasswordStrength::Weak);
    assert_eq!(r.crack_time_seconds, 3600);

    let r = check_password_strength("Abcdefg1");
    assert_eq!(r.score, 3);
    assert_eq!(r.strength, PasswordStrength::Medium);
    assert_eq!(r.crack_time_seconds, 86400);

    let r = check_password_strength("Abcdef1!");
    assert_eq!(r.score, 4);
    assert_eq!(r.strength, PasswordStrength::Strong);
    assert_eq!(r.crack_time_seconds, 31536000);
    assert_eq!(r.feedback, Vec::<String>::new());

    let r = check_password_strength("Abcdefghijk1!");
    assert_eq!(r.score, 4);
    assert_eq!(r.strength, PasswordStrength::Strong);
}

#[test]
fn weak_patterns_cost_a_point() {
    let r = check_password_strength("PassWord");
    assert_eq!(r.score, 1);
    assert_eq!(
        r.feedback,
        vec![
            "建议包含数字".to_string(),
            "建议包含特殊字符".to_string(),
            "警告: 密码包含常见弱密码模式".to_string(),
        ]
    );
    let r = check_password_strength("xxQWERTYxx");
    assert_eq!(r.score, 1);
    let r = check_password_strength("Abc123456789!");
    assert_eq!(r.score, 4);
    let r = check_password_strength("123456");
    assert_eq!(r.score, 0);
}

#[test]
fn letters_beyond_ascii_count() {
    let r = check_password_strength("ÉCOLEÉCOLE");
    assert_eq!(r.score, 2);
    let r = check_password_strength("écoleÉ");
    assert_eq!(r.score, 2);
}

#[test]
fn strength_from_score_and_back() {
    assert_eq!(PasswordStrength::from_score(0), PasswordStrength::VeryWeak);
    assert_eq!(PasswordStrength::from_score(1), PasswordStrength::VeryWeak);
    assert_eq!(PasswordStrength::from_score(2), PasswordStrength::Weak);
    assert_eq!(PasswordStrength::from_score(3), PasswordStrength::Medium);
    assert_eq!(PasswordStrength::from_score(4), PasswordStrength::Strong);
    assert_eq!(PasswordStrength::from_score(5), PasswordStrength::VeryStrong);
    assert_eq!(PasswordStrength::from_score(255), PasswordStrength::VeryStrong);
    assert_eq!(PasswordStrength::VeryWeak.value(), 0);
    assert_eq!(PasswordStrength::Weak.value(), 1);
    assert_eq!(PasswordStrength::Medium.value(), 2);
    assert_eq!(PasswordStrength::Strong.value(), 3);
    assert_eq!(PasswordStrength::VeryStrong.value(), 4);
    assert_eq!(PasswordStrength::Medium.to_string_en(), "Medium");
    assert_eq!(PasswordStrength::VeryStrong.to_string_en(), "Very Strong");
    assert_eq!(PasswordStrength::VeryWeak.to_string_cn(), "非常弱");
    assert_eq!(PasswordStrength::Strong.to_string_cn(), "强");
    assert!(!PasswordStrength::Weak.is_sufficient());
    assert!(PasswordStrength::Medium.is_sufficient());
}

#[test]
fn validation_errors() {
    assert_eq!(
        validate_password_strength("Ab1!", PasswordStrength::Medium),
        Err("密码至少需要8个字符".to_string())
    );
    assert_eq!(
        validate_password_strength("abcdefgh", PasswordStrength::VeryWeak),
        Err("密码强度不足: 非常弱".to_string())
    );
    assert_eq!(
        validate_password_strength("Abcdefg1", PasswordStrength::Strong),
        Err("密码强度不足: 中等".to_string())
    );
    assert_eq!(validate_password_strength("Abcdefg1", PasswordStrength::Medium), Ok(()));
    assert_eq!(validate_password_strength("Abcdef1!", PasswordStrength::Strong), Ok(()));
    assert!(validate_password_strength("Abcdef1!", PasswordStrength::VeryStrong).is_err());
}
