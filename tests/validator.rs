use chat_relay::config::Config;

#[test]
fn username_at_both_bounds_is_valid() {
    let cfg = Config::default();
    assert_eq!(cfg.is_valid_username(Some("abcd"), "peer").unwrap(), true);
    assert_eq!(cfg.is_valid_username(Some("abcdefghijklmnopqrst"), "peer").unwrap(), true);
}

#[test]
fn username_one_past_either_bound_is_invalid() {
    let cfg = Config::default();
    assert_eq!(cfg.is_valid_username(Some("abc"), "peer").unwrap(), false);
    assert_eq!(cfg.is_valid_username(Some("abcdefghijklmnopqrstu"), "peer").unwrap(), false);
}

#[test]
fn username_length_is_taken_after_trimming() {
    let cfg = Config::default();
    assert_eq!(cfg.is_valid_username(Some("   abc   "), "peer").unwrap(), false);
    assert_eq!(cfg.is_valid_username(Some("  abcd\t"), "peer").unwrap(), true);
    assert_eq!(cfg.is_valid_username(Some(""), "peer").unwrap(), false);
}

#[test]
fn username_length_counts_characters() {
    let cfg = Config::default();
    assert_eq!(cfg.is_valid_username(Some("ééé"), "peer").unwrap(), false);
    assert_eq!(cfg.is_valid_username(Some("éééé"), "peer").unwrap(), true);
}

#[test]
fn missing_username_is_an_error() {
    let cfg = Config::default();
    let err = cfg.is_valid_username(None, "127.0.0.1:5000").unwrap_err();
    assert_eq!(err.message, "Invalid request from 127.0.0.1:5000");
    assert_eq!(err.to_string(), "Invalid request from 127.0.0.1:5000");
}

#[test]
fn message_bounds() {
    let cfg = Config::default();
    assert_eq!(cfg.is_valid_message(Some("h"), "peer").unwrap(), true);
    assert_eq!(cfg.is_valid_message(Some("   "), "peer").unwrap(), false);
    assert_eq!(cfg.is_valid_message(Some(&"x".repeat(256)), "peer").unwrap(), true);
    assert_eq!(cfg.is_valid_message(Some(&"x".repeat(257)), "peer").unwrap(), false);
    assert!(cfg.is_valid_message(None, "peer").is_err());
}

#[test]
fn fits_checks_trimmed_text_as_given() {
    let cfg = Config::default();
    assert!(cfg.fits_username("abcd"));
    assert!(cfg.fits_username(" ab "));
    assert!(!cfg.fits_username(" a "));
    assert!(cfg.fits_message(" "));
    assert!(!cfg.fits_message(""));
}

#[test]
fn default_config_values() {
    let cfg = Config::default();
    assert_eq!(cfg.server_address, "0.0.0.0:8080");
    assert_eq!((cfg.min_username_len, cfg.max_username_len), (4, 20));
    assert_eq!((cfg.min_message_len, cfg.max_message_len), (1, 256));
    assert_eq!(cfg.mailbox_capacity, 128);
}
