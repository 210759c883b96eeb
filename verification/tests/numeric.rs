use bootcfg::config::{resolve_fork_chain_id, resolve_fork_port};
use bootcfg::decimal::{parse_u16, parse_u64};
use bootcfg::errors::{ConfigError, ForkParam};

#[test]
fn parse_u64_accepts_decimal_numerals() {
    assert_eq!(parse_u64("0"), Some(0));
    assert_eq!(parse_u64("99"), Some(99));
    assert_eq!(parse_u64("+5"), Some(5));
    assert_eq!(parse_u64("0031337"), Some(31337));
    assert_eq!(parse_u64("18446744073709551615"), Some(u64::MAX));
}

#[test]
fn parse_u64_rejects_everything_else() {
    assert_eq!(parse_u64(""), None);
    assert_eq!(parse_u64("+"), None);
    assert_eq!(parse_u64(" 5"), None);
    assert_eq!(parse_u64("5 "), None);
    assert_eq!(parse_u64("5x"), None);
    assert_eq!(parse_u64("-1"), None);
    assert_eq!(parse_u64("notanumber"), None);
    assert_eq!(parse_u64("18446744073709551616"), None);
    assert_eq!(parse_u64("99999999999999999999999999"), None);
}

#[test]
fn parse_u16_observes_its_bound() {
    assert_eq!(parse_u16("8545"), Some(8545));
    assert_eq!(parse_u16("65535"), Some(65535));
    assert_eq!(parse_u16("65536"), None);
    assert_eq!(parse_u16("notanumber"), None);
}

#[test]
fn fork_parameters_default_when_unset() {
    assert!(matches!(resolve_fork_port(&None), Ok(8545)));
    assert!(matches!(resolve_fork_chain_id(&None), Ok(31337)));
}

#[test]
fn fork_parameters_take_explicit_values() {
    assert!(matches!(resolve_fork_port(&Some("99".to_string())), Ok(99)));
    assert!(matches!(resolve_fork_port(&Some("8546".to_string())), Ok(8546)));
    assert!(matches!(resolve_fork_chain_id(&Some("1".to_string())), Ok(1)));
}

#[test]
fn malformed_fork_port_is_fatal_not_defaulted() {
    let r = resolve_fork_port(&Some("notanumber".to_string()));
    assert!(matches!(
        r,
        Err(ConfigError::NumericParseFailure(ForkParam::Port))
    ));
    let r = resolve_fork_port(&Some("70000".to_string()));
    assert!(matches!(
        r,
        Err(ConfigError::NumericParseFailure(ForkParam::Port))
    ));
}

#[test]
fn malformed_fork_chain_id_is_fatal_not_defaulted() {
    let r = resolve_fork_chain_id(&Some("notanumber".to_string()));
    assert!(matches!(
        r,
        Err(ConfigError::NumericParseFailure(ForkParam::ChainId))
    ));
}
