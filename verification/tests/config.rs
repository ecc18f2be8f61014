use bajam::config::{get_config_from_args, Args, Config, ConfigError};

#[test]
fn local_address_by_default() {
    let c = get_config_from_args(Args { tailnet: false }, Some("127.0.0.1:3000".into()), Some("100.64.0.1:80".into()))
        .unwrap();
    assert_eq!(c.tcp_addr, "127.0.0.1:3000");
}

#[test]
fn tailnet_address_with_flag() {
    let c = get_config_from_args(Args { tailnet: true }, Some("127.0.0.1:3000".into()), Some("100.64.0.1:80".into()))
        .unwrap();
    assert_eq!(c.tcp_addr, "100.64.0.1:80");
}

#[test]
fn missing_address_variable_is_an_error() {
    let e = get_config_from_args(Args { tailnet: true }, Some("127.0.0.1:3000".into()), None).unwrap_err();
    assert_eq!(e, ConfigError::TailnetMissing);
    assert_eq!(e.message(), "TCP_TAILNET is not configured in the environment file yet. You must define it.");
    let e = get_config_from_args(Args { tailnet: false }, None, Some("x".into())).unwrap_err();
    assert_eq!(e, ConfigError::LocalMissing);
    assert_eq!(e.message(), "TCP_LOCAL is not configured anymore in the environment file. You must define it");
}

#[test]
fn from_args_uses_the_given_value() {
    let c = Config::from_args(&Args { tailnet: false }, Some("0.0.0.0:8080".into())).unwrap();
    assert_eq!(c.tcp_addr, "0.0.0.0:8080");
    assert_eq!(Args { tailnet: true }.address_variable(), "TCP_TAILNET");
    assert_eq!(Args { tailnet: false }.address_variable(), "TCP_LOCAL");
}
