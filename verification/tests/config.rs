use lg_buddy::config::{
    parse_config, Config, ConfigError, HdmiInput, ScreenBackend, ScreenRestorePolicy,
    DEFAULT_IDLE_TIMEOUT,
};
use lg_buddy::paths::{
    parse_home_from_passwd_entries, resolve_config_path, ConfigPathError, ConfigPathSources,
};

#[test]
fn explicit_config_override_wins() {
    let resolved = resolve_config_path(ConfigPathSources {
        explicit_config: Some("/tmp/custom.env".as_bytes()),
        install_pointer_config: Some("/tmp/pointer.env".as_bytes()),
        sudo_user_home: Some("/tmp/sudo-home".as_bytes()),
        xdg_config_home: Some("/tmp/xdg".as_bytes()),
        home: Some("/tmp/home".as_bytes()),
    });

    assert_eq!(resolved, Ok("/tmp/custom.env".into()));
}

#[test]
fn xdg_config_home_is_used_when_override_is_missing() {
    let resolved = resolve_config_path(ConfigPathSources {
        explicit_config: None,
        install_pointer_config: None,
        sudo_user_home: None,
        xdg_config_home: Some("/tmp/xdg".as_bytes()),
        home: Some("/tmp/home".as_bytes()),
    });

    assert_eq!(resolved, Ok("/tmp/xdg/lg-buddy/config.env".into()));
}

#[test]
fn home_is_used_when_xdg_is_missing() {
    let resolved = resolve_config_path(ConfigPathSources {
        explicit_config: None,
        install_pointer_config: None,
        sudo_user_home: None,
        xdg_config_home: None,
        home: Some("/tmp/home".as_bytes()),
    });

    assert_eq!(resolved, Ok("/tmp/home/.config/lg-buddy/config.env".into()));
}

#[test]
fn missing_inputs_returns_error() {
    let resolved = resolve_config_path(ConfigPathSources::default());

    assert_eq!(resolved, Err(ConfigPathError::NotConfigured));
}

#[test]
fn install_pointer_config_is_used_before_user_env_paths() {
    let resolved = resolve_config_path(ConfigPathSources {
        explicit_config: None,
        install_pointer_config: Some("/tmp/pointer.env".as_bytes()),
        sudo_user_home: Some("/tmp/sudo-home".as_bytes()),
        xdg_config_home: Some("/tmp/xdg".as_bytes()),
        home: Some("/tmp/home".as_bytes()),
    });

    assert_eq!(resolved, Ok("/tmp/pointer.env".into()));
}

#[test]
fn sudo_user_home_is_used_before_current_home() {
    let resolved = resolve_config_path(ConfigPathSources {
        explicit_config: None,
        install_pointer_config: None,
        sudo_user_home: Some("/home/installing-user".as_bytes()),
        xdg_config_home: Some("/tmp/xdg".as_bytes()),
        home: Some("/root".as_bytes()),
    });

    assert_eq!(
        resolved,
        Ok("/home/installing-user/.config/lg-buddy/config.env".into())
    );
}

#[test]
fn passwd_home_lookup_returns_matching_user_home() {
    let passwd = "\
root:x:0:0:root:/root:/bin/bash\n\
vas:x:1000:1000:vas:/home/vas:/bin/bash\n";

    let home = parse_home_from_passwd_entries(passwd, "vas");

    assert_eq!(home, Some("/home/vas".into()));
}

#[test]
fn parse_valid_config() {
    let config = parse_config(
        "\
            # LG Buddy configuration
            tv_ip=192.168.1.42
            tv_mac=aa:bb:cc:dd:ee:ff
            input=HDMI_2
            screen_backend=gnome
            screen_idle_timeout=450
            screen_restore_policy=aggressive
            ",
    )
    .expect("parse valid config");

    assert_eq!(config.tv_ip.to_string(), "192.168.1.42");
    assert_eq!(config.tv_mac.to_string(), "aa:bb:cc:dd:ee:ff");
    assert_eq!(config.input, HdmiInput::Hdmi2);
    assert_eq!(config.screen_backend, ScreenBackend::Gnome);
    assert_eq!(config.screen_idle_timeout, 450);
    assert_eq!(
        config.screen_restore_policy,
        ScreenRestorePolicy::Aggressive
    );
}

#[test]
fn hdmi_input_round_trips_through_app_id() {
    for input in [
        HdmiInput::Hdmi1,
        HdmiInput::Hdmi2,
        HdmiInput::Hdmi3,
        HdmiInput::Hdmi4,
    ] {
        assert_eq!(HdmiInput::from_app_id(input.expected_app_id()), Some(input));
    }
}

#[test]
fn parse_uses_defaults_for_optional_values() {
    let config = parse_config(
        "\
            tv_ip=192.168.1.42
            tv_mac=aa:bb:cc:dd:ee:ff
            input=HDMI_1
            ",
    )
    .expect("parse config with defaults");

    assert_eq!(
        config,
        Config {
            tv_ip: "192.168.1.42".parse().expect("ipv4"),
            tv_mac: "aa:bb:cc:dd:ee:ff".parse().expect("mac"),
            tv_subnet: None,
            input: HdmiInput::Hdmi1,
            screen_backend: ScreenBackend::Auto,
            screen_idle_timeout: DEFAULT_IDLE_TIMEOUT,
            screen_restore_policy: ScreenRestorePolicy::MarkerOnly,
        }
    );
}

#[test]
fn parse_sanitizes_inline_comments_on_values() {
    let config = parse_config(
        "\
            tv_ip=192.168.1.42 # living room
            tv_mac=aa:bb:cc:dd:ee:ff # detected
            input=HDMI_3 # main PC
            screen_backend=gnome # use GNOME
            screen_idle_timeout=450 # seconds
            screen_restore_policy=aggressive # restore on wake without a marker
            ",
    )
    .expect("parse sanitized config");

    assert_eq!(config.tv_ip.to_string(), "192.168.1.42");
    assert_eq!(config.tv_mac.to_string(), "aa:bb:cc:dd:ee:ff");
    assert_eq!(config.input, HdmiInput::Hdmi3);
    assert_eq!(config.screen_backend, ScreenBackend::Gnome);
    assert_eq!(config.screen_idle_timeout, 450);
    assert_eq!(
        config.screen_restore_policy,
        ScreenRestorePolicy::Aggressive
    );
}

#[test]
fn parse_accepts_conservative_restore_policy_alias() {
    let config = parse_config(
        "\
            tv_ip=192.168.1.42
            tv_mac=aa:bb:cc:dd:ee:ff
            input=HDMI_1
            screen_restore_policy=conservative
            ",
    )
    .expect("parse config with conservative alias");

    assert_eq!(
        config.screen_restore_policy,
        ScreenRestorePolicy::MarkerOnly
    );
}

#[test]
fn parse_invalid_optional_values_fall_back_to_defaults() {
    let config = parse_config(
        "\
            tv_ip=192.168.1.42
            tv_mac=aa:bb:cc:dd:ee:ff
            input=HDMI_1
            screen_backend=not-a-backend
            screen_idle_timeout=not-a-number
            screen_restore_policy=not-a-policy
            ",
    )
    .expect("parse config with malformed optional values");

    assert_eq!(config.screen_backend, ScreenBackend::Auto);
    assert_eq!(config.screen_idle_timeout, DEFAULT_IDLE_TIMEOUT);
    assert_eq!(
        config.screen_restore_policy,
        ScreenRestorePolicy::MarkerOnly
    );
}

#[test]
fn parse_uses_last_duplicate_value() {
    let config = parse_config(
        "\
            tv_ip=10.0.0.1
            tv_ip=10.0.0.2
            tv_mac=aa:bb:cc:dd:ee:ff
            input=HDMI_4
            ",
    )
    .expect("parse duplicate config");

    assert_eq!(config.tv_ip.to_string(), "10.0.0.2");
}

#[test]
fn parse_rejects_missing_required_keys() {
    let err = parse_config(
        "\
            tv_ip=192.168.1.42
            input=HDMI_1
            ",
    )
    .expect_err("missing tv_mac should fail");

    assert_eq!(err.to_string(), "missing required config key `tv_mac`");
}

#[test]
fn parse_rejects_invalid_values() {
    let err = parse_config(
        "\
            tv_ip=not-an-ip
            tv_mac=aa:bb:cc:dd:ee:ff
            input=HDMI_1
            ",
    )
    .expect_err("invalid IP should fail");

    assert!(matches!(
        err,
        ConfigError::InvalidValue { key: "tv_ip", .. }
    ));
}

#[test]
fn parse_ignores_comments_and_unknown_keys() {
    let config = parse_config(
        "\
            # comment
            unused=value
            tv_ip=192.168.1.42
            tv_mac=aa:bb:cc:dd:ee:ff
            input=HDMI_3
            ",
    )
    .expect("parse config with unknown keys");

    assert_eq!(config.input, HdmiInput::Hdmi3);
}
