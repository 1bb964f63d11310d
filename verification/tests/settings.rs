use lg_buddy::config::{
    load_config, parse_config, sanitize_config_value, ConfigError, HdmiInput, MacAddress,
    ScreenBackend, ScreenRestorePolicy,
};
use lg_buddy::delay::{
    screen_on_initial_wake_delay, screen_on_retry_delay, startup_initial_wake_delay,
    startup_retry_delay, system_sleep_retry_delay, DelayEnvironment, Delays,
};
use lg_buddy::failure::{IoError, IoErrorKind};
use lg_buddy::net::Ipv4Addr;
use lg_buddy::paths::{
    load_install_pointer_config, parse_home_from_passwd_entries, resolve_config_path,
    resolve_config_path_from_env, resolve_sudo_user_home, ConfigPathError, ConfigPathSources,
    PathEnvironment,
};

const FULL: &str = "tv_ip=192.168.1.42\ntv_mac=aa:bb:cc:dd:ee:ff\ninput=HDMI_2\n";

#[test]
fn names_are_read_back() {
    for backend in [
        ScreenBackend::Auto,
        ScreenBackend::Gnome,
        ScreenBackend::Swayidle,
    ] {
        assert_eq!(backend.as_str().parse(), Ok(backend));
    }
    for policy in [
        ScreenRestorePolicy::MarkerOnly,
        ScreenRestorePolicy::Aggressive,
    ] {
        assert_eq!(policy.as_str().parse(), Ok(policy));
    }
    for input in [
        HdmiInput::Hdmi1,
        HdmiInput::Hdmi2,
        HdmiInput::Hdmi3,
        HdmiInput::Hdmi4,
    ] {
        assert_eq!(input.as_str().parse(), Ok(input));
    }
    assert_eq!("Auto".parse::<ScreenBackend>(), Err(()));
    assert_eq!("marker-only".parse::<ScreenRestorePolicy>(), Err(()));
    assert_eq!("hdmi_1".parse::<HdmiInput>(), Err(()));
    assert_eq!(HdmiInput::from_app_id("com.webos.app.hdmi5"), None);
}

#[test]
fn hardware_addresses_are_read_and_written() {
    let mac: MacAddress = "01:23:45:67:89:aB".parse().unwrap();
    assert_eq!(mac.octets(), [0x01, 0x23, 0x45, 0x67, 0x89, 0xab]);
    assert_eq!(mac.to_string(), "01:23:45:67:89:ab");
    assert_eq!(MacAddress::parse(&mac.to_string()), Some(mac));
    assert_eq!(
        "+a:00:00:00:00:0f".parse::<MacAddress>().unwrap().octets(),
        [10, 0, 0, 0, 0, 15]
    );
    for wrong in [
        "",
        "01:23:45:67:89",
        "01:23:45:67:89:ab:cd",
        "1:23:45:67:89:ab",
        "001:23:45:67:89:ab",
        "0g:23:45:67:89:ab",
        "-1:23:45:67:89:ab",
        "é:23:45:67:89:ab",
        "01-23-45-67-89-ab",
    ] {
        assert_eq!(wrong.parse::<MacAddress>(), Err(()), "{:?}", wrong);
    }
}

#[test]
fn network_addresses_are_read_and_written() {
    for (text, octets) in [
        ("0.0.0.0", [0, 0, 0, 0]),
        ("192.168.1.42", [192, 168, 1, 42]),
        ("255.255.255.255", [255, 255, 255, 255]),
    ] {
        let address: Ipv4Addr = text.parse().unwrap();
        assert_eq!(address.octets(), octets);
        assert_eq!(address.to_string(), text);
    }
    for wrong in [
        "", "1.2.3", "1.2.3.4.5", "256.1.1.1", "01.2.3.4", "1.2.3.4 ", " 1.2.3.4", "1..2.3",
        "+1.2.3.4", "a.b.c.d", "1.2.3.0000",
    ] {
        assert_eq!(wrong.parse::<Ipv4Addr>(), Err(()), "{:?}", wrong);
    }
}

#[test]
fn values_lose_comments_and_whitespace() {
    assert_eq!(sanitize_config_value("  gnome  # best \t"), "gnome");
    assert_eq!(sanitize_config_value("#"), "");
    assert_eq!(sanitize_config_value("a # b # c"), "a");
    let clean = sanitize_config_value(" x y #z");
    assert_eq!(clean, "x y");
    assert_eq!(sanitize_config_value(&clean), clean);
}

#[test]
fn each_required_key_is_missed_and_checked() {
    for (without, message) in [
        ("tv_mac=aa:bb:cc:dd:ee:ff\ninput=HDMI_1", "missing required config key `tv_ip`"),
        ("tv_ip=1.2.3.4\ninput=HDMI_1", "missing required config key `tv_mac`"),
        ("tv_ip=1.2.3.4\ntv_mac=aa:bb:cc:dd:ee:ff", "missing required config key `input`"),
        (
            "tv_ip=x\ntv_mac=aa:bb:cc:dd:ee:ff\ninput=HDMI_1",
            "invalid value for `tv_ip`: `x`; expected an IPv4 address",
        ),
        (
            "tv_ip=1.2.3.4\ntv_mac=y\ninput=HDMI_1",
            "invalid value for `tv_mac`: `y`; expected a MAC address like aa:bb:cc:dd:ee:ff",
        ),
        (
            "tv_ip=1.2.3.4\ntv_mac=aa:bb:cc:dd:ee:ff\ninput=HDMI_9",
            "invalid value for `input`: `HDMI_9`; expected one of HDMI_1, HDMI_2, HDMI_3, HDMI_4",
        ),
    ] {
        assert_eq!(parse_config(without).unwrap_err().to_string(), message);
    }
}

#[test]
fn the_first_fault_is_told() {
    assert!(matches!(
        parse_config("tv_mac=bad\ninput=bad"),
        Err(ConfigError::MissingRequiredKey("tv_ip"))
    ));
    assert!(matches!(
        parse_config("tv_ip=1.2.3.4\ntv_mac=bad\n"),
        Err(ConfigError::InvalidValue { key: "tv_mac", .. })
    ));
}

#[test]
fn a_file_that_cannot_be_read_is_told() {
    let error = load_config(Err(IoError {
        kind: IoErrorKind::Other,
        message: "no such file".to_string(),
    }))
    .unwrap_err();
    assert!(matches!(error, ConfigError::Io(_)));
    assert_eq!(error.to_string(), "no such file");
    assert!(load_config(Ok(FULL.to_string())).is_ok());
}

#[test]
fn the_subnet_is_kept_where_it_reads() {
    let with = |value: &str| parse_config(&format!("{}tv_subnet={}", FULL, value)).unwrap();
    assert_eq!(
        with("255.255.0.0").tv_subnet,
        Some(Ipv4Addr::new(255, 255, 0, 0))
    );
    assert_eq!(with("wide").tv_subnet, None);
    assert_eq!(parse_config(FULL).unwrap().tv_subnet, None);
}

#[test]
fn a_later_line_wins_and_other_lines_change_nothing() {
    let plain = parse_config(FULL).unwrap();
    let later = parse_config(&format!("{}input=HDMI_4", FULL)).unwrap();
    assert_eq!(later.input, HdmiInput::Hdmi4);
    let noise = parse_config(&format!("{}# input=HDMI_4\n\nnothing\nother=1\n", FULL)).unwrap();
    assert_eq!(noise, plain);
    let emptied = parse_config(&format!("{}input=", FULL)).unwrap_err();
    assert!(matches!(
        emptied,
        ConfigError::InvalidValue { key: "input", .. }
    ));
}

#[test]
fn keys_and_values_may_have_whitespace_and_equal_signs() {
    let config =
        parse_config("\r\n tv_ip =\t10.0.0.1 \r\ntv_mac = aa:bb:cc:dd:ee:ff#x\r\ninput=HDMI_1=\n input = HDMI_3")
            .unwrap();
    assert_eq!(config.tv_ip, Ipv4Addr::new(10, 0, 0, 1));
    assert_eq!(config.input, HdmiInput::Hdmi3);
}

#[test]
fn directories_are_joined_with_one_separator() {
    let with_home = |home: &[u8]| {
        resolve_config_path(ConfigPathSources {
            home: Some(home),
            ..ConfigPathSources::default()
        })
        .unwrap()
    };
    assert_eq!(with_home(b"/h"), b"/h/.config/lg-buddy/config.env".to_vec());
    assert_eq!(with_home(b"/h/"), b"/h/.config/lg-buddy/config.env".to_vec());
    assert_eq!(with_home(b""), b".config/lg-buddy/config.env".to_vec());
    assert_eq!(
        with_home(&[b'/', 0xff]),
        [&[b'/', 0xff][..], b"/.config/lg-buddy/config.env"].concat()
    );
}

#[test]
fn the_pointer_is_the_first_line() {
    assert_eq!(
        load_install_pointer_config(Some("  /etc/x.env \nignored\n")),
        Some(b"/etc/x.env".to_vec())
    );
    assert_eq!(load_install_pointer_config(Some("\n/etc/x.env")), None);
    assert_eq!(load_install_pointer_config(Some("")), None);
    assert_eq!(load_install_pointer_config(None), None);
}

const PASSWD: &str = "root:x:0:0:root:/root:/bin/sh\nalice:x:1:1:A:/home/alice:/bin/sh\nalice:x:1:1:A:/other:/bin/sh\nbob:x:2:2:B\ncarol:x:3:3:C::/bin/sh\n";

#[test]
fn homes_are_found_in_the_user_list() {
    let home = |user: &str| parse_home_from_passwd_entries(PASSWD, user);
    assert_eq!(home("alice"), Some(b"/home/alice".to_vec()));
    assert_eq!(home("bob"), None);
    assert_eq!(home("carol"), None);
    assert_eq!(home("dave"), None);
}

#[test]
fn the_user_behind_sudo_counts_unless_it_is_root() {
    let home = |user: Option<&str>, passwd: Option<&str>| {
        resolve_sudo_user_home(&user.map(str::to_string), &passwd.map(str::to_string))
    };
    assert_eq!(home(Some("alice"), Some(PASSWD)), Some(b"/home/alice".to_vec()));
    assert_eq!(home(Some("root"), Some(PASSWD)), None);
    assert_eq!(home(Some(""), Some(PASSWD)), None);
    assert_eq!(home(Some("alice"), None), None);
    assert_eq!(home(None, Some(PASSWD)), None);
}

fn bare_environment() -> PathEnvironment {
    PathEnvironment {
        explicit_config: None,
        install_pointer: None,
        sudo_user: None,
        passwd: None,
        xdg_config_home: None,
        home: None,
    }
}

#[test]
fn stronger_places_win() {
    let mut environment = bare_environment();
    let error = resolve_config_path_from_env(&environment).unwrap_err();
    assert_eq!(error, ConfigPathError::NotConfigured);
    assert_eq!(
        error.to_string(),
        "could not resolve a config path from override, XDG, or HOME"
    );

    environment.home = Some(b"/home/me".to_vec());
    let mut found = vec![resolve_config_path_from_env(&environment).unwrap()];
    environment.xdg_config_home = Some(b"/xdg".to_vec());
    found.push(resolve_config_path_from_env(&environment).unwrap());
    environment.sudo_user = Some("alice".to_string());
    environment.passwd = Some(PASSWD.to_string());
    found.push(resolve_config_path_from_env(&environment).unwrap());
    environment.install_pointer = Some("/etc/pointed.env\n".to_string());
    found.push(resolve_config_path_from_env(&environment).unwrap());
    environment.explicit_config = Some(b"".to_vec());
    found.push(resolve_config_path_from_env(&environment).unwrap());
    assert_eq!(
        found,
        [
            "/home/me/.config/lg-buddy/config.env",
            "/xdg/lg-buddy/config.env",
            "/home/alice/.config/lg-buddy/config.env",
            "/etc/pointed.env",
            "",
        ]
        .map(|path| path.as_bytes().to_vec())
    );
}

#[test]
fn usual_delays_grow_up_to_half_a_minute() {
    let delays = Delays::usual();
    assert_eq!(screen_on_initial_wake_delay(&delays), 6);
    assert_eq!(startup_initial_wake_delay(&delays), 6);
    assert_eq!(system_sleep_retry_delay(&delays), 1);
    for (attempt, seconds) in [(1, 2), (6, 12), (14, 28), (15, 30), (16, 30), (0x7fff_ffff, 30)] {
        assert_eq!(screen_on_retry_delay(&delays, attempt), seconds);
        assert_eq!(startup_retry_delay(&delays, attempt), seconds);
    }
}

#[test]
fn variables_override_the_delays() {
    let delays = Delays::from_env(&DelayEnvironment {
        screen_on_initial_wake: Some("0".to_string()),
        screen_on_retry: Some("3".to_string()),
        startup_initial_wake: Some("+4".to_string()),
        startup_retry: Some("soon".to_string()),
        sleep_retry: Some(" 5".to_string()),
    });
    assert_eq!(screen_on_initial_wake_delay(&delays), 0);
    assert_eq!(screen_on_retry_delay(&delays, 6), 3);
    assert_eq!(startup_initial_wake_delay(&delays), 4);
    assert_eq!(startup_retry_delay(&delays, 6), 12);
    assert_eq!(system_sleep_retry_delay(&delays), 1);
}
