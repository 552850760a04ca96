use cerebrate::models::Defaults;
use cerebrate::settings::{defaults_from_settings, parse_u16, settings_of};

#[test]
fn ports_read_as_std_reads_them() {
    for s in ["0", "17531", "+80", "65535", "65536", "", "+", "-1", " 80", "08", "99999999999", "12a", "++1", "٣"] {
        assert_eq!(parse_u16(s), s.parse::<u16>().ok(), "reading {:?}", s);
    }
}

#[test]
fn missing_or_unreadable_settings_fall_back() {
    let d = defaults_from_settings(None, None, None, None);
    assert_eq!(d.port, 17531);
    assert_eq!(d.container_subnet_base, "10.200");
    assert_eq!(d.forgejo_url, "http://localhost:3000");
    assert_eq!(d.forgejo_token, "");
    let d = defaults_from_settings(Some("not a port".to_string()), Some("10.9".to_string()), None, Some("tok".to_string()));
    assert_eq!(d.port, 17531);
    assert_eq!(d.container_subnet_base, "10.9");
    assert_eq!(d.forgejo_token, "tok");
}

#[test]
fn written_settings_read_back() {
    let d = Defaults {
        port: 8080,
        container_subnet_base: "10.50".to_string(),
        forgejo_url: "https://git.example.com".to_string(),
        forgejo_token: "t0k".to_string(),
    };
    let v = settings_of(&d);
    assert_eq!(v[0], ("port".to_string(), "8080".to_string()));
    let setting = |k: &str| v.iter().find(|(key, _)| key == k).map(|(_, value)| value.clone());
    let back = defaults_from_settings(
        setting("port"),
        setting("container_subnet_base"),
        setting("forgejo_url"),
        setting("forgejo_token"),
    );
    assert_eq!(back.port, d.port);
    assert_eq!(back.container_subnet_base, d.container_subnet_base);
    assert_eq!(back.forgejo_url, d.forgejo_url);
    assert_eq!(back.forgejo_token, d.forgejo_token);
}
