use arroyo_boot::cluster::scheduler_label;
use arroyo_boot::cluster::BootstrapContext;
use arroyo_boot::cluster::ClusterId;
use arroyo_boot::config::parse_port;
use arroyo_boot::config::ConfigError;
use arroyo_boot::config::ConfigParam;
use arroyo_boot::config::DatabaseConfig;

fn full() -> (
    Option<String>,
    Option<u16>,
    Option<String>,
    Option<String>,
    Option<String>,
) {
    (
        Some("localhost".to_string()),
        Some(5432),
        Some("arroyo".to_string()),
        Some("arroyo".to_string()),
        Some("arroyo".to_string()),
    )
}

#[test]
fn resolve_succeeds_when_every_parameter_is_present() {
    let (h, p, u, w, n) = full();
    let c = DatabaseConfig::resolve(h, p, u, w, n).expect("all parameters were present");
    assert_eq!(c.host, "localhost");
    assert_eq!(c.port, 5432);
    assert_eq!(c.user, "arroyo");
    assert_eq!(c.password, "arroyo");
    assert_eq!(c.name, "arroyo");
}

#[test]
fn resolve_names_the_first_missing_parameter() {
    let (_, p, u, w, n) = full();
    assert_eq!(
        DatabaseConfig::resolve(None, p, u, w, n).unwrap_err(),
        ConfigError::Missing(ConfigParam::Host)
    );
    let (h, _, u, w, n) = full();
    assert_eq!(
        DatabaseConfig::resolve(h, None, u, w, n).unwrap_err(),
        ConfigError::Missing(ConfigParam::Port)
    );
    let (h, p, _, w, n) = full();
    assert_eq!(
        DatabaseConfig::resolve(h, p, None, w, n).unwrap_err(),
        ConfigError::Missing(ConfigParam::User)
    );
    let (h, p, u, _, n) = full();
    assert_eq!(
        DatabaseConfig::resolve(h, p, u, None, n).unwrap_err(),
        ConfigError::Missing(ConfigParam::Password)
    );
    let (h, p, u, w, _) = full();
    assert_eq!(
        DatabaseConfig::resolve(h, p, u, w, None).unwrap_err(),
        ConfigError::Missing(ConfigParam::Name)
    );
}

#[test]
fn parse_port_accepts_exactly_the_decimal_port_range() {
    assert_eq!(parse_port(&b"5432".to_vec()), Some(5432));
    assert_eq!(parse_port(&b"0".to_vec()), Some(0));
    assert_eq!(parse_port(&b"65535".to_vec()), Some(65535));
    assert_eq!(parse_port(&b"65536".to_vec()), None);
    assert_eq!(parse_port(&b"70000".to_vec()), None);
    assert_eq!(parse_port(&b"123456789".to_vec()), None);
    assert_eq!(parse_port(&b"".to_vec()), None);
    assert_eq!(parse_port(&b"54x2".to_vec()), None);
    assert_eq!(parse_port(&b"-1".to_vec()), None);
    assert_eq!(parse_port(&b"00080".to_vec()), Some(80));
}

#[test]
fn the_cluster_identity_renders_hyphenated_lowercase_hex() {
    let id = ClusterId {
        bytes: [
            0x55, 0x0e, 0x84, 0x00, 0xe2, 0x9b, 0x41, 0xd4, 0xa7, 0x16, 0x44, 0x66, 0x55, 0x44,
            0x00, 0x00,
        ],
    };
    let rendered = String::from_utf8(id.hyphenated_ascii()).expect("the rendering is ASCII");
    assert_eq!(rendered, "550e8400-e29b-41d4-a716-446655440000");

    let zero = ClusterId { bytes: [0; 16] };
    let rendered = String::from_utf8(zero.hyphenated_ascii()).expect("the rendering is ASCII");
    assert_eq!(rendered, "00000000-0000-0000-0000-000000000000");

    let top = ClusterId { bytes: [0xff; 16] };
    let rendered = String::from_utf8(top.hyphenated_ascii()).expect("the rendering is ASCII");
    assert_eq!(rendered, "ffffffff-ffff-ffff-ffff-ffffffffffff");
}

#[test]
fn the_scheduler_label_defaults_to_process() {
    assert_eq!(scheduler_label(None), "process");
    assert_eq!(scheduler_label(Some("kubernetes".to_string())), "kubernetes");
}

#[test]
fn the_bootstrap_context_carries_the_identity_and_label() {
    let id = ClusterId { bytes: [1; 16] };
    let context = BootstrapContext::new(id, None);
    assert_eq!(context.scheduler, "process");
    assert_eq!(context.cluster_id.bytes, [1; 16]);
}
