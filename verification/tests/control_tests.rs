use moonlight::control::{ControlError, SessionPhase};
use moonlight::endpoint::Endpoint;
use moonlight::hosts::{SavedHosts, HOSTS_FORMAT_VERSION};
use moonlight::session::{
    require_success_flag, session_arguments, LaunchConfig, STEREO_SURROUND_AUDIO_INFO,
};
use moonlight::xml::{parse_applications, parse_server_info};

#[test]
fn endpoint_defaults_to_gamestream_http_port() {
    let endpoint = Endpoint::parse("192.168.0.100").expect("endpoint");
    assert_eq!(endpoint.host(), "192.168.0.100");
    assert_eq!(endpoint.http_port(), 47_989);
}

#[test]
fn endpoint_preserves_manual_port() {
    let endpoint = Endpoint::parse("http://sunshine.local:48000").expect("endpoint");
    assert_eq!(endpoint.host(), "sunshine.local");
    assert_eq!(endpoint.http_port(), 48_000);
}

#[test]
fn invalid_saved_host_is_rejected() {
    let mut saved = SavedHosts::default();
    assert!(saved.remember("http://host/path").is_err());
}

#[test]
fn session_starts_idle() {
    assert_eq!(SessionPhase::default(), SessionPhase::Idle);
}

#[test]
fn default_launch_arguments_match_sunshine_requirements() {
    let key = [0x5a; 16];
    let arguments = session_arguments(42, LaunchConfig::default(), &key, -123);
    let value = |name: &str| {
        arguments
            .iter()
            .find_map(|(candidate, value)| {
                if *candidate == name {
                    Some(value.as_str())
                } else {
                    None
                }
            })
            .expect("required launch argument")
    };

    assert_eq!(value("appid"), "42");
    assert_eq!(value("mode"), "1920x1080x60");
    assert_eq!(value("rikey"), "5a5a5a5a5a5a5a5a5a5a5a5a5a5a5a5a");
    assert_eq!(value("rikeyid"), "-123");
    assert_eq!(
        value("surroundAudioInfo"),
        STEREO_SURROUND_AUDIO_INFO.to_string()
    );
    assert_eq!(value("corever"), "1");
}

#[test]
fn parses_success_flags() {
    require_success_flag(
        r#"<root status_code="200"><gamesession>1</gamesession></root>"#,
        "gamesession",
    )
    .expect("successful launch");
    assert!(require_success_flag(
        r#"<root status_code="200"><cancel>0</cancel></root>"#,
        "cancel"
    )
    .is_err());
}

#[test]
fn rejects_empty_stream_dimensions() {
    let config = LaunchConfig {
        width: 0,
        ..LaunchConfig::default()
    };
    assert!(config.validate().is_err());
}

#[test]
fn parses_sunshine_server_info() {
    let info = parse_server_info(
        r#"<?xml version="1.0"?><root status_code="200"><hostname>Studio</hostname><appversion>7.1.431.-1</appversion><GfeVersion>3.23.0.74</GfeVersion><uniqueid>ABC</uniqueid><HttpsPort>47984</HttpsPort><ServerCodecModeSupport>1835777</ServerCodecModeSupport><PairStatus>0</PairStatus><currentgame>0</currentgame><state>SUNSHINE_SERVER_FREE</state></root>"#,
    )
    .expect("server info");

    assert_eq!(info.hostname, "Studio");
    assert_eq!(info.server_major_version().expect("major version"), 7);
    assert_eq!(info.server_codec_mode_support, 1_835_777);
    assert!(!info.paired);
}

#[test]
fn parses_application_list() {
    let apps = parse_applications(
        r#"<root status_code="200"><App><AppTitle>Desktop</AppTitle><ID>1</ID></App><App><AppTitle>Steam &amp; Friends</AppTitle><ID>2</ID></App></root>"#,
    )
    .expect("application list");

    assert_eq!(apps.len(), 2);
    assert_eq!(apps[1].title, "Steam & Friends");
}

#[test]
fn ignores_stale_current_game_when_server_is_free() {
    let info = parse_server_info(
        r#"<root status_code="200"><hostname>Studio</hostname><appversion>7.1.431.-1</appversion><uniqueid>ABC</uniqueid><PairStatus>1</PairStatus><currentgame>42</currentgame><state>SUNSHINE_SERVER_FREE</state></root>"#,
    )
    .expect("server info");

    assert_eq!(info.current_game, 0);
}

#[test]
fn reports_current_game_when_server_is_busy() {
    let info = parse_server_info(
        r#"<root status_code="200"><hostname>Studio</hostname><appversion>7.1.431.-1</appversion><uniqueid>ABC</uniqueid><PairStatus>1</PairStatus><currentgame>42</currentgame><state>SUNSHINE_SERVER_BUSY</state></root>"#,
    )
    .expect("server info");

    assert_eq!(info.current_game, 42);
}

#[test]
fn defaults_legacy_hosts_to_h264_codec_support() {
    let info = parse_server_info(
        r#"<root status_code="200"><hostname>Legacy</hostname><appversion>7.1.431.-1</appversion><uniqueid>ABC</uniqueid><PairStatus>1</PairStatus><currentgame>0</currentgame><state>SUNSHINE_SERVER_FREE</state></root>"#,
    )
    .expect("server info");

    assert_eq!(info.server_codec_mode_support, 1);
}

#[test]
fn endpoint_rejects_empty_paths_queries_and_credentials() {
    assert!(matches!(Endpoint::parse("   "), Err(ControlError::InvalidHost(_))));
    assert!(matches!(
        Endpoint::parse("http://host/path"),
        Err(ControlError::InvalidHost(_))
    ));
    assert!(matches!(
        Endpoint::parse("http://user@host"),
        Err(ControlError::InvalidHost(_))
    ));
    assert!(matches!(
        Endpoint::parse("http://host?x=1"),
        Err(ControlError::InvalidHost(_))
    ));
    let trimmed = Endpoint::parse("  sunshine.local:48010 ").expect("endpoint");
    assert_eq!(trimmed.host(), "sunshine.local");
    assert_eq!(trimmed.http_port(), 48_010);
}

#[test]
fn request_urls_carry_identity_uuid_and_arguments() {
    let endpoint = Endpoint::parse("192.168.0.100").expect("endpoint");
    let arguments = vec![(String::from("appid"), String::from("7"))];
    let url = endpoint
        .url_with_uuid("https", 47984, "launch", "0123abcd", &arguments, [0xab; 16])
        .expect("url");
    assert_eq!(
        url,
        "https://192.168.0.100:47984/launch?uniqueid=0123abcd&uuid=abababababababababababababababab&appid=7"
    );
    let random = endpoint
        .url("http", 47989, "serverinfo", "0123abcd", &[])
        .expect("url");
    assert!(random.starts_with("http://192.168.0.100:47989/serverinfo?uniqueid=0123abcd&uuid="));
    assert_eq!(
        random.len(),
        "http://192.168.0.100:47989/serverinfo?uniqueid=0123abcd&uuid=".len() + 32
    );
}

#[test]
fn remembered_hosts_are_trimmed_deduplicated_and_round_trip() {
    let mut saved = SavedHosts::new();
    saved.remember(" 192.168.0.10 ").expect("first host");
    saved.remember("sunshine.local:47989").expect("second host");
    saved.remember("192.168.0.10").expect("first host again");
    assert_eq!(
        saved.hosts(),
        &[
            String::from("192.168.0.10"),
            String::from("sunshine.local:47989")
        ]
    );
    assert_eq!(saved.last_connected(), Some("192.168.0.10"));
    let (version, hosts, last) = saved.to_document();
    assert_eq!(version, HOSTS_FORMAT_VERSION);
    let reloaded = SavedHosts::from_document(version, hosts, last).expect("reload");
    assert_eq!(reloaded, saved);
    assert!(SavedHosts::from_document(2, Vec::new(), None).is_err());
}

#[test]
fn control_errors_name_their_kind() {
    assert_eq!(
        ControlError::InvalidHost(String::from("host is empty")).to_string(),
        "invalid host: host is empty"
    );
    assert_eq!(
        ControlError::Protocol {
            code: 401,
            message: String::from("denied")
        }
        .to_string(),
        "host rejected request (401): denied"
    );
}

#[test]
fn rejected_responses_report_the_status() {
    let error = parse_server_info(r#"<root status_code="401" status_message="denied"></root>"#)
        .expect_err("rejected");
    assert!(matches!(error, ControlError::Protocol { code: 401, .. }));
    assert!(parse_server_info("not xml").is_err());
}

#[test]
fn host_history_round_trips_and_deduplicates() {
    let mut saved = SavedHosts::default();
    saved.remember("192.168.0.10").expect("remember first host");
    saved
        .remember("sunshine.local:47989")
        .expect("remember second host");
    saved.remember("192.168.0.10").expect("select first host");
    let (version, hosts, last_connected) = saved.to_document();

    let loaded =
        SavedHosts::from_document(version, hosts, last_connected).expect("reload host history");
    assert_eq!(
        loaded.hosts(),
        &[
            String::from("192.168.0.10"),
            String::from("sunshine.local:47989")
        ]
    );
    assert_eq!(loaded.last_connected(), Some("192.168.0.10"));
}

#[test]
fn an_empty_history_has_no_hosts() {
    let saved = SavedHosts::new();
    assert!(saved.hosts().is_empty());
    assert_eq!(saved.last_connected(), None);
    let (version, hosts, last_connected) = saved.to_document();
    let loaded = SavedHosts::from_document(version, hosts, last_connected).expect("reload");
    assert!(loaded.hosts().is_empty());
    assert!(SavedHosts::from_document(1, vec![String::from("http://h/p")], None).is_err());
}

#[test]
fn outside_errors_keep_their_own_text() {
    let io = std::io::Error::new(std::io::ErrorKind::Other, "disk full");
    assert_eq!(
        ControlError::Io(io).to_string(),
        "identity storage failed: disk full"
    );
    let http = reqwest::blocking::Client::new()
        .get("not a url")
        .send()
        .expect_err("a relative URL cannot be requested");
    let expected = format!("network request failed: {http}");
    assert_eq!(ControlError::Http(http).to_string(), expected);
}

#[test]
fn written_port_is_kept_even_when_it_is_the_scheme_default() {
    let plain = Endpoint::parse("sunshine.local:80").expect("endpoint");
    assert_eq!(plain.host(), "sunshine.local");
    assert_eq!(plain.http_port(), 80);
    let https = Endpoint::parse("https://sunshine.local:443/").expect("endpoint");
    assert_eq!(https.http_port(), 443);
    let ipv6 = Endpoint::parse("http://[::1]:80").expect("endpoint");
    assert_eq!(ipv6.http_port(), 80);
    let ipv6_default = Endpoint::parse("http://[::1]").expect("endpoint");
    assert_eq!(ipv6_default.http_port(), 47989);
    let omitted = Endpoint::parse("https://sunshine.local").expect("endpoint");
    assert_eq!(omitted.http_port(), 47989);
    let leading_zero = Endpoint::parse("sunshine.local:080").expect("endpoint");
    assert_eq!(leading_zero.http_port(), 80);
}

#[test]
fn rejected_saved_host_reports_an_invalid_host_and_changes_nothing() {
    let mut saved = SavedHosts::default();
    assert!(matches!(saved.remember("http://host/path"), Err(ControlError::InvalidHost(_))));
    assert!(saved.hosts().is_empty());
    assert_eq!(saved.last_connected(), None);
}
