use kitty_media::config::{
    cleanup_decision, memory_budget, parse_flag, parse_u64, parse_usize, split_addresses,
    CleanupDecision, EnvValues, Settings, DEFAULT_BUFFER_SIZE, DEFAULT_MAX_CONCURRENT_DOWNLOADS,
    DEFAULT_PACKETS_ON_FLY,
};
use kitty_media::remote_components::{RemoteComponents, RemoteComponentsError};

fn empty_env() -> EnvValues {
    EnvValues {
        enable_h2c: None,
        remote_components: None,
        max_concurrent_downloads: None,
        buffer_size: None,
        packets_on_fly: None,
        ffmpeg_path: None,
        delete_older_than: None,
    }
}

#[test]
fn numbers_read_like_std() {
    for s in ["0", "7", "+12", "007", "18446744073709551615", "18446744073709551616", "", "+", "-1", " 1", "1 ", "1_000", "٣"] {
        assert_eq!(parse_u64(s), s.parse::<u64>().ok(), "{s:?}");
        assert_eq!(parse_usize(s), s.parse::<usize>().ok(), "{s:?}");
    }
}

#[test]
fn flags() {
    for s in ["true", "TRUE", "True", "1", "yes", "YeS", "y", "Y", "on", "ON"] {
        assert!(parse_flag(s), "{s}");
    }
    for s in ["", "false", "0", "no", "t", "yes ", " on", "enable", "tru", "\u{212A}"] {
        assert!(!parse_flag(s), "{s}");
    }
    for s in ["true", "Yes", "oN", "x", "ON!"] {
        assert_eq!(
            parse_flag(s),
            matches!(s.to_lowercase().as_str(), "true" | "1" | "yes" | "y" | "on")
        );
    }
}

#[test]
fn address_parts() {
    assert_eq!(split_addresses("0.0.0.0:5000, [::]:5000"), vec!["0.0.0.0:5000", "[::]:5000"]);
    assert_eq!(split_addresses(""), vec![""]);
    assert_eq!(split_addresses("a,"), vec!["a", ""]);
    assert_eq!(split_addresses(" a , b ,c"), vec!["a", "b", "c"]);
}

#[test]
fn default_settings() {
    let s = Settings::from_env(&empty_env()).unwrap();
    assert!(!s.enable_h2c);
    assert_eq!(s.remote_components, RemoteComponents::Disabled);
    assert_eq!(s.max_concurrent_downloads, DEFAULT_MAX_CONCURRENT_DOWNLOADS);
    assert_eq!(s.max_concurrent_downloads, 128);
    assert_eq!(s.buffer_size, DEFAULT_BUFFER_SIZE);
    assert_eq!(s.buffer_size, 32 * 1024);
    assert_eq!(s.packets_on_fly, DEFAULT_PACKETS_ON_FLY);
    assert_eq!(s.ffmpeg_path, "ffmpeg");
    assert_eq!(s.delete_older_than_days, None);
}

#[test]
fn configured_settings() {
    let env = EnvValues {
        enable_h2c: Some("Yes".to_string()),
        remote_components: Some("ejs:github".to_string()),
        max_concurrent_downloads: Some("4".to_string()),
        buffer_size: Some("oops".to_string()),
        packets_on_fly: Some("+16".to_string()),
        ffmpeg_path: Some("/opt/ffmpeg".to_string()),
        delete_older_than: Some("30".to_string()),
    };
    let s = Settings::from_env(&env).unwrap();
    assert!(s.enable_h2c);
    assert_eq!(s.remote_components, RemoteComponents::EjsGitHub);
    assert_eq!(s.max_concurrent_downloads, 4);
    assert_eq!(s.buffer_size, 32768);
    assert_eq!(s.packets_on_fly, 16);
    assert_eq!(s.ffmpeg_path, "/opt/ffmpeg");
    assert_eq!(s.delete_older_than_days, Some(30));
}

#[test]
fn remote_components_list_setting() {
    let mut env = empty_env();
    env.remote_components = Some("ejs:npm,ejs:github".to_string());
    let s = Settings::from_env(&env).unwrap();
    assert_eq!(s.remote_components, RemoteComponents::EjsGitHubAndNpm);
}

#[test]
fn bad_remote_components_setting() {
    let mut env = empty_env();
    env.remote_components = Some("github".to_string());
    assert_eq!(Settings::from_env(&env), Err(RemoteComponentsError::Invalid));
}

#[test]
fn memory() {
    assert_eq!(memory_budget(32768, 128, 128), (4194304, 536870912));
}

#[test]
fn cleanup() {
    let day = 86400;
    assert_eq!(cleanup_decision(10 * day, 0, 0, 1), CleanupDecision::Skip);
    assert_eq!(cleanup_decision(10 * day, 8 * day, 0, 1), CleanupDecision::Delete);
    assert_eq!(cleanup_decision(10 * day, 8 * day, 9 * day + 1, 1), CleanupDecision::Keep);
    assert_eq!(cleanup_decision(10 * day, 9 * day, 0, 1), CleanupDecision::Keep);
    assert_eq!(cleanup_decision(10 * day, 9 * day - 1, 0, 1), CleanupDecision::Delete);
    assert_eq!(cleanup_decision(5, 5, 0, 0), CleanupDecision::Keep);
}
