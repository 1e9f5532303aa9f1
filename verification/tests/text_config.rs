use kernel_supervisor::config::{
    Config, RawConfig, get_browser_width, get_core_ready_http_timeout_ms, get_core_ready_retry_count,
    get_core_ready_retry_interval_ms, get_core_shutdown_http_timeout_ms,
    get_core_shutdown_wait_ms, get_debounce_ms,
};
use kernel_supervisor::endpoints::{
    endpoint, health_url, navigate_url, position_url, shutdown_url, status_url, update_check_url,
    update_execute_url,
};
use kernel_supervisor::text::{
    chars_of, join, is_white_space_char, parse_i32, parse_u64, parse_usize, same_text, strip,
    strip_end, strip_start, trim, trim_end_matches, trim_matches, CharClass,
};

#[test]
fn defaults_apply_without_a_setting() {
    assert_eq!(get_browser_width(None), 500);
    assert_eq!(get_debounce_ms(None), 200);
    assert_eq!(get_core_ready_retry_count(None), 30);
    assert_eq!(get_core_ready_retry_interval_ms(None), 2000);
    assert_eq!(get_core_ready_http_timeout_ms(None), 2000);
    assert_eq!(get_core_shutdown_http_timeout_ms(None), 2000);
    assert_eq!(get_core_shutdown_wait_ms(None), 500);
}

#[test]
fn settings_are_read_as_numbers() {
    assert_eq!(get_browser_width(Some("640")), 640);
    assert_eq!(get_browser_width(Some("-20")), -20);
    assert_eq!(get_debounce_ms(Some("50")), 50);
    assert_eq!(get_core_ready_retry_count(Some("0")), 0);
    assert_eq!(get_core_ready_retry_interval_ms(Some("+1500")), 1500);
    assert_eq!(get_core_ready_http_timeout_ms(Some("007")), 7);
    assert_eq!(get_core_shutdown_http_timeout_ms(Some("18446744073709551615")), u64::MAX);
    assert_eq!(get_core_shutdown_wait_ms(Some("1")), 1);
}

#[test]
fn unreadable_settings_fall_back_to_the_default() {
    assert_eq!(get_browser_width(Some("wide")), 500);
    assert_eq!(get_browser_width(Some("2147483648")), 500);
    assert_eq!(get_browser_width(Some("")), 500);
    assert_eq!(get_debounce_ms(Some(" 50")), 200);
    assert_eq!(get_debounce_ms(Some("-1")), 200);
    assert_eq!(get_core_ready_retry_count(Some("3.5")), 30);
    assert_eq!(get_core_ready_retry_interval_ms(Some("2_000")), 2000);
    assert_eq!(get_core_ready_http_timeout_ms(Some("18446744073709551616")), 2000);
    assert_eq!(get_core_shutdown_http_timeout_ms(Some("+")), 2000);
    assert_eq!(get_core_shutdown_wait_ms(Some("5s")), 500);
}

#[test]
fn decimal_parsing_agrees_with_std() {
    let samples = [
        "", "0", "1", "+1", "-1", "+", "-", "--1", "+-1", "00012", "2147483647", "2147483648",
        "-2147483648", "-2147483649", "18446744073709551615", "18446744073709551616",
        "99999999999999999999999", "1 ", " 1", "1_0", "٣", "12a", "-0", "+0", "4294967296",
    ];
    for s in samples {
        assert_eq!(parse_u64(s), s.parse::<u64>().ok(), "u64 of {:?}", s);
        assert_eq!(parse_usize(s), s.parse::<usize>().ok(), "usize of {:?}", s);
        assert_eq!(parse_i32(s), s.parse::<i32>().ok(), "i32 of {:?}", s);
    }
}

#[test]
fn stripping_agrees_with_std() {
    let samples = [
        "", " ", "  a  ", "\t\na b\r\n", "\u{a0}x\u{3000}", "\u{200b}x", "\u{85}\u{1680}y\u{2028}",
        "`a`", "``", "a``", "//", "/a/", "http://h:1///", "abc", "\u{2000}\u{200a}z\u{205f}\u{202f}",
        "\u{180e}q", "\u{feff}q",
    ];
    for s in samples {
        assert_eq!(trim(s), s.trim(), "trim of {:?}", s);
        assert_eq!(trim_matches(s, '`'), s.trim_matches('`'), "trim_matches of {:?}", s);
        assert_eq!(trim_end_matches(s, '/'), s.trim_end_matches('/'), "trim_end of {:?}", s);
        assert_eq!(strip_start(s, CharClass::WhiteSpace), s.trim_start());
        assert_eq!(strip_end(s, CharClass::WhiteSpace), s.trim_end());
        assert_eq!(strip(s, CharClass::Exactly('/')), s.trim_matches('/'));
        assert_eq!(
            strip(s, CharClass::Digit),
            s.trim_matches(|c: char| c.is_ascii_digit())
        );
    }
}

#[test]
fn white_space_agrees_with_std() {
    for code in 0u32..0x3100 {
        if let Some(c) = char::from_u32(code) {
            assert_eq!(is_white_space_char(c), c.is_whitespace(), "U+{:04X}", code);
        }
    }
    assert!(!is_white_space_char('\u{feff}'));
    assert!(!is_white_space_char('\u{10ffff}'));
}

#[test]
fn texts_compare_by_content() {
    assert!(same_text("bounds", "bounds"));
    assert!(same_text("", ""));
    assert!(!same_text("bounds", "Bounds"));
    assert!(!same_text("bounds", "bound"));
    assert!(!same_text("", "x"));
    assert_eq!(chars_of("aé日"), vec!['a', 'é', '日']);
    assert_eq!(join("ab", "cd"), "abcd");
    assert_eq!(join("", ""), "");
}

#[test]
fn endpoints_drop_trailing_slashes_of_the_base() {
    assert_eq!(endpoint("http://127.0.0.1:8000", "/docs"), "http://127.0.0.1:8000/docs");
    assert_eq!(endpoint("http://127.0.0.1:8000/", "/docs"), "http://127.0.0.1:8000/docs");
    assert_eq!(endpoint("http://h///", "/x"), "http://h/x");
    assert_eq!(endpoint("", "/x"), "/x");
    assert_eq!(endpoint("/", ""), "");
}

#[test]
fn every_endpoint_has_its_path() {
    let base = "http://127.0.0.1:8000/";
    assert_eq!(health_url(base), "http://127.0.0.1:8000/docs");
    assert_eq!(navigate_url(base), "http://127.0.0.1:8000/api/v1/browser/navigate");
    assert_eq!(status_url(base), "http://127.0.0.1:8000/api/v1/browser/status");
    assert_eq!(position_url(base), "http://127.0.0.1:8000/api/v1/browser/position");
    assert_eq!(shutdown_url(base), "http://127.0.0.1:8000/api/v1/system/shutdown");
    assert_eq!(update_check_url(base), "http://127.0.0.1:8000/api/v1/system/update/check");
    assert_eq!(update_execute_url(base), "http://127.0.0.1:8000/api/v1/system/update/execute");
}

#[test]
fn config_without_settings_holds_the_defaults() {
    let config = Config::resolve(RawConfig::empty());
    assert_eq!(config.api_url, "http://127.0.0.1:8000");
    assert_eq!(config.install_dir, None);
    assert_eq!(config.exe_name, "yuHai.exe");
    assert_eq!(config.zip_name, "yuHai-core.zip");
    assert_eq!(config.startup_url, "https://www.xiaohongshu.com");
    assert_eq!(config.browser_width, 500);
    assert_eq!(config.debounce_ms, 200);
    assert_eq!(config.core_ready_retry_count, 30);
    assert_eq!(config.core_ready_retry_interval_ms, 2000);
    assert_eq!(config.core_ready_http_timeout_ms, 2000);
    assert_eq!(config.core_shutdown_http_timeout_ms, 2000);
    assert_eq!(config.core_shutdown_wait_ms, 500);
}

#[test]
fn config_takes_every_setting() {
    let raw = RawConfig {
        api_url: Some("http://kernel:9000/".to_string()),
        install_dir: Some("/opt/kernel".to_string()),
        exe_name: Some("kernel".to_string()),
        zip_name: Some("kernel.zip".to_string()),
        startup_url: Some("https://example.org".to_string()),
        browser_width: Some("420".to_string()),
        debounce_ms: Some("120".to_string()),
        core_ready_retry_count: Some("5".to_string()),
        core_ready_retry_interval_ms: Some("100".to_string()),
        core_ready_http_timeout_ms: Some("300".to_string()),
        core_shutdown_http_timeout_ms: Some("400".to_string()),
        core_shutdown_wait_ms: Some("50".to_string()),
    };
    let config = Config::resolve(raw);
    assert_eq!(config.api_url, "http://kernel:9000/");
    assert_eq!(config.install_dir, Some("/opt/kernel".to_string()));
    assert_eq!(config.exe_name, "kernel");
    assert_eq!(config.zip_name, "kernel.zip");
    assert_eq!(config.startup_url, "https://example.org");
    assert_eq!(config.browser_width, 420);
    assert_eq!(config.debounce_ms, 120);
    assert_eq!(config.core_ready_retry_count, 5);
    assert_eq!(config.core_ready_retry_interval_ms, 100);
    assert_eq!(config.core_ready_http_timeout_ms, 300);
    assert_eq!(config.core_shutdown_http_timeout_ms, 400);
    assert_eq!(config.core_shutdown_wait_ms, 50);
}

#[test]
fn config_ignores_unreadable_numbers() {
    let mut raw = RawConfig::empty();
    raw.browser_width = Some("5e2".to_string());
    raw.debounce_ms = Some("fast".to_string());
    raw.core_ready_retry_count = Some("-3".to_string());
    let config = Config::resolve(raw);
    assert_eq!(config.browser_width, 500);
    assert_eq!(config.debounce_ms, 200);
    assert_eq!(config.core_ready_retry_count, 30);
}
