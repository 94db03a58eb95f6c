use lantern_unbounded::duration::Duration;
use lantern_unbounded::settings::{
    count, enable_ipv6, pool_settings, randomize_dtls, seconds, stun_urls, Environment,
};
use lantern_unbounded::text;

fn set(value: &str) -> Option<String> {
    Some(value.to_owned())
}

#[test]
fn seconds_read_whole_numbers_or_the_default() {
    assert_eq!(seconds(&set("7"), 10), Duration::from_secs(7));
    assert_eq!(seconds(&set("+007"), 10), Duration::from_secs(7));
    assert_eq!(seconds(&set("0"), 10), Duration::from_secs(0));
    assert_eq!(
        seconds(&set("18446744073709551615"), 10),
        Duration::from_secs(u64::MAX)
    );
    for other in ["", "+", "-1", " 7", "7 ", "7s", "1.5", "\u{663}", "18446744073709551616"] {
        assert_eq!(seconds(&set(other), 10), Duration::from_secs(10));
    }
    assert_eq!(seconds(&None, 10), Duration::from_secs(10));
}

#[test]
fn counts_are_never_zero() {
    assert_eq!(count(&set("3"), 5), 3);
    assert_eq!(count(&set("0"), 5), 5);
    assert_eq!(count(&set("many"), 5), 5);
    assert_eq!(count(&None, 5), 5);
}

#[test]
fn stun_addresses_are_split_and_trimmed() {
    assert_eq!(stun_urls(&None), Vec::<String>::new());
    assert_eq!(stun_urls(&set("")), Vec::<String>::new());
    assert_eq!(stun_urls(&set(" , ,\t")), Vec::<String>::new());
    assert_eq!(
        stun_urls(&set(" stun:a:3478 ,,stun:b:3478\u{3000}, \u{e9} x ")),
        ["stun:a:3478", "stun:b:3478", "\u{e9} x"]
    );
}

#[test]
fn list_items_match_the_standard_trim() {
    for value in ["a,b", ",", "\u{85}a\u{a0},\u{2003}b\u{202f}", "a\u{200b}, \u{feff}", "\u{b}x\u{c}"] {
        let expected: Vec<String> = value
            .split(',')
            .map(str::trim)
            .filter(|item| !item.is_empty())
            .map(str::to_owned)
            .collect();
        assert_eq!(text::split_nonempty(value), expected);
    }
    for code in 0..=0x10_ffff_u32 {
        if let Some(c) = char::from_u32(code) {
            assert_eq!(text::white_space(c), c.is_whitespace());
        }
    }
}

#[test]
fn ipv6_is_off_unless_switched_on() {
    for value in ["1", "true", "yes", "on"] {
        assert!(enable_ipv6(&set(value)));
    }
    for value in ["", "0", "off", "2", "enabled"] {
        assert!(!enable_ipv6(&set(value)));
    }
    assert!(!enable_ipv6(&None));
}

#[test]
fn fingerprint_is_hidden_unless_switched_off() {
    for value in ["disable", "Disable", "DISABLE", "0", "false", "no", "Off"] {
        assert!(!randomize_dtls(&set(value)));
    }
    for value in ["randomize", "1", "true", "yes", "on", "disabled"] {
        assert!(randomize_dtls(&set(value)));
    }
    assert!(randomize_dtls(&None));
}

#[test]
fn empty_environment_gives_the_defaults() {
    let settings = pool_settings(Environment {
        egress_url: "ws://localhost:8000/ws".into(),
        stun_urls: None,
        nat_timeout_seconds: None,
        enable_ipv6: None,
        covert_dtls: None,
        retry_initial_seconds: None,
        retry_max_seconds: None,
        stable_session_seconds: None,
        concurrent_sessions: None,
    });
    assert_eq!(settings.slots, 5);
    assert_eq!(settings.supervisor.initial_backoff, Duration::from_secs(1));
    assert_eq!(settings.supervisor.max_backoff, Duration::from_secs(30));
    assert_eq!(settings.supervisor.stable_session, Duration::from_secs(30));
    let peer_proxy = settings.supervisor.peer_proxy;
    assert_eq!(peer_proxy.egress_url, "ws://localhost:8000/ws");
    assert_eq!(peer_proxy.nat_timeout, Duration::from_secs(10));
    assert!(peer_proxy.stun_urls.is_empty());
    assert!(!peer_proxy.enable_ipv6);
    assert!(peer_proxy.randomize_dtls);
}

#[test]
fn environment_sets_everything() {
    let settings = pool_settings(Environment {
        egress_url: "ws://localhost:8000/ws".into(),
        stun_urls: set("stun:stun.example.org:3478"),
        nat_timeout_seconds: set("11"),
        enable_ipv6: set("yes"),
        covert_dtls: set("disable"),
        retry_initial_seconds: set("2"),
        retry_max_seconds: set("60"),
        stable_session_seconds: set("90"),
        concurrent_sessions: set("12"),
    });
    assert_eq!(settings.slots, 12);
    assert_eq!(settings.supervisor.initial_backoff, Duration::from_secs(2));
    assert_eq!(settings.supervisor.max_backoff, Duration::from_secs(60));
    assert_eq!(settings.supervisor.stable_session, Duration::from_secs(90));
    let peer_proxy = settings.supervisor.peer_proxy;
    assert_eq!(peer_proxy.nat_timeout, Duration::from_secs(11));
    assert_eq!(peer_proxy.stun_urls, ["stun:stun.example.org:3478"]);
    assert!(peer_proxy.enable_ipv6);
    assert!(!peer_proxy.randomize_dtls);
}

#[test]
fn numbers_respect_their_bound() {
    assert_eq!(text::parse_number("255", 255), Some(255));
    assert_eq!(text::parse_number("256", 255), None);
    assert_eq!(text::parse_number("0000000000000000000000256", 256), Some(256));
    assert!(text::eq_ignore_ascii_case("", ""));
    assert!(text::eq_ignore_ascii_case("aZ-\u{e9}", "Az-\u{e9}"));
    assert!(!text::eq_ignore_ascii_case("\u{e9}", "\u{c9}"));
    assert!(!text::eq_ignore_ascii_case("[", "{"));
}

#[test]
fn durations() {
    let span = Duration::new(2, 500_000_000);
    assert_eq!(span.as_nanos(), 2_500_000_000);
    assert_eq!(span.as_secs(), 2);
    assert_eq!(span.subsec_nanos(), 500_000_000);
    assert_eq!(span.saturating_mul(2), Duration::from_secs(5));
    let longest = Duration::new(u64::MAX, 999_999_999);
    assert_eq!(longest.saturating_mul(u32::MAX), longest);
    assert_eq!(span.at_most(Duration::from_millis(1)), Duration::from_millis(1));
    assert_eq!(span.at_least(Duration::from_millis(1)), span);
    assert!(Duration::from_nanos(0).is_zero());
    assert!(!span.is_zero());
}
