//! The settings of a peer proxy, as its environment spells them.
use vstd::prelude::*;

use crate::duration::Duration;
use crate::json;
use crate::peer_proxy::PeerProxyConfig;
use crate::protocol;
use crate::supervisor::SupervisorConfig;
use crate::text;

verus! {

/// The slots of a pool where nothing else is set.
pub const DEFAULT_CONCURRENT_SESSIONS: usize = 5;

/// The seconds for the data channel to open where nothing else is set.
pub const DEFAULT_NAT_TIMEOUT_SECONDS: u64 = 10;

/// The seconds of the first retry delay where nothing else is set.
pub const DEFAULT_RETRY_INITIAL_SECONDS: u64 = 1;

/// The seconds of the longest retry delay where nothing else is set.
pub const DEFAULT_RETRY_MAX_SECONDS: u64 = 30;

/// The seconds that make a session stable where nothing else is set.
pub const DEFAULT_STABLE_SESSION_SECONDS: u64 = 30;

/// The variables that set up a peer proxy. A variable that is not set is `None`.
#[derive(Debug, PartialEq, Eq)]
pub struct Environment {
    pub egress_url: String,
    pub stun_urls: Option<String>,
    pub nat_timeout_seconds: Option<String>,
    pub enable_ipv6: Option<String>,
    pub covert_dtls: Option<String>,
    pub retry_initial_seconds: Option<String>,
    pub retry_max_seconds: Option<String>,
    pub stable_session_seconds: Option<String>,
    pub concurrent_sessions: Option<String>,
}

/// The number that a variable spells, or the default if it spells none.
pub open spec fn number_or(value: Option<String>, max: nat, default: nat) -> nat {
    match value {
        Some(value) => match text::number(value@, max) {
            Some(number) => number,
            None => default,
        },
        None => default,
    }
}

/// The span of as many seconds as a variable says, or as the default says.
pub fn seconds(value: &Option<String>, default: u64) -> (duration: Duration)
    ensures
        duration@ == number_or(*value, u64::MAX as nat, default as nat) * 1_000_000_000,
{
    let parsed = match value {
        Some(value) => text::parse_number(value.as_str(), u64::MAX),
        None => None,
    };
    match parsed {
        Some(parsed) => Duration::from_secs(parsed),
        None => Duration::from_secs(default),
    }
}

/// The number, other than zero, that a variable says, or the default.
pub fn count(value: &Option<String>, default: usize) -> (count: usize)
    ensures
        count == {
            let number = number_or(*value, usize::MAX as nat, default as nat);
            if number > 0 {
                number
            } else {
                default as nat
            }
        },
{
    let parsed = match value {
        Some(value) => text::parse_number(value.as_str(), usize::MAX as u64),
        None => None,
    };
    match parsed {
        Some(parsed) => if parsed > 0 {
            parsed as usize
        } else {
            default
        },
        None => default,
    }
}

/// The addresses of STUN servers in a comma-separated list.
pub fn stun_urls(value: &Option<String>) -> (urls: Vec<String>)
    ensures
        protocol::texts(urls@) == (match *value {
            Some(value) => text::nonempty_items(value@),
            None => Seq::empty(),
        }),
{
    match value {
        Some(value) => text::split_nonempty(value.as_str()),
        None => {
            let urls: Vec<String> = Vec::new();
            assert(protocol::texts(urls@) =~= Seq::empty());
            urls
        },
    }
}

/// Whether a value switches something on: `1`, `true`, `yes` or `on`.
pub open spec fn is_truthy(value: Seq<char>) -> bool {
    value == "1"@ || value == "true"@ || value == "yes"@ || value == "on"@
}

/// Whether IPv6 candidates are gathered: only where the variable switches that on.
pub fn enable_ipv6(value: &Option<String>) -> (enabled: bool)
    ensures
        enabled == (*value matches Some(value) && is_truthy(value@)),
{
    match value {
        Some(value) => *value == "1".to_owned() || *value == "true".to_owned() || *value
            == "yes".to_owned() || *value == "on".to_owned(),
        None => false,
    }
}

/// Whether a value switches randomization off: `disable`, `0`, `false`, `no` or `off`, in any
/// case.
pub open spec fn is_disabling(value: Seq<char>) -> bool {
    ||| text::same_ignoring_case(value, "disable"@)
    ||| text::same_ignoring_case(value, "0"@)
    ||| text::same_ignoring_case(value, "false"@)
    ||| text::same_ignoring_case(value, "no"@)
    ||| text::same_ignoring_case(value, "off"@)
}

/// Whether the DTLS fingerprint is hidden: unless the variable switches that off.
pub fn randomize_dtls(value: &Option<String>) -> (randomized: bool)
    ensures
        randomized == !(*value matches Some(value) && is_disabling(value@)),
{
    match value {
        Some(value) => {
            let value = value.as_str();
            !(text::eq_ignore_ascii_case(value, "disable") || text::eq_ignore_ascii_case(value, "0")
                || text::eq_ignore_ascii_case(value, "false") || text::eq_ignore_ascii_case(
                value,
                "no",
            ) || text::eq_ignore_ascii_case(value, "off"))
        },
        None => true,
    }
}

/// How a pool of peer proxies is run.
#[derive(Debug, PartialEq, Eq)]
pub struct PoolSettings {
    pub supervisor: SupervisorConfig,
    pub slots: usize,
}

/// The settings that an environment spells, with the defaults for what it leaves out or does not
/// spell as a number.
pub fn pool_settings(environment: Environment) -> (settings: PoolSettings)
    ensures
        settings.supervisor.peer_proxy.egress_url == environment.egress_url,
        protocol::texts(settings.supervisor.peer_proxy.stun_urls@) == (
        match environment.stun_urls {
            Some(value) => text::nonempty_items(value@),
            None => Seq::empty(),
        }),
        settings.supervisor.peer_proxy.nat_timeout@ == number_or(
            environment.nat_timeout_seconds,
            u64::MAX as nat,
            10,
        ) * 1_000_000_000,
        settings.supervisor.peer_proxy.enable_ipv6 == (environment.enable_ipv6 matches Some(value)
            && is_truthy(value@)),
        settings.supervisor.peer_proxy.randomize_dtls == !(environment.covert_dtls matches Some(
            value,
        ) && is_disabling(value@)),
        settings.supervisor.initial_backoff@ == number_or(
            environment.retry_initial_seconds,
            u64::MAX as nat,
            1,
        ) * 1_000_000_000,
        settings.supervisor.max_backoff@ == number_or(
            environment.retry_max_seconds,
            u64::MAX as nat,
            30,
        ) * 1_000_000_000,
        settings.supervisor.stable_session@ == number_or(
            environment.stable_session_seconds,
            u64::MAX as nat,
            30,
        ) * 1_000_000_000,
        settings.slots == {
            let slots = number_or(environment.concurrent_sessions, usize::MAX as nat, 5);
            if slots > 0 {
                slots
            } else {
                5
            }
        },
{
    let peer_proxy = PeerProxyConfig {
        egress_url: environment.egress_url,
        stun_urls: stun_urls(&environment.stun_urls),
        nat_timeout: seconds(&environment.nat_timeout_seconds, DEFAULT_NAT_TIMEOUT_SECONDS),
        enable_ipv6: enable_ipv6(&environment.enable_ipv6),
        randomize_dtls: randomize_dtls(&environment.covert_dtls),
    };
    let supervisor = SupervisorConfig {
        peer_proxy,
        initial_backoff: seconds(&environment.retry_initial_seconds, DEFAULT_RETRY_INITIAL_SECONDS),
        max_backoff: seconds(&environment.retry_max_seconds, DEFAULT_RETRY_MAX_SECONDS),
        stable_session: seconds(
            &environment.stable_session_seconds,
            DEFAULT_STABLE_SESSION_SECONDS,
        ),
    };
    PoolSettings {
        supervisor,
        slots: count(&environment.concurrent_sessions, DEFAULT_CONCURRENT_SESSIONS),
    }
}

/// A variable that spells a number that is not too large counts as that number, and one that is not
/// set, or spells none, as the default.
pub proof fn law_spelled_number_counts(value: Option<String>, n: nat, max: nat, default: nat)
    ensures
        value is None ==> number_or(value, max, default) == default,
        value is Some && value->0@ == json::decimal(n) ==> number_or(value, max, default) == (if n
            <= max {
            n
        } else {
            default
        }),
        value is Some && text::number(value->0@, max) is None ==> number_or(value, max, default)
            == default,
{
    text::law_decimal_text_is_read_back(n, 0, max);
    assert(text::zeros(0) + json::decimal(n) =~= json::decimal(n));
}

/// Exactly four values switch something on, in exactly this spelling.
pub proof fn law_what_switches_on(value: Seq<char>)
    ensures
        is_truthy(value) <==> {
            ||| value == seq!['1']
            ||| value == seq!['t', 'r', 'u', 'e']
            ||| value == seq!['y', 'e', 's']
            ||| value == seq!['o', 'n']
        },
{
    reveal_strlit("1");
    reveal_strlit("true");
    reveal_strlit("yes");
    reveal_strlit("on");
    assert("1"@ =~= seq!['1']);
    assert("true"@ =~= seq!['t', 'r', 'u', 'e']);
    assert("yes"@ =~= seq!['y', 'e', 's']);
    assert("on"@ =~= seq!['o', 'n']);
}

/// Whether `value` is the word `word`, which has no uppercase letters, with any of its letters in
/// uppercase.
pub open spec fn is_word(value: Seq<char>, word: Seq<char>) -> bool {
    &&& value.len() == word.len()
    &&& forall|i: int|
        0 <= i < word.len() ==> (#[trigger] value[i]) == word[i] || 97 <= word[i] as int <= 122
            && value[i] as int == word[i] as int - 32
}

proof fn lemma_word(value: Seq<char>, word: Seq<char>)
    requires
        forall|i: int| 0 <= i < word.len() ==> !('A' <= #[trigger] word[i] <= 'Z'),
    ensures
        text::same_ignoring_case(value, word) <==> is_word(value, word),
{
    if text::same_ignoring_case(value, word) {
        assert forall|i: int| 0 <= i < word.len() implies (#[trigger] value[i]) == word[i] || 97
            <= word[i] as int <= 122 && value[i] as int == word[i] as int - 32 by {
            assert(text::lowercase(value[i]) == text::lowercase(word[i]));
            assert(!('A' <= word[i] <= 'Z'));
        }
    }
    if is_word(value, word) {
        assert forall|i: int| 0 <= i < value.len() implies text::lowercase(#[trigger] value[i])
            == text::lowercase(word[i]) by {
            assert(!('A' <= word[i] <= 'Z'));
        }
    }
}

/// Exactly five words switch randomization off, with each of their letters in either case.
pub proof fn law_what_switches_off(value: Seq<char>)
    ensures
        is_disabling(value) <==> {
            ||| is_word(value, seq!['d', 'i', 's', 'a', 'b', 'l', 'e'])
            ||| is_word(value, seq!['0'])
            ||| is_word(value, seq!['f', 'a', 'l', 's', 'e'])
            ||| is_word(value, seq!['n', 'o'])
            ||| is_word(value, seq!['o', 'f', 'f'])
        },
{
    reveal_strlit("disable");
    reveal_strlit("0");
    reveal_strlit("false");
    reveal_strlit("no");
    reveal_strlit("off");
    assert("disable"@ =~= seq!['d', 'i', 's', 'a', 'b', 'l', 'e']);
    assert("0"@ =~= seq!['0']);
    assert("false"@ =~= seq!['f', 'a', 'l', 's', 'e']);
    assert("no"@ =~= seq!['n', 'o']);
    assert("off"@ =~= seq!['o', 'f', 'f']);
    lemma_word(value, "disable"@);
    lemma_word(value, "0"@);
    lemma_word(value, "false"@);
    lemma_word(value, "no"@);
    lemma_word(value, "off"@);
}

/// A variable that spells a number of seconds sets that time, whatever the number is, and one that is
/// not set, or spells none, leaves the default.
pub proof fn law_seconds_are_as_spelled(
    value: Option<String>,
    default: u64,
    n: u64,
    duration: Duration,
)
    requires
        call_ensures(seconds, (&value, default), duration),
    ensures
        value is Some && value->0@ == json::decimal(n as nat) ==> duration@ == n * 1_000_000_000,
        value is None ==> duration@ == default * 1_000_000_000,
        value is Some && text::number(value->0@, u64::MAX as nat) is None ==> duration@ == default
            * 1_000_000_000,
{
    law_spelled_number_counts(value, n as nat, u64::MAX as nat, default as nat);
}

/// A variable that spells a number other than zero sets that number, and otherwise the default
/// holds.
pub proof fn law_count_is_as_spelled(
    value: Option<String>,
    default: usize,
    n: usize,
    counted: usize,
)
    requires
        call_ensures(count, (&value, default), counted),
    ensures
        value is Some && value->0@ == json::decimal(n as nat) ==> counted == (if n > 0 {
            n
        } else {
            default
        }),
        value is None ==> counted == default,
        value is Some && text::number(value->0@, usize::MAX as nat) is None ==> counted == default,
{
    law_spelled_number_counts(value, n as nat, usize::MAX as nat, default as nat);
}

/// Each variable sets what it is for and nothing else: the settings are what the single variables
/// say, with the default of 10 seconds for the data channel, of 1 and 30 seconds between retries, of
/// 30 seconds for a stable session, and of 5 slots.
pub proof fn law_every_variable_has_its_setting(
    environment: Environment,
    settings: PoolSettings,
    urls: Vec<String>,
    nat_timeout: Duration,
    ipv6: bool,
    randomized: bool,
    initial: Duration,
    longest: Duration,
    stable: Duration,
    slots: usize,
)
    requires
        call_ensures(pool_settings, (environment,), settings),
        call_ensures(stun_urls, (&environment.stun_urls,), urls),
        call_ensures(seconds, (&environment.nat_timeout_seconds, 10u64), nat_timeout),
        call_ensures(enable_ipv6, (&environment.enable_ipv6,), ipv6),
        call_ensures(randomize_dtls, (&environment.covert_dtls,), randomized),
        call_ensures(seconds, (&environment.retry_initial_seconds, 1u64), initial),
        call_ensures(seconds, (&environment.retry_max_seconds, 30u64), longest),
        call_ensures(seconds, (&environment.stable_session_seconds, 30u64), stable),
        call_ensures(count, (&environment.concurrent_sessions, 5usize), slots),
    ensures
        settings.supervisor.peer_proxy.egress_url == environment.egress_url,
        protocol::texts(settings.supervisor.peer_proxy.stun_urls@) == protocol::texts(urls@),
        settings.supervisor.peer_proxy.nat_timeout@ == nat_timeout@,
        settings.supervisor.peer_proxy.enable_ipv6 == ipv6,
        settings.supervisor.peer_proxy.randomize_dtls == randomized,
        settings.supervisor.initial_backoff@ == initial@,
        settings.supervisor.max_backoff@ == longest@,
        settings.supervisor.stable_session@ == stable@,
        settings.slots == slots,
{
}

/// IPv6 is gathered on only where the variable holds one of the four values that switch on, and the
/// fingerprint is hidden unless the variable holds one of the five words that switch off.
pub proof fn law_switches_are_as_spelled(
    value: Option<String>,
    ipv6: bool,
    randomized: bool,
)
    requires
        call_ensures(enable_ipv6, (&value,), ipv6),
        call_ensures(randomize_dtls, (&value,), randomized),
    ensures
        ipv6 ==> value is Some && (value->0@ == seq!['1'] || value->0@ == seq!['t', 'r', 'u', 'e']
            || value->0@ == seq!['y', 'e', 's'] || value->0@ == seq!['o', 'n']),
        value is Some && (value->0@ == seq!['1'] || value->0@ == seq!['t', 'r', 'u', 'e']
            || value->0@ == seq!['y', 'e', 's'] || value->0@ == seq!['o', 'n']) ==> ipv6,
        !randomized <==> value is Some && (is_word(
            value->0@,
            seq!['d', 'i', 's', 'a', 'b', 'l', 'e'],
        ) || is_word(value->0@, seq!['0']) || is_word(value->0@, seq!['f', 'a', 'l', 's', 'e'])
            || is_word(value->0@, seq!['n', 'o']) || is_word(value->0@, seq!['o', 'f', 'f'])),
{
    if value is Some {
        law_what_switches_on(value->0@);
        law_what_switches_off(value->0@);
    }
}

} // verus!
