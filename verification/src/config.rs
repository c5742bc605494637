//! The relay's settings and their defaults.

use crate::error::Error;
use vstd::prelude::*;
use vstd::string::StringExecFns;

verus! {

/// Environment variable that names the address to listen on.
pub const BIND_ADDR_VAR: &'static str = "BIND_ADDR";

/// Environment variable that names the queue store's URL.
pub const REDIS_URL_VAR: &'static str = "REDIS_URL";

/// Environment variable that holds the retention window in seconds.
pub const MESSAGE_TTL_SECS_VAR: &'static str = "MESSAGE_TTL_SECS";

/// Retention window used when none is configured: 24 hours.
pub const DEFAULT_MESSAGE_TTL_SECS: u64 = 86400;

/// Settings of one relay process.
#[derive(Debug, Clone, PartialEq, Eq)]
pub struct Config {
    /// Address the relay listens on.
    pub bind_addr: String,
    /// URL of the queue store.
    pub redis_url: String,
    /// How long a queue outlives its last write, in seconds.
    pub message_ttl_secs: u64,
}

/// Mathematical value of a [`Config`].
pub ghost struct ConfigView {
    pub bind_addr: Seq<char>,
    pub redis_url: Seq<char>,
    pub message_ttl_secs: u64,
}

impl View for Config {
    type V = ConfigView;

    open spec fn view(&self) -> ConfigView {
        ConfigView {
            bind_addr: self.bind_addr@,
            redis_url: self.redis_url@,
            message_ttl_secs: self.message_ttl_secs,
        }
    }
}

/// Value of a decimal digit.
pub open spec fn digit_value(c: char) -> Option<nat> {
    if '0' as u32 <= c as u32 <= '9' as u32 {
        Some((c as u32 - '0' as u32) as nat)
    } else {
        None
    }
}

/// The number written by a run of decimal digits, most significant first;
/// `None` where a character is no digit. The empty run writes zero.
pub open spec fn digits_value(digits: Seq<char>) -> Option<nat>
    decreases digits.len(),
{
    if digits.len() == 0 {
        Some(0nat)
    } else {
        match (digits_value(digits.drop_last()), digit_value(digits.last())) {
            (Some(high), Some(low)) => Some(high * 10 + low),
            _ => None,
        }
    }
}

/// The `u64` that a text writes in decimal: an optional `+`, then at least
/// one digit and nothing else, the number being at most `u64::MAX`.
pub open spec fn decimal_u64(text: Seq<char>) -> Option<u64> {
    let digits = if text.len() > 0 && text[0] == '+' {
        text.drop_first()
    } else {
        text
    };
    if digits.len() == 0 {
        None
    } else {
        match digits_value(digits) {
            Some(value) => if value <= u64::MAX {
                Some(value as u64)
            } else {
                None
            },
            None => None,
        }
    }
}

/// A setting, or its default where the setting is absent.
pub open spec fn text_or(value: Option<String>, default: Seq<char>) -> Seq<char> {
    match value {
        Some(text) => text@,
        None => default,
    }
}

/// The retention window that a setting stands for: its decimal value, or
/// the default where the setting is absent or no decimal `u64`.
pub open spec fn ttl_or_default(value: Option<String>) -> u64 {
    match value {
        Some(text) => match decimal_u64(text@) {
            Some(secs) => secs,
            None => DEFAULT_MESSAGE_TTL_SECS,
        },
        None => DEFAULT_MESSAGE_TTL_SECS,
    }
}

/// A run of digits with a non-digit anywhere in it writes no number.
proof fn lemma_non_digit_spoils(digits: Seq<char>, at: int)
    requires
        0 <= at < digits.len(),
        digit_value(digits[at]) is None,
    ensures
        digits_value(digits) is None,
    decreases digits.len(),
{
    if at < digits.len() - 1 {
        lemma_non_digit_spoils(digits.drop_last(), at);
    }
}

/// A run of digits writes at least what any of its prefixes writes.
proof fn lemma_prefix_is_smaller(digits: Seq<char>, n: int)
    requires
        0 <= n <= digits.len(),
        digits_value(digits) is Some,
    ensures
        digits_value(digits.take(n)) is Some,
        digits_value(digits.take(n)).unwrap() <= digits_value(digits).unwrap(),
    decreases digits.len(),
{
    if n == digits.len() {
        assert(digits.take(n) =~= digits);
    } else {
        assert(digits.drop_last().take(n) =~= digits.take(n));
        lemma_prefix_is_smaller(digits.drop_last(), n);
    }
}

/// Reads a decimal `u64` as `str::parse::<u64>` does.
pub fn parse_seconds(text: &str) -> (secs: Option<u64>)
    ensures
        secs == decimal_u64(text@),
{
    let n = text.unicode_len();
    let start: usize = if n > 0 && text.get_char(0) == '+' {
        1
    } else {
        0
    };
    if start == n {
        return None;
    }
    let ghost digits = if start == 1 {
        text@.drop_first()
    } else {
        text@
    };
    let mut value: u64 = 0;
    let mut i: usize = start;
    assert(digits.take(0) =~= Seq::<char>::empty());
    while i < n
        invariant
            start <= i <= n,
            n == text@.len(),
            digits.len() == n - start,
            digits.len() > 0,
            digits == (if text@.len() > 0 && text@[0] == '+' {
                text@.drop_first()
            } else {
                text@
            }),
            forall|j: int| 0 <= j < digits.len() ==> digits[j] == text@[j + start],
            digits_value(digits.take(i - start)) == Some(value as nat),
        decreases n - i,
    {
        let c = text.get_char(i);
        let ghost k = i - start;
        assert(digits.take(k + 1).drop_last() =~= digits.take(k));
        assert(digits.take(k + 1).last() == c);
        if c < '0' || c > '9' {
            proof {
                lemma_non_digit_spoils(digits, k);
            }
            return None;
        }
        let low: u64 = (c as u32 - '0' as u32) as u64;
        assert(digits_value(digits.take(k + 1)) == Some((value * 10 + low) as nat));
        if value > (u64::MAX - low) / 10 {
            proof {
                assert(value * 10 + low > u64::MAX);
                if digits_value(digits) is Some {
                    lemma_prefix_is_smaller(digits, k + 1);
                }
            }
            return None;
        }
        value = value * 10 + low;
        i += 1;
    }
    assert(digits.take(n - start) =~= digits);
    Some(value)
}

impl Config {
    /// Builds the settings from the raw values of the three environment
    /// variables, `None` standing for a variable that is not set. A missing
    /// address or URL takes its default; a retention window that is missing
    /// or no decimal number takes the default of 24 hours. Never fails.
    pub fn from_env(
        bind_addr: Option<String>,
        redis_url: Option<String>,
        message_ttl_secs: Option<String>,
    ) -> (config: Result<Config, Error>)
        ensures
            config matches Ok(c) && c@ == (ConfigView {
                bind_addr: text_or(bind_addr, "0.0.0.0:8080"@),
                redis_url: text_or(redis_url, "redis://127.0.0.1:6379"@),
                message_ttl_secs: ttl_or_default(message_ttl_secs),
            }),
    {
        let bind_addr = match bind_addr {
            Some(text) => text,
            None => String::from_str("0.0.0.0:8080"),
        };
        let redis_url = match redis_url {
            Some(text) => text,
            None => String::from_str("redis://127.0.0.1:6379"),
        };
        let secs = match message_ttl_secs {
            Some(text) => match parse_seconds(text.as_str()) {
                Some(secs) => secs,
                None => DEFAULT_MESSAGE_TTL_SECS,
            },
            None => DEFAULT_MESSAGE_TTL_SECS,
        };
        Ok(Config { bind_addr, redis_url, message_ttl_secs: secs })
    }

    /// A copy with the same field values.
    pub fn duplicate(&self) -> (copy: Config)
        ensures
            copy@ == self@,
    {
        Config {
            bind_addr: self.bind_addr.clone(),
            redis_url: self.redis_url.clone(),
            message_ttl_secs: self.message_ttl_secs,
        }
    }
}

} // verus!
