//! Startup configuration: the values a deployment is started with, read from
//! their textual form.

use vstd::prelude::*;
use vstd::string::*;
use crate::admission::Settings;

verus! {

/// Whether a character is a decimal digit.
pub open spec fn is_digit(c: char) -> bool {
    '0' <= c && c <= '9'
}

/// The number that a run of decimal digits writes.
pub open spec fn digits_value(digits: Seq<char>) -> nat
    decreases digits.len(),
{
    if digits.len() == 0 {
        0
    } else {
        digits_value(digits.drop_last()) * 10 + (digits.last() as nat - '0' as nat) as nat
    }
}

/// The digits of a decimal number: the text without its optional leading
/// plus sign.
pub open spec fn digits_of(text: Seq<char>) -> Seq<char> {
    if text.len() > 0 && text[0] == '+' {
        text.drop_first()
    } else {
        text
    }
}

/// The number that a text writes in decimal: an optional plus sign followed
/// by one or more digits, and nothing else.
pub open spec fn decimal(text: Seq<char>) -> Option<nat> {
    let digits = digits_of(text);
    if digits.len() > 0 && forall|i: int| 0 <= i < digits.len() ==> is_digit(#[trigger] digits[i]) {
        Some(digits_value(digits))
    } else {
        None
    }
}

/// The number that a text writes, if it writes one that is at most `max`.
pub open spec fn decimal_up_to(text: Seq<char>, max: nat) -> Option<nat> {
    match decimal(text) {
        Some(n) => if n <= max {
            Some(n)
        } else {
            None
        },
        None => None,
    }
}

/// A longer run of digits writes a number at least as large as any of its
/// prefixes.
proof fn lemma_prefix_value(digits: Seq<char>, k: int)
    requires
        0 <= k <= digits.len(),
    ensures
        digits_value(digits.take(k)) <= digits_value(digits),
    decreases digits.len() - k,
{
    if k < digits.len() {
        lemma_prefix_value(digits, k + 1);
        assert(digits.take(k + 1).drop_last() =~= digits.take(k));
    } else {
        assert(digits.take(k) =~= digits);
    }
}

/// Reads a decimal number of at most `max`.
pub fn parse_decimal(text: &str, max: u64) -> (value: Option<u64>)
    ensures
        value == match decimal_up_to(text@, max as nat) {
            Some(n) => Some(n as u64),
            None => None,
        },
{
    let len = text.unicode_len();
    let start: usize = if len > 0 && text.get_char(0) == '+' {
        1
    } else {
        0
    };
    if start == len {
        return None;
    }
    let ghost digits = digits_of(text@);
    let mut acc: u64 = 0;
    let mut i: usize = start;
    proof {
        assert(digits.take(0) =~= Seq::<char>::empty());
    }
    while i < len
        invariant
            start <= i <= len,
            len == text@.len(),
            digits == digits_of(text@),
            digits.len() == len - start,
            forall|j: int| 0 <= j < digits.len() ==> digits[j] == text@[j + start],
            forall|j: int| 0 <= j < i - start ==> is_digit(#[trigger] digits[j]),
            acc == digits_value(digits.take(i - start)),
            acc <= max,
        decreases len - i,
    {
        let c = text.get_char(i);
        proof {
            assert(digits[i - start] == c);
            assert(digits.take(i - start + 1).drop_last() =~= digits.take(i - start));
            lemma_prefix_value(digits, i - start + 1);
        }
        if !(c >= '0' && c <= '9') {
            return None;
        }
        let d: u64 = (c as u32 - '0' as u32) as u64;
        if d > max || acc > (max - d) / 10 {
            return None;
        }
        acc = acc * 10 + d;
        i += 1;
    }
    proof {
        assert(digits.take(i - start) =~= digits);
    }
    Some(acc)
}

/// Why a deployment cannot start.
#[derive(Clone, Copy, Debug, PartialEq, Eq, Structural)]
pub enum ConfigError {
    /// No capacity is configured.
    MissingCapacity,
    /// The capacity is no number that fits.
    InvalidCapacity,
    /// No active-session timeout is configured.
    MissingTimeout,
    /// The active-session timeout is no number of minutes that fits.
    InvalidTimeout,
    /// No deployment URL is configured.
    MissingIssuer,
}

/// Reads the capacity.
pub fn parse_capacity(text: &str) -> (capacity: Result<usize, ConfigError>)
    ensures
        capacity == match decimal_up_to(text@, usize::MAX as nat) {
            Some(n) => Ok::<usize, ConfigError>(n as usize),
            None => Err::<usize, ConfigError>(ConfigError::InvalidCapacity),
        },
{
    match parse_decimal(text, usize::MAX as u64) {
        Some(n) => Ok(n as usize),
        None => Err(ConfigError::InvalidCapacity),
    }
}

/// Reads the active-session timeout, in minutes.
pub fn parse_timeout(text: &str) -> (minutes: Result<u16, ConfigError>)
    ensures
        minutes == match decimal_up_to(text@, u16::MAX as nat) {
            Some(n) => Ok::<u16, ConfigError>(n as u16),
            None => Err::<u16, ConfigError>(ConfigError::InvalidTimeout),
        },
{
    match parse_decimal(text, u16::MAX as u64) {
        Some(n) => Ok(n as u16),
        None => Err(ConfigError::InvalidTimeout),
    }
}

/// The address of the state store: the configured one unless it is absent
/// or empty.
pub open spec fn redis_uri_of(configured: Option<Seq<char>>) -> Seq<char> {
    match configured {
        Some(uri) => if uri.len() > 0 {
            uri
        } else {
            "redis://127.0.0.1:6379"@
        },
        None => "redis://127.0.0.1:6379"@,
    }
}

/// The address of the state store.
pub fn redis_uri(configured: Option<String>) -> (uri: String)
    ensures
        uri@ == redis_uri_of(
            match configured {
                Some(text) => Some(text@),
                None => None,
            },
        ),
{
    match configured {
        Some(text) => {
            if text.as_str().is_empty() {
                String::from_str("redis://127.0.0.1:6379")
            } else {
                text
            }
        },
        None => String::from_str("redis://127.0.0.1:6379"),
    }
}

/// The address to listen on: `ip:port`, with `0.0.0.0` and `80` where one is
/// not configured.
pub open spec fn bind_address_of(ip: Option<Seq<char>>, port: Option<Seq<char>>) -> Seq<char> {
    (match ip {
        Some(text) => text,
        None => "0.0.0.0"@,
    }) + ":"@ + (match port {
        Some(text) => text,
        None => "80"@,
    })
}

/// The address to listen on.
pub fn bind_address(ip: Option<&str>, port: Option<&str>) -> (address: String)
    ensures
        address@ == bind_address_of(
            match ip {
                Some(text) => Some(text@),
                None => None,
            },
            match port {
                Some(text) => Some(text@),
                None => None,
            },
        ),
{
    let host = match ip {
        Some(text) => text,
        None => "0.0.0.0",
    };
    let service = match port {
        Some(text) => text,
        None => "80",
    };
    String::from_str(host).concat(":").concat(service)
}

/// What a deployment starts with.
#[derive(Clone, Debug, PartialEq, Eq)]
pub struct Startup {
    /// The capacity to store as the active-visitor limit.
    pub capacity: usize,
    /// What admission reads.
    pub settings: Settings,
}

/// The view of a text that may be absent.
pub open spec fn text_view(text: Option<&str>) -> Option<Seq<char>> {
    match text {
        Some(t) => Some(t@),
        None => None,
    }
}

/// The first fault in the configured values, if there is one: the capacity
/// is looked at first, then the timeout, then the deployment URL.
pub open spec fn startup_fault(
    capacity: Option<Seq<char>>,
    timeout: Option<Seq<char>>,
    issuer: Option<Seq<char>>,
) -> Option<ConfigError> {
    if capacity is None {
        Some(ConfigError::MissingCapacity)
    } else if decimal_up_to(capacity->Some_0, usize::MAX as nat) is None {
        Some(ConfigError::InvalidCapacity)
    } else if timeout is None {
        Some(ConfigError::MissingTimeout)
    } else if decimal_up_to(timeout->Some_0, u16::MAX as nat) is None {
        Some(ConfigError::InvalidTimeout)
    } else if issuer is None {
        Some(ConfigError::MissingIssuer)
    } else {
        None
    }
}

/// Reads the values a deployment is started with. The capacity, the timeout
/// and the deployment URL are required; the destination is
/// `http://localhost:8000` unless configured.
pub fn startup(
    capacity: Option<&str>,
    timeout: Option<&str>,
    issuer: Option<&str>,
    destination: Option<&str>,
) -> (loaded: Result<Startup, ConfigError>)
    ensures
        match startup_fault(text_view(capacity), text_view(timeout), text_view(issuer)) {
            Some(fault) => loaded matches Err(e) && e == fault,
            None => {
                &&& loaded matches Ok(start)
                &&& Some(start.capacity as nat) == decimal(capacity->Some_0@)
                &&& Some(start.settings.timeout_minutes as nat) == decimal(timeout->Some_0@)
                &&& start.settings.issuer@ == issuer->Some_0@
                &&& start.settings.destination@ == match destination {
                    Some(text) => text@,
                    None => "http://localhost:8000"@,
                }
            },
        },
{
    let capacity = match capacity {
        None => {
            return Err(ConfigError::MissingCapacity);
        },
        Some(text) => match parse_capacity(text) {
            Err(e) => {
                return Err(e);
            },
            Ok(n) => n,
        },
    };
    let timeout_minutes = match timeout {
        None => {
            return Err(ConfigError::MissingTimeout);
        },
        Some(text) => match parse_timeout(text) {
            Err(e) => {
                return Err(e);
            },
            Ok(n) => n,
        },
    };
    let issuer = match issuer {
        None => {
            return Err(ConfigError::MissingIssuer);
        },
        Some(text) => String::from_str(text),
    };
    let destination = match destination {
        Some(text) => String::from_str(text),
        None => String::from_str("http://localhost:8000"),
    };
    Ok(Startup { capacity, settings: Settings { issuer, destination, timeout_minutes } })
}

} // verus!
