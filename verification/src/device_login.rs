//! Device-code login: what the server's answers mean, between the requests
//! that the caller sends.

use vstd::prelude::*;
use crate::items::DeviceLogin;
use crate::text::{owned, str_chars, utf8_count, utf8_len};

verus! {

/// The longest field of a device login answer, in bytes.
pub const MAX_DEVICE_FIELD_BYTES: usize = 1024;

/// The longest user code, in bytes.
pub const MAX_USER_CODE_BYTES: usize = 128;

/// Seconds between polls when the server names no interval.
pub const DEFAULT_POLL_SECS: u64 = 5;

/// The fields of the answer to a device code request; a field that is
/// missing or not of its JSON type is none. `interval` is the interval when
/// it is a number, `interval_text` when it is a string.
#[derive(Clone, Debug)]
pub struct DeviceCodeResponse {
    pub device_auth_id: Option<String>,
    pub user_code: Option<String>,
    pub usercode: Option<String>,
    pub interval: Option<u64>,
    pub interval_text: Option<String>,
}

/// The fields of the answer that completes a device login.
#[derive(Clone, Debug)]
pub struct DeviceTokenResponse {
    pub authorization_code: Option<String>,
    pub code_verifier: Option<String>,
}

/// What a device login continues with once the user has entered the code.
#[derive(Clone, Debug, PartialEq, Eq)]
pub struct DeviceAuthorization {
    pub authorization_code: String,
    pub code_verifier: String,
    pub redirect_uri: String,
}

/// Whether `c` is an ASCII digit.
pub open spec fn is_digit(c: char) -> bool {
    '0' <= c && c <= '9'
}

/// The value of a string of decimal digits.
pub open spec fn digits_value(s: Seq<char>) -> nat
    decreases s.len(),
{
    if s.len() == 0 {
        0
    } else {
        digits_value(s.drop_last()) * 10 + ((s.last() as u32) - ('0' as u32)) as nat
    }
}

/// The digits of `s` after an optional `+`.
pub open spec fn unsigned_digits(s: Seq<char>) -> Seq<char> {
    if s.len() > 0 && s[0] == '+' {
        s.skip(1)
    } else {
        s
    }
}

/// The `u64` that a string of digits spells: at least one digit, nothing
/// else, and a value that fits.
pub open spec fn digits_u64(d: Seq<char>) -> Option<u64> {
    if d.len() == 0 || exists|i: int| 0 <= i < d.len() && !is_digit(#[trigger] d[i]) {
        None
    } else if digits_value(d) > u64::MAX {
        None
    } else {
        Some(digits_value(d) as u64)
    }
}

/// The `u64` that `s` spells (`str::parse::<u64>`): decimal digits after an
/// optional `+`.
pub open spec fn parse_u64_spec(s: Seq<char>) -> Option<u64> {
    digits_u64(unsigned_digits(s))
}

/// A string with a character that is not a digit spells no number.
proof fn lemma_not_all_digits(d: Seq<char>, k: int)
    requires
        0 <= k < d.len(),
        !is_digit(d[k]),
    ensures
        digits_u64(d) is None,
{
}

/// The `u64` that `s` spells, if it spells one.
pub fn parse_u64(s: &str) -> (r: Option<u64>)
    ensures
        r == parse_u64_spec(s@),
{
    let chars = str_chars(s);
    let n = chars.len();
    let start: usize = if n > 0 && chars[0] == '+' {
        1
    } else {
        0
    };
    let ghost d = unsigned_digits(s@);
    proof {
        assert(d =~= chars@.skip(start as int));
    }
    if start == n {
        return None;
    }
    let mut value: u64 = 0;
    let mut i: usize = start;
    proof {
        assert(d.take(0) =~= Seq::<char>::empty());
    }
    while i < n
        invariant
            n == chars@.len(),
            chars@ == s@,
            d == chars@.skip(start as int),
            d == unsigned_digits(s@),
            start <= i <= n,
            forall|k: int| 0 <= k < i - start ==> is_digit(#[trigger] d[k]),
            value == digits_value(d.take(i - start)),
        decreases n - i,
    {
        let c = chars[i];
        proof {
            assert(d[i - start] == c);
            assert(d.take(i + 1 - start).drop_last() =~= d.take(i - start));
        }
        if !('0' <= c && c <= '9') {
            proof {
                lemma_not_all_digits(d, i - start);
            }
            return None;
        }
        let digit = (c as u32 - '0' as u32) as u64;
        if value > (u64::MAX - digit) / 10 {
            proof {
                assert(digits_value(d.take(i + 1 - start)) > u64::MAX);
                lemma_digits_value_grows(d, i + 1 - start);
            }
            return None;
        }
        value = value * 10 + digit;
        i = i + 1;
    }
    proof {
        assert(d.take(n - start) =~= d);
    }
    Some(value)
}

/// A longer prefix of digits has a value at least as large.
proof fn lemma_digits_value_grows(d: Seq<char>, k: int)
    requires
        0 <= k <= d.len(),
    ensures
        digits_value(d) >= digits_value(d.take(k)) || exists|i: int| 0 <= i < d.len() && !is_digit(#[trigger] d[i]),
    decreases d.len() - k,
{
    if k < d.len() {
        lemma_digits_value_grows(d, k + 1);
        assert(d.take(k + 1).drop_last() =~= d.take(k));
        if is_digit(d[k]) {
            assert(digits_value(d.take(k + 1)) >= digits_value(d.take(k))) by (nonlinear_arith)
                requires
                    digits_value(d.take(k + 1)) == digits_value(d.take(k)) * 10 + ((d[k] as u32) - ('0' as u32)) as nat,
            {
            }
        }
    } else {
        assert(d.take(k) =~= d);
    }
}

/// A field of a device login answer: a non-empty string of at most 1024
/// bytes.
pub open spec fn field_spec(v: Option<String>) -> Option<Seq<char>> {
    match v {
        Some(t) => if t@.len() > 0 && utf8_len(t@) <= MAX_DEVICE_FIELD_BYTES {
            Some(t@)
        } else {
            None
        },
        None => None,
    }
}

/// The user code of an answer: `user_code`, or `usercode` when that is
/// missing; non-empty and at most 128 bytes.
pub open spec fn user_code_spec(r: DeviceCodeResponse) -> Option<Seq<char>> {
    let code = match r.user_code {
        Some(c) => Some(c),
        None => r.usercode,
    };
    match code {
        Some(c) => if c@.len() > 0 && utf8_len(c@) <= MAX_USER_CODE_BYTES {
            Some(c@)
        } else {
            None
        },
        None => None,
    }
}

/// The seconds between polls: the interval that the answer names, as a
/// number or as a decimal string, or 5; kept between 1 and 60.
pub open spec fn interval_spec(r: DeviceCodeResponse) -> u64 {
    let named = match r.interval {
        Some(n) => Some(n),
        None => match r.interval_text {
            Some(t) => parse_u64_spec(t@),
            None => None,
        },
    };
    let secs = match named {
        Some(n) => n,
        None => DEFAULT_POLL_SECS,
    };
    if secs < 1 {
        1
    } else if secs > 60 {
        60
    } else {
        secs
    }
}

/// A field of a device login answer, if it is acceptable.
fn device_field(v: &Option<String>) -> (r: Option<String>)
    ensures
        match r {
            Some(t) => field_spec(*v) == Some(t@),
            None => field_spec(*v) is None,
        },
{
    match v {
        Some(t) => {
            if t.unicode_len() > 0 && utf8_count(t.as_str()) <= MAX_DEVICE_FIELD_BYTES as u128 {
                Some(owned(t.as_str()))
            } else {
                None
            }
        },
        None => None,
    }
}

/// The login that a device code answer starts, for the server at `issuer`:
/// the page to open, the code to enter there and how often to poll.
pub fn begin_device_login(issuer: &str, response: &DeviceCodeResponse) -> (r: Result<DeviceLogin, String>)
    ensures
        match r {
            Ok(login) => field_spec(response.device_auth_id) == Some(login.device_auth_id@)
                && user_code_spec(*response) == Some(login.user_code@) && login.interval_secs
                == interval_spec(*response) && login.verification_url@ == issuer@ + "/codex/device"@,
            Err(e) => (field_spec(response.device_auth_id) is None && e@
                == "invalid device login response"@) || (field_spec(response.device_auth_id) is Some
                && user_code_spec(*response) is None && e@
                == "device login returned an invalid user code"@),
        },
{
    let device_auth_id = match device_field(&response.device_auth_id) {
        Some(id) => id,
        None => return Err(owned("invalid device login response")),
    };
    let code = match &response.user_code {
        Some(c) => Some(c),
        None => match &response.usercode {
            Some(c) => Some(c),
            None => None,
        },
    };
    let user_code = match code {
        Some(c) => {
            if c.unicode_len() > 0 && utf8_count(c.as_str()) <= MAX_USER_CODE_BYTES as u128 {
                owned(c.as_str())
            } else {
                return Err(owned("device login returned an invalid user code"));
            }
        },
        None => return Err(owned("device login returned an invalid user code")),
    };
    let named = match response.interval {
        Some(n) => Some(n),
        None => match &response.interval_text {
            Some(t) => parse_u64(t.as_str()),
            None => None,
        },
    };
    let secs = match named {
        Some(n) => n,
        None => DEFAULT_POLL_SECS,
    };
    let interval_secs = if secs < 1 {
        1
    } else if secs > 60 {
        60
    } else {
        secs
    };
    let mut verification_url = owned(issuer);
    verification_url.append("/codex/device");
    Ok(DeviceLogin { verification_url, user_code, device_auth_id, interval_secs })
}

/// Whether a poll's HTTP status says that the user has not finished yet
/// (403 or 404), so that the caller waits the interval and polls again.
pub fn device_login_pending(status: u16) -> (r: bool)
    ensures
        r == (status == 403 || status == 404),
{
    status == 403 || status == 404
}

/// What the answer that completes a device login yields for the code
/// exchange with the server at `issuer`.
pub fn device_authorization(issuer: &str, response: &DeviceTokenResponse) -> (r: Result<DeviceAuthorization, String>)
    ensures
        match r {
            Ok(a) => field_spec(response.authorization_code) == Some(a.authorization_code@)
                && field_spec(response.code_verifier) == Some(a.code_verifier@) && a.redirect_uri@
                == issuer@ + "/deviceauth/callback"@,
            Err(e) => (field_spec(response.authorization_code) is None || field_spec(
                response.code_verifier,
            ) is None) && e@ == "invalid device login response"@,
        },
{
    let authorization_code = match device_field(&response.authorization_code) {
        Some(c) => c,
        None => return Err(owned("invalid device login response")),
    };
    let code_verifier = match device_field(&response.code_verifier) {
        Some(v) => v,
        None => return Err(owned("invalid device login response")),
    };
    let mut redirect_uri = owned(issuer);
    redirect_uri.append("/deviceauth/callback");
    Ok(DeviceAuthorization { authorization_code, code_verifier, redirect_uri })
}

} // verus!
