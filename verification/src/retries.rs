//! Retry policy helpers: which transport errors are worth retrying, and
//! which count as refused connections.
use vstd::prelude::*;

use crate::text::{has_infix, occurs_at};

verus! {

/// A retry strategy: a cloneable sequence of backoff delays that can be
/// handed across tasks.
pub trait Strategy: Iterator<Item = core::time::Duration> + Clone + Send + Sync + 'static {}

impl<T> Strategy for T where T: Iterator<Item = core::time::Duration> + Clone + Send + Sync + 'static {}

/// ASCII lower-casing of one character; other characters are unchanged.
pub open spec fn ascii_lower(c: char) -> char {
    if 'A' <= c && c <= 'Z' {
        ((c as u32) + 32) as char
    } else {
        c
    }
}

/// ASCII lower-casing of a text.
pub open spec fn lowered(s: Seq<char>) -> Seq<char> {
    s.map_values(|c: char| ascii_lower(c))
}

/// ASCII lower-casing of one character.
pub fn lower_char(c: char) -> (r: char)
    ensures
        r == ascii_lower(c),
{
    if 'A' <= c && c <= 'Z' {
        let b = c as u8;
        ((b + 32) as char)
    } else {
        c
    }
}

/// The ASCII lower-cased characters of `s`.
pub fn lowered_chars(s: &str) -> (r: Vec<char>)
    ensures
        r@ == lowered(s@),
{
    let n = s.unicode_len();
    let mut out: Vec<char> = Vec::new();
    let mut i: usize = 0;
    while i < n
        invariant
            n == s@.len(),
            i <= n,
            out@ == lowered(s@).subrange(0, i as int),
        decreases n - i,
    {
        out.push(lower_char(s.get_char(i)));
        proof {
            assert(out@ =~= lowered(s@).subrange(0, i + 1));
        }
        i = i + 1;
    }
    proof {
        assert(lowered(s@).subrange(0, n as int) =~= lowered(s@));
    }
    out
}

/// Whether `needle` occurs in `hay` at position `i`.
fn occurs_at_exec(hay: &Vec<char>, needle: &Vec<char>, i: usize) -> (r: bool)
    requires
        i + needle@.len() <= hay@.len(),
    ensures
        r == occurs_at(hay@, needle@, i as int),
{
    let m = needle.len();
    let hl = hay.len();
    let mut j: usize = 0;
    while j < m
        invariant
            m == needle@.len(),
            hl == hay@.len(),
            i + m <= hay@.len(),
            j <= m,
            forall|k: int| 0 <= k < j ==> hay@[i + k] == needle@[k],
        decreases m - j,
    {
        if hay[i + j] != needle[j] {
            proof {
                assert(hay@.subrange(i as int, i + m)[j as int] != needle@[j as int]);
            }
            return false;
        }
        j = j + 1;
    }
    proof {
        assert(hay@.subrange(i as int, i + m) =~= needle@);
    }
    true
}

/// Whether `needle` occurs anywhere in `hay`.
pub fn vec_has_infix(hay: &Vec<char>, needle: &Vec<char>) -> (r: bool)
    ensures
        r == has_infix(hay@, needle@),
{
    let n = hay.len();
    let m = needle.len();
    if m > n {
        proof {
            assert forall|i: int| !occurs_at(hay@, needle@, i) by {}
        }
        return false;
    }
    if m == 0 {
        proof {
            assert(hay@.subrange(0, 0) =~= needle@);
            assert(occurs_at(hay@, needle@, 0));
        }
        return true;
    }
    let mut i: usize = 0;
    while i <= n - m
        invariant
            m > 0,
            n == hay@.len(),
            m == needle@.len(),
            m <= n,
            i <= n - m + 1,
            forall|k: int| 0 <= k < i ==> !occurs_at(hay@, needle@, k),
        decreases n - m + 1 - i,
    {
        if occurs_at_exec(hay, needle, i) {
            return true;
        }
        i = i + 1;
    }
    proof {
        assert forall|k: int| !occurs_at(hay@, needle@, k) by {
            if 0 <= k < i {
            }
        }
    }
    false
}

/// The characters of a text.
pub fn chars_of(s: &str) -> (r: Vec<char>)
    ensures
        r@ == s@,
{
    let n = s.unicode_len();
    let mut out: Vec<char> = Vec::new();
    let mut i: usize = 0;
    while i < n
        invariant
            n == s@.len(),
            i <= n,
            out@ == s@.subrange(0, i as int),
        decreases n - i,
    {
        out.push(s.get_char(i));
        proof {
            assert(out@ =~= s@.subrange(0, i + 1));
        }
        i = i + 1;
    }
    proof {
        assert(s@.subrange(0, n as int) =~= s@);
    }
    out
}

/// The text searched for in error messages.
pub open spec fn connection_refused_text() -> Seq<char> {
    seq!['c', 'o', 'n', 'n', 'e', 'c', 't', 'i', 'o', 'n', ' ', 'r', 'e', 'f', 'u', 's', 'e', 'd']
}

/// Checks whether the error message contains "connection refused", ignoring
/// ASCII case.
///
/// The message is lower-cased character by character over ASCII letters;
/// since the searched text is plain ASCII, this finds it exactly where
/// full Unicode lower-casing would.
pub fn is_connection_refused(message: &str) -> (r: bool)
    ensures
        r == has_infix(lowered(message@), connection_refused_text()),
{
    let hay = lowered_chars(message);
    let needle_text = "connection refused";
    proof {
        reveal_strlit("connection refused");
        assert(needle_text@ =~= connection_refused_text());
    }
    let needle = chars_of(needle_text);
    vec_has_infix(&hay, &needle)
}

/// A JSON-RPC transport error, as far as the retry decision reads it. Where
/// the verdict rests on the error's own payload, the payload's verdict is
/// carried in the variant.
#[derive(Debug, Clone, Copy, PartialEq, Eq, Structural)]
pub enum RpcErrorShape {
    /// A transport-level error; `retry_err` is the transport's own verdict.
    Transport { retry_err: bool },
    /// A response that did not deserialize. `payload_retry` is the verdict of
    /// the error payload that its text parsed as, if it parsed as one;
    /// `wrapped_retry` that of the payload under an `error` key, if the text
    /// parsed as such an object.
    DeserError { payload_retry: Option<bool>, wrapped_retry: Option<bool> },
    /// An error response; `retry_err` is the payload's own verdict.
    ErrorResp { retry_err: bool },
    /// A null response.
    NullResp,
    /// The request could not be serialized.
    SerError,
    /// Any other error.
    Other,
}

/// Whether an error of this shape is retried: a transport or response error
/// when it says so itself, a response that did not deserialize when its text
/// parses as an error payload (directly, or else under an `error` key) that
/// says so, and a null response always.
pub open spec fn retryable(e: RpcErrorShape) -> bool {
    match e {
        RpcErrorShape::Transport { retry_err } => retry_err,
        RpcErrorShape::DeserError { payload_retry, wrapped_retry } => match payload_retry {
            Some(v) => v,
            None => match wrapped_retry {
                Some(v) => v,
                None => false,
            },
        },
        RpcErrorShape::ErrorResp { retry_err } => retry_err,
        RpcErrorShape::NullResp => true,
        RpcErrorShape::SerError => false,
        RpcErrorShape::Other => false,
    }
}

/// Law: the verdict on an error is the error's own: a transport or response
/// error is retried exactly when it says so; a response that did not
/// deserialize follows the verdict of the error payload its text parses as,
/// else that of the payload under an `error` key, else is not retried; a null
/// response is always retried; a serialization failure and any other error
/// never are.
pub proof fn law_retry_verdict_follows_the_error(
    retry_err: bool,
    payload_retry: Option<bool>,
    wrapped_retry: Option<bool>,
)
    ensures
        retryable(RpcErrorShape::Transport { retry_err }) == retry_err,
        retryable(RpcErrorShape::ErrorResp { retry_err }) == retry_err,
        payload_retry matches Some(v) ==> retryable(RpcErrorShape::DeserError { payload_retry, wrapped_retry }) == v,
        payload_retry is None ==> (wrapped_retry matches Some(v) ==> retryable(
            RpcErrorShape::DeserError { payload_retry, wrapped_retry },
        ) == v),
        payload_retry is None && wrapped_retry is None ==> !retryable(
            RpcErrorShape::DeserError { payload_retry, wrapped_retry },
        ),
        retryable(RpcErrorShape::NullResp),
        !retryable(RpcErrorShape::SerError),
        !retryable(RpcErrorShape::Other),
{
}

/// Analyzes whether to retry the request depending on the error.
pub fn rpc_error_is_retryable(e: &RpcErrorShape) -> (r: bool)
    ensures
        r == retryable(*e),
        *e matches RpcErrorShape::DeserError { payload_retry: Some(v), .. } ==> r == v,
        *e matches RpcErrorShape::DeserError { payload_retry: None, wrapped_retry: Some(v) } ==> r
            == v,
        *e matches RpcErrorShape::DeserError { payload_retry: None, wrapped_retry: None } ==> !r,
        *e matches RpcErrorShape::Transport { retry_err } ==> r == retry_err,
        *e matches RpcErrorShape::ErrorResp { retry_err } ==> r == retry_err,
        *e is NullResp ==> r,
        *e is SerError || *e is Other ==> !r,
{
    match e {
        RpcErrorShape::Transport { retry_err } => *retry_err,
        RpcErrorShape::DeserError { payload_retry, wrapped_retry } => {
            if let Some(v) = payload_retry {
                *v
            } else if let Some(v) = wrapped_retry {
                *v
            } else {
                false
            }
        },
        RpcErrorShape::ErrorResp { retry_err } => *retry_err,
        RpcErrorShape::NullResp => true,
        RpcErrorShape::SerError => false,
        RpcErrorShape::Other => false,
    }
}

/// A retry policy that retries also on "connection refused" errors.
#[derive(Debug, Clone, Copy)]
pub struct RateLimitConnRefusedRetryPolicy;

impl RateLimitConnRefusedRetryPolicy {
    /// Retries what the error itself marks retryable, and any error whose
    /// message (`message`, its rendering as text) reports a refused
    /// connection.
    pub fn should_retry(&self, error: &RpcErrorShape, message: &str) -> (r: bool)
        ensures
            r == (retryable(*error) || has_infix(lowered(message@), connection_refused_text())),
    {
        rpc_error_is_retryable(error) || is_connection_refused(message)
    }
}

/// The most retries made of a failing operation.
pub const DEFAULT_MAX_RETRIES: u32 = 9;

/// The delay before each retry, in milliseconds: the exponential backoff
/// starts here with a base of 1, so every delay is this one.
pub const DEFAULT_INITIAL_BACKOFF_MS: u64 = 1;

/// What follows a failed attempt of a retried operation.
#[derive(Debug, Clone, Copy, PartialEq, Eq, Structural)]
pub enum RetryStep {
    /// Report the error.
    GiveUp,
    /// Try again after a delay.
    RetryAfter {
        /// The retry count after this retry.
        retries: u32,
        /// Delay before the retry, in milliseconds.
        delay_ms: u64,
    },
}

/// The step after a failed attempt, when `retries` retries were made before.
pub open spec fn retry_step_spec(retryable: bool, retries: u32) -> RetryStep {
    if !retryable || retries >= DEFAULT_MAX_RETRIES {
        RetryStep::GiveUp
    } else {
        RetryStep::RetryAfter { retries: (retries + 1) as u32, delay_ms: DEFAULT_INITIAL_BACKOFF_MS }
    }
}

/// Decides what follows a failed attempt of an operation retried with
/// backoff: an error the condition rejects is reported at once; otherwise the
/// operation is tried again after the backoff delay, until the retries are
/// used up.
pub fn after_failed_attempt(retryable: bool, retries: u32) -> (r: RetryStep)
    ensures
        r == retry_step_spec(retryable, retries),
{
    if !retryable || retries >= DEFAULT_MAX_RETRIES {
        RetryStep::GiveUp
    } else {
        RetryStep::RetryAfter { retries: retries + 1, delay_ms: DEFAULT_INITIAL_BACKOFF_MS }
    }
}

/// Law: a retried operation runs at most `DEFAULT_MAX_RETRIES + 1` times:
/// every retry raises the count by one without passing the limit, and an
/// error that is not retryable is never retried.
pub proof fn law_retries_bounded(retryable: bool, retries: u32)
    ensures
        retry_step_spec(retryable, retries) matches RetryStep::RetryAfter { retries: n, .. }
            ==> n == retries + 1 && n <= DEFAULT_MAX_RETRIES,
        !retryable ==> retry_step_spec(retryable, retries) == RetryStep::GiveUp,
{
}

} // verus!
