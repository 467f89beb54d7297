//! What can go wrong when talking to GitHub.
use vstd::prelude::*;

verus! {

pub enum Error {
    Authentication,
    HtmlUrlNotFound { api_url: String },
    /// GitHub could not be reached or refused a request; with the cause.
    GitHub(String),
    /// GitHub refused a request for the rate limit; with the cause.
    GitHubRateLimitExceeded(String),
    /// The messages of the errors that a GraphQL query returned.
    Graphql(Vec<String>),
    NetworkTask,
    BrowserNotAvailable,
}

/// `pattern` occurs in `text` starting at `start`.
pub open spec fn occurs_at(text: Seq<char>, pattern: Seq<char>, start: int) -> bool {
    0 <= start && start + pattern.len() <= text.len() && text.subrange(start, start + pattern.len()) == pattern
}

pub open spec fn contains(text: Seq<char>, pattern: Seq<char>) -> bool {
    exists|start: int| occurs_at(text, pattern, start)
}

fn matches_at(text: &str, n: usize, pattern: &str, m: usize, start: usize) -> (r: bool)
    requires
        n == text@.len(),
        m == pattern@.len(),
        start + m <= n,
    ensures
        r == occurs_at(text@, pattern@, start as int),
{
    let mut k: usize = 0;
    while k < m
        invariant
            k <= m,
            n == text@.len(),
            m == pattern@.len(),
            start + m <= n,
            forall|j: int| 0 <= j < k ==> text@[start + j] == pattern@[j],
        decreases m - k,
    {
        if text.get_char(start + k) != pattern.get_char(k) {
            assert(text@.subrange(start as int, start + m)[k as int] != pattern@[k as int]);
            return false;
        }
        k += 1;
    }
    assert(text@.subrange(start as int, start + m) =~= pattern@);
    true
}

/// Whether `pattern` occurs in `text`.
pub fn str_contains(text: &str, pattern: &str) -> (r: bool)
    ensures
        r == contains(text@, pattern@),
{
    let n = text.unicode_len();
    let m = pattern.unicode_len();
    if m > n {
        return false;
    }
    let last = n - m;
    let mut start: usize = 0;
    loop
        invariant
            n == text@.len(),
            m == pattern@.len(),
            m <= n,
            last == n - m,
            start <= last,
            forall|j: int| 0 <= j < start ==> !occurs_at(text@, pattern@, j),
        decreases last - start,
    {
        if matches_at(text, n, pattern, m, start) {
            return true;
        }
        if start == last {
            assert forall|j: int| !occurs_at(text@, pattern@, j) by {
                if 0 <= j < start {
                }
            }
            return false;
        }
        start += 1;
    }
}

pub open spec fn rate_limit_message() -> Seq<char> {
    "rate limit exceeded"@
}

/// The message that describes `e`.
pub open spec fn error_message(e: Error) -> Seq<char> {
    match e {
        Error::Authentication => "authentication with github failed"@,
        Error::HtmlUrlNotFound { api_url } => "target html url for "@ + api_url@ + " not found"@,
        Error::GitHub(_) => "could not communicate with github"@,
        Error::GitHubRateLimitExceeded(_) => "github api rate limit exceeded"@,
        Error::Graphql(_) => "graphql error"@,
        Error::NetworkTask => "could not complete concurrent network requests"@,
        Error::BrowserNotAvailable => "could not open browser"@,
    }
}

impl Error {
    /// The error for a failed request to GitHub: a refusal for the rate
    /// limit when GitHub's own message (`api_message`, present when GitHub
    /// answered with an error) says the rate limit was exceeded, and a
    /// failure to communicate otherwise. `cause` describes the failure.
    pub fn from_github(api_message: Option<&str>, cause: String) -> (r: Error)
        ensures
            (match api_message {
                Some(m) => contains(m@, rate_limit_message()),
                None => false,
            }) ==> r == Error::GitHubRateLimitExceeded(cause),
            !(match api_message {
                Some(m) => contains(m@, rate_limit_message()),
                None => false,
            }) ==> r == Error::GitHub(cause),
    {
        if let Some(message) = api_message {
            if str_contains(message, "rate limit exceeded") {
                return Error::GitHubRateLimitExceeded(cause);
            }
        }
        Error::GitHub(cause)
    }

    /// The message that describes the error.
    pub fn to_string(&self) -> (r: String)
        ensures
            r@ == error_message(*self),
    {
        match self {
            Error::Authentication => String::from_str("authentication with github failed"),
            Error::HtmlUrlNotFound { api_url } => {
                String::from_str("target html url for ").concat(api_url.as_str()).concat(" not found")
            },
            Error::GitHub(_) => String::from_str("could not communicate with github"),
            Error::GitHubRateLimitExceeded(_) => String::from_str("github api rate limit exceeded"),
            Error::Graphql(_) => String::from_str("graphql error"),
            Error::NetworkTask => String::from_str("could not complete concurrent network requests"),
            Error::BrowserNotAvailable => String::from_str("could not open browser"),
        }
    }
}

} // verus!
