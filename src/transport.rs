//! What the library decides about requests and answers of the HTTP layer:
//! the session settings, the address of each endpoint, which statuses count
//! as success, and the wording of failures.

use vstd::prelude::*;

verus! {

/// Settings of one session, fixed for the life of the process.
#[derive(Clone, Debug)]
pub struct ServerConfig {
    pub url: String,
    pub token: String,
    pub tick_rate_ms: u64,
    pub auto_reconnect: bool,
}

/// The four operations the server offers.
#[derive(Clone, Copy, Debug, PartialEq, Eq, Structural)]
pub enum Endpoint {
    Register,
    Arena,
    Move,
    Logs,
}

pub open spec fn endpoint_path(e: Endpoint) -> Seq<char> {
    match e {
        Endpoint::Register => "register"@,
        Endpoint::Arena => "arena"@,
        Endpoint::Move => "move"@,
        Endpoint::Logs => "logs"@,
    }
}

impl Endpoint {
    /// The endpoint's path below the base address.
    pub fn path(&self) -> (p: &'static str)
        ensures
            p@ == endpoint_path(*self),
    {
        match self {
            Endpoint::Register => "register",
            Endpoint::Arena => "arena",
            Endpoint::Move => "move",
            Endpoint::Logs => "logs",
        }
    }

    /// Whether the endpoint is called with POST (otherwise GET).
    pub fn is_post(&self) -> (r: bool)
        ensures
            r == (*self == Endpoint::Register || *self == Endpoint::Move),
    {
        match self {
            Endpoint::Register => true,
            Endpoint::Move => true,
            _ => false,
        }
    }
}

/// `s` without the copies of `c` at its end.
pub open spec fn trim_end(s: Seq<char>, c: char) -> Seq<char>
    decreases s.len(),
{
    if s.len() > 0 && s.last() == c {
        trim_end(s.drop_last(), c)
    } else {
        s
    }
}

/// `s` without the copies of `c` at its start.
pub open spec fn trim_start(s: Seq<char>, c: char) -> Seq<char>
    decreases s.len(),
{
    if s.len() > 0 && s[0] == c {
        trim_start(s.subrange(1, s.len() as int), c)
    } else {
        s
    }
}

/// The address of `endpoint` below `base`: joined by exactly the one slash.
pub open spec fn joined_url(base: Seq<char>, endpoint: Seq<char>) -> Seq<char> {
    trim_end(base, '/') + seq!['/'] + trim_start(endpoint, '/')
}

/// Where the trailing slashes of `s` begin.
fn trimmed_end(s: &Vec<char>) -> (n: usize)
    ensures
        n <= s@.len(),
        s@.subrange(0, n as int) == trim_end(s@, '/'),
{
    let mut n = s.len();
    proof {
        assert(s@.subrange(0, n as int) =~= s@);
    }
    while n > 0 && s[n - 1] == '/'
        invariant
            n <= s@.len(),
            trim_end(s@, '/') == trim_end(s@.subrange(0, n as int), '/'),
        decreases n,
    {
        proof {
            assert(s@.subrange(0, n as int).drop_last() =~= s@.subrange(0, n - 1));
        }
        n = n - 1;
    }
    proof {
        if n == 0 {
            assert(s@.subrange(0, 0) =~= Seq::<char>::empty());
        }
    }
    n
}

/// Where the leading slashes of `s` end.
fn trimmed_start(s: &Vec<char>) -> (n: usize)
    ensures
        n <= s@.len(),
        s@.subrange(n as int, s@.len() as int) == trim_start(s@, '/'),
{
    let len = s.len();
    let mut n: usize = 0;
    proof {
        assert(s@.subrange(0, len as int) =~= s@);
    }
    while n < len && s[n] == '/'
        invariant
            len == s@.len(),
            n <= len,
            trim_start(s@, '/') == trim_start(s@.subrange(n as int, len as int), '/'),
        decreases len - n,
    {
        proof {
            assert(s@.subrange(n as int, len as int).subrange(1, len - n) =~= s@.subrange(
                n + 1,
                len as int,
            ));
        }
        n = n + 1;
    }
    n
}

/// The address of `endpoint` below the base address `base`.
pub fn endpoint_url(base: &str, endpoint: &str) -> (r: String)
    ensures
        r@ == joined_url(base@, endpoint@),
{
    let b = crate::text::chars_of(base);
    let e = crate::text::chars_of(endpoint);
    let b_end = trimmed_end(&b);
    let e_start = trimmed_start(&e);
    let mut r = String::from_str(base.substring_char(0, b_end));
    r.append("/");
    r.append(endpoint.substring_char(e_start, e.len()));
    proof {
        reveal_strlit("/");
    }
    r
}

impl ServerConfig {
    /// The address of `endpoint` for this session.
    pub fn url_for(&self, endpoint: Endpoint) -> (r: String)
        ensures
            r@ == joined_url(self.url@, endpoint_path(endpoint)),
    {
        endpoint_url(self.url.as_str(), endpoint.path())
    }
}

/// Whether an HTTP status means success (the 2xx range).
pub open spec fn is_success_status(status: u16) -> bool {
    200 <= status <= 299
}

/// Why an operation failed.
#[derive(Clone, Debug)]
pub enum SyncError {
    /// The request did not reach the server or no answer came back.
    Transport(String),
    /// The server answered with a status outside the 2xx range.
    Protocol { status: u16, status_text: String, body: String },
    /// The answer's body could not be read as the expected record.
    Decode(String),
}

/// The text that describes a failure.
pub open spec fn failure_text(e: SyncError) -> Seq<char> {
    match e {
        SyncError::Transport(m) => m@,
        SyncError::Protocol { status_text, body, .. } => status_text@ + " - "@ + body@,
        SyncError::Decode(m) => "JSON parsing error: "@ + m@,
    }
}

impl SyncError {
    pub fn describe(&self) -> (r: String)
        ensures
            r@ == failure_text(*self),
    {
        match self {
            SyncError::Transport(m) => m.clone(),
            SyncError::Protocol { status_text, body, .. } => {
                let mut r = status_text.clone();
                r.append(" - ");
                r.append(body.as_str());
                r
            },
            SyncError::Decode(m) => {
                let mut r = String::from_str("JSON parsing error: ");
                r.append(m.as_str());
                r
            },
        }
    }
}

/// Accepts the body of an answer with a 2xx status; any other status is a
/// protocol failure that carries the status and the body.
pub fn check_status(status: u16, status_text: String, body: String) -> (r: Result<String, SyncError>)
    ensures
        is_success_status(status) ==> (r matches Ok(b) && b@ == body@),
        !is_success_status(status) ==> (r matches Err(
            SyncError::Protocol { status: s, status_text: t, body: b },
        ) && s == status && t@ == status_text@ && b@ == body@),
{
    if 200 <= status && status <= 299 {
        Ok(body)
    } else {
        Err(SyncError::Protocol { status, status_text, body })
    }
}

/// Kinds of registration failure.
#[derive(Clone, Copy, Debug, PartialEq, Eq, Structural)]
pub enum FailureClass {
    /// No game is running yet: wait for the next round.
    Soft,
    /// Anything else: retry with a longer interval.
    Hard,
}

pub open spec fn failure_class(e: SyncError) -> FailureClass {
    if crate::text::is_lobby_message(failure_text(e)) {
        FailureClass::Soft
    } else {
        FailureClass::Hard
    }
}

/// Classifies a registration failure by its text.
pub fn classify_failure(e: &SyncError) -> (c: FailureClass)
    ensures
        c == failure_class(*e),
{
    let text = e.describe();
    if crate::text::is_lobby_failure(text.as_str()) {
        FailureClass::Soft
    } else {
        FailureClass::Hard
    }
}

} // verus!
