//! The record types whose schemas are exported, and the wire forms of the
//! enumerations among them.

use vstd::prelude::*;
use vstd::string::StringExecFns;

verus! {

/// Tells whether two strings hold the same characters.
fn same_text(a: &str, b: &str) -> (r: bool)
    ensures
        r == (a@ == b@),
{
    String::from_str(a) == String::from_str(b)
}

/// Where a processing step stands. On the wire each variant is its lowercase
/// name.
#[derive(Clone, Copy, Debug, PartialEq, Eq, Structural)]
pub enum Status {
    Processing,
    Success,
    Failure,
}

/// The wire name of a status.
pub open spec fn status_name(s: Status) -> Seq<char> {
    match s {
        Status::Processing => "processing"@,
        Status::Success => "success"@,
        Status::Failure => "failure"@,
    }
}

/// The status whose wire name is `t`, if any: the wire form accepts exactly
/// the three lowercase names.
pub open spec fn status_of_name(t: Seq<char>) -> Option<Status> {
    if t == "processing"@ {
        Some(Status::Processing)
    } else if t == "success"@ {
        Some(Status::Success)
    } else if t == "failure"@ {
        Some(Status::Failure)
    } else {
        None
    }
}

impl Status {
    /// The wire name of this status.
    pub fn name(&self) -> (r: &'static str)
        ensures
            r@ == status_name(*self),
    {
        match self {
            Status::Processing => "processing",
            Status::Success => "success",
            Status::Failure => "failure",
        }
    }

    /// Reads a status from its wire name. Any other string, including a name
    /// in another case, is refused.
    pub fn from_name(t: &str) -> (r: Option<Status>)
        ensures
            r == status_of_name(t@),
    {
        if same_text(t, "processing") {
            Some(Status::Processing)
        } else if same_text(t, "success") {
            Some(Status::Success)
        } else if same_text(t, "failure") {
            Some(Status::Failure)
        } else {
            None
        }
    }
}

/// The status wire form accepts exactly the names of the three statuses,
/// each status reads back from its own name, and a name in another case
/// (such as `Processing`) is refused.
pub proof fn lemma_status_wire_form(t: Seq<char>, s: Status)
    ensures
        status_of_name(t) is Some <==> exists|u: Status| status_name(u) == t,
        status_of_name(status_name(s)) == Some(s),
        status_of_name("Processing"@) is None,
        status_of_name("Success"@) is None,
        status_of_name("Failure"@) is None,
{
    reveal_strlit("processing");
    reveal_strlit("success");
    reveal_strlit("failure");
    reveal_strlit("Processing");
    reveal_strlit("Success");
    reveal_strlit("Failure");
    assert(status_name(Status::Processing).len() != status_name(Status::Success).len());
    assert(status_name(Status::Processing).len() != status_name(Status::Failure).len());
    assert(status_name(Status::Success)[0] != status_name(Status::Failure)[0]);
    assert("Processing"@[0] != "processing"@[0]);
    assert("Success"@[0] != "success"@[0]);
    assert("Failure"@[0] != "failure"@[0]);
    if status_of_name(t) is Some {
        assert(status_name(status_of_name(t)->0) == t);
    }
}

/// A point in time in UTC: whole seconds since the Unix epoch and the
/// nanoseconds past that second.
#[derive(Clone, Copy, Debug, PartialEq, Eq, Structural)]
pub struct Timestamp {
    pub seconds: i64,
    pub nanoseconds: u32,
}

/// The earliest second a timestamp can hold: January 1 of the year -262143.
pub const MIN_TIMESTAMP_SECONDS: i64 = -8_334_601_228_800;

/// The last second a timestamp can hold: December 31 of the year 262142,
/// 23:59:59.
pub const MAX_TIMESTAMP_SECONDS: i64 = 8_210_266_876_799;

impl Timestamp {
    /// A timestamp that names a point in time: its second lies in the
    /// representable range, and its nanoseconds stay below one second, or
    /// below two where the second is the last of a minute and so may be a
    /// leap second.
    pub open spec fn wf(&self) -> bool {
        &&& MIN_TIMESTAMP_SECONDS <= self.seconds <= MAX_TIMESTAMP_SECONDS
        &&& (self.nanoseconds < 1_000_000_000 || (self.nanoseconds < 2_000_000_000 && (
        self.seconds as int) % 60 == 59))
    }

    /// Tells whether this timestamp names a point in time.
    pub fn is_valid(&self) -> (r: bool)
        ensures
            r == self.wf(),
    {
        if self.seconds < MIN_TIMESTAMP_SECONDS || self.seconds > MAX_TIMESTAMP_SECONDS {
            return false;
        }
        if self.nanoseconds < 1_000_000_000 {
            return true;
        }
        let offset: i64 = self.seconds - MIN_TIMESTAMP_SECONDS;
        proof {
            assert(MIN_TIMESTAMP_SECONDS as int % 60 == 0);
            assert((offset as int) % 60 == (self.seconds as int) % 60) by (nonlinear_arith)
                requires
                    offset as int == self.seconds as int - MIN_TIMESTAMP_SECONDS as int,
                    MIN_TIMESTAMP_SECONDS as int == -8_334_601_228_800int,
            ;
        }
        self.nanoseconds < 2_000_000_000 && offset % 60 == 59
    }
}

/// One action taken while handling an input.
#[derive(Clone, Debug)]
pub struct ActionLog {
    pub action: String,
    pub status: Status,
    pub timestamp: Timestamp,
}

/// One input and the actions taken for it, in order.
#[derive(Clone, Debug)]
pub struct InputLog {
    pub input: String,
    pub status: Status,
    pub timestamp: Timestamp,
    pub actions: Vec<ActionLog>,
}

/// Why a launch failed.
#[derive(Clone, Debug)]
pub enum LaunchResultError {
    LaunchFailed(String),
    InternalClientError(String),
    ClientExited(String),
}

/// The outcome of a launch: nothing on success.
pub type LaunchResult = Result<(), LaunchResultError>;

/// Why a local launch failed. On the wire a value is a document with a
/// `kind` field naming the variant and, for the variants that carry text, a
/// `payload` field holding it.
#[derive(Clone, Debug)]
pub enum LaunchLocalResultError {
    SpawnFailed(String),
    NoStdout,
    LineCorrupted(String),
}

/// The outcome of a local launch: nothing on success.
pub type LaunchLocalResult = Result<(), LaunchLocalResultError>;

/// A text message from the local side.
#[derive(Clone, Debug)]
pub struct LocalMessage {
    pub message: String,
}

/// Tells whether a `kind` value names a variant that carries a payload.
pub open spec fn kind_carries_payload(kind: Seq<char>) -> bool {
    kind == "SpawnFailed"@ || kind == "LineCorrupted"@
}

/// Tells whether a `kind` value names a variant of `LaunchLocalResultError`.
pub open spec fn is_local_error_kind(kind: Seq<char>) -> bool {
    kind_carries_payload(kind) || kind == "NoStdout"@
}

/// Tells whether a document with this `kind` and this `payload` (absent, or
/// present as text) is a well-formed `LaunchLocalResultError`: the kind must
/// name a variant, and the payload must be there where the variant carries one.
pub open spec fn local_error_accepts(kind: Seq<char>, payload: Option<Seq<char>>) -> bool {
    is_local_error_kind(kind) && (kind_carries_payload(kind) ==> payload.is_some())
}

impl LaunchLocalResultError {
    /// The `kind` field of this value's wire form.
    pub open spec fn kind_spec(&self) -> Seq<char> {
        match self {
            LaunchLocalResultError::SpawnFailed(_) => "SpawnFailed"@,
            LaunchLocalResultError::NoStdout => "NoStdout"@,
            LaunchLocalResultError::LineCorrupted(_) => "LineCorrupted"@,
        }
    }

    /// The `payload` field of this value's wire form, absent for `NoStdout`.
    pub open spec fn payload_spec(&self) -> Option<Seq<char>> {
        match self {
            LaunchLocalResultError::SpawnFailed(p) => Some(p@),
            LaunchLocalResultError::NoStdout => None,
            LaunchLocalResultError::LineCorrupted(p) => Some(p@),
        }
    }

    /// The `kind` field of this value's wire form.
    pub fn kind(&self) -> (r: &'static str)
        ensures
            r@ == self.kind_spec(),
    {
        match self {
            LaunchLocalResultError::SpawnFailed(_) => "SpawnFailed",
            LaunchLocalResultError::NoStdout => "NoStdout",
            LaunchLocalResultError::LineCorrupted(_) => "LineCorrupted",
        }
    }

    /// The `payload` field of this value's wire form, `None` for `NoStdout`.
    pub fn payload(&self) -> (r: Option<String>)
        ensures
            r.deep_view() == self.payload_spec(),
    {
        match self {
            LaunchLocalResultError::SpawnFailed(p) => Some(p.clone()),
            LaunchLocalResultError::NoStdout => None,
            LaunchLocalResultError::LineCorrupted(p) => Some(p.clone()),
        }
    }

    /// Reads a value from the fields of its wire form. The kind must name a
    /// variant, and a variant that carries text needs the payload; a payload
    /// beside `NoStdout` is ignored.
    pub fn from_fields(kind: &str, payload: Option<String>) -> (r: Option<LaunchLocalResultError>)
        ensures
            r.is_some() == local_error_accepts(kind@, payload.deep_view()),
            r matches Some(e) ==> e.kind_spec() == kind@,
            r matches Some(e) ==> e.payload_spec() == (if kind_carries_payload(kind@) {
                payload.deep_view()
            } else {
                None
            }),
    {
        if same_text(kind, "NoStdout") {
            proof {
                lemma_kind_names_distinct();
            }
            Some(LaunchLocalResultError::NoStdout)
        } else if same_text(kind, "SpawnFailed") {
            match payload {
                Some(p) => Some(LaunchLocalResultError::SpawnFailed(p)),
                None => None,
            }
        } else if same_text(kind, "LineCorrupted") {
            match payload {
                Some(p) => Some(LaunchLocalResultError::LineCorrupted(p)),
                None => None,
            }
        } else {
            None
        }
    }
}

/// The wire form of `LaunchLocalResultError` round-trips: the fields of every
/// value are accepted and read back as a value with the same fields.
pub proof fn lemma_local_error_fields_round_trip(e: LaunchLocalResultError)
    ensures
        local_error_accepts(e.kind_spec(), e.payload_spec()),
        kind_carries_payload(e.kind_spec()) <==> e.payload_spec().is_some(),
{
    lemma_kind_names_distinct();
}

/// The three `kind` values are distinct.
proof fn lemma_kind_names_distinct()
    ensures
        "NoStdout"@ != "SpawnFailed"@,
        "NoStdout"@ != "LineCorrupted"@,
        "SpawnFailed"@ != "LineCorrupted"@,
{
    reveal_strlit("NoStdout");
    reveal_strlit("SpawnFailed");
    reveal_strlit("LineCorrupted");
    assert("NoStdout"@.len() == 8);
    assert("SpawnFailed"@.len() == 11);
    assert("LineCorrupted"@.len() == 13);
}

/// Which `LaunchLocalResultError` documents are accepted: `kind` must be one
/// of `SpawnFailed`, `NoStdout` and `LineCorrupted`, and `payload` is needed
/// only where the variant carries data. `NoStdout` without a payload is
/// accepted; `SpawnFailed` or `LineCorrupted` without one is refused.
pub proof fn lemma_local_error_acceptance(kind: Seq<char>, payload: Option<Seq<char>>)
    ensures
        local_error_accepts(kind, payload) <==> ((kind == "NoStdout"@) || ((kind
            == "SpawnFailed"@ || kind == "LineCorrupted"@) && payload.is_some())),
        local_error_accepts("NoStdout"@, None),
        !local_error_accepts("SpawnFailed"@, None),
        !local_error_accepts("LineCorrupted"@, None),
{
    lemma_kind_names_distinct();
}

} // verus!
