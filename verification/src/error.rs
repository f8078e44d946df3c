//! Errors of scanner operations, built from what the scanner library
//! reports when a call fails.

use vstd::prelude::*;

verus! {

/// The code by which the I/O error domain reports that an operation was
/// cancelled.
pub const IO_ERROR_CANCELLED: i32 = 19;

/// The code of an error that had to be made up because a failed call left
/// no error behind.
pub const UNKNOWN_FAILURE_CODE: i32 = -1;

/// The name of the I/O error domain, in which cancellation is reported.
pub open spec fn io_error_domain() -> Seq<char> {
    "g-io-error-quark"@
}

/// The message of an error that had to be made up.
pub open spec fn unknown_failure_message() -> Seq<char> {
    "unknown failure"@
}

/// The error that a failed call left behind, field by field: the name of
/// its domain, its code within that domain, and its message.
#[derive(Debug, Clone, PartialEq, Eq)]
pub struct RawError {
    pub domain: String,
    pub code: i32,
    pub message: String,
}

/// What kind of failure an error stands for.
#[derive(Debug, Clone, Copy, PartialEq, Eq, Structural)]
pub enum GErrorKind {
    /// The scanner library reported a failure of the operation.
    Native,
    /// The operation was cancelled by the caller.
    Cancelled,
    /// Stored print data could not be read back.
    Decode,
    /// The call failed and left no error behind.
    Unknown,
}

/// Where an error comes from: the human-readable name of its domain.
#[derive(Debug, Clone, PartialEq, Eq)]
pub struct GErrorSource {
    source: String,
}

/// An error of a scanner operation.
#[derive(Debug, Clone, PartialEq, Eq)]
pub struct GError {
    kind: GErrorKind,
    code: i32,
    message: String,
    source: GErrorSource,
}

/// A `RawError` as mathematical values.
pub struct RawErrorView {
    pub domain: Seq<char>,
    pub code: int,
    pub message: Seq<char>,
}

/// A `GError` as mathematical values.
pub struct GErrorView {
    pub kind: GErrorKind,
    pub code: int,
    pub message: Seq<char>,
    pub source: Seq<char>,
}

impl View for RawError {
    type V = RawErrorView;

    open spec fn view(&self) -> RawErrorView {
        RawErrorView { domain: self.domain@, code: self.code as int, message: self.message@ }
    }
}

impl View for GErrorSource {
    type V = Seq<char>;

    closed spec fn view(&self) -> Seq<char> {
        self.source@
    }
}

impl View for GError {
    type V = GErrorView;

    closed spec fn view(&self) -> GErrorView {
        GErrorView {
            kind: self.kind,
            code: self.code as int,
            message: self.message@,
            source: self.source@,
        }
    }
}

/// Whether a reported error says that the operation was cancelled.
pub open spec fn is_cancellation(raw: RawErrorView) -> bool {
    raw.domain == io_error_domain() && raw.code == IO_ERROR_CANCELLED
}

/// The error that stands for a failed call: what the call left behind, or a
/// made-up error of kind `Unknown` where it left nothing. `failure` is the
/// kind of a reported error that is no cancellation.
pub open spec fn bridged(error: Option<RawErrorView>, failure: GErrorKind) -> GErrorView {
    match error {
        Some(raw) => GErrorView {
            kind: if is_cancellation(raw) {
                GErrorKind::Cancelled
            } else {
                failure
            },
            code: raw.code,
            message: raw.message,
            source: raw.domain,
        },
        None => GErrorView {
            kind: GErrorKind::Unknown,
            code: UNKNOWN_FAILURE_CODE as int,
            message: unknown_failure_message(),
            source: Seq::empty(),
        },
    }
}

/// The view of an error that may be absent.
pub open spec fn raw_view(error: Option<RawError>) -> Option<RawErrorView> {
    match error {
        Some(raw) => Some(raw@),
        None => None,
    }
}

/// The error that stands for an error that the scanner library reported;
/// its view is `bridged(Some(raw@), GErrorKind::Native)`.
pub closed spec fn reported_error(raw: RawError) -> GError {
    GError {
        kind: if is_cancellation(raw@) {
            GErrorKind::Cancelled
        } else {
            GErrorKind::Native
        },
        code: raw.code,
        message: raw.message,
        source: GErrorSource { source: raw.domain },
    }
}

/// The error that a callback is given for what the scanner library reported
/// with an event: none where it reported none.
pub open spec fn reported(error: Option<RawError>) -> Option<GError> {
    match error {
        Some(raw) => Some(reported_error(raw)),
        None => None,
    }
}

/// Whether `r` is the failure that `bridged` builds from `error`.
pub open spec fn fails_with<T>(r: Result<T, GError>, error: Option<RawError>, failure: GErrorKind)
    -> bool {
    match r {
        Ok(_) => false,
        Err(e) => e@ == bridged(raw_view(error), failure),
    }
}

impl GErrorSource {
    /// The source with the given domain name.
    pub fn new(domain: &str) -> (r: GErrorSource)
        ensures
            r@ == domain@,
    {
        GErrorSource { source: domain.to_owned() }
    }

    /// The domain name.
    pub fn to_string(&self) -> (s: String)
        ensures
            s@ == self@,
    {
        self.source.clone()
    }
}

impl GError {
    /// The error code within its domain.
    pub fn code(&self) -> (r: i32)
        ensures
            r == self@.code,
    {
        self.code
    }

    /// What kind of failure this is.
    pub fn kind(&self) -> (r: GErrorKind)
        ensures
            r == self@.kind,
    {
        self.kind
    }

    /// Whether the operation was cancelled by the caller.
    pub fn is_cancelled(&self) -> (r: bool)
        ensures
            r == (self@.kind == GErrorKind::Cancelled),
    {
        self.kind == GErrorKind::Cancelled
    }

    /// The human-readable message.
    pub fn message(&self) -> (s: String)
        ensures
            s@ == self@.message,
    {
        self.message.clone()
    }

    /// Where the error comes from.
    pub fn source(&self) -> (r: &GErrorSource)
        ensures
            r@ == self@.source,
    {
        &self.source
    }

    /// The text shown for this error: its message.
    pub fn to_string(&self) -> (s: String)
        ensures
            s@ == self@.message,
    {
        self.message.clone()
    }
}

/// Builds the error for a failed call whose reported error, if any, is of
/// kind `failure` unless it is a cancellation.
fn bridge(error: Option<RawError>, failure: GErrorKind) -> (r: GError)
    ensures
        r@ == bridged(raw_view(error), failure),
        failure == GErrorKind::Native ==> (error matches Some(raw) ==> r == reported_error(raw)),
{
    match error {
        Some(raw) => {
            let io: String = "g-io-error-quark".to_owned();
            let cancelled = raw.code == IO_ERROR_CANCELLED && raw.domain == io;
            let kind = if cancelled {
                GErrorKind::Cancelled
            } else {
                failure
            };
            GError {
                kind,
                code: raw.code,
                message: raw.message,
                source: GErrorSource { source: raw.domain },
            }
        },
        None => GError {
            kind: GErrorKind::Unknown,
            code: UNKNOWN_FAILURE_CODE,
            message: "unknown failure".to_owned(),
            source: GErrorSource { source: String::new() },
        },
    }
}

/// Turns what a failed scanner operation left behind into an error. A
/// reported cancellation becomes an error of kind `Cancelled`, any other
/// reported error one of kind `Native`. Where the call left nothing behind,
/// the error is made up, of kind `Unknown`.
pub fn from_libfprint(error: Option<RawError>) -> (r: GError)
    ensures
        r@ == bridged(raw_view(error), GErrorKind::Native),
{
    bridge(error, GErrorKind::Native)
}

/// Turns an error that the scanner library reported into an error: as
/// `from_libfprint` does where the call left an error behind.
pub fn from_libfprint_static(error: RawError) -> (r: GError)
    ensures
        r == reported_error(error),
        r@ == bridged(Some(error@), GErrorKind::Native),
{
    bridge(Some(error), GErrorKind::Native)
}

/// Turns what a failed reading of stored print data left behind into an
/// error: as `from_libfprint`, but a reported error that is no cancellation
/// is of kind `Decode`.
pub fn from_libfprint_decode(error: Option<RawError>) -> (r: GError)
    ensures
        r@ == bridged(raw_view(error), GErrorKind::Decode),
{
    bridge(error, GErrorKind::Decode)
}

/// The error that a callback is given holds what the scanner library
/// reported.
pub proof fn lemma_reported_error(raw: RawError)
    ensures
        reported_error(raw)@ == bridged(Some(raw@), GErrorKind::Native),
{
}

/// A cancellation is told apart from every other failure: the error of a
/// failed call is of kind `Cancelled` exactly if the call reported a
/// cancellation, and of kind `Unknown` exactly if it reported nothing.
pub proof fn lemma_kinds_are_distinct(error: Option<RawErrorView>)
    ensures
        bridged(error, GErrorKind::Native).kind == GErrorKind::Cancelled <==> (error matches Some(
            raw,
        ) && is_cancellation(raw)),
        bridged(error, GErrorKind::Native).kind == GErrorKind::Unknown <==> error is None,
        bridged(error, GErrorKind::Native).kind != GErrorKind::Decode,
{
}

} // verus!
