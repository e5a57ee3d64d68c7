//! The error container: one `Kind`, an optional chained `Cause`, and the
//! introspection operations over them.
use vstd::prelude::*;

use crate::trusted::h2_is_io_of;
use crate::trusted::h2_reason_from;
use crate::trusted::h2_reason_of;

verus! {

/// Marker recorded as a cause when the root failure was a deadline expiry.
#[derive(Debug)]
pub struct TimedOut;

/// Top-level failure category held by an [`Error`].
#[derive(Clone, Copy, Debug, PartialEq, Eq, Structural)]
pub enum Kind {
    /// A message failed to parse.
    Parse(Parse),
    /// A failure attributable to the application code driving the engine.
    User(User),
    /// A message reached EOF, but is not complete.
    IncompleteMessage,
    /// A connection received a message (or bytes) when not waiting for one.
    UnexpectedMessage,
    /// A pending item was dropped before ever being processed.
    Canceled,
    /// Indicates a channel (client or body sender) is closed.
    ChannelClosed,
    /// An I/O failure occurred while reading or writing a network stream.
    Io,
    /// The client took too long to send its headers.
    HeaderTimeout,
    /// Failure while reading a body from the connection.
    Body,
    /// Failure while writing a body to the connection.
    BodyWrite,
    /// Failure while shutting the connection down.
    Shutdown,
    /// A general failure of the HTTP/2 protocol engine.
    Http2,
}

/// Refinement of [`Kind::Parse`]: which part of the message failed to parse.
#[derive(Clone, Copy, Debug, PartialEq, Eq, Structural)]
pub enum Parse {
    /// Malformed request method.
    Method,
    /// Malformed HTTP version.
    Version,
    /// The bytes looked like an HTTP/2 connection preface.
    VersionH2,
    /// Malformed URI.
    Uri,
    /// The URI exceeded the permitted length.
    UriTooLong,
    /// Malformed header, refined by [`Header`].
    Header(Header),
    /// The message head exceeded the permitted size.
    TooLarge,
    /// Malformed status line.
    Status,
    /// The parser reported an inconsistency of its own.
    Internal,
}

/// Refinement of [`Parse::Header`]: which header rule was broken.
#[derive(Clone, Copy, Debug, PartialEq, Eq, Structural)]
pub enum Header {
    /// Malformed header name, value, line ending, or token.
    Token,
    /// A content-length header failed to parse or contradicted another.
    ContentLengthInvalid,
    /// A transfer-encoding header held an invalid coding.
    TransferEncodingInvalid,
    /// A transfer-encoding header appeared where none is allowed.
    TransferEncodingUnexpected,
}

/// Refinement of [`Kind::User`]: which application obligation was broken.
#[derive(Clone, Copy, Debug, PartialEq, Eq, Structural)]
pub enum User {
    /// The application's body stream failed.
    Body,
    /// The application aborted writing of the outgoing body.
    BodyWriteAborted,
    /// The application's service callback failed.
    Service,
    /// The application sent a header in a disallowed combination.
    UnexpectedHeader,
    /// The application responded with an unsupported 1xx status code.
    UnsupportedStatusCode,
    /// The application polled for an upgrade that does not exist.
    NoUpgrade,
    /// The application polled for an upgrade while driving the low-level API.
    ManualUpgrade,
    /// The dispatch task is gone.
    DispatchGone,
    /// The application aborted the operation from a callback.
    AbortedByCallback,
}

/// Represents errors that can occur handling HTTP streams.
///
/// An `Error` holds exactly one [`Kind`] and at most one [`Cause`], both
/// behind a single allocation, so the container itself stays one pointer
/// wide whatever populates it. It is built only through the named factory
/// functions, is immutable afterwards, and is introspected through the
/// predicate methods, [`Error::find_source`] and [`Error::h2_reason`].
///
/// The text of its [`Error::description`] covers this error alone and
/// never its causes; a caller wanting the whole chain walks
/// [`Error::source`] itself.
#[derive(Debug)]
pub struct Error {
    inner: Box<ErrorImpl>,
}

#[derive(Debug)]
struct ErrorImpl {
    kind: Kind,
    cause: Option<Cause>,
}

/// An underlying failure chained behind an [`Error`].
///
/// A cause may itself wrap a further `Error`, so chains are unbounded;
/// traversal ends at the first link that wraps no further error.
#[derive(Debug)]
pub enum Cause {
    /// The failure was a deadline expiry.
    TimedOut(TimedOut),
    /// An I/O failure of the transport.
    Io(std::io::Error),
    /// A failure of the HTTP/2 protocol engine.
    H2(h2::Error),
    /// A re-wrapped error of this library.
    Wrapped(Error),
    /// Any other failure, erased to its descriptive text.
    Other(String),
}

/// Selects which sort of chain link [`Error::find_source`] looks for.
#[derive(Clone, Copy, Debug)]
pub enum CauseTag {
    /// A [`Cause::TimedOut`] link.
    TimedOut,
    /// A [`Cause::Io`] link.
    Io,
    /// A [`Cause::H2`] link.
    H2,
    /// A [`Cause::Wrapped`] link.
    Wrapped,
    /// A [`Cause::Other`] link.
    Other,
}

/// Whether one chain link is of the sort `t` selects.
pub open spec fn tag_matches(c: Cause, t: CauseTag) -> bool {
    match c {
        Cause::TimedOut(_) => t is TimedOut,
        Cause::Io(_) => t is Io,
        Cause::H2(_) => t is H2,
        Cause::Wrapped(_) => t is Wrapped,
        Cause::Other(_) => t is Other,
    }
}

/// The first link of `s` that `t` selects, if any.
pub open spec fn first_match(s: Seq<Cause>, t: CauseTag) -> Option<Cause>
    decreases s.len(),
{
    if s.len() == 0 {
        None
    } else if tag_matches(s[0], t) {
        Some(s[0])
    } else {
        first_match(s.drop_first(), t)
    }
}

impl Error {
    /// The kind this error was built with.
    pub closed spec fn spec_kind(&self) -> Kind {
        self.inner.kind
    }

    /// The immediate cause this error was built with, if any.
    pub closed spec fn spec_cause(&self) -> Option<Cause> {
        self.inner.cause
    }

    /// Every link of the cause chain, nearest first; a re-wrapped error
    /// contributes its own chain after the link that wraps it.
    pub open spec fn chain(&self) -> Seq<Cause>
        decreases self,
    {
        match self.spec_cause() {
            Option::None => Seq::empty(),
            Option::Some(c) => seq![c] + chain_behind(c),
        }
    }

    /// This error was an HTTP parse error.
    pub open spec fn spec_is_parse(&self) -> bool {
        self.spec_kind() is Parse
    }

    /// This error was a parse error caused by a message or URI over the
    /// permitted size.
    pub open spec fn spec_is_parse_too_large(&self) -> bool {
        self.spec_kind() matches Kind::Parse(p) && (p is TooLarge || p is UriTooLong)
    }

    /// This error was a parse error caused by an invalid status line.
    pub open spec fn spec_is_parse_status(&self) -> bool {
        self.spec_kind() matches Kind::Parse(Parse::Status)
    }

    /// This error was caused by the application code driving the engine.
    pub open spec fn spec_is_user(&self) -> bool {
        self.spec_kind() is User
    }

    /// This error was about a pending item dropped before being processed.
    pub open spec fn spec_is_canceled(&self) -> bool {
        self.spec_kind() is Canceled
    }

    /// This error says a sender's channel is closed.
    pub open spec fn spec_is_closed(&self) -> bool {
        self.spec_kind() is ChannelClosed
    }

    /// This error says the connection closed before a message completed.
    pub open spec fn spec_is_incomplete_message(&self) -> bool {
        self.spec_kind() is IncompleteMessage
    }

    /// This error says the application aborted writing of the body.
    pub open spec fn spec_is_body_write_aborted(&self) -> bool {
        self.spec_kind() matches Kind::User(User::BodyWriteAborted)
    }

    /// A deadline-expiry marker is reachable somewhere in the chain.
    pub open spec fn spec_is_timeout(&self) -> bool {
        exists|i: int| 0 <= i < self.chain().len() && self.chain()[i] is TimedOut
    }
}

/// The links reachable behind one chain link.
pub open spec fn chain_behind(c: Cause) -> Seq<Cause>
    decreases c,
{
    match c {
        Cause::Wrapped(e) => e.chain(),
        _ => Seq::empty(),
    }
}

impl Error {
    pub(crate) fn new(kind: Kind) -> (e: Error)
        ensures
            e.spec_kind() == kind,
            e.spec_cause() is None,
    {
        Error { inner: Box::new(ErrorImpl { kind, cause: None }) }
    }

    pub(crate) fn with(self, cause: Cause) -> (e: Error)
        ensures
            e.spec_kind() == self.spec_kind(),
            e.spec_cause() == Some(cause),
    {
        let mut inner = self.inner;
        inner.cause = Some(cause);
        Error { inner }
    }

    /// The kind of this error.
    pub fn kind(&self) -> (k: &Kind)
        ensures
            *k == self.spec_kind(),
    {
        &self.inner.kind
    }

    /// The immediate cause of this error, if any: the one erased handle
    /// through which generic chain-printing tooling works.
    pub fn source(&self) -> (r: Option<&Cause>)
        ensures
            match r {
                Some(c) => self.spec_cause() == Some(*c),
                None => self.spec_cause() is None,
            },
    {
        match &self.inner.cause {
            Some(c) => Some(c),
            None => None,
        }
    }

    /// Consumes the error and hands out its immediate cause, for hosts
    /// that fold the chain into their own diagnostics.
    pub fn into_cause(self) -> (r: Option<Cause>)
        ensures
            r == self.spec_cause(),
    {
        let mut inner = self.inner;
        inner.cause.take()
    }

    /// Returns true if this was an HTTP parse error.
    pub fn is_parse(&self) -> (r: bool)
        ensures
            r == self.spec_is_parse(),
    {
        matches!(&self.inner.kind, Kind::Parse(_))
    }

    /// Returns true if this was an HTTP parse error caused by a message
    /// head or URI over the permitted size.
    pub fn is_parse_too_large(&self) -> (r: bool)
        ensures
            r == self.spec_is_parse_too_large(),
    {
        matches!(
            &self.inner.kind,
            Kind::Parse(Parse::TooLarge) | Kind::Parse(Parse::UriTooLong)
        )
    }

    /// Returns true if this was an HTTP parse error caused by an invalid
    /// response status code or reason phrase.
    pub fn is_parse_status(&self) -> (r: bool)
        ensures
            r == self.spec_is_parse_status(),
    {
        matches!(&self.inner.kind, Kind::Parse(Parse::Status))
    }

    /// Returns true if this error was caused by user code.
    pub fn is_user(&self) -> (r: bool)
        ensures
            r == self.spec_is_user(),
    {
        matches!(&self.inner.kind, Kind::User(_))
    }

    /// Returns true if this was about a request that was canceled.
    pub fn is_canceled(&self) -> (r: bool)
        ensures
            r == self.spec_is_canceled(),
    {
        matches!(&self.inner.kind, Kind::Canceled)
    }

    /// Returns true if a sender's channel is closed.
    pub fn is_closed(&self) -> (r: bool)
        ensures
            r == self.spec_is_closed(),
    {
        matches!(&self.inner.kind, Kind::ChannelClosed)
    }

    /// Returns true if the connection closed before a message could
    /// complete.
    pub fn is_incomplete_message(&self) -> (r: bool)
        ensures
            r == self.spec_is_incomplete_message(),
    {
        matches!(&self.inner.kind, Kind::IncompleteMessage)
    }

    /// Returns true if the body write was aborted.
    pub fn is_body_write_aborted(&self) -> (r: bool)
        ensures
            r == self.spec_is_body_write_aborted(),
    {
        matches!(&self.inner.kind, Kind::User(User::BodyWriteAborted))
    }

    /// An error for a pending item dropped before ever being processed.
    pub fn new_canceled() -> (e: Error)
        ensures
            e.spec_kind() is Canceled,
            e.spec_cause() is None,
    {
        Error::new(Kind::Canceled)
    }

    /// An error for a connection that closed before a message completed.
    pub fn new_incomplete() -> (e: Error)
        ensures
            e.spec_kind() is IncompleteMessage,
            e.spec_cause() is None,
    {
        Error::new(Kind::IncompleteMessage)
    }

    /// An error for a message head over the permitted size.
    pub fn new_too_large() -> (e: Error)
        ensures
            e.spec_kind() == Kind::Parse(Parse::TooLarge),
            e.spec_cause() is None,
    {
        Error::new(Kind::Parse(Parse::TooLarge))
    }

    /// An error for bytes that looked like an HTTP/2 connection preface.
    pub fn new_version_h2() -> (e: Error)
        ensures
            e.spec_kind() == Kind::Parse(Parse::VersionH2),
            e.spec_cause() is None,
    {
        Error::new(Kind::Parse(Parse::VersionH2))
    }

    /// An error for a message received while none was awaited.
    pub fn new_unexpected_message() -> (e: Error)
        ensures
            e.spec_kind() is UnexpectedMessage,
            e.spec_cause() is None,
    {
        Error::new(Kind::UnexpectedMessage)
    }

    /// An error for an I/O failure of the transport, chaining it.
    pub fn new_io(cause: std::io::Error) -> (e: Error)
        ensures
            e.spec_kind() is Io,
            e.spec_cause() == Some(Cause::Io(cause)),
    {
        Error::new(Kind::Io).with(Cause::Io(cause))
    }

    /// An error for a closed sender channel.
    pub fn new_closed() -> (e: Error)
        ensures
            e.spec_kind() is ChannelClosed,
            e.spec_cause() is None,
    {
        Error::new(Kind::ChannelClosed)
    }

    /// An error for a failure while reading a body, chaining it.
    pub fn new_body(cause: Cause) -> (e: Error)
        ensures
            e.spec_kind() is Body,
            e.spec_cause() == Some(cause),
    {
        Error::new(Kind::Body).with(cause)
    }

    /// An error for a failure while writing a body, chaining it.
    pub fn new_body_write(cause: Cause) -> (e: Error)
        ensures
            e.spec_kind() is BodyWrite,
            e.spec_cause() == Some(cause),
    {
        Error::new(Kind::BodyWrite).with(cause)
    }

    /// An error for a body write the application aborted.
    pub fn new_body_write_aborted() -> (e: Error)
        ensures
            e.spec_kind() == Kind::User(User::BodyWriteAborted),
            e.spec_cause() is None,
    {
        Error::new(Kind::User(User::BodyWriteAborted))
    }

    fn new_user(user: User) -> (e: Error)
        ensures
            e.spec_kind() == Kind::User(user),
            e.spec_cause() is None,
    {
        Error::new(Kind::User(user))
    }

    /// An error for a header the application sent in a disallowed
    /// combination.
    pub fn new_user_header() -> (e: Error)
        ensures
            e.spec_kind() == Kind::User(User::UnexpectedHeader),
            e.spec_cause() is None,
    {
        Error::new_user(User::UnexpectedHeader)
    }

    /// An error for a client that took too long to send its headers.
    pub fn new_header_timeout() -> (e: Error)
        ensures
            e.spec_kind() is HeaderTimeout,
            e.spec_cause() is None,
    {
        Error::new(Kind::HeaderTimeout)
    }

    /// An error for a response with an unsupported 1xx status code.
    pub fn new_user_unsupported_status_code() -> (e: Error)
        ensures
            e.spec_kind() == Kind::User(User::UnsupportedStatusCode),
            e.spec_cause() is None,
    {
        Error::new_user(User::UnsupportedStatusCode)
    }

    /// An error for polling an upgrade that does not exist.
    pub fn new_user_no_upgrade() -> (e: Error)
        ensures
            e.spec_kind() == Kind::User(User::NoUpgrade),
            e.spec_cause() is None,
    {
        Error::new_user(User::NoUpgrade)
    }

    /// An error for polling an upgrade while driving the low-level API.
    pub fn new_user_manual_upgrade() -> (e: Error)
        ensures
            e.spec_kind() == Kind::User(User::ManualUpgrade),
            e.spec_cause() is None,
    {
        Error::new_user(User::ManualUpgrade)
    }

    /// An error for a failed service callback, chaining the failure.
    pub fn new_user_service(cause: Cause) -> (e: Error)
        ensures
            e.spec_kind() == Kind::User(User::Service),
            e.spec_cause() == Some(cause),
    {
        Error::new_user(User::Service).with(cause)
    }

    /// An error for a failed application body stream, chaining the failure.
    pub fn new_user_body(cause: Cause) -> (e: Error)
        ensures
            e.spec_kind() == Kind::User(User::Body),
            e.spec_cause() == Some(cause),
    {
        Error::new_user(User::Body).with(cause)
    }

    /// An error for a failure while shutting the connection down,
    /// chaining it.
    pub fn new_shutdown(cause: std::io::Error) -> (e: Error)
        ensures
            e.spec_kind() is Shutdown,
            e.spec_cause() == Some(Cause::Io(cause)),
    {
        Error::new(Kind::Shutdown).with(Cause::Io(cause))
    }

    /// An error for an operation the application aborted from a callback.
    pub fn new_user_aborted_by_callback() -> (e: Error)
        ensures
            e.spec_kind() == Kind::User(User::AbortedByCallback),
            e.spec_cause() is None,
    {
        Error::new_user(User::AbortedByCallback)
    }

    /// An error for a dispatch task that is gone.
    pub fn new_user_dispatch_gone() -> (e: Error)
        ensures
            e.spec_kind() == Kind::User(User::DispatchGone),
            e.spec_cause() is None,
    {
        Error::new(Kind::User(User::DispatchGone))
    }

    /// An error classifying a parse failure, with no cause chained.
    pub fn new_parse(parse: Parse) -> (e: Error)
        ensures
            e.spec_kind() == Kind::Parse(parse),
            e.spec_cause() is None,
    {
        Error::new(Kind::Parse(parse))
    }

    /// An error for a protocol-engine failure. An engine failure that is
    /// fundamentally a transport failure is re-tagged as I/O, because the
    /// outward meaning matters more than which layer first observed it;
    /// any other engine failure is kept whole as the cause of an
    /// Http2-kind error.
    pub fn new_h2(cause: h2::Error) -> (e: Error)
        ensures
            h2_is_io_of(cause) ==> e.spec_kind() is Io && (e.spec_cause() matches Some(
                Cause::Io(_),
            )),
            !h2_is_io_of(cause) ==> e.spec_kind() is Http2 && e.spec_cause() == Some(
                Cause::H2(cause),
            ),
    {
        if cause.is_io() {
            match cause.into_io() {
                Some(io) => Error::new(Kind::Io).with(Cause::Io(io)),
                None => {
                    proof {
                        assert(false);
                    }
                    Error::new(Kind::Io)
                },
            }
        } else {
            Error::new(Kind::Http2).with(Cause::H2(cause))
        }
    }

    /// The protocol termination reason this error maps to: the reason of
    /// the first protocol-engine failure in the chain, or the fixed
    /// internal-error reason when there is none or it carries none.
    pub open spec fn spec_h2_reason(&self) -> h2::Reason {
        spec_reason_of_chain(self.chain())
    }

    /// The outgoing HTTP/2 termination reason for this error, used when
    /// resetting a stream or closing a connection. Total: every error
    /// maps to some reason, the fixed internal-error one by default.
    pub fn h2_reason(&self) -> (r: h2::Reason)
        ensures
            r == self.spec_h2_reason(),
    {
        proof {
            lemma_first_match_tag(self.chain(), CauseTag::H2);
            lemma_reason_follows_first_match(self.chain());
        }
        let found = self.find_source(CauseTag::H2);
        if let Some(Cause::H2(he)) = found {
            match he.reason() {
                Some(r) => r,
                None => default_reason(),
            }
        } else {
            default_reason()
        }
    }

    /// The fixed, human-readable classification sentence for this error.
    /// The text is a function of the kind alone and never holds
    /// cause-chain content: a caller wanting the whole chain walks
    /// [`Error::source`] itself. The exact wording is deliberately
    /// unstable and must never be pattern-matched; stable decisions
    /// belong to the predicate methods.
    pub fn description(&self) -> (r: &'static str)
        ensures
            r@ == spec_description(self.spec_kind()),
    {
        match &self.inner.kind {
            Kind::Parse(Parse::Method) => "invalid HTTP method parsed",
            Kind::Parse(Parse::Version) => "invalid HTTP version parsed",
            Kind::Parse(Parse::VersionH2) => "invalid HTTP version parsed (found HTTP2 preface)",
            Kind::Parse(Parse::Uri) => "invalid URI",
            Kind::Parse(Parse::UriTooLong) => "URI too long",
            Kind::Parse(Parse::Header(Header::Token)) => "invalid HTTP header parsed",
            Kind::Parse(Parse::Header(Header::ContentLengthInvalid)) => {
                "invalid content-length parsed"
            },
            Kind::Parse(Parse::Header(Header::TransferEncodingInvalid)) => {
                "invalid transfer-encoding parsed"
            },
            Kind::Parse(Parse::Header(Header::TransferEncodingUnexpected)) => {
                "unexpected transfer-encoding parsed"
            },
            Kind::Parse(Parse::TooLarge) => "message head is too large",
            Kind::Parse(Parse::Status) => "invalid HTTP status-code parsed",
            Kind::Parse(Parse::Internal) => {
                "internal error inside the engine, please report"
            },
            Kind::IncompleteMessage => "connection closed before message completed",
            Kind::UnexpectedMessage => "received unexpected message from connection",
            Kind::ChannelClosed => "channel closed",
            Kind::Canceled => "operation was canceled",
            Kind::HeaderTimeout => "read header from client timeout",
            Kind::Body => "error reading a body from connection",
            Kind::BodyWrite => "error writing a body to connection",
            Kind::Shutdown => "error shutting down connection",
            Kind::Http2 => "http2 error",
            Kind::Io => "connection error",
            Kind::User(User::Body) => "error from user's Body stream",
            Kind::User(User::BodyWriteAborted) => "user body write aborted",
            Kind::User(User::Service) => "error from user's Service",
            Kind::User(User::UnexpectedHeader) => "user sent unexpected header",
            Kind::User(User::UnsupportedStatusCode) => {
                "response has 1xx status code, not supported by server"
            },
            Kind::User(User::NoUpgrade) => "no upgrade available",
            Kind::User(User::ManualUpgrade) => "upgrade expected but low level API in use",
            Kind::User(User::DispatchGone) => "dispatch task is gone",
            Kind::User(User::AbortedByCallback) => {
                "operation aborted by an application callback"
            },
        }
    }

    /// Walks the cause chain from the immediate cause on and hands back
    /// the first link of the sort `tag` selects, or nothing once the
    /// chain is exhausted. This is the one place chain-walk logic lives;
    /// [`Error::is_timeout`] and [`Error::h2_reason`] both go through it.
    #[verifier::spinoff_prover]
    #[verifier::rlimit(50)]
    pub fn find_source(&self, tag: CauseTag) -> (r: Option<&Cause>)
        ensures
            match r {
                Some(c) => first_match(self.chain(), tag) == Some(*c),
                None => first_match(self.chain(), tag) is None,
            },
        decreases *self,
    {
        match &self.inner.cause {
            Option::None => None,
            Option::Some(c) => {
                proof {
                    assert(self.chain() == seq![*c] + chain_behind(*c));
                    assert(self.chain().len() == 1 + chain_behind(*c).len());
                    assert(self.chain()[0] == *c);
                }
                if cause_has_tag(c, tag) {
                    proof {
                        assert(tag_matches(self.chain()[0], tag));
                        assert(first_match(self.chain(), tag) == Some(self.chain()[0]));
                    }
                    Some(c)
                } else {
                    proof {
                        assert(self.chain().drop_first() =~= chain_behind(*c));
                    }
                    match c {
                        Cause::Wrapped(e) => e.find_source(tag),
                        _ => {
                            proof {
                                assert(self.chain().drop_first() =~= Seq::<Cause>::empty());
                            }
                            None
                        },
                    }
                }
            },
        }
    }

    /// Returns true if the error was caused by a timeout: a deadline
    /// expiry marker is reachable somewhere in the chain, nested errors
    /// looked through.
    pub fn is_timeout(&self) -> (r: bool)
        ensures
            r == self.spec_is_timeout(),
    {
        proof {
            lemma_first_match_iff(self.chain(), CauseTag::TimedOut);
            if exists|i: int|
                0 <= i < self.chain().len() && tag_matches(self.chain()[i], CauseTag::TimedOut) {
                let i = choose|i: int|
                    0 <= i < self.chain().len() && tag_matches(
                        self.chain()[i],
                        CauseTag::TimedOut,
                    );
                assert(self.chain()[i] is TimedOut);
            }
            if self.spec_is_timeout() {
                let i = choose|i: int| 0 <= i < self.chain().len() && self.chain()[i] is TimedOut;
                assert(tag_matches(self.chain()[i], CauseTag::TimedOut));
            }
        }
        self.find_source(CauseTag::TimedOut).is_some()
    }
}

/// Whether this link is of the sort `tag` selects.
fn cause_has_tag(c: &Cause, tag: CauseTag) -> (r: bool)
    ensures
        r == tag_matches(*c, tag),
{
    match c {
        Cause::TimedOut(_) => matches!(tag, CauseTag::TimedOut),
        Cause::Io(_) => matches!(tag, CauseTag::Io),
        Cause::H2(_) => matches!(tag, CauseTag::H2),
        Cause::Wrapped(_) => matches!(tag, CauseTag::Wrapped),
        Cause::Other(_) => matches!(tag, CauseTag::Other),
    }
}

/// The chain walk only hands back links of the requested sort.
proof fn lemma_first_match_tag(s: Seq<Cause>, t: CauseTag)
    ensures
        first_match(s, t) matches Some(c) ==> tag_matches(c, t),
    decreases s.len(),
{
    if s.len() == 0 {
    } else if tag_matches(s[0], t) {
    } else {
        lemma_first_match_tag(s.drop_first(), t);
    }
}

/// The chain walk finds a link exactly when one of the requested sort
/// stands anywhere in the chain.
proof fn lemma_first_match_iff(s: Seq<Cause>, t: CauseTag)
    ensures
        (first_match(s, t) is Some) <==> (exists|i: int|
            0 <= i < s.len() && tag_matches(s[i], t)),
    decreases s.len(),
{
    if s.len() == 0 {
    } else if tag_matches(s[0], t) {
        assert(0 <= 0 < s.len() && tag_matches(s[0], t));
    } else {
        lemma_first_match_iff(s.drop_first(), t);
        if exists|i: int| 0 <= i < s.drop_first().len() && tag_matches(s.drop_first()[i], t) {
            let i = choose|i: int|
                0 <= i < s.drop_first().len() && tag_matches(s.drop_first()[i], t);
            assert(s.drop_first()[i] == s[i + 1]);
            assert(tag_matches(s[i + 1], t));
        }
        if exists|i: int| 0 <= i < s.len() && tag_matches(s[i], t) {
            let i = choose|i: int| 0 <= i < s.len() && tag_matches(s[i], t);
            assert(i >= 1);
            assert(s.drop_first()[i - 1] == s[i]);
            assert(tag_matches(s.drop_first()[i - 1], t));
        }
    }
}

/// The classification sentence for each kind. Deliberately closed: the
/// wording is unstable and no caller may depend on it, only on its
/// existence and on its being a function of the kind alone.
pub closed spec fn spec_description(k: Kind) -> Seq<char> {
    match k {
        Kind::Parse(Parse::Method) => "invalid HTTP method parsed"@,
        Kind::Parse(Parse::Version) => "invalid HTTP version parsed"@,
        Kind::Parse(Parse::VersionH2) => "invalid HTTP version parsed (found HTTP2 preface)"@,
        Kind::Parse(Parse::Uri) => "invalid URI"@,
        Kind::Parse(Parse::UriTooLong) => "URI too long"@,
        Kind::Parse(Parse::Header(Header::Token)) => "invalid HTTP header parsed"@,
        Kind::Parse(Parse::Header(Header::ContentLengthInvalid)) => "invalid content-length parsed"@,
        Kind::Parse(Parse::Header(Header::TransferEncodingInvalid)) => "invalid transfer-encoding parsed"@,
        Kind::Parse(Parse::Header(Header::TransferEncodingUnexpected)) => "unexpected transfer-encoding parsed"@,
        Kind::Parse(Parse::TooLarge) => "message head is too large"@,
        Kind::Parse(Parse::Status) => "invalid HTTP status-code parsed"@,
        Kind::Parse(Parse::Internal) => "internal error inside the engine, please report"@,
        Kind::IncompleteMessage => "connection closed before message completed"@,
        Kind::UnexpectedMessage => "received unexpected message from connection"@,
        Kind::ChannelClosed => "channel closed"@,
        Kind::Canceled => "operation was canceled"@,
        Kind::HeaderTimeout => "read header from client timeout"@,
        Kind::Body => "error reading a body from connection"@,
        Kind::BodyWrite => "error writing a body to connection"@,
        Kind::Shutdown => "error shutting down connection"@,
        Kind::Http2 => "http2 error"@,
        Kind::Io => "connection error"@,
        Kind::User(User::Body) => "error from user's Body stream"@,
        Kind::User(User::BodyWriteAborted) => "user body write aborted"@,
        Kind::User(User::Service) => "error from user's Service"@,
        Kind::User(User::UnexpectedHeader) => "user sent unexpected header"@,
        Kind::User(User::UnsupportedStatusCode) => "response has 1xx status code, not supported by server"@,
        Kind::User(User::NoUpgrade) => "no upgrade available"@,
        Kind::User(User::ManualUpgrade) => "upgrade expected but low level API in use"@,
        Kind::User(User::DispatchGone) => "dispatch task is gone"@,
        Kind::User(User::AbortedByCallback) => "operation aborted by an application callback"@,
    }
}

/// Law: the classification sentence is non-empty for every kind.
pub proof fn lemma_description_nonempty(k: Kind)
    ensures
        spec_description(k).len() > 0,
{
    match k {
        Kind::Parse(Parse::Method) => reveal_strlit("invalid HTTP method parsed"),
        Kind::Parse(Parse::Version) => reveal_strlit("invalid HTTP version parsed"),
        Kind::Parse(Parse::VersionH2) => reveal_strlit(
            "invalid HTTP version parsed (found HTTP2 preface)",
        ),
        Kind::Parse(Parse::Uri) => reveal_strlit("invalid URI"),
        Kind::Parse(Parse::UriTooLong) => reveal_strlit("URI too long"),
        Kind::Parse(Parse::Header(Header::Token)) => reveal_strlit("invalid HTTP header parsed"),
        Kind::Parse(Parse::Header(Header::ContentLengthInvalid)) => reveal_strlit(
            "invalid content-length parsed",
        ),
        Kind::Parse(Parse::Header(Header::TransferEncodingInvalid)) => reveal_strlit(
            "invalid transfer-encoding parsed",
        ),
        Kind::Parse(Parse::Header(Header::TransferEncodingUnexpected)) => reveal_strlit(
            "unexpected transfer-encoding parsed",
        ),
        Kind::Parse(Parse::TooLarge) => reveal_strlit("message head is too large"),
        Kind::Parse(Parse::Status) => reveal_strlit("invalid HTTP status-code parsed"),
        Kind::Parse(Parse::Internal) => reveal_strlit(
            "internal error inside the engine, please report",
        ),
        Kind::IncompleteMessage => reveal_strlit("connection closed before message completed"),
        Kind::UnexpectedMessage => reveal_strlit("received unexpected message from connection"),
        Kind::ChannelClosed => reveal_strlit("channel closed"),
        Kind::Canceled => reveal_strlit("operation was canceled"),
        Kind::HeaderTimeout => reveal_strlit("read header from client timeout"),
        Kind::Body => reveal_strlit("error reading a body from connection"),
        Kind::BodyWrite => reveal_strlit("error writing a body to connection"),
        Kind::Shutdown => reveal_strlit("error shutting down connection"),
        Kind::Http2 => reveal_strlit("http2 error"),
        Kind::Io => reveal_strlit("connection error"),
        Kind::User(User::Body) => reveal_strlit("error from user's Body stream"),
        Kind::User(User::BodyWriteAborted) => reveal_strlit("user body write aborted"),
        Kind::User(User::Service) => reveal_strlit("error from user's Service"),
        Kind::User(User::UnexpectedHeader) => reveal_strlit("user sent unexpected header"),
        Kind::User(User::UnsupportedStatusCode) => reveal_strlit(
            "response has 1xx status code, not supported by server",
        ),
        Kind::User(User::NoUpgrade) => reveal_strlit("no upgrade available"),
        Kind::User(User::ManualUpgrade) => reveal_strlit(
            "upgrade expected but low level API in use",
        ),
        Kind::User(User::DispatchGone) => reveal_strlit("dispatch task is gone"),
        Kind::User(User::AbortedByCallback) => reveal_strlit(
            "operation aborted by an application callback",
        ),
    }
}

/// The taxonomy entry each raw wire-parser failure collapses to.
///
/// Malformed header name, value, line ending and token all collapse into
/// the one header-token entry — no finer distinction is retained — and
/// too many headers collapses into the same entry as a message head over
/// size, since both present the same externally observable symptom.
pub open spec fn spec_parse_of_wire(err: httparse::Error) -> Parse {
    match err {
        httparse::Error::HeaderName => Parse::Header(Header::Token),
        httparse::Error::HeaderValue => Parse::Header(Header::Token),
        httparse::Error::NewLine => Parse::Header(Header::Token),
        httparse::Error::Token => Parse::Header(Header::Token),
        httparse::Error::Status => Parse::Status,
        httparse::Error::TooManyHeaders => Parse::TooLarge,
        httparse::Error::Version => Parse::Version,
    }
}

impl Parse {
    /// Maps a raw wire-parser failure into the closed parse taxonomy by
    /// the fixed, total collapsing table.
    pub fn from_wire(err: httparse::Error) -> (p: Parse)
        ensures
            p == spec_parse_of_wire(err),
    {
        match err {
            httparse::Error::HeaderName => Parse::Header(Header::Token),
            httparse::Error::HeaderValue => Parse::Header(Header::Token),
            httparse::Error::NewLine => Parse::Header(Header::Token),
            httparse::Error::Token => Parse::Header(Header::Token),
            httparse::Error::Status => Parse::Status,
            httparse::Error::TooManyHeaders => Parse::TooLarge,
            httparse::Error::Version => Parse::Version,
        }
    }

    /// Classifies the header library's invalid-method failure: every such
    /// failure lands on the method entry.
    pub fn from_invalid_method(err: &http::method::InvalidMethod) -> (p: Parse)
        ensures
            p == Parse::Method,
    {
        Parse::Method
    }

    /// Classifies the header library's invalid-status failure: every such
    /// failure lands on the status entry.
    pub fn from_invalid_status_code(err: &http::status::InvalidStatusCode) -> (p: Parse)
        ensures
            p == Parse::Status,
    {
        Parse::Status
    }

    /// Classifies the header library's invalid-URI failure: every such
    /// failure lands on the URI entry.
    pub fn from_invalid_uri(err: &http::uri::InvalidUri) -> (p: Parse)
        ensures
            p == Parse::Uri,
    {
        Parse::Uri
    }

    /// Classifies the header library's invalid-URI-parts failure: every
    /// such failure lands on the URI entry.
    pub fn from_invalid_uri_parts(err: &http::uri::InvalidUriParts) -> (p: Parse)
        ensures
            p == Parse::Uri,
    {
        Parse::Uri
    }

    /// The parse entry for an invalid content-length header.
    pub fn content_length_invalid() -> (p: Parse)
        ensures
            p == Parse::Header(Header::ContentLengthInvalid),
    {
        Parse::Header(Header::ContentLengthInvalid)
    }

    /// The parse entry for an invalid transfer-encoding header.
    pub fn transfer_encoding_invalid() -> (p: Parse)
        ensures
            p == Parse::Header(Header::TransferEncodingInvalid),
    {
        Parse::Header(Header::TransferEncodingInvalid)
    }

    /// The parse entry for a transfer-encoding header out of place.
    pub fn transfer_encoding_unexpected() -> (p: Parse)
        ensures
            p == Parse::Header(Header::TransferEncodingUnexpected),
    {
        Parse::Header(Header::TransferEncodingUnexpected)
    }
}

/// Law: the wire table is collapsing on purpose: all four header-syntax
/// failures land on the one header-token entry, and too many headers
/// lands on the same entry as an oversized message head.
pub proof fn lemma_wire_collapsing()
    ensures
        spec_parse_of_wire(httparse::Error::HeaderName) == Parse::Header(Header::Token),
        spec_parse_of_wire(httparse::Error::HeaderValue) == Parse::Header(Header::Token),
        spec_parse_of_wire(httparse::Error::NewLine) == Parse::Header(Header::Token),
        spec_parse_of_wire(httparse::Error::Token) == Parse::Header(Header::Token),
        spec_parse_of_wire(httparse::Error::TooManyHeaders) == Parse::TooLarge,
{
}

/// The fixed fallback: the reason standing for the HTTP/2 internal-error
/// code, 2.
pub open spec fn spec_default_reason() -> h2::Reason {
    h2_reason_from(2)
}

/// The reason a chain yields: the first protocol-engine link decides,
/// through the reason it carries; without such a link, or when that link
/// carries no reason, the fixed internal-error reason stands.
pub open spec fn spec_reason_of_chain(s: Seq<Cause>) -> h2::Reason
    decreases s.len(),
{
    if s.len() == 0 {
        spec_default_reason()
    } else {
        match s[0] {
            Cause::H2(he) => match h2_reason_of(he) {
                Some(r) => r,
                None => spec_default_reason(),
            },
            _ => spec_reason_of_chain(s.drop_first()),
        }
    }
}

/// The fixed fallback reason, built from the HTTP/2 internal-error code.
fn default_reason() -> (r: h2::Reason)
    ensures
        r == spec_default_reason(),
{
    <h2::Reason as core::convert::From<u32>>::from(2u32)
}

/// The reason a chain yields is decided by the first protocol-engine
/// link the chain walk finds, and is the fixed default without one.
proof fn lemma_reason_follows_first_match(s: Seq<Cause>)
    ensures
        first_match(s, CauseTag::H2) is None ==> spec_reason_of_chain(s)
            == spec_default_reason(),
        first_match(s, CauseTag::H2) matches Some(c) ==> (c matches Cause::H2(he)
            && spec_reason_of_chain(s) == (match h2_reason_of(he) {
            Some(r) => r,
            None => spec_default_reason(),
        })),
    decreases s.len(),
{
    if s.len() == 0 {
    } else if tag_matches(s[0], CauseTag::H2) {
    } else {
        lemma_reason_follows_first_match(s.drop_first());
    }
}

/// Law: a factory that installs a kind and no cause yields a value on
/// which exactly the predicates selecting that kind return true — each
/// predicate answers to the kind alone — and which is never a timeout.
pub proof fn lemma_causeless_factory_predicates(e: Error)
    requires
        e.spec_cause() is None,
    ensures
        e.spec_is_parse() <==> e.spec_kind() is Parse,
        e.spec_is_parse_too_large() <==> (e.spec_kind() matches Kind::Parse(p) && (p is TooLarge
            || p is UriTooLong)),
        e.spec_is_parse_status() <==> e.spec_kind() matches Kind::Parse(Parse::Status),
        e.spec_is_user() <==> e.spec_kind() is User,
        e.spec_is_canceled() <==> e.spec_kind() is Canceled,
        e.spec_is_closed() <==> e.spec_kind() is ChannelClosed,
        e.spec_is_incomplete_message() <==> e.spec_kind() is IncompleteMessage,
        e.spec_is_body_write_aborted() <==> e.spec_kind() matches Kind::User(
            User::BodyWriteAborted,
        ),
        !e.spec_is_timeout(),
{
    assert(e.chain() =~= Seq::<Cause>::empty());
}

/// Law: the predicates overlap only along the refinement edges — the
/// size and status predicates refine the parse predicate, the
/// aborted-body-write predicate refines the user predicate — and the
/// kind-level predicates exclude one another.
pub proof fn lemma_predicates_exclusive(e: Error)
    ensures
        e.spec_is_parse_too_large() ==> e.spec_is_parse(),
        e.spec_is_parse_status() ==> e.spec_is_parse(),
        e.spec_is_body_write_aborted() ==> e.spec_is_user(),
        e.spec_is_parse() ==> !e.spec_is_user() && !e.spec_is_canceled() && !e.spec_is_closed()
            && !e.spec_is_incomplete_message() && !e.spec_is_body_write_aborted(),
        e.spec_is_user() ==> !e.spec_is_parse() && !e.spec_is_canceled() && !e.spec_is_closed()
            && !e.spec_is_incomplete_message() && !e.spec_is_parse_too_large()
            && !e.spec_is_parse_status(),
        e.spec_is_canceled() ==> !e.spec_is_closed() && !e.spec_is_incomplete_message(),
        e.spec_is_closed() ==> !e.spec_is_incomplete_message(),
{
}

/// Law: an error whose sole cause is a leaf link other than the timeout
/// marker is not a timeout.
pub proof fn lemma_leaf_cause_not_timeout(e: Error, c: Cause)
    requires
        e.spec_cause() == Some(c),
        !(c is TimedOut),
        !(c is Wrapped),
    ensures
        !e.spec_is_timeout(),
{
    assert(e.chain() == seq![c] + chain_behind(c));
    assert(chain_behind(c) =~= Seq::<Cause>::empty());
    assert(e.chain().len() == 1);
    assert(e.chain()[0] == c);
    if e.spec_is_timeout() {
        let i = choose|i: int| 0 <= i < e.chain().len() && e.chain()[i] is TimedOut;
        assert(i == 0);
    }
}

/// Law: an error built with the timeout marker as its immediate cause is
/// a timeout.
pub proof fn lemma_timeout_cause_is_timeout(e: Error, m: TimedOut)
    requires
        e.spec_cause() == Some(Cause::TimedOut(m)),
    ensures
        e.spec_is_timeout(),
{
    assert(e.chain() == seq![Cause::TimedOut(m)] + chain_behind(Cause::TimedOut(m)));
    assert(e.chain()[0] == Cause::TimedOut(m));
    assert(0 <= 0 < e.chain().len() && e.chain()[0] is TimedOut);
}

/// Law: re-wrapping keeps timeouts visible: with a wrapped error as the
/// immediate cause, the outer error is a timeout exactly when the
/// wrapped one is.
pub proof fn lemma_timeout_crosses_rewrap(outer: Error, inner: Error)
    requires
        outer.spec_cause() == Some(Cause::Wrapped(inner)),
    ensures
        outer.spec_is_timeout() == inner.spec_is_timeout(),
{
    let s = outer.chain();
    assert(s == seq![Cause::Wrapped(inner)] + inner.chain());
    if inner.spec_is_timeout() {
        let i = choose|i: int| 0 <= i < inner.chain().len() && inner.chain()[i] is TimedOut;
        assert(s[i + 1] == inner.chain()[i]);
        assert(0 <= i + 1 < s.len() && s[i + 1] is TimedOut);
    }
    if outer.spec_is_timeout() {
        let i = choose|i: int| 0 <= i < s.len() && s[i] is TimedOut;
        assert(i >= 1);
        assert(inner.chain()[i - 1] == s[i]);
        assert(0 <= i - 1 < inner.chain().len() && inner.chain()[i - 1] is TimedOut);
    }
}

/// Law: a causeless error yields no source link, whatever sort is
/// requested.
pub proof fn lemma_find_source_causeless(e: Error, tag: CauseTag)
    requires
        e.spec_cause() is None,
    ensures
        first_match(e.chain(), tag) is None,
{
    assert(e.chain() =~= Seq::<Cause>::empty());
}

/// Law: an error whose immediate cause is a protocol-engine failure
/// carrying reason `r` maps to exactly that reason.
pub proof fn lemma_h2_reason_direct(e: Error, he: h2::Error, r: h2::Reason)
    requires
        e.spec_cause() == Some(Cause::H2(he)),
        h2_reason_of(he) == Some(r),
    ensures
        e.spec_h2_reason() == r,
{
    assert(e.chain() == seq![Cause::H2(he)] + chain_behind(Cause::H2(he)));
    assert(e.chain()[0] == Cause::H2(he));
    assert(e.chain().len() > 0);
}

/// Law: re-wrapping keeps the reason: an error whose immediate cause
/// wraps another error maps to whatever the wrapped error maps to, so
/// the reason walk crosses nested-error boundaries.
pub proof fn lemma_h2_reason_rewrap(outer: Error, inner: Error)
    requires
        outer.spec_cause() == Some(Cause::Wrapped(inner)),
    ensures
        outer.spec_h2_reason() == inner.spec_h2_reason(),
{
    let s = outer.chain();
    assert(s == seq![Cause::Wrapped(inner)] + inner.chain());
    assert(s[0] == Cause::Wrapped(inner));
    assert(s.len() > 0);
    assert(s.drop_first() =~= inner.chain());
}

/// Law: an error with no protocol-engine failure anywhere in its chain
/// maps to the fixed internal-error reason.
pub proof fn lemma_h2_reason_default(e: Error)
    requires
        forall|i: int| 0 <= i < e.chain().len() ==> !(#[trigger] e.chain()[i] is H2),
    ensures
        e.spec_h2_reason() == spec_default_reason(),
{
    lemma_first_match_iff(e.chain(), CauseTag::H2);
    if exists|i: int| 0 <= i < e.chain().len() && tag_matches(e.chain()[i], CauseTag::H2) {
        let i = choose|i: int| 0 <= i < e.chain().len() && tag_matches(e.chain()[i], CauseTag::H2);
        assert(!(e.chain()[i] is H2));
        assert(false);
    }
    lemma_reason_follows_first_match(e.chain());
}

} // verus!
