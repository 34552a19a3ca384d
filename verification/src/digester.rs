//! Classification of the modem's byte stream into solicited responses and
//! unsolicited notifications.
use crate::text::{spec_stream_tag, stream_tag, TagMatch};
use crate::urc::{
    spec_first_frame, spec_is_decodable, spec_parse, spec_urc_tokens, Frame, FrameSpec, ParseError,
    URCMessages,
};
use vstd::prelude::*;
use vstd::slice::slice_subrange;
use vstd::string::StringSliceAdditionalSpecFns;

verus! {

/// The kinds of failure that the modem reports to a command.
#[derive(Debug, Clone, Copy, PartialEq, Eq, Structural)]
pub enum ErrorKind {
    /// A bare error line.
    Generic,
    /// A numbered equipment error.
    Cme,
    /// A numbered network error.
    Cms,
    /// The connection was refused or lost.
    Connection,
    /// This device's own error banner.
    Custom,
}

/// A failure reported to a command, with the banner's text where it is a custom one.
#[derive(Debug, PartialEq, Eq)]
pub struct ErrorPayload {
    pub kind: ErrorKind,
    pub text: Vec<u8>,
}

/// What a piece of the stream was found to be.
#[derive(Debug, PartialEq, Eq)]
pub enum Classification {
    /// An unsolicited notification.
    Urc(URCMessages),
    /// The answer to a command: its payload, or the failure that the modem reported.
    Response(Result<Vec<u8>, ErrorPayload>),
    /// Nothing yet: more bytes are needed, or the bytes are noise.
    Incomplete,
}

/// A classification as contracts speak of it.
pub enum ClassificationSpec {
    Urc(URCMessages),
    Success(Seq<u8>),
    Failure(ErrorKind, Seq<u8>),
    Incomplete,
}

impl View for Classification {
    type V = ClassificationSpec;

    open spec fn view(&self) -> ClassificationSpec {
        match *self {
            Classification::Urc(m) => ClassificationSpec::Urc(m),
            Classification::Response(Ok(data)) => ClassificationSpec::Success(data@),
            Classification::Response(Err(e)) => ClassificationSpec::Failure(e.kind, e.text@),
            Classification::Incomplete => ClassificationSpec::Incomplete,
        }
    }
}

/// What `atat::digest::parser::success_response` returns on `buf`.
pub uninterp spec fn success_response_result(buf: Seq<u8>) -> FrameSpec;

/// What `atat::digest::parser::error_response` returns on `buf`.
pub uninterp spec fn error_response_result(buf: Seq<u8>) -> Result<(ErrorKind, usize), ParseError>;

/// Calls `atat::digest::parser::success_response`. Found: the payload that
/// stands before the success code, trimmed, and the number of bytes up to the
/// end of the code, which lies within `buf`. The parser's request for more
/// input becomes `Incomplete`, its rejection `NoMatch`.
#[verifier::external_body]
fn success_response(buf: &[u8]) -> (r: Frame)
    ensures
        crate::urc::spec_frame_view(r) == success_response_result(buf@),
        r matches Ok((_, len)) ==> len <= buf@.len(),
{
    match atat::digest::parser::success_response(buf) {
        Ok((_, (atat::DigestResult::Response(Ok(data)), len))) => Ok((data.to_vec(), len)),
        Err(atat::nom::Err::Incomplete(_)) => Err(ParseError::Incomplete),
        _ => Err(ParseError::NoMatch),
    }
}

/// Calls `atat::digest::parser::error_response`. Found: the kind of error
/// that the line reports and the number of bytes up to its end, which is at
/// least one and lies within `buf`. The parser's request for more input becomes `Incomplete`,
/// its rejection `NoMatch`.
#[verifier::external_body]
fn error_response(buf: &[u8]) -> (r: Result<(ErrorKind, usize), ParseError>)
    ensures
        r == error_response_result(buf@),
        r matches Ok((_, len)) ==> 0 < len <= buf@.len(),
{
    match atat::digest::parser::error_response(buf) {
        Ok((_, (atat::DigestResult::Response(Err(e)), len))) => match e {
            atat::InternalError::CmeError(_) => Ok((ErrorKind::Cme, len)),
            atat::InternalError::CmsError(_) => Ok((ErrorKind::Cms, len)),
            atat::InternalError::ConnectionError(_) => Ok((ErrorKind::Connection, len)),
            _ => Ok((ErrorKind::Generic, len)),
        },
        Err(atat::nom::Err::Incomplete(_)) => Err(ParseError::Incomplete),
        _ => Err(ParseError::NoMatch),
    }
}

/// A fixed frame at the start of the stream: found with `data` as its
/// payload, incomplete where the stream ends inside it, else no match.
pub open spec fn spec_literal_frame(s: Seq<u8>, lit: Seq<u8>, data: Seq<u8>) -> FrameSpec {
    match spec_stream_tag(s, 0, lit) {
        TagMatch::Found => Ok((data, lit.len() as usize)),
        TagMatch::Short => Err(ParseError::Incomplete),
        TagMatch::Differs => Err(ParseError::NoMatch),
    }
}

/// The first of two outcomes that is not `NoMatch`.
pub open spec fn spec_or_else(first: FrameSpec, second: FrameSpec) -> FrameSpec {
    if first == Err::<(Seq<u8>, usize), ParseError>(ParseError::NoMatch) {
        second
    } else {
        first
    }
}

/// This device's success banners: an echoed `AT` or `ATE` line followed by
/// `OK`, or a bare `OK` line. The payload is `OK`.
pub open spec fn spec_custom_success(s: Seq<u8>) -> FrameSpec {
    let data = "OK".spec_bytes();
    spec_or_else(
        spec_literal_frame(s, "AT\r\r\nOK\r\n".spec_bytes(), data),
        spec_or_else(
            spec_literal_frame(s, "ATE\r\r\nOK\r\n".spec_bytes(), data),
            spec_literal_frame(s, "\r\nOK\r\n".spec_bytes(), data),
        ),
    )
}

/// This device's error banner, `ERROR(-1)` and a line ending. The payload is
/// the banner without the line ending.
pub open spec fn spec_custom_error(s: Seq<u8>) -> FrameSpec {
    spec_literal_frame(s, "ERROR(-1)\r\n".spec_bytes(), "ERROR(-1)".spec_bytes())
}

pub open spec fn spec_nothing() -> (ClassificationSpec, usize) {
    (ClassificationSpec::Incomplete, 0)
}

/// The last three stages: this device's success banners, its error banner,
/// the generic error responses.
pub open spec fn spec_digest_custom(s: Seq<u8>) -> (ClassificationSpec, usize) {
    match spec_custom_success(s) {
        Ok((data, len)) => (ClassificationSpec::Success(data), len),
        Err(ParseError::Incomplete) => spec_nothing(),
        Err(ParseError::NoMatch) => match spec_custom_error(s) {
            Ok((data, len)) => (ClassificationSpec::Failure(ErrorKind::Custom, data), len),
            Err(ParseError::Incomplete) => spec_nothing(),
            Err(ParseError::NoMatch) => match error_response_result(s) {
                Ok((kind, len)) => (ClassificationSpec::Failure(kind, Seq::empty()), len),
                Err(_) => spec_nothing(),
            },
        },
    }
}

/// The notification stage and what follows it. A frame whose token has no
/// decoder is an unknown notification; one whose decoder refuses its text is
/// left to the later stages.
pub open spec fn spec_digest_urc(s: Seq<u8>) -> (ClassificationSpec, usize) {
    match spec_first_frame(spec_urc_tokens(), s) {
        Ok((data, len)) => if !spec_is_decodable(data) {
            (ClassificationSpec::Urc(URCMessages::Unknown), len)
        } else {
            match spec_parse(data) {
                Some(event) => (ClassificationSpec::Urc(event), len),
                None => spec_digest_custom(s),
            }
        },
        Err(ParseError::Incomplete) => spec_nothing(),
        Err(ParseError::NoMatch) => spec_digest_custom(s),
    }
}

/// The classification of `s` and the number of bytes it takes up. The stages
/// are tried in order: generic success response, notification, this device's
/// success banners, its error banner, generic error response. The first that
/// matches decides; one that needs more bytes ends the attempt with
/// `Incomplete` and nothing consumed, and so does a stream that nothing matches.
pub open spec fn spec_digest(s: Seq<u8>) -> (ClassificationSpec, usize) {
    match success_response_result(s) {
        Err(ParseError::Incomplete) => spec_nothing(),
        Ok((data, len)) => if len > 0 {
            (ClassificationSpec::Success(data), len)
        } else {
            spec_digest_urc(s)
        },
        Err(ParseError::NoMatch) => spec_digest_urc(s),
    }
}

/// What comes of feeding the first `n` bytes of `s` one at a time: the
/// classification of the shortest prefix that classifies, or `Incomplete`
/// with nothing consumed where none up to `n` does.
pub open spec fn spec_feed(s: Seq<u8>, n: nat) -> (ClassificationSpec, usize)
    decreases n,
{
    if n == 0 {
        spec_nothing()
    } else {
        let before = spec_feed(s, (n - 1) as nat);
        if before.0 is Incomplete {
            spec_digest(s.subrange(0, n as int))
        } else {
            before
        }
    }
}

/// The framing engine of the command channel.
#[derive(Default)]
pub struct Ec800mDigester;

fn literal_frame(buf: &[u8], lit: &[u8], data: &[u8]) -> (r: Frame)
    ensures
        crate::urc::spec_frame_view(r) == spec_literal_frame(buf@, lit@, data@),
        r matches Ok((_, len)) ==> len == lit@.len() && len <= buf@.len(),
{
    match stream_tag(buf, 0, lit) {
        TagMatch::Found => Ok((vstd::slice::slice_to_vec(data), lit.len())),
        TagMatch::Short => Err(ParseError::Incomplete),
        TagMatch::Differs => Err(ParseError::NoMatch),
    }
}

impl Ec800mDigester {
    /// Recognises this device's error banner at the start of `buf`.
    pub fn custom_error(buf: &[u8]) -> (r: Frame)
        ensures
            crate::urc::spec_frame_view(r) == spec_custom_error(buf@),
            r matches Ok((_, len)) ==> 0 < len <= buf@.len(),
    {
        proof {
            lemma_banner_lengths();
        }
        literal_frame(buf, "ERROR(-1)\r\n".as_bytes(), "ERROR(-1)".as_bytes())
    }

    /// Recognises this device's success banners at the start of `buf`.
    pub fn custom_success(buf: &[u8]) -> (r: Frame)
        ensures
            crate::urc::spec_frame_view(r) == spec_custom_success(buf@),
            r matches Ok((_, len)) ==> 0 < len <= buf@.len(),
    {
        proof {
            lemma_banner_lengths();
        }
        let data = "OK".as_bytes();
        match literal_frame(buf, "AT\r\r\nOK\r\n".as_bytes(), data) {
            Err(ParseError::NoMatch) => {},
            r => {
                return r;
            },
        }
        match literal_frame(buf, "ATE\r\r\nOK\r\n".as_bytes(), data) {
            Err(ParseError::NoMatch) => {},
            r => {
                return r;
            },
        }
        literal_frame(buf, "\r\nOK\r\n".as_bytes(), data)
    }

    /// Classifies the start of `input` and says how many of its bytes the
    /// classified frame takes up; the caller keeps the rest.
    pub fn digest(&mut self, input: &[u8]) -> (r: (Classification, usize))
        ensures
            (r.0@, r.1) == spec_digest(input@),
            r.1 <= input@.len(),
            r.0 is Incomplete <==> r.1 == 0,
    {
        match success_response(input) {
            Ok((data, len)) => {
                if len > 0 {
                    return (Classification::Response(Ok(data)), len);
                }
            },
            Err(ParseError::Incomplete) => {
                return (Classification::Incomplete, 0);
            },
            Err(ParseError::NoMatch) => {},
        }
        match URCMessages::frame(input) {
            Ok((data, len)) => {
                if !URCMessages::is_decodable(data.as_slice()) {
                    return (Classification::Urc(URCMessages::Unknown), len);
                }
                match URCMessages::parse(data.as_slice()) {
                    Some(event) => {
                        return (Classification::Urc(event), len);
                    },
                    None => {},
                }
            },
            Err(ParseError::Incomplete) => {
                return (Classification::Incomplete, 0);
            },
            Err(ParseError::NoMatch) => {},
        }
        match Ec800mDigester::custom_success(input) {
            Ok((data, len)) => {
                return (Classification::Response(Ok(data)), len);
            },
            Err(ParseError::Incomplete) => {
                return (Classification::Incomplete, 0);
            },
            Err(ParseError::NoMatch) => {},
        }
        match Ec800mDigester::custom_error(input) {
            Ok((data, len)) => {
                return (
                    Classification::Response(Err(ErrorPayload { kind: ErrorKind::Custom, text: data })),
                    len,
                );
            },
            Err(ParseError::Incomplete) => {
                return (Classification::Incomplete, 0);
            },
            Err(ParseError::NoMatch) => {},
        }
        match error_response(input) {
            Ok((kind, len)) => (
                Classification::Response(Err(ErrorPayload { kind, text: Vec::new() })),
                len,
            ),
            Err(_) => (Classification::Incomplete, 0),
        }
    }

    /// Feeds `input` one byte at a time: classifies each prefix in turn and
    /// stops at the first that is more than `Incomplete`.
    pub fn digest_bytewise(&mut self, input: &[u8]) -> (r: (Classification, usize))
        ensures
            (r.0@, r.1) == spec_feed(input@, input@.len()),
    {
        let total: usize = input.len();
        let mut n: usize = 0;
        while n < total
            invariant
                n <= total == input@.len(),
                spec_feed(input@, n as nat) == spec_nothing(),
            decreases total - n,
        {
            n += 1;
            let (found, len) = self.digest(slice_subrange(input, 0, n));
            match found {
                Classification::Incomplete => {},
                _ => {
                    proof {
                        lemma_feed_settles(input@, n as nat, total as nat);
                    }
                    return (found, len);
                },
            }
        }
        (Classification::Incomplete, 0)
    }
}

/// This device's banners are 11, 9, 10 and 6 bytes long.
pub proof fn lemma_banner_lengths()
    ensures
        "ERROR(-1)\r\n".spec_bytes().len() == 11,
        "AT\r\r\nOK\r\n".spec_bytes().len() == 9,
        "ATE\r\r\nOK\r\n".spec_bytes().len() == 10,
        "\r\nOK\r\n".spec_bytes().len() == 6,
{
    reveal_strlit("ERROR(-1)\r\n");
    reveal_strlit("AT\r\r\nOK\r\n");
    reveal_strlit("ATE\r\r\nOK\r\n");
    reveal_strlit("\r\nOK\r\n");
    vstd::string::is_ascii_spec_bytes("ERROR(-1)\r\n");
    vstd::string::is_ascii_spec_bytes("AT\r\r\nOK\r\n");
    vstd::string::is_ascii_spec_bytes("ATE\r\r\nOK\r\n");
    vstd::string::is_ascii_spec_bytes("\r\nOK\r\n");
    assert("ERROR(-1)\r\n".is_ascii());
    assert("AT\r\r\nOK\r\n".is_ascii());
    assert("ATE\r\r\nOK\r\n".is_ascii());
    assert("\r\nOK\r\n".is_ascii());
}

/// A classification of `Incomplete` consumes nothing.
pub proof fn lemma_incomplete_consumes_nothing(s: Seq<u8>)
    ensures
        spec_digest(s).0 is Incomplete ==> spec_digest(s) == spec_nothing(),
{
}

/// Once a prefix has classified, feeding more bytes changes nothing.
pub proof fn lemma_feed_settles(s: Seq<u8>, n: nat, m: nat)
    requires
        n <= m,
        !(spec_feed(s, n).0 is Incomplete),
    ensures
        spec_feed(s, m) == spec_feed(s, n),
    decreases m - n,
{
    if n < m {
        lemma_feed_settles(s, n, (m - 1) as nat);
    }
}

/// While no prefix classifies, feeding byte by byte yields nothing.
pub proof fn lemma_feed_waits(s: Seq<u8>, n: nat)
    requires
        n <= s.len(),
        forall|k: int| 1 <= k <= n ==> (#[trigger] spec_digest(s.subrange(0, k))).0 is Incomplete,
    ensures
        spec_feed(s, n) == spec_nothing(),
    decreases n,
{
    if n > 0 {
        lemma_feed_waits(s, (n - 1) as nat);
        lemma_incomplete_consumes_nothing(s.subrange(0, n as int));
    }
}

/// The length of the shortest prefix of `s`, among those of up to `n` bytes,
/// that classifies as more than `Incomplete`; zero where there is none.
pub open spec fn spec_shortest(s: Seq<u8>, n: nat) -> nat
    decreases n,
{
    if n == 0 {
        0
    } else {
        let before = spec_shortest(s, (n - 1) as nat);
        if before > 0 {
            before
        } else if spec_digest(s.subrange(0, n as int)).0 is Incomplete {
            0
        } else {
            n
        }
    }
}

/// Feeding a stream one byte at a time yields what its shortest classifying
/// prefix yields, and nothing where no prefix classifies.
pub proof fn lemma_feed_is_shortest_prefix(s: Seq<u8>, n: nat)
    requires
        n <= s.len(),
    ensures
        spec_shortest(s, n) <= n,
        spec_shortest(s, n) == 0 ==> spec_feed(s, n) == spec_nothing(),
        spec_shortest(s, n) > 0 ==> spec_feed(s, n) == spec_digest(
            s.subrange(0, spec_shortest(s, n) as int),
        ) && !(spec_feed(s, n).0 is Incomplete),
    decreases n,
{
    if n > 0 {
        lemma_feed_is_shortest_prefix(s, (n - 1) as nat);
        lemma_incomplete_consumes_nothing(s.subrange(0, n as int));
    }
}

/// Chunking invariance, exactly: feeding a stream of at least one byte one
/// byte at a time yields the classification and the consumed length that the
/// whole stream yields in one call if and only if the shortest prefix that
/// classifies, if there is one, classifies as the whole stream does.
pub proof fn lemma_chunking_invariance_exact(s: Seq<u8>)
    requires
        s.len() > 0,
    ensures
        spec_feed(s, s.len()) == spec_digest(s) <==> (spec_shortest(s, s.len()) == 0
            || spec_digest(s.subrange(0, spec_shortest(s, s.len()) as int)) == spec_digest(s)),
{
    lemma_feed_is_shortest_prefix(s, s.len());
    if spec_shortest(s, s.len()) == 0 {
        lemma_no_shortest(s, s.len(), s.len());
        assert(s.subrange(0, s.len() as int) =~= s);
        lemma_incomplete_consumes_nothing(s);
    }
}

/// Chunking invariance: where no proper prefix of a stream classifies on its
/// own, feeding the stream one byte at a time yields the classification and
/// the consumed length that the whole stream yields in one call.
pub proof fn lemma_chunking_invariance(s: Seq<u8>)
    requires
        s.len() > 0,
        forall|k: int| 1 <= k < s.len() ==> (#[trigger] spec_digest(s.subrange(0, k))).0 is Incomplete,
    ensures
        spec_feed(s, s.len()) == spec_digest(s),
{
    lemma_feed_waits(s, (s.len() - 1) as nat);
    assert(s.subrange(0, s.len() as int) =~= s);
}

/// Where no prefix of up to `n` bytes classifies, each of them is `Incomplete`.
pub proof fn lemma_no_shortest(s: Seq<u8>, n: nat, k: nat)
    requires
        1 <= k <= n,
        spec_shortest(s, n) == 0,
    ensures
        spec_digest(s.subrange(0, k as int)).0 is Incomplete,
    decreases n,
{
    if k < n {
        lemma_no_shortest(s, (n - 1) as nat, k);
    }
}

} // verus!
