//! Unsolicited notifications of the modem: how a frame is found in the byte
//! stream and how its text is decoded into a typed event.
use crate::text::{contains, field, has_at, run_end, spec_contains, spec_field, spec_has_at, spec_run_end};
use vstd::prelude::*;
use vstd::string::StringSliceAdditionalSpecFns;

verus! {

/// Why a piece of text was not decoded.
#[derive(Debug, Clone, Copy, PartialEq, Eq, Structural)]
pub enum ParseError {
    /// The text agrees with the grammar as far as it goes, but it ends too early.
    Incomplete,
    /// The text is not what the grammar describes.
    NoMatch,
}

/// The decoded unsolicited notifications.
#[allow(inconsistent_fields)]
#[derive(Debug, Clone, Copy, PartialEq, Eq, Structural)]
pub enum URCMessages {
    /// A well-framed notification that carries nothing this device acts on.
    Unknown,
    /// Result of opening the session's network connection.
    QmtOpen { client_idx: u16, result: i8 },
    QmtClose,
    /// Result of logging the session in.
    QmtConn { client_idx: u16, result: u8, ret_code: u8 },
    /// Result of one publish.
    QmtPubex { client_idx: u16, result: u8, ret_code: u8 },
    /// Network registration status with location area, cell and access technology.
    CREG { stat: u8, lac: u16, ci: u32, act: u8 },
    /// Outcome of the assisted-GNSS data check.
    Agps { valid: bool },
    /// Outcome of a GNSS data update.
    Gnss { update: bool },
    QmtStat,
    /// The modem has booted.
    RDY,
}

/// A frame found in the stream: its text and the number of bytes it takes up.
pub type Frame = Result<(Vec<u8>, usize), ParseError>;

/// A frame as contracts speak of it.
pub type FrameSpec = Result<(Seq<u8>, usize), ParseError>;

pub open spec fn spec_frame_view(f: Frame) -> FrameSpec {
    match f {
        Ok((data, len)) => Ok((data@, len)),
        Err(e) => Err(e),
    }
}

/// What `atat::digest::parser::urc_helper`, made with `token`, returns on `buf`.
pub uninterp spec fn urc_helper_result(token: Seq<char>, buf: Seq<u8>) -> FrameSpec;

/// Calls `atat::digest::parser::urc_helper` with `token` and applies the
/// parser it returns to `buf`. Found: the notification's text, trimmed, and
/// the length of the frame with its line endings, which is at least one byte
/// and lies within `buf`. The parser's request for more input becomes
/// `Incomplete`, its rejection `NoMatch`.
#[verifier::external_body]
fn urc_helper(token: &str, buf: &[u8]) -> (r: Frame)
    ensures
        spec_frame_view(r) == urc_helper_result(token@, buf@),
        r matches Ok((_, len)) ==> 0 < len <= buf@.len(),
{
    match atat::digest::parser::urc_helper::<&str, atat::nom::error::Error<&[u8]>>(token)(buf) {
        Ok((_, (data, len))) => Ok((data.to_vec(), len)),
        Err(atat::nom::Err::Incomplete(_)) => Err(ParseError::Incomplete),
        Err(_) => Err(ParseError::NoMatch),
    }
}

/// The notification tokens that frame a notification, in the order in which they are tried.
pub open spec fn spec_urc_tokens() -> Seq<Seq<char>> {
    seq![
        "RDY"@,
        "+CFUN"@,
        "+CPIN"@,
        "+CREG"@,
        "+CGREG"@,
        "+CTZV"@,
        "+CTZE"@,
        "+QIND"@,
        "+QUSIM"@,
        "+QMTOPEN"@,
        "+QMTCONN"@,
        "+QMTPUBEX"@,
        "+QMTSTAT"@,
        "+QMTRECV"@,
        "+QMTPING"@,
        "+SESSOPEN"@,
        "GNSS Update successed!!!!"@,
        "AGPS Check Vailed!!!!"@,
    ]
}

/// The first outcome other than `NoMatch` among the tokens, tried in order.
pub open spec fn spec_first_frame(tokens: Seq<Seq<char>>, buf: Seq<u8>) -> FrameSpec
    decreases tokens.len(),
{
    if tokens.len() == 0 {
        Err(ParseError::NoMatch)
    } else {
        match urc_helper_result(tokens[0], buf) {
            Err(ParseError::NoMatch) => spec_first_frame(tokens.drop_first(), buf),
            r => r,
        }
    }
}

fn urc_tokens() -> (r: Vec<&'static str>)
    ensures
        r@.len() == spec_urc_tokens().len(),
        forall|i: int| 0 <= i < r@.len() ==> (#[trigger] r@[i])@ == spec_urc_tokens()[i],
{
    vec![
        "RDY",
        "+CFUN",
        "+CPIN",
        "+CREG",
        "+CGREG",
        "+CTZV",
        "+CTZE",
        "+QIND",
        "+QUSIM",
        "+QMTOPEN",
        "+QMTCONN",
        "+QMTPUBEX",
        "+QMTSTAT",
        "+QMTRECV",
        "+QMTPING",
        "+SESSOPEN",
        "GNSS Update successed!!!!",
        "AGPS Check Vailed!!!!",
    ]
}

/// A separator and the decimal field behind it: the field's value and where its digits end.
pub open spec fn spec_next_field(s: Seq<u8>, at: int, streaming: bool, max: nat) -> Result<
    (nat, int),
    ParseError,
> {
    if 0 <= at < s.len() && s[at] == 0x2C {
        match spec_field(s, at + 1, false, max) {
            Some(v) => Ok((v, spec_run_end(s, at + 1, false))),
            None => Err(ParseError::NoMatch),
        }
    } else if streaming && at >= s.len() {
        Err(ParseError::Incomplete)
    } else {
        Err(ParseError::NoMatch)
    }
}

/// The token that opens a notification and the decimal field behind it.
pub open spec fn spec_head_field(s: Seq<u8>, token: Seq<u8>, max: nat) -> Result<
    (nat, int),
    ParseError,
> {
    if spec_has_at(s, 0, token) {
        match spec_field(s, token.len() as int, false, max) {
            Some(v) => Ok((v, spec_run_end(s, token.len() as int, false))),
            None => Err(ParseError::NoMatch),
        }
    } else {
        Err(ParseError::NoMatch)
    }
}

/// Three decimal fields behind `token`, the first up to 65535, the others up to 255.
pub open spec fn spec_three_fields(s: Seq<u8>, token: Seq<u8>, streaming: bool) -> Result<
    (u16, u8, u8),
    ParseError,
> {
    match spec_head_field(s, token, 65535) {
        Err(e) => Err(e),
        Ok((id, e1)) => match spec_next_field(s, e1, streaming, 255) {
            Err(e) => Err(e),
            Ok((res, e2)) => match spec_next_field(s, e2, streaming, 255) {
                Err(e) => Err(e),
                Ok((ret, _)) => Ok((id as u16, res as u8, ret as u8)),
            },
        },
    }
}

pub open spec fn spec_open_with(s: Seq<u8>, token: Seq<u8>) -> Result<URCMessages, ParseError> {
    match spec_head_field(s, token, 65535) {
        Err(e) => Err(e),
        Ok((id, e1)) => match spec_next_field(s, e1, true, 127) {
            Err(e) => Err(e),
            Ok((res, _)) => Ok(URCMessages::QmtOpen { client_idx: id as u16, result: res as i8 }),
        },
    }
}

/// `+QMTOPEN: <client>,<result>`, also spelled `+SESSOPEN: <client>,<result>`:
/// a client index up to 65535 and a result up to 127; text that ends before
/// the comma is incomplete.
pub open spec fn spec_parse_qmt_open(s: Seq<u8>) -> Result<URCMessages, ParseError> {
    if spec_has_at(s, 0, "+SESSOPEN: ".spec_bytes()) {
        spec_open_with(s, "+SESSOPEN: ".spec_bytes())
    } else {
        spec_open_with(s, "+QMTOPEN: ".spec_bytes())
    }
}

/// `+QMTCONN: <client>,<result>,<code>`.
pub open spec fn spec_parse_qmt_conn(s: Seq<u8>) -> Result<URCMessages, ParseError> {
    match spec_three_fields(s, "+QMTCONN: ".spec_bytes(), false) {
        Err(e) => Err(e),
        Ok((id, res, ret)) => Ok(
            URCMessages::QmtConn { client_idx: id, result: res, ret_code: ret },
        ),
    }
}

/// `+QMTPUBEX: <client>,<result>,<code>`; text that ends before a comma is incomplete.
pub open spec fn spec_parse_qmt_pubex(s: Seq<u8>) -> Result<URCMessages, ParseError> {
    match spec_three_fields(s, "+QMTPUBEX: ".spec_bytes(), true) {
        Err(e) => Err(e),
        Ok((id, res, ret)) => Ok(
            URCMessages::QmtPubex { client_idx: id, result: res, ret_code: ret },
        ),
    }
}

/// `+CREG: <stat>,"<lac>","<ci>",<act>` or `+CREG: <n>,<stat>,"<lac>","<ci>",<act>`:
/// where a second number stands before the quoted fields it is the status,
/// else the first is. `lac` and `ci` are hexadecimal and must fit 32 bits;
/// of `lac` the low 16 bits are kept.
pub open spec fn spec_parse_cerg(s: Seq<u8>) -> Result<URCMessages, ParseError> {
    match spec_head_field(s, "+CREG: ".spec_bytes(), 255) {
        Err(e) => Err(e),
        Ok((first, e1)) => {
            let second = spec_next_field(s, e1, false, 127);
            let stat = if second is Ok {
                second->Ok_0.0
            } else {
                first
            };
            let e2 = if second is Ok {
                second->Ok_0.1
            } else {
                e1
            };
            let q1 = e2 + ",\"".spec_bytes().len();
            let h1 = spec_run_end(s, q1, true);
            let q2 = h1 + "\",\"".spec_bytes().len();
            let h2 = spec_run_end(s, q2, true);
            let lac = spec_field(s, q1, true, 0xFFFF_FFFF);
            let ci = spec_field(s, q2, true, 0xFFFF_FFFF);
            let act = spec_field(s, h2 + "\",".spec_bytes().len(), false, 255);
            if spec_has_at(s, e2, ",\"".spec_bytes()) && spec_has_at(s, h1, "\",\"".spec_bytes())
                && spec_has_at(s, h2, "\",".spec_bytes()) && lac is Some && ci is Some
                && act is Some {
                Ok(
                    URCMessages::CREG {
                        stat: stat as u8,
                        lac: (lac->0 % 0x1_0000) as u16,
                        ci: ci->0 as u32,
                        act: act->0 as u8,
                    },
                )
            } else {
                Err(ParseError::NoMatch)
            }
        },
    }
}

/// The notification tokens that have a decoder, as they open a frame's text.
pub open spec fn spec_is_decodable(s: Seq<u8>) -> bool {
    ||| spec_has_at(s, 0, "+QMTOPEN".spec_bytes())
    ||| spec_has_at(s, 0, "+SESSOPEN".spec_bytes())
    ||| spec_has_at(s, 0, "+QMTCONN".spec_bytes())
    ||| spec_has_at(s, 0, "+CREG".spec_bytes())
    ||| spec_has_at(s, 0, "+QMTPUBEX".spec_bytes())
    ||| spec_has_at(s, 0, "GNSS".spec_bytes())
    ||| spec_has_at(s, 0, "AGPS".spec_bytes())
    ||| spec_has_at(s, 0, "RDY".spec_bytes())
}

pub open spec fn spec_ok(r: Result<URCMessages, ParseError>) -> Option<URCMessages> {
    match r {
        Ok(m) => Some(m),
        Err(_) => None,
    }
}

/// The event that a frame's text decodes to: the first token that opens the
/// text picks the decoder, and text that its decoder refuses decodes to nothing.
pub open spec fn spec_parse(s: Seq<u8>) -> Option<URCMessages> {
    if spec_has_at(s, 0, "+QMTOPEN".spec_bytes()) || spec_has_at(s, 0, "+SESSOPEN".spec_bytes()) {
        spec_ok(spec_parse_qmt_open(s))
    } else if spec_has_at(s, 0, "+QMTCONN".spec_bytes()) {
        spec_ok(spec_parse_qmt_conn(s))
    } else if spec_has_at(s, 0, "+CREG".spec_bytes()) {
        spec_ok(spec_parse_cerg(s))
    } else if spec_has_at(s, 0, "+QMTPUBEX".spec_bytes()) {
        spec_ok(spec_parse_qmt_pubex(s))
    } else if spec_has_at(s, 0, "GNSS".spec_bytes()) {
        Some(URCMessages::Gnss { update: spec_contains(s, "Update successed".spec_bytes()) })
    } else if spec_has_at(s, 0, "AGPS".spec_bytes()) {
        Some(URCMessages::Agps { valid: spec_contains(s, "Check Vailed".spec_bytes()) })
    } else if spec_has_at(s, 0, "RDY".spec_bytes()) {
        Some(URCMessages::RDY)
    } else {
        None
    }
}

fn next_field(buf: &[u8], at: usize, streaming: bool, max: u32) -> (r: Result<
    (u32, usize),
    ParseError,
>)
    requires
        at <= buf@.len(),
    ensures
        r is Ok == spec_next_field(buf@, at as int, streaming, max as nat) is Ok,
        r matches Ok((v, end)) ==> spec_next_field(buf@, at as int, streaming, max as nat) == Ok::<
            (nat, int),
            ParseError,
        >((v as nat, end as int)) && at < end <= buf@.len(),
        r matches Err(e) ==> spec_next_field(buf@, at as int, streaming, max as nat) == Err::<
            (nat, int),
            ParseError,
        >(e),
{
    if at < buf.len() && buf[at] == 0x2C {
        match field(buf, at + 1, false, max) {
            Some(v) => Ok((v, run_end(buf, at + 1, false))),
            None => Err(ParseError::NoMatch),
        }
    } else if streaming && at >= buf.len() {
        Err(ParseError::Incomplete)
    } else {
        Err(ParseError::NoMatch)
    }
}

fn head_field(buf: &[u8], token: &[u8], max: u32) -> (r: Result<(u32, usize), ParseError>)
    ensures
        r is Ok == spec_head_field(buf@, token@, max as nat) is Ok,
        r matches Ok((v, end)) ==> spec_head_field(buf@, token@, max as nat) == Ok::<
            (nat, int),
            ParseError,
        >((v as nat, end as int)) && end <= buf@.len(),
        r matches Err(e) ==> spec_head_field(buf@, token@, max as nat) == Err::<
            (nat, int),
            ParseError,
        >(e),
{
    if has_at(buf, 0, token) {
        match field(buf, token.len(), false, max) {
            Some(v) => Ok((v, run_end(buf, token.len(), false))),
            None => Err(ParseError::NoMatch),
        }
    } else {
        Err(ParseError::NoMatch)
    }
}

fn three_fields(buf: &[u8], token: &[u8], streaming: bool) -> (r: Result<(u16, u8, u8), ParseError>)
    ensures
        r == spec_three_fields(buf@, token@, streaming),
{
    match head_field(buf, token, 65535) {
        Err(e) => Err(e),
        Ok((id, e1)) => match next_field(buf, e1, streaming, 255) {
            Err(e) => Err(e),
            Ok((res, e2)) => match next_field(buf, e2, streaming, 255) {
                Err(e) => Err(e),
                Ok((ret, _)) => Ok((id as u16, res as u8, ret as u8)),
            },
        },
    }
}

fn open_with(buf: &[u8], token: &[u8]) -> (r: Result<URCMessages, ParseError>)
    ensures
        r == spec_open_with(buf@, token@),
{
    match head_field(buf, token, 65535) {
        Err(e) => Err(e),
        Ok((id, e1)) => match next_field(buf, e1, true, 127) {
            Err(e) => Err(e),
            Ok((res, _)) => Ok(URCMessages::QmtOpen { client_idx: id as u16, result: res as i8 }),
        },
    }
}

impl URCMessages {
    /// Decodes the result of opening the session's connection.
    pub fn parse_qmt_open(buf: &[u8]) -> (r: Result<URCMessages, ParseError>)
        ensures
            r == spec_parse_qmt_open(buf@),
    {
        if has_at(buf, 0, "+SESSOPEN: ".as_bytes()) {
            open_with(buf, "+SESSOPEN: ".as_bytes())
        } else {
            open_with(buf, "+QMTOPEN: ".as_bytes())
        }
    }

    /// Decodes the result of logging the session in.
    pub fn parse_qmt_conn(buf: &[u8]) -> (r: Result<URCMessages, ParseError>)
        ensures
            r == spec_parse_qmt_conn(buf@),
    {
        match three_fields(buf, "+QMTCONN: ".as_bytes(), false) {
            Err(e) => Err(e),
            Ok((id, res, ret)) => Ok(
                URCMessages::QmtConn { client_idx: id, result: res, ret_code: ret },
            ),
        }
    }

    /// Decodes the result of one publish.
    pub fn parse_qmt_pubex(buf: &[u8]) -> (r: Result<URCMessages, ParseError>)
        ensures
            r == spec_parse_qmt_pubex(buf@),
    {
        match three_fields(buf, "+QMTPUBEX: ".as_bytes(), true) {
            Err(e) => Err(e),
            Ok((id, res, ret)) => Ok(
                URCMessages::QmtPubex { client_idx: id, result: res, ret_code: ret },
            ),
        }
    }

    /// Decodes a network registration status in either of its two layouts.
    pub fn parse_cerg(buf: &[u8]) -> (r: Result<URCMessages, ParseError>)
        ensures
            r == spec_parse_cerg(buf@),
    {
        let (first, e1) = match head_field(buf, "+CREG: ".as_bytes(), 255) {
            Err(e) => {
                return Err(e);
            },
            Ok(p) => p,
        };
        let (stat, e2) = match next_field(buf, e1, false, 127) {
            Ok(p) => p,
            Err(_) => (first, e1),
        };
        let total: usize = buf.len();
        let open = ",\"".as_bytes();
        let between = "\",\"".as_bytes();
        let close = "\",".as_bytes();
        if !has_at(buf, e2, open) {
            return Err(ParseError::NoMatch);
        }
        assert(e2 + open@.len() <= total);
        let q1: usize = e2 + open.len();
        let h1: usize = run_end(buf, q1, true);
        if !has_at(buf, h1, between) {
            return Err(ParseError::NoMatch);
        }
        assert(h1 + between@.len() <= total);
        let q2: usize = h1 + between.len();
        let h2: usize = run_end(buf, q2, true);
        if !has_at(buf, h2, close) {
            return Err(ParseError::NoMatch);
        }
        assert(h2 + close@.len() <= total);
        let lac = field(buf, q1, true, 0xFFFF_FFFF);
        let ci = field(buf, q2, true, 0xFFFF_FFFF);
        let act = field(buf, h2 + close.len(), false, 255);
        match (lac, ci, act) {
            (Some(lac), Some(ci), Some(act)) => Ok(
                URCMessages::CREG {
                    stat: stat as u8,
                    lac: (lac % 0x1_0000) as u16,
                    ci,
                    act: act as u8,
                },
            ),
            _ => Err(ParseError::NoMatch),
        }
    }

    /// Reads the GNSS update banner: whether it reports success.
    pub fn parse_gnss_update(buf: &[u8]) -> (r: Result<URCMessages, ParseError>)
        ensures
            r == Ok::<URCMessages, ParseError>(
                URCMessages::Gnss { update: spec_contains(buf@, "Update successed".spec_bytes()) },
            ),
    {
        Ok(URCMessages::Gnss { update: contains(buf, "Update successed".as_bytes()) })
    }

    /// Reads the assisted-GNSS check banner: whether it reports valid data.
    pub fn parse_agps_check(buf: &[u8]) -> (r: Result<URCMessages, ParseError>)
        ensures
            r == Ok::<URCMessages, ParseError>(
                URCMessages::Agps { valid: spec_contains(buf@, "Check Vailed".spec_bytes()) },
            ),
    {
        Ok(URCMessages::Agps { valid: contains(buf, "Check Vailed".as_bytes()) })
    }

    /// Decodes the text of a framed notification into a typed event.
    pub fn parse(resp: &[u8]) -> (r: Option<URCMessages>)
        ensures
            r == spec_parse(resp@),
    {
        if has_at(resp, 0, "+QMTOPEN".as_bytes()) || has_at(resp, 0, "+SESSOPEN".as_bytes()) {
            ok(URCMessages::parse_qmt_open(resp))
        } else if has_at(resp, 0, "+QMTCONN".as_bytes()) {
            ok(URCMessages::parse_qmt_conn(resp))
        } else if has_at(resp, 0, "+CREG".as_bytes()) {
            ok(URCMessages::parse_cerg(resp))
        } else if has_at(resp, 0, "+QMTPUBEX".as_bytes()) {
            ok(URCMessages::parse_qmt_pubex(resp))
        } else if has_at(resp, 0, "GNSS".as_bytes()) {
            ok(URCMessages::parse_gnss_update(resp))
        } else if has_at(resp, 0, "AGPS".as_bytes()) {
            ok(URCMessages::parse_agps_check(resp))
        } else if has_at(resp, 0, "RDY".as_bytes()) {
            Some(URCMessages::RDY)
        } else {
            None
        }
    }

    /// Whether the text opens with a token that has a decoder.
    pub fn is_decodable(resp: &[u8]) -> (r: bool)
        ensures
            r == spec_is_decodable(resp@),
    {
        has_at(resp, 0, "+QMTOPEN".as_bytes()) || has_at(resp, 0, "+SESSOPEN".as_bytes())
            || has_at(resp, 0, "+QMTCONN".as_bytes()) || has_at(resp, 0, "+CREG".as_bytes())
            || has_at(resp, 0, "+QMTPUBEX".as_bytes()) || has_at(resp, 0, "GNSS".as_bytes())
            || has_at(resp, 0, "AGPS".as_bytes()) || has_at(resp, 0, "RDY".as_bytes())
    }

    /// Finds a notification frame at the start of `buf`: the tokens are tried
    /// in order, and the first that finds a frame or asks for more input decides.
    pub fn frame(buf: &[u8]) -> (r: Frame)
        ensures
            spec_frame_view(r) == spec_first_frame(spec_urc_tokens(), buf@),
            r matches Ok((_, len)) ==> 0 < len <= buf@.len(),
    {
        let tokens = urc_tokens();
        let mut i: usize = 0;
        proof {
            assert(spec_urc_tokens().subrange(0, spec_urc_tokens().len() as int)
                =~= spec_urc_tokens());
        }
        while i < tokens.len()
            invariant
                i <= tokens@.len() == spec_urc_tokens().len(),
                forall|j: int| 0 <= j < tokens@.len() ==> (#[trigger] tokens@[j])@ == spec_urc_tokens()[j],
                spec_first_frame(spec_urc_tokens(), buf@) == spec_first_frame(
                    spec_urc_tokens().subrange(i as int, spec_urc_tokens().len() as int),
                    buf@,
                ),
            decreases tokens@.len() - i,
        {
            let ghost rest = spec_urc_tokens().subrange(i as int, spec_urc_tokens().len() as int);
            proof {
                assert(rest[0] == spec_urc_tokens()[i as int]);
                assert(rest.drop_first() =~= spec_urc_tokens().subrange(
                    i + 1,
                    spec_urc_tokens().len() as int,
                ));
            }
            match urc_helper(tokens[i], buf) {
                Err(ParseError::NoMatch) => {},
                r => {
                    return r;
                },
            }
            i += 1;
        }
        Err(ParseError::NoMatch)
    }
}

fn ok(r: Result<URCMessages, ParseError>) -> (o: Option<URCMessages>)
    ensures
        o == spec_ok(r),
{
    match r {
        Ok(m) => Some(m),
        Err(_) => None,
    }
}

} // verus!
