//! The response that carries NMEA sentences.
use crate::text::{has_at, spec_has_at};
use crate::resps::{field_end, spec_field_end};
use vstd::prelude::*;
use vstd::slice::{slice_subrange, slice_to_vec};
use vstd::string::StringSliceAdditionalSpecFns;

verus! {

/// The sentences of one response, in the order in which they came.
#[derive(Debug, PartialEq, Eq)]
pub struct NmeaResp {
    pub nmeas: Vec<Vec<u8>>,
}

/// Where the sentence's name starts: behind a line ending, if the text opens with one.
pub open spec fn spec_name_at(s: Seq<u8>) -> int {
    if spec_has_at(s, 0, "\r\n+QGPSGNMEA: ".spec_bytes()) {
        2
    } else {
        0
    }
}

/// Whether the text opens with a sentence, that is with `+QGPSGNMEA: `, alone
/// or behind a line ending.
pub open spec fn spec_has_sentence(s: Seq<u8>) -> bool {
    spec_has_at(s, spec_name_at(s), "+QGPSGNMEA: ".spec_bytes())
}

/// Where the sentence's text starts.
pub open spec fn spec_body_at(s: Seq<u8>) -> int {
    spec_name_at(s) + "+QGPSGNMEA: ".spec_bytes().len()
}

/// Where the sentence ends: at the next carriage return or at the end of the text.
pub open spec fn spec_sentence_end(s: Seq<u8>) -> int {
    spec_field_end(s, spec_body_at(s), 0x0D)
}

/// The sentences that the text holds from `from` on: each opens where the
/// one before ended, and the first piece that opens with no sentence ends the list.
pub open spec fn spec_sentences(s: Seq<u8>, from: int) -> Seq<Seq<u8>>
    decreases s.len() - from,
{
    let rest = s.subrange(from, s.len() as int);
    if 0 <= from <= s.len() && spec_has_sentence(rest) && 0 < spec_sentence_end(rest)
        <= rest.len() {
        seq![rest.subrange(spec_body_at(rest), spec_sentence_end(rest))] + spec_sentences(
            s,
            from + spec_sentence_end(rest),
        )
    } else {
        Seq::empty()
    }
}

pub open spec fn spec_texts(v: Seq<Vec<u8>>) -> Seq<Seq<u8>> {
    v.map_values(|t: Vec<u8>| t@)
}

/// Reads the sentence that `input` opens with: its text and the number of
/// bytes up to its end.
pub fn parse_nmea_sentence(input: &[u8]) -> (r: Option<(Vec<u8>, usize)>)
    ensures
        r is Some == spec_has_sentence(input@),
        r matches Some((text, used)) ==> text@ == input@.subrange(
            spec_body_at(input@),
            spec_sentence_end(input@),
        ) && used == spec_sentence_end(input@) && 12 <= used <= input@.len(),
{
    let name = "+QGPSGNMEA: ".as_bytes();
    let start: usize = if has_at(input, 0, "\r\n+QGPSGNMEA: ".as_bytes()) {
        2
    } else {
        0
    };
    if !has_at(input, start, name) {
        return None;
    }
    proof {
        vstd::string::is_ascii_spec_bytes("+QGPSGNMEA: ");
        reveal_strlit("+QGPSGNMEA: ");
        assert("+QGPSGNMEA: ".is_ascii());
        assert(name@.len() == 12);
    }
    let total: usize = input.len();
    let body: usize = start + name.len();
    let end: usize = field_end(input, body, 0x0D);
    Some((slice_to_vec(slice_subrange(input, body, end)), end))
}

impl NmeaResp {
    /// Collects the sentences of a response.
    pub fn parse(data: &[u8]) -> (r: NmeaResp)
        ensures
            spec_texts(r.nmeas@) == spec_sentences(data@, 0),
    {
        let total: usize = data.len();
        let mut nmeas: Vec<Vec<u8>> = Vec::new();
        let mut cur: usize = 0;
        proof {
            assert(spec_texts(nmeas@) =~= Seq::<Seq<u8>>::empty());
        }
        loop
            invariant
                cur <= total == data@.len(),
                spec_sentences(data@, 0) == spec_texts(nmeas@) + spec_sentences(data@, cur as int),
            decreases total - cur,
        {
            let rest = slice_subrange(data, cur, total);
            match parse_nmea_sentence(rest) {
                None => {
                    proof {
                        assert(spec_texts(nmeas@) + Seq::<Seq<u8>>::empty() =~= spec_texts(nmeas@));
                    }
                    return NmeaResp { nmeas };
                },
                Some((text, used)) => {
                    let ghost before = spec_texts(nmeas@);
                    nmeas.push(text);
                    proof {
                        assert(spec_texts(nmeas@) =~= before + seq![text@]);
                        assert(spec_sentences(data@, cur as int) =~= seq![text@] + spec_sentences(
                            data@,
                            cur + used,
                        ));
                    }
                    cur = cur + used;
                },
            }
        }
    }
}

} // verus!
