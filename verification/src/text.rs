//! Byte-level building blocks of the modem grammar: literal tokens, runs of
//! digits and the numbers they spell.
use vstd::prelude::*;

verus! {

/// `lit` stands in `s` at offset `at`.
pub open spec fn spec_has_at(s: Seq<u8>, at: int, lit: Seq<u8>) -> bool {
    0 <= at && at + lit.len() <= s.len() && s.subrange(at, at + lit.len()) == lit
}

/// What is left of `s` from `at` on is shorter than `lit` and agrees with its start.
pub open spec fn spec_cut_short(s: Seq<u8>, at: int, lit: Seq<u8>) -> bool {
    0 <= at <= s.len() && s.len() - at < lit.len() && s.subrange(at, s.len() as int)
        == lit.subrange(0, s.len() - at)
}

/// `lit` occurs somewhere in `s`.
pub open spec fn spec_contains(s: Seq<u8>, lit: Seq<u8>) -> bool {
    exists|i: int| spec_has_at(s, i, lit)
}

pub open spec fn spec_is_digit(b: u8) -> bool {
    0x30 <= b <= 0x39
}

pub open spec fn spec_is_hex_digit(b: u8) -> bool {
    spec_is_digit(b) || (0x41 <= b <= 0x46) || (0x61 <= b <= 0x66)
}

/// Whether `b` belongs to a run of decimal or, if `hex`, hexadecimal digits.
pub open spec fn spec_in_run(b: u8, hex: bool) -> bool {
    if hex {
        spec_is_hex_digit(b)
    } else {
        spec_is_digit(b)
    }
}

/// Value of one hexadecimal digit (decimal digits included).
pub open spec fn spec_digit_value(b: u8) -> nat {
    if spec_is_digit(b) {
        (b - 0x30) as nat
    } else if 0x41 <= b <= 0x46 {
        (b - 0x41 + 10) as nat
    } else {
        (b - 0x61 + 10) as nat
    }
}

/// End of the longest run of digits (hexadecimal ones if `hex`) that starts at `from`.
pub open spec fn spec_run_end(s: Seq<u8>, from: int, hex: bool) -> int
    decreases s.len() - from,
{
    if 0 <= from < s.len() && spec_in_run(s[from], hex) {
        spec_run_end(s, from + 1, hex)
    } else {
        from
    }
}

/// The number that the digits `s` spell in the given base, most significant first.
pub open spec fn spec_number(s: Seq<u8>, base: nat) -> nat
    decreases s.len(),
{
    if s.len() == 0 {
        0
    } else {
        spec_number(s.drop_last(), base) * base + spec_digit_value(s.last())
    }
}

/// A numeric field at `from`: the digits of the run there, read in base 10 or
/// 16, where there is at least one digit and the number is at most `max`.
pub open spec fn spec_field(s: Seq<u8>, from: int, hex: bool, max: nat) -> Option<nat> {
    let end = spec_run_end(s, from, hex);
    let n = spec_number(
        s.subrange(from, end),
        if hex {
            16
        } else {
            10
        },
    );
    if 0 <= from < end && n <= max {
        Some(n)
    } else {
        None
    }
}

/// Outcome of looking for a literal in a stream that may not have arrived in full.
#[derive(Debug, Clone, Copy, PartialEq, Eq, Structural)]
pub enum TagMatch {
    /// The literal is there.
    Found,
    /// The bytes that are there agree with the literal, but it is longer.
    Short,
    /// The bytes differ from the literal.
    Differs,
}

pub open spec fn spec_stream_tag(s: Seq<u8>, at: int, lit: Seq<u8>) -> TagMatch {
    if spec_has_at(s, at, lit) {
        TagMatch::Found
    } else if spec_cut_short(s, at, lit) {
        TagMatch::Short
    } else {
        TagMatch::Differs
    }
}

pub proof fn lemma_run_end_bounds(s: Seq<u8>, from: int, hex: bool)
    requires
        0 <= from <= s.len(),
    ensures
        from <= spec_run_end(s, from, hex) <= s.len(),
    decreases s.len() - from,
{
    if from < s.len() && spec_in_run(s[from], hex) {
        lemma_run_end_bounds(s, from + 1, hex);
    }
}

/// Whether `lit` stands in `buf` at `at`.
pub fn has_at(buf: &[u8], at: usize, lit: &[u8]) -> (r: bool)
    ensures
        r == spec_has_at(buf@, at as int, lit@),
{
    let n: usize = lit.len();
    if at > buf.len() || buf.len() - at < n {
        return false;
    }
    let mut i: usize = 0;
    while i < n
        invariant
            n == lit@.len(),
            at + n <= buf@.len() <= usize::MAX,
            i <= n,
            forall|j: int| 0 <= j < i ==> buf@[at + j] == lit@[j],
        decreases n - i,
    {
        if buf[at + i] != lit[i] {
            proof {
                assert(buf@.subrange(at as int, at + n)[i as int] == buf@[at + i]);
            }
            return false;
        }
        i += 1;
    }
    proof {
        assert(buf@.subrange(at as int, at + n) =~= lit@);
    }
    true
}

/// Looks for `lit` at `at` in a stream: found, cut short by the end of the
/// buffer, or different.
pub fn stream_tag(buf: &[u8], at: usize, lit: &[u8]) -> (r: TagMatch)
    ensures
        r == spec_stream_tag(buf@, at as int, lit@),
{
    if at > buf.len() {
        return TagMatch::Differs;
    }
    let n: usize = lit.len();
    let rest: usize = buf.len() - at;
    let m: usize = if rest < n {
        rest
    } else {
        n
    };
    let mut i: usize = 0;
    while i < m
        invariant
            n == lit@.len(),
            rest == buf@.len() - at,
            buf@.len() <= usize::MAX,
            m <= n,
            m <= rest,
            m == n || m == rest,
            i <= m,
            forall|j: int| 0 <= j < i ==> buf@[at + j] == lit@[j],
        decreases m - i,
    {
        if buf[at + i] != lit[i] {
            proof {
                if at + n <= buf@.len() {
                    assert(buf@.subrange(at as int, at + n)[i as int] == buf@[at + i]);
                }
                if rest < n {
                    assert(buf@.subrange(at as int, buf@.len() as int)[i as int] == buf@[at + i]);
                    assert(lit@.subrange(0, rest as int)[i as int] == lit@[i as int]);
                }
            }
            return TagMatch::Differs;
        }
        i += 1;
    }
    if rest < n {
        proof {
            assert(buf@.subrange(at as int, buf@.len() as int) =~= lit@.subrange(0, rest as int));
        }
        TagMatch::Short
    } else {
        proof {
            assert(buf@.subrange(at as int, at + n) =~= lit@);
        }
        TagMatch::Found
    }
}

/// Whether `lit` occurs anywhere in `buf`.
pub fn contains(buf: &[u8], lit: &[u8]) -> (r: bool)
    ensures
        r == spec_contains(buf@, lit@),
{
    let n: usize = buf.len();
    let mut i: usize = 0;
    while i < n
        invariant
            i <= n == buf@.len(),
            forall|j: int| 0 <= j < i ==> !spec_has_at(buf@, j, lit@),
        decreases n - i,
    {
        if has_at(buf, i, lit) {
            return true;
        }
        i += 1;
    }
    has_at(buf, i, lit)
}

/// End of the run of digits that starts at `from`.
pub fn run_end(buf: &[u8], from: usize, hex: bool) -> (r: usize)
    ensures
        r == spec_run_end(buf@, from as int, hex),
        from <= r,
        from <= buf@.len() ==> r <= buf@.len(),
{
    if from > buf.len() {
        return from;
    }
    let mut i: usize = from;
    while i < buf.len() && in_run(buf[i], hex)
        invariant
            from <= i <= buf@.len(),
            spec_run_end(buf@, from as int, hex) == spec_run_end(buf@, i as int, hex),
        decreases buf@.len() - i,
    {
        i += 1;
    }
    i
}

pub fn is_digit(b: u8) -> (r: bool)
    ensures
        r == spec_is_digit(b),
{
    0x30 <= b && b <= 0x39
}

pub fn is_hex_digit(b: u8) -> (r: bool)
    ensures
        r == spec_is_hex_digit(b),
{
    is_digit(b) || (0x41 <= b && b <= 0x46) || (0x61 <= b && b <= 0x66)
}

pub fn in_run(b: u8, hex: bool) -> (r: bool)
    ensures
        r == spec_in_run(b, hex),
{
    if hex {
        is_hex_digit(b)
    } else {
        is_digit(b)
    }
}

pub(crate) fn digit_value(b: u8) -> (r: u64)
    requires
        spec_is_hex_digit(b),
    ensures
        r == spec_digit_value(b),
        r < 16,
        spec_is_digit(b) ==> r < 10,
{
    if is_digit(b) {
        (b - 0x30) as u64
    } else if 0x41 <= b && b <= 0x46 {
        (b - 0x41 + 10) as u64
    } else {
        (b - 0x61 + 10) as u64
    }
}

/// Reads the numeric field at `from`: `None` where no digit stands there or
/// the number is above `max`.
pub fn field(buf: &[u8], from: usize, hex: bool, max: u32) -> (r: Option<u32>)
    ensures
        r is Some == spec_field(buf@, from as int, hex, max as nat) is Some,
        r is Some ==> r->0 as nat == spec_field(buf@, from as int, hex, max as nat)->0,
{
    if from > buf.len() {
        return None;
    }
    let end: usize = run_end(buf, from, hex);
    let base: u64 = if hex {
        16
    } else {
        10
    };
    let mut acc: u64 = 0;
    let mut over: bool = false;
    let mut i: usize = from;
    proof {
        assert(buf@.subrange(from as int, from as int) =~= Seq::<u8>::empty());
    }
    while i < end
        invariant
            from <= i <= end <= buf@.len(),
            end == spec_run_end(buf@, from as int, hex),
            spec_run_end(buf@, i as int, hex) == end,
            base == (if hex { 16u64 } else { 10u64 }),
            !over ==> acc == spec_number(buf@.subrange(from as int, i as int), base as nat) && acc
                <= max,
            over ==> spec_number(buf@.subrange(from as int, i as int), base as nat) > max,
        decreases end - i,
    {
        proof {
            lemma_run_end_bounds(buf@, i + 1, hex);
            assert(buf@.subrange(from as int, i + 1).drop_last() =~= buf@.subrange(
                from as int,
                i as int,
            ));
            assert(buf@.subrange(from as int, i + 1).last() == buf@[i as int]);
        }
        let d: u64 = digit_value(buf[i]);
        if !over {
            let next: u64 = acc * base + d;
            if next > max as u64 {
                over = true;
            } else {
                acc = next;
            }
        } else {
            proof {
                let prev = spec_number(buf@.subrange(from as int, i as int), base as nat);
                assert(prev * base >= prev) by (nonlinear_arith)
                    requires
                        base >= 1,
                        prev >= 0,
                ;
            }
        }
        i += 1;
    }
    if end > from && !over {
        Some(acc as u32)
    } else {
        None
    }
}

} // verus!
