//! The text of a command line: `AT`, the command's name, and its arguments
//! behind an equals sign, separated by commas and closed by a line ending.
use vstd::prelude::*;
use vstd::string::StringSliceAdditionalSpecFns;

verus! {

/// One argument of a command.
#[derive(Debug, PartialEq, Eq)]
pub enum Arg {
    /// A number, written in decimal.
    Num(u32),
    /// A text, written between double quotes.
    Text(Vec<u8>),
}

/// An argument as contracts speak of it.
pub enum ArgSpec {
    Num(u32),
    Text(Seq<u8>),
}

impl View for Arg {
    type V = ArgSpec;

    open spec fn view(&self) -> ArgSpec {
        match *self {
            Arg::Num(n) => ArgSpec::Num(n),
            Arg::Text(t) => ArgSpec::Text(t@),
        }
    }
}

/// The arguments as contracts speak of them.
pub open spec fn spec_views(args: Seq<Arg>) -> Seq<ArgSpec> {
    args.map_values(|a: Arg| a@)
}

/// The decimal digits of `n`, without leading zeros.
pub open spec fn spec_decimal_text(n: nat) -> Seq<u8>
    decreases n,
{
    if n < 10 {
        seq![(0x30 + n) as u8]
    } else {
        spec_decimal_text(n / 10).push((0x30 + n % 10) as u8)
    }
}

/// An argument as it is written on the line.
pub open spec fn spec_arg_text(a: ArgSpec) -> Seq<u8> {
    match a {
        ArgSpec::Num(n) => spec_decimal_text(n as nat),
        ArgSpec::Text(t) => seq![0x22u8] + t + seq![0x22u8],
    }
}

/// The arguments as they are written on the line, with commas between them.
pub open spec fn spec_args_text(args: Seq<ArgSpec>) -> Seq<u8>
    decreases args.len(),
{
    if args.len() == 0 {
        Seq::empty()
    } else if args.len() == 1 {
        spec_arg_text(args[0])
    } else {
        spec_args_text(args.drop_last()) + seq![0x2Cu8] + spec_arg_text(args.last())
    }
}

/// A command line. `prefixed` puts `AT` before the name; `separated` puts an
/// equals sign between the name and the arguments, where there are any.
pub open spec fn spec_command(
    prefixed: bool,
    name: Seq<u8>,
    separated: bool,
    args: Seq<ArgSpec>,
) -> Seq<u8> {
    (if prefixed {
        "AT".spec_bytes()
    } else {
        Seq::empty()
    }) + name + (if separated && args.len() > 0 {
        seq![0x3Du8]
    } else {
        Seq::empty()
    }) + spec_args_text(args) + seq![0x0Du8, 0x0Au8]
}

/// A prefixed command with an equals sign before its arguments.
pub open spec fn spec_at(name: Seq<u8>, args: Seq<ArgSpec>) -> Seq<u8> {
    spec_command(true, name, true, args)
}

/// Appends `text` to `out`.
pub fn push_all(out: &mut Vec<u8>, text: &[u8])
    ensures
        final(out)@ == old(out)@ + text@,
{
    let n: usize = text.len();
    let mut i: usize = 0;
    while i < n
        invariant
            i <= n == text@.len(),
            out@ == old(out)@ + text@.subrange(0, i as int),
        decreases n - i,
    {
        out.push(text[i]);
        i += 1;
        proof {
            assert(text@.subrange(0, i as int) =~= text@.subrange(0, i - 1).push(text@[i - 1]));
            assert(out@ =~= old(out)@ + text@.subrange(0, i as int));
        }
    }
    proof {
        assert(text@.subrange(0, n as int) =~= text@);
    }
}

fn push_decimal(out: &mut Vec<u8>, n: u32)
    ensures
        final(out)@ == old(out)@ + spec_decimal_text(n as nat),
    decreases n,
{
    if n >= 10 {
        push_decimal(out, n / 10);
    }
    out.push(0x30 + (n % 10) as u8);
    proof {
        assert(out@ =~= old(out)@ + spec_decimal_text(n as nat));
    }
}

fn push_arg(out: &mut Vec<u8>, arg: &Arg)
    ensures
        final(out)@ == old(out)@ + spec_arg_text(arg@),
{
    match arg {
        Arg::Num(n) => {
            push_decimal(out, *n);
        },
        Arg::Text(t) => {
            out.push(0x22);
            push_all(out, t.as_slice());
            out.push(0x22);
            proof {
                assert(out@ =~= old(out)@ + spec_arg_text(arg@));
            }
        },
    }
}

/// Writes a command line.
pub fn command(prefixed: bool, name: &str, separated: bool, args: &Vec<Arg>) -> (r: Vec<u8>)
    ensures
        r@ == spec_command(prefixed, name.spec_bytes(), separated, spec_views(args@)),
{
    let mut out: Vec<u8> = Vec::new();
    if prefixed {
        push_all(&mut out, "AT".as_bytes());
    }
    push_all(&mut out, name.as_bytes());
    if separated && args.len() > 0 {
        out.push(0x3D);
    }
    let ghost head = out@;
    let n: usize = args.len();
    let mut i: usize = 0;
    proof {
        assert(spec_views(args@).subrange(0, 0) =~= Seq::<ArgSpec>::empty());
    }
    while i < n
        invariant
            i <= n == args@.len(),
            out@ == head + spec_args_text(spec_views(args@).subrange(0, i as int)),
        decreases n - i,
    {
        let ghost before = spec_views(args@).subrange(0, i as int);
        let ghost after = spec_views(args@).subrange(0, i + 1);
        proof {
            assert(after.drop_last() =~= before);
            assert(after.last() == args@[i as int]@);
        }
        if i > 0 {
            out.push(0x2C);
        }
        push_arg(&mut out, &args[i]);
        i += 1;
        proof {
            assert(out@ =~= head + spec_args_text(after));
        }
    }
    out.push(0x0D);
    out.push(0x0A);
    proof {
        assert(spec_views(args@).subrange(0, n as int) =~= spec_views(args@));
        assert(out@ =~= spec_command(prefixed, name.spec_bytes(), separated, spec_views(args@)));
    }
    out
}

/// Writes a prefixed command without arguments.
pub fn at_plain(name: &str) -> (r: Vec<u8>)
    ensures
        r@ == spec_at(name.spec_bytes(), Seq::empty()),
{
    let args: Vec<Arg> = Vec::new();
    proof {
        assert(spec_views(args@) =~= Seq::<ArgSpec>::empty());
    }
    command(true, name, true, &args)
}

/// Writes a prefixed command with one number.
pub fn at_num(name: &str, n: u32) -> (r: Vec<u8>)
    ensures
        r@ == spec_at(name.spec_bytes(), seq![ArgSpec::Num(n)]),
{
    let mut args: Vec<Arg> = Vec::new();
    args.push(Arg::Num(n));
    proof {
        assert(spec_views(args@) =~= seq![ArgSpec::Num(n)]);
    }
    command(true, name, true, &args)
}

/// Writes a prefixed command with one text.
pub fn at_text(name: &str, text: &str) -> (r: Vec<u8>)
    ensures
        r@ == spec_at(name.spec_bytes(), seq![ArgSpec::Text(text.spec_bytes())]),
{
    let mut args: Vec<Arg> = Vec::new();
    args.push(Arg::Text(vstd::slice::slice_to_vec(text.as_bytes())));
    proof {
        assert(spec_views(args@) =~= seq![ArgSpec::Text(text.spec_bytes())]);
    }
    command(true, name, true, &args)
}

/// Writes a prefixed command with a text and a number.
pub fn at_text_num(name: &str, text: &str, n: u32) -> (r: Vec<u8>)
    ensures
        r@ == spec_at(name.spec_bytes(), seq![ArgSpec::Text(text.spec_bytes()), ArgSpec::Num(n)]),
{
    let mut args: Vec<Arg> = Vec::new();
    args.push(Arg::Text(vstd::slice::slice_to_vec(text.as_bytes())));
    args.push(Arg::Num(n));
    proof {
        assert(spec_views(args@) =~= seq![ArgSpec::Text(text.spec_bytes()), ArgSpec::Num(n)]);
    }
    command(true, name, true, &args)
}

/// Writes a prefixed command with two texts.
pub fn at_text_text(name: &str, first: &str, second: &str) -> (r: Vec<u8>)
    ensures
        r@ == spec_at(
            name.spec_bytes(),
            seq![ArgSpec::Text(first.spec_bytes()), ArgSpec::Text(second.spec_bytes())],
        ),
{
    let mut args: Vec<Arg> = Vec::new();
    args.push(Arg::Text(vstd::slice::slice_to_vec(first.as_bytes())));
    args.push(Arg::Text(vstd::slice::slice_to_vec(second.as_bytes())));
    proof {
        assert(spec_views(args@) =~= seq![
            ArgSpec::Text(first.spec_bytes()),
            ArgSpec::Text(second.spec_bytes()),
        ]);
    }
    command(true, name, true, &args)
}

} // verus!
