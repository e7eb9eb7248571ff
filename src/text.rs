//! The diagnostic lines written around each delay.
use vstd::prelude::*;
use vstd::string::StringExecFns;

verus! {

/// The character of a decimal digit.
pub open spec fn digit_char(d: nat) -> char
    recommends
        d < 10,
{
    (('0' as u32) + d) as char
}

/// The decimal representation of `n`, most significant digit first, with no
/// leading zeros (`0` is written as one digit).
pub open spec fn decimal(n: nat) -> Seq<char>
    decreases n,
{
    if n < 10 {
        seq![digit_char(n)]
    } else {
        decimal(n / 10).push(digit_char(n % 10))
    }
}

/// Text written when a delay starts counting: the requested duration and the
/// counter's current value.
pub open spec fn waiting_text(ms: nat, current: nat) -> Seq<char> {
    "waiting for "@ + decimal(ms) + " ms (SYST_CVR="@ + decimal(current) + ") ...\n"@
}

/// Text written once the counter has wrapped, followed by an empty line.
pub open spec fn done_text(current: nat) -> Seq<char> {
    "  ... done (SYST_CVR="@ + decimal(current) + ")\n\n"@
}

fn digit_str(d: u32) -> (r: &'static str)
    requires
        d < 10,
    ensures
        r@ == seq![digit_char(d as nat)],
{
    proof {
        reveal_strlit("0");
        reveal_strlit("1");
        reveal_strlit("2");
        reveal_strlit("3");
        reveal_strlit("4");
        reveal_strlit("5");
        reveal_strlit("6");
        reveal_strlit("7");
        reveal_strlit("8");
        reveal_strlit("9");
    }
    match d {
        0 => "0",
        1 => "1",
        2 => "2",
        3 => "3",
        4 => "4",
        5 => "5",
        6 => "6",
        7 => "7",
        8 => "8",
        _ => "9",
    }
}

/// Appends the decimal representation of `n` to `out`.
pub fn push_decimal(out: &mut String, n: u32)
    ensures
        final(out)@ == old(out)@ + decimal(n as nat),
    decreases n,
{
    if n >= 10 {
        push_decimal(out, n / 10);
    }
    out.append(digit_str(n % 10));
    proof {
        if n >= 10 {
            assert(decimal(n as nat) == decimal((n / 10) as nat).push(digit_char((n % 10) as nat)));
        }
    }
}

/// The line announcing a delay of `ms` milliseconds, with the counter's
/// current value `current`.
pub fn waiting_line(ms: u32, current: u32) -> (r: String)
    ensures
        r@ == waiting_text(ms as nat, current as nat),
{
    let mut s = String::from_str("waiting for ");
    push_decimal(&mut s, ms);
    s.append(" ms (SYST_CVR=");
    push_decimal(&mut s, current);
    s.append(") ...\n");
    s
}

/// The line reporting that a delay is over, with the counter's current value
/// `current`.
pub fn done_line(current: u32) -> (r: String)
    ensures
        r@ == done_text(current as nat),
{
    let mut s = String::from_str("  ... done (SYST_CVR=");
    push_decimal(&mut s, current);
    s.append(")\n\n");
    s
}

} // verus!
