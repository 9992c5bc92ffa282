use vstd::prelude::*;
use vstd::string::*;

verus! {

/// The ten decimal digits in order.
pub open spec fn digit_chars() -> Seq<char> {
    seq!['0', '1', '2', '3', '4', '5', '6', '7', '8', '9']
}

/// The decimal text of `n`, without leading zeros.
pub open spec fn decimal(n: nat) -> Seq<char>
    decreases n,
{
    if n < 10 {
        seq![digit_chars()[n as int]]
    } else {
        decimal(n / 10).push(digit_chars()[(n % 10) as int])
    }
}

/// The decimal text of `i`, with a leading `-` when negative.
pub open spec fn signed_decimal(i: int) -> Seq<char> {
    if i < 0 {
        seq!['-'] + decimal((-i) as nat)
    } else {
        decimal(i as nat)
    }
}

/// The prefix of a synthesised session name.
pub open spec fn session_name_prefix() -> Seq<char> {
    seq!['a', 's', 's', 'u', 'm', 'e', '-', 'r', 'o', 'l', 'e', '@']
}

/// The session name used when none is given, at unix time `timestamp`.
pub open spec fn default_session_name_text(timestamp: int) -> Seq<char> {
    session_name_prefix() + signed_decimal(timestamp)
}

/// Appends the decimal text of `n` to `out`.
fn append_decimal(out: &mut String, n: u64)
    ensures
        final(out)@ == old(out)@ + decimal(n as nat),
    decreases n,
{
    let digits = "0123456789";
    proof {
        reveal_strlit("0123456789");
    }
    assert(digits@ == digit_chars());
    if n >= 10 {
        append_decimal(out, n / 10);
    }
    let d = (n % 10) as usize;
    let digit = digits.substring_char(d, d + 1);
    assert(digit@ =~= seq![digit_chars()[d as int]]);
    out.append(digit);
    if n >= 10 {
        assert(final(out)@ =~= old(out)@ + decimal(n as nat));
    } else {
        assert(final(out)@ =~= old(out)@ + decimal(n as nat));
    }
}

/// Writes `value` in decimal.
pub fn signed_decimal_text(value: i64) -> (r: String)
    ensures
        r@ == signed_decimal(value as int),
{
    let mut out = String::new();
    if value < 0 {
        let minus = "-";
        proof {
            reveal_strlit("-");
        }
        out.append(minus);
        let magnitude: u64 = ((-(value + 1)) as u64) + 1;
        append_decimal(&mut out, magnitude);
        assert(out@ =~= signed_decimal(value as int));
    } else {
        append_decimal(&mut out, value as u64);
        assert(out@ =~= signed_decimal(value as int));
    }
    out
}

/// The session name `assume-role@<timestamp>` used when the caller names none.
pub fn default_session_name(timestamp: i64) -> (r: String)
    ensures
        r@ == default_session_name_text(timestamp as int),
{
    let prefix = "assume-role@";
    proof {
        reveal_strlit("assume-role@");
    }
    assert(prefix@ == session_name_prefix());
    let mut out = prefix.to_owned();
    let digits = signed_decimal_text(timestamp);
    out.append(digits.as_str());
    out
}

} // verus!
