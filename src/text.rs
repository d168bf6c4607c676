//! Rendering of integers and other plain values as text.
use vstd::prelude::*;

verus! {

/// The character that writes digit `d` (0..16), lower-case for hex digits.
pub open spec fn digit_char(d: int) -> char {
    if d < 10 {
        (d + '0' as int) as char
    } else {
        (d - 10 + 'a' as int) as char
    }
}

/// The digits of `n` in base `radix`, most significant first, without leading zeros.
pub open spec fn radix_text(n: nat, radix: nat) -> Seq<char>
    decreases n,
    via radix_text_decreases
{
    if radix < 2 || n < radix {
        seq![digit_char(n as int)]
    } else {
        radix_text(n / radix, radix).push(digit_char((n % radix) as int))
    }
}

#[via_fn]
proof fn radix_text_decreases(n: nat, radix: nat) {
    if !(radix < 2 || n < radix) {
        assert(n / radix < n) by (nonlinear_arith)
            requires
                radix >= 2,
                n >= radix,
        ;
    }
}

/// Decimal text of a natural number.
pub open spec fn nat_text(n: nat) -> Seq<char> {
    radix_text(n, 10)
}

/// Decimal text of an integer, with a leading `-` when negative.
pub open spec fn int_text(i: int) -> Seq<char> {
    if i < 0 {
        seq!['-'] + nat_text((-i) as nat)
    } else {
        nat_text(i as nat)
    }
}

/// `s` padded on the left with `0` up to `width` characters.
pub open spec fn zero_padded(s: Seq<char>, width: nat) -> Seq<char> {
    if s.len() < width {
        Seq::new((width - s.len()) as nat, |i: int| '0') + s
    } else {
        s
    }
}

/// Lower-case hexadecimal text of `n`, at least six digits wide.
pub open spec fn hex6_text(n: nat) -> Seq<char> {
    zero_padded(radix_text(n, 16), 6)
}

/// Text of a boolean.
pub open spec fn bool_text(b: bool) -> Seq<char> {
    if b {
        seq!['t', 'r', 'u', 'e']
    } else {
        seq!['f', 'a', 'l', 's', 'e']
    }
}

/// The text of each of a sequence of lines.
pub open spec fn lines_of(v: Seq<String>) -> Seq<Seq<char>> {
    v.map_values(|s: String| s@)
}

/// The text of lines joined one after the other keeps them in order.
pub proof fn lemma_lines_of_concat(a: Seq<String>, b: Seq<String>)
    ensures
        lines_of(a + b) == lines_of(a) + lines_of(b),
{
    assert(lines_of(a + b) =~= lines_of(a) + lines_of(b));
}

/// Relies on std's `String::push`: appends one character.
#[verifier::external_body]
pub(crate) fn push_char(s: &mut String, c: char)
    ensures
        final(s)@ == old(s)@.push(c),
{
    s.push(c)
}

/// Appends the digits of `n` in base `radix`.
pub fn push_radix(out: &mut String, n: u64, radix: u64)
    requires
        2 <= radix <= 16,
    ensures
        final(out)@ == old(out)@ + radix_text(n as nat, radix as nat),
    decreases n,
{
    let ghost start = out@;
    if n >= radix {
        assert(n / radix < n) by (nonlinear_arith)
            requires
                radix >= 2,
                n >= radix,
        ;
        push_radix(out, n / radix, radix);
    }
    let d: u64 = n % radix;
    let c: char = if d < 10 {
        (('0' as u8) + (d as u8)) as char
    } else {
        (('a' as u8) + ((d - 10) as u8)) as char
    };
    assert(c == digit_char(d as int));
    push_char(out, c);
    if n >= radix {
        assert(radix_text(n as nat, radix as nat) == radix_text((n / radix) as nat, radix as nat).push(c));
        assert(out@ =~= start + radix_text((n / radix) as nat, radix as nat).push(c));
    } else {
        proof {
            vstd::arithmetic::div_mod::lemma_small_mod(n as nat, radix as nat);
        }
        assert(radix_text(n as nat, radix as nat) == seq![c]);
        assert(out@ =~= start + seq![c]);
    }
}

/// Appends the decimal text of `n`.
pub fn push_u64(out: &mut String, n: u64)
    ensures
        final(out)@ == old(out)@ + nat_text(n as nat),
{
    push_radix(out, n, 10);
}

/// Appends the decimal text of `v`, with a leading `-` when negative.
pub fn push_i64(out: &mut String, v: i64)
    ensures
        final(out)@ == old(out)@ + int_text(v as int),
{
    if v < 0 {
        push_char(out, '-');
        let m: u64 = ((-(v + 1)) as u64) + 1;
        push_u64(out, m);
    } else {
        push_u64(out, v as u64);
    }
}

/// Appends the lower-case hexadecimal text of `n`, padded with zeros to six
/// digits.
pub fn push_hex6(out: &mut String, n: u64)
    ensures
        final(out)@ == old(out)@ + hex6_text(n as nat),
{
    let ghost start = out@;
    let mut digits = String::new();
    push_radix(&mut digits, n, 16);
    assert(digits@ =~= radix_text(n as nat, 16));
    let len = digits.as_str().unicode_len();
    let mut k: usize = 0;
    let pad: usize = if len < 6 { 6 - len } else { 0 };
    while k < pad
        invariant
            k <= pad,
            out@ == start + Seq::new(k as nat, |i: int| '0'),
        decreases pad - k,
    {
        push_char(out, '0');
        k = k + 1;
        assert(out@ =~= start + Seq::new(k as nat, |i: int| '0'));
    }
    out.append(digits.as_str());
    assert(out@ =~= start + hex6_text(n as nat));
}

/// The decimal text of `v`.
pub fn int_string(v: i64) -> (r: String)
    ensures
        r@ == int_text(v as int),
{
    let mut r = String::new();
    push_i64(&mut r, v);
    assert(r@ =~= int_text(v as int));
    r
}

/// A line made of `label` followed by the decimal text of `v`.
pub fn labelled_int(label: &str, v: i64) -> (r: String)
    ensures
        r@ == label@ + int_text(v as int),
{
    let mut r = String::from_str(label);
    push_i64(&mut r, v);
    r
}

/// A line made of `label` followed by `true` or `false`.
pub fn labelled_bool(label: &str, b: bool) -> (r: String)
    ensures
        r@ == label@ + bool_text(b),
{
    let mut r = String::from_str(label);
    if b {
        r.append("true");
        proof {
            reveal_strlit("true");
        }
        assert(bool_text(b) =~= "true"@);
    } else {
        r.append("false");
        proof {
            reveal_strlit("false");
        }
        assert(bool_text(b) =~= "false"@);
    }
    r
}

/// A line made of `label` followed by `t`.
pub fn labelled_text(label: &str, t: &str) -> (r: String)
    ensures
        r@ == label@ + t@,
{
    let mut r = String::from_str(label);
    r.append(t);
    r
}

/// Moves the lines of `more` to the end of `lines`.
pub fn append_lines(lines: &mut Vec<String>, more: Vec<String>)
    ensures
        lines_of(final(lines)@) == lines_of(old(lines)@) + lines_of(more@),
{
    let mut more = more;
    let ghost first = lines@;
    let ghost second = more@;
    lines.append(&mut more);
    proof {
        lemma_lines_of_concat(first, second);
    }
}

} // verus!
