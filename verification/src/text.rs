//! Text rendering: decimal and hexadecimal numbers, lists, and the small
//! string-building steps every emitted source and prompt is made of.
//!
//! Every function here appends to a `String` and states exactly which
//! characters it appended, so the generators above it can state their output
//! as a concatenation of literal pieces and rendered numbers.

use vstd::prelude::*;

verus! {

/// The decimal digit character for `d` (`0 <= d < 10`).
pub open spec fn digit_char(d: int) -> char {
    if d == 0 { '0' }
    else if d == 1 { '1' }
    else if d == 2 { '2' }
    else if d == 3 { '3' }
    else if d == 4 { '4' }
    else if d == 5 { '5' }
    else if d == 6 { '6' }
    else if d == 7 { '7' }
    else if d == 8 { '8' }
    else { '9' }
}

/// The lowercase hexadecimal digit character for `d` (`0 <= d < 16`).
pub open spec fn hex_char(d: int) -> char {
    if d < 10 { digit_char(d) }
    else if d == 10 { 'a' }
    else if d == 11 { 'b' }
    else if d == 12 { 'c' }
    else if d == 13 { 'd' }
    else if d == 14 { 'e' }
    else { 'f' }
}

/// Decimal rendering of a natural number, without leading zeros (`0` is `"0"`).
pub open spec fn dec_nat(n: nat) -> Seq<char>
    decreases n,
{
    if n < 10 {
        seq![digit_char(n as int)]
    } else {
        dec_nat(n / 10).push(digit_char((n % 10) as int))
    }
}

/// Decimal rendering of an integer, as Rust's `Display` writes it.
pub open spec fn dec_int(i: int) -> Seq<char> {
    if i < 0 {
        seq!['-'] + dec_nat((-i) as nat)
    } else {
        dec_nat(i as nat)
    }
}

/// Exactly `width` lowercase hex digits of `n` (the low `4 * width` bits),
/// most significant first — `{:0width$x}` for any `n < 16^width`.
pub open spec fn hex_fixed(n: nat, width: nat) -> Seq<char>
    decreases width,
{
    if width == 0 {
        Seq::empty()
    } else {
        hex_fixed(n / 16, (width - 1) as nat).push(hex_char((n % 16) as int))
    }
}

/// The items of a list rendered with `dec_int` and separated by `", "`.
pub open spec fn dec_items(s: Seq<i64>) -> Seq<char>
    decreases s.len(),
{
    if s.len() == 0 {
        Seq::empty()
    } else if s.len() == 1 {
        dec_int(s[0] as int)
    } else {
        dec_items(s.drop_last()) + ", "@ + dec_int(s.last() as int)
    }
}

/// `{:?}` of a `Vec<i64>` / `&[i64]`: `[1, -2, 3]`.
pub open spec fn debug_list(s: Seq<i64>) -> Seq<char> {
    seq!['['] + dec_items(s) + seq![']']
}

/// Appends one character (`String::push`).
#[verifier::external_body]
pub(crate) fn push_char(s: &mut String, c: char)
    ensures
        final(s)@ == old(s)@.push(c),
{
    s.push(c)
}

/// Appends a string slice.
pub fn push_str(s: &mut String, t: &str)
    ensures
        final(s)@ == old(s)@ + t@,
{
    s.append(t);
}

/// The character for decimal digit `d`.
pub fn digit(d: u64) -> (c: char)
    requires
        d < 10,
    ensures
        c == digit_char(d as int),
{
    if d == 0 { '0' }
    else if d == 1 { '1' }
    else if d == 2 { '2' }
    else if d == 3 { '3' }
    else if d == 4 { '4' }
    else if d == 5 { '5' }
    else if d == 6 { '6' }
    else if d == 7 { '7' }
    else if d == 8 { '8' }
    else { '9' }
}

/// The character for lowercase hex digit `d`.
pub fn hex_digit(d: u64) -> (c: char)
    requires
        d < 16,
    ensures
        c == hex_char(d as int),
{
    if d < 10 { digit(d) }
    else if d == 10 { 'a' }
    else if d == 11 { 'b' }
    else if d == 12 { 'c' }
    else if d == 13 { 'd' }
    else if d == 14 { 'e' }
    else { 'f' }
}

/// Appends `n` in decimal.
pub fn push_u64(s: &mut String, n: u64)
    ensures
        final(s)@ == old(s)@ + dec_nat(n as nat),
    decreases n,
{
    if n >= 10 {
        push_u64(s, n / 10);
    }
    push_char(s, digit(n % 10));
    proof {
        assert(n < 10 ==> n % 10 == n);
    }
}

/// Appends `n` in decimal, with a leading `-` when negative.
pub fn push_i64(s: &mut String, n: i64)
    ensures
        final(s)@ == old(s)@ + dec_int(n as int),
{
    if n < 0 {
        push_char(s, '-');
        let m: i128 = -(n as i128);
        push_u64(s, m as u64);
    } else {
        push_u64(s, n as u64);
    }
}

/// Appends the low `4 * width` bits of `n` as exactly `width` lowercase hex
/// digits.
pub fn push_hex_fixed(s: &mut String, n: u64, width: u32)
    ensures
        final(s)@ == old(s)@ + hex_fixed(n as nat, width as nat),
    decreases width,
{
    if width > 0 {
        push_hex_fixed(s, n / 16, width - 1);
        push_char(s, hex_digit(n % 16));
    }
}

/// Appends `{:?}` of a list of `i64`.
pub fn push_debug_list(s: &mut String, v: &[i64])
    ensures
        final(s)@ == old(s)@ + debug_list(v@),
{
    let ghost start = s@;
    push_char(s, '[');
    let mut i: usize = 0;
    while i < v.len()
        invariant
            i <= v.len(),
            s@ == start + seq!['['] + dec_items(v@.take(i as int)),
        decreases v.len() - i,
    {
        if i > 0 {
            push_str(s, ", ");
        }
        push_i64(s, v[i]);
        proof {
            assert(v@.take(i + 1).drop_last() =~= v@.take(i as int));
            if i == 0 {
                assert(dec_items(v@.take(0)) =~= Seq::<char>::empty());
            }
        }
        i = i + 1;
    }
    push_char(s, ']');
    assert(v@.take(v.len() as int) =~= v@);
}


/// The characters of each string.
pub open spec fn string_views(v: Seq<String>) -> Seq<Seq<char>> {
    v.map_values(|s: String| s@)
}

/// Every line followed by `\n`.
pub open spec fn terminated(lines: Seq<Seq<char>>) -> Seq<char>
    decreases lines.len(),
{
    if lines.len() == 0 {
        Seq::empty()
    } else {
        terminated(lines.drop_last()) + lines.last() + "\n"@
    }
}

/// Every line prefixed with `//! `, joined by `\n` (no trailing newline).
pub open spec fn doc_block(lines: Seq<Seq<char>>) -> Seq<char>
    decreases lines.len(),
{
    if lines.len() == 0 {
        Seq::empty()
    } else if lines.len() == 1 {
        "//! "@ + lines[0]
    } else {
        doc_block(lines.drop_last()) + "\n"@ + "//! "@ + lines.last()
    }
}

/// Appends every line followed by `\n`.
pub fn push_terminated(s: &mut String, lines: &Vec<String>)
    ensures
        final(s)@ == old(s)@ + terminated(string_views(lines@)),
{
    let ghost start = s@;
    let ghost lv = string_views(lines@);
    let mut i: usize = 0;
    while i < lines.len()
        invariant
            i <= lines.len(),
            lv == string_views(lines@),
            s@ == start + terminated(lv.take(i as int)),
        decreases lines.len() - i,
    {
        push_str(s, lines[i].as_str());
        push_str(s, "\n");
        assert(lv.take(i + 1).drop_last() =~= lv.take(i as int));
        i = i + 1;
    }
    assert(lv.take(lines.len() as int) =~= lv);
}

/// Appends the lines as a `//! ` doc block joined by `\n`.
pub fn push_doc_block(s: &mut String, lines: &Vec<String>)
    ensures
        final(s)@ == old(s)@ + doc_block(string_views(lines@)),
{
    let ghost start = s@;
    let ghost lv = string_views(lines@);
    let mut i: usize = 0;
    while i < lines.len()
        invariant
            i <= lines.len(),
            lv == string_views(lines@),
            s@ == start + doc_block(lv.take(i as int)),
        decreases lines.len() - i,
    {
        if i > 0 {
            push_str(s, "\n");
        }
        push_str(s, "//! ");
        push_str(s, lines[i].as_str());
        assert(lv.take(i + 1).drop_last() =~= lv.take(i as int));
        i = i + 1;
    }
    assert(lv.take(lines.len() as int) =~= lv);
}

/// A fresh `String` holding `t`.
pub fn string_of(t: &str) -> (r: String)
    ensures
        r@ == t@,
{
    String::from_str(t)
}

} // verus!
