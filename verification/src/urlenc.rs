//! `application/x-www-form-urlencoded` query strings, as a URL's query
//! pairs are written.
use vstd::prelude::*;
use vstd::string::StringSliceAdditionalSpecFns;
use vstd::utf8::encode_utf8;
use crate::text::{owned, push_char};
use crate::values::pairs_view;

verus! {

/// Bytes that stand for themselves: ASCII letters and digits, `*`, `-`, `.`, `_`.
pub open spec fn unreserved(b: u8) -> bool {
    ||| 0x30 <= b <= 0x39
    ||| 0x41 <= b <= 0x5a
    ||| 0x61 <= b <= 0x7a
    ||| b == 0x2a
    ||| b == 0x2d
    ||| b == 0x2e
    ||| b == 0x5f
}

/// The upper-case hexadecimal digit for `d < 16`.
pub open spec fn hex_upper(d: u8) -> char {
    if d < 10 {
        ((d + 48) as u8) as char
    } else {
        ((d + 55) as u8) as char
    }
}

/// How one byte is written: itself, `+` for a space, else `%` and two
/// upper-case hexadecimal digits.
pub open spec fn form_byte(b: u8) -> Seq<char> {
    if unreserved(b) {
        seq![b as char]
    } else if b == 0x20 {
        seq!['+']
    } else {
        seq!['%', hex_upper(b / 16), hex_upper(b % 16)]
    }
}

/// How a byte string is written.
pub open spec fn form_encode_bytes(b: Seq<u8>) -> Seq<char>
    decreases b.len(),
{
    if b.len() == 0 {
        Seq::empty()
    } else {
        form_encode_bytes(b.drop_last()) + form_byte(b.last())
    }
}

/// How a text is written: its UTF-8 bytes, each as `form_byte` says.
pub open spec fn form_encode(s: Seq<char>) -> Seq<char> {
    form_encode_bytes(encode_utf8(s))
}

fn hex_digit(d: u8) -> (c: char)
    requires
        d < 16,
    ensures
        c == hex_upper(d),
{
    if d < 10 {
        (d + 48) as char
    } else {
        (d + 55) as char
    }
}

/// Appends the form encoding of `s` to `out`.
pub fn push_form_encoded(out: &mut String, s: &str)
    ensures
        final(out)@ == old(out)@ + form_encode(s@),
{
    let bytes = s.as_bytes();
    let ghost b = bytes@;
    let mut i: usize = 0;
    while i < bytes.len()
        invariant
            b == bytes@,
            b == encode_utf8(s@),
            i <= b.len(),
            out@ == old(out)@ + form_encode_bytes(b.take(i as int)),
        decreases b.len() - i,
    {
        let c = bytes[i];
        assert(b.take(i + 1).drop_last() =~= b.take(i as int));
        let ghost before = out@;
        if (0x30 <= c && c <= 0x39) || (0x41 <= c && c <= 0x5a) || (0x61 <= c && c <= 0x7a) || c
            == 0x2a || c == 0x2d || c == 0x2e || c == 0x5f {
            push_char(out, c as char);
        } else if c == 0x20 {
            push_char(out, '+');
        } else {
            push_char(out, '%');
            push_char(out, hex_digit(c / 16));
            push_char(out, hex_digit(c % 16));
        }
        assert(out@ =~= before + form_byte(c));
        i = i + 1;
    }
    assert(b.take(b.len() as int) =~= b);
}

/// Query pairs written out: `key=value`, joined by `&`.
pub open spec fn form_pairs(p: Seq<(Seq<char>, Seq<char>)>) -> Seq<char>
    decreases p.len(),
{
    if p.len() == 0 {
        Seq::empty()
    } else {
        let pre = form_pairs(p.drop_last());
        let item = form_encode(p.last().0) + seq!['='] + form_encode(p.last().1);
        if p.len() == 1 {
            item
        } else {
            pre + seq!['&'] + item
        }
    }
}

/// The address `base` with the query `pairs` (`Url::query_pairs_mut` and
/// `append_pair` for each pair, in order).
pub open spec fn spec_url_with_query(base: Seq<char>, p: Seq<(Seq<char>, Seq<char>)>) -> Seq<char> {
    base + seq!['?'] + form_pairs(p)
}

/// `base` with the query pairs appended.
pub fn url_with_query(base: &str, pairs: &Vec<(String, String)>) -> (r: String)
    ensures
        r@ == spec_url_with_query(base@, pairs_view(pairs@)),
{
    let ghost p = pairs_view(pairs@);
    let mut out = owned(base);
    push_char(&mut out, '?');
    let mut i: usize = 0;
    while i < pairs.len()
        invariant
            p == pairs_view(pairs@),
            i <= pairs.len(),
            out@ == base@ + seq!['?'] + form_pairs(p.take(i as int)),
        decreases pairs.len() - i,
    {
        assert(p.take(i + 1).drop_last() =~= p.take(i as int));
        assert(p.take(i + 1).last() == p[i as int]);
        if i > 0 {
            push_char(&mut out, '&');
        }
        push_form_encoded(&mut out, pairs[i].0.as_str());
        push_char(&mut out, '=');
        push_form_encoded(&mut out, pairs[i].1.as_str());
        i = i + 1;
    }
    assert(p.take(pairs.len() as int) =~= p);
    out
}

} // verus!
