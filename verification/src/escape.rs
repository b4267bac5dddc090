//! Percent-encoding of a query string, as a URL stores it.

use vstd::prelude::*;
use vstd::utf8::encode_utf8;

verus! {

/// True for the bytes that a URL's query holds escaped: controls, space,
/// `"`, `#`, `<`, `>`, every byte above ASCII and, in a special URL, `'`.
pub open spec fn query_escapes(b: u8, special: bool) -> bool {
    ||| b < 0x20
    ||| b >= 0x7f
    ||| b == 0x20
    ||| b == 0x22
    ||| b == 0x23
    ||| b == 0x3c
    ||| b == 0x3e
    ||| (special && b == 0x27)
}

/// The upper-case hexadecimal digit for a value below sixteen.
pub open spec fn hex_digit(n: u8) -> char {
    if n < 10 {
        (0x30 + n) as char
    } else {
        (0x41 + (n - 10)) as char
    }
}

/// `%` and the two hexadecimal digits of `b`.
pub open spec fn escaped_byte(b: u8) -> Seq<char> {
    seq!['%', hex_digit(b / 16), hex_digit(b % 16)]
}

/// One byte of a query as the URL stores it.
pub open spec fn query_encode_byte(b: u8, special: bool) -> Seq<char> {
    if query_escapes(b, special) {
        escaped_byte(b)
    } else {
        seq![b as char]
    }
}

/// The bytes of a query as the URL stores them.
pub open spec fn query_encode_bytes(bytes: Seq<u8>, special: bool) -> Seq<char>
    decreases bytes.len(),
{
    if bytes.len() == 0 {
        Seq::empty()
    } else {
        query_encode_byte(bytes[0], special) + query_encode_bytes(bytes.drop_first(), special)
    }
}

/// True for tab, line feed and carriage return, which a URL drops.
pub open spec fn is_tab_or_newline(c: char) -> bool {
    c == '\t' || c == '\n' || c == '\r'
}

/// `s` without its tabs and newlines.
pub open spec fn without_tabs_and_newlines(s: Seq<char>) -> Seq<char> {
    s.filter(|c: char| !is_tab_or_newline(c))
}

/// A query as the URL stores it: tabs and newlines dropped, and each byte
/// of the UTF-8 form of the rest kept or escaped.
pub open spec fn query_encode(query: Seq<char>, special: bool) -> Seq<char> {
    query_encode_bytes(encode_utf8(without_tabs_and_newlines(query)), special)
}

/// True for the characters that a query holds as they are.
pub open spec fn is_query_plain(c: char, special: bool) -> bool {
    '\0' <= c <= '\u{7f}' && !query_escapes(c as u8, special)
}

/// The UTF-8 form of a concatenation is the concatenation of the UTF-8
/// forms.
pub proof fn lemma_utf8_concat(a: Seq<char>, b: Seq<char>)
    ensures
        encode_utf8(a + b) == encode_utf8(a) + encode_utf8(b),
    decreases a.len(),
{
    if a.len() == 0 {
        assert(a + b =~= b);
        assert(encode_utf8(a) + encode_utf8(b) =~= encode_utf8(b));
    } else {
        assert((a + b).drop_first() =~= a.drop_first() + b);
        lemma_utf8_concat(a.drop_first(), b);
        assert(encode_utf8(a + b) =~= encode_utf8(a) + encode_utf8(b));
    }
}

/// Bytes are encoded one by one, so a concatenation is encoded part by
/// part.
pub proof fn lemma_query_encode_bytes_concat(a: Seq<u8>, b: Seq<u8>, special: bool)
    ensures
        query_encode_bytes(a + b, special) == query_encode_bytes(a, special) + query_encode_bytes(
            b,
            special,
        ),
    decreases a.len(),
{
    if a.len() == 0 {
        assert(a + b =~= b);
        assert(query_encode_bytes(a, special) + query_encode_bytes(b, special)
            =~= query_encode_bytes(b, special));
    } else {
        assert((a + b).drop_first() =~= a.drop_first() + b);
        lemma_query_encode_bytes_concat(a.drop_first(), b, special);
        assert(query_encode_bytes(a + b, special) =~= query_encode_bytes(a, special)
            + query_encode_bytes(b, special));
    }
}

/// The stored form of a concatenated query is the concatenation of the
/// stored forms of its parts.
pub proof fn lemma_query_encode_concat(a: Seq<char>, b: Seq<char>, special: bool)
    ensures
        query_encode(a + b, special) == query_encode(a, special) + query_encode(b, special),
{
    Seq::filter_distributes_over_add(a, b, |c: char| !is_tab_or_newline(c));
    lemma_utf8_concat(without_tabs_and_newlines(a), without_tabs_and_newlines(b));
    lemma_query_encode_bytes_concat(
        encode_utf8(without_tabs_and_newlines(a)),
        encode_utf8(without_tabs_and_newlines(b)),
        special,
    );
}

/// A query of plain characters is stored as it is.
pub proof fn lemma_query_encode_plain(s: Seq<char>, special: bool)
    requires
        forall|i: int| 0 <= i < s.len() ==> is_query_plain(#[trigger] s[i], special),
    ensures
        query_encode(s, special) == s,
    decreases s.len(),
{
    reveal(Seq::filter);
    if s.len() == 0 {
        assert(query_encode(s, special) =~= s);
    } else {
        let c = s[0];
        let one = seq![c];
        let rest = s.drop_first();
        assert(s =~= one + rest);
        lemma_query_encode_concat(one, rest, special);
        lemma_query_encode_plain(rest, special);
        assert(is_query_plain(c, special));
        assert(one.drop_last() =~= Seq::<char>::empty());
        assert(without_tabs_and_newlines(one) =~= one);
        let v = c as u32;
        assert(v <= 0x7f);
        assert(v as u8 == vstd::utf8::leading_byte_width_1(v)) by (bit_vector)
            requires
                v <= 0x7f,
        ;
        assert(one.drop_first() =~= Seq::<char>::empty());
        assert(encode_utf8(Seq::<char>::empty()) =~= Seq::<u8>::empty());
        assert(vstd::utf8::encode_scalar(v) =~= seq![v as u8]);
        assert(encode_utf8(one) =~= seq![c as u8]);
        let bytes = seq![c as u8];
        assert(bytes.drop_first() =~= Seq::<u8>::empty());
        assert(query_encode_bytes(Seq::<u8>::empty(), special) =~= Seq::<char>::empty());
        assert(query_encode_byte(c as u8, special) =~= seq![(c as u8) as char]);
        assert(query_encode_bytes(bytes, special) =~= seq![(c as u8) as char]);
        assert((c as u8) as char == c);
        assert(query_encode(one, special) =~= one);
    }
}

} // verus!
