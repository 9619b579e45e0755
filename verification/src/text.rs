//! Text forms used on the wire: decimal numbers and `application/x-www-form-urlencoded` pairs.

use vstd::prelude::*;
use vstd::utf8::{encode_scalar, encode_utf8};

verus! {

/// The decimal digit for a value below ten.
pub open spec fn digit_char(d: nat) -> char {
    (d + 48) as char
}

/// The decimal representation of a number, without sign or leading zeros.
pub open spec fn decimal(n: nat) -> Seq<char>
    decreases n,
{
    if n < 10 {
        seq![digit_char(n)]
    } else {
        decimal(n / 10).push(digit_char(n % 10))
    }
}

fn digit_str(d: u32) -> (s: &'static str)
    requires
        d < 10,
    ensures
        s@ == seq![digit_char(d as nat)],
{
    proof {
        reveal_strlit("0");
        reveal_strlit("1");
        reveal_strlit("2");
        reveal_strlit("3");
        reveal_strlit("4");
        reveal_strlit("5");
        reveal_strlit("6");
        reveal_strlit("7");
        reveal_strlit("8");
        reveal_strlit("9");
    }
    match d {
        0 => "0",
        1 => "1",
        2 => "2",
        3 => "3",
        4 => "4",
        5 => "5",
        6 => "6",
        7 => "7",
        8 => "8",
        _ => "9",
    }
}

/// The decimal representation of `n`, as `n.to_string()` gives it.
pub fn u32_decimal(n: u32) -> (s: String)
    ensures
        s@ == decimal(n as nat),
    decreases n,
{
    if n < 10 {
        digit_str(n).to_owned()
    } else {
        let mut s = u32_decimal(n / 10);
        s.append(digit_str(n % 10));
        s
    }
}

/// The upper-case hexadecimal digit for a value below sixteen.
pub open spec fn hex_upper(d: int) -> char {
    if d < 10 {
        (d + 48) as char
    } else {
        (d + 55) as char
    }
}

/// Bytes that `application/x-www-form-urlencoded` leaves as they are:
/// `*`, `-`, `.`, `_`, digits and ASCII letters.
pub open spec fn form_unchanged(b: u8) -> bool {
    b == 42 || b == 45 || b == 46 || b == 95 || (48 <= b <= 57) || (65 <= b <= 90) || (97 <= b <= 122)
}

/// One byte in `application/x-www-form-urlencoded` form: as it is, `+` for a space, else `%XX`.
pub open spec fn form_byte(b: u8) -> Seq<char> {
    if form_unchanged(b) {
        seq![b as char]
    } else if b == 32 {
        seq!['+']
    } else {
        seq!['%', hex_upper((b / 16) as int), hex_upper((b % 16) as int)]
    }
}

/// A byte string in `application/x-www-form-urlencoded` form.
pub open spec fn form_bytes(bytes: Seq<u8>) -> Seq<char>
    decreases bytes.len(),
{
    if bytes.len() == 0 {
        Seq::empty()
    } else {
        form_byte(bytes[0]) + form_bytes(bytes.drop_first())
    }
}

/// A text in `application/x-www-form-urlencoded` form: its UTF-8 bytes, each encoded.
pub open spec fn form_component(s: Seq<char>) -> Seq<char> {
    form_bytes(encode_utf8(s))
}

/// One pair as `key=value`, both sides encoded.
pub open spec fn form_pair(pair: (Seq<char>, Seq<char>)) -> Seq<char> {
    form_component(pair.0) + seq!['='] + form_component(pair.1)
}

/// A list of pairs in `application/x-www-form-urlencoded` form: the encoded pairs joined by `&`.
pub open spec fn form_pairs(pairs: Seq<(Seq<char>, Seq<char>)>) -> Seq<char>
    decreases pairs.len(),
{
    if pairs.len() == 0 {
        Seq::empty()
    } else if pairs.len() == 1 {
        form_pair(pairs[0])
    } else {
        form_pairs(pairs.drop_last()) + seq!['&'] + form_pair(pairs.last())
    }
}

/// Characters that form encoding leaves as they are: `*`, `-`, `.`, `_`, digits and ASCII
/// letters.
pub open spec fn form_plain_char(c: char) -> bool {
    c == '*' || c == '-' || c == '.' || c == '_' || ('0' <= c <= '9') || ('A' <= c <= 'Z') || ('a' <= c <= 'z')
}

/// Text made only of characters that form encoding leaves as they are.
pub open spec fn form_plain(s: Seq<char>) -> bool {
    forall|i: int| 0 <= i < s.len() ==> form_plain_char(#[trigger] s[i])
}

/// Form encoding leaves text made only of `*`, `-`, `.`, `_`, digits and ASCII letters as it is.
pub proof fn form_component_of_plain_text(s: Seq<char>)
    requires
        form_plain(s),
    ensures
        form_component(s) == s,
    decreases s.len(),
{
    if s.len() == 0 {
        assert(encode_utf8(s) =~= Seq::<u8>::empty());
        assert(form_component(s) =~= s);
    } else {
        let rest = s.drop_first();
        assert(form_plain(rest)) by {
            assert forall|i: int| 0 <= i < rest.len() implies form_plain_char(#[trigger] rest[i]) by {
                assert(rest[i] == s[i + 1]);
            }
        }
        form_component_of_plain_text(rest);
        let c = s[0];
        assert(form_plain_char(s[0]));
        let v = c as u32;
        assert(v < 128);
        assert(v & 0x7F == v) by (bit_vector)
            requires
                v < 128,
        ;
        let b = v as u8;
        assert(encode_scalar(v) == seq![b]);
        let bytes = encode_utf8(s);
        assert(bytes == seq![b] + encode_utf8(rest));
        assert(bytes.len() > 0 && bytes[0] == b);
        assert(bytes.drop_first() =~= encode_utf8(rest));
        assert(form_unchanged(b));
        assert(b as char == c);
        assert(form_component(s) == seq![c] + form_component(rest));
        assert(seq![c] + rest =~= s);
    }
}

/// Pairs as `key=value` joined by `&`, with nothing encoded.
pub open spec fn plain_pairs(pairs: Seq<(Seq<char>, Seq<char>)>) -> Seq<char>
    decreases pairs.len(),
{
    if pairs.len() == 0 {
        Seq::empty()
    } else if pairs.len() == 1 {
        pairs[0].0 + seq!['='] + pairs[0].1
    } else {
        plain_pairs(pairs.drop_last()) + seq!['&'] + pairs.last().0 + seq!['='] + pairs.last().1
    }
}

/// Pairs whose keys and values are made only of characters that form encoding leaves as they
/// are are form-encoded as `key=value` joined by `&`, as they stand.
pub proof fn form_pairs_of_plain_pairs(pairs: Seq<(Seq<char>, Seq<char>)>)
    requires
        forall|i: int| 0 <= i < pairs.len() ==> form_plain(#[trigger] pairs[i].0) && form_plain(pairs[i].1),
    ensures
        form_pairs(pairs) == plain_pairs(pairs),
    decreases pairs.len(),
{
    if pairs.len() > 0 {
        let last = pairs.last();
        assert(form_plain(pairs[pairs.len() - 1].0));
        form_component_of_plain_text(last.0);
        form_component_of_plain_text(last.1);
        if pairs.len() > 1 {
            let init = pairs.drop_last();
            assert forall|i: int| 0 <= i < init.len() implies form_plain(#[trigger] init[i].0) && form_plain(init[i].1) by {
                assert(init[i] == pairs[i]);
            }
            form_pairs_of_plain_pairs(init);
            assert(form_pairs(pairs) =~= plain_pairs(pairs));
        } else {
            assert(form_pairs(pairs) =~= plain_pairs(pairs));
        }
    }
}

/// The query pair `key=value` when a value is present, nothing otherwise.
pub open spec fn optional_pair(key: Seq<char>, value: Option<Seq<char>>) -> Seq<(Seq<char>, Seq<char>)> {
    match value {
        Some(v) => seq![(key, v)],
        None => Seq::empty(),
    }
}

/// The text of an optional string.
pub open spec fn option_text(o: Option<String>) -> Option<Seq<char>> {
    match o {
        Some(s) => Some(s@),
        None => None,
    }
}

/// The texts of a list of string pairs.
pub open spec fn pair_views(pairs: Seq<(String, String)>) -> Seq<(Seq<char>, Seq<char>)> {
    pairs.map_values(|p: (String, String)| (p.0@, p.1@))
}

} // verus!
