//! What a JSON string literal stands for, and the laws that both writers of
//! string literals in the crate (`ffi::json_string` and the `serde_json` text
//! of an in-band error) give literals that read back as their text and hold
//! no raw control character.

use vstd::prelude::*;
use crate::command::{serde_char, serde_escaped, spec_serde_json_string};
use crate::ffi::{hex_char, json_char, json_escaped, spec_json_string};

verus! {

/// The value of a hexadecimal digit of either case, `None` for any other
/// character.
pub open spec fn hex_value(c: char) -> Option<nat> {
    let v = c as u32;
    if 0x30 <= v <= 0x39 {
        Some((v - 0x30) as nat)
    } else if 0x61 <= v <= 0x66 {
        Some((v - 0x57) as nat)
    } else if 0x41 <= v <= 0x46 {
        Some((v - 0x37) as nat)
    } else {
        None
    }
}

/// The character a two-character escape `\e` stands for.
pub open spec fn short_escape(e: char) -> Option<char> {
    if e == '"' {
        Some('"')
    } else if e == '\\' {
        Some('\\')
    } else if e == '/' {
        Some('/')
    } else if e == 'b' {
        Some('\u{8}')
    } else if e == 'f' {
        Some('\u{c}')
    } else if e == 'n' {
        Some('\n')
    } else if e == 'r' {
        Some('\r')
    } else if e == 't' {
        Some('\t')
    } else {
        None
    }
}

/// The character a `\uXXXX` escape stands for, given its four digits. An
/// escape of a UTF-16 surrogate (U+D800 to U+DFFF) gives `None`: it stands for
/// a character only as half of a pair, which this reading does not join.
pub open spec fn unicode_escape(d: Seq<char>) -> Option<char> {
    if d.len() == 4 && hex_value(d[0]) is Some && hex_value(d[1]) is Some && hex_value(d[2]) is Some
        && hex_value(d[3]) is Some {
        let v = hex_value(d[0])->0 * 4096 + hex_value(d[1])->0 * 256 + hex_value(d[2])->0 * 16
            + hex_value(d[3])->0;
        if 0xD800 <= v < 0xE000 {
            None
        } else {
            Some(v as char)
        }
    } else {
        None
    }
}

/// `c` in front of a decoded text, if there is one.
pub open spec fn prepend(c: char, rest: Option<Seq<char>>) -> Option<Seq<char>> {
    match rest {
        Some(r) => Some(seq![c] + r),
        None => None,
    }
}

/// The text that the inside of a JSON string literal (RFC 8259, section 7)
/// stands for, or `None` where it is not well formed: an unescaped `"` or
/// character below U+0020, or a `\` that starts no escape.
pub open spec fn json_unescape(t: Seq<char>) -> Option<Seq<char>>
    decreases t.len(),
{
    if t.len() == 0 {
        Some(Seq::empty())
    } else if t[0] != '\\' {
        if t[0] == '"' || (t[0] as u32) < 0x20 {
            None
        } else {
            prepend(t[0], json_unescape(t.subrange(1, t.len() as int)))
        }
    } else if t.len() >= 2 && short_escape(t[1]) is Some {
        prepend(short_escape(t[1])->0, json_unescape(t.subrange(2, t.len() as int)))
    } else if t.len() >= 6 && t[1] == 'u' && unicode_escape(t.subrange(2, 6)) is Some {
        prepend(unicode_escape(t.subrange(2, 6))->0, json_unescape(t.subrange(6, t.len() as int)))
    } else {
        None
    }
}

/// The text a JSON string literal stands for, or `None` where `t` is not a
/// well-formed string literal.
pub open spec fn json_literal_text(t: Seq<char>) -> Option<Seq<char>> {
    if t.len() >= 2 && t[0] == '"' && t[t.len() - 1] == '"' {
        json_unescape(t.subrange(1, t.len() - 1))
    } else {
        None
    }
}

proof fn lemma_hex_char_value(d: nat)
    requires
        d < 16,
    ensures
        hex_value(hex_char(d)) == Some(d),
        (hex_char(d) as u32) >= 0x30,
{
}

/// The escape `json_char` writes for `c` reads back as `c`, whatever follows.
proof fn lemma_json_char_reads_back(c: char, r: Seq<char>)
    ensures
        json_unescape(json_char(c) + r) == prepend(c, json_unescape(r)),
{
    let t = json_char(c) + r;
    if c == '"' || c == '\\' || c == '\n' || c == '\r' || c == '\t' {
        assert(t.subrange(2, t.len() as int) =~= r);
    } else if (c as u32) < 0x20 {
        let v = c as u32;
        lemma_hex_char_value((v / 16) as nat);
        lemma_hex_char_value((v % 16) as nat);
        let d = t.subrange(2, 6);
        assert(d =~= seq!['0', '0', hex_char((v / 16) as nat), hex_char((v % 16) as nat)]);
        assert(hex_value('0') == Some(0nat));
        assert(unicode_escape(d) == Some(c));
        assert(t.subrange(6, t.len() as int) =~= r);
    } else {
        assert(t.subrange(1, t.len() as int) =~= r);
    }
}

/// The escape `serde_char` writes for `c` reads back as `c`, whatever follows.
proof fn lemma_serde_char_reads_back(c: char, r: Seq<char>)
    ensures
        json_unescape(serde_char(c) + r) == prepend(c, json_unescape(r)),
{
    let t = serde_char(c) + r;
    if c == '\u{8}' || c == '\u{c}' {
        assert(t.subrange(2, t.len() as int) =~= r);
    } else {
        lemma_json_char_reads_back(c, r);
    }
}

proof fn lemma_json_char_printable(c: char)
    ensures
        forall|i: int| 0 <= i < json_char(c).len() ==> (#[trigger] json_char(c)[i] as u32) >= 0x20,
{
    if (c as u32) < 0x20 && c != '\n' && c != '\r' && c != '\t' {
        let v = c as u32;
        lemma_hex_char_value((v / 16) as nat);
        lemma_hex_char_value((v % 16) as nat);
    }
}

proof fn lemma_serde_char_printable(c: char)
    ensures
        forall|i: int| 0 <= i < serde_char(c).len() ==> (#[trigger] serde_char(c)[i] as u32) >= 0x20,
{
    lemma_json_char_printable(c);
}

/// Writing a text is writing its two halves one after the other.
proof fn lemma_json_escaped_concat(a: Seq<char>, b: Seq<char>)
    ensures
        json_escaped(a + b) == json_escaped(a) + json_escaped(b),
    decreases b.len(),
{
    if b.len() == 0 {
        assert(a + b =~= a);
        assert(json_escaped(a) + json_escaped(b) =~= json_escaped(a));
    } else {
        lemma_json_escaped_concat(a, b.drop_last());
        assert((a + b).drop_last() =~= a + b.drop_last());
        assert((a + b).last() == b.last());
        assert(json_escaped(a + b) =~= json_escaped(a) + json_escaped(b));
    }
}

proof fn lemma_serde_escaped_concat(a: Seq<char>, b: Seq<char>)
    ensures
        serde_escaped(a + b) == serde_escaped(a) + serde_escaped(b),
    decreases b.len(),
{
    if b.len() == 0 {
        assert(a + b =~= a);
        assert(serde_escaped(a) + serde_escaped(b) =~= serde_escaped(a));
    } else {
        lemma_serde_escaped_concat(a, b.drop_last());
        assert((a + b).drop_last() =~= a + b.drop_last());
        assert((a + b).last() == b.last());
        assert(serde_escaped(a + b) =~= serde_escaped(a) + serde_escaped(b));
    }
}

proof fn lemma_json_escaped_reads_back(s: Seq<char>)
    ensures
        json_unescape(json_escaped(s)) == Some(s),
        forall|i: int| 0 <= i < json_escaped(s).len() ==> (#[trigger] json_escaped(s)[i] as u32) >= 0x20,
    decreases s.len(),
{
    if s.len() == 0 {
        assert(json_escaped(s) =~= Seq::<char>::empty());
    } else {
        let c = s[0];
        let rest = s.drop_first();
        lemma_json_escaped_reads_back(rest);
        assert(s =~= seq![c] + rest);
        lemma_json_escaped_concat(seq![c], rest);
        assert(json_escaped(seq![c]) =~= json_char(c)) by {
            assert(seq![c].drop_last() =~= Seq::<char>::empty());
            assert(json_escaped(Seq::<char>::empty()) =~= Seq::<char>::empty());
            assert(seq![c].last() == c);
        }
        lemma_json_char_reads_back(c, json_escaped(rest));
        lemma_json_char_printable(c);
        let e = json_escaped(s);
        assert(e =~= json_char(c) + json_escaped(rest));
        assert forall|i: int| 0 <= i < e.len() implies (#[trigger] e[i] as u32) >= 0x20 by {
            if i < json_char(c).len() {
                assert(e[i] == json_char(c)[i]);
            } else {
                assert(e[i] == json_escaped(rest)[i - json_char(c).len()]);
            }
        }
    }
}

proof fn lemma_serde_escaped_reads_back(s: Seq<char>)
    ensures
        json_unescape(serde_escaped(s)) == Some(s),
        forall|i: int| 0 <= i < serde_escaped(s).len() ==> (#[trigger] serde_escaped(s)[i] as u32) >= 0x20,
    decreases s.len(),
{
    if s.len() == 0 {
        assert(serde_escaped(s) =~= Seq::<char>::empty());
    } else {
        let c = s[0];
        let rest = s.drop_first();
        lemma_serde_escaped_reads_back(rest);
        assert(s =~= seq![c] + rest);
        lemma_serde_escaped_concat(seq![c], rest);
        assert(serde_escaped(seq![c]) =~= serde_char(c)) by {
            assert(seq![c].drop_last() =~= Seq::<char>::empty());
            assert(serde_escaped(Seq::<char>::empty()) =~= Seq::<char>::empty());
            assert(seq![c].last() == c);
        }
        lemma_serde_char_reads_back(c, serde_escaped(rest));
        lemma_serde_char_printable(c);
        let e = serde_escaped(s);
        assert(e =~= serde_char(c) + serde_escaped(rest));
        assert forall|i: int| 0 <= i < e.len() implies (#[trigger] e[i] as u32) >= 0x20 by {
            if i < serde_char(c).len() {
                assert(e[i] == serde_char(c)[i]);
            } else {
                assert(e[i] == serde_escaped(rest)[i - serde_char(c).len()]);
            }
        }
    }
}

/// Every string `ffi::json_string` writes is a well-formed JSON string literal
/// that stands for exactly the text it was given, and holds no character below
/// U+0020; so the out-of-band reply that embeds it is valid JSON whatever the
/// message.
pub proof fn law_json_string_reads_back(s: Seq<char>)
    ensures
        json_literal_text(spec_json_string(s)) == Some(s),
        forall|i: int|
            0 <= i < spec_json_string(s).len() ==> (#[trigger] spec_json_string(s)[i] as u32)
                >= 0x20,
{
    lemma_json_escaped_reads_back(s);
    let e = json_escaped(s);
    let t = spec_json_string(s);
    assert(t.subrange(1, t.len() - 1) =~= e);
    assert forall|i: int| 0 <= i < t.len() implies (#[trigger] t[i] as u32) >= 0x20 by {
        if 1 <= i < t.len() - 1 {
            assert(t[i] == e[i - 1]);
        }
    }
}

/// Every message text `serde_json` writes into an in-band error reply is a
/// well-formed JSON string literal that stands for exactly the message, and
/// holds no character below U+0020.
pub proof fn law_serde_json_text_reads_back(s: Seq<char>)
    ensures
        json_literal_text(spec_serde_json_string(s)) == Some(s),
        forall|i: int|
            0 <= i < spec_serde_json_string(s).len() ==> (#[trigger] spec_serde_json_string(
                s,
            )[i] as u32) >= 0x20,
{
    lemma_serde_escaped_reads_back(s);
    let e = serde_escaped(s);
    let t = spec_serde_json_string(s);
    assert(t.subrange(1, t.len() - 1) =~= e);
    assert forall|i: int| 0 <= i < t.len() implies (#[trigger] t[i] as u32) >= 0x20 by {
        if 1 <= i < t.len() - 1 {
            assert(t[i] == e[i - 1]);
        }
    }
}

} // verus!
