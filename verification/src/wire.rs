//! Canonical JSON wire text for query and body objects.
//!
//! Every serialized request shape in this crate is an object whose fields
//! appear in declaration order, with strings escaped and numbers written in
//! decimal. The spec functions here define that text exactly; the executable
//! builders are proved to produce it.

use vstd::prelude::*;
use vstd::string::*;

verus! {

/// The decimal digit character for `n` in `0..10`.
pub open spec fn dec_digit(n: int) -> char {
    if n == 0 {
        '0'
    } else if n == 1 {
        '1'
    } else if n == 2 {
        '2'
    } else if n == 3 {
        '3'
    } else if n == 4 {
        '4'
    } else if n == 5 {
        '5'
    } else if n == 6 {
        '6'
    } else if n == 7 {
        '7'
    } else if n == 8 {
        '8'
    } else {
        '9'
    }
}

/// The decimal representation of `n`, without sign or leading zeros.
pub open spec fn dec_rep(n: nat) -> Seq<char>
    decreases n,
{
    if n < 10 {
        seq![dec_digit(n as int)]
    } else {
        dec_rep(n / 10) + seq![dec_digit((n % 10) as int)]
    }
}

/// Whether `c` is a decimal digit character.
pub open spec fn is_dec_digit(c: char) -> bool {
    c == '0' || c == '1' || c == '2' || c == '3' || c == '4' || c == '5' || c == '6' || c == '7'
        || c == '8' || c == '9'
}

/// A decimal representation is never empty and holds digit characters
/// only.
pub proof fn lemma_dec_rep_shape(n: nat)
    ensures
        dec_rep(n).len() >= 1,
        forall|i: int| 0 <= i < dec_rep(n).len() ==> is_dec_digit(#[trigger] dec_rep(n)[i]),
    decreases n,
{
    if n < 10 {
        assert(dec_rep(n) =~= seq![dec_digit(n as int)]);
        assert(is_dec_digit(dec_digit(n as int)));
    } else {
        lemma_dec_rep_shape(n / 10);
        assert forall|i: int| 0 <= i < dec_rep(n).len() implies is_dec_digit(
            #[trigger] dec_rep(n)[i],
        ) by {
            if i < dec_rep(n / 10).len() {
                assert(dec_rep(n)[i] == dec_rep(n / 10)[i]);
            } else {
                assert(dec_rep(n)[i] == dec_digit((n % 10) as int));
            }
        }
    }
}

/// Two numbers with the same decimal representation are equal.
pub proof fn lemma_dec_rep_injective(a: nat, b: nat)
    requires
        dec_rep(a) == dec_rep(b),
    ensures
        a == b,
    decreases a,
{
    if a < 10 && b < 10 {
        assert(dec_rep(a)[0] == dec_digit(a as int));
        assert(dec_rep(b)[0] == dec_digit(b as int));
    } else if a < 10 && b >= 10 {
        lemma_dec_rep_shape(b / 10);
        assert(dec_rep(b).len() >= 2);
    } else if a >= 10 && b < 10 {
        lemma_dec_rep_shape(a / 10);
        assert(dec_rep(a).len() >= 2);
    } else {
        assert(dec_rep(a).last() == dec_digit((a % 10) as int));
        assert(dec_rep(b).last() == dec_digit((b % 10) as int));
        assert(a % 10 == b % 10);
        assert(dec_rep(a).drop_last() =~= dec_rep(a / 10));
        assert(dec_rep(b).drop_last() =~= dec_rep(b / 10));
        lemma_dec_rep_injective(a / 10, b / 10);
    }
}

/// The lower-case hexadecimal digit character for `n` in `0..16`.
pub open spec fn hex_digit(n: int) -> char {
    if n < 10 {
        dec_digit(n)
    } else if n == 10 {
        'a'
    } else if n == 11 {
        'b'
    } else if n == 12 {
        'c'
    } else if n == 13 {
        'd'
    } else if n == 14 {
        'e'
    } else {
        'f'
    }
}

/// How a single character appears inside a JSON string literal.
pub open spec fn esc_char(c: char) -> Seq<char> {
    if c == '"' {
        "\\\""@
    } else if c == '\\' {
        "\\\\"@
    } else if c == '\n' {
        "\\n"@
    } else if c == '\r' {
        "\\r"@
    } else if c == '\t' {
        "\\t"@
    } else if c == '\u{8}' {
        "\\b"@
    } else if c == '\u{c}' {
        "\\f"@
    } else if (c as u32) < 32 {
        "\\u00"@ + seq![hex_digit((c as u32 / 16) as int), hex_digit((c as u32 % 16) as int)]
    } else {
        seq![c]
    }
}

/// The body of a JSON string literal: each character escaped in order.
pub open spec fn json_escape(s: Seq<char>) -> Seq<char>
    decreases s.len(),
{
    if s.len() == 0 {
        Seq::<char>::empty()
    } else {
        json_escape(s.drop_last()) + esc_char(s.last())
    }
}

/// A complete JSON string literal for `s`.
pub open spec fn json_string(s: Seq<char>) -> Seq<char> {
    "\""@ + json_escape(s) + "\""@
}

/// `parts` joined with the separator `sep`.
pub open spec fn spec_join(parts: Seq<Seq<char>>, sep: Seq<char>) -> Seq<char>
    decreases parts.len(),
{
    if parts.len() == 0 {
        Seq::<char>::empty()
    } else if parts.len() == 1 {
        parts[0]
    } else {
        spec_join(parts.drop_last(), sep) + sep + parts.last()
    }
}

/// One `"name":value` member of a JSON object.
pub open spec fn spec_field(name: Seq<char>, value: Seq<char>) -> Seq<char> {
    json_string(name) + ":"@ + value
}

/// A JSON object holding exactly the members `parts`, in order.
pub open spec fn spec_object(parts: Seq<Seq<char>>) -> Seq<char> {
    "{"@ + spec_join(parts, ","@) + "}"@
}

/// A JSON array of string literals, one per element of `items`, in order.
pub open spec fn json_str_array(items: Seq<Seq<char>>) -> Seq<char> {
    "["@ + spec_join(items.map_values(|s: Seq<char>| json_string(s)), ","@) + "]"@
}

fn hex_char_str(n: u32) -> (r: &'static str)
    requires
        n < 16,
    ensures
        r@ == seq![hex_digit(n as int)],
{
    let r: &'static str = if n == 0 {
        "0"
    } else if n == 1 {
        "1"
    } else if n == 2 {
        "2"
    } else if n == 3 {
        "3"
    } else if n == 4 {
        "4"
    } else if n == 5 {
        "5"
    } else if n == 6 {
        "6"
    } else if n == 7 {
        "7"
    } else if n == 8 {
        "8"
    } else if n == 9 {
        "9"
    } else if n == 10 {
        "a"
    } else if n == 11 {
        "b"
    } else if n == 12 {
        "c"
    } else if n == 13 {
        "d"
    } else if n == 14 {
        "e"
    } else {
        "f"
    };
    proof {
        reveal_strlit("0");
        reveal_strlit("1");
        reveal_strlit("2");
        reveal_strlit("3");
        reveal_strlit("4");
        reveal_strlit("5");
        reveal_strlit("6");
        reveal_strlit("7");
        reveal_strlit("8");
        reveal_strlit("9");
        reveal_strlit("a");
        reveal_strlit("b");
        reveal_strlit("c");
        reveal_strlit("d");
        reveal_strlit("e");
        reveal_strlit("f");
        assert(r@ =~= seq![hex_digit(n as int)]);
    }
    r
}

fn digit_str(n: u64) -> (r: &'static str)
    requires
        n < 10,
    ensures
        r@ == seq![dec_digit(n as int)],
{
    let r: &'static str = if n == 0 {
        "0"
    } else if n == 1 {
        "1"
    } else if n == 2 {
        "2"
    } else if n == 3 {
        "3"
    } else if n == 4 {
        "4"
    } else if n == 5 {
        "5"
    } else if n == 6 {
        "6"
    } else if n == 7 {
        "7"
    } else if n == 8 {
        "8"
    } else {
        "9"
    };
    proof {
        reveal_strlit("0");
        reveal_strlit("1");
        reveal_strlit("2");
        reveal_strlit("3");
        reveal_strlit("4");
        reveal_strlit("5");
        reveal_strlit("6");
        reveal_strlit("7");
        reveal_strlit("8");
        reveal_strlit("9");
        assert(r@ =~= seq![dec_digit(n as int)]);
    }
    r
}

/// Appends the decimal representation of `n` to `out`.
pub fn append_u64(out: &mut String, n: u64)
    ensures
        final(out)@ == old(out)@ + dec_rep(n as nat),
    decreases n,
{
    if n < 10 {
        out.append(digit_str(n));
    } else {
        let ghost pre = out@;
        append_u64(out, n / 10);
        out.append(digit_str(n % 10));
        proof {
            assert(out@ =~= pre + dec_rep(n as nat));
        }
    }
}

/// The decimal representation of `n` as a fresh string.
pub fn u64_string(n: u64) -> (r: String)
    ensures
        r@ == dec_rep(n as nat),
{
    let mut out = String::new();
    append_u64(&mut out, n);
    proof {
        assert(out@ =~= dec_rep(n as nat));
    }
    out
}

/// Appends the escaped body of a JSON string literal for `s` to `out`.
fn append_escaped(out: &mut String, s: &str)
    ensures
        final(out)@ == old(out)@ + json_escape(s@),
{
    let ghost base = out@;
    let n: usize = s.unicode_len();
    let mut i: usize = 0;
    while i < n
        invariant
            i <= n,
            n == s@.len(),
            out@ == base + json_escape(s@.subrange(0, i as int)),
        decreases n - i,
    {
        proof {
            assert(s@.subrange(0, i as int + 1).drop_last() =~= s@.subrange(0, i as int));
            assert(s@.subrange(0, i as int + 1).last() == s@[i as int]);
        }
        let ghost done = json_escape(s@.subrange(0, i as int));
        let c = s.get_char(i);
        if c == '"' {
            out.append("\\\"");
        } else if c == '\\' {
            out.append("\\\\");
        } else if c == '\n' {
            out.append("\\n");
        } else if c == '\r' {
            out.append("\\r");
        } else if c == '\t' {
            out.append("\\t");
        } else if c == '\u{8}' {
            out.append("\\b");
        } else if c == '\u{c}' {
            out.append("\\f");
        } else if (c as u32) < 32 {
            out.append("\\u00");
            out.append(hex_char_str((c as u32) / 16));
            out.append(hex_char_str((c as u32) % 16));
            proof {
                assert(out@ =~= base + done + esc_char(c));
            }
        } else {
            let piece = s.substring_char(i, i + 1);
            proof {
                assert(piece@ =~= seq![s@[i as int]]);
            }
            out.append(piece);
        }
        proof {
            assert(out@ =~= base + json_escape(s@.subrange(0, i as int + 1)));
        }
        i = i + 1;
    }
    proof {
        assert(s@.subrange(0, n as int) =~= s@);
    }
}

/// The JSON string literal for `s`.
pub fn json_quoted(s: &str) -> (r: String)
    ensures
        r@ == json_string(s@),
{
    let mut out = String::from_str("\"");
    append_escaped(&mut out, s);
    out.append("\"");
    proof {
        assert(out@ =~= json_string(s@));
    }
    out
}

/// One `"name":value` member, with `value` already rendered.
pub fn field_string(name: &str, value_json: &str) -> (r: String)
    ensures
        r@ == spec_field(name@, value_json@),
{
    let mut out = json_quoted(name);
    out.append(":");
    out.append(value_json);
    proof {
        assert(out@ =~= spec_field(name@, value_json@));
    }
    out
}

/// Appends `seg` to the member list, extending its deep view by `seg`'s text.
pub fn push_seg(segs: &mut Vec<String>, seg: String)
    ensures
        final(segs).deep_view() == old(segs).deep_view().push(seg@),
{
    let ghost pre = segs.deep_view();
    segs.push(seg);
    proof {
        assert(segs.deep_view() =~= pre.push(seg@));
    }
}

/// The JSON object whose members are exactly `segs`, in order.
pub fn object_text(segs: &Vec<String>) -> (r: String)
    ensures
        r@ == spec_object(segs.deep_view()),
{
    let ghost dv = segs.deep_view();
    let mut out = String::from_str("{");
    let n: usize = segs.len();
    let mut i: usize = 0;
    proof {
        assert(out@ =~= "{"@ + spec_join(dv.take(0), ","@));
    }
    while i < n
        invariant
            i <= n,
            n == segs.len(),
            dv == segs.deep_view(),
            dv.len() == n,
            out@ == "{"@ + spec_join(dv.take(i as int), ","@),
        decreases n - i,
    {
        let ghost done = spec_join(dv.take(i as int), ","@);
        if i > 0 {
            out.append(",");
        }
        out.append(segs[i].as_str());
        proof {
            assert(dv.take(i as int + 1).drop_last() =~= dv.take(i as int));
            assert(dv.take(i as int + 1).last() == dv[i as int]);
            if i == 0 {
                assert(out@ =~= "{"@ + spec_join(dv.take(1), ","@));
            } else {
                assert(out@ =~= "{"@ + spec_join(dv.take(i as int + 1), ","@));
            }
        }
        i = i + 1;
    }
    out.append("}");
    proof {
        assert(dv.take(n as int) =~= dv);
        assert(out@ =~= spec_object(dv));
    }
    out
}

/// The JSON array of string literals for `items`.
pub fn json_string_array(items: &Vec<String>) -> (r: String)
    ensures
        r@ == json_str_array(items.deep_view()),
{
    let ghost mdv = items.deep_view().map_values(|s: Seq<char>| json_string(s));
    let mut out = String::from_str("[");
    let n: usize = items.len();
    let mut i: usize = 0;
    proof {
        assert(out@ =~= "["@ + spec_join(mdv.take(0), ","@));
    }
    while i < n
        invariant
            i <= n,
            n == items.len(),
            mdv == items.deep_view().map_values(|s: Seq<char>| json_string(s)),
            mdv.len() == n,
            out@ == "["@ + spec_join(mdv.take(i as int), ","@),
        decreases n - i,
    {
        if i > 0 {
            out.append(",");
        }
        let quoted = json_quoted(items[i].as_str());
        out.append(quoted.as_str());
        proof {
            assert(mdv.take(i as int + 1).drop_last() =~= mdv.take(i as int));
            assert(mdv.take(i as int + 1).last() == mdv[i as int]);
            if i == 0 {
                assert(out@ =~= "["@ + spec_join(mdv.take(1), ","@));
            } else {
                assert(out@ =~= "["@ + spec_join(mdv.take(i as int + 1), ","@));
            }
        }
        i = i + 1;
    }
    out.append("]");
    proof {
        assert(mdv.take(n as int) =~= mdv);
        assert(out@ =~= json_str_array(items.deep_view()));
    }
    out
}

} // verus!
