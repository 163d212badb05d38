//! Textual encodings used when building request URLs: decimal numerals,
//! application/x-www-form-urlencoded percent-encoding of query values,
//! and the compact JSON form of strings, string arrays and string
//! matrices used for structured query parameters.

use vstd::prelude::*;

use vstd::utf8::encode_scalar;
use vstd::utf8::encode_utf8;

verus! {

broadcast use vstd::string::group_string_axioms;

// ---------------------------------------------------------------------
// Decimal numerals
// ---------------------------------------------------------------------
/// The decimal digit character for a value below ten.
pub open spec fn dec_digit(d: nat) -> char
    recommends
        d < 10,
{
    if d == 0 {
        '0'
    } else if d == 1 {
        '1'
    } else if d == 2 {
        '2'
    } else if d == 3 {
        '3'
    } else if d == 4 {
        '4'
    } else if d == 5 {
        '5'
    } else if d == 6 {
        '6'
    } else if d == 7 {
        '7'
    } else if d == 8 {
        '8'
    } else {
        '9'
    }
}

/// The decimal numeral of a natural number, without leading zeros
/// (except for the single digit of zero itself).
pub open spec fn dec_str(n: nat) -> Seq<char>
    decreases n,
{
    if n < 10 {
        seq![dec_digit(n)]
    } else {
        dec_str(n / 10).push(dec_digit(n % 10))
    }
}

fn digit_str(d: u64) -> (r: &'static str)
    requires
        d < 10,
    ensures
        r@ == seq![dec_digit(d as nat)],
{
    let r: &'static str = match d {
        0 => "0",
        1 => "1",
        2 => "2",
        3 => "3",
        4 => "4",
        5 => "5",
        6 => "6",
        7 => "7",
        8 => "8",
        _ => "9",
    };
    proof {
        reveal_strlit("0");
        reveal_strlit("1");
        reveal_strlit("2");
        reveal_strlit("3");
        reveal_strlit("4");
        reveal_strlit("5");
        reveal_strlit("6");
        reveal_strlit("7");
        reveal_strlit("8");
        reveal_strlit("9");
        assert(r@ =~= seq![dec_digit(d as nat)]);
    }
    r
}

/// Renders a number as its decimal numeral.
pub fn u64_to_string(n: u64) -> (s: String)
    ensures
        s@ == dec_str(n as nat),
    decreases n,
{
    if n < 10 {
        String::from_str(digit_str(n))
    } else {
        let mut s = u64_to_string(n / 10);
        s.append(digit_str(n % 10));
        proof {
            assert(s@ =~= dec_str(n as nat));
        }
        s
    }
}

/// A decimal digit character.
pub open spec fn is_digit_char(c: char) -> bool {
    '0' <= c <= '9'
}

/// The value of a decimal digit character.
pub open spec fn digit_val(c: char) -> nat
    recommends
        is_digit_char(c),
{
    (c as u32 - 48) as nat
}

/// A non-empty string of decimal digits.
pub open spec fn is_digit_string(s: Seq<char>) -> bool {
    &&& s.len() > 0
    &&& forall|i: int| 0 <= i < s.len() ==> is_digit_char(#[trigger] s[i])
}

/// The numeric value of a string of decimal digits.
pub open spec fn dec_val(s: Seq<char>) -> nat
    decreases s.len(),
{
    if s.len() == 0 {
        0
    } else {
        dec_val(s.drop_last()) * 10 + digit_val(s.last())
    }
}

proof fn lemma_dec_val_prefix(s: Seq<char>, i: int)
    requires
        0 <= i <= s.len(),
    ensures
        dec_val(s.take(i)) <= dec_val(s),
    decreases s.len(),
{
    if i < s.len() {
        assert(s.take(i) =~= s.drop_last().take(i));
        lemma_dec_val_prefix(s.drop_last(), i);
        assert(dec_val(s.drop_last()) * 10 >= dec_val(s.drop_last())) by (nonlinear_arith);
    } else {
        assert(s.take(i) =~= s);
    }
}

proof fn lemma_acc_step_fits(a: nat, d: nat, m: nat)
    requires
        d <= m,
        a <= (m - d) / 10,
    ensures
        a * 10 + d <= m,
{
    let q = (m - d) / 10;
    assert(a * 10 <= q * 10) by (nonlinear_arith)
        requires
            a <= q,
    ;
    assert(q * 10 <= m - d) by (nonlinear_arith)
        requires
            q == (m - d) / 10,
    ;
}

proof fn lemma_acc_step_overflows(a: nat, d: nat, m: nat)
    requires
        d <= 9,
        d <= m,
        a > (m - d) / 10,
    ensures
        a * 10 + d > m,
{
    let q = (m - d) / 10;
    assert((q + 1) * 10 <= a * 10) by (nonlinear_arith)
        requires
            q + 1 <= a,
    ;
    assert(q * 10 + (m - d) % 10 == m - d) by (nonlinear_arith)
        requires
            q == (m - d) / 10,
    ;
    assert((m - d) % 10 <= 9) by (nonlinear_arith);
}

/// Parses a non-empty all-digit string as a number, if it fits.
pub fn parse_usize(s: &str) -> (r: Option<usize>)
    ensures
        r is Some <==> (is_digit_string(s@) && dec_val(s@) <= usize::MAX),
        r matches Some(v) ==> v == dec_val(s@),
{
    if !s.is_ascii() {
        proof {
            let i = choose|i: int|
                0 <= i < s@.len() && !('\0' <= #[trigger] s@[i] <= '\u{7f}');
            assert(!is_digit_char(s@[i]));
        }
        return None;
    }
    let n = s.unicode_len();
    if n == 0 {
        return None;
    }
    let mut acc: usize = 0;
    for i in 0..n
        invariant
            s.is_ascii(),
            n == s@.len(),
            forall|j: int| 0 <= j < i ==> is_digit_char(#[trigger] s@[j]),
            acc == dec_val(s@.take(i as int)),
    {
        let b = s.get_ascii(i);
        proof {
            assert('\0' <= s@[i as int] <= '\u{7f}');
            assert(s@[i as int] as u8 == b);
        }
        if b < 48 || b > 57 {
            proof {
                assert(!is_digit_char(s@[i as int]));
            }
            return None;
        }
        let d = (b - 48) as usize;
        proof {
            assert(is_digit_char(s@[i as int]) && digit_val(s@[i as int]) == d);
        }
        if acc > (usize::MAX - d) / 10 {
            proof {
                assert(s@.take(i + 1).drop_last() =~= s@.take(i as int));
                assert(s@.take(i + 1).last() == s@[i as int]);
                lemma_acc_step_overflows(acc as nat, d as nat, usize::MAX as nat);
                assert(dec_val(s@.take(i + 1)) > usize::MAX);
                lemma_dec_val_prefix(s@, i + 1);
            }
            return None;
        }
        proof {
            lemma_acc_step_fits(acc as nat, d as nat, usize::MAX as nat);
            assert(s@.take(i + 1).drop_last() =~= s@.take(i as int));
            assert(s@.take(i + 1).last() == s@[i as int]);
        }
        acc = acc * 10 + d;
    }
    proof {
        assert(s@.take(n as int) =~= s@);
    }
    Some(acc)
}

// ---------------------------------------------------------------------
// Form-urlencoding of query values
// ---------------------------------------------------------------------
/// The uppercase hexadecimal digit character for a value below sixteen.
pub open spec fn hex_upper(d: u8) -> char
    recommends
        d < 16,
{
    if d < 10 {
        dec_digit(d as nat)
    } else if d == 10 {
        'A'
    } else if d == 11 {
        'B'
    } else if d == 12 {
        'C'
    } else if d == 13 {
        'D'
    } else if d == 14 {
        'E'
    } else {
        'F'
    }
}

/// The lowercase hexadecimal digit character for a value below sixteen.
pub open spec fn hex_lower(d: u8) -> char
    recommends
        d < 16,
{
    if d < 10 {
        dec_digit(d as nat)
    } else if d == 10 {
        'a'
    } else if d == 11 {
        'b'
    } else if d == 12 {
        'c'
    } else if d == 13 {
        'd'
    } else if d == 14 {
        'e'
    } else {
        'f'
    }
}

/// Bytes that form-urlencoding passes through unchanged:
/// ASCII alphanumerics and `* - . _`.
pub open spec fn form_unchanged_byte(b: u8) -> bool {
    ||| b == 42
    ||| b == 45
    ||| b == 46
    ||| 48 <= b <= 57
    ||| 65 <= b <= 90
    ||| b == 95
    ||| 97 <= b <= 122
}

/// The form-urlencoding of a single byte: unchanged, `+` for a space,
/// or `%XX` with uppercase hexadecimal digits.
pub open spec fn form_byte(b: u8) -> Seq<char> {
    if form_unchanged_byte(b) {
        seq![((b as u32) as char)]
    } else if b == 32 {
        seq!['+']
    } else {
        seq!['%', hex_upper(b / 16), hex_upper(b % 16)]
    }
}

/// The form-urlencoding of a byte sequence.
pub open spec fn form_bytes(bs: Seq<u8>) -> Seq<char>
    decreases bs.len(),
{
    if bs.len() == 0 {
        seq![]
    } else {
        form_byte(bs[0]) + form_bytes(bs.drop_first())
    }
}

/// The form-urlencoding of a string: its UTF-8 bytes, encoded one by one.
pub open spec fn form_of(s: Seq<char>) -> Seq<char> {
    form_bytes(encode_utf8(s))
}

/// Relies on url::form_urlencoded::byte_serialize: ASCII alphanumerics
/// and `* - . _` are copied, a space becomes `+`, and every other byte
/// becomes `%XX` with uppercase hexadecimal digits.
#[verifier::external_body]
pub(crate) fn form_encode(s: &str) -> (r: String)
    ensures
        r@ == form_of(s@),
{
    url::form_urlencoded::byte_serialize(s.as_bytes()).collect()
}

/// Characters whose form-urlencoding is themselves.
pub open spec fn form_unchanged_char(c: char) -> bool {
    ||| c == '*'
    ||| c == '-'
    ||| c == '.'
    ||| '0' <= c <= '9'
    ||| 'A' <= c <= 'Z'
    ||| c == '_'
    ||| 'a' <= c <= 'z'
}

proof fn lemma_form_bytes_add(a: Seq<u8>, b: Seq<u8>)
    ensures
        form_bytes(a + b) == form_bytes(a) + form_bytes(b),
    decreases a.len(),
{
    if a.len() == 0 {
        assert(a + b =~= b);
        assert(form_bytes(a) + form_bytes(b) =~= form_bytes(b));
    } else {
        assert((a + b)[0] == a[0]);
        assert((a + b).drop_first() =~= a.drop_first() + b);
        lemma_form_bytes_add(a.drop_first(), b);
        assert(form_bytes(a + b) =~= form_bytes(a) + form_bytes(b));
    }
}

/// Form-urlencoding leaves a string of unchanged-class characters as it is.
pub proof fn lemma_form_identity(s: Seq<char>)
    requires
        forall|i: int| 0 <= i < s.len() ==> form_unchanged_char(#[trigger] s[i]),
    ensures
        form_of(s) == s,
    decreases s.len(),
{
    if s.len() == 0 {
        assert(form_of(s) =~= s);
    } else {
        let c = s[0];
        let u = c as u32;
        vstd::utf8::char_u32_cast(c, u);
        assert(u < 0x80);
        assert((u & 0x7F) == u) by (bit_vector)
            requires
                u < 0x80,
        ;
        assert(encode_scalar(u) =~= seq![(u as u8)]) by {
            assert(vstd::utf8::has_width_1_encoding(u));
        }
        assert(encode_utf8(s) == seq![(u as u8)] + encode_utf8(s.drop_first()));
        lemma_form_bytes_add(seq![(u as u8)], encode_utf8(s.drop_first()));
        assert(form_bytes(seq![(u as u8)]) =~= form_byte(u as u8)) by {
            let one = seq![(u as u8)];
            assert(one.len() == 1);
            assert(one[0] == u as u8);
            assert(one.drop_first() =~= Seq::<u8>::empty());
            assert(form_bytes(Seq::<u8>::empty()) =~= Seq::<char>::empty());
            assert(form_bytes(one) == form_byte(u as u8) + form_bytes(Seq::<u8>::empty()));
        }
        assert(form_unchanged_byte(u as u8)) by {
            assert(((u as u8) as u32) == u) by (bit_vector)
                requires
                    u < 0x80,
            ;
        }
        assert(form_byte(u as u8) =~= seq![c]) by {
            assert(((u as u8) as u32) == u) by (bit_vector)
                requires
                    u < 0x80,
            ;
        }
        lemma_form_identity(s.drop_first());
        assert(form_of(s) =~= seq![c] + form_of(s.drop_first()));
        assert(seq![c] + s.drop_first() =~= s);
    }
}

// ---------------------------------------------------------------------
// Compact JSON text of strings, string arrays and string matrices
// ---------------------------------------------------------------------
/// How a single character appears inside a JSON string literal:
/// `"` and `\` get a backslash escape, the common control characters get
/// their short escapes, other control characters get `\u00XX` with
/// lowercase hexadecimal digits, and everything else is copied.
pub open spec fn json_escape_char(c: char) -> Seq<char> {
    if c == '"' {
        seq!['\\', '"']
    } else if c == '\\' {
        seq!['\\', '\\']
    } else if c == '\u{8}' {
        seq!['\\', 'b']
    } else if c == '\u{9}' {
        seq!['\\', 't']
    } else if c == '\u{a}' {
        seq!['\\', 'n']
    } else if c == '\u{c}' {
        seq!['\\', 'f']
    } else if c == '\u{d}' {
        seq!['\\', 'r']
    } else if (c as u32) < 32 {
        let hi = (c as u32 / 16) as u8;
        let lo = (c as u32 % 16) as u8;
        seq!['\\', 'u', '0', '0', hex_lower(hi), hex_lower(lo)]
    } else {
        seq![c]
    }
}

/// The body of a JSON string literal.
pub open spec fn json_escaped(s: Seq<char>) -> Seq<char>
    decreases s.len(),
{
    if s.len() == 0 {
        seq![]
    } else {
        json_escape_char(s[0]) + json_escaped(s.drop_first())
    }
}

/// A JSON string literal.
pub open spec fn json_string(s: Seq<char>) -> Seq<char> {
    seq!['"'] + json_escaped(s) + seq!['"']
}

/// String literals joined with commas.
pub open spec fn json_items(items: Seq<Seq<char>>) -> Seq<char>
    decreases items.len(),
{
    if items.len() == 0 {
        seq![]
    } else if items.len() == 1 {
        json_string(items[0])
    } else {
        json_string(items[0]) + seq![','] + json_items(items.drop_first())
    }
}

/// The compact JSON array of string literals.
pub open spec fn json_string_array(items: Seq<Seq<char>>) -> Seq<char> {
    seq!['['] + json_items(items) + seq![']']
}

/// String arrays joined with commas.
pub open spec fn json_inner_arrays(groups: Seq<Seq<Seq<char>>>) -> Seq<char>
    decreases groups.len(),
{
    if groups.len() == 0 {
        seq![]
    } else if groups.len() == 1 {
        json_string_array(groups[0])
    } else {
        json_string_array(groups[0]) + seq![','] + json_inner_arrays(groups.drop_first())
    }
}

/// The compact JSON array of arrays of string literals.
pub open spec fn json_string_matrix(groups: Seq<Seq<Seq<char>>>) -> Seq<char> {
    seq!['['] + json_inner_arrays(groups) + seq![']']
}

/// Relies on serde_json::to_string for a vector of strings: a compact
/// JSON array of string literals, escaping `"`, `\` and control
/// characters.  Serialization of such a value cannot fail.
#[verifier::external_body]
pub(crate) fn json_of_strings(items: &Vec<String>) -> (r: String)
    ensures
        r@ == json_string_array(items.deep_view()),
{
    serde_json::to_string(items).expect("serializing strings cannot fail")
}

/// Relies on serde_json::to_string for a vector of vectors of strings:
/// a compact JSON array of arrays of string literals, with the same
/// escaping.  Serialization of such a value cannot fail.
#[verifier::external_body]
pub(crate) fn json_of_string_groups(groups: &Vec<Vec<String>>) -> (r: String)
    ensures
        r@ == json_string_matrix(groups.deep_view()),
{
    serde_json::to_string(groups).expect("serializing strings cannot fail")
}

/// The JSON text of a boolean.
pub open spec fn bool_text(b: bool) -> Seq<char> {
    if b {
        "true"@
    } else {
        "false"@
    }
}

/// Renders a boolean as its JSON text.
pub fn bool_to_string(b: bool) -> (r: String)
    ensures
        r@ == bool_text(b),
{
    if b {
        String::from_str("true")
    } else {
        String::from_str("false")
    }
}

} // verus!
