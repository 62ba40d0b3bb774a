//! Text helpers shared by the ledger: decimal numerals, case folding, JSON
//! string literals, UTF-8 bytes and substring search.

use vstd::prelude::*;
use vstd::string::*;
use crate::digest::hex_digit;

verus! {

/// The decimal digit for a value below ten.
pub open spec fn digit_char(d: nat) -> char {
    seq!['0', '1', '2', '3', '4', '5', '6', '7', '8', '9'][d as int]
}

/// The decimal numeral of a natural number, without leading zeros.
pub open spec fn decimal(n: nat) -> Seq<char>
    decreases n,
{
    if n < 10 {
        seq![digit_char(n)]
    } else {
        decimal(n / 10).push(digit_char(n % 10))
    }
}

/// The value of a decimal digit.
pub open spec fn digit_value(c: char) -> nat {
    (c as u32 - '0' as u32) as nat
}

/// The number that a decimal numeral spells.
pub open spec fn decimal_value(s: Seq<char>) -> nat
    decreases s.len(),
{
    if s.len() == 0 {
        0
    } else {
        decimal_value(s.drop_last()) * 10 + digit_value(s.last())
    }
}

/// A decimal digit is no hyphen and no line break, and has the value it
/// was made from.
pub proof fn lemma_digit_char(d: nat)
    requires
        d < 10,
    ensures
        digit_char(d) != '-',
        digit_char(d) != '\n',
        digit_char(d) != '\r',
        digit_value(digit_char(d)) == d,
{
    assert(d == 0 || d == 1 || d == 2 || d == 3 || d == 4 || d == 5 || d == 6 || d == 7 || d == 8
        || d == 9);
}

/// A decimal numeral is not empty, holds no hyphen, and spells the number
/// it was made from.
pub proof fn lemma_decimal(n: nat)
    ensures
        decimal(n).len() > 0,
        forall|k: int| 0 <= k < decimal(n).len() ==> decimal(n)[k] != '-',
        decimal_value(decimal(n)) == n,
    decreases n,
{
    if n < 10 {
        lemma_digit_char(n);
        let s = decimal(n);
        assert(s.drop_last() =~= Seq::<char>::empty());
        assert(decimal_value(s.drop_last()) == 0);
    } else {
        lemma_decimal(n / 10);
        lemma_digit_char(n % 10);
        let s = decimal(n);
        assert(s.drop_last() =~= decimal(n / 10));
        assert(s.last() == digit_char(n % 10));
    }
}

/// Different numbers have different decimal numerals.
pub proof fn lemma_decimal_injective(a: nat, b: nat)
    requires
        decimal(a) == decimal(b),
    ensures
        a == b,
{
    lemma_decimal(a);
    lemma_decimal(b);
}

/// A text that ends in a hyphen and a run without hyphens ends so in one way
/// only: the run behind the last hyphen is determined.
pub proof fn lemma_hyphen_suffix(t1: Seq<char>, d1: Seq<char>, t2: Seq<char>, d2: Seq<char>)
    requires
        t1 + seq!['-'] + d1 == t2 + seq!['-'] + d2,
        forall|k: int| 0 <= k < d1.len() ==> d1[k] != '-',
        forall|k: int| 0 <= k < d2.len() ==> d2[k] != '-',
    ensures
        d1 == d2,
        t1 == t2,
{
    let s1 = t1 + seq!['-'] + d1;
    let s2 = t2 + seq!['-'] + d2;
    assert(s1.len() == t1.len() + 1 + d1.len());
    assert(s2.len() == t2.len() + 1 + d2.len());
    assert(s1[t1.len() as int] == '-');
    assert(s2[t2.len() as int] == '-');
    if t1.len() > t2.len() {
        let p: int = t1.len() as int;
        assert(s2[p] == d2[p - t2.len() - 1]);
        assert(false);
    }
    if t2.len() > t1.len() {
        let p: int = t2.len() as int;
        assert(s1[p] == d1[p - t1.len() - 1]);
        assert(false);
    }
    assert(t1 =~= s1.subrange(0, t1.len() as int));
    assert(t2 =~= s2.subrange(0, t2.len() as int));
    assert(d1 =~= s1.subrange(t1.len() as int + 1, s1.len() as int));
    assert(d2 =~= s2.subrange(t2.len() as int + 1, s2.len() as int));
}

/// The lower-case form of a text, as `str::to_lowercase` computes it.
pub uninterp spec fn lowercase(s: Seq<char>) -> Seq<char>;

/// How a character stands inside a JSON string literal: the double quote
/// and the backslash behind a backslash, the control characters below the
/// space by their short escapes or as `\u00` and two hexadecimal digits, and
/// every other character as itself.
pub open spec fn json_escape(c: char) -> Seq<char> {
    if c == '"' {
        seq!['\\', '"']
    } else if c == '\\' {
        seq!['\\', '\\']
    } else if c == '\u{8}' {
        seq!['\\', 'b']
    } else if c == '\u{c}' {
        seq!['\\', 'f']
    } else if c == '\n' {
        seq!['\\', 'n']
    } else if c == '\r' {
        seq!['\\', 'r']
    } else if c == '\t' {
        seq!['\\', 't']
    } else if (c as u32) < 32 {
        seq!['\\', 'u', '0', '0', hex_digit(c as u32 as int / 16), hex_digit(c as u32 as int % 16)]
    } else {
        seq![c]
    }
}

/// The JSON string literal for a text: its characters, each as
/// `json_escape` gives it, between double quotes.
pub open spec fn json_string(s: Seq<char>) -> Seq<char> {
    seq!['"'] + s.map_values(|c: char| json_escape(c)).flatten() + seq!['"']
}

/// A list of texts as `Debug` shows it: between square brackets, each text
/// quoted and escaped, with a comma and a space between neighbours.
pub uninterp spec fn debug_list(items: Seq<Seq<char>>) -> Seq<char>;

/// The UTF-8 encoding of a text.
pub open spec fn utf8(s: Seq<char>) -> Seq<u8> {
    vstd::utf8::encode_utf8(s)
}

/// `needle` occurs in `hay` at offset `at`.
pub open spec fn occurs_at(hay: Seq<u8>, needle: Seq<u8>, at: int) -> bool {
    &&& 0 <= at
    &&& at + needle.len() <= hay.len()
    &&& hay.subrange(at, at + needle.len()) == needle
}

/// `needle` occurs somewhere in `hay` as a contiguous run of bytes.
pub open spec fn contains_bytes(hay: Seq<u8>, needle: Seq<u8>) -> bool {
    exists|at: int| occurs_at(hay, needle, at)
}

/// `needle` is a substring of `hay`, compared on their UTF-8 bytes.
pub open spec fn contains_text(hay: Seq<char>, needle: Seq<char>) -> bool {
    contains_bytes(utf8(hay), utf8(needle))
}

/// The encoding of two texts, one after the other, is the encoding of the
/// first followed by that of the second.
pub proof fn lemma_utf8_concat(a: Seq<char>, b: Seq<char>)
    ensures
        utf8(a + b) == utf8(a) + utf8(b),
    decreases a.len(),
{
    if a.len() == 0 {
        assert(a + b =~= b);
        assert(utf8(a) + utf8(b) =~= utf8(b));
    } else {
        assert((a + b)[0] == a[0]);
        assert((a + b).drop_first() =~= a.drop_first() + b);
        lemma_utf8_concat(a.drop_first(), b);
        assert(utf8(a + b) =~= utf8(a) + utf8(b));
    }
}

/// Different texts have different encodings.
pub proof fn lemma_utf8_injective(a: Seq<char>, b: Seq<char>)
    requires
        utf8(a) == utf8(b),
    ensures
        a == b,
{
    vstd::utf8::encode_utf8_decode_utf8(a);
    vstd::utf8::encode_utf8_decode_utf8(b);
}

/// The texts held by a sequence of strings.
pub open spec fn texts(v: Seq<String>) -> Seq<Seq<char>> {
    Seq::new(v.len(), |i: int| v[i]@)
}

/// The text held by an optional string.
pub open spec fn opt_text(o: Option<String>) -> Option<Seq<char>> {
    match o {
        Some(s) => Some(s@),
        None => None,
    }
}

/// The text of an optional string slice.
pub open spec fn opt_str_text(o: Option<&str>) -> Option<Seq<char>> {
    match o {
        Some(s) => Some(s@),
        None => None,
    }
}

/// The items written one after another, with `sep` between neighbours.
pub open spec fn join(items: Seq<Seq<char>>, sep: Seq<char>) -> Seq<char>
    decreases items.len(),
{
    if items.len() == 0 {
        Seq::empty()
    } else if items.len() == 1 {
        items[0]
    } else {
        join(items.drop_last(), sep) + sep + items.last()
    }
}

/// A JSON array whose elements are the given JSON texts.
pub open spec fn json_array(items: Seq<Seq<char>>) -> Seq<char> {
    "["@ + join(items, ","@) + "]"@
}

/// The position of the first of the first `n` terms that occurs in `hay`, if
/// there is one.
pub open spec fn first_contained_in(hay: Seq<char>, terms: Seq<Seq<char>>, n: nat) -> Option<int>
    decreases n,
{
    if n == 0 {
        None
    } else {
        match first_contained_in(hay, terms, (n - 1) as nat) {
            Some(k) => Some(k),
            None => if contains_text(hay, terms[n - 1]) {
                Some(n - 1)
            } else {
                None
            },
        }
    }
}

/// The position of the first term that occurs in `hay`, if there is one.
pub open spec fn first_contained(hay: Seq<char>, terms: Seq<Seq<char>>) -> Option<int> {
    first_contained_in(hay, terms, terms.len())
}

/// `first_contained_in` finds a term that occurs in `hay` before which none
/// occurs, and finds none only when none of the first `n` occurs.
pub proof fn lemma_first_contained_in(hay: Seq<char>, terms: Seq<Seq<char>>, n: nat)
    requires
        n <= terms.len(),
    ensures
        match first_contained_in(hay, terms, n) {
            Some(k) => 0 <= k < n && contains_text(hay, terms[k]) && forall|j: int|
                0 <= j < k ==> !contains_text(hay, #[trigger] terms[j]),
            None => forall|j: int| 0 <= j < n ==> !contains_text(hay, #[trigger] terms[j]),
        },
    decreases n,
{
    if n > 0 {
        lemma_first_contained_in(hay, terms, (n - 1) as nat);
    }
}

/// `prefix` stands at the start of `hay`, compared on their UTF-8 bytes.
pub open spec fn has_prefix(hay: Seq<char>, prefix: Seq<char>) -> bool {
    occurs_at(utf8(hay), utf8(prefix), 0)
}

/// The text holds neither a line feed nor a carriage return.
pub open spec fn single_line(s: Seq<char>) -> bool {
    forall|i: int| 0 <= i < s.len() ==> #[trigger] s[i] != '\n' && s[i] != '\r'
}

/// The bytes hold neither a line feed nor a carriage return.
pub open spec fn single_line_bytes(b: Seq<u8>) -> bool {
    forall|i: int| 0 <= i < b.len() ==> #[trigger] b[i] != 10 && b[i] != 13
}

proof fn lemma_scalar_single_line(c: u32)
    requires
        c != 10,
        c != 13,
    ensures
        single_line_bytes(vstd::utf8::encode_scalar(c)),
{
    assert(c <= 0x7F ==> (c & 0x7F) as u8 != 10 && (c & 0x7F) as u8 != 13) by (bit_vector)
        requires
            c != 10,
            c != 13,
    ;
    assert(0xC0u8 | ((c >> 6) & 0x1F) as u8 >= 0x80) by (bit_vector);
    assert(0xE0u8 | ((c >> 12) & 0x0F) as u8 >= 0x80) by (bit_vector);
    assert(0xF0u8 | ((c >> 18) & 0x7) as u8 >= 0x80) by (bit_vector);
    assert(0x80u8 | (c & 0x3F) as u8 >= 0x80) by (bit_vector);
    assert(0x80u8 | ((c >> 6) & 0x3F) as u8 >= 0x80) by (bit_vector);
    assert(0x80u8 | ((c >> 12) & 0x3F) as u8 >= 0x80) by (bit_vector);
}

/// The UTF-8 encoding of a text without line breaks holds no line break.
pub proof fn lemma_utf8_single_line(s: Seq<char>)
    requires
        single_line(s),
    ensures
        single_line_bytes(utf8(s)),
    decreases s.len(),
{
    if s.len() > 0 {
        let c = s[0];
        assert(c != '\n' && c != '\r');
        vstd::utf8::char_u32_cast(c, c as u32);
        vstd::utf8::char_u32_cast('\n', 10u32);
        vstd::utf8::char_u32_cast('\r', 13u32);
        lemma_scalar_single_line(c as u32);
        let rest = s.drop_first();
        assert forall|i: int| 0 <= i < rest.len() implies #[trigger] rest[i] != '\n' && rest[i]
            != '\r' by {
            assert(rest[i] == s[i + 1]);
        }
        lemma_utf8_single_line(rest);
    }
}

/// The character is no line break.
pub open spec fn no_break(c: char) -> bool {
    c != '\n' && c != '\r'
}

/// A text of at most sixteen characters, none of them a line break, holds
/// no line break. It serves for string literals, whose characters are known
/// one by one.
pub proof fn lemma_short_single_line(s: Seq<char>)
    requires
        s.len() <= 16,
        s.len() > 0 ==> no_break(s[0]),
        s.len() > 1 ==> no_break(s[1]),
        s.len() > 2 ==> no_break(s[2]),
        s.len() > 3 ==> no_break(s[3]),
        s.len() > 4 ==> no_break(s[4]),
        s.len() > 5 ==> no_break(s[5]),
        s.len() > 6 ==> no_break(s[6]),
        s.len() > 7 ==> no_break(s[7]),
        s.len() > 8 ==> no_break(s[8]),
        s.len() > 9 ==> no_break(s[9]),
        s.len() > 10 ==> no_break(s[10]),
        s.len() > 11 ==> no_break(s[11]),
        s.len() > 12 ==> no_break(s[12]),
        s.len() > 13 ==> no_break(s[13]),
        s.len() > 14 ==> no_break(s[14]),
        s.len() > 15 ==> no_break(s[15]),
    ensures
        single_line(s),
{
    assert forall|i: int| 0 <= i < s.len() implies #[trigger] s[i] != '\n' && s[i] != '\r' by {
        assert(i == 0 || i == 1 || i == 2 || i == 3 || i == 4 || i == 5 || i == 6 || i == 7 || i == 8 || i == 9 || i == 10 || i == 11 || i == 12 || i == 13 || i == 14 || i == 15);
    }
}

/// A decimal numeral holds no line break.
pub proof fn lemma_decimal_single_line(n: nat)
    ensures
        single_line(decimal(n)),
    decreases n,
{
    if n < 10 {
        lemma_digit_char(n);
    } else {
        lemma_decimal_single_line(n / 10);
        lemma_digit_char(n % 10);
    }
}

/// The escape of a character holds no line break.
pub proof fn lemma_json_escape_single_line(c: char)
    ensures
        single_line(json_escape(c)),
{
    let n: int = c as u32 as int;
    if n < 32 {
        let hi: int = n / 16;
        let lo: int = n % 16;
        assert(hi == 0 || hi == 1);
        assert(lo == 0 || lo == 1 || lo == 2 || lo == 3 || lo == 4 || lo == 5 || lo == 6 || lo == 7
            || lo == 8 || lo == 9 || lo == 10 || lo == 11 || lo == 12 || lo == 13 || lo == 14 || lo
            == 15);
        assert(hex_digit(hi) != '\n' && hex_digit(hi) != '\r');
        assert(hex_digit(lo) != '\n' && hex_digit(lo) != '\r');
    }
}

/// Texts without line breaks, written one after another, hold no line break.
pub proof fn lemma_flatten_single_line(parts: Seq<Seq<char>>)
    requires
        forall|i: int| 0 <= i < parts.len() ==> single_line(#[trigger] parts[i]),
    ensures
        single_line(parts.flatten()),
    decreases parts.len(),
{
    if parts.len() > 0 {
        let rest = parts.drop_first();
        assert forall|i: int| 0 <= i < rest.len() implies single_line(#[trigger] rest[i]) by {
            assert(rest[i] == parts[i + 1]);
        }
        lemma_flatten_single_line(rest);
        assert(single_line(parts.first()));
    }
}

/// A JSON string literal holds no line break, whatever the text.
pub proof fn lemma_json_string_single_line(s: Seq<char>)
    ensures
        single_line(json_string(s)),
{
    let parts = s.map_values(|c: char| json_escape(c));
    assert forall|i: int| 0 <= i < parts.len() implies single_line(#[trigger] parts[i]) by {
        lemma_json_escape_single_line(s[i]);
    }
    lemma_flatten_single_line(parts);
}

/// Texts without line breaks, joined by such a text, hold no line break.
pub proof fn lemma_join_single_line(items: Seq<Seq<char>>, sep: Seq<char>)
    requires
        forall|i: int| 0 <= i < items.len() ==> single_line(#[trigger] items[i]),
        single_line(sep),
    ensures
        single_line(join(items, sep)),
    decreases items.len(),
{
    if items.len() > 1 {
        let front = items.drop_last();
        assert forall|i: int| 0 <= i < front.len() implies single_line(#[trigger] front[i]) by {
            assert(front[i] == items[i]);
        }
        lemma_join_single_line(front, sep);
        assert(single_line(items.last()));
    } else if items.len() == 1 {
        assert(single_line(items[0]));
    }
}

/// A JSON array of texts without line breaks holds no line break.
pub proof fn lemma_json_array_single_line(items: Seq<Seq<char>>)
    requires
        forall|i: int| 0 <= i < items.len() ==> single_line(#[trigger] items[i]),
    ensures
        single_line(json_array(items)),
{
    reveal_strlit("[");
    reveal_strlit(",");
    reveal_strlit("]");
    lemma_join_single_line(items, ","@);
}

/// Calls `str::to_lowercase`. Trusted: the result is the named lower-case
/// form of the input.
#[verifier::external_body]
pub(crate) fn to_lowercase(s: &str) -> (out: String)
    ensures
        out@ == lowercase(s@),
{
    s.to_lowercase()
}

/// Formats a list of strings with `Debug`, as `format!("{:?}", ..)` does.
/// Trusted: the result is the named text of the list.
#[verifier::external_body]
pub(crate) fn debug_list_of(items: &Vec<String>) -> (out: String)
    ensures
        out@ == debug_list(texts(items@)),
{
    format!("{:?}", items)
}

/// Calls `std::str::from_utf8` and tells success from failure. Trusted: it
/// succeeds exactly on bytes that are valid UTF-8.
#[verifier::external_body]
pub(crate) fn is_utf8(bytes: &[u8]) -> (ok: bool)
    ensures
        ok == vstd::utf8::valid_utf8(bytes@),
{
    std::str::from_utf8(bytes).is_ok()
}

/// Calls `serde_json::to_string` on a string slice. Trusted: the result is
/// the JSON literal of the input, escaped as `json_escape` says. Writing a
/// string into memory cannot fail, so the fallback is never taken.
#[verifier::external_body]
pub(crate) fn json_string_of(s: &str) -> (out: String)
    ensures
        out@ == json_string(s@),
{
    serde_json::to_string(s).unwrap_or_default()
}

fn digit_str(d: u64) -> (s: &'static str)
    requires
        d < 10,
    ensures
        s@ == seq![digit_char(d as nat)],
{
    proof {
        reveal_strlit("0");
        reveal_strlit("1");
        reveal_strlit("2");
        reveal_strlit("3");
        reveal_strlit("4");
        reveal_strlit("5");
        reveal_strlit("6");
        reveal_strlit("7");
        reveal_strlit("8");
        reveal_strlit("9");
    }
    let s = if d == 0 {
        "0"
    } else if d == 1 {
        "1"
    } else if d == 2 {
        "2"
    } else if d == 3 {
        "3"
    } else if d == 4 {
        "4"
    } else if d == 5 {
        "5"
    } else if d == 6 {
        "6"
    } else if d == 7 {
        "7"
    } else if d == 8 {
        "8"
    } else {
        "9"
    };
    assert(s@ =~= seq![digit_char(d as nat)]);
    s
}

/// The decimal numeral of `n`.
pub fn decimal_string(n: u64) -> (out: String)
    ensures
        out@ == decimal(n as nat),
    decreases n,
{
    if n < 10 {
        String::from_str(digit_str(n))
    } else {
        let mut out = decimal_string(n / 10);
        out.append(digit_str(n % 10));
        assert(out@ =~= decimal((n / 10) as nat).push(digit_char((n % 10) as nat)));
        out
    }
}

/// Whether `needle` occurs in `hay` at offset `at`.
fn matches_at(hay: &[u8], needle: &[u8], at: usize) -> (found: bool)
    requires
        at + needle@.len() <= hay@.len(),
    ensures
        found == occurs_at(hay@, needle@, at as int),
{
    let total: usize = hay.len();
    let mut k: usize = 0;
    while k < needle.len()
        invariant
            k <= needle@.len(),
            at + needle@.len() <= hay@.len() == total,
            forall|j: int| 0 <= j < k ==> hay@[at + j] == needle@[j],
        decreases needle@.len() - k,
    {
        if hay[at + k] != needle[k] {
            assert(hay@.subrange(at as int, at + needle@.len())[k as int] == hay@[at + k]);
            return false;
        }
        k += 1;
    }
    assert(hay@.subrange(at as int, at + needle@.len()) =~= needle@);
    true
}

/// Whether `needle` occurs in `hay` as a contiguous run of bytes.
pub fn bytes_contain(hay: &[u8], needle: &[u8]) -> (found: bool)
    ensures
        found == contains_bytes(hay@, needle@),
{
    if needle.len() > hay.len() {
        return false;
    }
    let last: usize = hay.len() - needle.len();
    let mut at: usize = 0;
    while at < last
        invariant
            at <= last,
            last == hay@.len() - needle@.len(),
            forall|j: int| 0 <= j < at ==> !occurs_at(hay@, needle@, j),
        decreases last - at,
    {
        if matches_at(hay, needle, at) {
            return true;
        }
        at += 1;
    }
    matches_at(hay, needle, last)
}

/// Whether `needle` is a substring of `hay`.
pub fn text_contains(hay: &str, needle: &str) -> (found: bool)
    ensures
        found == contains_text(hay@, needle@),
{
    bytes_contain(hay.as_bytes(), needle.as_bytes())
}

/// Whether two texts are the same.
pub fn same_text(a: &str, b: &str) -> (same: bool)
    ensures
        same == (a@ == b@),
{
    let x = String::from_str(a);
    let y = String::from_str(b);
    x == y
}

/// Whether `prefix` stands at the start of `hay`.
pub fn text_starts_with(hay: &str, prefix: &str) -> (found: bool)
    ensures
        found == has_prefix(hay@, prefix@),
{
    let h = hay.as_bytes();
    let p = prefix.as_bytes();
    if p.len() > h.len() {
        return false;
    }
    matches_at(h, p, 0)
}

/// Finds the first term that occurs in `hay`.
pub fn find_first_contained(hay: &str, terms: &Vec<String>) -> (found: Option<usize>)
    ensures
        match found {
            Some(k) => first_contained(hay@, texts(terms@)) == Some(k as int) && k < terms@.len(),
            None => first_contained(hay@, texts(terms@)) is None,
        },
{
    let mut i: usize = 0;
    while i < terms.len()
        invariant
            i <= terms@.len(),
            first_contained_in(hay@, texts(terms@), i as nat) is None,
        decreases terms@.len() - i,
    {
        assert(texts(terms@)[i as int] == terms@[i as int]@);
        if text_contains(hay, terms[i].as_str()) {
            proof {
                lemma_first_found_is_kept(hay@, texts(terms@), i as nat + 1, terms@.len());
            }
            return Some(i);
        }
        i += 1;
    }
    None
}

proof fn lemma_first_found_is_kept(hay: Seq<char>, terms: Seq<Seq<char>>, n: nat, m: nat)
    requires
        n <= m,
        first_contained_in(hay, terms, n) is Some,
    ensures
        first_contained_in(hay, terms, m) == first_contained_in(hay, terms, n),
    decreases m,
{
    if n < m {
        lemma_first_found_is_kept(hay, terms, n, (m - 1) as nat);
    }
}

/// Joins the items with `sep` between neighbours.
pub fn join_strings(items: &Vec<String>, sep: &str) -> (out: String)
    ensures
        out@ == join(texts(items@), sep@),
{
    let mut out = String::new();
    let mut i: usize = 0;
    while i < items.len()
        invariant
            i <= items@.len(),
            out@ == join(texts(items@).take(i as int), sep@),
        decreases items@.len() - i,
    {
        proof {
            let prev = texts(items@).take(i as int);
            let cur = texts(items@).take(i + 1);
            assert(cur.drop_last() =~= prev);
            assert(cur.last() == items@[i as int]@);
            if i == 0 {
                assert(out@ =~= Seq::<char>::empty());
                assert(Seq::<char>::empty() + items@[0]@ =~= items@[0]@);
            }
        }
        if i > 0 {
            out.append(sep);
        }
        out.append(items[i].as_str());
        i += 1;
    }
    assert(texts(items@).take(items@.len() as int) =~= texts(items@));
    out
}

/// Writes a JSON array whose elements are the given JSON texts.
pub fn json_array_text(items: &Vec<String>) -> (out: String)
    ensures
        out@ == json_array(texts(items@)),
{
    let mut out = String::from_str("[");
    out.append(join_strings(items, ",").as_str());
    out.append("]");
    out
}

} // verus!
