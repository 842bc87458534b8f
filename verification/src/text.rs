//! Texts as sequences of characters, and the operations on them that the rest of the library
//! is built from.

use vstd::prelude::*;
use vstd::string::StringExecFns;
use vstd::utf8::encode_utf8;
use crate::outside::{is_white_space, white_space};

verus! {

/// `String::push` of the standard library appends one character.
pub assume_specification[ String::push ](s: &mut String, c: char)
    ensures
        final(s)@ == old(s)@.push(c),
;

// ---------------------------------------------------------------------------------------------
// Characters and texts
// ---------------------------------------------------------------------------------------------

/// Whether two texts hold the same characters.
pub fn same_text(a: &str, b: &str) -> (r: bool)
    ensures
        r == (a@ == b@),
{
    proof {
        vstd::utf8::encode_utf8_decode_utf8(a@);
        vstd::utf8::encode_utf8_decode_utf8(b@);
    }
    same_bytes(a.as_bytes(), b.as_bytes())
}

/// Whether two byte strings are the same.
pub fn same_bytes(x: &[u8], y: &[u8]) -> (r: bool)
    ensures
        r == (x@ == y@),
{
    if x.len() != y.len() {
        return false;
    }
    let mut i: usize = 0;
    while i < x.len()
        invariant
            i <= x.len(),
            x.len() == y.len(),
            forall|j: int| 0 <= j < i ==> x@[j] == y@[j],
        decreases x.len() - i,
    {
        if x[i] != y[i] {
            return false;
        }
        i += 1;
    }
    assert(x@ =~= y@);
    true
}

/// The characters of a text.
pub fn chars_of(s: &str) -> (r: Vec<char>)
    ensures
        r@ == s@,
{
    let mut out: Vec<char> = Vec::new();
    for c in it: s.chars()
        invariant
            out@ == it.seq().take(it.index() as int),
            it.seq() == s@,
    {
        out.push(c);
    }
    assert(out@ =~= s@);
    out
}

/// The text made of the characters from `from` up to `to`.
pub fn text_between(chars: &Vec<char>, from: usize, to: usize) -> (r: String)
    requires
        from <= to <= chars.len(),
    ensures
        r@ == chars@.subrange(from as int, to as int),
{
    let mut out = String::new();
    let mut i: usize = from;
    while i < to
        invariant
            from <= i <= to <= chars.len(),
            out@ == chars@.subrange(from as int, i as int),
        decreases to - i,
    {
        out.push(chars[i]);
        i += 1;
        assert(chars@.subrange(from as int, i as int) =~= chars@.subrange(
            from as int,
            i - 1,
        ).push(chars@[i - 1]));
    }
    out
}

/// One text after another.
pub fn join(a: &str, b: &str) -> (r: String)
    ensures
        r@ == a@ + b@,
{
    let mut out = a.to_owned();
    out.append(b);
    out
}

/// Three texts in a row.
pub fn join3(a: &str, b: &str, c: &str) -> (r: String)
    ensures
        r@ == a@ + b@ + c@,
{
    let mut out = a.to_owned();
    out.append(b);
    out.append(c);
    out
}

/// Whether a text begins with another one.
pub fn starts_with(s: &str, prefix: &str) -> (r: bool)
    ensures
        r == prefix@.is_prefix_of(s@),
{
    let c = chars_of(s);
    let p = chars_of(prefix);
    if p.len() > c.len() {
        return false;
    }
    let mut i: usize = 0;
    while i < p.len()
        invariant
            i <= p.len() <= c.len(),
            c@ == s@,
            p@ == prefix@,
            forall|j: int| 0 <= j < i ==> c@[j] == p@[j],
        decreases p.len() - i,
    {
        if c[i] != p[i] {
            assert(p@[i as int] != c@.subrange(0, p@.len() as int)[i as int]);
            return false;
        }
        i += 1;
    }
    assert(p@ =~= c@.subrange(0, p@.len() as int));
    true
}

/// Whether a list of texts holds a text.
pub open spec fn holds(list: Seq<String>, s: Seq<char>) -> bool {
    exists|i: int| 0 <= i < list.len() && (#[trigger] list[i])@ == s
}

/// Whether a list of texts holds a text.
pub fn list_holds(list: &Vec<String>, s: &str) -> (r: bool)
    ensures
        r == holds(list@, s@),
{
    let mut i: usize = 0;
    while i < list.len()
        invariant
            i <= list.len(),
            forall|j: int| 0 <= j < i ==> (#[trigger] list@[j])@ != s@,
        decreases list.len() - i,
    {
        if same_text(list[i].as_str(), s) {
            return true;
        }
        i += 1;
    }
    false
}

/// What a list of texts says, text by text.
pub open spec fn texts(list: Seq<String>) -> Seq<Seq<char>> {
    list.map_values(|s: String| s@)
}

/// Whether two lists of texts say the same.
pub fn same_texts(a: &Vec<String>, b: &Vec<String>) -> (r: bool)
    ensures
        r == (texts(a@) == texts(b@)),
{
    if a.len() != b.len() {
        assert(texts(a@).len() != texts(b@).len());
        return false;
    }
    let mut i: usize = 0;
    while i < a.len()
        invariant
            i <= a.len() == b.len(),
            forall|j: int| 0 <= j < i ==> (#[trigger] a@[j])@ == b@[j]@,
        decreases a.len() - i,
    {
        if !same_text(a[i].as_str(), b[i].as_str()) {
            assert(texts(a@)[i as int] != texts(b@)[i as int]);
            return false;
        }
        i += 1;
    }
    assert(texts(a@) =~= texts(b@));
    true
}

/// A second list of the same texts.
pub fn copy_texts(a: &Vec<String>) -> (r: Vec<String>)
    ensures
        texts(r@) == texts(a@),
{
    let mut out: Vec<String> = Vec::new();
    let mut i: usize = 0;
    while i < a.len()
        invariant
            i <= a.len(),
            out.len() == i,
            forall|j: int| 0 <= j < i ==> (#[trigger] out@[j])@ == a@[j]@,
        decreases a.len() - i,
    {
        out.push(a[i].clone());
        i += 1;
    }
    assert(texts(out@) =~= texts(a@));
    out
}

// ---------------------------------------------------------------------------------------------
// ASCII case
// ---------------------------------------------------------------------------------------------

/// The lower-case form of an ASCII letter; any other character as it is.
pub open spec fn lower(c: char) -> char {
    if 'A' <= c && c <= 'Z' {
        ((c as u8) + 32) as char
    } else {
        c
    }
}

/// A text with its ASCII letters in lower case.
pub open spec fn ascii_lower(s: Seq<char>) -> Seq<char> {
    s.map_values(|c: char| lower(c))
}

fn lower_char(c: char) -> (r: char)
    ensures
        r == lower(c),
{
    if 'A' <= c && c <= 'Z' {
        ((c as u8) + 32) as char
    } else {
        c
    }
}

/// A text with its ASCII letters in lower case.
pub fn to_ascii_lowercase(s: &str) -> (r: String)
    ensures
        r@ == ascii_lower(s@),
{
    let mut out = String::new();
    for c in it: s.chars()
        invariant
            out@ == ascii_lower(it.seq().take(it.index() as int)),
            it.seq() == s@,
    {
        out.push(lower_char(c));
        assert(ascii_lower(s@.take(it.index() + 1)) =~= ascii_lower(
            s@.take(it.index() as int),
        ).push(lower(s@[it.index() as int])));
    }
    assert(s@.take(s@.len() as int) =~= s@);
    out
}

/// Whether two texts are the same up to the case of ASCII letters.
pub fn eq_ignore_ascii_case(a: &str, b: &str) -> (r: bool)
    ensures
        r == (ascii_lower(a@) == ascii_lower(b@)),
        r == (a@.len() == b@.len() && forall|i: int|
            0 <= i < a@.len() ==> {
                ||| #[trigger] a@[i] == b@[i]
                ||| 'A' <= a@[i] <= 'Z' && b@[i] as int == a@[i] as int + 32
                ||| 'A' <= b@[i] <= 'Z' && a@[i] as int == b@[i] as int + 32
            }),
{
    proof {
        law_same_up_to_case(a@, b@);
    }
    same_text(to_ascii_lowercase(a).as_str(), to_ascii_lowercase(b).as_str())
}

/// Lower case stays as it is.
pub proof fn lemma_lower_twice(s: Seq<char>)
    ensures
        ascii_lower(ascii_lower(s)) == ascii_lower(s),
{
    assert(ascii_lower(ascii_lower(s)) =~= ascii_lower(s));
}

// ---------------------------------------------------------------------------------------------
// White space and hexadecimal digits
// ---------------------------------------------------------------------------------------------

/// A text without the white space at its beginning.
pub open spec fn trim_start(s: Seq<char>) -> Seq<char>
    decreases s.len(),
{
    if s.len() > 0 && white_space(s[0]) {
        trim_start(s.drop_first())
    } else {
        s
    }
}

/// A text without the white space at its end.
pub open spec fn trim_end(s: Seq<char>) -> Seq<char>
    decreases s.len(),
{
    if s.len() > 0 && white_space(s.last()) {
        trim_end(s.drop_last())
    } else {
        s
    }
}

/// A text without the white space at its beginning and at its end.
pub open spec fn trimmed(s: Seq<char>) -> Seq<char> {
    trim_end(trim_start(s))
}

/// A text without the white space at its beginning and at its end.
pub fn trim(s: &str) -> (r: String)
    ensures
        r@ == trimmed(s@),
{
    let chars = chars_of(s);
    let mut from: usize = 0;
    assert(s@.skip(0) =~= s@);
    while from < chars.len() && is_white_space(chars[from])
        invariant
            from <= chars.len(),
            chars@ == s@,
            trim_start(s@) == trim_start(s@.skip(from as int)),
        decreases chars.len() - from,
    {
        assert(s@.skip(from as int).drop_first() =~= s@.skip(from + 1));
        from += 1;
    }
    assert(trim_start(s@) =~= s@.skip(from as int));
    let mut to: usize = chars.len();
    assert(s@.subrange(from as int, to as int) =~= s@.skip(from as int));
    while to > from && is_white_space(chars[to - 1])
        invariant
            from <= to <= chars.len(),
            chars@ == s@,
            trimmed(s@) == trim_end(s@.subrange(from as int, to as int)),
        decreases to,
    {
        assert(s@.subrange(from as int, to as int).drop_last() =~= s@.subrange(
            from as int,
            to - 1,
        ));
        to -= 1;
    }
    text_between(&chars, from, to)
}

/// A text with each occurrence of a pattern replaced, from left to right.
pub open spec fn replaced_all(s: Seq<char>, pattern: Seq<char>, with: Seq<char>) -> Seq<char>
    decreases s.len(),
{
    if s.len() == 0 || pattern.len() == 0 {
        s
    } else if pattern.is_prefix_of(s) {
        with + replaced_all(s.skip(pattern.len() as int), pattern, with)
    } else {
        seq![s[0]] + replaced_all(s.skip(1), pattern, with)
    }
}

/// Whether a pattern stands at a place in a text.
fn stands_at(s: &Vec<char>, at: usize, pattern: &Vec<char>) -> (r: bool)
    requires
        at <= s.len(),
    ensures
        r == pattern@.is_prefix_of(s@.skip(at as int)),
{
    if s.len() - at < pattern.len() {
        return false;
    }
    let mut i: usize = 0;
    while i < pattern.len()
        invariant
            i <= pattern.len(),
            at + pattern.len() <= s.len(),
            forall|j: int| 0 <= j < i ==> pattern@[j] == s@.skip(at as int)[j],
        decreases pattern.len() - i,
    {
        if s[at + i] != pattern[i] {
            assert(pattern@[i as int] != s@.skip(at as int)[i as int]);
            return false;
        }
        i += 1;
    }
    assert(pattern@ =~= s@.skip(at as int).subrange(0, pattern@.len() as int));
    true
}

/// A text with each occurrence of a pattern replaced, from left to right.
pub fn replace_all(s: &str, pattern: &str, with: &str) -> (r: String)
    requires
        pattern@.len() > 0,
    ensures
        r@ == replaced_all(s@, pattern@, with@),
{
    let chars = chars_of(s);
    let sought = chars_of(pattern);
    let mut r = String::new();
    let mut i: usize = 0;
    assert(s@.skip(0) =~= s@);
    assert(r@ + replaced_all(s@.skip(0), pattern@, with@) =~= replaced_all(s@, pattern@, with@));
    while i < chars.len()
        invariant
            i <= chars.len(),
            chars@ == s@,
            sought@ == pattern@,
            pattern@.len() > 0,
            replaced_all(s@, pattern@, with@) == r@ + replaced_all(
                s@.skip(i as int),
                pattern@,
                with@,
            ),
        decreases chars.len() - i,
    {
        let ghost before = r@;
        let ghost rest = s@.skip(i as int);
        if stands_at(&chars, i, &sought) {
            r.append(with);
            i += sought.len();
            assert(rest.skip(pattern@.len() as int) =~= s@.skip(i as int));
            assert(before + (with@ + replaced_all(s@.skip(i as int), pattern@, with@)) =~= r@
                + replaced_all(s@.skip(i as int), pattern@, with@));
        } else {
            r.push(chars[i]);
            i += 1;
            assert(rest.skip(1) =~= s@.skip(i as int));
            assert(before + (seq![rest[0]] + replaced_all(s@.skip(i as int), pattern@, with@))
                =~= r@ + replaced_all(s@.skip(i as int), pattern@, with@));
        }
    }
    assert(r@ + Seq::<char>::empty() =~= r@);
    assert(s@.skip(i as int) =~= Seq::<char>::empty());
    r
}

/// The part of a text before its first dot.
pub open spec fn before_dot(s: Seq<char>) -> Seq<char>
    decreases s.len(),
{
    if s.len() == 0 || s[0] == '.' {
        Seq::empty()
    } else {
        seq![s[0]] + before_dot(s.drop_first())
    }
}

/// The part of a text before its first dot.
pub fn text_before_dot(s: &str) -> (r: String)
    ensures
        r@ == before_dot(s@),
{
    let chars = chars_of(s);
    let mut to: usize = 0;
    assert(s@.skip(0) =~= s@);
    assert(s@.take(0) + before_dot(s@.skip(0)) =~= before_dot(s@));
    while to < chars.len() && chars[to] != '.'
        invariant
            to <= chars.len(),
            chars@ == s@,
            before_dot(s@) == s@.take(to as int) + before_dot(s@.skip(to as int)),
        decreases chars.len() - to,
    {
        assert(s@.skip(to as int).drop_first() =~= s@.skip(to + 1));
        assert(s@.take(to as int) + (seq![s@[to as int]] + before_dot(s@.skip(to + 1)))
            =~= s@.take(to + 1) + before_dot(s@.skip(to + 1)));
        to += 1;
    }
    assert(s@.subrange(0, to as int) =~= before_dot(s@));
    text_between(&chars, 0, to)
}

/// Whether a character is a hexadecimal digit.
pub open spec fn hex_digit(c: char) -> bool {
    ('0' <= c && c <= '9') || ('a' <= c && c <= 'f') || ('A' <= c && c <= 'F')
}

/// Whether a text is a device fingerprint: 64 hexadecimal digits.
pub open spec fn is_fingerprint(s: Seq<char>) -> bool {
    s.len() == 64 && forall|i: int| 0 <= i < s.len() ==> hex_digit(#[trigger] s[i])
}

/// Whether a text is a device fingerprint: 64 hexadecimal digits.
pub fn valid_fingerprint(s: &str) -> (r: bool)
    ensures
        r == is_fingerprint(s@),
{
    let chars = chars_of(s);
    if chars.len() != 64 {
        return false;
    }
    let mut i: usize = 0;
    while i < chars.len()
        invariant
            i <= chars.len(),
            chars@ == s@,
            forall|j: int| 0 <= j < i ==> hex_digit(#[trigger] s@[j]),
        decreases chars.len() - i,
    {
        let c = chars[i];
        if !(('0' <= c && c <= '9') || ('a' <= c && c <= 'f') || ('A' <= c && c <= 'F')) {
            assert(!hex_digit(s@[i as int]));
            return false;
        }
        i += 1;
    }
    true
}

// ---------------------------------------------------------------------------------------------
// Numbers
// ---------------------------------------------------------------------------------------------

/// The digit for a number below ten.
pub open spec fn digit(d: nat) -> char {
    (('0' as u8) + d) as char
}

/// The decimal digits of a number, without leading zeros.
pub open spec fn decimal(n: nat) -> Seq<char>
    decreases n,
{
    if n < 10 {
        seq![digit(n)]
    } else {
        decimal(n / 10).push(digit(n % 10))
    }
}

/// The decimal text of a signed number.
pub open spec fn signed_decimal(n: int) -> Seq<char> {
    if n < 0 {
        seq!['-'] + decimal((-n) as nat)
    } else {
        decimal(n as nat)
    }
}

/// Whether a text is one or more decimal digits.
pub open spec fn all_digits(s: Seq<char>) -> bool {
    s.len() > 0 && forall|i: int| 0 <= i < s.len() ==> '0' <= #[trigger] s[i] <= '9'
}

/// The number that decimal digits say.
pub open spec fn digits_value(s: Seq<char>) -> nat
    decreases s.len(),
{
    if s.len() == 0 {
        0
    } else {
        digits_value(s.drop_last()) * 10 + ((s.last() as nat) - ('0' as nat)) as nat
    }
}

/// The part of a number's text behind its sign.
pub open spec fn unsigned_part(s: Seq<char>) -> Seq<char> {
    if s.len() > 0 && (s[0] == '-' || s[0] == '+') {
        s.skip(1)
    } else {
        s
    }
}

/// The number that a text says: an optional sign, then digits, and no more than 32 bits.
pub open spec fn parsed_i32(s: Seq<char>) -> Option<i32> {
    let body = unsigned_part(s);
    let v: int = if s.len() > 0 && s[0] == '-' {
        -(digits_value(body) as int)
    } else {
        digits_value(body) as int
    };
    if all_digits(body) && i32::MIN <= v <= i32::MAX {
        Some(v as i32)
    } else {
        None
    }
}

fn digit_char(d: u32) -> (r: char)
    requires
        d < 10,
    ensures
        r == digit(d as nat),
{
    (('0' as u8) + (d as u8)) as char
}

/// The decimal text of a number.
pub fn u32_text(n: u32) -> (r: String)
    ensures
        r@ == decimal(n as nat),
    decreases n,
{
    if n < 10 {
        let mut out = String::new();
        out.push(digit_char(n));
        assert(out@ =~= seq![digit(n as nat)]);
        out
    } else {
        let mut out = u32_text(n / 10);
        out.push(digit_char(n % 10));
        out
    }
}

/// The decimal text of a signed number.
pub fn i32_text(n: i32) -> (r: String)
    ensures
        r@ == signed_decimal(n as int),
{
    if n < 0 {
        let magnitude: u32 = (-(n as i64)) as u32;
        let digits = u32_text(magnitude);
        let mut out = String::new();
        out.push('-');
        out.append(digits.as_str());
        assert(out@ =~= seq!['-'] + decimal(magnitude as nat));
        out
    } else {
        u32_text(n as u32)
    }
}

proof fn lemma_digits_value_grows(s: Seq<char>, i: int)
    requires
        0 <= i <= s.len(),
    ensures
        digits_value(s.take(i)) <= digits_value(s),
    decreases s.len() - i,
{
    if i < s.len() {
        assert(s.take(i + 1).drop_last() =~= s.take(i));
        lemma_digits_value_grows(s, i + 1);
    } else {
        assert(s.take(i) =~= s);
    }
}

/// The number that a text says, if it says one that fits.
pub fn parse_i32(s: &str) -> (r: Option<i32>)
    ensures
        r == parsed_i32(s@),
{
    let chars = chars_of(s);
    let negative = chars.len() > 0 && chars[0] == '-';
    let signed = chars.len() > 0 && (chars[0] == '-' || chars[0] == '+');
    let start: usize = if signed {
        1
    } else {
        0
    };
    let ghost body = unsigned_part(s@);
    assert(body =~= s@.skip(start as int));
    if start == chars.len() {
        return None;
    }
    let mut value: i64 = 0;
    let mut i: usize = start;
    while i < chars.len()
        invariant
            start <= i <= chars.len(),
            start <= 1,
            chars@ == s@,
            body == s@.skip(start as int),
            body == unsigned_part(s@),
            0 <= value <= 0x8000_0000,
            value == digits_value(body.take(i - start)),
            forall|j: int| 0 <= j < i - start ==> '0' <= #[trigger] body[j] <= '9',
        decreases chars.len() - i,
    {
        let c = chars[i];
        assert(c == body[i - start]);
        if !('0' <= c && c <= '9') {
            return None;
        }
        value = value * 10 + ((c as u32) - ('0' as u32)) as i64;
        i += 1;
        proof {
            assert(body.take(i - start).drop_last() =~= body.take(i - 1 - start));
            lemma_digits_value_grows(body, i - start);
        }
        if value > 0x8000_0000 {
            return None;
        }
    }
    assert(body.take(i - start) =~= body);
    if negative {
        Some((-value) as i32)
    } else if value <= 0x7fff_ffff {
        Some(value as i32)
    } else {
        None
    }
}

/// A number in decimal digits reads as that number.
pub proof fn lemma_decimal(n: nat)
    ensures
        all_digits(decimal(n)),
        digits_value(decimal(n)) == n,
        decimal(n)[0] != '-' && decimal(n)[0] != '+',
    decreases n,
{
    if n < 10 {
        assert(decimal(n).drop_last() =~= Seq::<char>::empty());
        assert(digits_value(decimal(n).drop_last()) == 0);
    } else {
        lemma_decimal(n / 10);
        assert(decimal(n).drop_last() =~= decimal(n / 10));
        assert(decimal(n)[0] == decimal(n / 10)[0]);
    }
}

/// Reading back the text of a number gives the number.
pub proof fn law_number_text_round_trip(n: i32)
    ensures
        parsed_i32(signed_decimal(n as int)) == Some(n),
{
    if n < 0 {
        lemma_decimal((-n) as nat);
        assert(signed_decimal(n as int).skip(1) =~= decimal((-n) as nat));
    } else {
        lemma_decimal(n as nat);
    }
}

// ---------------------------------------------------------------------------------------------
// The order of texts
// ---------------------------------------------------------------------------------------------

/// Whether a byte string comes before another one: at the first place where they differ it has
/// the smaller byte, or it ends there.
pub open spec fn bytes_before(a: Seq<u8>, b: Seq<u8>) -> bool
    decreases a.len(),
{
    if b.len() == 0 {
        false
    } else if a.len() == 0 {
        true
    } else if a[0] != b[0] {
        a[0] < b[0]
    } else {
        bytes_before(a.drop_first(), b.drop_first())
    }
}

/// Whether a text comes before another one, in the order of their UTF-8 bytes.
pub open spec fn text_before(a: Seq<char>, b: Seq<char>) -> bool {
    bytes_before(encode_utf8(a), encode_utf8(b))
}

/// Whether a text comes before another one, in the order of their UTF-8 bytes.
pub fn is_before(a: &str, b: &str) -> (r: bool)
    ensures
        r == text_before(a@, b@),
{
    let x = a.as_bytes();
    let y = b.as_bytes();
    let mut i: usize = 0;
    assert(x@.skip(0) =~= x@);
    assert(y@.skip(0) =~= y@);
    while i < x.len() && i < y.len()
        invariant
            i <= x.len(),
            i <= y.len(),
            x@ == encode_utf8(a@),
            y@ == encode_utf8(b@),
            bytes_before(x@, y@) == bytes_before(x@.skip(i as int), y@.skip(i as int)),
        decreases x.len() - i,
    {
        if x[i] != y[i] {
            return x[i] < y[i];
        }
        assert(x@.skip(i as int).drop_first() =~= x@.skip(i + 1));
        assert(y@.skip(i as int).drop_first() =~= y@.skip(i + 1));
        i += 1;
    }
    i < y.len()
}

proof fn lemma_bytes_before_irreflexive(a: Seq<u8>)
    ensures
        !bytes_before(a, a),
    decreases a.len(),
{
    if a.len() > 0 {
        lemma_bytes_before_irreflexive(a.drop_first());
    }
}

proof fn lemma_bytes_before_total(a: Seq<u8>, b: Seq<u8>)
    ensures
        bytes_before(a, b) || bytes_before(b, a) || a == b,
        !(bytes_before(a, b) && bytes_before(b, a)),
    decreases a.len(),
{
    if a.len() > 0 && b.len() > 0 {
        lemma_bytes_before_total(a.drop_first(), b.drop_first());
        if a[0] == b[0] && a.drop_first() == b.drop_first() {
            assert(a =~= seq![a[0]] + a.drop_first());
            assert(b =~= seq![b[0]] + b.drop_first());
        }
    } else if a.len() == 0 && b.len() == 0 {
        assert(a =~= b);
    }
}

proof fn lemma_bytes_before_transitive(a: Seq<u8>, b: Seq<u8>, c: Seq<u8>)
    requires
        bytes_before(a, b),
        bytes_before(b, c),
    ensures
        bytes_before(a, c),
    decreases a.len(),
{
    if a.len() > 0 && a[0] == b[0] && b[0] == c[0] {
        lemma_bytes_before_transitive(a.drop_first(), b.drop_first(), c.drop_first());
    }
}

/// Of two different texts exactly one comes before the other.
pub proof fn lemma_text_before_total(a: Seq<char>, b: Seq<char>)
    ensures
        !text_before(a, a),
        text_before(a, b) || text_before(b, a) || a == b,
        !(text_before(a, b) && text_before(b, a)),
{
    lemma_bytes_before_irreflexive(encode_utf8(a));
    lemma_bytes_before_total(encode_utf8(a), encode_utf8(b));
    vstd::utf8::encode_utf8_decode_utf8(a);
    vstd::utf8::encode_utf8_decode_utf8(b);
}

/// The order of texts is transitive.
pub proof fn lemma_text_before_transitive(a: Seq<char>, b: Seq<char>, c: Seq<char>)
    requires
        text_before(a, b),
        text_before(b, c),
    ensures
        text_before(a, c),
{
    lemma_bytes_before_transitive(encode_utf8(a), encode_utf8(b), encode_utf8(c));
}

// ---------------------------------------------------------------------------------------------
// Laws
// ---------------------------------------------------------------------------------------------

/// In lower case a text keeps its length and every character but the ASCII capitals, each of
/// which becomes the small letter 32 places further on.
pub proof fn law_lower_case_by_character(s: Seq<char>, i: int)
    requires
        0 <= i < s.len(),
    ensures
        ascii_lower(s).len() == s.len(),
        'A' <= s[i] <= 'Z' ==> ascii_lower(s)[i] as int == s[i] as int + 32,
        !('A' <= s[i] <= 'Z') ==> ascii_lower(s)[i] == s[i],
{
}

/// Two texts have the same lower case where they have the same length and differ at no place in
/// more than the case of an ASCII letter.
pub proof fn law_same_up_to_case(a: Seq<char>, b: Seq<char>)
    ensures
        ascii_lower(a) == ascii_lower(b) <==> a.len() == b.len() && forall|i: int|
            0 <= i < a.len() ==> {
                ||| #[trigger] a[i] == b[i]
                ||| 'A' <= a[i] <= 'Z' && b[i] as int == a[i] as int + 32
                ||| 'A' <= b[i] <= 'Z' && a[i] as int == b[i] as int + 32
            },
{
    if ascii_lower(a) == ascii_lower(b) {
        assert(ascii_lower(a).len() == ascii_lower(b).len());
        assert forall|i: int| 0 <= i < a.len() implies {
            ||| #[trigger] a[i] == b[i]
            ||| 'A' <= a[i] <= 'Z' && b[i] as int == a[i] as int + 32
            ||| 'A' <= b[i] <= 'Z' && a[i] as int == b[i] as int + 32
        } by {
            assert(ascii_lower(a)[i] == ascii_lower(b)[i]);
        }
    }
    if a.len() == b.len() && forall|i: int|
        0 <= i < a.len() ==> {
            ||| #[trigger] a[i] == b[i]
            ||| 'A' <= a[i] <= 'Z' && b[i] as int == a[i] as int + 32
            ||| 'A' <= b[i] <= 'Z' && a[i] as int == b[i] as int + 32
        } {
        assert(ascii_lower(a) =~= ascii_lower(b));
    }
}

/// A list holds the texts that are put on it, and no others.
pub proof fn law_list_holds_what_was_put_on_it(list: Seq<String>, last: String, s: Seq<char>)
    ensures
        !holds(Seq::<String>::empty(), s),
        holds(list.push(last), s) == (holds(list, s) || last@ == s),
{
    let longer = list.push(last);
    if holds(list, s) {
        let i = choose|i: int| 0 <= i < list.len() && (#[trigger] list[i])@ == s;
        assert(longer[i]@ == s);
    }
    if last@ == s {
        assert(longer[list.len() as int]@ == s);
    }
    if holds(longer, s) {
        let i = choose|i: int| 0 <= i < longer.len() && (#[trigger] longer[i])@ == s;
        if i < list.len() {
            assert(list[i]@ == s);
        }
    }
}

/// What a list of texts says has as many parts as the list, and each part is what the text at its
/// place says.
pub proof fn law_list_says_what_its_texts_say(list: Seq<String>, i: int)
    requires
        0 <= i < list.len(),
    ensures
        texts(list).len() == list.len(),
        texts(list)[i] == list[i]@,
{
}

/// Of a text, trimming keeps one stretch: only white space stands before and behind it, and it
/// neither begins nor ends with white space.
pub proof fn law_trimming_takes_white_space_from_both_ends(s: Seq<char>)
    ensures
        exists|from: int, to: int|
            0 <= from <= to <= s.len() && trimmed(s) == #[trigger] s.subrange(from, to) && (forall|
                i: int,
            |
                (0 <= i < from || to <= i < s.len()) ==> white_space(#[trigger] s[i])),
        trimmed(s).len() > 0 ==> !white_space(trimmed(s)[0]) && !white_space(trimmed(s).last()),
{
    let from = lemma_trim_start(s);
    let rest = s.skip(from);
    let n = lemma_trim_end(rest);
    let to = from + n;
    assert(trimmed(s) =~= s.subrange(from, to));
    assert forall|i: int| (0 <= i < from || to <= i < s.len()) implies white_space(
        #[trigger] s[i],
    ) by {
        if to <= i {
            assert(rest[i - from] == s[i]);
        }
    }
    if trimmed(s).len() > 0 {
        assert(trimmed(s)[0] == rest[0]);
    }
}

proof fn lemma_trim_start(s: Seq<char>) -> (from: int)
    ensures
        0 <= from <= s.len(),
        trim_start(s) == s.skip(from),
        forall|i: int| 0 <= i < from ==> white_space(#[trigger] s[i]),
        from < s.len() ==> !white_space(s[from]),
    decreases s.len(),
{
    if s.len() > 0 && white_space(s[0]) {
        let rest = s.drop_first();
        let n = lemma_trim_start(rest);
        assert(rest.skip(n) =~= s.skip(n + 1));
        assert forall|i: int| 0 <= i < n + 1 implies white_space(#[trigger] s[i]) by {
            if i > 0 {
                assert(rest[i - 1] == s[i]);
            }
        }
        n + 1
    } else {
        assert(s.skip(0) =~= s);
        0
    }
}

proof fn lemma_trim_end(s: Seq<char>) -> (to: int)
    ensures
        0 <= to <= s.len(),
        trim_end(s) == s.take(to),
        forall|i: int| to <= i < s.len() ==> white_space(#[trigger] s[i]),
        to > 0 ==> !white_space(s[to - 1]),
    decreases s.len(),
{
    if s.len() > 0 && white_space(s.last()) {
        let rest = s.drop_last();
        let n = lemma_trim_end(rest);
        assert(rest.take(n) =~= s.take(n));
        assert forall|i: int| n <= i < s.len() implies white_space(#[trigger] s[i]) by {
            if i < rest.len() {
                assert(rest[i] == s[i]);
            }
        }
        n
    } else {
        assert(s.take(s.len() as int) =~= s);
        s.len() as int
    }
}

/// A text in which a pattern does not occur stays as it is.
pub proof fn law_text_without_the_pattern_stays(
    s: Seq<char>,
    pattern: Seq<char>,
    with: Seq<char>,
)
    requires
        forall|i: int| 0 <= i < s.len() ==> !pattern.is_prefix_of(#[trigger] s.skip(i)),
    ensures
        replaced_all(s, pattern, with) == s,
    decreases s.len(),
{
    if s.len() > 0 && pattern.len() > 0 {
        assert(s.skip(0) =~= s);
        let rest = s.skip(1);
        assert forall|i: int| 0 <= i < rest.len() implies !pattern.is_prefix_of(
            #[trigger] rest.skip(i),
        ) by {
            assert(rest.skip(i) =~= s.skip(i + 1));
        }
        law_text_without_the_pattern_stays(rest, pattern, with);
        assert(seq![s[0]] + rest =~= s);
    }
}

/// Where a pattern occurs for the first time, the other text stands in its place: what is before
/// it stays, and what is behind it is treated in the same way.
pub proof fn law_first_occurrence_is_replaced(
    s: Seq<char>,
    at: int,
    pattern: Seq<char>,
    with: Seq<char>,
)
    requires
        pattern.len() > 0,
        0 <= at <= s.len(),
        pattern.is_prefix_of(s.skip(at)),
        forall|i: int| 0 <= i < at ==> !pattern.is_prefix_of(#[trigger] s.skip(i)),
    ensures
        replaced_all(s, pattern, with) == s.take(at) + with + replaced_all(
            s.skip(at + pattern.len()),
            pattern,
            with,
        ),
    decreases at,
{
    let end = replaced_all(s.skip(at + pattern.len()), pattern, with);
    assert(s.skip(0) =~= s);
    if at == 0 {
        assert(s.take(0) + with + end =~= with + end);
    } else {
        let rest = s.skip(1);
        assert(rest.skip(at - 1) =~= s.skip(at));
        assert(rest.skip(at - 1 + pattern.len()) =~= s.skip(at + pattern.len()));
        assert forall|i: int| 0 <= i < at - 1 implies !pattern.is_prefix_of(
            #[trigger] rest.skip(i),
        ) by {
            assert(rest.skip(i) =~= s.skip(i + 1));
        }
        law_first_occurrence_is_replaced(rest, at - 1, pattern, with);
        assert(seq![s[0]] + (rest.take(at - 1) + with + end) =~= s.take(at) + with + end);
    }
}

/// The part before the first dot ends at that dot, and is the whole text where there is none.
pub proof fn law_part_before_the_dot(s: Seq<char>)
    ensures
        before_dot(s).is_prefix_of(s),
        !before_dot(s).contains('.'),
        before_dot(s).len() < s.len() ==> s[before_dot(s).len() as int] == '.',
    decreases s.len(),
{
    if s.len() == 0 || s[0] == '.' {
        assert(before_dot(s) =~= s.subrange(0, 0));
    } else {
        let rest = s.drop_first();
        law_part_before_the_dot(rest);
        let b = before_dot(s);
        let part = before_dot(rest);
        assert(b =~= seq![s[0]] + part);
        assert(part == rest.subrange(0, part.len() as int));
        assert(b =~= s.subrange(0, b.len() as int));
        if b.contains('.') {
            let i = choose|i: int| 0 <= i < b.len() && b[i] == '.';
            assert(part[i - 1] == '.');
        }
    }
}

/// A fingerprint is 64 characters, each of them a digit or one of the letters from a to f in
/// either case; so it is in lower case too.
pub proof fn law_fingerprint_is_64_hexadecimal_digits(s: Seq<char>)
    ensures
        is_fingerprint(s) <==> s.len() == 64 && forall|i: int|
            0 <= i < 64 ==> ('0' <= #[trigger] s[i] <= '9' || 'a' <= s[i] <= 'f' || 'A' <= s[i]
                <= 'F'),
        is_fingerprint(s) <==> is_fingerprint(ascii_lower(s)),
{
    let low = ascii_lower(s);
    if is_fingerprint(s) {
        assert forall|i: int| 0 <= i < low.len() implies hex_digit(#[trigger] low[i]) by {
            assert(hex_digit(s[i]));
        }
    }
    if is_fingerprint(low) {
        assert forall|i: int| 0 <= i < s.len() implies hex_digit(#[trigger] s[i]) by {
            assert(hex_digit(low[i]));
        }
    }
}

/// Ten to the given power.
pub open spec fn ten_to(n: nat) -> nat
    decreases n,
{
    if n == 0 {
        1
    } else {
        10 * ten_to((n - 1) as nat)
    }
}

/// Decimal digits count by their places: a digit alone says its own value, and digits that stand
/// before others count ten times as much for each of those.
pub proof fn law_digits_count_by_their_places(s: Seq<char>, t: Seq<char>, c: char)
    requires
        '0' <= c <= '9',
    ensures
        digits_value(seq![c]) == c as int - '0' as int,
        digits_value(s + t) == digits_value(s) * ten_to(t.len()) + digits_value(t),
    decreases t.len(),
{
    assert(seq![c].drop_last() =~= Seq::<char>::empty());
    assert(digits_value(Seq::<char>::empty()) == 0);
    if t.len() == 0 {
        assert(s + t =~= s);
        assert(digits_value(t) == 0);
        assert(ten_to(t.len()) == 1);
        assert(digits_value(s) * 1 == digits_value(s));
    } else {
        let rest = t.drop_last();
        law_digits_count_by_their_places(s, rest, c);
        assert((s + t).drop_last() =~= s + rest);
        assert((s + t).last() == t.last());
        let a = digits_value(s) as int;
        let p = ten_to(rest.len()) as int;
        let q = ten_to(t.len()) as int;
        let d = digits_value(t) - digits_value(rest) * 10;
        assert(digits_value(s + t) == digits_value(s + rest) * 10 + d);
        assert(digits_value(s + rest) == a * p + digits_value(rest));
        assert(a * q == (a * p) * 10) by (nonlinear_arith)
            requires
                q == 10 * p,
        ;
        assert(digits_value(s + t) == a * q + digits_value(t));
    }
}

/// A number is written in decimal digits that say that number, without a zero in front unless the
/// number is zero, and with a minus sign in front where it is negative.
pub proof fn law_number_is_written_in_decimal(n: int)
    ensures
        n >= 0 ==> all_digits(signed_decimal(n)) && digits_value(signed_decimal(n)) == n,
        n > 0 ==> signed_decimal(n)[0] != '0',
        n == 0 ==> signed_decimal(n) == seq!['0'],
        n < 0 ==> signed_decimal(n) == seq!['-'] + signed_decimal(-n),
        n >= 0 ==> signed_decimal(n) == decimal(n as nat),
{
    if n >= 0 {
        lemma_decimal(n as nat);
        if n > 0 {
            lemma_no_leading_zero(n as nat);
        } else {
            assert(decimal(0) =~= seq!['0']);
        }
    }
}

proof fn lemma_no_leading_zero(n: nat)
    requires
        n > 0,
    ensures
        decimal(n).len() > 0,
        decimal(n)[0] != '0',
    decreases n,
{
    if n >= 10 {
        lemma_no_leading_zero(n / 10);
        assert(decimal(n)[0] == decimal(n / 10)[0]);
    }
}

/// Digits are read as the number that they say, with or without a sign in front, as long as it
/// fits.
pub proof fn law_digits_are_read_as_a_number(digits: Seq<char>)
    requires
        digits.len() > 0,
        forall|i: int| 0 <= i < digits.len() ==> '0' <= #[trigger] digits[i] <= '9',
    ensures
        ({
            let n = digits_value(digits) as int;
            &&& parsed_i32(digits) == (if n <= 0x7fff_ffff {
                Some(n as i32)
            } else {
                None
            })
            &&& parsed_i32(seq!['+'] + digits) == parsed_i32(digits)
            &&& parsed_i32(seq!['-'] + digits) == (if n <= 0x8000_0000 {
                Some((-n) as i32)
            } else {
                None
            })
        }),
{
    assert((seq!['+'] + digits).skip(1) =~= digits);
    assert((seq!['-'] + digits).skip(1) =~= digits);
    assert('0' <= digits[0] <= '9');
}

/// Nothing but digits, with one sign in front of them at most, is read as a number.
pub proof fn law_other_texts_are_no_numbers(s: Seq<char>, i: int)
    ensures
        s.len() == 0 ==> parsed_i32(s) is None,
        s.len() == 1 && !('0' <= s[0] <= '9') ==> parsed_i32(s) is None,
        0 < i < s.len() && !('0' <= s[i] <= '9') ==> parsed_i32(s) is None,
        s.len() > 0 && !('0' <= s[0] <= '9') && s[0] != '-' && s[0] != '+' ==> parsed_i32(
            s,
        ) is None,
{
    let body = unsigned_part(s);
    if 0 < i < s.len() && !('0' <= s[i] <= '9') {
        if s[0] == '-' || s[0] == '+' {
            assert(body[i - 1] == s[i]);
        } else {
            assert(body[i] == s[i]);
        }
    }
    if s.len() > 0 && !('0' <= s[0] <= '9') && s[0] != '-' && s[0] != '+' {
        assert(body[0] == s[0]);
    }
}

/// Texts are in the order of their UTF-8 bytes.
pub proof fn law_order_of_texts(a: Seq<char>, b: Seq<char>, i: int)
    requires
        0 <= i <= encode_utf8(a).len(),
        i <= encode_utf8(b).len(),
        forall|j: int| 0 <= j < i ==> encode_utf8(a)[j] == encode_utf8(b)[j],
    ensures
        i < encode_utf8(a).len() && i < encode_utf8(b).len() && encode_utf8(a)[i] != encode_utf8(
            b,
        )[i] ==> (text_before(a, b) <==> encode_utf8(a)[i] < encode_utf8(b)[i]),
        i == encode_utf8(a).len() ==> (text_before(a, b) <==> encode_utf8(a).len() < encode_utf8(
            b,
        ).len()),
        i == encode_utf8(b).len() ==> !text_before(a, b),
{
    law_order_of_bytes(encode_utf8(a), encode_utf8(b), i);
}

/// A byte string comes before another one where it has the smaller byte at the first place where
/// they differ, or where it is the beginning of the other one.
pub proof fn law_order_of_bytes(a: Seq<u8>, b: Seq<u8>, i: int)
    requires
        0 <= i <= a.len(),
        i <= b.len(),
        forall|j: int| 0 <= j < i ==> a[j] == b[j],
    ensures
        i < a.len() && i < b.len() && a[i] != b[i] ==> (bytes_before(a, b) <==> a[i] < b[i]),
        i == a.len() ==> (bytes_before(a, b) <==> a.len() < b.len()),
        i == b.len() ==> !bytes_before(a, b),
    decreases i,
{
    if i > 0 {
        let x = a.drop_first();
        let y = b.drop_first();
        assert(a[0] == b[0]);
        assert forall|j: int| 0 <= j < i - 1 implies x[j] == y[j] by {
            assert(a[j + 1] == b[j + 1]);
        }
        law_order_of_bytes(x, y, i - 1);
    }
}

} // verus!
