//! Byte- and character-level text predicates shared by every validator.
//!
//! Lengths are UTF-8 byte lengths (what `str::len` returns); "blank" means every
//! character is Unicode white space, which is exactly when `str::trim` leaves
//! nothing behind.
use vstd::prelude::*;
use vstd::string::{StringExecFns, StringSliceAdditionalSpecFns};

verus! {

/// The byte encoding of a string that holds ASCII characters only.
pub open spec fn ascii_bytes(s: Seq<char>) -> Seq<u8> {
    s.map_values(|c: char| c as u8)
}

/// Unicode `White_Space`, the set `char::is_whitespace` tests.
pub open spec fn is_white_space(c: char) -> bool {
    let v = c as u32;
    ||| 0x09 <= v <= 0x0d
    ||| v == 0x20
    ||| v == 0x85
    ||| v == 0xa0
    ||| v == 0x1680
    ||| 0x2000 <= v <= 0x200a
    ||| v == 0x2028
    ||| v == 0x2029
    ||| v == 0x202f
    ||| v == 0x205f
    ||| v == 0x3000
}

/// Every character is white space: trimming leaves an empty string.
pub open spec fn blank(s: Seq<char>) -> bool {
    forall|i: int| 0 <= i < s.len() ==> is_white_space(#[trigger] s[i])
}

pub open spec fn has_byte(s: Seq<u8>, b: u8) -> bool {
    exists|i: int| 0 <= i < s.len() && s[i] == b
}

/// Contains a NUL, line feed or carriage return.
pub open spec fn has_control_break(s: Seq<u8>) -> bool {
    has_byte(s, 0) || has_byte(s, 10) || has_byte(s, 13)
}

/// Contains a line feed or carriage return.
pub open spec fn has_line_break(s: Seq<u8>) -> bool {
    has_byte(s, 10) || has_byte(s, 13)
}

pub open spec fn lower_byte(b: u8) -> u8 {
    if 65 <= b <= 90 {
        (b + 32) as u8
    } else {
        b
    }
}

/// ASCII lower-casing, byte by byte (`str::to_ascii_lowercase`).
pub open spec fn lower_seq(s: Seq<u8>) -> Seq<u8> {
    s.map_values(|b: u8| lower_byte(b))
}

pub open spec fn occurs_at(hay: Seq<u8>, needle: Seq<u8>, i: int) -> bool {
    0 <= i && i + needle.len() <= hay.len() && hay.subrange(i, i + needle.len()) == needle
}

/// `needle` occurs in `hay` as a contiguous run of bytes.
pub open spec fn contains_seq(hay: Seq<u8>, needle: Seq<u8>) -> bool {
    exists|i: int| occurs_at(hay, needle, i)
}

pub open spec fn is_ascii_alphanumeric(b: u8) -> bool {
    (48 <= b <= 57) || (65 <= b <= 90) || (97 <= b <= 122)
}

pub fn white_space(c: char) -> (r: bool)
    ensures
        r == is_white_space(c),
{
    let v = c as u32;
    (0x09 <= v && v <= 0x0d) || v == 0x20 || v == 0x85 || v == 0xa0 || v == 0x1680 || (0x2000
        <= v && v <= 0x200a) || v == 0x2028 || v == 0x2029 || v == 0x202f || v == 0x205f || v
        == 0x3000
}

/// Whether the string is empty once white space is trimmed.
pub fn is_blank(s: &str) -> (r: bool)
    ensures
        r == blank(s@),
{
    let mut all: bool = true;
    for c in it: s.chars()
        invariant
            it.seq() == s@,
            all == (forall|i: int| 0 <= i < it.index() ==> is_white_space(#[trigger] s@[i])),
    {
        if !white_space(c) {
            all = false;
        }
    }
    all
}

pub fn contains_byte(s: &[u8], b: u8) -> (r: bool)
    ensures
        r == has_byte(s@, b),
{
    let mut i: usize = 0;
    while i < s.len()
        invariant
            i <= s@.len(),
            forall|j: int| 0 <= j < i ==> s@[j] != b,
        decreases s@.len() - i,
    {
        if s[i] == b {
            return true;
        }
        i = i + 1;
    }
    false
}

pub fn contains_control_break(s: &str) -> (r: bool)
    ensures
        r == has_control_break(s.spec_bytes()),
{
    let b = s.as_bytes();
    contains_byte(b, 0) || contains_byte(b, 10) || contains_byte(b, 13)
}

pub fn contains_line_break(s: &str) -> (r: bool)
    ensures
        r == has_line_break(s.spec_bytes()),
{
    let b = s.as_bytes();
    contains_byte(b, 10) || contains_byte(b, 13)
}

pub fn bytes_equal(a: &[u8], b: &[u8]) -> (r: bool)
    ensures
        r == (a@ == b@),
{
    if a.len() != b.len() {
        return false;
    }
    let mut i: usize = 0;
    while i < a.len()
        invariant
            a@.len() == b@.len(),
            i <= a@.len(),
            forall|j: int| 0 <= j < i ==> a@[j] == b@[j],
        decreases a@.len() - i,
    {
        if a[i] != b[i] {
            return false;
        }
        i = i + 1;
    }
    assert(a@ =~= b@);
    true
}

/// Whether two strings hold the same bytes.
pub fn str_equal(a: &str, b: &str) -> (r: bool)
    ensures
        r == (a.spec_bytes() == b.spec_bytes()),
{
    bytes_equal(a.as_bytes(), b.as_bytes())
}

pub fn lower(b: u8) -> (r: u8)
    ensures
        r == lower_byte(b),
{
    if 65 <= b && b <= 90 {
        b + 32
    } else {
        b
    }
}

fn lowered_occurs_at(hay: &[u8], needle: &[u8], start: usize) -> (r: bool)
    requires
        start + needle@.len() <= hay@.len(),
    ensures
        r == occurs_at(lower_seq(hay@), needle@, start as int),
{
    let n: usize = hay.len();
    let mut j: usize = 0;
    while j < needle.len()
        invariant
            n == hay@.len(),
            start + needle@.len() <= hay@.len(),
            j <= needle@.len(),
            forall|k: int| 0 <= k < j ==> lower_byte(hay@[start + k]) == needle@[k],
        decreases needle@.len() - j,
    {
        assert(start + j < hay@.len());
        if lower(hay[start + j]) != needle[j] {
            assert(lower_seq(hay@).subrange(start as int, start + needle@.len())[j as int]
                != needle@[j as int]);
            return false;
        }
        j = j + 1;
    }
    assert(lower_seq(hay@).subrange(start as int, start + needle@.len()) =~= needle@);
    true
}

/// Whether `needle` occurs in the ASCII-lower-cased `hay`.
pub fn contains_lowered(hay: &[u8], needle: &[u8]) -> (r: bool)
    ensures
        r == contains_seq(lower_seq(hay@), needle@),
{
    if needle.len() == 0 {
        assert(lower_seq(hay@).subrange(0, 0) =~= needle@);
        assert(occurs_at(lower_seq(hay@), needle@, 0));
        return true;
    }
    if needle.len() > hay.len() {
        assert forall|i: int| !occurs_at(lower_seq(hay@), needle@, i) by {}
        return false;
    }
    let mut start: usize = 0;
    while start <= hay.len() - needle.len()
        invariant
            needle@.len() > 0,
            needle@.len() <= hay@.len(),
            start <= hay@.len() - needle@.len() + 1,
            forall|i: int| 0 <= i < start ==> !occurs_at(lower_seq(hay@), needle@, i),
        decreases hay@.len() - needle@.len() + 1 - start,
    {
        if lowered_occurs_at(hay, needle, start) {
            return true;
        }
        start = start + 1;
    }
    assert forall|i: int| !occurs_at(lower_seq(hay@), needle@, i) by {
        if 0 <= i < start {
        }
    }
    false
}

/// `value` is non-blank and at most `max` bytes long.
pub open spec fn bounded_nonblank(value: &str, max: nat) -> bool {
    !blank(value@) && value.spec_bytes().len() <= max
}

pub fn check_bounded_nonblank(value: &str, max: usize) -> (r: bool)
    ensures
        r == bounded_nonblank(value, max as nat),
{
    !is_blank(value) && value.as_bytes().len() <= max
}

/// `value` is non-blank, at most `max` bytes, and free of NUL and line breaks.
pub open spec fn single_line_text(value: &str, max: nat) -> bool {
    bounded_nonblank(value, max) && !has_control_break(value.spec_bytes())
}

pub fn check_single_line_text(value: &str, max: usize) -> (r: bool)
    ensures
        r == single_line_text(value, max as nat),
{
    check_bounded_nonblank(value, max) && !contains_control_break(value)
}

/// Every byte is ASCII alphanumeric or one of `_ - + .`.
pub open spec fn key_name_bytes(s: Seq<u8>) -> bool {
    forall|i: int|
        0 <= i < s.len() ==> (is_ascii_alphanumeric(#[trigger] s[i]) || s[i] == 95 || s[i] == 45
            || s[i] == 43 || s[i] == 46)
}

pub fn check_key_name_bytes(s: &str) -> (r: bool)
    ensures
        r == key_name_bytes(s.spec_bytes()),
{
    let b = s.as_bytes();
    let mut i: usize = 0;
    while i < b.len()
        invariant
            b@ == s.spec_bytes(),
            i <= b@.len(),
            key_name_bytes(b@.subrange(0, i as int)),
        decreases b@.len() - i,
    {
        let x = b[i];
        if !((48 <= x && x <= 57) || (65 <= x && x <= 90) || (97 <= x && x <= 122) || x == 95 || x
            == 45 || x == 43 || x == 46) {
            assert(!key_name_bytes(b@)) by {
                assert(b@[i as int] == x);
            }
            return false;
        }
        assert(b@.subrange(0, i + 1) =~= b@.subrange(0, i as int).push(x));
        i = i + 1;
    }
    assert(b@.subrange(0, b@.len() as int) =~= b@);
    true
}

/// Every byte is an ASCII digit or a lower-case hex letter.
pub open spec fn lower_hex_bytes(s: Seq<u8>) -> bool {
    forall|i: int| 0 <= i < s.len() ==> ((48 <= #[trigger] s[i] <= 57) || (97 <= s[i] <= 102))
}

pub fn check_lower_hex(s: &str) -> (r: bool)
    ensures
        r == lower_hex_bytes(s.spec_bytes()),
{
    let b = s.as_bytes();
    let mut i: usize = 0;
    while i < b.len()
        invariant
            b@ == s.spec_bytes(),
            i <= b@.len(),
            forall|j: int| 0 <= j < i ==> ((48 <= #[trigger] b@[j] <= 57) || (97 <= b@[j] <= 102)),
        decreases b@.len() - i,
    {
        let x = b[i];
        if !((48 <= x && x <= 57) || (97 <= x && x <= 102)) {
            return false;
        }
        i = i + 1;
    }
    true
}


/// Lexicographic order on byte strings, the order `str::cmp` uses.
pub open spec fn bytes_lt(a: Seq<u8>, b: Seq<u8>) -> bool
    decreases a.len(),
{
    if a.len() == 0 {
        b.len() > 0
    } else if b.len() == 0 {
        false
    } else if a[0] != b[0] {
        a[0] < b[0]
    } else {
        bytes_lt(a.drop_first(), b.drop_first())
    }
}

pub proof fn lemma_bytes_lt_irreflexive(a: Seq<u8>)
    ensures
        !bytes_lt(a, a),
    decreases a.len(),
{
    if a.len() > 0 {
        lemma_bytes_lt_irreflexive(a.drop_first());
    }
}

pub proof fn lemma_bytes_lt_total(a: Seq<u8>, b: Seq<u8>)
    requires
        a != b,
    ensures
        bytes_lt(a, b) || bytes_lt(b, a),
    decreases a.len(),
{
    if a.len() > 0 && b.len() > 0 && a[0] == b[0] {
        if a.drop_first() == b.drop_first() {
            assert(a =~= seq![a[0]] + a.drop_first());
            assert(b =~= seq![b[0]] + b.drop_first());
        }
        lemma_bytes_lt_total(a.drop_first(), b.drop_first());
    } else if a.len() == 0 && b.len() == 0 {
        assert(a =~= b);
    }
}

pub proof fn lemma_bytes_lt_transitive(a: Seq<u8>, b: Seq<u8>, c: Seq<u8>)
    requires
        bytes_lt(a, b),
        bytes_lt(b, c),
    ensures
        bytes_lt(a, c),
    decreases a.len(),
{
    if a.len() > 0 && b.len() > 0 && c.len() > 0 && a[0] == b[0] && b[0] == c[0] {
        lemma_bytes_lt_transitive(a.drop_first(), b.drop_first(), c.drop_first());
    }
}

pub proof fn lemma_bytes_lt_asymmetric(a: Seq<u8>, b: Seq<u8>)
    requires
        bytes_lt(a, b),
    ensures
        !bytes_lt(b, a),
        a != b,
{
    lemma_bytes_lt_irreflexive(a);
    if bytes_lt(b, a) {
        lemma_bytes_lt_transitive(a, b, a);
    }
}

/// Whether `a` sorts strictly before `b`.
pub fn bytes_less(a: &[u8], b: &[u8]) -> (r: bool)
    ensures
        r == bytes_lt(a@, b@),
{
    let mut i: usize = 0;
    assert(a@.skip(0) =~= a@);
    assert(b@.skip(0) =~= b@);
    while i < a.len() && i < b.len()
        invariant
            i <= a@.len(),
            i <= b@.len(),
            bytes_lt(a@, b@) == bytes_lt(a@.skip(i as int), b@.skip(i as int)),
        decreases a@.len() - i,
    {
        if a[i] != b[i] {
            assert(a@.skip(i as int)[0] == a@[i as int]);
            assert(b@.skip(i as int)[0] == b@[i as int]);
            return a[i] < b[i];
        }
        assert(a@.skip(i as int).drop_first() =~= a@.skip(i + 1));
        assert(b@.skip(i as int).drop_first() =~= b@.skip(i + 1));
        i = i + 1;
    }
    i < b.len()
}


pub open spec fn digit_char(d: nat) -> char {
    if d == 0 {
        '0'
    } else if d == 1 {
        '1'
    } else if d == 2 {
        '2'
    } else if d == 3 {
        '3'
    } else if d == 4 {
        '4'
    } else if d == 5 {
        '5'
    } else if d == 6 {
        '6'
    } else if d == 7 {
        '7'
    } else if d == 8 {
        '8'
    } else {
        '9'
    }
}

/// The decimal digits of `n`, most significant first, without leading zeros.
pub open spec fn decimal_chars(n: nat) -> Seq<char>
    decreases n,
{
    if n < 10 {
        seq![digit_char(n)]
    } else {
        decimal_chars(n / 10).push(digit_char(n % 10))
    }
}

fn digit_text(d: u64) -> (r: &'static str)
    requires
        d < 10,
    ensures
        r@ == seq![digit_char(d as nat)],
{
    if d == 0 {
        proof { reveal_strlit("0"); }
        "0"
    } else if d == 1 {
        proof { reveal_strlit("1"); }
        "1"
    } else if d == 2 {
        proof { reveal_strlit("2"); }
        "2"
    } else if d == 3 {
        proof { reveal_strlit("3"); }
        "3"
    } else if d == 4 {
        proof { reveal_strlit("4"); }
        "4"
    } else if d == 5 {
        proof { reveal_strlit("5"); }
        "5"
    } else if d == 6 {
        proof { reveal_strlit("6"); }
        "6"
    } else if d == 7 {
        proof { reveal_strlit("7"); }
        "7"
    } else if d == 8 {
        proof { reveal_strlit("8"); }
        "8"
    } else {
        proof { reveal_strlit("9"); }
        "9"
    }
}

/// `n` written in decimal.
pub fn decimal_text(n: u64) -> (r: String)
    ensures
        r@ == decimal_chars(n as nat),
    decreases n,
{
    let mut s = if n >= 10 {
        decimal_text(n / 10)
    } else {
        String::new()
    };
    s.append(digit_text(n % 10));
    proof {
        if n < 10 {
            assert(s@ =~= seq![digit_char(n as nat)]);
        }
    }
    s
}

} // verus!
