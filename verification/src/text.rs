//! Text helpers shared by the rest of the library.
//!
//! A string is viewed as its sequence of characters; every helper states its
//! result over that view.

use vstd::prelude::*;
use vstd::string::StringExecFns;

verus! {

/// `String::push` appends one character at the end of the string.
pub assume_specification[ std::string::String::push ](s: &mut std::string::String, c: char)
    ensures
        final(s)@ == old(s)@.push(c),
;

/// The views of a vector of strings, element by element.
pub open spec fn texts(v: Seq<String>) -> Seq<Seq<char>> {
    Seq::new(v.len(), |i: int| v[i]@)
}

/// `s` with every character that occurs in `targets` replaced by `with`.
pub open spec fn replaced(s: Seq<char>, targets: Seq<char>, with: Seq<char>) -> Seq<char>
    decreases s.len(),
{
    if s.len() == 0 {
        Seq::empty()
    } else {
        let head = replaced(s.drop_last(), targets, with);
        if targets.contains(s.last()) {
            head + with
        } else {
            head.push(s.last())
        }
    }
}

/// The parts written one after the other with `sep` between neighbours.
pub open spec fn joined(parts: Seq<Seq<char>>, sep: Seq<char>) -> Seq<char>
    decreases parts.len(),
{
    if parts.len() == 0 {
        Seq::empty()
    } else if parts.len() == 1 {
        parts[0]
    } else {
        joined(parts.drop_last(), sep) + sep + parts.last()
    }
}

/// The pieces of `s` between occurrences of `sep`. There is always at least
/// one piece; an empty string has one empty piece.
pub open spec fn pieces(s: Seq<char>, sep: char) -> Seq<Seq<char>>
    decreases s.len(),
{
    if s.len() == 0 {
        seq![Seq::empty()]
    } else {
        let head = pieces(s.drop_last(), sep);
        if s.last() == sep {
            head.push(Seq::empty())
        } else {
            head.update(head.len() - 1, head.last().push(s.last()))
        }
    }
}

/// The first position at which `needle` stands in `items`.
pub open spec fn first_index(items: Seq<Seq<char>>, needle: Seq<char>) -> Option<int>
    decreases items.len(),
{
    if items.len() == 0 {
        None
    } else {
        match first_index(items.drop_last(), needle) {
            Some(i) => Some(i),
            None => if items.last() == needle {
                Some(items.len() - 1)
            } else {
                None
            },
        }
    }
}

/// Whether `c` is one of the ten ASCII digits.
pub open spec fn is_digit(c: char) -> bool {
    48 <= c as u32 <= 57
}

/// The value of an ASCII digit.
pub open spec fn digit_value(c: char) -> nat {
    (c as u32 - 48) as nat
}

/// The ASCII digit of a value below ten.
pub open spec fn digit(d: nat) -> char {
    ((d + 48) as u8) as char
}

/// Whether `s` holds ASCII digits only.
pub open spec fn all_digits(s: Seq<char>) -> bool {
    forall|i: int| 0 <= i < s.len() ==> is_digit(#[trigger] s[i])
}

/// The number that a run of digits writes in base ten.
pub open spec fn digits_value(s: Seq<char>) -> nat
    decreases s.len(),
{
    if s.len() == 0 {
        0
    } else {
        digits_value(s.drop_last()) * 10 + digit_value(s.last())
    }
}

/// The digits of `n` in base ten, without leading zeros.
pub open spec fn decimal(n: nat) -> Seq<char>
    decreases n,
{
    if n < 10 {
        seq![digit(n)]
    } else {
        decimal(n / 10).push(digit(n % 10))
    }
}

/// `n` in base ten, with a leading zero where it has a single digit.
pub open spec fn two_digits(n: nat) -> Seq<char> {
    if n < 10 {
        seq!['0'] + decimal(n)
    } else {
        decimal(n)
    }
}

/// A signed number in base ten.
pub open spec fn signed_decimal(i: int) -> Seq<char> {
    if i < 0 {
        seq!['-'] + decimal((-i) as nat)
    } else {
        decimal(i as nat)
    }
}

/// The number that `s` writes: one or more digits.
pub open spec fn parsed_nat(s: Seq<char>) -> Option<nat> {
    if s.len() > 0 && all_digits(s) {
        Some(digits_value(s))
    } else {
        None
    }
}

/// The number that `s` writes: an optional sign, then one or more digits.
pub open spec fn parsed_int(s: Seq<char>) -> Option<int> {
    if s.len() > 0 && s[0] == '-' {
        match parsed_nat(s.skip(1)) {
            Some(n) => Some(-(n as int)),
            None => None,
        }
    } else if s.len() > 0 && s[0] == '+' {
        match parsed_nat(s.skip(1)) {
            Some(n) => Some(n as int),
            None => None,
        }
    } else {
        match parsed_nat(s) {
            Some(n) => Some(n as int),
            None => None,
        }
    }
}

/// The 32-bit number that `s` writes, if it writes one that fits.
pub open spec fn parsed_i32(s: Seq<char>) -> Option<i32> {
    match parsed_int(s) {
        Some(v) => if i32::MIN <= v <= i32::MAX {
            Some(v as i32)
        } else {
            None
        },
        None => None,
    }
}

/// The characters of `s`, in order.
pub fn chars_of(s: &str) -> (v: Vec<char>)
    ensures
        v@ == s@,
{
    let mut v: Vec<char> = Vec::new();
    for c in it: s.chars()
        invariant
            v@ == it.seq().take(it.index() as int),
            it.seq() == s@,
    {
        v.push(c);
    }
    v
}

/// The string made of the characters of `v`, in order.
pub fn text_of(v: &Vec<char>) -> (s: String)
    ensures
        s@ == v@,
{
    let mut s = String::new();
    let mut i: usize = 0;
    while i < v.len()
        invariant
            i <= v.len(),
            s@ == v@.take(i as int),
        decreases v.len() - i,
    {
        s.push(v[i]);
        i += 1;
    }
    s
}

/// Whether two strings hold the same characters.
pub fn same_text(a: &str, b: &str) -> (r: bool)
    ensures
        r == (a@ == b@),
{
    let x = a.to_owned();
    let y = b.to_owned();
    x == y
}

/// `a` followed by `b`.
pub fn concat2(a: &str, b: &str) -> (r: String)
    ensures
        r@ == a@ + b@,
{
    let mut r = a.to_owned();
    r.append(b);
    r
}

/// `a`, `b` and `c` one after the other.
pub fn concat3(a: &str, b: &str, c: &str) -> (r: String)
    ensures
        r@ == a@ + b@ + c@,
{
    let mut r = a.to_owned();
    r.append(b);
    r.append(c);
    r
}

/// Whether `c` occurs in `v`.
pub fn has_char(v: &Vec<char>, c: char) -> (r: bool)
    ensures
        r == v@.contains(c),
{
    let mut i: usize = 0;
    while i < v.len()
        invariant
            i <= v.len(),
            forall|j: int| 0 <= j < i ==> v@[j] != c,
        decreases v.len() - i,
    {
        if v[i] == c {
            return true;
        }
        i += 1;
    }
    false
}

/// Replaces every character of `s` that occurs in `targets` by `with`.
pub fn replace_chars(s: &str, targets: &Vec<char>, with: &str) -> (r: String)
    ensures
        r@ == replaced(s@, targets@, with@),
{
    let chars = chars_of(s);
    let mut out = String::new();
    let mut i: usize = 0;
    while i < chars.len()
        invariant
            i <= chars.len(),
            chars@ == s@,
            out@ == replaced(chars@.take(i as int), targets@, with@),
        decreases chars.len() - i,
    {
        let c = chars[i];
        proof {
            let next = chars@.take(i + 1);
            assert(next.drop_last() == chars@.take(i as int));
            assert(next.last() == c);
        }
        if has_char(targets, c) {
            out.append(with);
        } else {
            out.push(c);
        }
        i += 1;
    }
    proof {
        assert(chars@.take(chars.len() as int) == chars@);
    }
    out
}

/// Writes the parts one after the other with `sep` between neighbours.
pub fn join(parts: &Vec<String>, sep: &str) -> (r: String)
    ensures
        r@ == joined(texts(parts@), sep@),
{
    let mut out = String::new();
    let mut i: usize = 0;
    while i < parts.len()
        invariant
            i <= parts.len(),
            out@ == joined(texts(parts@).take(i as int), sep@),
        decreases parts.len() - i,
    {
        proof {
            let next = texts(parts@).take(i + 1);
            assert(next.drop_last() == texts(parts@).take(i as int));
            assert(next.last() == parts@[i as int]@);
            if i == 0 {
                assert(out@ + parts@[0]@ == parts@[0]@);
            }
        }
        if i > 0 {
            out.append(sep);
        }
        out.append(parts[i].as_str());
        i += 1;
    }
    proof {
        assert(texts(parts@).take(parts.len() as int) == texts(parts@));
    }
    out
}

/// There is always at least one piece.
pub proof fn lemma_pieces_nonempty(s: Seq<char>, sep: char)
    ensures
        pieces(s, sep).len() >= 1,
    decreases s.len(),
{
    if s.len() > 0 {
        lemma_pieces_nonempty(s.drop_last(), sep);
    }
}

/// Cuts `s` at every occurrence of `sep`.
pub fn split(s: &str, sep: char) -> (r: Vec<String>)
    ensures
        texts(r@) == pieces(s@, sep),
{
    let chars = chars_of(s);
    let mut done: Vec<String> = Vec::new();
    let mut cur = String::new();
    let mut i: usize = 0;
    proof {
        assert(texts(done@).push(cur@) == pieces(chars@.take(0), sep));
    }
    while i < chars.len()
        invariant
            i <= chars.len(),
            chars@ == s@,
            texts(done@).push(cur@) == pieces(chars@.take(i as int), sep),
        decreases chars.len() - i,
    {
        let c = chars[i];
        proof {
            let next = chars@.take(i + 1);
            assert(next.drop_last() == chars@.take(i as int));
            assert(next.last() == c);
        }
        let ghost before = texts(done@).push(cur@);
        if c == sep {
            done.push(cur);
            cur = String::new();
            proof {
                assert(texts(done@) == before);
            }
        } else {
            cur.push(c);
            proof {
                assert(texts(done@).push(cur@) == before.update(
                    before.len() - 1,
                    before.last().push(c),
                ));
            }
        }
        i += 1;
    }
    proof {
        assert(chars@.take(chars.len() as int) == chars@);
    }
    done.push(cur);
    proof {
        assert(texts(done@) == pieces(s@, sep));
    }
    done
}

/// Whether `s` begins with `prefix`.
pub fn starts_with(s: &str, prefix: &str) -> (r: bool)
    ensures
        r == prefix@.is_prefix_of(s@),
{
    let a = chars_of(s);
    let b = chars_of(prefix);
    if b.len() > a.len() {
        return false;
    }
    let mut i: usize = 0;
    while i < b.len()
        invariant
            i <= b.len(),
            b.len() <= a.len(),
            a@ == s@,
            b@ == prefix@,
            forall|j: int| 0 <= j < i ==> a@[j] == b@[j],
        decreases b.len() - i,
    {
        if a[i] != b[i] {
            proof {
                assert(a@.subrange(0, b@.len() as int)[i as int] == a@[i as int]);
            }
            return false;
        }
        i += 1;
    }
    proof {
        assert(b@ =~= a@.subrange(0, b@.len() as int));
    }
    true
}

/// Whether `s` ends with `suffix`.
pub fn ends_with(s: &str, suffix: &str) -> (r: bool)
    ensures
        r == suffix@.is_suffix_of(s@),
{
    let a = chars_of(s);
    let b = chars_of(suffix);
    if b.len() > a.len() {
        return false;
    }
    let off = a.len() - b.len();
    let mut i: usize = 0;
    while i < b.len()
        invariant
            i <= b.len(),
            b.len() <= a.len(),
            a@ == s@,
            b@ == suffix@,
            off == a.len() - b.len(),
            forall|j: int| 0 <= j < i ==> a@[off + j] == b@[j],
        decreases b.len() - i,
    {
        if a[off + i] != b[i] {
            proof {
                assert(a@.subrange(off as int, a@.len() as int)[i as int] == a@[off + i]);
            }
            return false;
        }
        i += 1;
    }
    proof {
        assert(b@ =~= a@.subrange(off as int, a@.len() as int));
    }
    true
}

/// Whether `c` occurs in `s`.
pub fn contains_char(s: &str, c: char) -> (r: bool)
    ensures
        r == s@.contains(c),
{
    let chars = chars_of(s);
    has_char(&chars, c)
}

/// The first position at which `needle` stands in `items`.
pub fn position(items: &Vec<String>, needle: &str) -> (r: Option<usize>)
    ensures
        match first_index(texts(items@), needle@) {
            Some(i) => r == Some(i as usize) && 0 <= i < items.len(),
            None => r is None,
        },
{
    let mut i: usize = 0;
    while i < items.len()
        invariant
            i <= items.len(),
            first_index(texts(items@).take(i as int), needle@) is None,
        decreases items.len() - i,
    {
        proof {
            let next = texts(items@).take(i + 1);
            assert(next.drop_last() == texts(items@).take(i as int));
            assert(next.last() == items@[i as int]@);
        }
        if same_text(items[i].as_str(), needle) {
            proof {
                lemma_first_index_extends(texts(items@), needle@, i + 1);
            }
            return Some(i);
        }
        i += 1;
    }
    proof {
        assert(texts(items@).take(items.len() as int) == texts(items@));
    }
    None
}

/// A position found in a prefix is the position found in the whole.
pub proof fn lemma_first_index_extends(items: Seq<Seq<char>>, needle: Seq<char>, n: int)
    requires
        0 <= n <= items.len(),
        first_index(items.take(n), needle) is Some,
    ensures
        first_index(items, needle) == first_index(items.take(n), needle),
    decreases items.len() - n,
{
    if n < items.len() {
        assert(items.take(n + 1).drop_last() == items.take(n));
        lemma_first_index_extends(items, needle, n + 1);
    } else {
        assert(items.take(n) == items);
    }
}

/// What `first_index` finds: the least position that holds `needle`.
pub proof fn lemma_first_index_is_least(items: Seq<Seq<char>>, needle: Seq<char>)
    ensures
        match first_index(items, needle) {
            Some(i) => 0 <= i < items.len() && items[i] == needle && forall|j: int|
                0 <= j < i ==> items[j] != needle,
            None => forall|j: int| 0 <= j < items.len() ==> items[j] != needle,
        },
    decreases items.len(),
{
    if items.len() > 0 {
        lemma_first_index_is_least(items.drop_last(), needle);
        assert(forall|j: int| 0 <= j < items.len() - 1 ==> items.drop_last()[j] == items[j]);
    }
}

/// The ASCII digit of a value below ten.
pub fn digit_char(d: u8) -> (c: char)
    requires
        d < 10,
    ensures
        c == digit(d as nat),
        is_digit(c),
        digit_value(c) == d,
{
    (d + 48) as char
}

/// Appends the digits of `n` in base ten.
pub fn push_decimal(out: &mut String, n: u64)
    ensures
        final(out)@ == old(out)@ + decimal(n as nat),
    decreases n,
{
    if n >= 10 {
        push_decimal(out, n / 10);
    }
    out.push(digit_char((n % 10) as u8));
    proof {
        if n >= 10 {
            assert(final(out)@ == old(out)@ + decimal((n / 10) as nat).push(digit((n % 10) as nat)));
        } else {
            assert(final(out)@ == old(out)@ + seq![digit(n as nat)]);
        }
    }
}

/// `n` in base ten.
pub fn decimal_text(n: u64) -> (r: String)
    ensures
        r@ == decimal(n as nat),
{
    let mut out = String::new();
    push_decimal(&mut out, n);
    proof {
        assert(Seq::<char>::empty() + decimal(n as nat) == decimal(n as nat));
    }
    out
}

/// `n` in base ten, with a leading zero where it has a single digit.
pub fn two_digit_text(n: u32) -> (r: String)
    ensures
        r@ == two_digits(n as nat),
{
    let mut out = String::new();
    if n < 10 {
        out.push('0');
    }
    push_decimal(&mut out, n as u64);
    proof {
        assert(Seq::<char>::empty() + decimal(n as nat) == decimal(n as nat));
        assert(Seq::<char>::empty().push('0') == seq!['0']);
    }
    out
}

/// A signed number in base ten.
pub fn signed_text(i: i32) -> (r: String)
    ensures
        r@ == signed_decimal(i as int),
{
    let mut out = String::new();
    let wide: i64 = i as i64;
    if wide < 0 {
        out.push('-');
        push_decimal(&mut out, (0 - wide) as u64);
        proof {
            assert(Seq::<char>::empty().push('-') == seq!['-']);
        }
    } else {
        push_decimal(&mut out, wide as u64);
        proof {
            assert(Seq::<char>::empty() + decimal(i as nat) == decimal(i as nat));
        }
    }
    out
}

/// Reads a number written as one or more digits, if it is at most `limit`.
fn read_digits(chars: &Vec<char>, from: usize, limit: u64) -> (r: Option<u64>)
    requires
        from <= chars.len(),
        limit < 1_000_000_000_000,
    ensures
        match parsed_nat(chars@.skip(from as int)) {
            Some(n) => if n <= limit {
                r == Some(n as u64)
            } else {
                r is None
            },
            None => r is None,
        },
{
    let ghost s = chars@.skip(from as int);
    if from == chars.len() {
        return None;
    }
    let mut acc: u64 = 0;
    let mut i: usize = from;
    while i < chars.len()
        invariant
            from <= i <= chars.len(),
            s == chars@.skip(from as int),
            limit < 1_000_000_000_000,
            all_digits(s.take(i - from)),
            acc <= limit + 1,
            digits_value(s.take(i - from)) <= limit ==> acc == digits_value(s.take(i - from)),
            digits_value(s.take(i - from)) > limit ==> acc == limit + 1,
        decreases chars.len() - i,
    {
        let c = chars[i];
        let v = c as u32;
        proof {
            let next = s.take(i + 1 - from);
            assert(next.drop_last() == s.take(i - from));
            assert(next.last() == c);
        }
        if v < 48 || v > 57 {
            proof {
                assert(s[i - from] == c);
                assert(!is_digit(s[i - from]));
            }
            return None;
        }
        let d = (v - 48) as u64;
        if acc <= limit {
            let wide = acc * 10 + d;
            acc = if wide > limit {
                limit + 1
            } else {
                wide
            };
        }
        proof {
            let next = s.take(i + 1 - from);
            assert(all_digits(next)) by {
                assert forall|j: int| 0 <= j < next.len() implies is_digit(#[trigger] next[j]) by {
                    if j < i - from {
                        assert(next[j] == s.take(i - from)[j]);
                    }
                }
            }
        }
        i += 1;
    }
    proof {
        assert(s.take(chars.len() - from) == s);
    }
    if acc > limit {
        None
    } else {
        Some(acc)
    }
}

/// Reads a number written as one or more digits, if it is at most `limit`.
pub fn parse_nat(s: &str, limit: u32) -> (r: Option<u32>)
    ensures
        match parsed_nat(s@) {
            Some(n) => if n <= limit {
                r == Some(n as u32)
            } else {
                r is None
            },
            None => r is None,
        },
{
    let chars = chars_of(s);
    proof {
        assert(chars@.skip(0) == s@);
    }
    match read_digits(&chars, 0, limit as u64) {
        Some(n) => Some(n as u32),
        None => None,
    }
}

/// Reads a 32-bit number: an optional sign, then one or more digits.
pub fn parse_i32(s: &str) -> (r: Option<i32>)
    ensures
        r == parsed_i32(s@),
{
    let chars = chars_of(s);
    if chars.len() == 0 {
        return None;
    }
    let first = chars[0];
    if first == '-' {
        match read_digits(&chars, 1, 2147483648) {
            Some(n) => Some((0 - (n as i64)) as i32),
            None => None,
        }
    } else if first == '+' {
        match read_digits(&chars, 1, 2147483647) {
            Some(n) => Some(n as i32),
            None => None,
        }
    } else {
        proof {
            assert(chars@.skip(0) == s@);
        }
        match read_digits(&chars, 0, 2147483647) {
            Some(n) => Some(n as i32),
            None => None,
        }
    }
}

/// The empty literal holds no character.
pub proof fn lemma_empty_literal()
    ensures
        ""@ == Seq::<char>::empty(),
{
    reveal_strlit("");
    assert(""@ =~= Seq::<char>::empty());
}

/// Whether `a` stands before `b`, or is `b`, in the order of a dictionary
/// that compares character by character, by code point.
pub open spec fn in_order(a: Seq<char>, b: Seq<char>) -> bool
    decreases a.len(),
{
    if a.len() == 0 {
        true
    } else if b.len() == 0 {
        false
    } else if a[0] != b[0] {
        (a[0] as u32) < (b[0] as u32)
    } else {
        in_order(a.skip(1), b.skip(1))
    }
}

/// Whether each text stands before its successor, or equals it.
pub open spec fn ascending(v: Seq<Seq<char>>) -> bool {
    forall|i: int, j: int| 0 <= i <= j < v.len() ==> in_order(#[trigger] v[i], #[trigger] v[j])
}

/// Calls the `sort` of a vector of strings. As the standard library
/// documents, the vector then holds the same strings in ascending order;
/// strings are ordered byte by byte, which for UTF-8 is the order of the code
/// points.
#[verifier::external_body]
pub(crate) fn sort_texts(v: &mut Vec<String>)
    ensures
        ascending(texts(final(v)@)),
        texts(final(v)@).to_multiset() == texts(old(v)@).to_multiset(),
{
    v.sort();
}

/// `s` with every occurrence of `pattern` replaced by `with`, found from the
/// left, an occurrence beginning where the one before it ended at the
/// earliest.
pub open spec fn substituted(s: Seq<char>, pattern: Seq<char>, with: Seq<char>) -> Seq<char>
    decreases s.len(),
{
    if pattern.len() == 0 || s.len() < pattern.len() {
        s
    } else if pattern.is_prefix_of(s) {
        with + substituted(s.skip(pattern.len() as int), pattern, with)
    } else {
        seq![s[0]] + substituted(s.skip(1), pattern, with)
    }
}

/// Whether `pattern` stands in `chars` at position `at`.
fn stands_at(chars: &Vec<char>, at: usize, pattern: &Vec<char>) -> (r: bool)
    requires
        at <= chars.len(),
    ensures
        r == pattern@.is_prefix_of(chars@.skip(at as int)),
{
    if pattern.len() > chars.len() - at {
        return false;
    }
    let ghost rest = chars@.skip(at as int);
    let mut i: usize = 0;
    while i < pattern.len()
        invariant
            i <= pattern.len(),
            at + pattern.len() <= chars.len(),
            rest == chars@.skip(at as int),
            forall|j: int| 0 <= j < i ==> chars@[at + j] == pattern@[j],
        decreases pattern.len() - i,
    {
        if chars[at + i] != pattern[i] {
            proof {
                assert(rest.subrange(0, pattern@.len() as int)[i as int] == chars@[at + i]);
            }
            return false;
        }
        i += 1;
    }
    proof {
        assert(pattern@ =~= rest.subrange(0, pattern@.len() as int));
    }
    true
}

/// Replaces every occurrence of `pattern` in `s` by `with`. An empty pattern
/// leaves the text as it is.
pub fn substitute(s: &str, pattern: &str, with: &str) -> (r: String)
    ensures
        r@ == substituted(s@, pattern@, with@),
{
    let chars = chars_of(s);
    let pat = chars_of(pattern);
    if pat.len() == 0 {
        return s.to_owned();
    }
    let mut out = String::new();
    let mut i: usize = 0;
    proof {
        assert(chars@.skip(0) == chars@);
        assert(out@ + substituted(chars@, pat@, with@) == substituted(chars@, pat@, with@));
    }
    while i < chars.len()
        invariant
            i <= chars.len(),
            chars@ == s@,
            pat@ == pattern@,
            pat.len() > 0,
            out@ + substituted(chars@.skip(i as int), pat@, with@) == substituted(
                chars@,
                pat@,
                with@,
            ),
        decreases chars.len() - i,
    {
        let ghost rest = chars@.skip(i as int);
        if stands_at(&chars, i, &pat) {
            proof {
                assert(rest.skip(pat@.len() as int) == chars@.skip(i + pat@.len()));
                assert(out@ + (with@ + substituted(rest.skip(pat@.len() as int), pat@, with@))
                    == (out@ + with@) + substituted(rest.skip(pat@.len() as int), pat@, with@));
            }
            out.append(with);
            i += pat.len();
        } else {
            proof {
                assert(rest.skip(1) == chars@.skip(i + 1));
                assert(rest[0] == chars@[i as int]);
                if rest.len() < pat@.len() {
                    // the rest is kept as it is
                    assert(substituted(rest, pat@, with@) == rest);
                }
            }
            if chars.len() - i < pat.len() {
                // nothing can match any more: copy what is left
                let mut j: usize = i;
                while j < chars.len()
                    invariant
                        i <= j <= chars.len(),
                        out@ + chars@.subrange(j as int, chars@.len() as int) == substituted(
                            chars@,
                            pat@,
                            with@,
                        ),
                    decreases chars.len() - j,
                {
                    proof {
                        let tail = chars@.subrange(j as int, chars@.len() as int);
                        assert(tail == seq![chars@[j as int]] + chars@.subrange(
                            j + 1,
                            chars@.len() as int,
                        ));
                        assert(out@ + (seq![chars@[j as int]] + chars@.subrange(
                            j + 1,
                            chars@.len() as int,
                        )) == out@.push(chars@[j as int]) + chars@.subrange(
                            j + 1,
                            chars@.len() as int,
                        ));
                    }
                    out.push(chars[j]);
                    j += 1;
                }
                proof {
                    assert(chars@.subrange(chars@.len() as int, chars@.len() as int)
                        == Seq::<char>::empty());
                    assert(out@ + Seq::<char>::empty() == out@);
                }
                return out;
            }
            proof {
                assert(out@ + (seq![rest[0]] + substituted(rest.skip(1), pat@, with@))
                    == out@.push(rest[0]) + substituted(rest.skip(1), pat@, with@));
            }
            out.push(chars[i]);
            i += 1;
        }
    }
    proof {
        assert(chars@.skip(chars@.len() as int) == Seq::<char>::empty());
        assert(out@ + Seq::<char>::empty() == out@);
    }
    out
}

} // verus!
