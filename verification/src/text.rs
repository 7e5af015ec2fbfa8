//! Text handling shared by the other modules: reading a string as a sequence
//! of characters, and writing numbers the way the gadget files expect them.
//!
//! All specifications speak of `Seq<char>`, the view of `str` and `String`.

use vstd::prelude::*;
use vstd::string::StringExecFns;

verus! {

// ---------------------------------------------------------------------------
// Writing numbers
// ---------------------------------------------------------------------------

/// The lower-case digit that stands for `d`, for `0 <= d < 16`.
pub open spec fn digit_char(d: int) -> char {
    if d == 0 {
        '0'
    } else if d == 1 {
        '1'
    } else if d == 2 {
        '2'
    } else if d == 3 {
        '3'
    } else if d == 4 {
        '4'
    } else if d == 5 {
        '5'
    } else if d == 6 {
        '6'
    } else if d == 7 {
        '7'
    } else if d == 8 {
        '8'
    } else if d == 9 {
        '9'
    } else if d == 10 {
        'a'
    } else if d == 11 {
        'b'
    } else if d == 12 {
        'c'
    } else if d == 13 {
        'd'
    } else if d == 14 {
        'e'
    } else {
        'f'
    }
}

/// The digits of `n` in `base`, most significant first, with no leading zero;
/// empty for zero.
pub open spec fn significant_digits(n: nat, base: nat) -> Seq<char>
    decreases n,
{
    if n == 0 || base < 2 {
        Seq::empty()
    } else {
        proof {
            assert(n / base < n) by (nonlinear_arith)
                requires
                    n > 0,
                    base >= 2,
            ;
        }
        significant_digits(n / base, base).push(digit_char((n % base) as int))
    }
}

/// `n` written in `base`: a single `0` for zero, otherwise its significant
/// digits.
pub open spec fn digits(n: nat, base: nat) -> Seq<char> {
    if n == 0 {
        seq!['0']
    } else {
        significant_digits(n, base)
    }
}

/// `count` copies of `c`.
pub open spec fn repeated(c: char, count: nat) -> Seq<char> {
    Seq::new(count, |i: int| c)
}

/// `s` with zeros in front until it is at least `width` long.
pub open spec fn zero_padded(s: Seq<char>, width: nat) -> Seq<char> {
    if s.len() >= width {
        s
    } else {
        repeated('0', (width - s.len()) as nat) + s
    }
}

/// `s` with blanks behind until it is at least `width` long.
pub open spec fn left_aligned(s: Seq<char>, width: nat) -> Seq<char> {
    if s.len() >= width {
        s
    } else {
        s + repeated(' ', (width - s.len()) as nat)
    }
}

/// Lower-case hexadecimal, zero-padded to `width` digits.
pub open spec fn hex_text(n: nat, width: nat) -> Seq<char> {
    zero_padded(digits(n, 16), width)
}

/// Plain decimal.
pub open spec fn decimal_text(n: nat) -> Seq<char> {
    digits(n, 10)
}

/// Decimal, zero-padded to `width` digits.
pub open spec fn decimal_padded(n: nat, width: nat) -> Seq<char> {
    zero_padded(digits(n, 10), width)
}

/// The characters for the digit values in `rev`, read from the back.
spec fn digit_chars_reversed(rev: Seq<u8>) -> Seq<char> {
    Seq::new(rev.len(), |i: int| digit_char(rev[rev.len() - 1 - i] as int))
}

fn digit_str(d: u8) -> (s: &'static str)
    requires
        d < 16,
    ensures
        s@ == seq![digit_char(d as int)],
{
    proof {
        reveal_strlit("0");
        reveal_strlit("1");
        reveal_strlit("2");
        reveal_strlit("3");
        reveal_strlit("4");
        reveal_strlit("5");
        reveal_strlit("6");
        reveal_strlit("7");
        reveal_strlit("8");
        reveal_strlit("9");
        reveal_strlit("a");
        reveal_strlit("b");
        reveal_strlit("c");
        reveal_strlit("d");
        reveal_strlit("e");
        reveal_strlit("f");
    }
    let s = match d {
        0 => "0",
        1 => "1",
        2 => "2",
        3 => "3",
        4 => "4",
        5 => "5",
        6 => "6",
        7 => "7",
        8 => "8",
        9 => "9",
        10 => "a",
        11 => "b",
        12 => "c",
        13 => "d",
        14 => "e",
        _ => "f",
    };
    assert(s@ =~= seq![digit_char(d as int)]);
    s
}

/// Appends `count` copies of the one-character string `unit` to `out`.
fn push_repeated(out: &mut String, unit: &str, count: usize)
    requires
        unit@.len() == 1,
    ensures
        final(out)@ == old(out)@ + repeated(unit@[0], count as nat),
{
    let ghost before = out@;
    let mut i: usize = 0;
    while i < count
        invariant
            i <= count,
            unit@.len() == 1,
            out@ == before + repeated(unit@[0], i as nat),
        decreases count - i,
    {
        out.append(unit);
        i = i + 1;
        assert(out@ =~= before + repeated(unit@[0], i as nat));
    }
}

/// Appends `value` in `base` to `out`, zero-padded to `width`. The base is
/// between 2 and 16, so that every digit has its character.
pub fn push_number(out: &mut String, value: u64, base: u64, width: usize)
    requires
        2 <= base <= 16,
    ensures
        final(out)@ == old(out)@ + zero_padded(digits(value as nat, base as nat), width as nat),
{
    let ghost before = out@;
    let mut rev: Vec<u8> = Vec::new();
    let mut rest: u64 = value;
    while rest > 0
        invariant
            2 <= base <= 16,
            forall|k: int| 0 <= k < rev.len() ==> rev[k] < 16,
            significant_digits(value as nat, base as nat) == significant_digits(
                rest as nat,
                base as nat,
            ) + digit_chars_reversed(rev@),
        decreases rest,
    {
        let ghost old_rev = rev@;
        let d: u64 = rest % base;
        rev.push(d as u8);
        assert(significant_digits(rest as nat, base as nat) == significant_digits(
            (rest / base) as nat,
            base as nat,
        ).push(digit_char(d as int)));
        assert(significant_digits((rest / base) as nat, base as nat).push(digit_char(d as int))
            + digit_chars_reversed(old_rev) =~= significant_digits(
            (rest / base) as nat,
            base as nat,
        ) + digit_chars_reversed(rev@));
        rest = rest / base;
    }
    assert(significant_digits(value as nat, base as nat) =~= digit_chars_reversed(rev@));
    if rev.len() == 0 {
        rev.push(0);
        assert(digit_chars_reversed(rev@) =~= seq!['0']);
    }
    let ghost body = digits(value as nat, base as nat);
    assert(body == digit_chars_reversed(rev@));
    let n = rev.len();
    if n < width {
        proof {
            reveal_strlit("0");
        }
        push_repeated(out, "0", width - n);
    }
    let ghost padding = if n < width {
        repeated('0', (width - n) as nat)
    } else {
        Seq::<char>::empty()
    };
    assert(out@ =~= before + padding);
    let mut i: usize = n;
    while i > 0
        invariant
            i <= n,
            n == rev.len(),
            forall|k: int| 0 <= k < rev.len() ==> rev[k] < 16,
            body == digit_chars_reversed(rev@),
            out@ == before + padding + body.subrange(0, n - i),
        decreases i,
    {
        i = i - 1;
        let unit = digit_str(rev[i]);
        out.append(unit);
        assert(out@ =~= before + padding + body.subrange(0, n - i));
    }
    assert(before + padding + body.subrange(0, n as int) =~= before + zero_padded(
        body,
        width as nat,
    ));
}

/// Appends `value` in lower-case hexadecimal, zero-padded to `width` digits.
pub fn push_hex(out: &mut String, value: u64, width: usize)
    ensures
        final(out)@ == old(out)@ + hex_text(value as nat, width as nat),
{
    push_number(out, value, 16, width);
}

/// Appends `value` in decimal, zero-padded to `width` digits.
pub fn push_decimal(out: &mut String, value: u64, width: usize)
    ensures
        final(out)@ == old(out)@ + decimal_padded(value as nat, width as nat),
{
    push_number(out, value, 10, width);
}

/// Appends `s` and then blanks until `width` characters have been written.
pub fn push_left_aligned(out: &mut String, s: &str, width: usize)
    ensures
        final(out)@ == old(out)@ + left_aligned(s@, width as nat),
{
    let ghost before = out@;
    let n = s.unicode_len();
    out.append(s);
    if n < width {
        proof {
            reveal_strlit(" ");
        }
        push_repeated(out, " ", width - n);
    }
    assert(out@ =~= before + left_aligned(s@, width as nat));
}

/// `value` in decimal, as a string of its own.
pub fn decimal_string(value: u64) -> (s: String)
    ensures
        s@ == decimal_text(value as nat),
{
    let mut s = String::new();
    push_number(&mut s, value, 10, 0);
    assert(s@ =~= decimal_text(value as nat));
    s
}

/// `0x` followed by four or more lower-case hexadecimal digits.
pub open spec fn hex_word_text(value: u16) -> Seq<char> {
    "0x"@ + hex_text(value as nat, 4)
}

/// `value` the way the gadget's id and version files take it: `0x` and four
/// hexadecimal digits.
pub fn hex_word_string(value: u16) -> (s: String)
    ensures
        s@ == hex_word_text(value),
{
    let mut s = String::from_str("0x");
    push_hex(&mut s, value as u64, 4);
    s
}

// ---------------------------------------------------------------------------
// Reading text
// ---------------------------------------------------------------------------

/// The characters of `s`, in order.
pub fn chars_of(s: &str) -> (v: Vec<char>)
    ensures
        v@ == s@,
{
    let mut v: Vec<char> = Vec::new();
    for c in it: s.chars()
        invariant
            v@ == it.seq().subrange(0, it.index() as int),
            it.seq() == s@,
    {
        v.push(c);
    }
    v
}

/// Characters that count as white space: the Unicode `White_Space` set.
pub open spec fn is_space(c: char) -> bool {
    let u = c as u32;
    (0x09 <= u <= 0x0D) || u == 0x20 || u == 0x85 || u == 0xA0 || u == 0x1680 || (0x2000 <= u
        <= 0x200A) || u == 0x2028 || u == 0x2029 || u == 0x202F || u == 0x205F || u == 0x3000
}

pub fn is_space_char(c: char) -> (b: bool)
    ensures
        b == is_space(c),
{
    let u: u32 = c as u32;
    (0x09 <= u && u <= 0x0D) || u == 0x20 || u == 0x85 || u == 0xA0 || u == 0x1680 || (0x2000 <= u
        && u <= 0x200A) || u == 0x2028 || u == 0x2029 || u == 0x202F || u == 0x205F || u
        == 0x3000
}

/// `s` without its leading white space.
pub open spec fn trim_start(s: Seq<char>) -> Seq<char>
    decreases s.len(),
{
    if s.len() > 0 && is_space(s[0]) {
        trim_start(s.drop_first())
    } else {
        s
    }
}

/// `s` without its trailing white space.
pub open spec fn trim_end(s: Seq<char>) -> Seq<char>
    decreases s.len(),
{
    if s.len() > 0 && is_space(s.last()) {
        trim_end(s.drop_last())
    } else {
        s
    }
}

/// `s` without leading and trailing white space.
pub open spec fn trimmed(s: Seq<char>) -> Seq<char> {
    trim_end(trim_start(s))
}

/// The bounds of the trimmed part of `chars[from..to]`.
pub fn trim_range(chars: &Vec<char>, from: usize, to: usize) -> (r: (usize, usize))
    requires
        from <= to <= chars.len(),
    ensures
        from <= r.0 <= r.1 <= to,
        chars@.subrange(r.0 as int, r.1 as int) == trimmed(chars@.subrange(from as int, to as int)),
{
    let mut a: usize = from;
    while a < to && is_space_char(chars[a])
        invariant
            from <= a <= to <= chars.len(),
            trim_start(chars@.subrange(from as int, to as int)) == trim_start(
                chars@.subrange(a as int, to as int),
            ),
        decreases to - a,
    {
        assert(chars@.subrange(a as int, to as int).drop_first() =~= chars@.subrange(
            a + 1,
            to as int,
        ));
        a = a + 1;
    }
    assert(trim_start(chars@.subrange(a as int, to as int)) == chars@.subrange(a as int, to as int));
    let mut b: usize = to;
    while a < b && is_space_char(chars[b - 1])
        invariant
            a <= b <= to <= chars.len(),
            trim_end(chars@.subrange(a as int, to as int)) == trim_end(
                chars@.subrange(a as int, b as int),
            ),
        decreases b,
    {
        assert(chars@.subrange(a as int, b as int).drop_last() =~= chars@.subrange(
            a as int,
            b - 1,
        ));
        b = b - 1;
    }
    assert(trim_end(chars@.subrange(a as int, b as int)) == chars@.subrange(a as int, b as int));
    (a, b)
}

/// `s` begins with `prefix`.
pub open spec fn has_prefix(s: Seq<char>, prefix: Seq<char>) -> bool {
    prefix.len() <= s.len() && s.subrange(0, prefix.len() as int) == prefix
}

/// `s` ends with `suffix`.
pub open spec fn has_suffix(s: Seq<char>, suffix: Seq<char>) -> bool {
    suffix.len() <= s.len() && s.subrange(s.len() - suffix.len(), s.len() as int) == suffix
}

/// `needle` occurs in `s` at position `at`.
pub open spec fn occurs_at(s: Seq<char>, at: int, needle: Seq<char>) -> bool {
    0 <= at && at + needle.len() <= s.len() && s.subrange(at, at + needle.len()) == needle
}

/// `needle` occurs somewhere in `s`.
pub open spec fn contains_text(s: Seq<char>, needle: Seq<char>) -> bool {
    exists|at: int| occurs_at(s, at, needle)
}

/// Whether `pattern` stands in `chars` at index `at`, inside `chars[..to]`.
pub fn matches_at(chars: &Vec<char>, at: usize, to: usize, pattern: &Vec<char>) -> (b: bool)
    requires
        at <= to <= chars.len(),
    ensures
        b == occurs_at(chars@.subrange(0, to as int), at as int, pattern@),
{
    let n = pattern.len();
    if n > to - at {
        return false;
    }
    let mut i: usize = 0;
    while i < n
        invariant
            i <= n,
            n == pattern.len(),
            at + n <= to <= chars.len(),
            forall|k: int| 0 <= k < i ==> chars[at + k] == pattern[k],
        decreases n - i,
    {
        if chars[at + i] != pattern[i] {
            assert(chars@.subrange(0, to as int).subrange(at as int, at + n)[i as int]
                != pattern@[i as int]);
            return false;
        }
        i = i + 1;
    }
    assert(chars@.subrange(0, to as int).subrange(at as int, at + n) =~= pattern@);
    true
}

/// Whether `text` and `other` hold the same characters.
pub fn same_text(text: &str, other: &str) -> (b: bool)
    ensures
        b == (text@ == other@),
{
    let a = chars_of(text);
    let p = chars_of(other);
    if a.len() != p.len() {
        return false;
    }
    let b = matches_at(&a, 0, a.len(), &p);
    assert(a@.subrange(0, a.len() as int) =~= a@);
    assert(a@.subrange(0, p.len() as int) =~= a@);
    b
}

/// Whether `text` begins with `prefix`.
pub fn starts_with(text: &str, prefix: &str) -> (b: bool)
    ensures
        b == has_prefix(text@, prefix@),
{
    let a = chars_of(text);
    let p = chars_of(prefix);
    let b = matches_at(&a, 0, a.len(), &p);
    assert(a@.subrange(0, a.len() as int) =~= a@);
    b
}

/// Whether `text` ends with `suffix`.
pub fn ends_with(text: &str, suffix: &str) -> (b: bool)
    ensures
        b == has_suffix(text@, suffix@),
{
    let a = chars_of(text);
    let p = chars_of(suffix);
    if p.len() > a.len() {
        return false;
    }
    let b = matches_at(&a, a.len() - p.len(), a.len(), &p);
    assert(a@.subrange(0, a.len() as int) =~= a@);
    b
}

/// Whether `needle` occurs in `text`.
pub fn contains(text: &str, needle: &str) -> (b: bool)
    ensures
        b == contains_text(text@, needle@),
{
    let a = chars_of(text);
    let p = chars_of(needle);
    let n = a.len();
    assert(a@.subrange(0, n as int) =~= a@);
    if p.len() > n {
        return false;
    }
    let last = n - p.len();
    let mut i: usize = 0;
    loop
        invariant
            n == a.len(),
            last == n - p.len(),
            i <= last,
            a@.subrange(0, n as int) == a@,
            a@ == text@,
            p@ == needle@,
            forall|k: int| 0 <= k < i ==> !occurs_at(a@, k, p@),
        decreases last - i,
    {
        if matches_at(&a, i, n, &p) {
            assert(occurs_at(text@, i as int, needle@));
            return true;
        }
        if i == last {
            return false;
        }
        i = i + 1;
    }
}

} // verus!
