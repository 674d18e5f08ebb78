//! Small text operations on `&str`, stated over the strings' characters.

use vstd::prelude::*;

verus! {

/// Whether `a` and `b` hold the same characters.
pub fn str_equals(a: &str, b: &str) -> (r: bool)
    ensures
        r == (a@ == b@),
{
    let n = a.unicode_len();
    if n != b.unicode_len() {
        return false;
    }
    let mut i: usize = 0;
    while i < n
        invariant
            n == a@.len(),
            n == b@.len(),
            i <= n,
            a@.subrange(0, i as int) == b@.subrange(0, i as int),
        decreases n - i,
    {
        if a.get_char(i) != b.get_char(i) {
            assert(a@[i as int] != b@[i as int]);
            return false;
        }
        assert(a@.subrange(0, i + 1) == a@.subrange(0, i as int).push(a@[i as int]));
        assert(b@.subrange(0, i + 1) == b@.subrange(0, i as int).push(b@[i as int]));
        i = i + 1;
    }
    assert(a@ == a@.subrange(0, n as int));
    assert(b@ == b@.subrange(0, n as int));
    true
}

/// `c` with an ASCII upper-case letter mapped to lower case.
pub open spec fn ascii_lower(c: char) -> char {
    if 'A' <= c && c <= 'Z' {
        (((c as u8) + 32) as u8) as char
    } else {
        c
    }
}

/// The characters of `s`, each with ASCII letters in lower case.
pub open spec fn ascii_lowered(s: Seq<char>) -> Seq<char> {
    s.map_values(|c: char| ascii_lower(c))
}

fn to_ascii_lower(c: char) -> (r: char)
    ensures
        r == ascii_lower(c),
{
    if 'A' <= c && c <= 'Z' {
        ((c as u8) + 32) as char
    } else {
        c
    }
}

/// Whether `a` and `b` are equal once ASCII letters are put in one case.
pub fn eq_ignore_ascii_case(a: &str, b: &str) -> (r: bool)
    ensures
        r == (ascii_lowered(a@) == ascii_lowered(b@)),
{
    let n = a.unicode_len();
    if n != b.unicode_len() {
        assert(ascii_lowered(a@).len() != ascii_lowered(b@).len());
        return false;
    }
    let mut i: usize = 0;
    while i < n
        invariant
            n == a@.len(),
            n == b@.len(),
            i <= n,
            forall|j: int| 0 <= j < i ==> ascii_lower(a@[j]) == ascii_lower(b@[j]),
        decreases n - i,
    {
        if to_ascii_lower(a.get_char(i)) != to_ascii_lower(b.get_char(i)) {
            assert(ascii_lowered(a@)[i as int] != ascii_lowered(b@)[i as int]);
            return false;
        }
        i = i + 1;
    }
    assert(ascii_lowered(a@) =~= ascii_lowered(b@));
    true
}

/// What `str::trim` leaves of `s`: `s` without its leading and trailing
/// white space.
pub uninterp spec fn trimmed(s: Seq<char>) -> Seq<char>;

/// Relies on `str::trim`: the result is a function of the characters alone.
#[verifier::external_body]
pub(crate) fn trim(s: &str) -> (r: &str)
    ensures
        r@ == trimmed(s@),
{
    s.trim()
}

/// Whether a field separator `||` starts at index `i` of `s`.
pub open spec fn separator_at(s: Seq<char>, i: int) -> bool {
    0 <= i && i + 1 < s.len() && s[i] == '|' && s[i + 1] == '|'
}

/// The index of the first separator that starts at `i` or later, or the
/// length of `s` when there is none.
pub open spec fn first_separator_from(s: Seq<char>, i: nat) -> nat
    decreases s.len() - i,
{
    if i + 1 >= s.len() {
        s.len()
    } else if separator_at(s, i as int) {
        i
    } else {
        first_separator_from(s, i + 1)
    }
}

/// The first field of `s`: everything before its first separator.
pub open spec fn first_field(s: Seq<char>) -> Seq<char> {
    s.take(first_separator_from(s, 0) as int)
}

/// What follows the first separator of `s`, if it has one.
pub open spec fn after_first_field(s: Seq<char>) -> Option<Seq<char>> {
    let k = first_separator_from(s, 0);
    if k < s.len() {
        Some(s.skip(k + 2int))
    } else {
        None
    }
}

/// The text from which field `j` of `s` is taken, if `s` has that many
/// fields.
pub open spec fn field_source(s: Seq<char>, j: nat) -> Option<Seq<char>>
    decreases j,
{
    if j == 0 {
        Some(s)
    } else {
        match field_source(s, (j - 1) as nat) {
            Some(r) => after_first_field(r),
            None => None,
        }
    }
}

/// Field `j` of `s`, split at each `||` from left to right.
pub open spec fn field(s: Seq<char>, j: nat) -> Option<Seq<char>> {
    match field_source(s, j) {
        Some(r) => Some(first_field(r)),
        None => None,
    }
}

/// The first separator from `i` on lies within `s`, and is one where there
/// is one.
proof fn lemma_first_separator_from(s: Seq<char>, i: nat)
    ensures
        first_separator_from(s, i) <= s.len(),
        first_separator_from(s, i) < s.len() ==> separator_at(s, first_separator_from(s, i) as int),
    decreases s.len() - i,
{
    if i + 1 < s.len() && !separator_at(s, i as int) {
        lemma_first_separator_from(s, i + 1);
    }
}

/// The index of the first separator in `s`, or its length when there is none.
fn first_separator(s: &str, n: usize) -> (k: usize)
    requires
        n == s@.len(),
    ensures
        k == first_separator_from(s@, 0),
        k <= n,
        k < n ==> separator_at(s@, k as int),
{
    proof {
        lemma_first_separator_from(s@, 0);
    }
    let mut i: usize = 0;
    while n > 0 && i < n - 1
        invariant
            n == s@.len(),
            i <= n,
            first_separator_from(s@, 0) == first_separator_from(s@, i as nat),
        decreases n - i,
    {
        if s.get_char(i) == '|' && s.get_char(i + 1) == '|' {
            return i;
        }
        i = i + 1;
    }
    n
}

/// The fields of `s` separated by `||`, in order; a text without a separator
/// is one field.
pub fn split_fields(s: &str) -> (r: Vec<String>)
    ensures
        r@.len() > 0,
        forall|j: int| 0 <= j < r@.len() ==> field(s@, j as nat) == Some(#[trigger] r@[j]@),
        field(s@, r@.len()) is None,
{
    let mut out: Vec<String> = Vec::new();
    let mut rest: &str = s;
    loop
        invariant_except_break
            field_source(s@, out@.len()) == Some(rest@),
        invariant
            forall|j: int| 0 <= j < out@.len() ==> field(s@, j as nat) == Some(#[trigger] out@[j]@),
        ensures
            out@.len() > 0,
            forall|j: int| 0 <= j < out@.len() ==> field(s@, j as nat) == Some(#[trigger] out@[j]@),
            field(s@, out@.len()) is None,
        decreases rest@.len(),
    {
        let n = rest.unicode_len();
        let k = first_separator(rest, n);
        let head = String::from_str(rest.substring_char(0, k));
        proof {
            assert(field_source(s@, (out@.len() + 1) as nat) == after_first_field(rest@));
        }
        out.push(head);
        if k == n {
            break;
        }
        rest = rest.substring_char(k + 2, n);
    }
    out
}

/// The character of the decimal digit `d`.
pub open spec fn digit_char(d: nat) -> char {
    ((d + 48) as u8) as char
}

/// `n` written in decimal, without leading zeros.
pub open spec fn decimal(n: nat) -> Seq<char>
    decreases n,
{
    if n < 10 {
        seq![digit_char(n)]
    } else {
        decimal(n / 10).push(digit_char(n % 10))
    }
}

/// `n` written in decimal with at least two digits.
pub open spec fn two_digits(n: nat) -> Seq<char> {
    if n < 10 {
        seq!['0', digit_char(n)]
    } else {
        decimal(n)
    }
}

/// A number of seconds as minutes and seconds, `MM:SS`, where the minutes
/// take more digits when they need them.
pub open spec fn clock_text(total_seconds: nat) -> Seq<char> {
    two_digits(total_seconds / 60) + ":"@ + two_digits(total_seconds % 60)
}

fn digit_str(d: u64) -> (r: &'static str)
    requires
        d < 10,
    ensures
        r@ == seq![digit_char(d as nat)],
{
    proof {
        reveal_strlit("0123456789");
    }
    let digits = "0123456789";
    let r = digits.substring_char(d as usize, (d + 1) as usize);
    assert(r@ =~= seq![digit_char(d as nat)]);
    r
}

fn append_decimal(out: &mut String, n: u64)
    ensures
        final(out)@ == old(out)@ + decimal(n as nat),
    decreases n,
{
    if n >= 10 {
        append_decimal(out, n / 10);
    }
    out.append(digit_str(n % 10));
    assert(final(out)@ =~= old(out)@ + decimal(n as nat));
}

fn append_two_digits(out: &mut String, n: u64)
    ensures
        final(out)@ == old(out)@ + two_digits(n as nat),
{
    if n < 10 {
        out.append(digit_str(0));
    }
    append_decimal(out, n);
    assert(final(out)@ =~= old(out)@ + two_digits(n as nat));
}

/// A number of seconds as `MM:SS`.
pub fn format_clock(total_seconds: u64) -> (r: String)
    ensures
        r@ == clock_text(total_seconds as nat),
{
    let mut out = String::new();
    append_two_digits(&mut out, total_seconds / 60);
    out.append(":");
    append_two_digits(&mut out, total_seconds % 60);
    assert(out@ =~= clock_text(total_seconds as nat));
    out
}

} // verus!
