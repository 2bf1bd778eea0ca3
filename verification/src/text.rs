//! Small text utilities: decimal rendering, prefixes, ASCII case folding.
use vstd::prelude::*;

verus! {

/// The digit character of `d < 10`.
pub open spec fn digit_char(d: nat) -> char {
    if d == 0 { '0' } else if d == 1 { '1' } else if d == 2 { '2' } else if d == 3 { '3' } else if d
        == 4 { '4' } else if d == 5 { '5' } else if d == 6 { '6' } else if d == 7 { '7' } else if d
        == 8 { '8' } else { '9' }
}

/// Decimal rendering of `n`, no leading zeros ("0" for zero).
pub open spec fn dec(n: nat) -> Seq<char>
    decreases n,
{
    if n < 10 {
        seq![digit_char(n)]
    } else {
        dec(n / 10).push(digit_char(n % 10))
    }
}

/// One-character string of a digit.
fn digit_str(d: u64) -> (s: &'static str)
    requires
        d < 10,
    ensures
        s@ == seq![digit_char(d as nat)],
{
    if d == 0 {
        proof { reveal_strlit("0"); }
        "0"
    } else if d == 1 {
        proof { reveal_strlit("1"); }
        "1"
    } else if d == 2 {
        proof { reveal_strlit("2"); }
        "2"
    } else if d == 3 {
        proof { reveal_strlit("3"); }
        "3"
    } else if d == 4 {
        proof { reveal_strlit("4"); }
        "4"
    } else if d == 5 {
        proof { reveal_strlit("5"); }
        "5"
    } else if d == 6 {
        proof { reveal_strlit("6"); }
        "6"
    } else if d == 7 {
        proof { reveal_strlit("7"); }
        "7"
    } else if d == 8 {
        proof { reveal_strlit("8"); }
        "8"
    } else {
        proof { reveal_strlit("9"); }
        "9"
    }
}

/// Decimal string of a number (what `n.to_string()` gives).
pub fn decimal(n: u64) -> (s: String)
    ensures
        s@ == dec(n as nat),
    decreases n,
{
    if n < 10 {
        String::from_str(digit_str(n))
    } else {
        let mut head = decimal(n / 10);
        head.append(digit_str(n % 10));
        head
    }
}

/// `prefix` followed by `tail`.
pub fn concat(prefix: &str, tail: &str) -> (s: String)
    ensures
        s@ == prefix@ + tail@,
{
    let mut s = String::from_str(prefix);
    s.append(tail);
    s
}

/// `prefix` followed by the decimal form of `n` (as `format!("{prefix}{n}")`).
pub fn with_number(prefix: &str, n: u64) -> (s: String)
    ensures
        s@ == prefix@ + dec(n as nat),
{
    let d = decimal(n);
    concat(prefix, d.as_str())
}

/// Whether `s` starts with `prefix`.
pub fn starts_with(s: &str, prefix: &str) -> (r: bool)
    ensures
        r == prefix@.is_prefix_of(s@),
{
    let n = s.unicode_len();
    let m = prefix.unicode_len();
    if m > n {
        return false;
    }
    let mut i: usize = 0;
    while i < m
        invariant
            m == prefix@.len(),
            n == s@.len(),
            m <= n,
            0 <= i <= m,
            forall|k: int| 0 <= k < i ==> prefix@[k] == s@[k],
        decreases m - i,
    {
        if s.get_char(i) != prefix.get_char(i) {
            return false;
        }
        i = i + 1;
    }
    true
}

/// The code point of `c` with ASCII upper case folded to lower case.
pub open spec fn ascii_fold(c: char) -> u32 {
    if 'A' <= c && c <= 'Z' {
        (c as u32 + 32) as u32
    } else {
        c as u32
    }
}

/// ASCII case-insensitive equality of two strings.
pub open spec fn eq_ignore_ascii_case_spec(a: Seq<char>, b: Seq<char>) -> bool {
    a.len() == b.len() && forall|i: int| 0 <= i < a.len() ==> ascii_fold(a[i]) == ascii_fold(b[i])
}

/// Folded code point of a character.
pub fn fold_char(c: char) -> (r: u32)
    ensures
        r == ascii_fold(c),
{
    let v = c as u32;
    if 'A' <= c && c <= 'Z' {
        v + 32
    } else {
        v
    }
}

/// ASCII case-insensitive equality (as `str::eq_ignore_ascii_case`).
pub fn eq_ignore_ascii_case(a: &str, b: &str) -> (r: bool)
    ensures
        r == eq_ignore_ascii_case_spec(a@, b@),
{
    let n = a.unicode_len();
    if n != b.unicode_len() {
        return false;
    }
    let mut i: usize = 0;
    while i < n
        invariant
            n == a@.len(),
            n == b@.len(),
            0 <= i <= n,
            forall|k: int| 0 <= k < i ==> ascii_fold(a@[k]) == ascii_fold(b@[k]),
        decreases n - i,
    {
        if fold_char(a.get_char(i)) != fold_char(b.get_char(i)) {
            return false;
        }
        i = i + 1;
    }
    true
}

} // verus!

verus! {

/// Whether `c` separates path components on Windows.
pub open spec fn is_separator(c: char) -> bool {
    c == '\\' || c == '/'
}

/// `dir` joined with the relative name `name`: a `\` goes between them unless
/// `dir` is empty or already ends with a separator.
pub open spec fn joined(dir: Seq<char>, name: Seq<char>) -> Seq<char> {
    if dir.len() == 0 || is_separator(dir.last()) {
        dir + name
    } else {
        dir + seq!['\\'] + name
    }
}

/// Joins a relative file name to a directory (see [`joined`]).
pub fn join_path(dir: &str, name: &str) -> (p: String)
    ensures
        p@ == joined(dir@, name@),
{
    let n = dir.unicode_len();
    if n == 0 {
        return String::from_str(name);
    }
    let last = dir.get_char(n - 1);
    if last == '\\' || last == '/' {
        concat(dir, name)
    } else {
        proof {
            reveal_strlit("\\");
        }
        let with_sep = concat(dir, "\\");
        concat(with_sep.as_str(), name)
    }
}

/// Whether two strings are equal.
pub fn same_text(a: &str, b: &str) -> (r: bool)
    ensures
        r == (a@ == b@),
{
    let n = a.unicode_len();
    if n != b.unicode_len() {
        return false;
    }
    let mut i: usize = 0;
    while i < n
        invariant
            n == a@.len(),
            n == b@.len(),
            0 <= i <= n,
            forall|k: int| 0 <= k < i ==> a@[k] == b@[k],
        decreases n - i,
    {
        if a.get_char(i) != b.get_char(i) {
            return false;
        }
        i = i + 1;
    }
    assert(a@ =~= b@);
    true
}

} // verus!
