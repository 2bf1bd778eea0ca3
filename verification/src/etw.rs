//! Reading PresentMon's stderr for lost ETW events and overflowed present
//! events: the text is lower-cased (ASCII), split into clauses at
//! `. ; : , ! ? \n \r`, and each clause into words (maximal runs of
//! alphanumeric characters). Negated or zero statements ("no ... lost",
//! "0 ETW events lost", "lost 0 ...") do not count.
use vstd::prelude::*;

verus! {

/// Whether `c` is alphanumeric in Unicode's sense, as `char::is_alphanumeric`
/// decides it.
pub uninterp spec fn alphanumeric(c: char) -> bool;

/// Calls `char::is_alphanumeric`. Trusted: its answer is [`alphanumeric`] of
/// the character (std: "Alphabetic or Numeric" Unicode properties).
#[verifier::external_body]
fn is_alphanumeric(c: char) -> (r: bool)
    ensures
        r == alphanumeric(c),
{
    c.is_alphanumeric()
}

/// ASCII lower case of one character.
pub open spec fn ascii_lower(c: char) -> char {
    if 'A' <= c && c <= 'Z' {
        ((c as u32) + 32) as char
    } else {
        c
    }
}

/// ASCII lower case of a text (what `str::to_ascii_lowercase` gives).
pub open spec fn lowercase(s: Seq<char>) -> Seq<char> {
    Seq::new(s.len(), |i: int| ascii_lower(s[i]))
}

/// Whether `pat` occurs in `s`.
pub open spec fn has_sub(s: Seq<char>, pat: Seq<char>) -> bool {
    exists|i: int| 0 <= i && i + pat.len() <= s.len() && #[trigger] s.subrange(i, i + pat.len()) == pat
}

/// How text is cut: into clauses, into words, into digit runs.
#[derive(Clone, Copy, Debug, PartialEq, Eq, Structural)]
pub enum Cut {
    Clauses,
    Words,
    Digits,
}

/// Whether `c` separates pieces under `cut`.
pub open spec fn separates(cut: Cut, c: char) -> bool {
    match cut {
        Cut::Clauses => c == '.' || c == ';' || c == ':' || c == ',' || c == '!' || c == '?' || c == '\n'
            || c == '\r',
        Cut::Words => !alphanumeric(c),
        Cut::Digits => !('0' <= c && c <= '9'),
    }
}

/// The pieces between separators, empty ones included (as `str::split`):
/// `k` separators give `k + 1` pieces.
pub open spec fn split_by(s: Seq<char>, cut: Cut) -> Seq<Seq<char>>
    decreases s.len(),
{
    if s.len() == 0 {
        seq![Seq::empty()]
    } else {
        let p = split_by(s.drop_last(), cut);
        if separates(cut, s.last()) {
            p.push(Seq::empty())
        } else {
            p.update(p.len() - 1, p.last().push(s.last()))
        }
    }
}

proof fn lemma_split_nonempty(s: Seq<char>, cut: Cut)
    ensures
        split_by(s, cut).len() >= 1,
    decreases s.len(),
{
    if s.len() > 0 {
        lemma_split_nonempty(s.drop_last(), cut);
    }
}

/// The non-empty pieces, in order.
pub open spec fn nonempty(ws: Seq<Seq<char>>) -> Seq<Seq<char>>
    decreases ws.len(),
{
    if ws.len() == 0 {
        Seq::empty()
    } else if ws.last().len() == 0 {
        nonempty(ws.drop_last())
    } else {
        nonempty(ws.drop_last()).push(ws.last())
    }
}

/// The words of a clause.
pub open spec fn words(c: Seq<char>) -> Seq<Seq<char>> {
    nonempty(split_by(c, Cut::Words))
}

/// The number a run of decimal digits denotes.
pub open spec fn digits_value(d: Seq<char>) -> nat
    decreases d.len(),
{
    if d.len() == 0 {
        0
    } else {
        digits_value(d.drop_last()) * 10 + ((d.last() as int - '0' as int) as nat)
    }
}

/// The first digit run from `k` on that parses as a `u64`.
pub open spec fn first_parsed(runs: Seq<Seq<char>>, k: int) -> Option<u64>
    decreases runs.len() - k,
{
    if k < 0 || k >= runs.len() {
        None
    } else if runs[k].len() > 0 && digits_value(runs[k]) <= u64::MAX {
        Some(digits_value(runs[k]) as u64)
    } else {
        first_parsed(runs, k + 1)
    }
}

/// The first integer of a clause, if it is not zero.
pub open spec fn first_nonzero(c: Seq<char>) -> Option<u64> {
    match first_parsed(split_by(c, Cut::Digits), 0) {
        Some(n) => if n > 0 { Some(n) } else { None },
        None => None,
    }
}

/// Negations before an ETW "lost".
pub open spec fn etw_negation(w: Seq<char>) -> bool {
    w == "0"@ || w == "no"@ || w == "not"@ || w == "none"@ || w == "zero"@ || w == "without"@
}

/// Negations before "overflow...".
pub open spec fn overflow_negation(w: Seq<char>) -> bool {
    w == "0"@ || w == "no"@ || w == "none"@ || w == "zero"@
}

/// Whether one of the (up to) four words before position `i` is a negation.
pub open spec fn negated(ws: Seq<Seq<char>>, i: int, etw: bool) -> bool {
    exists|j: int| i - 4 <= j < i && 0 <= j && (if etw { etw_negation(ws[j]) } else { overflow_negation(ws[j]) })
}

/// Whether a clause mentions loss at all: "lost" and "event" or "etw".
pub open spec fn mentions_loss(c: Seq<char>) -> bool {
    has_sub(c, "lost"@) && (has_sub(c, "event"@) || has_sub(c, "etw"@))
}

/// Whether a clause reports a non-zero, non-negated ETW loss: some word "lost"
/// neither preceded within four words by a negation nor followed by "0".
pub open spec fn clause_reports_loss(c: Seq<char>) -> bool {
    let ws = words(c);
    mentions_loss(c) && exists|i: int| 0 <= i < ws.len() && ws[i] == "lost"@ && !negated(ws, i, true)
        && !(i + 1 < ws.len() && ws[i + 1] == "0"@)
}

/// Whether the (lower-cased) stderr reports ETW loss in some clause.
pub open spec fn spec_has_etw_loss(s: Seq<char>) -> bool {
    let l = lowercase(s);
    mentions_loss(l) && exists|k: int| 0 <= k < split_by(l, Cut::Clauses).len()
        && clause_reports_loss(#[trigger] split_by(l, Cut::Clauses)[k])
}

/// The loss count of the first clause from `k` on that reports a loss and
/// holds a non-zero number.
pub open spec fn first_loss_count(cl: Seq<Seq<char>>, k: int) -> Option<u64>
    decreases cl.len() - k,
{
    if k < 0 || k >= cl.len() {
        None
    } else if clause_reports_loss(cl[k]) && first_nonzero(cl[k]) is Some {
        first_nonzero(cl[k])
    } else {
        first_loss_count(cl, k + 1)
    }
}

/// The ETW events/buffers lost that stderr reports.
pub open spec fn spec_etw_events_lost(s: Seq<char>) -> Option<u64> {
    let l = lowercase(s);
    if !mentions_loss(l) {
        None
    } else {
        first_loss_count(split_by(l, Cut::Clauses), 0)
    }
}

/// The first word from `k` on that starts with "overflow".
pub open spec fn first_overflow_word(ws: Seq<Seq<char>>, k: int) -> Option<int>
    decreases ws.len() - k,
{
    if k < 0 || k >= ws.len() {
        None
    } else if "overflow"@.is_prefix_of(ws[k]) {
        Some(k)
    } else {
        first_overflow_word(ws, k + 1)
    }
}

/// The overflow count a clause reports: it must mention "overflow" and
/// "present", its first "overflow..." word must not be negated, and its first
/// number must be non-zero.
pub open spec fn clause_overflow(c: Seq<char>) -> Option<u64> {
    if !(has_sub(c, "overflow"@) && has_sub(c, "present"@)) {
        None
    } else {
        match first_overflow_word(words(c), 0) {
            Some(pos) => if negated(words(c), pos, false) { None } else { first_nonzero(c) },
            None => first_nonzero(c),
        }
    }
}

/// The overflow count of the first clause from `k` on that reports one.
pub open spec fn first_overflow_count(cl: Seq<Seq<char>>, k: int) -> Option<u64>
    decreases cl.len() - k,
{
    if k < 0 || k >= cl.len() {
        None
    } else if clause_overflow(cl[k]) is Some {
        clause_overflow(cl[k])
    } else {
        first_overflow_count(cl, k + 1)
    }
}

/// The overflowed present events that stderr reports.
pub open spec fn spec_overflowed_present_events(s: Seq<char>) -> Option<u64> {
    let l = lowercase(s);
    if !(has_sub(l, "overflow"@) && has_sub(l, "present"@)) {
        None
    } else {
        first_overflow_count(split_by(l, Cut::Clauses), 0)
    }
}

/// The views of a list of pieces.
pub open spec fn piece_views(v: Seq<Vec<char>>) -> Seq<Seq<char>> {
    v.map_values(|p: Vec<char>| p@)
}

/// The characters of a string.
fn to_chars(s: &str) -> (r: Vec<char>)
    ensures
        r@ == s@,
{
    let n = s.unicode_len();
    let mut r: Vec<char> = Vec::new();
    let mut i: usize = 0;
    while i < n
        invariant
            n == s@.len(),
            0 <= i <= n,
            r@ == s@.take(i as int),
        decreases n - i,
    {
        r.push(s.get_char(i));
        i = i + 1;
        assert(r@ =~= s@.take(i as int));
    }
    assert(s@.take(n as int) =~= s@);
    r
}

/// ASCII lower case of a text.
fn lower_chars(v: &Vec<char>) -> (r: Vec<char>)
    ensures
        r@ == lowercase(v@),
{
    let mut r: Vec<char> = Vec::new();
    let mut i: usize = 0;
    while i < v.len()
        invariant
            0 <= i <= v@.len(),
            r@.len() == i,
            forall|k: int| 0 <= k < i ==> r@[k] == ascii_lower(v@[k]),
        decreases v@.len() - i,
    {
        let c = v[i];
        let d = if 'A' <= c && c <= 'Z' {
            let code: u32 = c as u32;
            let b: u8 = code as u8;
            (b + 32) as char
        } else {
            c
        };
        r.push(d);
        i = i + 1;
    }
    assert(r@ =~= lowercase(v@));
    r
}

/// Whether `pat` occurs in `s`.
fn contains_chars(s: &Vec<char>, pat: &Vec<char>) -> (r: bool)
    ensures
        r == has_sub(s@, pat@),
{
    if pat.len() > s.len() {
        proof {
            assert forall|i: int| 0 <= i && i + pat@.len() <= s@.len() implies #[trigger] s@.subrange(i, i + pat@.len()) != pat@ by {}
        }
        return false;
    }
    if pat.len() == 0 {
        assert(s@.subrange(0int, 0int + pat@.len()) =~= pat@);
        return true;
    }
    let last = s.len() - pat.len();
    let mut i: usize = 0;
    while i <= last
        invariant
            last == s@.len() - pat@.len(),
            pat@.len() > 0,
            0 <= i <= last + 1,
            forall|k: int| 0 <= k < i ==> #[trigger] s@.subrange(k, k + pat@.len()) != pat@,
        decreases last + 1 - i,
    {
        let mut j: usize = 0;
        let mut same = true;
        while j < pat.len()
            invariant
                0 <= j <= pat@.len(),
                i + pat@.len() <= s@.len(),
                s@.len() == s.len(),
                same == forall|m: int| 0 <= m < j ==> s@[i + m] == pat@[m],
            decreases pat@.len() - j,
        {
            if s[i + j] != pat[j] {
                same = false;
            }
            j = j + 1;
        }
        if same {
            assert(s@.subrange(i as int, i + pat@.len()) =~= pat@);
            return true;
        }
        assert(s@.subrange(i as int, i + pat@.len()) != pat@) by {
            let m = choose|m: int| 0 <= m < pat@.len() && s@[i + m] != pat@[m];
            assert(s@.subrange(i as int, i + pat@.len())[m] != pat@[m]);
        }
        i = i + 1;
    }
    proof {
        assert forall|k: int| 0 <= k && k + pat@.len() <= s@.len() implies #[trigger] s@.subrange(k, k + pat@.len()) != pat@ by {
            assert(k < i);
        }
    }
    false
}

/// Whether `c` separates pieces under `cut`.
fn is_separator(cut: Cut, c: char) -> (r: bool)
    ensures
        r == separates(cut, c),
{
    match cut {
        Cut::Clauses => c == '.' || c == ';' || c == ':' || c == ',' || c == '!' || c == '?' || c == '\n'
            || c == '\r',
        Cut::Words => !is_alphanumeric(c),
        Cut::Digits => !('0' <= c && c <= '9'),
    }
}

/// The pieces of `s` under `cut` (see [`split_by`]).
fn split(s: &Vec<char>, cut: Cut) -> (r: Vec<Vec<char>>)
    ensures
        piece_views(r@) == split_by(s@, cut),
{
    let mut done: Vec<Vec<char>> = Vec::new();
    let mut cur: Vec<char> = Vec::new();
    let mut i: usize = 0;
    proof {
        assert(s@.take(0) =~= Seq::<char>::empty());
        assert(piece_views(done@).push(cur@) =~= split_by(s@.take(0), cut));
    }
    while i < s.len()
        invariant
            0 <= i <= s@.len(),
            piece_views(done@).push(cur@) == split_by(s@.take(i as int), cut),
        decreases s@.len() - i,
    {
        let c = s[i];
        let ghost d0 = done@;
        let ghost c0 = cur@;
        proof {
            let t = s@.take(i + 1);
            assert(t.drop_last() =~= s@.take(i as int));
            assert(t.last() == c);
            lemma_split_nonempty(s@.take(i as int), cut);
        }
        if is_separator(cut, c) {
            let mut piece: Vec<char> = Vec::new();
            std::mem::swap(&mut piece, &mut cur);
            done.push(piece);
            proof {
                assert(piece_views(done@) =~= piece_views(d0).push(c0));
                assert(piece_views(done@).push(cur@) =~= split_by(s@.take(i + 1), cut));
            }
        } else {
            cur.push(c);
            proof {
                let p = split_by(s@.take(i as int), cut);
                assert(p == piece_views(d0).push(c0));
                assert(piece_views(done@).push(cur@) =~= p.update(p.len() - 1, p.last().push(c)));
            }
        }
        i = i + 1;
    }
    proof {
        assert(s@.take(s@.len() as int) =~= s@);
    }
    let ghost d0 = done@;
    done.push(cur);
    assert(piece_views(done@) =~= piece_views(d0).push(cur@));
    done
}

/// A copy of a list of characters.
fn copy_chars(v: &Vec<char>) -> (r: Vec<char>)
    ensures
        r@ == v@,
{
    let mut r: Vec<char> = Vec::new();
    let mut i: usize = 0;
    while i < v.len()
        invariant
            0 <= i <= v@.len(),
            r@ == v@.take(i as int),
        decreases v@.len() - i,
    {
        r.push(v[i]);
        i = i + 1;
        assert(r@ =~= v@.take(i as int));
    }
    assert(v@.take(v@.len() as int) =~= v@);
    r
}

/// The non-empty pieces, in order.
fn keep_nonempty(ws: &Vec<Vec<char>>) -> (r: Vec<Vec<char>>)
    ensures
        piece_views(r@) == nonempty(piece_views(ws@)),
{
    let ghost all = piece_views(ws@);
    let mut out: Vec<Vec<char>> = Vec::new();
    let mut i: usize = 0;
    proof {
        assert(all.take(0) =~= Seq::<Seq<char>>::empty());
    }
    while i < ws.len()
        invariant
            all == piece_views(ws@),
            0 <= i <= ws@.len(),
            piece_views(out@) == nonempty(all.take(i as int)),
        decreases ws@.len() - i,
    {
        proof {
            let t = all.take(i + 1);
            assert(t.drop_last() =~= all.take(i as int));
            assert(t.last() == ws@[i as int]@);
        }
        let ghost o0 = out@;
        if ws[i].len() > 0 {
            let w = copy_chars(&ws[i]);
            out.push(w);
            assert(piece_views(out@) =~= piece_views(o0).push(all[i as int]));
        }
        i = i + 1;
    }
    proof {
        assert(all.take(ws@.len() as int) =~= all);
    }
    out
}

proof fn lemma_digit_pieces(s: Seq<char>)
    ensures
        forall|k: int, i: int| 0 <= k < split_by(s, Cut::Digits).len() && 0 <= i < split_by(s, Cut::Digits)[k].len()
            ==> '0' <= #[trigger] split_by(s, Cut::Digits)[k][i] <= '9',
    decreases s.len(),
{
    if s.len() > 0 {
        lemma_digit_pieces(s.drop_last());
        lemma_split_nonempty(s.drop_last(), Cut::Digits);
        let p = split_by(s.drop_last(), Cut::Digits);
        if !separates(Cut::Digits, s.last()) {
            let q = p.update(p.len() - 1, p.last().push(s.last()));
            assert forall|k: int, i: int| 0 <= k < q.len() && 0 <= i < q[k].len() implies '0' <= #[trigger] q[k][i] <= '9' by {
                if k == p.len() - 1 && i == p.last().len() {
                } else {
                    assert(q[k][i] == p[k][i]);
                }
            }
        }
    }
}

/// The value of a run of digits, if it fits a `u64` (as `str::parse::<u64>`
/// on digits: an empty run does not parse).
fn parse_digits(d: &Vec<char>) -> (r: Option<u64>)
    requires
        forall|i: int| 0 <= i < d@.len() ==> '0' <= #[trigger] d@[i] <= '9',
    ensures
        r == (if d@.len() > 0 && digits_value(d@) <= u64::MAX { Some(digits_value(d@) as u64) } else { None }),
{
    if d.len() == 0 {
        return None;
    }
    let mut v: u64 = 0;
    let mut i: usize = 0;
    proof {
        assert(d@.take(0) =~= Seq::<char>::empty());
    }
    while i < d.len()
        invariant
            0 <= i <= d@.len(),
            d@.len() > 0,
            forall|k: int| 0 <= k < d@.len() ==> '0' <= #[trigger] d@[k] <= '9',
            v == digits_value(d@.take(i as int)),
        decreases d@.len() - i,
    {
        let digit: u64 = (d[i] as u32 - '0' as u32) as u64;
        proof {
            let t = d@.take(i + 1);
            assert(t.drop_last() =~= d@.take(i as int));
            assert(t.last() == d@[i as int]);
        }
        if v > (u64::MAX - digit) / 10 {
            proof {
                assert(digits_value(d@.take(i + 1)) > u64::MAX);
                lemma_digits_monotone(d@, i + 1);
                assert(d@.take(d@.len() as int) =~= d@);
            }
            return None;
        }
        v = v * 10 + digit;
        i = i + 1;
    }
    proof {
        assert(d@.take(d@.len() as int) =~= d@);
    }
    Some(v)
}

proof fn lemma_digits_monotone(d: Seq<char>, n: int)
    requires
        0 <= n <= d.len(),
        forall|k: int| 0 <= k < d.len() ==> '0' <= #[trigger] d[k] <= '9',
    ensures
        digits_value(d.take(n)) <= digits_value(d),
    decreases d.len() - n,
{
    if n < d.len() {
        lemma_digits_monotone(d, n + 1);
        let t = d.take(n + 1);
        assert(t.drop_last() =~= d.take(n));
    } else {
        assert(d.take(n) =~= d);
    }
}

/// The first integer of a clause, if it is not zero (see [`first_nonzero`]).
fn first_nonzero_integer(clause: &Vec<char>) -> (r: Option<u64>)
    ensures
        r == first_nonzero(clause@),
{
    let runs = split(clause, Cut::Digits);
    let ghost rv = piece_views(runs@);
    proof {
        lemma_digit_pieces(clause@);
    }
    let mut k: usize = 0;
    while k < runs.len()
        invariant
            rv == piece_views(runs@),
            rv == split_by(clause@, Cut::Digits),
            0 <= k <= runs@.len(),
            first_parsed(rv, 0) == first_parsed(rv, k as int),
        decreases runs@.len() - k,
    {
        proof {
            assert(rv[k as int] == runs@[k as int]@);
            lemma_digit_pieces(clause@);
            assert forall|i: int| 0 <= i < runs@[k as int]@.len() implies '0' <= #[trigger] runs@[k as int]@[i] <= '9' by {
                assert(split_by(clause@, Cut::Digits)[k as int][i] == runs@[k as int]@[i]);
            }
        }
        match parse_digits(&runs[k]) {
            Some(n) => {
                return if n > 0 { Some(n) } else { None };
            },
            None => {},
        }
        k = k + 1;
    }
    None
}

/// The words of a clause (see [`words`]).
fn words_of(c: &Vec<char>) -> (r: Vec<Vec<char>>)
    ensures
        piece_views(r@) == words(c@),
{
    let parts = split(c, Cut::Words);
    keep_nonempty(&parts)
}

/// Whether two character lists are equal.
fn same_chars(a: &Vec<char>, b: &Vec<char>) -> (r: bool)
    ensures
        r == (a@ == b@),
{
    if a.len() != b.len() {
        return false;
    }
    let mut i: usize = 0;
    while i < a.len()
        invariant
            a@.len() == b@.len(),
            0 <= i <= a@.len(),
            forall|k: int| 0 <= k < i ==> a@[k] == b@[k],
        decreases a@.len() - i,
    {
        if a[i] != b[i] {
            return false;
        }
        i = i + 1;
    }
    assert(a@ =~= b@);
    true
}

/// Whether a word is the literal `lit`.
fn is_word(w: &Vec<char>, lit: &str) -> (r: bool)
    ensures
        r == (w@ == lit@),
{
    let l = to_chars(lit);
    same_chars(w, &l)
}

/// Whether a word negates a loss (`etw`) or an overflow.
fn is_negation(w: &Vec<char>, etw: bool) -> (r: bool)
    ensures
        r == (if etw { etw_negation(w@) } else { overflow_negation(w@) }),
{
    let base = is_word(w, "0") || is_word(w, "no") || is_word(w, "none") || is_word(w, "zero");
    if etw {
        base || is_word(w, "not") || is_word(w, "without")
    } else {
        base
    }
}

/// Whether one of the (up to) four words before position `i` is a negation.
fn negated_at(ws: &Vec<Vec<char>>, i: usize, etw: bool) -> (r: bool)
    requires
        i <= ws@.len(),
    ensures
        r == negated(piece_views(ws@), i as int, etw),
{
    let start: usize = if i >= 4 { i - 4 } else { 0 };
    let mut j: usize = start;
    while j < i
        invariant
            start <= j <= i,
            i <= ws@.len(),
            start == (if i >= 4 { i - 4 } else { 0 }),
            forall|m: int| start <= m < j ==> !(if etw { etw_negation(#[trigger] ws@[m]@) } else { overflow_negation(ws@[m]@) }),
        decreases i - j,
    {
        if is_negation(&ws[j], etw) {
            proof {
                assert(piece_views(ws@)[j as int] == ws@[j as int]@);
            }
            return true;
        }
        j = j + 1;
    }
    proof {
        assert forall|m: int| i - 4 <= m < i && 0 <= m implies !(if etw { etw_negation(piece_views(ws@)[m]) } else { overflow_negation(piece_views(ws@)[m]) }) by {
            assert(piece_views(ws@)[m] == ws@[m]@);
        }
    }
    false
}

/// Whether `c` mentions loss: "lost" and "event" or "etw".
fn mentions_loss_chars(c: &Vec<char>) -> (r: bool)
    ensures
        r == mentions_loss(c@),
{
    contains_chars(c, &to_chars("lost"))
        && (contains_chars(c, &to_chars("event")) || contains_chars(c, &to_chars("etw")))
}

/// Whether one clause reports a non-zero, non-negated ETW loss.
fn clause_has_etw_loss(clause: &Vec<char>) -> (r: bool)
    ensures
        r == clause_reports_loss(clause@),
{
    if !mentions_loss_chars(clause) {
        return false;
    }
    let ws = words_of(clause);
    let ghost wv = piece_views(ws@);
    let mut i: usize = 0;
    while i < ws.len()
        invariant
            wv == piece_views(ws@),
            wv == words(clause@),
            mentions_loss(clause@),
            0 <= i <= ws@.len(),
            forall|k: int| 0 <= k < i ==> !(wv[k] == "lost"@ && !negated(wv, k, true)
                && !(k + 1 < wv.len() && wv[k + 1] == "0"@)),
        decreases ws@.len() - i,
    {
        proof {
            assert(wv[i as int] == ws@[i as int]@);
            if i + 1 < ws@.len() {
                assert(wv[i + 1] == ws@[i + 1]@);
            }
        }
        if is_word(&ws[i], "lost") && !negated_at(&ws, i, true)
            && !(i + 1 < ws.len() && is_word(&ws[i + 1], "0")) {
            proof {
                let ii = i as int;
                assert(0 <= ii < wv.len() && wv[ii] == "lost"@ && !negated(wv, ii, true)
                    && !(ii + 1 < wv.len() && wv[ii + 1] == "0"@));
            }
            return true;
        }
        i = i + 1;
    }
    false
}

/// The lower-cased clauses of a text.
fn clauses_of(lower: &Vec<char>) -> (r: Vec<Vec<char>>)
    ensures
        piece_views(r@) == split_by(lower@, Cut::Clauses),
{
    split(lower, Cut::Clauses)
}

/// ASCII upper case of one character.
pub open spec fn ascii_upper(c: char) -> char {
    if 'a' <= c && c <= 'z' {
        ((c as u32) - 32) as char
    } else {
        c
    }
}

/// ASCII upper case of a text (what `str::to_ascii_uppercase` gives).
pub open spec fn uppercase(s: Seq<char>) -> Seq<char> {
    Seq::new(s.len(), |i: int| ascii_upper(s[i]))
}

/// Lower-casing an upper-cased text gives what lower-casing the text gives.
proof fn lemma_lower_of_upper(s: Seq<char>)
    ensures
        lowercase(uppercase(s)) == lowercase(s),
{
    assert forall|i: int| 0 <= i < s.len() implies #[trigger] ascii_lower(ascii_upper(s[i])) == ascii_lower(s[i]) by {
        let c = s[i];
        if 'a' <= c && c <= 'z' {
            let u = ((c as u32) - 32) as char;
            assert(u as u32 == c as u32 - 32);
            assert('A' <= u && u <= 'Z');
            assert(((u as u32) + 32) as char == c);
        }
    }
    assert(lowercase(uppercase(s)) =~= lowercase(s));
}

/// The first clause from `k` on that gives the loss count reports a loss,
/// and the count is not zero.
proof fn lemma_first_loss_count(cl: Seq<Seq<char>>, k: int)
    requires
        0 <= k,
    ensures
        first_loss_count(cl, k) matches Some(n) ==> n > 0
            && exists|j: int| k <= j < cl.len() && clause_reports_loss(#[trigger] cl[j]),
    decreases cl.len() - k,
{
    if k < cl.len() {
        if !(clause_reports_loss(cl[k]) && first_nonzero(cl[k]) is Some) {
            lemma_first_loss_count(cl, k + 1);
        }
    }
}

/// Law: the loss count is only ever given for a text the loss check accepts,
/// and it is never 0; it ignores ASCII letter case; and a text that (case
/// ignored) lacks "lost", or has neither "event" nor "etw", gives none.
pub proof fn law_etw_loss_count_agrees_with_check(s: Seq<char>)
    ensures
        spec_etw_events_lost(s) matches Some(n) ==> n > 0 && spec_has_etw_loss(s),
        spec_etw_events_lost(uppercase(s)) == spec_etw_events_lost(s),
        spec_has_etw_loss(uppercase(s)) == spec_has_etw_loss(s),
        !has_sub(lowercase(s), "lost"@) || !(has_sub(lowercase(s), "event"@) || has_sub(lowercase(s), "etw"@))
            ==> spec_etw_events_lost(s) is None,
{
    lemma_lower_of_upper(s);
    let l = lowercase(s);
    lemma_first_loss_count(split_by(l, Cut::Clauses), 0);
}

/// Whether PresentMon's stderr reports lost ETW events (see
/// [`spec_has_etw_loss`]).
pub fn stderr_has_etw_loss(stderr: &str) -> (r: bool)
    ensures
        r == spec_has_etw_loss(stderr@),
{
    let raw = to_chars(stderr);
    let l = lower_chars(&raw);
    if !mentions_loss_chars(&l) {
        return false;
    }
    let cl = clauses_of(&l);
    let ghost cv = piece_views(cl@);
    let mut k: usize = 0;
    while k < cl.len()
        invariant
            cv == piece_views(cl@),
            cv == split_by(l@, Cut::Clauses),
            l@ == lowercase(stderr@),
            mentions_loss(l@),
            0 <= k <= cl@.len(),
            forall|m: int| 0 <= m < k ==> !clause_reports_loss(#[trigger] cv[m]),
        decreases cl@.len() - k,
    {
        proof {
            assert(cv[k as int] == cl@[k as int]@);
        }
        if clause_has_etw_loss(&cl[k]) {
            return true;
        }
        k = k + 1;
    }
    false
}

/// The number of lost ETW events or buffers PresentMon's stderr reports (see
/// [`spec_etw_events_lost`]); zero or negated statements give `None`.
pub fn parse_etw_events_lost(stderr: &str) -> (r: Option<u64>)
    ensures
        r == spec_etw_events_lost(stderr@),
{
    let raw = to_chars(stderr);
    let l = lower_chars(&raw);
    if !mentions_loss_chars(&l) {
        return None;
    }
    let cl = clauses_of(&l);
    let ghost cv = piece_views(cl@);
    let mut k: usize = 0;
    while k < cl.len()
        invariant
            cv == piece_views(cl@),
            cv == split_by(l@, Cut::Clauses),
            l@ == lowercase(stderr@),
            mentions_loss(l@),
            0 <= k <= cl@.len(),
            first_loss_count(cv, 0) == first_loss_count(cv, k as int),
        decreases cl@.len() - k,
    {
        proof {
            assert(cv[k as int] == cl@[k as int]@);
        }
        if clause_has_etw_loss(&cl[k]) {
            let n = first_nonzero_integer(&cl[k]);
            if n.is_some() {
                return n;
            }
        }
        k = k + 1;
    }
    None
}

/// The overflow count of one clause (see [`clause_overflow`]).
fn clause_overflow_count(clause: &Vec<char>) -> (r: Option<u64>)
    ensures
        r == clause_overflow(clause@),
{
    if !(contains_chars(clause, &to_chars("overflow")) && contains_chars(clause, &to_chars("present"))) {
        return None;
    }
    let ws = words_of(clause);
    let ghost wv = piece_views(ws@);
    let mut j: usize = 0;
    while j < ws.len()
        invariant
            wv == piece_views(ws@),
            wv == words(clause@),
            has_sub(clause@, "overflow"@) && has_sub(clause@, "present"@),
            0 <= j <= ws@.len(),
            first_overflow_word(wv, 0) == first_overflow_word(wv, j as int),
        decreases ws@.len() - j,
    {
        proof {
            assert(wv[j as int] == ws@[j as int]@);
        }
        let w = &ws[j];
        let pre = to_chars("overflow");
        let starts = pre.len() <= w.len() && {
            let mut m: usize = 0;
            let mut same = true;
            while m < pre.len()
                invariant
                    0 <= m <= pre@.len(),
                    pre@.len() <= w@.len(),
                    same == forall|q: int| 0 <= q < m ==> pre@[q] == w@[q],
                decreases pre@.len() - m,
            {
                if pre[m] != w[m] {
                    same = false;
                }
                m = m + 1;
            }
            same
        };
        if starts {
            assert("overflow"@.is_prefix_of(wv[j as int])) by {
                assert(pre@ == "overflow"@);
            }
            assert(first_overflow_word(wv, j as int) == Some(j as int));
            if negated_at(&ws, j, false) {
                return None;
            }
            return first_nonzero_integer(clause);
        }
        proof {
            if pre@.len() <= w@.len() {
                assert(!"overflow"@.is_prefix_of(wv[j as int])) by {
                    let q = choose|q: int| 0 <= q < pre@.len() && pre@[q] != w@[q];
                }
            }
        }
        j = j + 1;
    }
    first_nonzero_integer(clause)
}

/// The number of overflowed present events PresentMon's stderr reports (see
/// [`spec_overflowed_present_events`]); zero or negated statements give `None`.
pub fn parse_overflowed_present_events(stderr: &str) -> (r: Option<u64>)
    ensures
        r == spec_overflowed_present_events(stderr@),
{
    let raw = to_chars(stderr);
    let l = lower_chars(&raw);
    if !(contains_chars(&l, &to_chars("overflow")) && contains_chars(&l, &to_chars("present"))) {
        return None;
    }
    let cl = clauses_of(&l);
    let ghost cv = piece_views(cl@);
    let mut k: usize = 0;
    while k < cl.len()
        invariant
            cv == piece_views(cl@),
            cv == split_by(l@, Cut::Clauses),
            l@ == lowercase(stderr@),
            has_sub(l@, "overflow"@) && has_sub(l@, "present"@),
            0 <= k <= cl@.len(),
            first_overflow_count(cv, 0) == first_overflow_count(cv, k as int),
        decreases cl@.len() - k,
    {
        proof {
            assert(cv[k as int] == cl@[k as int]@);
        }
        let n = clause_overflow_count(&cl[k]);
        if n.is_some() {
            return n;
        }
        k = k + 1;
    }
    None
}

} // verus!
