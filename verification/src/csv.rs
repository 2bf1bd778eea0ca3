//! The text side of PresentMon's CSV: splitting a line into fields (quoted
//! fields may hold commas and doubled quotes) and finding the columns the
//! metrics read in the header.
use vstd::prelude::*;
use crate::capture::white_space;
use crate::digest::push_char;
use crate::model::string_views;
use crate::text::{eq_ignore_ascii_case, eq_ignore_ascii_case_spec};

verus! {

/// The fields of `s` from position `i` on, given the fields already closed,
/// the field being read and whether a quote is open: outside quotes a comma
/// closes the field; a quote toggles quoting, except that inside quotes a
/// doubled quote stands for one quote character.
pub open spec fn csv_from(s: Seq<char>, i: int, done: Seq<Seq<char>>, cur: Seq<char>, quoted: bool) -> Seq<Seq<char>>
    decreases s.len() - i,
{
    if i < 0 || i >= s.len() {
        done.push(cur)
    } else if s[i] == '"' {
        if quoted && i + 1 < s.len() && s[i + 1] == '"' {
            csv_from(s, i + 2, done, cur.push('"'), quoted)
        } else {
            csv_from(s, i + 1, done, cur, !quoted)
        }
    } else if s[i] == ',' && !quoted {
        csv_from(s, i + 1, done.push(cur), Seq::empty(), quoted)
    } else {
        csv_from(s, i + 1, done, cur.push(s[i]), quoted)
    }
}

/// The fields of a CSV line.
pub open spec fn csv_fields(s: Seq<char>) -> Seq<Seq<char>> {
    csv_from(s, 0, Seq::empty(), Seq::empty(), false)
}

/// Splits a CSV line into its fields (see [`csv_from`]).
pub fn split_csv_line(line: &str) -> (out: Vec<String>)
    ensures
        string_views(out@) == csv_fields(line@),
{
    let n = line.unicode_len();
    let mut out: Vec<String> = Vec::new();
    let mut cur = String::new();
    let mut quoted = false;
    let mut i: usize = 0;
    proof {
        assert(cur@ =~= Seq::<char>::empty());
        assert(string_views(out@) =~= Seq::<Seq<char>>::empty());
    }
    while i < n
        invariant
            n == line@.len(),
            0 <= i <= n,
            csv_from(line@, i as int, string_views(out@), cur@, quoted) == csv_fields(line@),
        decreases n - i,
    {
        let c = line.get_char(i);
        if c == '"' {
            if quoted && i + 1 < n && line.get_char(i + 1) == '"' {
                push_char(&mut cur, '"');
                i = i + 2;
            } else {
                quoted = !quoted;
                i = i + 1;
            }
        } else if c == ',' && !quoted {
            let ghost before = string_views(out@);
            let ghost cur_before = cur@;
            let mut field = String::new();
            std::mem::swap(&mut field, &mut cur);
            out.push(field);
            assert(string_views(out@) =~= before.push(cur_before));
            assert(cur@ =~= Seq::<char>::empty());
            i = i + 1;
        } else {
            push_char(&mut cur, c);
            i = i + 1;
        }
    }
    let ghost before = string_views(out@);
    let ghost cur_before = cur@;
    out.push(cur);
    assert(string_views(out@) =~= before.push(cur_before));
    out
}

/// `s[lo..hi]` without leading and trailing white space.
pub open spec fn trimmed_range(s: Seq<char>, lo: int, hi: int) -> Seq<char>
    decreases hi - lo,
{
    if lo >= hi {
        Seq::empty()
    } else if white_space(s[lo]) {
        trimmed_range(s, lo + 1, hi)
    } else if white_space(s[hi - 1]) {
        trimmed_range(s, lo, hi - 1)
    } else {
        s.subrange(lo, hi)
    }
}

/// `s` without leading and trailing white space (as `str::trim`).
pub open spec fn trimmed(s: Seq<char>) -> Seq<char> {
    trimmed_range(s, 0, s.len() as int)
}

fn is_ws(c: char) -> (r: bool)
    ensures
        r == white_space(c),
{
    let u = c as u32;
    (0x09 <= u && u <= 0x0d) || u == 0x20 || u == 0x85 || u == 0xa0 || u == 0x1680
        || (0x2000 <= u && u <= 0x200a) || u == 0x2028 || u == 0x2029 || u == 0x202f || u == 0x205f
        || u == 0x3000
}

/// `s` without leading and trailing white space (see [`trimmed`]).
pub fn trim(s: &str) -> (t: String)
    ensures
        t@ == trimmed(s@),
{
    let n = s.unicode_len();
    let mut lo: usize = 0;
    let mut hi: usize = n;
    while lo < hi && is_ws(s.get_char(lo))
        invariant
            n == s@.len(),
            0 <= lo <= hi,
            hi == n,
            trimmed_range(s@, lo as int, hi as int) == trimmed(s@),
        decreases hi - lo,
    {
        lo = lo + 1;
    }
    while lo < hi && is_ws(s.get_char(hi - 1))
        invariant
            n == s@.len(),
            0 <= lo <= hi <= n,
            lo < hi ==> !white_space(s@[lo as int]),
            trimmed_range(s@, lo as int, hi as int) == trimmed(s@),
        decreases hi - lo,
    {
        hi = hi - 1;
    }
    let mut t = String::new();
    let mut k: usize = lo;
    proof {
        assert(t@ =~= s@.subrange(lo as int, lo as int));
    }
    while k < hi
        invariant
            n == s@.len(),
            lo <= k <= hi <= n,
            t@ == s@.subrange(lo as int, k as int),
        decreases hi - k,
    {
        push_char(&mut t, s.get_char(k));
        k = k + 1;
        assert(t@ =~= s@.subrange(lo as int, k as int));
    }
    t
}

/// Where the metric columns are in the header.
#[derive(Clone, Copy, Debug, Default, PartialEq, Eq)]
pub struct ColumnIndexes {
    pub found_header: bool,
    pub frames_found: bool,
    pub frames: usize,
    pub seconds: Option<usize>,
    pub qpc: Option<usize>,
    pub display_change: Option<usize>,
    pub until_displayed: Option<usize>,
    pub dropped: Option<usize>,
}

/// The column positions after looking at field `i` named `name` (trimmed,
/// ASCII case ignored): a later column of the same name wins.
pub open spec fn locate_step(c: ColumnIndexes, i: usize, name: Seq<char>) -> ColumnIndexes {
    let n = trimmed(name);
    if eq_ignore_ascii_case_spec(n, "msBetweenPresents"@) {
        ColumnIndexes { frames: i, frames_found: true, ..c }
    } else if eq_ignore_ascii_case_spec(n, "TimeInSeconds"@) {
        ColumnIndexes { seconds: Some(i), ..c }
    } else if eq_ignore_ascii_case_spec(n, "QpcTime"@) {
        ColumnIndexes { qpc: Some(i), ..c }
    } else if eq_ignore_ascii_case_spec(n, "msBetweenDisplayChange"@) {
        ColumnIndexes { display_change: Some(i), ..c }
    } else if eq_ignore_ascii_case_spec(n, "msUntilDisplayed"@) {
        ColumnIndexes { until_displayed: Some(i), ..c }
    } else if eq_ignore_ascii_case_spec(n, "Dropped"@) {
        ColumnIndexes { dropped: Some(i), ..c }
    } else {
        c
    }
}

/// The column positions after the first `k` fields.
pub open spec fn locate_fold(c: ColumnIndexes, fields: Seq<Seq<char>>, k: int) -> ColumnIndexes
    decreases k,
{
    if k <= 0 || k > fields.len() {
        c
    } else {
        locate_step(locate_fold(c, fields, k - 1), (k - 1) as usize, fields[k - 1])
    }
}

impl ColumnIndexes {
    /// Looks for the metric columns among the header fields; the header
    /// counts as found when the frame-time column is there.
    pub fn locate(&mut self, fields: &Vec<String>)
        ensures
            final(self).found_header == final(self).frames_found,
            *final(self) == (ColumnIndexes {
                found_header: final(self).found_header,
                ..locate_fold(*old(self), string_views(fields@), fields@.len() as int)
            }),
    {
        let ghost start = *self;
        let mut i: usize = 0;
        while i < fields.len()
            invariant
                0 <= i <= fields@.len(),
                *self == locate_fold(start, string_views(fields@), i as int),
            decreases fields@.len() - i,
        {
            let name = trim(fields[i].as_str());
            let n = name.as_str();
            proof {
                assert(string_views(fields@)[i as int] == fields@[i as int]@);
            }
            if eq_ignore_ascii_case(n, "msBetweenPresents") {
                self.frames = i;
                self.frames_found = true;
            } else if eq_ignore_ascii_case(n, "TimeInSeconds") {
                self.seconds = Some(i);
            } else if eq_ignore_ascii_case(n, "QpcTime") {
                self.qpc = Some(i);
            } else if eq_ignore_ascii_case(n, "msBetweenDisplayChange") {
                self.display_change = Some(i);
            } else if eq_ignore_ascii_case(n, "msUntilDisplayed") {
                self.until_displayed = Some(i);
            } else if eq_ignore_ascii_case(n, "Dropped") {
                self.dropped = Some(i);
            }
            i = i + 1;
        }
        self.found_header = self.frames_found;
    }
}

} // verus!
