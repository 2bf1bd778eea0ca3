//! The D3D9 workload's command line and the wide strings it hands to Win32.
use vstd::prelude::*;
use crate::etw::digits_value;
use crate::model::string_views;

verus! {

/// The workload's options.
#[derive(Clone, Copy, Debug, PartialEq, Eq, Structural)]
pub struct Options {
    pub fullscreen: bool,
    pub width: u32,
    pub height: u32,
    pub fps_cap: u32,
    pub triple_buffer: bool,
}

/// The options before any argument: fullscreen 640x480, uncapped, double
/// buffered.
pub open spec fn default_options() -> Options {
    Options { fullscreen: true, width: 640, height: 480, fps_cap: 0, triple_buffer: false }
}

/// The `u32` a run of ASCII digits denotes: at least one digit, within range.
pub open spec fn parse_digits_u32(d: Seq<char>) -> Option<u32> {
    if d.len() > 0 && (forall|i: int| 0 <= i < d.len() ==> '0' <= #[trigger] d[i] <= '9')
        && digits_value(d) <= u32::MAX {
        Some(digits_value(d) as u32)
    } else {
        None
    }
}

/// The `u32` a text denotes, as `str::parse::<u32>` reads it: an optional `+`,
/// then at least one ASCII digit, within range.
pub open spec fn parse_u32(s: Seq<char>) -> Option<u32> {
    parse_digits_u32(if s.len() > 0 && s[0] == '+' { s.drop_first() } else { s })
}

/// The first `=` of a text, if any.
pub open spec fn first_eq(s: Seq<char>) -> Option<int> {
    if exists|i: int| 0 <= i < s.len() && s[i] == '=' {
        Some(choose|i: int| 0 <= i < s.len() && s[i] == '=' && forall|j: int| 0 <= j < i ==> s[j] != '=')
    } else {
        None
    }
}

/// The options after one argument `key=value` (split at the first `=`):
/// `--fullscreen` and `--triple-buffer` are on unless the value is `0`;
/// `--width`, `--height` and `--fps-cap` take the number, or their default
/// when it does not parse; anything else is ignored.
pub open spec fn apply_arg(o: Options, arg: Seq<char>) -> Options {
    match first_eq(arg) {
        None => o,
        Some(k) => {
            let key = arg.take(k);
            let v = arg.skip(k + 1);
            if key == "--fullscreen"@ {
                Options { fullscreen: v != "0"@, ..o }
            } else if key == "--width"@ {
                Options { width: match parse_u32(v) { Some(n) => n, None => 640u32 }, ..o }
            } else if key == "--height"@ {
                Options { height: match parse_u32(v) { Some(n) => n, None => 480u32 }, ..o }
            } else if key == "--fps-cap"@ {
                Options { fps_cap: match parse_u32(v) { Some(n) => n, None => 0u32 }, ..o }
            } else if key == "--triple-buffer"@ {
                Options { triple_buffer: v != "0"@, ..o }
            } else {
                o
            }
        },
    }
}

/// The options after the first `n` arguments.
pub open spec fn options_after(args: Seq<Seq<char>>, n: int) -> Options
    decreases n,
{
    if n <= 0 || n > args.len() {
        default_options()
    } else {
        apply_arg(options_after(args, n - 1), args[n - 1])
    }
}

fn parse_number(s: &Vec<char>, from: usize) -> (r: Option<u32>)
    requires
        from <= s@.len(),
    ensures
        r == parse_u32(s@.skip(from as int)),
{
    let ghost t = s@.skip(from as int);
    let mut start = from;
    if start < s.len() && s[start] == '+' {
        start = start + 1;
    }
    let ghost d = s@.skip(start as int);
    proof {
        if t.len() > 0 && t[0] == '+' {
            assert(t.drop_first() =~= d);
        } else {
            assert(t =~= d);
        }
    }
    if start >= s.len() {
        return None;
    }
    let mut v: u64 = 0;
    let mut i: usize = start;
    proof {
        assert(d.take(0) =~= Seq::<char>::empty());
    }
    while i < s.len()
        invariant
            d == s@.skip(start as int),
            parse_u32(s@.skip(from as int)) == parse_digits_u32(d),
            start <= i <= s@.len(),
            start < s@.len(),
            forall|k: int| start <= k < i ==> '0' <= #[trigger] s@[k] <= '9',
            v == digits_value(d.take(i - start)),
            v <= u32::MAX,
        decreases s@.len() - i,
    {
        let c = s[i];
        if !('0' <= c && c <= '9') {
            proof {
                assert(d[i - start] == c);
                assert(!(forall|q: int| 0 <= q < d.len() ==> '0' <= #[trigger] d[q] <= '9'));
            }
            return None;
        }
        let digit: u64 = (c as u32 - '0' as u32) as u64;
        proof {
            let tk = d.take(i - start + 1);
            assert(tk.drop_last() =~= d.take(i - start));
            assert(tk.last() == c);
        }
        let next = v * 10 + digit;
        if next > u32::MAX as u64 {
            proof {
                lemma_prefix_value_le(d, i - start + 1);
                assert(d.take(d.len() as int) =~= d);
                assert(digits_value(d.take(i - start + 1)) > u32::MAX);
            }
            return None;
        }
        v = next;
        i = i + 1;
    }
    proof {
        assert(d.take(d.len() as int) =~= d);
        assert forall|k: int| 0 <= k < d.len() implies '0' <= #[trigger] d[k] <= '9' by {
            assert(d[k] == s@[start + k]);
        }
    }
    Some(v as u32)
}

proof fn lemma_prefix_value_le(d: Seq<char>, n: int)
    requires
        0 <= n <= d.len(),
    ensures
        (forall|k: int| 0 <= k < d.len() ==> '0' <= #[trigger] d[k] <= '9') ==> digits_value(d.take(n)) <= digits_value(d),
    decreases d.len() - n,
{
    if n < d.len() {
        lemma_prefix_value_le(d, n + 1);
        let t = d.take(n + 1);
        assert(t.drop_last() =~= d.take(n));
    } else {
        assert(d.take(n) =~= d);
    }
}

fn chars_of(s: &str) -> (r: Vec<char>)
    ensures
        r@ == s@,
{
    let n = s.unicode_len();
    let mut r: Vec<char> = Vec::new();
    let mut i: usize = 0;
    while i < n
        invariant
            n == s@.len(),
            0 <= i <= n,
            r@ == s@.take(i as int),
        decreases n - i,
    {
        r.push(s.get_char(i));
        i = i + 1;
        assert(r@ =~= s@.take(i as int));
    }
    assert(s@.take(n as int) =~= s@);
    r
}

/// Whether `s[from..from + lit.len()]` is exactly `lit` and nothing follows.
fn segment_is(s: &Vec<char>, from: usize, to: usize, lit: &str) -> (r: bool)
    requires
        from <= to <= s@.len(),
    ensures
        r == (s@.subrange(from as int, to as int) == lit@),
{
    let l = chars_of(lit);
    if to - from != l.len() {
        return false;
    }
    let mut i: usize = 0;
    while i < l.len()
        invariant
            from <= to <= s@.len(),
            l@ == lit@,
            to - from == l@.len(),
            0 <= i <= l@.len(),
            forall|k: int| 0 <= k < i ==> s@[from + k] == l@[k],
        decreases l@.len() - i,
    {
        if s[from + i] != l[i] {
            assert(s@.subrange(from as int, to as int)[i as int] != l@[i as int]);
            return false;
        }
        i = i + 1;
    }
    assert(s@.subrange(from as int, to as int) =~= l@);
    true
}

/// The workload's options from its arguments (without the program name;
/// see [`apply_arg`]); later arguments win.
pub fn parse_options(args: &Vec<String>) -> (o: Options)
    ensures
        o == options_after(string_views(args@), args@.len() as int),
{
    let mut o = Options { fullscreen: true, width: 640, height: 480, fps_cap: 0, triple_buffer: false };
    let mut n: usize = 0;
    while n < args.len()
        invariant
            0 <= n <= args@.len(),
            o == options_after(string_views(args@), n as int),
        decreases args@.len() - n,
    {
        let a = chars_of(args[n].as_str());
        proof {
            assert(string_views(args@)[n as int] == a@);
        }
        let mut k: usize = 0;
        while k < a.len() && a[k] != '='
            invariant
                0 <= k <= a@.len(),
                forall|j: int| 0 <= j < k ==> a@[j] != '=',
            decreases a@.len() - k,
        {
            k = k + 1;
        }
        if k < a.len() {
            proof {
                let c = choose|i: int| 0 <= i < a@.len() && a@[i] == '=' && forall|j: int| 0 <= j < i ==> a@[j] != '=';
                assert(0 <= k < a@.len() && a@[k as int] == '=');
                assert(c == k) by {
                    if c < k {
                    } else if k < c {
                        assert(a@[k as int] == '=');
                    }
                }
                assert(first_eq(a@) == Some(k as int));
                assert(a@.take(k as int) =~= a@.subrange(0, k as int));
                assert(a@.skip(k + 1) =~= a@.subrange(k + 1, a@.len() as int));
            }
            let len = a.len();
            let value_is_zero = segment_is(&a, k + 1, len, "0");
            if segment_is(&a, 0, k, "--fullscreen") {
                o.fullscreen = !value_is_zero;
            } else if segment_is(&a, 0, k, "--width") {
                o.width = match parse_number(&a, k + 1) { Some(v) => v, None => 640 };
            } else if segment_is(&a, 0, k, "--height") {
                o.height = match parse_number(&a, k + 1) { Some(v) => v, None => 480 };
            } else if segment_is(&a, 0, k, "--fps-cap") {
                o.fps_cap = match parse_number(&a, k + 1) { Some(v) => v, None => 0 };
            } else if segment_is(&a, 0, k, "--triple-buffer") {
                o.triple_buffer = !value_is_zero;
            }
        } else {
            proof {
                assert(!exists|i: int| 0 <= i < a@.len() && a@[i] == '=');
            }
        }
        n = n + 1;
    }
    o
}

/// The UTF-16 code units of one character.
pub open spec fn utf16_units(c: char) -> Seq<u16> {
    let u = c as u32;
    if u < 0x10000 {
        seq![u as u16]
    } else {
        seq![(0xD800 + ((u - 0x10000) / 1024)) as u16, (0xDC00 + ((u - 0x10000) % 1024)) as u16]
    }
}

/// The UTF-16 encoding of a text.
pub open spec fn utf16(s: Seq<char>) -> Seq<u16>
    decreases s.len(),
{
    if s.len() == 0 {
        Seq::empty()
    } else {
        utf16(s.drop_last()) + utf16_units(s.last())
    }
}

/// A NUL-terminated UTF-16 string (what Win32 `W` functions take).
pub fn wide(s: &str) -> (w: Vec<u16>)
    ensures
        w@ == utf16(s@).push(0u16),
{
    let n = s.unicode_len();
    let mut w: Vec<u16> = Vec::new();
    let mut i: usize = 0;
    proof {
        assert(s@.take(0) =~= Seq::<char>::empty());
    }
    while i < n
        invariant
            n == s@.len(),
            0 <= i <= n,
            w@ == utf16(s@.take(i as int)),
        decreases n - i,
    {
        let c = s.get_char(i);
        let u = c as u32;
        let ghost before = w@;
        if u < 0x10000 {
            w.push(u as u16);
        } else {
            assert(u <= 0x10FFFF);
            let v = u - 0x10000;
            w.push((0xD800 + v / 1024) as u16);
            w.push((0xDC00 + v % 1024) as u16);
        }
        proof {
            let t = s@.take(i + 1);
            assert(t.drop_last() =~= s@.take(i as int));
            assert(t.last() == c);
            assert(w@ =~= before + utf16_units(c));
        }
        i = i + 1;
    }
    proof {
        assert(s@.take(n as int) =~= s@);
    }
    w.push(0);
    w
}

} // verus!
