//! Character-level helpers on which the tag scanner is built: whitespace,
//! stripping, searching and splitting, each stated over `Seq<char>`.
use vstd::prelude::*;
use vstd::string::StrSliceExecFns;
use vstd::string::StringExecFns;

verus! {

/// Unicode `White_Space`: the characters that `str::trim` and
/// `str::split_whitespace` treat as blank.
pub open spec fn is_ws(c: char) -> bool {
    ||| c == ' '
    ||| ('\u{9}' <= c && c <= '\u{D}')
    ||| c == '\u{85}'
    ||| c == '\u{A0}'
    ||| c == '\u{1680}'
    ||| ('\u{2000}' <= c && c <= '\u{200A}')
    ||| c == '\u{2028}'
    ||| c == '\u{2029}'
    ||| c == '\u{202F}'
    ||| c == '\u{205F}'
    ||| c == '\u{3000}'
}

/// What a strip removes: whitespace (`None`) or one given character.
pub open spec fn strips(m: Option<char>, c: char) -> bool {
    match m {
        None => is_ws(c),
        Some(q) => c == q,
    }
}

pub open spec fn strip_start(s: Seq<char>, m: Option<char>) -> Seq<char>
    decreases s.len(),
{
    if s.len() > 0 && strips(m, s[0]) {
        strip_start(s.drop_first(), m)
    } else {
        s
    }
}

pub open spec fn strip_end(s: Seq<char>, m: Option<char>) -> Seq<char>
    decreases s.len(),
{
    if s.len() > 0 && strips(m, s.last()) {
        strip_end(s.drop_last(), m)
    } else {
        s
    }
}

/// `s` without its leading and trailing characters of kind `m`.
pub open spec fn strip(s: Seq<char>, m: Option<char>) -> Seq<char> {
    strip_end(strip_start(s, m), m)
}

/// `str::trim`.
pub open spec fn trim(s: Seq<char>) -> Seq<char> {
    strip(s, None)
}

/// `p` stands in `s` at index `i`.
pub open spec fn occurs_at(s: Seq<char>, p: Seq<char>, i: int) -> bool {
    0 <= i && i + p.len() <= s.len() && s.subrange(i, i + p.len()) == p
}

pub open spec fn find_from(s: Seq<char>, p: Seq<char>, i: int) -> Option<int>
    decreases s.len() + 1 - i,
{
    if i < 0 || i + p.len() > s.len() {
        None
    } else if occurs_at(s, p, i) {
        Some(i)
    } else {
        find_from(s, p, i + 1)
    }
}

/// `str::find`: the first index at which `p` stands in `s`.
pub open spec fn find(s: Seq<char>, p: Seq<char>) -> Option<int> {
    find_from(s, p, 0)
}

/// The pieces of `s` between the separators `c`, the last piece starting
/// with `cur`.
pub open spec fn split_acc(s: Seq<char>, cur: Seq<char>, c: char) -> Seq<Seq<char>>
    decreases s.len(),
{
    if s.len() == 0 {
        seq![cur]
    } else if s[0] == c {
        seq![cur] + split_acc(s.drop_first(), Seq::empty(), c)
    } else {
        split_acc(s.drop_first(), cur.push(s[0]), c)
    }
}

/// `str::split`: the pieces of `s` between the separators `c`.
pub open spec fn split_on(s: Seq<char>, c: char) -> Seq<Seq<char>> {
    split_acc(s, Seq::empty(), c)
}

pub open spec fn close_word(cur: Seq<char>) -> Seq<Seq<char>> {
    if cur.len() > 0 {
        seq![cur]
    } else {
        Seq::empty()
    }
}

/// The words of `s`, the current one starting with `cur`.
pub open spec fn words_acc(s: Seq<char>, cur: Seq<char>) -> Seq<Seq<char>>
    decreases s.len(),
{
    if s.len() == 0 {
        close_word(cur)
    } else if is_ws(s[0]) {
        close_word(cur) + words_acc(s.drop_first(), Seq::empty())
    } else {
        words_acc(s.drop_first(), cur.push(s[0]))
    }
}

/// `str::split_whitespace`: the maximal runs of non-blank characters.
pub open spec fn words(s: Seq<char>) -> Seq<Seq<char>> {
    words_acc(s, Seq::empty())
}

/// The texts that the index ranges `rs` cut out of `cs`.
pub open spec fn pieces(cs: Seq<char>, rs: Seq<(usize, usize)>) -> Seq<Seq<char>> {
    rs.map_values(|r: (usize, usize)| cs.subrange(r.0 as int, r.1 as int))
}

pub open spec fn ranges_within(rs: Seq<(usize, usize)>, lo: int, hi: int) -> bool {
    forall|j: int| 0 <= j < rs.len() ==> lo <= #[trigger] rs[j].0 <= rs[j].1 <= hi
}

pub fn is_ws_char(c: char) -> (r: bool)
    ensures
        r == is_ws(c),
{
    c == ' ' || ('\u{9}' <= c && c <= '\u{D}') || c == '\u{85}' || c == '\u{A0}' || c
        == '\u{1680}' || ('\u{2000}' <= c && c <= '\u{200A}') || c == '\u{2028}' || c
        == '\u{2029}' || c == '\u{202F}' || c == '\u{205F}' || c == '\u{3000}'
}

fn strips_char(m: Option<char>, c: char) -> (r: bool)
    ensures
        r == strips(m, c),
{
    match m {
        None => is_ws_char(c),
        Some(q) => c == q,
    }
}

/// The characters of `s`, in order.
pub fn chars_of(s: &str) -> (r: Vec<char>)
    ensures
        r@ == s@,
{
    let mut out: Vec<char> = Vec::new();
    for c in it: s.chars()
        invariant
            out@ == it.seq().take(it.index() as int),
            it.seq() == s@,
    {
        out.push(c);
    }
    out
}

/// Where `strip_start(cs[lo..hi], m)` begins within `cs`.
pub fn strip_start_at(cs: &Vec<char>, lo: usize, hi: usize, m: Option<char>) -> (a: usize)
    requires
        lo <= hi <= cs@.len(),
    ensures
        lo <= a <= hi,
        cs@.subrange(a as int, hi as int) == strip_start(cs@.subrange(lo as int, hi as int), m),
{
    let ghost s = cs@.subrange(lo as int, hi as int);
    let mut a: usize = lo;
    while a < hi && strips_char(m, cs[a])
        invariant
            lo <= a <= hi <= cs@.len(),
            strip_start(s, m) == strip_start(cs@.subrange(a as int, hi as int), m),
        decreases hi - a,
    {
        assert(cs@.subrange(a as int, hi as int).drop_first() =~= cs@.subrange(
            a + 1,
            hi as int,
        ));
        a = a + 1;
    }
    a
}

/// Where `strip_end(cs[lo..hi], m)` ends within `cs`.
pub fn strip_end_at(cs: &Vec<char>, lo: usize, hi: usize, m: Option<char>) -> (b: usize)
    requires
        lo <= hi <= cs@.len(),
    ensures
        lo <= b <= hi,
        cs@.subrange(lo as int, b as int) == strip_end(cs@.subrange(lo as int, hi as int), m),
{
    let ghost s = cs@.subrange(lo as int, hi as int);
    let mut b: usize = hi;
    while b > lo && strips_char(m, cs[b - 1])
        invariant
            lo <= b <= hi <= cs@.len(),
            strip_end(s, m) == strip_end(cs@.subrange(lo as int, b as int), m),
        decreases b - lo,
    {
        assert(cs@.subrange(lo as int, b as int).drop_last() =~= cs@.subrange(
            lo as int,
            b - 1,
        ));
        b = b - 1;
    }
    b
}

/// The bounds of `strip(cs[lo..hi], m)` within `cs`.
pub fn strip_range(cs: &Vec<char>, lo: usize, hi: usize, m: Option<char>) -> (r: (usize, usize))
    requires
        lo <= hi <= cs@.len(),
    ensures
        lo <= r.0 <= r.1 <= hi,
        cs@.subrange(r.0 as int, r.1 as int) == strip(cs@.subrange(lo as int, hi as int), m),
{
    let a = strip_start_at(cs, lo, hi, m);
    let b = strip_end_at(cs, a, hi, m);
    (a, b)
}

/// `trim(cs[lo..hi])` as bounds within `cs`.
pub fn trim_range(cs: &Vec<char>, lo: usize, hi: usize) -> (r: (usize, usize))
    requires
        lo <= hi <= cs@.len(),
    ensures
        lo <= r.0 <= r.1 <= hi,
        cs@.subrange(r.0 as int, r.1 as int) == trim(cs@.subrange(lo as int, hi as int)),
{
    strip_range(cs, lo, hi, None)
}

/// The text of `s[a..b]`, counted in characters.
pub fn text_between(s: &str, a: usize, b: usize) -> (r: String)
    requires
        a <= b <= s@.len(),
    ensures
        r@ == s@.subrange(a as int, b as int),
{
    String::from_str(s.substring_char(a, b))
}

/// `p` stands in `cs` at index `i`.
pub fn matches_at(cs: &Vec<char>, i: usize, p: &Vec<char>) -> (r: bool)
    requires
        i + p@.len() <= cs@.len(),
    ensures
        r == (cs@.subrange(i as int, i + p@.len()) == p@),
{
    let n = cs.len();
    let mut j: usize = 0;
    while j < p.len()
        invariant
            n == cs@.len(),
            i + p@.len() <= cs@.len(),
            j <= p@.len(),
            forall|k: int| 0 <= k < j ==> cs@[i + k] == p@[k],
        decreases p.len() - j,
    {
        if cs[i + j] != p[j] {
            assert(cs@.subrange(i as int, i + p@.len())[j as int] != p@[j as int]);
            return false;
        }
        j = j + 1;
    }
    assert(cs@.subrange(i as int, i + p@.len()) =~= p@);
    true
}

/// The first index at or after `lo` at which `p` stands within `cs[lo..hi]`.
pub fn find_in(cs: &Vec<char>, lo: usize, hi: usize, p: &Vec<char>) -> (r: Option<usize>)
    requires
        lo <= hi <= cs@.len(),
    ensures
        match find(cs@.subrange(lo as int, hi as int), p@) {
            Some(k) => 0 <= k && r == Some((lo + k) as usize) && lo + k + p@.len() <= hi,
            None => r is None,
        },
{
    let ghost s = cs@.subrange(lo as int, hi as int);
    let mut i: usize = lo;
    while p.len() <= hi - i
        invariant
            s == cs@.subrange(lo as int, hi as int),
            lo <= i <= hi,
            lo <= hi <= cs@.len(),
            find(s, p@) == find_from(s, p@, i - lo),
        decreases hi - i,
    {
        assert(s.len() == hi - lo);
        assert(s.subrange(i - lo, i - lo + p@.len()) =~= cs@.subrange(i as int, i + p@.len()));
        if matches_at(cs, i, p) {
            return Some(i);
        }
        assert(p@.len() > 0) by {
            if p@.len() == 0 {
                assert(cs@.subrange(i as int, i as int) =~= p@);
            }
        }
        i = i + 1;
    }
    None
}

/// The ranges of the pieces of `cs[lo..hi]` between the separators `c`.
pub fn split_ranges(cs: &Vec<char>, lo: usize, hi: usize, c: char) -> (r: Vec<(usize, usize)>)
    requires
        lo <= hi <= cs@.len(),
    ensures
        pieces(cs@, r@) == split_on(cs@.subrange(lo as int, hi as int), c),
        ranges_within(r@, lo as int, hi as int),
{
    let ghost s = cs@.subrange(lo as int, hi as int);
    let mut out: Vec<(usize, usize)> = Vec::new();
    let mut start: usize = lo;
    let mut i: usize = lo;
    assert(pieces(cs@, out@) =~= Seq::<Seq<char>>::empty());
    assert(cs@.subrange(lo as int, lo as int) =~= Seq::<char>::empty());
    while i < hi
        invariant
            lo <= start <= i <= hi <= cs@.len(),
            s == cs@.subrange(lo as int, hi as int),
            ranges_within(out@, lo as int, hi as int),
            split_on(s, c) == pieces(cs@, out@) + split_acc(
                cs@.subrange(i as int, hi as int),
                cs@.subrange(start as int, i as int),
                c,
            ),
        decreases hi - i,
    {
        let ghost rest = cs@.subrange(i as int, hi as int);
        assert(rest.drop_first() =~= cs@.subrange(i + 1, hi as int));
        if cs[i] == c {
            let ghost before = pieces(cs@, out@);
            out.push((start, i));
            assert(pieces(cs@, out@) =~= before + seq![cs@.subrange(start as int, i as int)]);
            assert(cs@.subrange(i + 1, i + 1) =~= Seq::<char>::empty());
            i = i + 1;
            start = i;
        } else {
            assert(cs@.subrange(start as int, i as int).push(cs@[i as int]) =~= cs@.subrange(
                start as int,
                i + 1,
            ));
            i = i + 1;
        }
    }
    let ghost before = pieces(cs@, out@);
    out.push((start, hi));
    assert(pieces(cs@, out@) =~= before + seq![cs@.subrange(start as int, hi as int)]);
    out
}

/// The ranges of the words of `cs[lo..hi]`.
pub fn word_ranges(cs: &Vec<char>, lo: usize, hi: usize) -> (r: Vec<(usize, usize)>)
    requires
        lo <= hi <= cs@.len(),
    ensures
        pieces(cs@, r@) == words(cs@.subrange(lo as int, hi as int)),
        ranges_within(r@, lo as int, hi as int),
{
    let ghost s = cs@.subrange(lo as int, hi as int);
    let mut out: Vec<(usize, usize)> = Vec::new();
    let mut start: usize = lo;
    let mut i: usize = lo;
    assert(pieces(cs@, out@) =~= Seq::<Seq<char>>::empty());
    assert(cs@.subrange(lo as int, lo as int) =~= Seq::<char>::empty());
    while i < hi
        invariant
            lo <= start <= i <= hi <= cs@.len(),
            s == cs@.subrange(lo as int, hi as int),
            ranges_within(out@, lo as int, hi as int),
            words(s) == pieces(cs@, out@) + words_acc(
                cs@.subrange(i as int, hi as int),
                cs@.subrange(start as int, i as int),
            ),
        decreases hi - i,
    {
        let ghost rest = cs@.subrange(i as int, hi as int);
        assert(rest.drop_first() =~= cs@.subrange(i + 1, hi as int));
        if is_ws_char(cs[i]) {
            let ghost before = pieces(cs@, out@);
            if start < i {
                out.push((start, i));
                assert(pieces(cs@, out@) =~= before + close_word(
                    cs@.subrange(start as int, i as int),
                ));
            } else {
                assert(pieces(cs@, out@) =~= before + close_word(
                    cs@.subrange(start as int, i as int),
                ));
            }
            assert(cs@.subrange(i + 1, i + 1) =~= Seq::<char>::empty());
            i = i + 1;
            start = i;
        } else {
            assert(cs@.subrange(start as int, i as int).push(cs@[i as int]) =~= cs@.subrange(
                start as int,
                i + 1,
            ));
            i = i + 1;
        }
    }
    let ghost before = pieces(cs@, out@);
    if start < hi {
        out.push((start, hi));
    }
    assert(pieces(cs@, out@) =~= before + close_word(cs@.subrange(start as int, hi as int)));
    out
}

} // verus!
