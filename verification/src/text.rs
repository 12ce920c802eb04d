//! Character-level helpers: previews, line joining and substring search.

use vstd::prelude::*;
use vstd::string::*;

verus! {

/// How many characters a paragraph preview shows.
pub const PREVIEW_CHARS: usize = 80;

/// The first `limit` characters of `t` (all of `t` when it is shorter).
pub open spec fn prefix_of(t: Seq<char>, limit: nat) -> Seq<char> {
    if t.len() <= limit { t } else { t.take(limit as int) }
}

/// The lines joined by a newline between each two.
pub open spec fn join_lines(lines: Seq<Seq<char>>) -> Seq<char>
    decreases lines.len(),
{
    if lines.len() == 0 {
        Seq::empty()
    } else if lines.len() == 1 {
        lines[0]
    } else {
        join_lines(lines.drop_last()) + "\n"@ + lines.last()
    }
}

/// `needle` occurs in `hay` as a run of consecutive characters.
pub open spec fn occurs_in(needle: Seq<char>, hay: Seq<char>) -> bool {
    exists|i: int| 0 <= i <= hay.len() - needle.len() && #[trigger] hay.subrange(i, i + needle.len()) == needle
}

/// The characters of `s`.
pub fn chars_of(s: &str) -> (v: Vec<char>)
    ensures
        v@ == s@,
{
    let n = s.unicode_len();
    let mut v: Vec<char> = Vec::new();
    let mut i: usize = 0;
    while i < n
        invariant
            n == s@.len(),
            i <= n,
            v@ == s@.take(i as int),
        decreases n - i,
    {
        v.push(s.get_char(i));
        i = i + 1;
        assert(v@ =~= s@.take(i as int));
    }
    assert(s@.take(n as int) =~= s@);
    v
}

/// The first `limit` characters of `s` and the number of characters of `s`.
pub fn preview(s: &str, limit: usize) -> (r: (String, usize))
    ensures
        r.0@ == prefix_of(s@, limit as nat),
        r.1 == s@.len(),
{
    let n = s.unicode_len();
    let end = if n <= limit { n } else { limit };
    let p = s.substring_char(0, end).to_owned();
    proof {
        if n <= limit {
            assert(s@.subrange(0, end as int) =~= s@);
        } else {
            assert(s@.subrange(0, end as int) =~= s@.take(limit as int));
        }
    }
    (p, n)
}

/// The lines joined by a newline between each two.
pub fn join_with_newlines(lines: &Vec<String>) -> (r: String)
    ensures
        r@ == join_lines(lines@.map_values(|l: String| l@)),
{
    let ghost views = lines@.map_values(|l: String| l@);
    let mut r = String::new();
    let mut i: usize = 0;
    while i < lines.len()
        invariant
            i <= lines@.len(),
            views == lines@.map_values(|l: String| l@),
            r@ == join_lines(views.take(i as int)),
        decreases lines@.len() - i,
    {
        proof {
            assert(views.take(i + 1).drop_last() =~= views.take(i as int));
            assert(views.take(i + 1).last() == lines@[i as int]@);
        }
        if i > 0 {
            r.append("\n");
        } else {
            assert(views.take(1) =~= seq![views[0]]);
            assert(r@ =~= Seq::<char>::empty());
        }
        r.append(lines[i].as_str());
        i = i + 1;
        proof {
            if i == 1 {
                assert(r@ =~= views.take(1)[0]);
            }
        }
    }
    assert(views.take(lines@.len() as int) =~= views);
    r
}

/// Whether `needle` occurs in `hay`.
pub fn contains_text(hay: &str, needle: &str) -> (b: bool)
    ensures
        b == occurs_in(needle@, hay@),
{
    let h = chars_of(hay);
    let nd = chars_of(needle);
    let hn = h.len();
    let nn = nd.len();
    if nn > hn {
        return false;
    }
    let mut i: usize = 0;
    while i <= hn - nn
        invariant
            h@ == hay@,
            nd@ == needle@,
            hn == h@.len(),
            nn == nd@.len(),
            nn <= hn,
            i <= hn - nn + 1,
            forall|k: int| 0 <= k < i ==> #[trigger] hay@.subrange(k, k + nn) != needle@,
        decreases hn - nn + 1 - i,
    {
        let mut j: usize = 0;
        let mut same = true;
        while j < nn
            invariant
                h@ == hay@,
                nd@ == needle@,
                hn == h@.len(),
                nn == nd@.len(),
                i + nn <= hn,
                j <= nn,
                same == forall|k: int| 0 <= k < j ==> h@[i + k] == nd@[k],
            decreases nn - j,
        {
            if h[i + j] != nd[j] {
                same = false;
            }
            j = j + 1;
        }
        if same {
            assert(hay@.subrange(i as int, i + nn) =~= needle@);
            return true;
        }
        assert(hay@.subrange(i as int, i + nn) != needle@) by {
            let k = choose|k: int| 0 <= k < nn && h@[i + k] != nd@[k];
            assert(hay@.subrange(i as int, i + nn)[k] == h@[i + k]);
        }
        i = i + 1;
    }
    false
}

} // verus!
