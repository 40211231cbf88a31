use vstd::prelude::*;
use vstd::string::StrSliceExecFns;

verus! {

/// The frontmatter delimiter.
pub open spec fn marker() -> Seq<char> {
    seq!['+', '+', '+']
}

/// The delimiter stands at position `i` of `s`.
pub open spec fn has_marker_at(s: Seq<char>, i: int) -> bool {
    0 <= i && i + 3 <= s.len() && s.subrange(i, i + 3) == marker()
}

/// The first delimiter position at or after `start`, scanning left to right.
pub open spec fn find_marker(s: Seq<char>, start: int) -> Option<int>
    decreases s.len() - start,
{
    if start < 0 || start + 3 > s.len() {
        None
    } else if has_marker_at(s, start) {
        Some(start)
    } else {
        find_marker(s, start + 1)
    }
}

/// How a raw document divides: `None` without two delimiters; otherwise the
/// metadata block (between the first two delimiters, non-overlapping) and
/// the body (everything after the second delimiter, later delimiters kept).
pub open spec fn fm_split(s: Seq<char>) -> Option<(Seq<char>, Seq<char>)> {
    match find_marker(s, 0) {
        Option::None => None,
        Option::Some(i1) => match find_marker(s, i1 + 3) {
            Option::None => None,
            Option::Some(i2) => Some(
                (s.subrange(i1 + 3, i2), s.subrange(i2 + 3, s.len() as int)),
            ),
        },
    }
}

fn find_marker_exec(s: &str, start: usize) -> (r: Option<usize>)
    requires
        start <= s@.len(),
    ensures
        r matches Some(i) ==> find_marker(s@, start as int) == Some(i as int) && start <= i && i
            + 3 <= s@.len(),
        r is None ==> find_marker(s@, start as int) is None,
{
    let n = s.unicode_len();
    if n < 3 {
        return None;
    }
    let mut i: usize = start;
    while i <= n - 3
        invariant
            start <= i <= n,
            3 <= n,
            n == s@.len(),
            find_marker(s@, start as int) == find_marker(s@, i as int),
        decreases n - i,
    {
        let c0 = s.get_char(i);
        let c1 = s.get_char(i + 1);
        let c2 = s.get_char(i + 2);
        if c0 == '+' && c1 == '+' && c2 == '+' {
            proof {
                assert(s@.subrange(i as int, i as int + 3) =~= marker());
            }
            return Some(i);
        }
        proof {
            if has_marker_at(s@, i as int) {
                assert(s@.subrange(i as int, i as int + 3)[0] == marker()[0]);
                assert(s@.subrange(i as int, i as int + 3)[1] == marker()[1]);
                assert(s@.subrange(i as int, i as int + 3)[2] == marker()[2]);
            }
            assert(find_marker(s@, i as int) == find_marker(s@, i as int + 1));
        }
        i = i + 1;
    }
    None
}

/// Splits a raw document on the `+++` delimiter: `None` where no complete
/// frontmatter block exists; otherwise the metadata block and the body, the
/// body keeping any further delimiter occurrences.
pub fn split_frontmatter(raw: &str) -> (r: Option<(String, String)>)
    ensures
        r is Some <==> fm_split(raw@) is Some,
        r matches Some(p) ==> fm_split(raw@) matches Some(q) && p.0@ == q.0 && p.1@ == q.1,
{
    let n = raw.unicode_len();
    match find_marker_exec(raw, 0) {
        Option::None => None,
        Option::Some(i1) => match find_marker_exec(raw, i1 + 3) {
            Option::None => None,
            Option::Some(i2) => {
                let meta = raw.substring_char(i1 + 3, i2).to_owned();
                let body = raw.substring_char(i2 + 3, n).to_owned();
                Some((meta, body))
            },
        },
    }
}

} // verus!
