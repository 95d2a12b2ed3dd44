//! Paths as text. Paths are joined with `/`, which every supported
//! platform accepts as a separator; on Windows `\` separates components
//! too.

use vstd::prelude::*;

use crate::text::{chars_of, string_from_chars};

verus! {

/// `child` joined onto `base`: an absolute `child` replaces `base`, an
/// empty `base` yields `child`, otherwise a single `/` separates them.
pub open spec fn path_join(base: Seq<char>, child: Seq<char>) -> Seq<char> {
    if child.len() > 0 && child[0] == '/' {
        child
    } else if base.len() == 0 {
        child
    } else if base.last() == '/' {
        base + child
    } else {
        base + "/"@ + child
    }
}

pub fn join_path(base: &str, child: &str) -> (p: String)
    ensures
        p@ == path_join(base@, child@),
{
    let b = chars_of(base);
    let c = chars_of(child);
    if c.len() > 0 && c[0] == '/' {
        return string_from_chars(&c);
    }
    if b.len() == 0 {
        return string_from_chars(&c);
    }
    let mut out = b;
    if out[out.len() - 1] != '/' {
        out.push('/');
    }
    let mut i: usize = 0;
    let ghost start = out@;
    while i < c.len()
        invariant
            c@ == child@,
            i <= c.len(),
            out@ == start + c@.subrange(0, i as int),
        decreases c.len() - i,
    {
        out.push(c[i]);
        i = i + 1;
        assert(out@ =~= start + c@.subrange(0, i as int));
    }
    assert(c@.subrange(0, c@.len() as int) =~= c@);
    assert(base@.len() > 0 && base@.last() != '/' ==> start =~= base@ + "/"@) by {
        reveal_strlit("/");
    }
    string_from_chars(&out)
}

/// Adds the segment `seg` to the components `acc` of a path, following
/// `Path::components`: empty segments vanish, and `.` is kept only as the
/// leading component of a relative path.
pub open spec fn push_component(acc: Seq<Seq<char>>, seg: Seq<char>, absolute: bool) -> Seq<Seq<char>> {
    if seg.len() == 0 {
        acc
    } else if seg == seq!['.'] && !(acc.len() == 0 && !absolute) {
        acc
    } else {
        acc.push(seg)
    }
}

/// A path separator: `/`, and on Windows also `\`.
pub open spec fn is_separator(c: char, windows: bool) -> bool {
    c == '/' || (windows && c == '\\')
}

/// Components of `s[..i]` already closed by a separator, plus the open
/// segment.
pub open spec fn components_upto(s: Seq<char>, i: int, windows: bool) -> (Seq<Seq<char>>, Seq<char>)
    decreases i,
{
    if i <= 0 {
        (Seq::empty(), Seq::empty())
    } else {
        let (acc, cur) = components_upto(s, i - 1, windows);
        if is_separator(s[i - 1], windows) {
            (push_component(acc, cur, s.len() > 0 && is_separator(s[0], windows)), Seq::empty())
        } else {
            (acc, cur.push(s[i - 1]))
        }
    }
}

/// The named components of a path on the platform, in order; the root of
/// an absolute path is not among them (a Windows drive prefix such as
/// `C:` is).
pub open spec fn path_components_on(s: Seq<char>, windows: bool) -> Seq<Seq<char>> {
    let (acc, cur) = components_upto(s, s.len() as int, windows);
    push_component(acc, cur, s.len() > 0 && is_separator(s[0], windows))
}

/// The named components of a path whose separator is `/`.
pub open spec fn path_components(s: Seq<char>) -> Seq<Seq<char>> {
    path_components_on(s, false)
}

fn separator(c: char, windows: bool) -> (b: bool)
    ensures
        b == is_separator(c, windows),
{
    c == '/' || (windows && c == '\\')
}

/// The named components of `path` on the platform.
pub fn components_on(path: &str, windows: bool) -> (v: Vec<Vec<char>>)
    ensures
        v@.len() == path_components_on(path@, windows).len(),
        forall|i: int| 0 <= i < v@.len() ==> #[trigger] v@[i]@ == path_components_on(path@, windows)[i],
{
    let s = chars_of(path);
    let absolute = s.len() > 0 && separator(s[0], windows);
    let mut acc: Vec<Vec<char>> = Vec::new();
    let mut cur: Vec<char> = Vec::new();
    let mut i: usize = 0;
    while i < s.len()
        invariant
            s@ == path@,
            absolute == (s@.len() > 0 && is_separator(s@[0], windows)),
            i <= s.len(),
            acc@.len() == components_upto(s@, i as int, windows).0.len(),
            forall|k: int| 0 <= k < acc@.len() ==> #[trigger] acc@[k]@ == components_upto(s@, i as int, windows).0[k],
            cur@ == components_upto(s@, i as int, windows).1,
        decreases s.len() - i,
    {
        if separator(s[i], windows) {
            let is_dot = cur.len() == 1 && cur[0] == '.';
            if cur.len() == 0 {
            } else if is_dot && !(acc.len() == 0 && !absolute) {
            } else {
                acc.push(cur);
            }
            proof {
                assert(is_dot == (cur@ == seq!['.'])) by {
                    if cur@.len() == 1 && cur@[0] == '.' {
                        assert(cur@ =~= seq!['.']);
                    }
                }
            }
            cur = Vec::new();
        } else {
            cur.push(s[i]);
        }
        i = i + 1;
    }
    let is_dot = cur.len() == 1 && cur[0] == '.';
    proof {
        assert(is_dot == (cur@ == seq!['.'])) by {
            if cur@.len() == 1 && cur@[0] == '.' {
                assert(cur@ =~= seq!['.']);
            }
        }
    }
    if cur.len() == 0 {
    } else if is_dot && !(acc.len() == 0 && !absolute) {
    } else {
        acc.push(cur);
    }
    acc
}

/// The named components of `path`, whose separator is `/`.
pub fn components(path: &str) -> (v: Vec<Vec<char>>)
    ensures
        v@.len() == path_components(path@).len(),
        forall|i: int| 0 <= i < v@.len() ==> #[trigger] v@[i]@ == path_components(path@)[i],
{
    components_on(path, false)
}

} // verus!
