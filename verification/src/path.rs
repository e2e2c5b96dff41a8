//! File paths as text, by the rules of a Unix file system: `/` separates
//! components, a path that begins with `/` is rooted.
use crate::text::{
    end_index, lemma_end_index_is, scan_back, slice, split, split_chars, views, CharClass,
};
use vstd::prelude::*;

verus! {

/// A component that names something: neither empty nor `.`.
pub open spec fn is_named(part: Seq<char>) -> bool {
    part.len() > 0 && part != seq!['.']
}

/// One past the index of the last naming component, or 0 when there is none.
pub open spec fn last_named(parts: Seq<Seq<char>>) -> int
    decreases parts.len(),
{
    if parts.len() == 0 {
        0
    } else if is_named(parts.last()) {
        parts.len() as int
    } else {
        last_named(parts.drop_last())
    }
}

/// The final component of `path`, unless the path ends in `..` or names
/// nothing.
pub open spec fn file_name(path: Seq<char>) -> Option<Seq<char>> {
    let parts = split(path, '/');
    let k = last_named(parts);
    if 0 < k <= parts.len() && parts[k - 1] != seq!['.', '.'] {
        Some(parts[k - 1])
    } else {
        None
    }
}

/// `name` placed under `dir`: a rooted `name` stands for itself, otherwise
/// a separator is put between the two unless `dir` is empty or ends in one.
pub open spec fn join(dir: Seq<char>, name: Seq<char>) -> Seq<char> {
    if name.len() > 0 && name[0] == '/' {
        name
    } else if dir.len() > 0 && dir.last() != '/' {
        dir + seq!['/'] + name
    } else {
        dir + name
    }
}

/// `s` without the separators and `.` components at its end.
pub open spec fn strip_unnamed_tail(s: Seq<char>) -> Seq<char>
    decreases s.len(),
{
    if s.len() == 0 {
        s
    } else if s.last() == '/' {
        strip_unnamed_tail(s.drop_last())
    } else if s.last() == '.' && (s.len() == 1 || s[s.len() - 2] == '/') {
        strip_unnamed_tail(s.drop_last())
    } else {
        s
    }
}

/// `s` up to and with its last separator; empty when it has none.
pub open spec fn through_last_separator(s: Seq<char>) -> Seq<char> {
    let e = end_index(s, CharClass::Just('/'), true);
    if 0 <= e <= s.len() {
        s.take(e)
    } else {
        s
    }
}

/// The directory that holds the final component of the rooted path `path`;
/// `None` when the path names nothing below the root.
pub open spec fn parent(path: Seq<char>) -> Option<Seq<char>> {
    let named = strip_unnamed_tail(path);
    if named.len() == 0 {
        None
    } else {
        let above = strip_unnamed_tail(through_last_separator(named));
        if above.len() == 0 && path[0] == '/' {
            Some(seq!['/'])
        } else {
            Some(above)
        }
    }
}

/// Whether `part` is the text `.`.
fn is_dot(part: &Vec<char>) -> (r: bool)
    ensures
        r == (part@ == seq!['.']),
{
    let r = part.len() == 1 && part[0] == '.';
    assert(r ==> part@ =~= seq!['.']);
    assert(!r ==> part@ != seq!['.']) by {
        if part@ == seq!['.'] {
            assert(part@.len() == 1);
            assert(part@[0] == '.');
        }
    }
    r
}

/// Whether `part` is the text `..`.
fn is_dot_dot(part: &Vec<char>) -> (r: bool)
    ensures
        r == (part@ == seq!['.', '.']),
{
    let r = part.len() == 2 && part[0] == '.' && part[1] == '.';
    assert(r ==> part@ =~= seq!['.', '.']);
    assert(!r ==> part@ != seq!['.', '.']) by {
        if part@ == seq!['.', '.'] {
            assert(part@.len() == 2);
            assert(part@[0] == '.');
            assert(part@[1] == '.');
        }
    }
    r
}

/// The final component of `path`.
pub fn file_name_chars(path: &Vec<char>) -> (r: Option<Vec<char>>)
    ensures
        match r {
            Some(name) => file_name(path@) == Some(name@),
            None => file_name(path@) is None,
        },
{
    let parts = split_chars(path, '/');
    let ghost all = views(parts@);
    let mut k: usize = parts.len();
    assert(all.take(k as int) == all);
    while k > 0 && (parts[k - 1].len() == 0 || is_dot(&parts[k - 1]))
        invariant
            k <= parts.len(),
            all == views(parts@),
            all == split(path@, '/'),
            last_named(all) == last_named(all.take(k as int)),
        decreases k,
    {
        proof {
            let t = all.take(k as int);
            assert(t.last() == parts@[k - 1]@);
            assert(t.drop_last() == all.take(k - 1));
        }
        k -= 1;
    }
    proof {
        let t = all.take(k as int);
        if k > 0 {
            assert(t.last() == parts@[k - 1]@);
            assert(all[k - 1] == parts@[k - 1]@);
        }
    }
    if k == 0 || is_dot_dot(&parts[k - 1]) {
        None
    } else {
        Some(slice(&parts[k - 1], 0, parts[k - 1].len()))
    }
}

/// Places `name` under `dir`.
pub fn join_chars(dir: &Vec<char>, name: &Vec<char>) -> (r: Vec<char>)
    ensures
        r@ == join(dir@, name@),
{
    if name.len() > 0 && name[0] == '/' {
        return slice(name, 0, name.len());
    }
    let mut r = slice(dir, 0, dir.len());
    if dir.len() > 0 && dir[dir.len() - 1] != '/' {
        r.push('/');
    }
    crate::text::append(&mut r, name);
    r
}

/// Trims the separators and `.` components from the end of `s[..to]`.
fn strip_unnamed_tail_chars(s: &Vec<char>, to: usize) -> (e: usize)
    requires
        to <= s.len(),
    ensures
        e <= to,
        s@.take(e as int) == strip_unnamed_tail(s@.take(to as int)),
{
    let mut e: usize = to;
    while e > 0 && (s[e - 1] == '/' || (s[e - 1] == '.' && (e == 1 || s[e - 2] == '/')))
        invariant
            e <= to <= s.len(),
            strip_unnamed_tail(s@.take(e as int)) == strip_unnamed_tail(s@.take(to as int)),
        decreases e,
    {
        proof {
            let t = s@.take(e as int);
            assert(t.drop_last() == s@.take(e - 1));
            assert(t.last() == s@[e - 1]);
            if e >= 2 {
                assert(t[t.len() - 2] == s@[e - 2]);
            }
        }
        e -= 1;
    }
    proof {
        let t = s@.take(e as int);
        if e > 0 {
            assert(t.last() == s@[e - 1]);
            if e >= 2 {
                assert(t[t.len() - 2] == s@[e - 2]);
            }
        }
    }
    e
}

/// The directory that holds the final component of `path`.
pub fn parent_chars(path: &Vec<char>) -> (r: Option<Vec<char>>)
    ensures
        match r {
            Some(dir) => parent(path@) == Some(dir@),
            None => parent(path@) is None,
        },
{
    assert(path@.take(path.len() as int) == path@);
    let named = strip_unnamed_tail_chars(path, path.len());
    if named == 0 {
        return None;
    }
    let sep = scan_back(path, named, CharClass::Just('/'), true);
    proof {
        let n = path@.take(named as int);
        lemma_end_index_is(n, CharClass::Just('/'), true);
        assert(n.take(sep as int) == path@.take(sep as int));
    }
    let above = strip_unnamed_tail_chars(path, sep);
    if above == 0 && path[0] == '/' {
        let mut root: Vec<char> = Vec::new();
        root.push('/');
        assert(root@ =~= seq!['/']);
        Some(root)
    } else {
        let dir = slice(path, 0, above);
        assert(path@.subrange(0, above as int) == path@.take(above as int));
        Some(dir)
    }
}

} // verus!
