//! File-system paths, held as text in the Unix form the launcher writes.
use vstd::prelude::*;

use crate::text::{split_on, split_text, str_eq, views};

verus! {

/// `base` joined with `p` as `Path::join` does on Unix: an absolute `p` replaces
/// `base`, and a `/` goes between them unless `base` is empty or already ends in one.
pub open spec fn path_join(base: Seq<char>, p: Seq<char>) -> Seq<char> {
    if p.len() > 0 && p[0] == '/' {
        p
    } else if base.len() == 0 {
        p
    } else if base.last() == '/' {
        base + p
    } else {
        base + seq!['/'] + p
    }
}

/// Joins two paths; see `path_join`.
pub fn join_path(base: &str, p: &str) -> (r: String)
    ensures
        r@ == path_join(base@, p@),
{
    let n = base.unicode_len();
    let m = p.unicode_len();
    if m > 0 && p.get_char(0) == '/' {
        return p.to_owned();
    }
    if n == 0 {
        return p.to_owned();
    }
    let mut out = base.to_owned();
    if base.get_char(n - 1) != '/' {
        let sep = "/";
        proof {
            reveal_strlit("/");
        }
        out.append(sep);
    }
    out.append(p);
    out
}

/// The last of `parts` that names something: neither empty nor `.`.
pub open spec fn last_named(parts: Seq<Seq<char>>) -> Option<Seq<char>>
    decreases parts.len(),
{
    if parts.len() == 0 {
        None
    } else if parts.last().len() > 0 && parts.last() != "."@ {
        Some(parts.last())
    } else {
        last_named(parts.drop_last())
    }
}

/// The file name of the Unix path `p`, as `Path::file_name` gives it: its last
/// component, skipping empty ones and `.`; `None` when it has none or when the
/// last is `..`.
pub open spec fn file_name_of(p: Seq<char>) -> Option<Seq<char>> {
    match last_named(split_on(p, '/')) {
        Some(c) => if c == ".."@ {
            None
        } else {
            Some(c)
        },
        None => None,
    }
}

/// The file name of `p`; see `file_name_of`.
pub fn file_name(p: &str) -> (r: Option<String>)
    ensures
        match r {
            Some(n) => file_name_of(p@) == Some(n@),
            None => file_name_of(p@) is None,
        },
{
    let parts = split_text(p, '/');
    let ghost v = views(parts@);
    let mut k: usize = parts.len();
    assert(v.take(k as int) =~= v);
    while k > 0
        invariant
            k <= parts@.len(),
            v == views(parts@),
            v == split_on(p@, '/'),
            last_named(v) == last_named(v.take(k as int)),
        decreases k,
    {
        let ghost t = v.take(k as int);
        assert(t.drop_last() =~= v.take(k - 1));
        assert(t.last() == parts@[k - 1]@);
        let part = parts[k - 1].as_str();
        if part.unicode_len() > 0 && !str_eq(part, ".") {
            if str_eq(part, "..") {
                return None;
            }
            return Some(part.to_owned());
        }
        k = k - 1;
    }
    None
}

} // verus!
