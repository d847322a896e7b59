//! `${name}` placeholder expansion, as used for the JVM and game arguments
//! that a game manifest carries.
use vstd::prelude::*;

use crate::text::{char_from, find_char_from, find_pair_from, lemma_char_from_bounds, lemma_pair_from_bounds, pair_from, slice_to_string, str_eq};

verus! {

/// One `${name}` variable and the text that replaces it.
pub struct Placeholder {
    pub name: String,
    pub value: String,
}

/// A placeholder table as pairs of name and value.
pub open spec fn table_view(table: Seq<Placeholder>) -> Seq<(Seq<char>, Seq<char>)> {
    table.map_values(|p: Placeholder| (p.name@, p.value@))
}

/// The value of the first entry of `table` named `var`; the empty text when none is.
pub open spec fn lookup(table: Seq<(Seq<char>, Seq<char>)>, var: Seq<char>) -> Seq<char>
    decreases table.len(),
{
    if table.len() == 0 {
        Seq::empty()
    } else if table[0].0 == var {
        table[0].1
    } else {
        lookup(table.drop_first(), var)
    }
}

/// Start of the next `${` at or after `i`, or `-1`.
pub open spec fn open_from(s: Seq<char>, i: int) -> int {
    pair_from(s, '$', '{', i)
}

/// Position of the `}` that closes a `${` found at `p`, or `-1`.
pub open spec fn close_of(s: Seq<char>, p: int) -> int {
    char_from(s, '}', p + 2)
}

/// Every `${` at or after `i` is eventually closed by a `}`.
pub open spec fn braces_closed_from(s: Seq<char>, i: int) -> bool
    decreases s.len() - i,
{
    if i < 0 || open_from(s, i) < 0 {
        true
    } else if close_of(s, open_from(s, i)) < 0 {
        false
    } else {
        proof {
            lemma_pair_from_bounds(s, '$', '{', i);
            lemma_char_from_bounds(s, '}', open_from(s, i) + 2);
        }
        braces_closed_from(s, close_of(s, open_from(s, i)) + 1)
    }
}

/// Every `${` in `s` has a closing `}` after it.
pub open spec fn braces_closed(s: Seq<char>) -> bool {
    braces_closed_from(s, 0)
}

/// The expansion of `s[i..]`: each `${name}` is replaced by `lookup(table, name)`,
/// scanning from the left; text outside placeholders is kept as it stands.
pub open spec fn expand_from(s: Seq<char>, i: int, table: Seq<(Seq<char>, Seq<char>)>) -> Seq<char>
    decreases s.len() - i,
{
    if i < 0 || i > s.len() {
        Seq::empty()
    } else if open_from(s, i) < 0 {
        s.subrange(i, s.len() as int)
    } else if close_of(s, open_from(s, i)) < 0 {
        s.subrange(i, s.len() as int)
    } else {
        proof {
            lemma_pair_from_bounds(s, '$', '{', i);
            lemma_char_from_bounds(s, '}', open_from(s, i) + 2);
        }
        let p = open_from(s, i);
        let c = close_of(s, p);
        s.subrange(i, p) + lookup(table, s.subrange(p + 2, c)) + expand_from(s, c + 1, table)
    }
}

/// The expansion of all of `s`.
pub open spec fn expand(s: Seq<char>, table: Seq<(Seq<char>, Seq<char>)>) -> Seq<char> {
    expand_from(s, 0, table)
}

/// The value that `table` gives `var`.
pub fn lookup_value(table: &Vec<Placeholder>, var: &str) -> (r: String)
    ensures
        r@ == lookup(table_view(table@), var@),
{
    let mut k: usize = 0;
    assert(table_view(table@).skip(0) =~= table_view(table@));
    while k < table.len()
        invariant
            k <= table.len(),
            lookup(table_view(table@), var@) == lookup(table_view(table@).skip(k as int), var@),
        decreases table.len() - k,
    {
        assert(table_view(table@).skip(k as int).drop_first() =~= table_view(table@).skip(k + 1));
        if str_eq(table[k].name.as_str(), var) {
            return table[k].value.clone();
        }
        k = k + 1;
    }
    String::new()
}

/// Whether every `${` in `s` is closed; `expand_placeholders` needs it.
pub fn placeholders_closed(s: &str) -> (r: bool)
    ensures
        r == braces_closed(s@),
{
    let n = s.unicode_len();
    let mut i: usize = 0;
    loop
        invariant
            n == s@.len(),
            i <= n,
            braces_closed(s@) == braces_closed_from(s@, i as int),
        decreases n - i,
    {
        match find_pair_from(s, '$', '{', i) {
            None => {
                return true;
            },
            Some(p) => {
                proof {
                    lemma_pair_from_bounds(s@, '$', '{', i as int);
                }
                match find_char_from(s, '}', p + 2) {
                    None => {
                        return false;
                    },
                    Some(c) => {
                        proof {
                            lemma_char_from_bounds(s@, '}', p + 2);
                        }
                        i = c + 1;
                    },
                }
            },
        }
    }
}

/// Replaces each `${name}` of `s` by the value `table` gives `name`.
pub fn expand_placeholders(s: &str, table: &Vec<Placeholder>) -> (r: String)
    requires
        braces_closed(s@),
    ensures
        r@ == expand(s@, table_view(table@)),
{
    let n = s.unicode_len();
    let mut out = String::new();
    let mut i: usize = 0;
    loop
        invariant
            n == s@.len(),
            i <= n,
            braces_closed_from(s@, i as int),
            expand(s@, table_view(table@)) == out@ + expand_from(s@, i as int, table_view(table@)),
        decreases n - i,
    {
        proof {
            lemma_pair_from_bounds(s@, '$', '{', i as int);
        }
        match find_pair_from(s, '$', '{', i) {
            None => {
                let rest = slice_to_string(s, i, n);
                out.append(rest.as_str());
                assert(out@ == expand(s@, table_view(table@)));
                return out;
            },
            Some(p) => {
                proof {
                    lemma_char_from_bounds(s@, '}', p + 2);
                }
                match find_char_from(s, '}', p + 2) {
                    None => {
                        assert(false);
                        return out;
                    },
                    Some(c) => {
                        let before = slice_to_string(s, i, p);
                        let var = slice_to_string(s, p + 2, c);
                        let value = lookup_value(table, var.as_str());
                        let ghost prev = out@;
                        out.append(before.as_str());
                        out.append(value.as_str());
                        assert(expand_from(s@, i as int, table_view(table@)) == s@.subrange(i as int, p as int)
                            + lookup(table_view(table@), s@.subrange(p + 2, c as int)) + expand_from(
                            s@,
                            c + 1,
                            table_view(table@),
                        ));
                        assert(out@ == prev + s@.subrange(i as int, p as int) + lookup(
                            table_view(table@),
                            s@.subrange(p + 2, c as int),
                        ));
                        assert(expand(s@, table_view(table@)) == out@ + expand_from(s@, c + 1, table_view(table@)));
                        i = c + 1;
                    },
                }
            },
        }
    }
}

/// Searching for a pair of characters in `b` placed after `a` finds what the
/// search in `b` alone finds, moved by the length of `a`.
proof fn lemma_pair_from_shift(a: Seq<char>, b: Seq<char>, x: char, y: char, j: int)
    requires
        0 <= j,
    ensures
        pair_from(a + b, x, y, a.len() + j) == (if pair_from(b, x, y, j) < 0 { -1 } else { a.len() + pair_from(b, x, y, j) }),
    decreases b.len() - j,
{
    if j + 1 < b.len() {
        assert((a + b)[a.len() + j] == b[j]);
        assert((a + b)[a.len() + j + 1] == b[j + 1]);
        if !(b[j] == x && b[j + 1] == y) {
            lemma_pair_from_shift(a, b, x, y, j + 1);
        }
    }
}

/// Searching for a character in `b` placed after `a` finds what the search in
/// `b` alone finds, moved by the length of `a`.
proof fn lemma_char_from_shift(a: Seq<char>, b: Seq<char>, x: char, j: int)
    requires
        0 <= j,
    ensures
        char_from(a + b, x, a.len() + j) == (if char_from(b, x, j) < 0 { -1 } else { a.len() + char_from(b, x, j) }),
    decreases b.len() - j,
{
    if j < b.len() {
        assert((a + b)[a.len() + j] == b[j]);
        if b[j] != x {
            lemma_char_from_shift(a, b, x, j + 1);
        }
    }
}

/// Expanding `b` placed after `a`, from a point inside `b`, is expanding `b`
/// alone from that point.
proof fn lemma_expand_from_shift(a: Seq<char>, b: Seq<char>, j: int, table: Seq<(Seq<char>, Seq<char>)>)
    requires
        0 <= j,
    ensures
        expand_from(a + b, a.len() + j, table) == expand_from(b, j, table),
    decreases b.len() - j,
{
    let s = a + b;
    if j <= b.len() {
        lemma_pair_from_shift(a, b, '$', '{', j);
        let pb = open_from(b, j);
        if pb >= 0 {
            lemma_pair_from_bounds(b, '$', '{', j);
            lemma_char_from_shift(a, b, '}', pb + 2);
            let cb = close_of(b, pb);
            if cb >= 0 {
                lemma_char_from_bounds(b, '}', pb + 2);
                assert(s.subrange(a.len() + j, a.len() + pb) =~= b.subrange(j, pb));
                assert(s.subrange(a.len() + pb + 2, a.len() + cb) =~= b.subrange(pb + 2, cb));
                lemma_expand_from_shift(a, b, cb + 1, table);
            } else {
                assert(s.subrange(a.len() + j, s.len() as int) =~= b.subrange(j, b.len() as int));
            }
        } else {
            assert(s.subrange(a.len() + j, s.len() as int) =~= b.subrange(j, b.len() as int));
        }
    }
}

/// The placeholder text `${v}`.
pub open spec fn placeholder_text(v: Seq<char>) -> Seq<char> {
    seq!['$', '{'] + v + seq!['}']
}

/// A placeholder `${v}` after text `pre` that holds no `$` expands to the value
/// the table gives `v`, between `pre` and the expansion of what follows it.
pub proof fn law_expand_placeholder(pre: Seq<char>, v: Seq<char>, post: Seq<char>, table: Seq<(Seq<char>, Seq<char>)>)
    requires
        forall|i: int| 0 <= i < pre.len() ==> pre[i] != '$',
        forall|i: int| 0 <= i < v.len() ==> v[i] != '}',
    ensures
        expand(pre + placeholder_text(v) + post, table) == pre + lookup(table, v) + expand(post, table),
{
    let head = pre + placeholder_text(v);
    let s = head + post;
    let p = pre.len() as int;
    let c = p + 2 + v.len();
    assert(s[p] == '$' && s[p + 1] == '{');
    assert(s[c] == '}');
    lemma_pair_from_bounds(s, '$', '{', 0);
    let o = open_from(s, 0);
    if o != p {
        if o == -1 {
            assert(!(s[p] == '$' && s[p + 1] == '{'));
        } else if o > p {
            assert(!(s[p] == '$' && s[p + 1] == '{'));
        } else {
            assert(s[o] == pre[o]);
        }
    }
    assert(o == p);
    lemma_char_from_bounds(s, '}', p + 2);
    let k = close_of(s, p);
    if k != c {
        if k == -1 || k > c {
            assert(s[c] != '}');
        } else {
            assert(s[k] == v[k - p - 2]);
        }
    }
    assert(k == c);
    assert(s.subrange(0, p) =~= pre);
    assert(s.subrange(p + 2, c) =~= v);
    lemma_expand_from_shift(head, post, 0, table);
    assert(head.len() == c + 1);
}

/// Text without a `${` expands to itself, whatever the table.
pub proof fn law_expand_without_placeholders(s: Seq<char>, table: Seq<(Seq<char>, Seq<char>)>)
    requires
        open_from(s, 0) < 0,
    ensures
        expand(s, table) == s,
{
    assert(s.subrange(0, s.len() as int) =~= s);
}

/// A variable that the table names first at entry `k` takes that entry's value.
pub proof fn lemma_lookup_at(table: Seq<(Seq<char>, Seq<char>)>, k: int, var: Seq<char>)
    requires
        0 <= k < table.len(),
        table[k].0 == var,
        forall|j: int| 0 <= j < k ==> (#[trigger] table[j]).0 != var,
    ensures
        lookup(table, var) == table[k].1,
    decreases k,
{
    if k > 0 {
        assert(table[0].0 != var);
        assert forall|j: int| 0 <= j < k - 1 implies (#[trigger] table.drop_first()[j]).0 != var by {
            assert(table.drop_first()[j] == table[j + 1]);
        }
        lemma_lookup_at(table.drop_first(), k - 1, var);
    }
}

/// A variable that no entry of the table names expands to empty text.
pub proof fn law_lookup_missing_is_empty(table: Seq<(Seq<char>, Seq<char>)>, var: Seq<char>)
    requires
        forall|k: int| 0 <= k < table.len() ==> (#[trigger] table[k]).0 != var,
    ensures
        lookup(table, var) == Seq::<char>::empty(),
    decreases table.len(),
{
    if table.len() > 0 {
        assert(table[0].0 != var);
        assert forall|k: int| 0 <= k < table.drop_first().len() implies (#[trigger] table.drop_first()[k]).0 != var by {
            assert(table.drop_first()[k] == table[k + 1]);
        }
        law_lookup_missing_is_empty(table.drop_first(), var);
    }
}

} // verus!
