//! Character-level string helpers shared by the launcher's text processing.
//!
//! Strings are reasoned about through their views, `Seq<char>`; every helper
//! here states its result over those views.
use vstd::prelude::*;

verus! {

/// Index of the first `i >= from` at which `s[i] == a` and `s[i + 1] == b`, or `-1`.
pub open spec fn pair_from(s: Seq<char>, a: char, b: char, from: int) -> int
    decreases s.len() - from,
{
    if from < 0 || from + 1 >= s.len() {
        -1
    } else if s[from] == a && s[from + 1] == b {
        from
    } else {
        pair_from(s, a, b, from + 1)
    }
}

/// Index of the first `i >= from` at which `s[i] == c`, or `-1`.
pub open spec fn char_from(s: Seq<char>, c: char, from: int) -> int
    decreases s.len() - from,
{
    if from < 0 || from >= s.len() {
        -1
    } else if s[from] == c {
        from
    } else {
        char_from(s, c, from + 1)
    }
}

/// Index of the last `i < upto` at which `s[i] == c`, or `-1`.
pub open spec fn last_char_before(s: Seq<char>, c: char, upto: int) -> int
    decreases upto,
{
    if upto <= 0 || upto > s.len() {
        -1
    } else if s[upto - 1] == c {
        upto - 1
    } else {
        last_char_before(s, c, upto - 1)
    }
}

pub proof fn lemma_pair_from_bounds(s: Seq<char>, a: char, b: char, from: int)
    requires
        0 <= from,
    ensures
        pair_from(s, a, b, from) == -1 || (from <= pair_from(s, a, b, from) && pair_from(
            s,
            a,
            b,
            from,
        ) + 1 < s.len() && s[pair_from(s, a, b, from)] == a && s[pair_from(s, a, b, from) + 1]
            == b),
        forall|q: int|
            from <= q < (if pair_from(s, a, b, from) == -1 {
                s.len() as int - 1
            } else {
                pair_from(s, a, b, from)
            }) ==> !(#[trigger] s[q] == a && s[q + 1] == b),
    decreases s.len() - from,
{
    if from + 1 < s.len() && !(s[from] == a && s[from + 1] == b) {
        lemma_pair_from_bounds(s, a, b, from + 1);
    }
}

pub proof fn lemma_char_from_bounds(s: Seq<char>, c: char, from: int)
    requires
        0 <= from,
    ensures
        char_from(s, c, from) == -1 || (from <= char_from(s, c, from) < s.len() && s[char_from(
            s,
            c,
            from,
        )] == c),
        forall|q: int|
            from <= q < (if char_from(s, c, from) == -1 {
                s.len() as int
            } else {
                char_from(s, c, from)
            }) ==> s[q] != c,
    decreases s.len() - from,
{
    if from < s.len() && s[from] != c {
        lemma_char_from_bounds(s, c, from + 1);
    }
}

pub proof fn lemma_last_char_before_bounds(s: Seq<char>, c: char, upto: int)
    requires
        0 <= upto <= s.len(),
    ensures
        last_char_before(s, c, upto) == -1 || (0 <= last_char_before(s, c, upto) < upto
            && s[last_char_before(s, c, upto)] == c),
        forall|q: int|
            last_char_before(s, c, upto) < q < upto ==> s[q] != c,
    decreases upto,
{
    if upto > 0 && s[upto - 1] != c {
        lemma_last_char_before_bounds(s, c, upto - 1);
    }
}

/// Whether two strings hold the same characters.
pub fn str_eq(a: &str, b: &str) -> (r: bool)
    ensures
        r == (a@ == b@),
{
    let n = a.unicode_len();
    let m = b.unicode_len();
    if n != m {
        return false;
    }
    let mut i: usize = 0;
    while i < n
        invariant
            n == a@.len(),
            m == b@.len(),
            n == m,
            i <= n,
            forall|k: int| 0 <= k < i ==> a@[k] == b@[k],
        decreases n - i,
    {
        if a.get_char(i) != b.get_char(i) {
            return false;
        }
        i = i + 1;
    }
    assert(a@ =~= b@);
    true
}

/// First position at or after `from` where `a` is directly followed by `b`.
pub fn find_pair_from(s: &str, a: char, b: char, from: usize) -> (r: Option<usize>)
    ensures
        r matches Some(p) ==> p == pair_from(s@, a, b, from as int),
        r is None ==> pair_from(s@, a, b, from as int) == -1,
{
    let n = s.unicode_len();
    let mut i = from;
    proof {
        lemma_pair_from_bounds(s@, a, b, from as int);
    }
    while n > 0 && i < n - 1
        invariant
            n == s@.len(),
            from <= i,
            pair_from(s@, a, b, from as int) == pair_from(s@, a, b, i as int),
        decreases n - i,
    {
        if s.get_char(i) == a && s.get_char(i + 1) == b {
            return Some(i);
        }
        i = i + 1;
    }
    None
}

/// First position at or after `from` holding `c`.
pub fn find_char_from(s: &str, c: char, from: usize) -> (r: Option<usize>)
    ensures
        r matches Some(p) ==> p == char_from(s@, c, from as int),
        r is None ==> char_from(s@, c, from as int) == -1,
{
    let n = s.unicode_len();
    let mut i = from;
    while i < n
        invariant
            n == s@.len(),
            from <= i,
            char_from(s@, c, from as int) == char_from(s@, c, i as int),
        decreases n - i,
    {
        if s.get_char(i) == c {
            return Some(i);
        }
        i = i + 1;
    }
    None
}

/// Last position before `upto` holding `c`.
pub fn find_last_char(s: &str, c: char) -> (r: Option<usize>)
    ensures
        r matches Some(p) ==> p == last_char_before(s@, c, s@.len() as int),
        r is None ==> last_char_before(s@, c, s@.len() as int) == -1,
{
    let n = s.unicode_len();
    let mut i = n;
    while i > 0
        invariant
            n == s@.len(),
            i <= n,
            last_char_before(s@, c, n as int) == last_char_before(s@, c, i as int),
        decreases i,
    {
        if s.get_char(i - 1) == c {
            return Some(i - 1);
        }
        i = i - 1;
    }
    None
}

/// A fresh string holding `s[from..to]`.
pub fn slice_to_string(s: &str, from: usize, to: usize) -> (r: String)
    requires
        from <= to <= s@.len(),
    ensures
        r@ == s@.subrange(from as int, to as int),
{
    let part = s.substring_char(from, to);
    part.to_owned()
}

/// `parts` joined with `sep` between consecutive parts.
pub open spec fn join_with(parts: Seq<Seq<char>>, sep: Seq<char>) -> Seq<char>
    decreases parts.len(),
{
    if parts.len() == 0 {
        Seq::empty()
    } else if parts.len() == 1 {
        parts[0]
    } else {
        join_with(parts.drop_last(), sep) + sep + parts.last()
    }
}

/// The views of a sequence of strings.
pub open spec fn views(v: Seq<String>) -> Seq<Seq<char>> {
    v.map_values(|s: String| s@)
}

/// Joins `parts` with `sep`, as `[String]::join` does.
pub fn join_strings(parts: &Vec<String>, sep: &str) -> (r: String)
    ensures
        r@ == join_with(views(parts@), sep@),
{
    let mut out = String::new();
    let mut i: usize = 0;
    while i < parts.len()
        invariant
            i <= parts.len(),
            out@ == join_with(views(parts@).take(i as int), sep@),
        decreases parts.len() - i,
    {
        assert(views(parts@).take(i + 1).drop_last() =~= views(parts@).take(i as int));
        if i > 0 {
            out.append(sep);
        }
        out.append(parts[i].as_str());
        i = i + 1;
    }
    assert(views(parts@).take(parts.len() as int) =~= views(parts@));
    out
}

/// `pat` occurs in `s` at position `p`.
pub open spec fn occurs_at(s: Seq<char>, p: int, pat: Seq<char>) -> bool {
    0 <= p && p + pat.len() <= s.len() && s.subrange(p, p + pat.len()) == pat
}

/// First position at or after `from` where `pat` occurs in `s`, or `-1`.
pub open spec fn occurrence_from(s: Seq<char>, pat: Seq<char>, from: int) -> int
    decreases s.len() + 1 - from,
{
    if from < 0 || from > s.len() || from + pat.len() > s.len() {
        -1
    } else if occurs_at(s, from, pat) {
        from
    } else {
        occurrence_from(s, pat, from + 1)
    }
}

pub proof fn lemma_occurrence_from_bounds(s: Seq<char>, pat: Seq<char>, from: int)
    requires
        0 <= from,
    ensures
        occurrence_from(s, pat, from) == -1 || (from <= occurrence_from(s, pat, from) && occurs_at(
            s,
            occurrence_from(s, pat, from),
            pat,
        )),
        occurrence_from(s, pat, from) == -1 ==> forall|q: int| from <= q ==> !#[trigger] occurs_at(s, q, pat),
    decreases s.len() + 1 - from,
{
    if from <= s.len() && from + pat.len() <= s.len() && !occurs_at(s, from, pat) {
        lemma_occurrence_from_bounds(s, pat, from + 1);
        assert forall|q: int| from <= q && occurrence_from(s, pat, from) == -1 implies !#[trigger] occurs_at(s, q, pat) by {
            if q > from {
            }
        }
    }
}

/// `s[from..]` with every occurrence of the non-empty `pat` replaced by `to`,
/// scanning from the left without overlaps, as `str::replace` does.
pub open spec fn replaced_from(s: Seq<char>, pat: Seq<char>, to: Seq<char>, from: int) -> Seq<char>
    decreases s.len() - from,
{
    if from < 0 || from > s.len() || pat.len() == 0 {
        Seq::empty()
    } else if occurrence_from(s, pat, from) < 0 {
        s.subrange(from, s.len() as int)
    } else {
        proof {
            lemma_occurrence_from_bounds(s, pat, from);
        }
        let p = occurrence_from(s, pat, from);
        s.subrange(from, p) + to + replaced_from(s, pat, to, p + pat.len())
    }
}

/// `s` with every occurrence of the non-empty `pat` replaced by `to`.
pub open spec fn replaced(s: Seq<char>, pat: Seq<char>, to: Seq<char>) -> Seq<char> {
    replaced_from(s, pat, to, 0)
}

/// `pat` occurs in `s`.
pub open spec fn contains_seq(s: Seq<char>, pat: Seq<char>) -> bool {
    exists|p: int| #[trigger] occurs_at(s, p, pat)
}

/// Whether `pat` occurs in `s` at `p`.
fn text_at(s: &str, p: usize, pat: &str) -> (r: bool)
    requires
        p <= s@.len(),
    ensures
        r == occurs_at(s@, p as int, pat@),
{
    let n = s.unicode_len();
    let m = pat.unicode_len();
    if m > n - p {
        return false;
    }
    let mut k: usize = 0;
    while k < m
        invariant
            n == s@.len(),
            m == pat@.len(),
            p + m <= n,
            k <= m,
            forall|j: int| 0 <= j < k ==> s@[p + j] == pat@[j],
        decreases m - k,
    {
        if s.get_char(p + k) != pat.get_char(k) {
            assert(s@.subrange(p as int, p + m)[k as int] != pat@[k as int]);
            return false;
        }
        k = k + 1;
    }
    assert(s@.subrange(p as int, p + m) =~= pat@);
    true
}

/// First position at or after `from` where `pat` occurs in `s`.
pub fn find_text_from(s: &str, pat: &str, from: usize) -> (r: Option<usize>)
    requires
        from <= s@.len(),
    ensures
        r matches Some(p) ==> p == occurrence_from(s@, pat@, from as int),
        r is None ==> occurrence_from(s@, pat@, from as int) == -1,
{
    let n = s.unicode_len();
    let m = pat.unicode_len();
    let mut i = from;
    while i <= n
        invariant
            n == s@.len(),
            m == pat@.len(),
            from <= i,
            occurrence_from(s@, pat@, from as int) == occurrence_from(s@, pat@, i as int),
        decreases n + 1 - i,
    {
        if m > n - i {
            return None;
        }
        if text_at(s, i, pat) {
            return Some(i);
        }
        if i == n {
            assert(occurrence_from(s@, pat@, i + 1) == -1);
            return None;
        }
        i = i + 1;
    }
    None
}

/// Whether `pat` occurs in `s`.
pub fn contains_text(s: &str, pat: &str) -> (r: bool)
    ensures
        r == contains_seq(s@, pat@),
{
    proof {
        lemma_occurrence_from_bounds(s@, pat@, 0);
    }
    match find_text_from(s, pat, 0) {
        Some(p) => true,
        None => false,
    }
}

/// `s` with every occurrence of the non-empty `pat` replaced by `to`.
pub fn replace_text(s: &str, pat: &str, to: &str) -> (r: String)
    requires
        pat@.len() > 0,
    ensures
        r@ == replaced(s@, pat@, to@),
{
    let n = s.unicode_len();
    let m = pat.unicode_len();
    let mut out = String::new();
    let mut i: usize = 0;
    loop
        invariant
            n == s@.len(),
            m == pat@.len(),
            m > 0,
            i <= n,
            replaced(s@, pat@, to@) == out@ + replaced_from(s@, pat@, to@, i as int),
        decreases n - i,
    {
        proof {
            lemma_occurrence_from_bounds(s@, pat@, i as int);
        }
        match find_text_from(s, pat, i) {
            None => {
                let rest = slice_to_string(s, i, n);
                out.append(rest.as_str());
                return out;
            },
            Some(p) => {
                let before = slice_to_string(s, i, p);
                let ghost prev = out@;
                out.append(before.as_str());
                out.append(to);
                assert(out@ == prev + s@.subrange(i as int, p as int) + to@);
                i = p + m;
            },
        }
    }
}

/// The decimal digit `d` (for `0 <= d < 10`).
pub open spec fn digit_char(d: int) -> char {
    "0123456789"@[d]
}

/// The decimal spelling of `n`, without leading zeros.
pub open spec fn decimal(n: nat) -> Seq<char>
    decreases n,
{
    if n < 10 {
        seq![digit_char(n as int)]
    } else {
        decimal(n / 10) + seq![digit_char((n % 10) as int)]
    }
}

/// The decimal spelling of `n`, with a `-` in front when it is negative.
pub open spec fn signed_decimal(n: int) -> Seq<char> {
    if n < 0 {
        seq!['-'] + decimal((-n) as nat)
    } else {
        decimal(n as nat)
    }
}

/// Spells `n` in decimal, as `u64::to_string` does.
pub fn decimal_text(n: u64) -> (r: String)
    ensures
        r@ == decimal(n as nat),
    decreases n,
{
    proof {
        reveal_strlit("0123456789");
    }
    let digits = "0123456789";
    let d = (n % 10) as usize;
    let mut out = if n < 10 {
        String::new()
    } else {
        decimal_text(n / 10)
    };
    let piece = digits.substring_char(d, d + 1);
    assert(piece@ =~= seq![digit_char(d as int)]);
    out.append(piece);
    proof {
        if n < 10 {
            assert(out@ =~= seq![digit_char(n as int)]);
        }
    }
    out
}

/// Spells `n` in decimal, as `i32::to_string` does.
pub fn signed_decimal_text(n: i32) -> (r: String)
    ensures
        r@ == signed_decimal(n as int),
{
    if n < 0 {
        let magnitude: u64 = (0i64 - (n as i64)) as u64;
        let mut out = String::new();
        let minus = "-";
        proof {
            reveal_strlit("-");
        }
        out.append(minus);
        let digits = decimal_text(magnitude);
        out.append(digits.as_str());
        assert(out@ =~= seq!['-'] + decimal((-n) as nat));
        out
    } else {
        decimal_text(n as u64)
    }
}

/// `s` split at every `sep`, as `str::split` does: one piece more than there
/// are separators.
pub open spec fn split_from(s: Seq<char>, sep: char, from: int) -> Seq<Seq<char>>
    decreases s.len() - from,
{
    if from < 0 || from > s.len() {
        Seq::empty()
    } else if char_from(s, sep, from) < 0 {
        seq![s.subrange(from, s.len() as int)]
    } else {
        proof {
            lemma_char_from_bounds(s, sep, from);
        }
        let p = char_from(s, sep, from);
        seq![s.subrange(from, p)] + split_from(s, sep, p + 1)
    }
}

/// Searching for `c` in `b` placed after `a` finds what the search in `b`
/// alone finds, moved by the length of `a`.
pub proof fn lemma_char_from_after(a: Seq<char>, b: Seq<char>, c: char, j: int)
    requires
        0 <= j,
    ensures
        char_from(a + b, c, a.len() + j) == (if char_from(b, c, j) < 0 { -1 } else { a.len() + char_from(b, c, j) }),
    decreases b.len() - j,
{
    if j < b.len() {
        assert((a + b)[a.len() + j] == b[j]);
        if b[j] != c {
            lemma_char_from_after(a, b, c, j + 1);
        }
    }
}

/// Splitting `b` placed after `a`, from a point inside `b`, is splitting `b`
/// alone from that point.
pub proof fn lemma_split_from_after(a: Seq<char>, b: Seq<char>, sep: char, j: int)
    requires
        0 <= j,
    ensures
        split_from(a + b, sep, a.len() + j) == split_from(b, sep, j),
    decreases b.len() - j,
{
    if j <= b.len() {
        lemma_char_from_after(a, b, sep, j);
        let s = a + b;
        if char_from(b, sep, j) < 0 {
            assert(s.subrange(a.len() + j, s.len() as int) =~= b.subrange(j, b.len() as int));
        } else {
            lemma_char_from_bounds(b, sep, j);
            let q = char_from(b, sep, j);
            assert(s.subrange(a.len() + j, a.len() + q) =~= b.subrange(j, q));
            lemma_split_from_after(a, b, sep, q + 1);
        }
    }
}

/// A piece without `sep`, then `sep`, then the rest, splits into the piece
/// followed by the pieces of the rest; text without `sep` is one piece.
pub proof fn lemma_split_first_piece(x: Seq<char>, rest: Seq<char>, sep: char)
    requires
        forall|i: int| 0 <= i < x.len() ==> x[i] != sep,
    ensures
        split_on(x + seq![sep] + rest, sep) == seq![x] + split_on(rest, sep),
        split_on(x, sep) == seq![x],
{
    let head = x + seq![sep];
    let s = head + rest;
    lemma_char_from_bounds(s, sep, 0);
    assert(s[x.len() as int] == sep);
    if char_from(s, sep, 0) != x.len() {
        if char_from(s, sep, 0) >= 0 && char_from(s, sep, 0) < x.len() {
            assert(s[char_from(s, sep, 0)] == x[char_from(s, sep, 0)]);
        }
    }
    assert(s.subrange(0, x.len() as int) =~= x);
    lemma_split_from_after(head, rest, sep, 0);
    assert(x + seq![sep] + rest == s);
    lemma_char_from_bounds(x, sep, 0);
    assert(x.subrange(0, x.len() as int) =~= x);
}

/// `s` split at every `sep`.
pub open spec fn split_on(s: Seq<char>, sep: char) -> Seq<Seq<char>> {
    split_from(s, sep, 0)
}

/// Splits `s` at every `sep`.
pub fn split_text(s: &str, sep: char) -> (r: Vec<String>)
    ensures
        views(r@) == split_on(s@, sep),
{
    let n = s.unicode_len();
    let mut out: Vec<String> = Vec::new();
    let mut i: usize = 0;
    loop
        invariant
            n == s@.len(),
            i <= n,
            split_on(s@, sep) == views(out@) + split_from(s@, sep, i as int),
        decreases n - i,
    {
        proof {
            lemma_char_from_bounds(s@, sep, i as int);
        }
        match find_char_from(s, sep, i) {
            None => {
                let piece = slice_to_string(s, i, n);
                let ghost prev = views(out@);
                out.push(piece);
                assert(views(out@) =~= prev + seq![piece@]);
                return out;
            },
            Some(p) => {
                let piece = slice_to_string(s, i, p);
                let ghost prev = views(out@);
                out.push(piece);
                assert(views(out@) =~= prev + seq![piece@]);
                i = p + 1;
            },
        }
    }
}

} // verus!
