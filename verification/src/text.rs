//! Character-level helpers on strings: whitespace, trimming and word splitting.
use vstd::prelude::*;

verus! {

/// `c` has the Unicode `White_Space` property, as `char::is_whitespace` decides it.
pub open spec fn is_ws(c: char) -> bool {
    let u = c as u32;
    ||| 9 <= u <= 13
    ||| u == 32
    ||| u == 0x85
    ||| u == 0xA0
    ||| u == 0x1680
    ||| 0x2000 <= u <= 0x200A
    ||| u == 0x2028
    ||| u == 0x2029
    ||| u == 0x202F
    ||| u == 0x205F
    ||| u == 0x3000
}

/// `i` is the smallest index below `n` at which `p` holds.
pub open spec fn is_first(n: int, p: spec_fn(int) -> bool, i: int) -> bool {
    &&& 0 <= i < n
    &&& p(i)
    &&& forall|j: int| 0 <= j < i ==> !#[trigger] p(j)
}

/// The smallest index below `n` at which `p` holds, if there is one.
pub open spec fn first_index(n: int, p: spec_fn(int) -> bool) -> Option<int> {
    if exists|i: int| is_first(n, p, i) {
        Some(choose|i: int| is_first(n, p, i))
    } else {
        None
    }
}

pub proof fn lemma_first_index_is(n: int, p: spec_fn(int) -> bool, i: int)
    requires
        is_first(n, p, i),
    ensures
        first_index(n, p) == Some(i),
{
    let k = choose|k: int| is_first(n, p, k);
    assert(is_first(n, p, k));
    if k < i {
        assert(!p(k));
    } else if i < k {
        assert(!p(i));
    }
}

pub proof fn lemma_first_index_none(n: int, p: spec_fn(int) -> bool)
    requires
        forall|j: int| 0 <= j < n ==> !#[trigger] p(j),
    ensures
        first_index(n, p) is None,
{
    if exists|i: int| is_first(n, p, i) {
        let k = choose|k: int| is_first(n, p, k);
        assert(p(k));
    }
}

pub proof fn lemma_first_index_some(n: int, p: spec_fn(int) -> bool, i: int)
    requires
        0 <= i < n,
        p(i),
    ensures
        first_index(n, p) is Some,
    decreases i,
{
    if forall|j: int| 0 <= j < i ==> !#[trigger] p(j) {
        lemma_first_index_is(n, p, i);
    } else {
        let j = choose|j: int| 0 <= j < i && #[trigger] p(j);
        lemma_first_index_some(n, p, j);
    }
}

/// `s` with its leading whitespace removed (`str::trim_start`).
pub open spec fn trim_start(s: Seq<char>) -> Seq<char> {
    match first_index(s.len() as int, |i: int| !is_ws(s[i])) {
        Some(k) => s.skip(k),
        None => Seq::empty(),
    }
}

/// `s` with its trailing whitespace removed (`str::trim_end`).
pub open spec fn trim_end(s: Seq<char>) -> Seq<char> {
    match first_index(s.len() as int, |i: int| forall|j: int| i <= j < s.len() ==> is_ws(#[trigger] s[j])) {
        Some(k) => s.take(k),
        None => s,
    }
}

/// `s` with whitespace removed at both ends (`str::trim`).
pub open spec fn trim(s: Seq<char>) -> Seq<char> {
    trim_end(trim_start(s))
}

/// The parts of `s` before and after its first `' '`, if any (`str::split_once(' ')`).
pub open spec fn split_once_space(s: Seq<char>) -> Option<(Seq<char>, Seq<char>)> {
    match first_index(s.len() as int, |i: int| s[i] == ' ') {
        Some(i) => Some((s.take(i), s.skip(i + 1))),
        None => None,
    }
}

/// The first whitespace-separated word of `s`, if any (`s.split_whitespace().next()`).
pub open spec fn first_word(s: Seq<char>) -> Option<Seq<char>> {
    let t = trim_start(s);
    if t.len() == 0 {
        None
    } else {
        match first_index(t.len() as int, |i: int| is_ws(t[i])) {
            Some(k) => Some(t.take(k)),
            None => Some(t),
        }
    }
}

/// Whether `c` is whitespace.
pub fn is_whitespace(c: char) -> (r: bool)
    ensures
        r == is_ws(c),
{
    let u = c as u32;
    (9 <= u && u <= 13) || u == 32 || u == 0x85 || u == 0xA0 || u == 0x1680 || (0x2000 <= u && u
        <= 0x200A) || u == 0x2028 || u == 0x2029 || u == 0x202F || u == 0x205F || u == 0x3000
}

/// Index of the first character of `s` that is not whitespace, or the length of `s`.
fn leading_ws_end(s: &str) -> (k: usize)
    ensures
        k <= s@.len(),
        forall|j: int| 0 <= j < k ==> is_ws(#[trigger] s@[j]),
        k < s@.len() ==> !is_ws(s@[k as int]),
{
    let n = s.unicode_len();
    let mut k: usize = 0;
    while k < n
        invariant
            n == s@.len(),
            k <= n,
            forall|j: int| 0 <= j < k ==> is_ws(#[trigger] s@[j]),
        decreases n - k,
    {
        if !is_whitespace(s.get_char(k)) {
            return k;
        }
        k = k + 1;
    }
    k
}

/// `s` without its leading whitespace.
pub fn trim_start_str(s: &str) -> (r: &str)
    ensures
        r@ == trim_start(s@),
{
    let k = leading_ws_end(s);
    let n = s.unicode_len();
    proof {
        let p = |i: int| !is_ws(s@[i]);
        if k < n {
            lemma_first_index_is(s@.len() as int, p, k as int);
        } else {
            lemma_first_index_none(s@.len() as int, p);
        }
    }
    s.substring_char(k, n)
}


/// `s` without its trailing whitespace.
pub fn trim_end_str(s: &str) -> (r: &str)
    ensures
        r@ == trim_end(s@),
{
    let n = s.unicode_len();
    let mut e: usize = n;
    while e > 0 && is_whitespace(s.get_char(e - 1))
        invariant
            n == s@.len(),
            e <= n,
            forall|j: int| e <= j < n ==> is_ws(#[trigger] s@[j]),
        decreases e,
    {
        e = e - 1;
    }
    proof {
        let p = |i: int| forall|j: int| i <= j < s@.len() ==> is_ws(#[trigger] s@[j]);
        if e < n {
            assert forall|j: int| 0 <= j < e implies !#[trigger] p(j) by {
                assert(!is_ws(s@[e - 1]));
            }
            lemma_first_index_is(n as int, p, e as int);
        } else {
            assert forall|j: int| 0 <= j < n implies !#[trigger] p(j) by {
                assert(!is_ws(s@[n - 1]));
            }
            lemma_first_index_none(n as int, p);
            assert(s@.take(n as int) =~= s@);
        }
    }
    s.substring_char(0, e)
}

/// `s` without whitespace at either end.
pub fn trim_str(s: &str) -> (r: &str)
    ensures
        r@ == trim(s@),
{
    trim_end_str(trim_start_str(s))
}

/// Whether `a` and `b` hold the same characters.
pub fn text_eq(a: &str, b: &str) -> (r: bool)
    ensures
        r == (a@ == b@),
{
    let n = a.unicode_len();
    if n != b.unicode_len() {
        return false;
    }
    let mut i: usize = 0;
    while i < n
        invariant
            n == a@.len(),
            n == b@.len(),
            i <= n,
            forall|j: int| 0 <= j < i ==> a@[j] == b@[j],
        decreases n - i,
    {
        if a.get_char(i) != b.get_char(i) {
            return false;
        }
        i = i + 1;
    }
    assert(a@ =~= b@);
    true
}

/// `p` is a prefix of `s`.
pub open spec fn has_prefix(s: Seq<char>, p: Seq<char>) -> bool {
    p.len() <= s.len() && s.take(p.len() as int) == p
}

/// Whether `p` is a prefix of `s`.
pub fn starts_with(s: &str, p: &str) -> (r: bool)
    ensures
        r == has_prefix(s@, p@),
{
    let n = p.unicode_len();
    if n > s.unicode_len() {
        return false;
    }
    let mut i: usize = 0;
    while i < n
        invariant
            n == p@.len(),
            n <= s@.len(),
            i <= n,
            forall|j: int| 0 <= j < i ==> s@[j] == p@[j],
        decreases n - i,
    {
        if s.get_char(i) != p.get_char(i) {
            assert(s@.take(n as int)[i as int] != p@[i as int]);
            return false;
        }
        i = i + 1;
    }
    assert(s@.take(n as int) =~= p@);
    true
}

/// Index of the first `' '` in `s`, if any.
fn find_space(s: &str) -> (r: Option<usize>)
    ensures
        r matches Some(i) ==> is_first(s@.len() as int, |k: int| s@[k] == ' ', i as int),
        r is None ==> forall|j: int| 0 <= j < s@.len() ==> s@[j] != ' ',
{
    let n = s.unicode_len();
    let mut i: usize = 0;
    while i < n
        invariant
            n == s@.len(),
            i <= n,
            forall|j: int| 0 <= j < i ==> s@[j] != ' ',
        decreases n - i,
    {
        if s.get_char(i) == ' ' {
            return Some(i);
        }
        i = i + 1;
    }
    None
}

/// The parts of `s` before and after its first `' '`.
pub fn split_once_space_str(s: &str) -> (r: Option<(&str, &str)>)
    ensures
        match r {
            Some((a, b)) => split_once_space(s@) == Some((a@, b@)),
            None => split_once_space(s@) is None,
        },
{
    let ghost p = |k: int| s@[k] == ' ';
    match find_space(s) {
        Some(i) => {
            proof {
                lemma_first_index_is(s@.len() as int, p, i as int);
            }
            let n = s.unicode_len();
            Some((s.substring_char(0, i), s.substring_char(i + 1, n)))
        },
        None => {
            proof {
                lemma_first_index_none(s@.len() as int, p);
            }
            None
        },
    }
}

/// The first whitespace-separated word of `s`.
pub fn first_word_str(s: &str) -> (r: Option<&str>)
    ensures
        match r {
            Some(w) => first_word(s@) == Some(w@),
            None => first_word(s@) is None,
        },
{
    let t = trim_start_str(s);
    let n = t.unicode_len();
    if n == 0 {
        return None;
    }
    let mut i: usize = 0;
    while i < n
        invariant
            n == t@.len(),
            t@ == trim_start(s@),
            i <= n,
            forall|j: int| 0 <= j < i ==> !is_ws(#[trigger] t@[j]),
        decreases n - i,
    {
        if is_whitespace(t.get_char(i)) {
            proof {
                let ts = trim_start(s@);
                assert(ts == t@);
                lemma_first_index_is(n as int, |k: int| is_ws(ts[k]), i as int);
            }
            return Some(t.substring_char(0, i));
        }
        i = i + 1;
    }
    proof {
        let ts = trim_start(s@);
        assert(ts == t@);
        lemma_first_index_none(n as int, |k: int| is_ws(ts[k]));
        assert(t@.subrange(0, n as int) =~= t@);
    }
    Some(t.substring_char(0, n))
}

} // verus!
