//! Disable-next-line directives: comment lines that switch rules off for the line after them,
//! and dropping the violations reported on such lines.
//!
//! A directive is a source line that holds, after optional whitespace, `//`, optional
//! whitespace and `natspec-lint-disable-next-line`, followed by nothing or by whitespace and
//! the names of the rules to switch off, separated by commas or whitespace. A directive that
//! names no rule switches every rule off.
use vstd::prelude::*;

use crate::text::{has_prefix, is_whitespace, is_ws, starts_with, trim_start, trim_start_str};
use crate::violation::{Violation, ViolationView};

verus! {

/// The word that marks a directive.
pub open spec fn marker() -> Seq<char> {
    "natspec-lint-disable-next-line"@
}

/// A character that separates rule names in a directive.
pub open spec fn is_sep(c: char) -> bool {
    is_ws(c) || c == ','
}

/// The words of `s` from position `i` on, when the word `cur` has been read up to `i`.
pub open spec fn words_from(s: Seq<char>, i: int, cur: Seq<char>) -> Seq<Seq<char>>
    decreases s.len() - i,
{
    if i >= s.len() {
        if cur.len() > 0 {
            seq![cur]
        } else {
            Seq::empty()
        }
    } else if is_sep(s[i]) {
        (if cur.len() > 0 {
            seq![cur]
        } else {
            Seq::empty()
        }) + words_from(s, i + 1, Seq::empty())
    } else {
        words_from(s, i + 1, cur.push(s[i]))
    }
}

/// The maximal runs of characters of `s` that are no separators, in order.
pub open spec fn words(s: Seq<char>) -> Seq<Seq<char>> {
    words_from(s, 0, Seq::empty())
}

/// The rule names that a source line switches off for the next line, if it is a directive
/// (no name: every rule).
pub open spec fn directive_names(line: Seq<char>) -> Option<Seq<Seq<char>>> {
    let t = trim_start(line);
    if !has_prefix(t, seq!['/', '/']) {
        None
    } else {
        let u = trim_start(t.skip(2));
        if !has_prefix(u, marker()) {
            None
        } else {
            let r = u.skip(marker().len() as int);
            if r.len() > 0 && !is_ws(r[0]) {
                None
            } else {
                Some(words(r))
            }
        }
    }
}

/// The lines of `s` from position `i` on, when the line `cur` has been read up to `i`.
pub open spec fn lines_from(s: Seq<char>, i: int, cur: Seq<char>) -> Seq<Seq<char>>
    decreases s.len() - i,
{
    if i >= s.len() {
        seq![cur]
    } else if s[i] == '\n' {
        seq![cur] + lines_from(s, i + 1, Seq::empty())
    } else {
        lines_from(s, i + 1, cur.push(s[i]))
    }
}

/// The lines of `s`, split at each newline.
pub open spec fn source_lines(s: Seq<char>) -> Seq<Seq<char>> {
    lines_from(s, 0, Seq::empty())
}

/// The source line `line` is a directive that switches `rule` off.
pub open spec fn line_switches_off(line: Seq<char>, rule: Seq<char>) -> bool {
    directive_names(line) matches Some(names) && (names.len() == 0 || names.contains(rule))
}

/// The directive on line `k` (0-based) of `lines` switches `rule` off.
pub open spec fn switches_off(lines: Seq<Seq<char>>, k: int, rule: Seq<char>) -> bool {
    line_switches_off(lines[k], rule)
}

/// Rule `rule` is switched off on (1-based) line `line` of the source `s`: the line before it
/// is a directive that names the rule or names none.
pub open spec fn switched_off(s: Seq<char>, line: int, rule: Seq<char>) -> bool {
    exists|k: int|
        0 <= k < source_lines(s).len() && line == k + 2 && #[trigger] switches_off(
            source_lines(s),
            k,
            rule,
        )
}

/// A line on which a rule is switched off: the 1-based line and the rule's name, or no name
/// for every rule.
pub open spec fn disabled(d: Seq<(int, Option<Seq<char>>)>, line: int, rule: Seq<char>) -> bool {
    exists|i: int|
        0 <= i < d.len() && (#[trigger] d[i]).0 == line && (d[i].1 is None || d[i].1 == Some(
            rule,
        ))
}

/// The lines on which rules are switched off.
#[derive(Clone, Debug, PartialEq, Eq)]
pub struct DisabledLines {
    pub pairs: Vec<(usize, Option<String>)>,
}

/// The view of a rule name that may be absent.
pub open spec fn opt_name(n: Option<String>) -> Option<Seq<char>> {
    match n {
        Some(s) => Some(s@),
        None => None,
    }
}

impl View for DisabledLines {
    type V = Seq<(int, Option<Seq<char>>)>;

    open spec fn view(&self) -> Seq<(int, Option<Seq<char>>)> {
        self.pairs@.map_values(|p: (usize, Option<String>)| (p.0 as int, opt_name(p.1)))
    }
}

/// The violations of `ps`, each with its line, that are not on a line where `off` switches
/// their rule off, in order.
pub open spec fn kept(ps: Seq<(ViolationView, int)>, off: spec_fn(int, Seq<char>) -> bool) -> Seq<
    (ViolationView, int),
>
    decreases ps.len(),
{
    if ps.len() == 0 {
        Seq::empty()
    } else {
        let rest = kept(ps.drop_last(), off);
        if off(ps.last().1, ps.last().0.rule_name) {
            rest
        } else {
            rest.push(ps.last())
        }
    }
}

/// The violations of `ps` that are not on a line switched off for their rule in `d`.
pub open spec fn not_disabled(ps: Seq<(ViolationView, int)>, d: Seq<(int, Option<Seq<char>>)>) -> Seq<
    (ViolationView, int),
> {
    kept(ps, |line: int, rule: Seq<char>| disabled(d, line, rule))
}

/// The violations of `ps` that are not on a line switched off for their rule by a directive
/// of the source `s`.
pub open spec fn not_switched_off(ps: Seq<(ViolationView, int)>, s: Seq<char>) -> Seq<
    (ViolationView, int),
> {
    kept(ps, |line: int, rule: Seq<char>| switched_off(s, line, rule))
}

/// The views of violations paired with lines.
pub open spec fn pair_views(ps: Seq<(Violation, usize)>) -> Seq<(ViolationView, int)> {
    ps.map_values(|p: (Violation, usize)| (p.0@, p.1 as int))
}

impl DisabledLines {
    /// Whether rule `rule_name` is switched off on line `line`.
    pub fn is_disabled(&self, line: usize, rule_name: &str) -> (r: bool)
        ensures
            r == disabled(self@, line as int, rule_name@),
    {
        let n = self.pairs.len();
        for i in 0..n
            invariant
                n == self@.len(),
                forall|j: int|
                    0 <= j < i ==> !((#[trigger] self@[j]).0 == line && (self@[j].1 is None
                        || self@[j].1 == Some(rule_name@))),
        {
            let (l, name) = &self.pairs[i];
            assert(self@[i as int] == (*l as int, opt_name(*name)));
            if *l == line {
                match name {
                    None => return true,
                    Some(name) => {
                        if crate::text::text_eq(name.as_str(), rule_name) {
                            return true;
                        }
                    },
                }
            }
        }
        false
    }
}

proof fn lemma_trim_start_shorter(s: Seq<char>)
    ensures
        trim_start(s).len() <= s.len(),
{
    let p = |i: int| !is_ws(s[i]);
    if let Some(k) = crate::text::first_index(s.len() as int, p) {
        assert(crate::text::is_first(s.len() as int, p, k));
    }
}

/// The names separated by commas or whitespace in `s`.
fn words_str(s: &str) -> (r: Vec<String>)
    ensures
        r@.map_values(|w: String| w@) == words(s@),
{
    let n = s.unicode_len();
    let mut out: Vec<String> = Vec::new();
    let mut start: usize = 0;
    let mut i: usize = 0;
    assert(s@.subrange(0, 0) =~= Seq::<char>::empty());
    assert(out@.map_values(|w: String| w@) + words(s@) =~= words(s@));
    while i < n
        invariant
            n == s@.len(),
            start <= i <= n,
            out@.map_values(|w: String| w@) + words_from(s@, i as int, s@.subrange(start as int, i as int))
                == words(s@),
        decreases n - i,
    {
        let c = s.get_char(i);
        let ghost cur = s@.subrange(start as int, i as int);
        let ghost done = out@.map_values(|w: String| w@);
        if is_whitespace(c) || c == ',' {
            let ghost first: Seq<Seq<char>> = if cur.len() > 0 { seq![cur] } else { Seq::empty() };
            assert(words_from(s@, i as int, cur) == first + words_from(s@, i + 1, Seq::empty()));
            if i > start {
                let w = s.substring_char(start, i).to_owned();
                out.push(w);
                assert(out@.map_values(|w: String| w@) =~= done.push(cur));
                assert(done + (first + words_from(s@, i + 1, Seq::empty())) =~= done.push(cur)
                    + words_from(s@, i + 1, Seq::empty()));
            } else {
                assert(first =~= Seq::<Seq<char>>::empty());
                assert(done + (first + words_from(s@, i + 1, Seq::empty())) =~= done
                    + words_from(s@, i + 1, Seq::empty()));
            }
            start = i + 1;
            assert(s@.subrange(start as int, i + 1) =~= Seq::<char>::empty());
        } else {
            assert(words_from(s@, i as int, cur) == words_from(s@, i + 1, cur.push(s@[i as int])));
            assert(cur.push(s@[i as int]) =~= s@.subrange(start as int, i + 1));
        }
        i = i + 1;
    }
    let ghost cur = s@.subrange(start as int, n as int);
    let ghost done = out@.map_values(|w: String| w@);
    if n > start {
        let w = s.substring_char(start, n).to_owned();
        out.push(w);
        assert(out@.map_values(|w: String| w@) =~= done + seq![cur]);
    } else {
        assert(done + words_from(s@, n as int, cur) =~= done);
    }
    out
}

/// The rule names that `line` switches off for the next line, if it is a directive.
fn directive_names_str(line: &str) -> (r: Option<Vec<String>>)
    ensures
        match r {
            Some(names) => directive_names(line@) == Some(names@.map_values(|w: String| w@))
                && line@.len() >= 2,
            None => directive_names(line@) is None,
        },
{
    proof {
        reveal_strlit("//");
        reveal_strlit("natspec-lint-disable-next-line");
        assert("//"@ =~= seq!['/', '/']);
    }
    let t = trim_start_str(line);
    if !starts_with(t, "//") {
        return None;
    }
    proof {
        lemma_trim_start_shorter(line@);
    }
    let tn = t.unicode_len();
    let after = t.substring_char(2, tn);
    assert(after@ =~= t@.skip(2));
    let u = trim_start_str(after);
    let m = "natspec-lint-disable-next-line";
    if !starts_with(u, m) {
        return None;
    }
    let un = u.unicode_len();
    let mn = m.unicode_len();
    let r = u.substring_char(mn, un);
    assert(r@ =~= u@.skip(marker().len() as int));
    if r.unicode_len() > 0 && !is_whitespace(r.get_char(0)) {
        return None;
    }
    Some(words_str(r))
}

/// What the directives among `lines` switch off.
pub open spec fn directives_of_lines(lines: Seq<Seq<char>>, line: int, rule: Seq<char>) -> bool {
    exists|k: int| 0 <= k < lines.len() && line == k + 2 && #[trigger] switches_off(lines, k, rule)
}

/// The view of a list of switched-off lines.
pub open spec fn pairs_view(pairs: Seq<(usize, Option<String>)>) -> Seq<(int, Option<Seq<char>>)> {
    pairs.map_values(|p: (usize, Option<String>)| (p.0 as int, opt_name(p.1)))
}

proof fn lemma_disabled_push(d: Seq<(int, Option<Seq<char>>)>, e: (int, Option<Seq<char>>))
    ensures
        forall|line: int, rule: Seq<char>| #[trigger] disabled(d.push(e), line, rule) == (disabled(d, line, rule)
            || (e.0 == line && (e.1 is None || e.1 == Some(rule)))),
{
    let n = d.push(e);
    assert forall|line: int, rule: Seq<char>| #[trigger] disabled(n, line, rule) == (disabled(d, line, rule)
        || (e.0 == line && (e.1 is None || e.1 == Some(rule)))) by {
        if disabled(n, line, rule) {
            let w = choose|w: int| 0 <= w < n.len() && (#[trigger] n[w]).0 == line && (n[w].1 is None || n[w].1 == Some(rule));
            if w < d.len() {
                assert(n[w] == d[w]);
            }
        }
        if disabled(d, line, rule) {
            let w = choose|w: int| 0 <= w < d.len() && (#[trigger] d[w]).0 == line && (d[w].1 is None || d[w].1 == Some(rule));
            assert(n[w] == d[w]);
        }
        if e.0 == line && (e.1 is None || e.1 == Some(rule)) {
            assert(n[d.len() as int] == e);
        }
    }
}

proof fn lemma_directives_push(lines: Seq<Seq<char>>, cur: Seq<char>)
    ensures
        forall|line: int, rule: Seq<char>| #[trigger] directives_of_lines(lines.push(cur), line, rule) == (
            directives_of_lines(lines, line, rule) || (line == lines.len() + 2 && line_switches_off(cur, rule))),
{
    let n = lines.push(cur);
    assert forall|line: int, rule: Seq<char>| #[trigger] directives_of_lines(n, line, rule) == (
        directives_of_lines(lines, line, rule) || (line == lines.len() + 2 && line_switches_off(cur, rule))) by {
        if directives_of_lines(n, line, rule) {
            let k = choose|k: int| 0 <= k < n.len() && line == k + 2 && #[trigger] switches_off(n, k, rule);
            if k < lines.len() {
                assert(n[k] == lines[k]);
                assert(switches_off(lines, k, rule));
            } else {
                assert(n[k] == cur);
            }
        }
        if directives_of_lines(lines, line, rule) {
            let k = choose|k: int| 0 <= k < lines.len() && line == k + 2 && #[trigger] switches_off(lines, k, rule);
            assert(n[k] == lines[k]);
            assert(switches_off(n, k, rule));
        }
        if line == lines.len() + 2 && line_switches_off(cur, rule) {
            assert(n[lines.len() as int] == cur);
            assert(switches_off(n, lines.len() as int, rule));
        }
    }
}

/// Adds what the source line `text`, line `idx` (0-based), switches off on the next line.
fn add_directive(pairs: &mut Vec<(usize, Option<String>)>, text: &str, idx: usize, bound: usize)
    requires
        idx + text@.len() <= bound,
    ensures
        forall|line: int, rule: Seq<char>| #[trigger] disabled(pairs_view(final(pairs)@), line, rule) == (
            disabled(pairs_view(old(pairs)@), line, rule) || (line == idx + 2 && line_switches_off(text@, rule))),
{
    let ghost before = pairs_view(pairs@);
    match directive_names_str(text) {
        None => {},
        Some(names) => {
            let next = idx + 2;
            let ghost nm = names@.map_values(|w: String| w@);
            if names.len() == 0 {
                pairs.push((next, None));
                proof {
                    assert(pairs_view(pairs@) =~= before.push((next as int, None)));
                    lemma_disabled_push(before, (next as int, None));
                }
            } else {
                let m = names.len();
                for j in 0..m
                    invariant
                        m == names@.len(),
                        next == idx + 2,
                        nm == names@.map_values(|w: String| w@),
                        forall|line: int, rule: Seq<char>| #[trigger] disabled(pairs_view(pairs@), line, rule)
                            == (disabled(before, line, rule) || (line == next && nm.take(j as int).contains(rule))),
                {
                    let ghost prev = pairs_view(pairs@);
                    pairs.push((next, Some(names[j].clone())));
                    proof {
                        assert(pairs_view(pairs@) =~= prev.push((next as int, Some(nm[j as int]))));
                        lemma_disabled_push(prev, (next as int, Some(nm[j as int])));
                        assert forall|rule: Seq<char>| #[trigger] nm.take(j + 1).contains(rule)
                            == (nm.take(j as int).contains(rule) || nm[j as int] == rule) by {
                            if nm.take(j + 1).contains(rule) {
                                let q = choose|q: int| 0 <= q < j + 1 && #[trigger] nm.take(j + 1)[q] == rule;
                                if q < j {
                                    assert(nm.take(j as int)[q] == rule);
                                }
                            }
                            if nm.take(j as int).contains(rule) {
                                let q = choose|q: int| 0 <= q < j && #[trigger] nm.take(j as int)[q] == rule;
                                assert(nm.take(j + 1)[q] == rule);
                            }
                            if nm[j as int] == rule {
                                assert(nm.take(j + 1)[j as int] == rule);
                            }
                        }
                    }
                }
                assert(nm.take(m as int) =~= nm);
            }
        },
    }
}

/// Reads the disable-next-line directives of `content`: the lines on which they switch rules
/// off.
pub fn disable_next_line_directives(content: &str) -> (d: DisabledLines)
    ensures
        forall|line: int, rule: Seq<char>| #[trigger]
            disabled(d@, line, rule) == switched_off(content@, line, rule),
{
    let ghost s = content@;
    let n = content.unicode_len();
    let mut pairs: Vec<(usize, Option<String>)> = Vec::new();
    let mut start: usize = 0;
    let mut idx: usize = 0;
    let mut i: usize = 0;
    let ghost mut done: Seq<Seq<char>> = Seq::empty();
    assert(s.subrange(0, 0) =~= Seq::<char>::empty());
    assert(done + source_lines(s) =~= source_lines(s));
    while i < n
        invariant
            n == s.len(),
            s == content@,
            start <= i <= n,
            idx == done.len(),
            idx <= start,
            done + lines_from(s, i as int, s.subrange(start as int, i as int)) == source_lines(s),
            forall|line: int, rule: Seq<char>| #[trigger] disabled(pairs_view(pairs@), line, rule)
                == directives_of_lines(done, line, rule),
        decreases n - i,
    {
        let ghost cur = s.subrange(start as int, i as int);
        if content.get_char(i) == '\n' {
            let text = content.substring_char(start, i);
            assert(text@ == cur);
            add_directive(&mut pairs, text, idx, n);
            proof {
                lemma_directives_push(done, cur);
                let rest = lines_from(s, i + 1, Seq::empty());
                assert(lines_from(s, i as int, cur) == seq![cur] + rest);
                assert(done + (seq![cur] + rest) =~= done.push(cur) + rest);
                done = done.push(cur);
                assert(s.subrange(i + 1, i + 1) =~= Seq::<char>::empty());
            }
            idx = idx + 1;
            start = i + 1;
        } else {
            proof {
                assert(lines_from(s, i as int, cur) == lines_from(s, i + 1, cur.push(s[i as int])));
                assert(cur.push(s[i as int]) =~= s.subrange(start as int, i + 1));
            }
        }
        i = i + 1;
    }
    let ghost cur = s.subrange(start as int, n as int);
    let text = content.substring_char(start, n);
    assert(text@ == cur);
    add_directive(&mut pairs, text, idx, n);
    proof {
        lemma_directives_push(done, cur);
        assert(lines_from(s, n as int, cur) == seq![cur]);
        assert(done.push(cur) =~= done + seq![cur]);
        done = done.push(cur);
    }
    let d = DisabledLines { pairs };
    assert(d@ == pairs_view(d.pairs@));
    assert forall|line: int, rule: Seq<char>| #[trigger]
        disabled(d@, line, rule) == switched_off(content@, line, rule) by {
        assert(directives_of_lines(done, line, rule) == switched_off(content@, line, rule));
    }
    d
}

/// The violations of `found` that are not on a line switched off for their rule, in order.
pub fn filter_disabled(found: Vec<(Violation, usize)>, d: &DisabledLines) -> (r: Vec<
    (Violation, usize),
>)
    ensures
        pair_views(r@) == not_disabled(pair_views(found@), d@),
{
    let ghost all = pair_views(found@);
    let mut rest = found;
    let mut out: Vec<(Violation, usize)> = Vec::new();
    let ghost mut k: int = 0;
    while rest.len() > 0
        invariant
            0 <= k <= all.len(),
            rest@.len() == all.len() - k,
            forall|i: int|
                0 <= i < rest@.len() ==> (#[trigger] rest@[i].0@, rest@[i].1 as int) == all[k + i],
            pair_views(out@) == not_disabled(all.take(k), d@),
        decreases rest@.len(),
    {
        let (v, line) = rest.remove(0);
        proof {
            assert((v@, line as int) == all[k]);
            assert(all.take(k + 1).drop_last() =~= all.take(k));
            assert(all.take(k + 1).last() == all[k]);
        }
        if !d.is_disabled(line, v.rule_name) {
            let ghost before = out@;
            out.push((v, line));
            assert(pair_views(out@) =~= pair_views(before).push((v@, line as int)));
        }
        proof {
            k = k + 1;
        }
    }
    assert(all.take(k) =~= all);
    out
}

} // verus!
