//! Maps fully-qualified protobuf paths to values through path matchers. A
//! matcher matches a path when it equals the path itself, one of its
//! suffixes (dropping leading segments), one of its proper prefixes
//! (dropping trailing segments), or the global path `.`; lookups yield the
//! matching values in insertion order.

use vstd::prelude::*;
use vstd::string::{StrSliceExecFns, StringExecFns};

verus! {

/// The string values of a vector of strings.
pub open spec fn spec_str_views(s: Seq<String>) -> Seq<Seq<char>> {
    Seq::new(s.len(), |i: int| s[i]@)
}

/// The position of the first dot, or `-1`.
pub open spec fn spec_first_dot(s: Seq<char>) -> int
    decreases s.len(),
{
    if s.len() == 0 {
        -1
    } else if s[0] == '.' {
        0
    } else {
        let r = spec_first_dot(s.drop_first());
        if r == -1 {
            -1
        } else {
            r + 1
        }
    }
}

/// The position of the last dot, or `-1`.
pub open spec fn spec_last_dot(s: Seq<char>) -> int
    decreases s.len(),
{
    if s.len() == 0 {
        -1
    } else if s.last() == '.' {
        s.len() - 1
    } else {
        spec_last_dot(s.drop_last())
    }
}

/// The first dot's position is a dot within the string, when there is one.
pub proof fn lemma_first_dot_range(s: Seq<char>)
    ensures
        spec_first_dot(s) == -1 || (0 <= spec_first_dot(s) < s.len() && s[spec_first_dot(s)]
            == '.'),
    decreases s.len(),
{
    if s.len() > 0 && s[0] != '.' {
        lemma_first_dot_range(s.drop_first());
    }
}

/// The last dot's position is a dot within the string, when there is one.
pub proof fn lemma_last_dot_range(s: Seq<char>)
    ensures
        spec_last_dot(s) == -1 || (0 <= spec_last_dot(s) < s.len() && s[spec_last_dot(s)] == '.'),
    decreases s.len(),
{
    if s.len() > 0 && s.last() != '.' {
        lemma_last_dot_range(s.drop_last());
    }
}

/// The suffixes of a path obtained by repeatedly dropping the leading
/// segment, longest first, the empty remainder excluded.
pub open spec fn spec_suffixes(s: Seq<char>) -> Seq<Seq<char>>
    decreases s.len(),
    via spec_suffixes_dec
{
    let i = spec_first_dot(s);
    if i == -1 {
        Seq::empty()
    } else {
        let t = s.subrange(i + 1, s.len() as int);
        if t.len() == 0 {
            Seq::empty()
        } else {
            seq![t] + spec_suffixes(t)
        }
    }
}

#[via_fn]
proof fn spec_suffixes_dec(s: Seq<char>) {
    lemma_first_dot_range(s);
}

/// The proper prefixes of a path obtained by repeatedly dropping the
/// trailing segment, longest first, the empty remainder excluded.
pub open spec fn spec_prefixes(s: Seq<char>) -> Seq<Seq<char>>
    decreases s.len(),
    via spec_prefixes_dec
{
    let i = spec_last_dot(s);
    if i == -1 {
        Seq::empty()
    } else {
        let t = s.subrange(0, i);
        if t.len() == 0 {
            Seq::empty()
        } else {
            seq![t] + spec_prefixes(t)
        }
    }
}

#[via_fn]
proof fn spec_prefixes_dec(s: Seq<char>) {
    lemma_last_dot_range(s);
}

/// All the paths a matcher may equal to match the given path: the path
/// itself, its suffixes, its proper prefixes, and the global path `.`, in
/// that order. The root path is the global path already, so nothing
/// follows it.
pub open spec fn spec_sub_paths(p: Seq<char>) -> Seq<Seq<char>> {
    seq![p] + spec_suffixes(p) + spec_prefixes(p) + (if p == seq!['.'] {
        Seq::<Seq<char>>::empty()
    } else {
        seq![seq!['.']]
    })
}

/// Whether a matcher matches a fully-qualified path.
pub open spec fn spec_matcher_matches(matcher: Seq<char>, fq: Seq<char>) -> bool {
    spec_sub_paths(fq).contains(matcher)
}

/// When no dot stands before position `i` and a dot stands at `i`, it is
/// the first dot.
proof fn lemma_first_dot_found(s: Seq<char>, i: int)
    requires
        0 <= i < s.len(),
        forall|j: int| 0 <= j < i ==> s[j] != '.',
        s[i] == '.',
    ensures
        spec_first_dot(s) == i,
    decreases i,
{
    if i > 0 {
        lemma_first_dot_found(s.drop_first(), i - 1);
    }
}

/// When no character is a dot, there is no first dot.
proof fn lemma_first_dot_missing(s: Seq<char>)
    requires
        forall|j: int| 0 <= j < s.len() ==> s[j] != '.',
    ensures
        spec_first_dot(s) == -1,
    decreases s.len(),
{
    if s.len() > 0 {
        lemma_first_dot_missing(s.drop_first());
    }
}

/// When a dot stands at `i` and none after it, it is the last dot.
proof fn lemma_last_dot_found(s: Seq<char>, i: int)
    requires
        0 <= i < s.len(),
        forall|j: int| i < j < s.len() ==> s[j] != '.',
        s[i] == '.',
    ensures
        spec_last_dot(s) == i,
    decreases s.len(),
{
    if i < s.len() - 1 {
        lemma_last_dot_found(s.drop_last(), i);
    }
}

/// When no character is a dot, there is no last dot.
proof fn lemma_last_dot_missing(s: Seq<char>)
    requires
        forall|j: int| 0 <= j < s.len() ==> s[j] != '.',
    ensures
        spec_last_dot(s) == -1,
    decreases s.len(),
{
    if s.len() > 0 {
        lemma_last_dot_missing(s.drop_last());
    }
}

/// The position of the first dot in a string, if any.
fn first_dot(s: &str) -> (r: Option<usize>)
    ensures
        match r {
            Some(i) => spec_first_dot(s@) == i && i < s@.len(),
            None => spec_first_dot(s@) == -1,
        },
{
    let n = s.unicode_len();
    let mut i: usize = 0;
    while i < n
        invariant
            n == s@.len(),
            i <= n,
            forall|j: int| 0 <= j < i ==> s@[j] != '.',
        decreases n - i,
    {
        if s.get_char(i) == '.' {
            proof {
                lemma_first_dot_found(s@, i as int);
            }
            return Some(i);
        }
        i += 1;
    }
    proof {
        lemma_first_dot_missing(s@);
    }
    None
}

/// The position of the last dot in a string, if any.
fn last_dot(s: &str) -> (r: Option<usize>)
    ensures
        match r {
            Some(i) => spec_last_dot(s@) == i && i < s@.len(),
            None => spec_last_dot(s@) == -1,
        },
{
    let n = s.unicode_len();
    let mut i: usize = n;
    while i > 0
        invariant
            n == s@.len(),
            i <= n,
            forall|j: int| i <= j < n ==> s@[j] != '.',
        decreases i,
    {
        i -= 1;
        if s.get_char(i) == '.' {
            proof {
                lemma_last_dot_found(s@, i as int);
            }
            return Some(i);
        }
    }
    proof {
        lemma_last_dot_missing(s@);
    }
    None
}

/// The suffixes of a path, longest first.
pub fn suffixes(p: &str) -> (r: Vec<String>)
    ensures
        spec_str_views(r@) == spec_suffixes(p@),
    decreases p@.len(),
{
    match first_dot(p) {
        None => {
            let r: Vec<String> = Vec::new();
            proof {
                assert(spec_str_views(r@) =~= spec_suffixes(p@));
            }
            r
        },
        Some(i) => {
            let n = p.unicode_len();
            let t = p.substring_char(i + 1, n);
            if t.unicode_len() == 0 {
                let r: Vec<String> = Vec::new();
                proof {
                    assert(spec_str_views(r@) =~= spec_suffixes(p@));
                }
                r
            } else {
                let mut rest = suffixes(t);
                rest.insert(0, t.to_owned());
                proof {
                    assert(spec_str_views(rest@) =~= seq![t@] + spec_suffixes(t@));
                    assert(spec_str_views(rest@) =~= spec_suffixes(p@));
                }
                rest
            }
        },
    }
}

/// The proper prefixes of a path, longest first.
pub fn prefixes(p: &str) -> (r: Vec<String>)
    ensures
        spec_str_views(r@) == spec_prefixes(p@),
    decreases p@.len(),
{
    match last_dot(p) {
        None => {
            let r: Vec<String> = Vec::new();
            proof {
                assert(spec_str_views(r@) =~= spec_prefixes(p@));
            }
            r
        },
        Some(i) => {
            let t = p.substring_char(0, i);
            if t.unicode_len() == 0 {
                let r: Vec<String> = Vec::new();
                proof {
                    assert(spec_str_views(r@) =~= spec_prefixes(p@));
                }
                r
            } else {
                let mut rest = prefixes(t);
                rest.insert(0, t.to_owned());
                proof {
                    assert(spec_str_views(rest@) =~= seq![t@] + spec_prefixes(t@));
                    assert(spec_str_views(rest@) =~= spec_prefixes(p@));
                }
                rest
            }
        },
    }
}

/// All the paths a matcher may equal to match the given path, in the order
/// the matching rules fire: the path, its suffixes, its proper prefixes,
/// and the global path `.`. The root path yields only itself.
pub fn sub_path_iter(p: &str) -> (r: Vec<String>)
    ensures
        spec_str_views(r@) == spec_sub_paths(p@),
{
    let mut out: Vec<String> = Vec::new();
    out.push(p.to_owned());
    let mut sufs = suffixes(p);
    let mut prefs = prefixes(p);
    let ghost sufs0 = sufs@;
    let ghost prefs0 = prefs@;
    out.append(&mut sufs);
    out.append(&mut prefs);
    proof {
        reveal_strlit(".");
        assert("."@ =~= seq!['.']);
    }
    if !crate::text::str_eq(p, ".") {
        out.push(String::from_str("."));
        proof {
            assert(spec_str_views(out@) =~= seq![p@] + spec_str_views(sufs0) + spec_str_views(
                prefs0,
            ) + seq![seq!['.']]);
            assert(spec_str_views(out@) =~= spec_sub_paths(p@));
        }
    } else {
        proof {
            assert(spec_str_views(out@) =~= seq![p@] + spec_str_views(sufs0) + spec_str_views(
                prefs0,
            ));
            assert(spec_str_views(out@) =~= spec_sub_paths(p@));
        }
    }
    out
}

/// Whether the matcher equals one of the given paths.
fn is_in_paths(paths: &Vec<String>, matcher: &str) -> (r: bool)
    ensures
        r == spec_str_views(paths@).contains(matcher@),
{
    let n = paths.len();
    let mut i: usize = 0;
    while i < n
        invariant
            n == paths.len(),
            i <= n,
            forall|j: int| 0 <= j < i ==> spec_str_views(paths@)[j] != matcher@,
        decreases n - i,
    {
        let p = &paths[i];
        if crate::text::str_eq(p.as_str(), matcher) {
            proof {
                assert(spec_str_views(paths@)[i as int] == matcher@);
            }
            return true;
        }
        i += 1;
    }
    proof {
        assert(!spec_str_views(paths@).contains(matcher@));
    }
    false
}

/// The positions of the matchers that match the path, in insertion order.
pub open spec fn spec_matched_indices<T>(m: Seq<(String, T)>, fq: Seq<char>) -> Seq<int>
    decreases m.len(),
{
    if m.len() == 0 {
        Seq::empty()
    } else {
        let init = spec_matched_indices(m.drop_last(), fq);
        if spec_matcher_matches(m.last().0@, fq) {
            init.push(m.len() - 1)
        } else {
            init
        }
    }
}

/// The matched positions are exactly the positions of matching matchers, in
/// increasing order.
pub proof fn lemma_matched_indices<T>(m: Seq<(String, T)>, fq: Seq<char>)
    ensures
        forall|k: int|
            0 <= k < spec_matched_indices(m, fq).len() ==> 0 <= #[trigger] spec_matched_indices(
                m,
                fq,
            )[k] < m.len(),
        forall|k1: int, k2: int|
            0 <= k1 < k2 < spec_matched_indices(m, fq).len() ==> spec_matched_indices(m, fq)[k1]
                < spec_matched_indices(m, fq)[k2],
        forall|j: int|
            0 <= j < m.len() ==> (spec_matched_indices(m, fq).contains(j) <==> spec_matcher_matches(
                (#[trigger] m[j]).0@,
                fq,
            )),
    decreases m.len(),
{
    if m.len() > 0 {
        lemma_matched_indices(m.drop_last(), fq);
        let init = spec_matched_indices(m.drop_last(), fq);
        let whole = spec_matched_indices(m, fq);
        assert forall|j: int|
            0 <= j < m.len() implies (whole.contains(j) <==> spec_matcher_matches(
            (#[trigger] m[j]).0@,
            fq,
        )) by {
            if j < m.len() - 1 {
                assert(m.drop_last()[j] == m[j]);
                if init.contains(j) {
                    let k = choose|k: int| 0 <= k < init.len() && init[k] == j;
                    assert(whole[k] == j);
                }
                if whole.contains(j) {
                    let k = choose|k: int| 0 <= k < whole.len() && whole[k] == j;
                    if k < init.len() {
                        assert(init[k] == j);
                    }
                }
            } else {
                if spec_matcher_matches(m[j].0@, fq) {
                    assert(whole[whole.len() - 1] == j);
                }
                if whole.contains(j) {
                }
            }
        }
    }
}

/// An ordered map from protobuf path matchers to values. Inserting appends;
/// lookups yield the values of matching matchers in insertion order.
pub struct ProtoPathMap<T> {
    /// The matchers and their values, in insertion order.
    pub matchers: Vec<(String, T)>,
}

impl<T> Default for ProtoPathMap<T> {
    /// An empty map.
    fn default() -> (r: Self)
        ensures
            r.matchers@.len() == 0,
    {
        ProtoPathMap { matchers: Vec::new() }
    }
}

impl<T> ProtoPathMap<T> {
    /// Appends a matcher and its associated value.
    pub fn insert(&mut self, matcher: String, value: T)
        ensures
            final(self).matchers@ == old(self).matchers@.push((matcher, value)),
    {
        self.matchers.push((matcher, value));
    }

    /// The values of the matchers matching the given fully-qualified path,
    /// in insertion order.
    pub fn fq_path_matches(&self, fq_path: &str) -> (r: Vec<&T>)
        ensures
            ({
                let idx = spec_matched_indices(self.matchers@, fq_path@);
                &&& r@.len() == idx.len()
                &&& forall|k: int|
                    0 <= k < idx.len() ==> 0 <= #[trigger] idx[k] < self.matchers@.len()
                        && *r@[k] == self.matchers@[idx[k]].1
            }),
    {
        let subs = sub_path_iter(fq_path);
        let mut out: Vec<&T> = Vec::new();
        let n = self.matchers.len();
        let mut i: usize = 0;
        while i < n
            invariant
                n == self.matchers.len(),
                i <= n,
                ({
                    let idx = spec_matched_indices(self.matchers@.subrange(0, i as int), fq_path@);
                    &&& out@.len() == idx.len()
                    &&& forall|k: int|
                        0 <= k < idx.len() ==> 0 <= #[trigger] idx[k] < i && *out@[k]
                            == self.matchers@[idx[k]].1
                }),
                spec_str_views(subs@) == spec_sub_paths(fq_path@),
            decreases n - i,
        {
            let pair = &self.matchers[i];
            let ghost pre = self.matchers@.subrange(0, i as int);
            proof {
                assert(self.matchers@.subrange(0, i + 1).drop_last() =~= pre);
                assert(self.matchers@.subrange(0, i + 1).last() == self.matchers@[i as int]);
            }
            if is_in_paths(&subs, pair.0.as_str()) {
                out.push(&pair.1);
            }
            i += 1;
        }
        proof {
            assert(self.matchers@.subrange(0, n as int) =~= self.matchers@);
        }
        out
    }
}

} // verus!
