//! The path resolver: default output names, parent directories, extension
//! splitting, and conflict resolution by an incrementing `-1`, `-2`, ...
//! suffix.
//!
//! Paths are modelled as `/`-separated strings, without any filesystem
//! normalisation: the file name of a path is its last non-empty component
//! after trailing separators are dropped (`.` and `..` have no file name),
//! and the parent is everything up to and including the separator before
//! that component.  The resolver itself never touches the filesystem: the
//! caller passes a snapshot of the paths that are already occupied at the
//! output location, and the resolver returns the first candidate outside
//! that snapshot.

use vstd::prelude::*;
use vstd::seq_lib::seq_to_set_is_finite;
use vstd::set_lib::lemma_len_subset;

use crate::text::{lemma_dec_injective, lemma_dec_len, spec_dec, str_equal, u64_to_dec};

verus! {

/// `s` without its trailing `/` separators.
pub open spec fn spec_trim_slashes(s: Seq<char>) -> Seq<char>
    decreases s.len(),
{
    if s.len() > 0 && s.last() == '/' {
        spec_trim_slashes(s.drop_last())
    } else {
        s
    }
}

/// The longest suffix of `s` that contains no `/`.
pub open spec fn spec_tail_component(s: Seq<char>) -> Seq<char>
    decreases s.len(),
{
    if s.len() == 0 || s.last() == '/' {
        Seq::empty()
    } else {
        spec_tail_component(s.drop_last()).push(s.last())
    }
}

/// The file name of a path: its last non-empty component, or nothing when
/// the path ends in separators only or that component is `.` or `..`.
pub open spec fn spec_file_name(s: Seq<char>) -> Option<Seq<char>> {
    let c = spec_tail_component(spec_trim_slashes(s));
    if c.len() == 0 || c == "."@ || c == ".."@ {
        None
    } else {
        Some(c)
    }
}

/// The prefix of a path up to and including the separator before its last
/// component; empty for a bare name, so that joining to it stays relative.
pub open spec fn spec_parent_prefix(s: Seq<char>) -> Seq<char> {
    let t = spec_trim_slashes(s);
    t.take(t.len() - spec_tail_component(t).len())
}

/// What joining prepends to a name: nothing for an empty directory, the
/// directory itself when it already ends in a separator, and the directory
/// plus a separator otherwise.
pub open spec fn spec_dir_prefix(dir: Seq<char>) -> Seq<char> {
    if dir.len() == 0 {
        dir
    } else if dir.last() == '/' {
        dir
    } else {
        dir + seq!['/']
    }
}

/// A directory joined with a name.
pub open spec fn spec_join(dir: Seq<char>, name: Seq<char>) -> Seq<char> {
    spec_dir_prefix(dir) + name
}

/// The position of the last `.` of `s`, if any.
pub open spec fn spec_last_dot(s: Seq<char>) -> Option<int>
    decreases s.len(),
{
    if s.len() == 0 {
        None
    } else if s.last() == '.' {
        Some(s.len() - 1)
    } else {
        spec_last_dot(s.drop_last())
    }
}

/// The stem of a file name: everything before the last `.`, unless that dot
/// leads the name or there is none, in which case the whole name.
pub open spec fn spec_stem(name: Seq<char>) -> Seq<char> {
    match spec_last_dot(name) {
        Some(i) => if i > 0 {
            name.take(i)
        } else {
            name
        },
        None => name,
    }
}

/// The extension of a file name, including its leading `.`; empty when the
/// name has none.
pub open spec fn spec_ext(name: Seq<char>) -> Seq<char> {
    match spec_last_dot(name) {
        Some(i) => if i > 0 {
            name.skip(i)
        } else {
            Seq::empty()
        },
        None => Seq::empty(),
    }
}

/// The `k`-th candidate name: the plain name for `k == 0`, and the name
/// with `-k` spliced in before the extension for `k > 0`.
pub open spec fn spec_suffixed(stem: Seq<char>, ext: Seq<char>, k: nat) -> Seq<char> {
    if k == 0 {
        stem + ext
    } else {
        stem + seq!['-'] + spec_dec(k) + ext
    }
}

/// The `k`-th candidate output path.
pub open spec fn spec_candidate(dir: Seq<char>, stem: Seq<char>, ext: Seq<char>, k: nat) -> Seq<
    char,
> {
    spec_join(dir, spec_suffixed(stem, ext, k))
}

/// Whether the snapshot of occupied paths contains `p`.
pub open spec fn spec_occupied(existing: Seq<String>, p: Seq<char>) -> bool {
    exists|i: int| 0 <= i < existing.len() && existing[i]@ == p
}

/// The base output name: the explicit name when one was given, else the
/// source's own file name.
pub open spec fn spec_base_name(source: Seq<char>, explicit: Option<Seq<char>>) -> Option<
    Seq<char>,
> {
    match explicit {
        Some(n) => Some(n),
        None => spec_file_name(source),
    }
}

/// The output directory: the explicit one when given, else the source's
/// parent prefix.
pub open spec fn spec_out_dir(source: Seq<char>, explicit: Option<Seq<char>>) -> Seq<char> {
    match explicit {
        Some(d) => d,
        None => spec_parent_prefix(source),
    }
}

/// The base output name for unpacking: the explicit name when one was
/// given, else the archive's stem (its file name with the trailing
/// extension dropped).
pub open spec fn spec_stem_name(source: Seq<char>, explicit: Option<Seq<char>>) -> Option<
    Seq<char>,
> {
    match explicit {
        Some(n) => Some(n),
        None => match spec_file_name(source) {
            Some(n) => Some(spec_stem(n)),
            None => None,
        },
    }
}

/// Scan a path once: the returned pair `(start, end)` brackets the last
/// non-empty component, with everything from `end` on being trailing
/// separators.
fn component_bounds(s: &str) -> (r: (usize, usize))
    ensures
        r.1 <= s@.len(),
        r.0 <= r.1,
        spec_trim_slashes(s@) == s@.take(r.1 as int),
        spec_tail_component(spec_trim_slashes(s@)) == s@.subrange(r.0 as int, r.1 as int),
{
    let n = s.unicode_len();
    proof {
        assert(s@.take(n as int) =~= s@);
    }
    let mut t_end: usize = n;
    while t_end > 0 && s.get_char(t_end - 1) == '/'
        invariant
            t_end <= n,
            n == s@.len(),
            spec_trim_slashes(s@) == spec_trim_slashes(s@.take(t_end as int)),
        decreases t_end,
    {
        proof {
            let t = s@.take(t_end as int);
            assert(t.last() == s@[t_end - 1]);
            assert(t.drop_last() =~= s@.take(t_end - 1));
        }
        t_end = t_end - 1;
    }
    proof {
        let t = s@.take(t_end as int);
        if t_end > 0 {
            assert(t.last() == s@[t_end - 1]);
        }
        assert(spec_trim_slashes(t) == t);
        assert(s@.take(n as int) =~= s@);
    }
    let mut start: usize = t_end;
    while start > 0 && s.get_char(start - 1) != '/'
        invariant
            start <= t_end,
            t_end <= n,
            n == s@.len(),
            spec_tail_component(s@.take(t_end as int)) == spec_tail_component(
                s@.take(start as int),
            ) + s@.subrange(start as int, t_end as int),
        decreases start,
    {
        proof {
            let t = s@.take(start as int);
            assert(t.last() == s@[start - 1]);
            assert(t.drop_last() =~= s@.take(start - 1));
            assert(spec_tail_component(t) == spec_tail_component(t.drop_last()).push(t.last()));
            assert(spec_tail_component(s@.take(start - 1)).push(s@[start - 1]) + s@.subrange(
                start as int,
                t_end as int,
            ) =~= spec_tail_component(s@.take(start - 1)) + s@.subrange(
                start as int - 1,
                t_end as int,
            ));
        }
        start = start - 1;
    }
    proof {
        let t = s@.take(start as int);
        if start > 0 {
            assert(t.last() == s@[start - 1]);
        }
        assert(spec_tail_component(t) =~= Seq::<char>::empty());
        assert(spec_tail_component(s@.take(t_end as int)) =~= s@.subrange(
            start as int,
            t_end as int,
        ));
    }
    (start, t_end)
}

/// The file name of a path, or nothing when it has none.
pub fn file_name_of(path: &str) -> (r: Option<String>)
    ensures
        match r {
            Some(name) => spec_file_name(path@) == Some(name@),
            None => spec_file_name(path@) is None,
        },
{
    let (start, t_end) = component_bounds(path);
    let c = path.substring_char(start, t_end);
    if c.unicode_len() == 0 || str_equal(c, ".") || str_equal(c, "..") {
        None
    } else {
        Some(String::from_str(c))
    }
}

/// The parent prefix of a path: everything up to and including the
/// separator before its last component; empty for a bare name.
pub fn parent_of(path: &str) -> (r: String)
    ensures
        r@ == spec_parent_prefix(path@),
{
    let (start, _) = component_bounds(path);
    let p = path.substring_char(0, start);
    proof {
        let t = spec_trim_slashes(path@);
        assert(t.take(t.len() - spec_tail_component(t).len()) =~= path@.subrange(0, start as int));
    }
    String::from_str(p)
}

/// Split a file name into its stem and its extension.
pub fn split_extension(name: &str) -> (r: (String, String))
    ensures
        r.0@ == spec_stem(name@),
        r.1@ == spec_ext(name@),
{
    let n = name.unicode_len();
    proof {
        assert(name@.take(n as int) =~= name@);
    }
    let mut j: usize = n;
    while j > 0 && name.get_char(j - 1) != '.'
        invariant
            j <= n,
            n == name@.len(),
            spec_last_dot(name@) == spec_last_dot(name@.take(j as int)),
        decreases j,
    {
        proof {
            let t = name@.take(j as int);
            assert(t.last() == name@[j - 1]);
            assert(t.drop_last() =~= name@.take(j - 1));
        }
        j = j - 1;
    }
    proof {
        let t = name@.take(j as int);
        if j > 0 {
            assert(t.last() == name@[j - 1]);
            assert(spec_last_dot(name@) == Some(j - 1));
        } else {
            assert(spec_last_dot(name@) is None);
        }
    }
    if j > 1 {
        let stem = name.substring_char(0, j - 1);
        let ext = name.substring_char(j - 1, n);
        proof {
            assert(name@.take(j - 1) =~= name@.subrange(0, j - 1));
            assert(name@.skip(j - 1) =~= name@.subrange(j - 1, n as int));
        }
        (String::from_str(stem), String::from_str(ext))
    } else {
        proof {
            assert(name@.take(n as int) =~= name@);
        }
        (String::from_str(name), String::new())
    }
}

/// The base output name as a value: the explicit name, else the source's
/// file name, else nothing.
pub fn base_name(source: &str, explicit: Option<&str>) -> (r: Option<String>)
    ensures
        match r {
            Some(n) => spec_base_name(source@, crate::config::spec_opt_str_view(explicit)) == Some(
                n@,
            ),
            None => spec_base_name(source@, crate::config::spec_opt_str_view(explicit)) is None,
        },
{
    match explicit {
        Some(n) => Some(String::from_str(n)),
        None => file_name_of(source),
    }
}

/// The output directory as a value.
pub fn out_dir(source: &str, explicit: Option<&str>) -> (r: String)
    ensures
        r@ == spec_out_dir(source@, crate::config::spec_opt_str_view(explicit)),
{
    match explicit {
        Some(d) => String::from_str(d),
        None => parent_of(source),
    }
}

/// The unpack output name as a value: the explicit name, else the
/// archive's stem, else nothing.
pub fn stem_name(source: &str, explicit: Option<&str>) -> (r: Option<String>)
    ensures
        match r {
            Some(n) => spec_stem_name(source@, crate::config::spec_opt_str_view(explicit)) == Some(
                n@,
            ),
            None => spec_stem_name(source@, crate::config::spec_opt_str_view(explicit)) is None,
        },
{
    match explicit {
        Some(n) => Some(String::from_str(n)),
        None => match file_name_of(source) {
            Some(n) => {
                let (stem, _) = split_extension(n.as_str());
                Some(stem)
            },
            None => None,
        },
    }
}

/// Join a directory and a name with a `/` separator, leaving the name alone
/// when the directory is empty or already ends in a separator.
pub fn join_path(dir: &str, name: &str) -> (r: String)
    ensures
        r@ == spec_join(dir@, name@),
{
    let n = dir.unicode_len();
    if n == 0 {
        String::from_str(name)
    } else if dir.get_char(n - 1) == '/' {
        proof {
            assert(dir@.last() == dir@[n - 1]);
        }
        String::from_str(dir).concat(name)
    } else {
        proof {
            reveal_strlit("/");
            assert("/"@ =~= seq!['/']);
            assert(dir@.last() == dir@[n - 1]);
        }
        let joined = String::from_str(dir).concat("/").concat(name);
        proof {
            assert(joined@ =~= (dir@ + seq!['/']) + name@);
        }
        joined
    }
}

/// Equal concatenations with an equal left part have equal right parts.
proof fn lemma_concat_cancel_left(p: Seq<char>, a: Seq<char>, b: Seq<char>)
    requires
        p + a == p + b,
    ensures
        a == b,
{
    assert((p + a).len() == (p + b).len());
    assert((p + a).len() == p.len() + a.len());
    assert((p + b).len() == p.len() + b.len());
    assert(a.len() == b.len());
    assert forall|i: int| 0 <= i < a.len() implies a[i] == b[i] by {
        assert(0 <= p.len() + i < (p + a).len());
        assert((p + a)[p.len() + i] == a[i]);
        assert((p + b)[p.len() + i] == b[i]);
        assert((p + a)[p.len() + i] == (p + b)[p.len() + i]);
    }
    assert(a =~= b);
}

/// Different counters give different candidate names.
proof fn lemma_suffixed_injective(stem: Seq<char>, ext: Seq<char>, j: nat, k: nat)
    requires
        spec_suffixed(stem, ext, j) == spec_suffixed(stem, ext, k),
    ensures
        j == k,
{
    lemma_dec_len(j);
    lemma_dec_len(k);
    if j == 0 && k != 0 {
        assert(spec_suffixed(stem, ext, j).len() == stem.len() + ext.len());
        assert(spec_suffixed(stem, ext, k).len() == stem.len() + 1 + spec_dec(k).len()
            + ext.len());
        assert(false);
    } else if j != 0 && k == 0 {
        assert(spec_suffixed(stem, ext, j).len() == stem.len() + 1 + spec_dec(j).len()
            + ext.len());
        assert(spec_suffixed(stem, ext, k).len() == stem.len() + ext.len());
        assert(false);
    } else if j != 0 && k != 0 {
        let p = stem + seq!['-'];
        assert(spec_suffixed(stem, ext, j) =~= p + (spec_dec(j) + ext));
        assert(spec_suffixed(stem, ext, k) =~= p + (spec_dec(k) + ext));
        lemma_concat_cancel_left(p, spec_dec(j) + ext, spec_dec(k) + ext);
        assert(spec_dec(j).len() == spec_dec(k).len());
        assert forall|i: int| 0 <= i < spec_dec(j).len() implies spec_dec(j)[i]
            == spec_dec(k)[i] by {
            assert((spec_dec(j) + ext)[i] == spec_dec(j)[i]);
            assert((spec_dec(k) + ext)[i] == spec_dec(k)[i]);
        }
        assert(spec_dec(j) =~= spec_dec(k));
        lemma_dec_injective(j, k);
    }
}

/// Different counters give different candidate paths.
proof fn lemma_candidate_injective(
    dir: Seq<char>,
    stem: Seq<char>,
    ext: Seq<char>,
    j: nat,
    k: nat,
)
    requires
        spec_candidate(dir, stem, ext, j) == spec_candidate(dir, stem, ext, k),
    ensures
        j == k,
{
    lemma_concat_cancel_left(
        spec_dir_prefix(dir),
        spec_suffixed(stem, ext, j),
        spec_suffixed(stem, ext, k),
    );
    lemma_suffixed_injective(stem, ext, j, k);
}

/// When the first `k` candidates are all occupied, the snapshot holds at
/// least `k` paths: the candidates are pairwise distinct, so they cannot
/// all fit into a smaller snapshot.
proof fn lemma_candidate_bound(
    dir: Seq<char>,
    stem: Seq<char>,
    ext: Seq<char>,
    existing: Seq<String>,
    k: nat,
)
    requires
        forall|j: nat| j < k ==> spec_occupied(existing, spec_candidate(dir, stem, ext, j)),
    ensures
        k <= existing.len(),
{
    broadcast use seq_to_set_is_finite;

    let cands = Seq::new(k, |j: int| spec_candidate(dir, stem, ext, j as nat));
    let eviews = existing.map_values(|s: String| s@);
    assert forall|i: int, j: int| 0 <= i < k && 0 <= j < k && i != j implies cands[i]
        != cands[j] by {
        if cands[i] == cands[j] {
            lemma_candidate_injective(dir, stem, ext, i as nat, j as nat);
        }
    }
    assert(cands.no_duplicates());
    assert forall|i: int| 0 <= i < k implies eviews.contains(cands[i]) by {
        assert(spec_occupied(existing, spec_candidate(dir, stem, ext, i as nat)));
        let w = choose|w: int|
            0 <= w < existing.len() && existing[w]@ == spec_candidate(dir, stem, ext, i as nat);
        assert(eviews[w] == cands[i]);
    }
    assert(cands.to_set().subset_of(eviews.to_set()));
    cands.unique_seq_to_set();
    eviews.lemma_cardinality_of_set();
    lemma_len_subset(cands.to_set(), eviews.to_set());
}

/// A conflict-free output location: the final path, and the counter spliced
/// into its name when the plain name was taken.
pub struct ResolvedTarget {
    pub final_path: String,
    pub conflict_suffix: Option<u64>,
}

impl ResolvedTarget {
    /// The candidate counter this target was resolved at.
    pub open spec fn spec_index(&self) -> nat {
        match self.conflict_suffix {
            None => 0,
            Some(k) => k as nat,
        }
    }
}

/// What it means for `t` to resolve `(dir, stem, ext)` against a snapshot
/// of occupied paths: `t` is the first candidate that is free.
pub open spec fn spec_is_resolved(
    dir: Seq<char>,
    stem: Seq<char>,
    ext: Seq<char>,
    existing: Seq<String>,
    t: ResolvedTarget,
) -> bool {
    &&& t.final_path@ == spec_candidate(dir, stem, ext, t.spec_index())
    &&& !spec_occupied(existing, t.final_path@)
    &&& forall|j: nat| j < t.spec_index() ==> spec_occupied(
        existing,
        spec_candidate(dir, stem, ext, j),
    )
    &&& (t.conflict_suffix is Some ==> t.conflict_suffix.unwrap() > 0)
}

/// Resolution is deterministic: for one request and one snapshot of
/// occupied paths there is exactly one resolved target — any two targets
/// that both resolve the same request agree on the counter, the suffix and
/// the final path.
pub proof fn lemma_resolution_deterministic(
    dir: Seq<char>,
    stem: Seq<char>,
    ext: Seq<char>,
    existing: Seq<String>,
    t1: ResolvedTarget,
    t2: ResolvedTarget,
)
    requires
        spec_is_resolved(dir, stem, ext, existing, t1),
        spec_is_resolved(dir, stem, ext, existing, t2),
    ensures
        t1.spec_index() == t2.spec_index(),
        t1.conflict_suffix == t2.conflict_suffix,
        t1.final_path@ == t2.final_path@,
{
    if t1.spec_index() < t2.spec_index() {
        assert(spec_occupied(existing, spec_candidate(dir, stem, ext, t1.spec_index())));
        assert(false);
    } else if t2.spec_index() < t1.spec_index() {
        assert(spec_occupied(existing, spec_candidate(dir, stem, ext, t2.spec_index())));
        assert(false);
    }
}

/// Whether the snapshot contains `p`.
pub fn path_occupied(existing: &Vec<String>, p: &String) -> (r: bool)
    ensures
        r == spec_occupied(existing@, p@),
{
    let mut i: usize = 0;
    while i < existing.len()
        invariant
            i <= existing@.len(),
            forall|j: int| 0 <= j < i ==> existing@[j]@ != p@,
        decreases existing@.len() - i,
    {
        if str_equal(existing[i].as_str(), p.as_str()) {
            return true;
        }
        i += 1;
    }
    false
}

/// Resolve `(dir, stem, ext)` against the snapshot: try `stem + ext`,
/// then `stem-1 + ext`, `stem-2 + ext`, ... inside `dir`, and return the
/// first candidate that is not occupied.  Some candidate among the first
/// `existing.len() + 1` is always free, so this terminates.
pub fn resolve_free_target(dir: &str, stem: &str, ext: &str, existing: &Vec<String>) -> (r:
    ResolvedTarget)
    ensures
        spec_is_resolved(dir@, stem@, ext@, existing@, r),
{
    let n = existing.len();
    let mut k: u64 = 0;
    loop
        invariant
            n == existing@.len(),
            k <= existing@.len(),
            forall|j: nat| j < k ==> spec_occupied(existing@, spec_candidate(dir@, stem@, ext@, j)),
        decreases existing@.len() - k,
    {
        let name = if k == 0 {
            String::from_str(stem).concat(ext)
        } else {
            let with_dash = String::from_str(stem).concat("-");
            proof {
                reveal_strlit("-");
                assert("-"@ =~= seq!['-']);
            }
            let num = u64_to_dec(k);
            let joined = with_dash.concat(num.as_str()).concat(ext);
            proof {
                assert(joined@ =~= stem@ + seq!['-'] + spec_dec(k as nat) + ext@);
            }
            joined
        };
        let candidate = join_path(dir, name.as_str());
        proof {
            assert(candidate@ == spec_candidate(dir@, stem@, ext@, k as nat));
        }
        if !path_occupied(existing, &candidate) {
            return ResolvedTarget {
                final_path: candidate,
                conflict_suffix: if k == 0 {
                    None
                } else {
                    Some(k)
                },
            };
        }
        proof {
            assert(spec_occupied(existing@, spec_candidate(dir@, stem@, ext@, k as nat)));
            assert forall|j: nat| j < k + 1 implies spec_occupied(
                existing@,
                spec_candidate(dir@, stem@, ext@, j),
            ) by {
                if j < k {
                } else {
                    assert(j == k as nat);
                }
            }
            lemma_candidate_bound(dir@, stem@, ext@, existing@, (k + 1) as nat);
            assert(k + 1 <= existing@.len());
            assert(k + 1 <= n <= usize::MAX <= u64::MAX);
        }
        k = k + 1;
    }
}

} // verus!
