//! Git branches as the branch-diff picker lists them: their short names,
//! which ones are remote, and the order they are offered in.

use vstd::prelude::*;
use vstd::string::*;

verus! {

/// Whether `s` begins with `prefix`.
pub open spec fn has_prefix(s: Seq<char>, prefix: Seq<char>) -> bool {
    prefix.len() <= s.len() && s.take(prefix.len() as int) == prefix
}

/// The prefix of local branch refs.
pub open spec fn heads_prefix() -> Seq<char> {
    seq!['r', 'e', 'f', 's', '/', 'h', 'e', 'a', 'd', 's', '/']
}

/// The prefix of remote-tracking branch refs.
pub open spec fn remotes_prefix() -> Seq<char> {
    seq!['r', 'e', 'f', 's', '/', 'r', 'e', 'm', 'o', 't', 'e', 's', '/']
}

/// The short name of a ref: without `refs/heads/` or, failing that,
/// without `refs/remotes/`; any other ref as it is.
pub open spec fn short_branch_name(r: Seq<char>) -> Seq<char> {
    if has_prefix(r, heads_prefix()) {
        r.skip(heads_prefix().len() as int)
    } else if has_prefix(r, remotes_prefix()) {
        r.skip(remotes_prefix().len() as int)
    } else {
        r
    }
}

/// The short name of a ref is what follows one of the two prefixes, or the
/// ref itself: always a suffix of the ref, and the ref again when it has
/// neither prefix.
pub proof fn short_name_is_suffix(r: Seq<char>)
    ensures
        short_branch_name(r).len() <= r.len(),
        short_branch_name(r) == r.skip(r.len() - short_branch_name(r).len()),
        !has_prefix(r, heads_prefix()) && !has_prefix(r, remotes_prefix()) ==> short_branch_name(r) == r,
        has_prefix(r, heads_prefix()) ==> r == heads_prefix() + short_branch_name(r),
        !has_prefix(r, heads_prefix()) && has_prefix(r, remotes_prefix()) ==> r == remotes_prefix()
            + short_branch_name(r),
{
    if has_prefix(r, heads_prefix()) {
        assert(r =~= r.take(heads_prefix().len() as int) + r.skip(heads_prefix().len() as int));
    } else if has_prefix(r, remotes_prefix()) {
        assert(r =~= r.take(remotes_prefix().len() as int) + r.skip(remotes_prefix().len() as int));
    } else if !has_prefix(r, remotes_prefix()) {
        assert(r.skip(0) =~= r);
    }
}

/// `refs/heads/` and `refs/remotes/` are dropped from the front of a ref,
/// whatever follows them.
pub proof fn known_prefixes_are_dropped(rest: Seq<char>)
    ensures
        short_branch_name(seq!['r', 'e', 'f', 's', '/', 'h', 'e', 'a', 'd', 's', '/'] + rest) == rest,
        short_branch_name(seq!['r', 'e', 'f', 's', '/', 'r', 'e', 'm', 'o', 't', 'e', 's', '/'] + rest) == rest,
{
    let h = seq!['r', 'e', 'f', 's', '/', 'h', 'e', 'a', 'd', 's', '/'];
    let r = seq!['r', 'e', 'f', 's', '/', 'r', 'e', 'm', 'o', 't', 'e', 's', '/'];
    assert(h =~= heads_prefix());
    assert(r =~= remotes_prefix());
    assert((h + rest).take(11) =~= h);
    assert((h + rest).skip(11) =~= rest);
    assert((r + rest).take(13) =~= r);
    assert((r + rest).skip(13) =~= rest);
    assert((r + rest).take(11)[5] != h[5]);
}

/// Whether `s` begins with `prefix`.
pub fn starts_with(s: &str, prefix: &str) -> (b: bool)
    ensures
        b == has_prefix(s@, prefix@),
{
    let n = prefix.unicode_len();
    let m = s.unicode_len();
    if n > m {
        return false;
    }
    let mut i: usize = 0;
    while i < n
        invariant
            n == prefix@.len(),
            m == s@.len(),
            n <= m,
            i <= n,
            forall|j: int| 0 <= j < i ==> s@[j] == prefix@[j],
        decreases n - i,
    {
        if s.get_char(i) != prefix.get_char(i) {
            assert(s@.take(n as int)[i as int] != prefix@[i as int]);
            return false;
        }
        i = i + 1;
    }
    assert(s@.take(n as int) =~= prefix@);
    true
}

fn heads_prefix_str() -> (p: &'static str)
    ensures
        p@ == heads_prefix(),
{
    proof { reveal_strlit("refs/heads/"); }
    let p = "refs/heads/";
    assert(p@ =~= heads_prefix());
    p
}

fn remotes_prefix_str() -> (p: &'static str)
    ensures
        p@ == remotes_prefix(),
{
    proof { reveal_strlit("refs/remotes/"); }
    let p = "refs/remotes/";
    assert(p@ =~= remotes_prefix());
    p
}

/// The short name of a ref; see `short_branch_name`.
pub fn format_branch_name(base_ref: &str) -> (name: &str)
    ensures
        name@ == short_branch_name(base_ref@),
{
    let heads = heads_prefix_str();
    let remotes = remotes_prefix_str();
    if starts_with(base_ref, heads) {
        base_ref.substring_char(heads.unicode_len(), base_ref.unicode_len())
    } else if starts_with(base_ref, remotes) {
        base_ref.substring_char(remotes.unicode_len(), base_ref.unicode_len())
    } else {
        base_ref
    }
}


/// A git branch as the picker sees it.
#[derive(Debug)]
pub struct Branch {
    /// The full ref, such as `refs/heads/main`.
    pub ref_name: String,
    /// Whether this is the checked-out branch.
    pub is_head: bool,
    /// The commit time of the branch's most recent commit, when known.
    pub most_recent_commit_timestamp: Option<i64>,
}

impl Branch {
    /// The short name of the branch; see `short_branch_name`.
    pub fn name(&self) -> (name: &str)
        ensures
            name@ == short_branch_name(self.ref_name@),
    {
        format_branch_name(self.ref_name.as_str())
    }

    /// Whether the branch is a remote-tracking one.
    pub fn is_remote(&self) -> (b: bool)
        ensures
            b == has_prefix(self.ref_name@, remotes_prefix()),
    {
        starts_with(self.ref_name.as_str(), remotes_prefix_str())
    }

    /// A copy of this branch.
    pub fn duplicate(&self) -> (b: Branch)
        ensures
            b == *self,
    {
        Branch {
            ref_name: self.ref_name.clone(),
            is_head: self.is_head,
            most_recent_commit_timestamp: self.most_recent_commit_timestamp,
        }
    }
}

/// The key branches are listed by: branches without a known commit first,
/// then by the negated commit time, so newer commits come first.
pub open spec fn recency_key(b: Branch) -> Option<int> {
    match b.most_recent_commit_timestamp {
        Some(t) => Some(-t),
        None => None,
    }
}

/// The order of keys: no key before any key, keys by value.
pub open spec fn key_le(a: Option<int>, b: Option<int>) -> bool {
    match (a, b) {
        (None, _) => true,
        (Some(_), None) => false,
        (Some(x), Some(y)) => x <= y,
    }
}

/// The branches with recency key `k`.
pub open spec fn with_key(k: Option<int>) -> spec_fn(Branch) -> bool {
    |b: Branch| recency_key(b) == k
}

/// The branches that are not checked out.
pub open spec fn not_head() -> spec_fn(Branch) -> bool {
    |b: Branch| !b.is_head
}

/// Whether the branches are in recency order.
pub open spec fn sorted_by_recency(s: Seq<Branch>) -> bool {
    forall|i: int, j: int| 0 <= i < j < s.len() ==> key_le(recency_key(#[trigger] s[i]), recency_key(#[trigger] s[j]))
}

/// Whether no branch has a commit time whose negation overflows.
pub open spec fn timestamps_negatable(s: Seq<Branch>) -> bool {
    forall|i: int| 0 <= i < s.len() ==> (#[trigger] s[i]).most_recent_commit_timestamp != Some(i64::MIN)
}

/// Whether branch `a` is listed after branch `b`: its key is strictly greater.
fn listed_after(a: &Branch, b: &Branch) -> (r: bool)
    ensures
        r == !key_le(recency_key(*a), recency_key(*b)),
{
    match (a.most_recent_commit_timestamp, b.most_recent_commit_timestamp) {
        (None, _) => false,
        (Some(_), None) => true,
        (Some(x), Some(y)) => x < y,
    }
}

proof fn lemma_insert_keeps_classes(out: Seq<Branch>, p: int, x: Branch)
    requires
        0 <= p <= out.len(),
        forall|j: int| p <= j < out.len() ==> !key_le(recency_key(#[trigger] out[j]), recency_key(x)),
    ensures
        forall|k: Option<int>| #[trigger] out.insert(p, x).filter(with_key(k)) == if recency_key(x) == k {
            out.filter(with_key(k)).push(x)
        } else {
            out.filter(with_key(k))
        },
{
    broadcast use vstd::seq_lib::group_filter_ensures;
    assert forall|k: Option<int>| #[trigger] out.insert(p, x).filter(with_key(k)) == if recency_key(x) == k {
        out.filter(with_key(k)).push(x)
    } else {
        out.filter(with_key(k))
    } by {
        let pre = out.take(p);
        let post = out.skip(p);
        assert(out =~= pre + post);
        assert(out.insert(p, x) =~= pre + seq![x] + post);
        Seq::filter_distributes_over_add(pre, post, with_key(k));
        Seq::filter_distributes_over_add(pre + seq![x], post, with_key(k));
        Seq::filter_distributes_over_add(pre, seq![x], with_key(k));
        reveal_with_fuel(Seq::<_>::filter, 2);
        if recency_key(x) == k {
            assert forall|j: int| 0 <= j < post.len() implies !with_key(k)(#[trigger] post[j]) by {
                assert(post[j] == out[p + j]);
            }
            post.lemma_all_neg_filter_empty(with_key(k));
            assert(post.filter(with_key(k)) =~= Seq::<Branch>::empty());
        }
    }
}

proof fn lemma_insert_multiset(out: Seq<Branch>, p: int, x: Branch)
    requires
        0 <= p <= out.len(),
    ensures
        out.insert(p, x).to_multiset() == out.to_multiset().insert(x),
{
    broadcast use vstd::seq_lib::group_to_multiset_ensures;
    let q = out.insert(p, x);
    assert(q.remove(p) =~= out);
    assert(q[p] == x);
    assert(q.to_multiset().count(x) > 0) by {
        assert(q.contains(x));
    }
    assert(q.to_multiset() =~= out.to_multiset().insert(x));
}

/// The branches the picker lists: all but the checked-out one, in recency
/// order (branches without a known commit first, then newest first), with
/// branches of equal key in the order they were given.
pub fn sort_branches_for_picker(branches: Vec<Branch>) -> (listed: Vec<Branch>)
    requires
        timestamps_negatable(branches@),
    ensures
        listed@.to_multiset() == branches@.filter(not_head()).to_multiset(),
        sorted_by_recency(listed@),
        forall|k: Option<int>| #[trigger] listed@.filter(with_key(k)) == branches@.filter(not_head()).filter(
            with_key(k),
        ),
{
    broadcast use vstd::seq_lib::group_to_multiset_ensures;
    let mut out: Vec<Branch> = Vec::new();
    let n = branches.len();
    proof {
        assert(branches@.take(0).filter(not_head()) =~= Seq::<Branch>::empty());
        assert(out@ =~= Seq::<Branch>::empty());
    }
    let mut i: usize = 0;
    while i < n
        invariant
            n == branches@.len(),
            i <= n,
            sorted_by_recency(out@),
            out@.to_multiset() == branches@.take(i as int).filter(not_head()).to_multiset(),
            forall|k: Option<int>| #[trigger] out@.filter(with_key(k)) == branches@.take(i as int).filter(
                not_head(),
            ).filter(with_key(k)),
        decreases n - i,
    {
        let ghost prev = out@;
        let x = &branches[i];
        proof {
            assert(branches@.take(i + 1) =~= branches@.take(i as int).push(branches@[i as int]));
            branches@.take(i as int).lemma_filter_push(branches@[i as int], not_head());
        }
        if !x.is_head {
            let mut p = out.len();
            while p > 0 && listed_after(&out[p - 1], x)
                invariant
                    p <= out@.len(),
                    out@ == prev,
                    forall|j: int| p <= j < out@.len() ==> !key_le(recency_key(#[trigger] out@[j]), recency_key(*x)),
                decreases p,
            {
                p = p - 1;
            }
            proof {
                lemma_insert_multiset(prev, p as int, *x);
                lemma_insert_keeps_classes(prev, p as int, *x);
                branches@.take(i as int).filter(not_head()).lemma_filter_push(*x, with_key(recency_key(*x)));
                assert forall|k: Option<int>| k != recency_key(*x) implies #[trigger] branches@.take(i as int).filter(
                    not_head(),
                ).push(*x).filter(with_key(k)) == branches@.take(i as int).filter(not_head()).filter(with_key(k)) by {
                    branches@.take(i as int).filter(not_head()).lemma_filter_push(*x, with_key(k));
                }
                assert forall|a: int, b: int| 0 <= a < b < prev.insert(p as int, *x).len() implies key_le(
                    recency_key(#[trigger] prev.insert(p as int, *x)[a]),
                    recency_key(#[trigger] prev.insert(p as int, *x)[b]),
                ) by {
                    let q = prev.insert(p as int, *x);
                    if p > 0 {
                        assert(key_le(recency_key(prev[p - 1]), recency_key(*x)));
                    }
                    if a < p && b > p {
                        assert(q[a] == prev[a]);
                        assert(q[b] == prev[b - 1]);
                    }
                }
            }
            out.insert(p, x.duplicate());
            proof {
                let before = branches@.take(i as int).filter(not_head());
                assert(branches@.take(i + 1).filter(not_head()) == before.push(*x));
                before.to_multiset_ensures();
                assert(before.push(*x).to_multiset() =~= before.to_multiset().insert(*x));
                assert(out@ == prev.insert(p as int, *x));
            }
        }
        i = i + 1;
    }
    proof {
        assert(branches@.take(n as int) =~= branches@);
    }
    out
}

} // verus!
