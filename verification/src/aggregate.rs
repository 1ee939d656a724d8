//! The list aggregator: turns the per-repository results of a bulk listing's
//! concurrent detail fetches into the canonical filtered sequence, and
//! normalizes commit histories to the uniform fetch bound.
//!
//! The caller (the unverified async driver) fans out one detail fetch per
//! repository summary and hands the joined results to
//! [`collect_repo_details`] in dispatch order; everything from that point on
//! is verified.

use vstd::prelude::*;
use vstd::string::*;

use crate::error::Error;
use crate::remote::{Commit, ListReposInfo, Repository, COMMIT_COUNT};

verus! {

/// Insert one commit into a date-descending sequence, before the first entry
/// whose date is not newer. Equal dates keep the incoming commit first, which
/// makes the overall sort stable.
pub open spec fn spec_insert_commit(c: Commit, s: Seq<Commit>) -> Seq<Commit>
    decreases s.len(),
{
    if s.len() == 0 {
        seq![c]
    } else if c.date >= s[0].date {
        seq![c] + s
    } else {
        seq![s[0]] + spec_insert_commit(c, s.drop_first())
    }
}

/// Stable sort of a commit sequence, newest first.
pub open spec fn spec_sort_commits(s: Seq<Commit>) -> Seq<Commit>
    decreases s.len(),
{
    if s.len() == 0 {
        Seq::empty()
    } else {
        spec_insert_commit(s[0], spec_sort_commits(s.drop_first()))
    }
}

/// Newest first: dates never increase along the sequence.
pub open spec fn commits_sorted(s: Seq<Commit>) -> bool {
    forall|i: int, j: int| 0 <= i <= j < s.len() ==> s[i].date >= s[j].date
}

/// What every adapter hands out as a commit history: the fetched commits,
/// newest first, capped at [`COMMIT_COUNT`].
pub open spec fn spec_normalize_commits(s: Seq<Commit>) -> Seq<Commit> {
    let sorted = spec_sort_commits(s);
    if sorted.len() <= COMMIT_COUNT as nat {
        sorted
    } else {
        sorted.subrange(0, COMMIT_COUNT as int)
    }
}

proof fn lemma_insert_commit_len(c: Commit, s: Seq<Commit>)
    ensures
        spec_insert_commit(c, s).len() == s.len() + 1,
    decreases s.len(),
{
    if s.len() != 0 && c.date < s[0].date {
        lemma_insert_commit_len(c, s.drop_first());
    }
}

proof fn lemma_insert_commit_sorted(c: Commit, s: Seq<Commit>)
    requires
        commits_sorted(s),
    ensures
        commits_sorted(spec_insert_commit(c, s)),
    decreases s.len(),
{
    lemma_insert_commit_len(c, s);
    if s.len() == 0 {
    } else if c.date >= s[0].date {
        assert forall|i: int, j: int|
            0 <= i <= j < spec_insert_commit(c, s).len() implies spec_insert_commit(c, s)[i].date
            >= spec_insert_commit(c, s)[j].date by {
            if i > 0 {
                assert(spec_insert_commit(c, s)[i] == s[i - 1]);
                assert(spec_insert_commit(c, s)[j] == s[j - 1]);
            }
        }
    } else {
        assert(commits_sorted(s.drop_first()));
        lemma_insert_commit_sorted(c, s.drop_first());
        lemma_insert_commit_len(c, s.drop_first());
        let r = spec_insert_commit(c, s);
        let rest = spec_insert_commit(c, s.drop_first());
        assert forall|i: int, j: int| 0 <= i <= j < r.len() implies r[i].date >= r[j].date by {
            if i == 0 && j > 0 {
                assert(r[j] == rest[j - 1]);
                // the head dominates everything in the tail, including c
                if rest[j - 1].date > s[0].date {
                    // every element of rest is either c or from s.drop_first()
                    lemma_insert_commit_elems(c, s.drop_first(), j - 1);
                }
            } else if i > 0 {
                assert(r[i] == rest[i - 1]);
                assert(r[j] == rest[j - 1]);
            }
        }
    }
}

/// Every element of an insertion result is the inserted commit or one of the
/// original elements.
proof fn lemma_insert_commit_elems(c: Commit, s: Seq<Commit>, k: int)
    requires
        0 <= k < spec_insert_commit(c, s).len(),
    ensures
        spec_insert_commit(c, s)[k] == c || exists|m: int|
            0 <= m < s.len() && s[m] == spec_insert_commit(c, s)[k],
    decreases s.len(),
{
    lemma_insert_commit_len(c, s);
    if s.len() == 0 {
    } else if c.date >= s[0].date {
        if k > 0 {
            assert(s[k - 1] == spec_insert_commit(c, s)[k]);
        }
    } else {
        if k == 0 {
            assert(s[0] == spec_insert_commit(c, s)[0]);
        } else {
            lemma_insert_commit_elems(c, s.drop_first(), k - 1);
            let r = spec_insert_commit(c, s)[k];
            if r != c {
                let m = choose|m: int| 0 <= m < s.drop_first().len() && s.drop_first()[m] == r;
                assert(s[m + 1] == r);
            }
        }
    }
}

proof fn lemma_sort_commits_len(s: Seq<Commit>)
    ensures
        spec_sort_commits(s).len() == s.len(),
    decreases s.len(),
{
    if s.len() != 0 {
        lemma_sort_commits_len(s.drop_first());
        lemma_insert_commit_len(s[0], spec_sort_commits(s.drop_first()));
    }
}

proof fn lemma_sort_commits_sorted(s: Seq<Commit>)
    ensures
        commits_sorted(spec_sort_commits(s)),
    decreases s.len(),
{
    if s.len() != 0 {
        lemma_sort_commits_sorted(s.drop_first());
        lemma_insert_commit_sorted(s[0], spec_sort_commits(s.drop_first()));
    }
}

/// Law: a normalized commit history never exceeds the fetch limit
/// [`COMMIT_COUNT`] and is ordered newest first.
pub proof fn lemma_commit_bound(s: Seq<Commit>)
    ensures
        spec_normalize_commits(s).len() <= COMMIT_COUNT as nat,
        spec_normalize_commits(s).len() == (if s.len() <= COMMIT_COUNT as nat {
            s.len()
        } else {
            COMMIT_COUNT as nat
        }),
        commits_sorted(spec_normalize_commits(s)),
{
    lemma_sort_commits_len(s);
    lemma_sort_commits_sorted(s);
    let sorted = spec_sort_commits(s);
    if sorted.len() > COMMIT_COUNT as nat {
        assert forall|i: int, j: int|
            0 <= i <= j < spec_normalize_commits(s).len() implies spec_normalize_commits(s)[i].date
            >= spec_normalize_commits(s)[j].date by {
            assert(spec_normalize_commits(s)[i] == sorted[i]);
            assert(spec_normalize_commits(s)[j] == sorted[j]);
        }
    }
}

/// Prepending one element adds exactly that element to a sequence's
/// multiset.
proof fn lemma_prepend_multiset(c: Commit, s: Seq<Commit>)
    ensures
        (seq![c] + s).to_multiset() =~= s.to_multiset().insert(c),
{
    broadcast use vstd::seq_lib::group_to_multiset_ensures;

    let t = seq![c] + s;
    assert(t[0] == c);
    assert(t.remove(0) =~= s);
    assert(t.remove(0).to_multiset() =~= t.to_multiset().remove(t[0]));
    assert(t.contains(c));
}

proof fn lemma_insert_commit_multiset(c: Commit, s: Seq<Commit>)
    ensures
        spec_insert_commit(c, s).to_multiset() =~= s.to_multiset().insert(c),
    decreases s.len(),
{
    broadcast use vstd::seq_lib::group_to_multiset_ensures;

    if s.len() == 0 {
        assert(seq![c] =~= Seq::<Commit>::empty().push(c));
        assert(Seq::<Commit>::empty().push(c).to_multiset() =~= Seq::<
            Commit,
        >::empty().to_multiset().insert(c));
    } else if c.date >= s[0].date {
        lemma_prepend_multiset(c, s);
    } else {
        let tail = s.drop_first();
        lemma_insert_commit_multiset(c, tail);
        let rest = spec_insert_commit(c, tail);
        lemma_prepend_multiset(s[0], rest);
        assert(s =~= seq![s[0]] + tail);
        lemma_prepend_multiset(s[0], tail);
        assert(spec_insert_commit(c, s).to_multiset() =~= s.to_multiset().insert(c));
    }
}

proof fn lemma_sort_commits_multiset(s: Seq<Commit>)
    ensures
        spec_sort_commits(s).to_multiset() =~= s.to_multiset(),
    decreases s.len(),
{
    if s.len() == 0 {
        assert(s =~= Seq::<Commit>::empty());
    } else {
        let tail = s.drop_first();
        lemma_sort_commits_multiset(tail);
        lemma_insert_commit_multiset(s[0], spec_sort_commits(tail));
        assert(s =~= seq![s[0]] + tail);
        lemma_prepend_multiset(s[0], tail);
        assert(spec_sort_commits(s).to_multiset() =~= s.to_multiset());
    }
}

/// Law: within the fetch limit, normalization only reorders — the normalized
/// history holds exactly the fetched commits.
pub proof fn lemma_normalize_commits_permutes(s: Seq<Commit>)
    requires
        s.len() <= COMMIT_COUNT as nat,
    ensures
        spec_normalize_commits(s).to_multiset() == s.to_multiset(),
{
    lemma_sort_commits_len(s);
    lemma_sort_commits_multiset(s);
}

/// Insert a commit into a date-descending vector, keeping it sorted.
fn insert_commit(v: &mut Vec<Commit>, c: Commit)
    ensures
        final(v)@ == spec_insert_commit(c, old(v)@),
{
    let n = v.len();
    let mut j: usize = 0;
    while j < n && c.date < v[j].date
        invariant
            j <= n,
            n == v@.len(),
            v@ == old(v)@,
            forall|k: int| 0 <= k < j ==> c.date < v@[k].date,
        decreases n - j,
    {
        j = j + 1;
    }
    v.insert(j, c);
    proof {
        lemma_insert_commit_at(c, old(v)@, j as int);
    }
}

/// Inserting before the first entry that is not newer lands at exactly the
/// position the scan found.
proof fn lemma_insert_commit_at(c: Commit, s: Seq<Commit>, j: int)
    requires
        0 <= j <= s.len(),
        forall|k: int| 0 <= k < j ==> c.date < s[k].date,
        j < s.len() ==> c.date >= s[j].date,
    ensures
        spec_insert_commit(c, s) == s.subrange(0, j).push(c) + s.subrange(j, s.len() as int),
    decreases j,
{
    if j == 0 {
        if s.len() == 0 {
            assert(spec_insert_commit(c, s) =~= s.subrange(0, 0).push(c) + s.subrange(
                0,
                s.len() as int,
            ));
        } else {
            assert(spec_insert_commit(c, s) =~= s.subrange(0, 0).push(c) + s.subrange(
                0,
                s.len() as int,
            ));
        }
    } else {
        assert(c.date < s[0].date);
        let rest = s.drop_first();
        assert(forall|k: int| 0 <= k < j - 1 ==> c.date < rest[k].date);
        lemma_insert_commit_at(c, rest, j - 1);
        assert(rest.subrange(0, j - 1) =~= s.subrange(1, j));
        assert(rest.subrange(j - 1, rest.len() as int) =~= s.subrange(j, s.len() as int));
        assert(spec_insert_commit(c, s) =~= s.subrange(0, j).push(c) + s.subrange(
            j,
            s.len() as int,
        ));
    }
}

/// Sort the fetched commits newest first and cap the history at the uniform
/// fetch limit. Applied by every adapter before a [`Repository`] is built.
pub fn normalize_commits(commits: Vec<Commit>) -> (r: Vec<Commit>)
    ensures
        r@ == spec_normalize_commits(commits@),
        r@.len() <= COMMIT_COUNT as nat,
        commits_sorted(r@),
{
    let ghost orig = commits@;
    let mut v = commits;
    let mut acc: Vec<Commit> = Vec::new();
    while v.len() > 0
        invariant
            v@.len() <= orig.len(),
            v@ == orig.subrange(0, v@.len() as int),
            acc@ == spec_sort_commits(orig.subrange(v@.len() as int, orig.len() as int)),
        decreases v@.len(),
    {
        let ghost m = v@.len() as int;
        let c = v.pop().unwrap();
        proof {
            assert(c == orig[m - 1]);
            let t = orig.subrange(m - 1, orig.len() as int);
            assert(t[0] == orig[m - 1]);
            assert(t.drop_first() =~= orig.subrange(m, orig.len() as int));
            assert(v@ =~= orig.subrange(0, m - 1));
        }
        insert_commit(&mut acc, c);
    }
    proof {
        assert(orig.subrange(0, orig.len() as int) =~= orig);
        lemma_commit_bound(orig);
        lemma_sort_commits_len(orig);
    }
    if acc.len() > COMMIT_COUNT as usize {
        acc.truncate(COMMIT_COUNT as usize);
    }
    acc
}

/// Whether a repository survives the post-hoc listing filters: forks are
/// dropped unless asked for, private repositories are dropped unless asked
/// for.
pub open spec fn repo_passes_filter(r: Repository, info: ListReposInfo) -> bool {
    (info.private || !r.private) && (info.forks || !r.fork)
}

/// The repositories kept from the joined fan-out results: the successful
/// fetches, in order, that pass the filters.
pub open spec fn spec_collected_repos(
    s: Seq<(String, Result<Repository, Error>)>,
    info: ListReposInfo,
) -> Seq<Repository>
    decreases s.len(),
{
    if s.len() == 0 {
        Seq::empty()
    } else {
        let rest = spec_collected_repos(s.drop_last(), info);
        if s.last().1 is Ok && repo_passes_filter(s.last().1->Ok_0, info) {
            rest.push(s.last().1->Ok_0)
        } else {
            rest
        }
    }
}

/// Index of the first failed detail fetch, or the sequence length when all
/// succeeded.
pub open spec fn spec_first_err_idx(s: Seq<(String, Result<Repository, Error>)>) -> int
    decreases s.len(),
{
    if s.len() == 0 {
        0
    } else if s[0].1 is Err {
        0
    } else {
        1 + spec_first_err_idx(s.drop_first())
    }
}

proof fn lemma_first_err_idx_at(s: Seq<(String, Result<Repository, Error>)>, k: int)
    requires
        0 <= k < s.len(),
        s[k].1 is Err,
        forall|j: int| 0 <= j < k ==> s[j].1 is Ok,
    ensures
        spec_first_err_idx(s) == k,
    decreases k,
{
    if k > 0 {
        lemma_first_err_idx_at(s.drop_first(), k - 1);
    }
}

/// Law: everything the aggregator keeps passes the listing filters — no
/// private repository when private ones were not asked for, no fork when
/// forks were not asked for.
pub proof fn lemma_collected_repos_filtered(
    s: Seq<(String, Result<Repository, Error>)>,
    info: ListReposInfo,
)
    ensures
        forall|k: int| 0 <= k < spec_collected_repos(s, info).len() ==> repo_passes_filter(
            #[trigger] spec_collected_repos(s, info)[k],
            info,
        ),
    decreases s.len(),
{
    if s.len() > 0 {
        lemma_collected_repos_filtered(s.drop_last(), info);
        let r = spec_collected_repos(s, info);
        let rest = spec_collected_repos(s.drop_last(), info);
        assert forall|k: int| 0 <= k < r.len() implies repo_passes_filter(r[k], info) by {
            if s.last().1 is Ok && repo_passes_filter(s.last().1->Ok_0, info) {
                if k < rest.len() {
                    assert(repo_passes_filter(rest[k], info));
                } else {
                    assert(r[k] == s.last().1->Ok_0);
                }
            } else {
                assert(repo_passes_filter(rest[k], info));
            }
        }
    }
}

/// Join the fan-out results of one listing call: every detail fetch must have
/// succeeded, and the successful repositories are filtered by the listing
/// flags. The first failure, in dispatch order, is returned as an error whose
/// message names the repository that failed.
#[verifier::loop_isolation(false)]
pub fn collect_repo_details(
    results: Vec<(String, Result<Repository, Error>)>,
    info: &ListReposInfo,
) -> (r: Result<Vec<Repository>, Error>)
    ensures
        r is Ok ==> {
            &&& forall|k: int| 0 <= k < results@.len() ==> (#[trigger] results@[k].1) is Ok
            &&& r->Ok_0@ == spec_collected_repos(results@, *info)
            &&& forall|k: int| 0 <= k < r->Ok_0@.len() ==> repo_passes_filter(
                #[trigger] r->Ok_0@[k],
                *info,
            )
        },
        r is Err ==> {
            let k = spec_first_err_idx(results@);
            &&& 0 <= k < results@.len()
            &&& results@[k].1 is Err
            &&& forall|j: int| 0 <= j < k ==> (#[trigger] results@[j].1) is Ok
            &&& r->Err_0.message@ == results@[k].0@ + (": ")@ + results@[k].1->Err_0.message@
            &&& r->Err_0.kind == results@[k].1->Err_0.kind
            &&& r->Err_0.status == results@[k].1->Err_0.status
        },
{
    let ghost orig = results@;
    let mut rest = results;
    let mut out: Vec<Repository> = Vec::new();
    let ghost mut processed: int = 0;
    while rest.len() > 0
        invariant
            0 <= processed,
            processed + rest@.len() == orig.len(),
            rest@ == orig.subrange(processed, orig.len() as int),
            forall|j: int| 0 <= j < processed ==> (#[trigger] orig[j].1) is Ok,
            out@ == spec_collected_repos(orig.subrange(0, processed), *info),
        decreases rest@.len(),
    {
        let ghost p = processed;
        let pair = rest.remove(0);
        proof {
            assert(pair == orig[p]);
            assert(rest@ =~= orig.subrange(p + 1, orig.len() as int));
        }
        match pair {
            (name, Ok(repo)) => {
                let keep = (info.private || !repo.private) && (info.forks || !repo.fork);
                proof {
                    let t = orig.subrange(0, p + 1);
                    assert(t.drop_last() =~= orig.subrange(0, p));
                    assert(t.last() == orig[p]);
                }
                if keep {
                    out.push(repo);
                }
            },
            (name, Err(e)) => {
                proof {
                    lemma_first_err_idx_at(orig, p);
                }
                let ghost err_val = e;
                let ghost name_val = name;
                let mut message = name;
                message.append(": ");
                message.append(e.message.as_str());
                proof {
                    assert(message@ == name_val@ + (": ")@ + err_val.message@);
                    assert(orig[p].1->Err_0 == err_val);
                    assert(orig[p].0 == name_val);
                }
                return Err(Error { message, kind: e.kind, status: e.status });
            },
        }
        proof {
            processed = processed + 1;
        }
    }
    proof {
        assert(orig.subrange(0, orig.len() as int) =~= orig);
        lemma_collected_repos_filtered(orig, *info);
    }
    Ok(out)
}

} // verus!
