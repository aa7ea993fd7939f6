//! The swap history ledger: an append-only log of executed swaps,
//! queried per user with a caller-supplied bound.
//!
//! The laws proved here give per-user isolation: appending one user's
//! record extends that user's view of the history by exactly that record
//! and leaves every other user's view untouched.

use vstd::prelude::*;

use crate::types::{Address, SwapRecord};

verus! {

/// The subsequence of records belonging to `user`, in insertion order.
pub open spec fn user_records(h: Seq<SwapRecord>, user: Address) -> Seq<SwapRecord>
    decreases h.len(),
{
    if h.len() == 0 {
        Seq::empty()
    } else {
        let rest = user_records(h.drop_last(), user);
        if h.last().user == user {
            rest.push(h.last())
        } else {
            rest
        }
    }
}

/// The first `limit` elements, or the whole sequence where it is shorter.
pub open spec fn clipped(s: Seq<SwapRecord>, limit: int) -> Seq<SwapRecord> {
    if s.len() <= limit {
        s
    } else {
        s.take(limit)
    }
}

/// What a history query returns: the requested user's records — or every
/// record, with no user given — cut off at `limit`.
pub open spec fn history_query(
    h: Seq<SwapRecord>,
    user: Option<Address>,
    limit: int,
) -> Seq<SwapRecord> {
    match user {
        Some(u) => clipped(user_records(h, u), limit),
        None => clipped(h, limit),
    }
}

/// A user sees none of another user's appended records.
pub proof fn lemma_history_append_isolated(h: Seq<SwapRecord>, r: SwapRecord, user: Address)
    requires
        r.user != user,
    ensures
        user_records(h.push(r), user) == user_records(h, user),
{
    assert(h.push(r).drop_last() =~= h);
}

/// A user sees exactly their own appended record, after all earlier ones.
pub proof fn lemma_history_append_own(h: Seq<SwapRecord>, r: SwapRecord)
    ensures
        user_records(h.push(r), r.user) == user_records(h, r.user).push(r),
{
    assert(h.push(r).drop_last() =~= h);
}

/// Another user's appended record is invisible to every query for this
/// user, whatever the bound.
pub proof fn lemma_query_isolated(h: Seq<SwapRecord>, r: SwapRecord, user: Address, limit: int)
    requires
        r.user != user,
    ensures
        history_query(h.push(r), Some(user), limit) == history_query(h, Some(user), limit),
{
    lemma_history_append_isolated(h, r, user);
}

/// Every record a user's view holds belongs to that user.
pub proof fn lemma_user_records_belong(h: Seq<SwapRecord>, user: Address, i: int)
    requires
        0 <= i < user_records(h, user).len(),
    ensures
        user_records(h, user)[i].user == user,
    decreases h.len(),
{
    if h.len() > 0 {
        let rest = user_records(h.drop_last(), user);
        if !(h.last().user == user && i == rest.len()) {
            lemma_user_records_belong(h.drop_last(), user, i);
        }
    }
}

/// Runs the query: scans the history in insertion order and collects the
/// matching records until the bound is reached.
pub(crate) fn query_history(h: &Vec<SwapRecord>, user: Option<Address>, limit: u32) -> (r: Vec<
    SwapRecord,
>)
    ensures
        r@ == history_query(h@, user, limit as int),
{
    let n = h.len();
    let mut out: Vec<SwapRecord> = Vec::new();
    let mut i: usize = 0;
    while i < n
        invariant
            n == h@.len(),
            0 <= i <= n,
            out@ == history_query(h@.take(i as int), user, limit as int),
            out@.len() <= limit,
        decreases n - i,
    {
        let rec = h[i];
        proof {
            assert(h@.take(i + 1 as int).drop_last() =~= h@.take(i as int));
            assert(h@.take(i + 1 as int).last() == h@[i as int]);
        }
        let matches_user = match user {
            Some(u) => rec.user == u,
            None => true,
        };
        if matches_user && out.len() < limit as usize {
            out.push(rec);
        }
        proof {
            let full = h@.take(i + 1 as int);
            let prev = h@.take(i as int);
            match user {
                Some(u) => {
                    let cur = user_records(full, u);
                    let before = user_records(prev, u);
                    assert(cur == if h@[i as int].user == u {
                        before.push(h@[i as int])
                    } else {
                        before
                    });
                    if h@[i as int].user == u && before.len() > limit {
                        assert(cur.take(limit as int) =~= before.take(limit as int));
                    }
                    if h@[i as int].user == u && before.len() == limit {
                        assert(cur.take(limit as int) =~= before);
                    }
                },
                None => {
                    if prev.len() > limit {
                        assert(full.take(limit as int) =~= prev.take(limit as int));
                    }
                    if prev.len() == limit {
                        assert(full.take(limit as int) =~= prev);
                    }
                },
            }
        }
        i += 1;
    }
    proof {
        assert(h@.take(n as int) =~= h@);
    }
    out
}

} // verus!
