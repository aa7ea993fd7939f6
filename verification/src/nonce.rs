//! The nonce ledger: one monotonically increasing last-consumed nonce per
//! registered protocol, protecting post-swap callbacks against replay.
//!
//! A callback is accepted only with a nonce strictly above the
//! protocol's last consumed one; acceptance advances the ledger, so the
//! same nonce can never be accepted twice.

use vstd::prelude::*;

use crate::types::{Address, AmmError};

verus! {

/// The last consumed nonce recorded for `protocol`; zero before any
/// callback of that protocol was accepted.
pub open spec fn nonce_lookup(entries: Seq<(Address, u64)>, protocol: Address) -> u64
    decreases entries.len(),
{
    if entries.len() == 0 {
        0
    } else if entries[0].0 == protocol {
        entries[0].1
    } else {
        nonce_lookup(entries.drop_first(), protocol)
    }
}

/// The outcome of validating a callback: the protocol must be
/// registered, the deadline must not have passed, and the nonce must lie
/// strictly above the protocol's last consumed one.
pub open spec fn callback_result(
    registered: bool,
    last_nonce: u64,
    nonce: u64,
    deadline: u64,
    now: u64,
) -> Result<(), AmmError> {
    if !registered {
        Err(AmmError::UnknownProtocol)
    } else if deadline < now {
        Err(AmmError::DeadlineExpired)
    } else if nonce <= last_nonce {
        Err(AmmError::NonceReplay)
    } else {
        Ok(())
    }
}

/// Replay protection: once a callback with some nonce has been accepted
/// and the ledger advanced to it, presenting the same nonce again fails
/// as a replay — whatever the deadline — while the next nonce is
/// accepted again.
pub proof fn lemma_nonce_replay_blocked(
    last_nonce: u64,
    nonce: u64,
    deadline: u64,
    now: u64,
    retry_deadline: u64,
    retry_now: u64,
)
    requires
        callback_result(true, last_nonce, nonce, deadline, now) is Ok,
        retry_deadline >= retry_now,
        nonce < u64::MAX,
    ensures
        callback_result(true, nonce, nonce, retry_deadline, retry_now) == Err::<
            (),
            AmmError,
        >(AmmError::NonceReplay),
        callback_result(true, nonce, (nonce + 1) as u64, retry_deadline, retry_now) is Ok,
{
}

/// Updating one protocol's entry leaves every other protocol's recorded
/// nonce unchanged.
pub proof fn lemma_nonce_lookup_update(
    entries: Seq<(Address, u64)>,
    i: int,
    protocol: Address,
    value: u64,
    other: Address,
)
    requires
        0 <= i < entries.len(),
        entries[i].0 == protocol,
        forall|j: int| 0 <= j < i ==> entries[j].0 != protocol,
    ensures
        nonce_lookup(entries.update(i, (protocol, value)), protocol) == value,
        other != protocol ==> nonce_lookup(entries.update(i, (protocol, value)), other)
            == nonce_lookup(entries, other),
    decreases entries.len(),
{
    let updated = entries.update(i, (protocol, value));
    if i == 0 {
        assert(updated.drop_first() =~= entries.drop_first());
    } else {
        assert(updated[0] == entries[0]);
        assert(updated.drop_first() =~= entries.drop_first().update(i - 1, (protocol, value)));
        assert(forall|j: int| 0 <= j < i - 1 ==> entries.drop_first()[j] == entries[j + 1]);
        lemma_nonce_lookup_update(entries.drop_first(), i - 1, protocol, value, other);
    }
}

/// Appending an entry for a protocol not yet recorded leaves every other
/// protocol's recorded nonce unchanged.
pub proof fn lemma_nonce_lookup_push(
    entries: Seq<(Address, u64)>,
    protocol: Address,
    value: u64,
    other: Address,
)
    requires
        forall|j: int| 0 <= j < entries.len() ==> entries[j].0 != protocol,
    ensures
        nonce_lookup(entries.push((protocol, value)), protocol) == value,
        other != protocol ==> nonce_lookup(entries.push((protocol, value)), other) == nonce_lookup(
            entries,
            other,
        ),
    decreases entries.len(),
{
    let pushed = entries.push((protocol, value));
    if entries.len() == 0 {
        assert(pushed[0] == (protocol, value));
        assert(pushed.drop_first() =~= Seq::<(Address, u64)>::empty());
        assert(nonce_lookup(pushed.drop_first(), other) == 0);
    } else {
        assert(pushed[0] == entries[0]);
        assert(pushed.drop_first() =~= entries.drop_first().push((protocol, value)));
        assert(forall|j: int| 0 <= j < entries.len() - 1 ==> entries.drop_first()[j] == entries[j
            + 1]);
        lemma_nonce_lookup_push(entries.drop_first(), protocol, value, other);
    }
}

/// Reads the last consumed nonce recorded for `protocol`.
pub(crate) fn nonce_get(entries: &Vec<(Address, u64)>, protocol: Address) -> (r: u64)
    ensures
        r == nonce_lookup(entries@, protocol),
{
    let n = entries.len();
    let mut i: usize = 0;
    proof {
        assert(entries@.skip(0) =~= entries@);
    }
    while i < n
        invariant
            n == entries@.len(),
            0 <= i <= n,
            nonce_lookup(entries@, protocol) == nonce_lookup(entries@.skip(i as int), protocol),
        decreases n - i,
    {
        proof {
            assert(entries@.skip(i as int)[0] == entries@[i as int]);
            assert(entries@.skip(i as int).drop_first() =~= entries@.skip(i + 1 as int));
        }
        if entries[i].0 == protocol {
            return entries[i].1;
        }
        i += 1;
    }
    proof {
        assert(entries@.skip(n as int) =~= Seq::<(Address, u64)>::empty());
    }
    0
}

/// Records `value` as the last consumed nonce of `protocol`, leaving
/// every other protocol's entry as it was.
pub(crate) fn nonce_set(entries: &mut Vec<(Address, u64)>, protocol: Address, value: u64)
    ensures
        nonce_lookup(final(entries)@, protocol) == value,
        forall|q: Address|
            q != protocol ==> #[trigger] nonce_lookup(final(entries)@, q) == nonce_lookup(
                old(entries)@,
                q,
            ),
{
    let n = entries.len();
    let mut i: usize = 0;
    while i < n
        invariant
            n == entries@.len(),
            0 <= i <= n,
            entries@ == old(entries)@,
            forall|j: int| 0 <= j < i ==> entries@[j].0 != protocol,
        decreases n - i,
    {
        if entries[i].0 == protocol {
            entries.set(i, (protocol, value));
            proof {
                assert forall|q: Address| q != protocol implies #[trigger] nonce_lookup(
                    entries@,
                    q,
                ) == nonce_lookup(old(entries)@, q) by {
                    lemma_nonce_lookup_update(old(entries)@, i as int, protocol, value, q);
                }
                lemma_nonce_lookup_update(old(entries)@, i as int, protocol, value, protocol);
            }
            return ;
        }
        i += 1;
    }
    entries.push((protocol, value));
    proof {
        assert forall|q: Address| q != protocol implies #[trigger] nonce_lookup(entries@, q)
            == nonce_lookup(old(entries)@, q) by {
            lemma_nonce_lookup_push(old(entries)@, protocol, value, q);
        }
        lemma_nonce_lookup_push(old(entries)@, protocol, value, protocol);
    }
}

} // verus!
