//! The protocol registry: external swap venues keyed by address.
//!
//! The registry is modelled as a sequence of protocol configurations in
//! registration order. Lookup returns the first entry with the requested
//! address; protocol resolution for the liquidation path returns the
//! first enabled entry that supports the requested pair.

use vstd::prelude::*;

use crate::types::{Address, AmmError, AmmProtocolConfig, Asset, ProtocolConfigView};

verus! {

/// The registry as the sequence of the stored configurations' views.
pub open spec fn views_of(ps: Seq<AmmProtocolConfig>) -> Seq<ProtocolConfigView> {
    ps.map_values(|c: AmmProtocolConfig| c@)
}

/// The configuration registered under `addr`: the first entry carrying
/// that address, if any.
pub open spec fn lookup_spec(ps: Seq<ProtocolConfigView>, addr: Address) -> Option<
    ProtocolConfigView,
>
    decreases ps.len(),
{
    if ps.len() == 0 {
        None
    } else if ps[0].protocol_address == addr {
        Some(ps[0])
    } else {
        lookup_spec(ps.drop_first(), addr)
    }
}

/// The first enabled protocol, in registration order, that supports the
/// requested pair.
pub open spec fn first_supporting(
    ps: Seq<ProtocolConfigView>,
    token_in: Asset,
    token_out: Asset,
) -> Option<Address>
    decreases ps.len(),
{
    if ps.len() == 0 {
        None
    } else if ps[0].enabled && ps[0].supports(token_in, token_out) {
        Some(ps[0].protocol_address)
    } else {
        first_supporting(ps.drop_first(), token_in, token_out)
    }
}

/// How registration changes the registry: the first entry with the new
/// configuration's address is replaced, or, with the address not yet
/// present, the configuration is appended.
pub open spec fn registry_after_upsert(
    before: Seq<ProtocolConfigView>,
    after: Seq<ProtocolConfigView>,
    c: ProtocolConfigView,
) -> bool {
    ||| (exists|i: int|
        0 <= i < before.len() && (#[trigger] before[i]).protocol_address == c.protocol_address
            && (forall|j: int| 0 <= j < i ==> before[j].protocol_address != c.protocol_address)
            && after == before.update(i, c))
    ||| ((forall|j: int| 0 <= j < before.len() ==> before[j].protocol_address != c.protocol_address)
        && after == before.push(c))
}

/// The outcome of a protocol registration: admin-only, and the
/// configuration must satisfy its invariant — consistent swap bounds
/// within the supported range, and at least one supported pair.
pub open spec fn register_result(
    admin: Option<Address>,
    caller: Address,
    config: ProtocolConfigView,
) -> Result<(), AmmError> {
    if !(admin matches Some(a) && a == caller) {
        Err(AmmError::Unauthorized)
    } else if !config.valid() {
        Err(AmmError::InvalidParameter)
    } else {
        Ok(())
    }
}

/// Lookup yields the entry at the first index holding the address.
pub proof fn lemma_lookup_at_first_match(ps: Seq<ProtocolConfigView>, addr: Address, i: int)
    requires
        0 <= i < ps.len(),
        ps[i].protocol_address == addr,
        forall|j: int| 0 <= j < i ==> ps[j].protocol_address != addr,
    ensures
        lookup_spec(ps, addr) == Some(ps[i]),
    decreases i,
{
    if i > 0 {
        assert(ps.drop_first()[i - 1] == ps[i]);
        assert(forall|j: int| 0 <= j < i - 1 ==> ps.drop_first()[j] == ps[j + 1]);
        lemma_lookup_at_first_match(ps.drop_first(), addr, i - 1);
    }
}

/// With no entry holding the address, lookup yields nothing.
pub proof fn lemma_lookup_none(ps: Seq<ProtocolConfigView>, addr: Address)
    requires
        forall|j: int| 0 <= j < ps.len() ==> ps[j].protocol_address != addr,
    ensures
        lookup_spec(ps, addr) is None,
    decreases ps.len(),
{
    if ps.len() > 0 {
        assert(forall|j: int| 0 <= j < ps.len() - 1 ==> ps.drop_first()[j] == ps[j + 1]);
        lemma_lookup_none(ps.drop_first(), addr);
    }
}

/// Resolution yields the address of the entry at the first index that is
/// enabled and supports the pair.
pub proof fn lemma_first_supporting_at(
    ps: Seq<ProtocolConfigView>,
    token_in: Asset,
    token_out: Asset,
    i: int,
)
    requires
        0 <= i < ps.len(),
        ps[i].enabled && ps[i].supports(token_in, token_out),
        forall|j: int|
            0 <= j < i ==> !((#[trigger] ps[j]).enabled && ps[j].supports(token_in, token_out)),
    ensures
        first_supporting(ps, token_in, token_out) == Some(ps[i].protocol_address),
    decreases i,
{
    if i > 0 {
        assert(ps.drop_first()[i - 1] == ps[i]);
        assert(forall|j: int| 0 <= j < i - 1 ==> ps.drop_first()[j] == ps[j + 1]);
        lemma_first_supporting_at(ps.drop_first(), token_in, token_out, i - 1);
    }
}

/// With no enabled entry supporting the pair, resolution yields nothing.
pub proof fn lemma_first_supporting_none(
    ps: Seq<ProtocolConfigView>,
    token_in: Asset,
    token_out: Asset,
)
    requires
        forall|j: int|
            0 <= j < ps.len() ==> !((#[trigger] ps[j]).enabled && ps[j].supports(
                token_in,
                token_out,
            )),
    ensures
        first_supporting(ps, token_in, token_out) is None,
    decreases ps.len(),
{
    if ps.len() > 0 {
        assert(forall|j: int| 0 <= j < ps.len() - 1 ==> ps.drop_first()[j] == ps[j + 1]);
        lemma_first_supporting_none(ps.drop_first(), token_in, token_out);
    }
}

/// Whether one of the pairs matches the request exactly.
pub(crate) fn pairs_support(pairs: &Vec<crate::types::TokenPair>, token_in: Asset, token_out: Asset) -> (b:
    bool)
    ensures
        b == (exists|k: int|
            0 <= k < pairs@.len() && (#[trigger] pairs@[k]).token_in == token_in
                && pairs@[k].token_out == token_out),
{
    let n = pairs.len();
    let mut k: usize = 0;
    while k < n
        invariant
            n == pairs@.len(),
            0 <= k <= n,
            forall|j: int|
                0 <= j < k ==> !((#[trigger] pairs@[j]).token_in == token_in
                    && pairs@[j].token_out == token_out),
        decreases n - k,
    {
        if pairs[k].token_in == token_in && pairs[k].token_out == token_out {
            return true;
        }
        k += 1;
    }
    false
}

/// The position of the first entry registered under `addr`.
pub(crate) fn find_protocol_index(ps: &Vec<AmmProtocolConfig>, addr: Address) -> (r: Option<usize>)
    ensures
        match r {
            Some(i) => i < ps@.len() && views_of(ps@)[i as int].protocol_address == addr && forall|
                j: int,
            |
                0 <= j < i ==> views_of(ps@)[j].protocol_address != addr,
            None => forall|j: int| 0 <= j < ps@.len() ==> views_of(ps@)[j].protocol_address != addr,
        },
{
    let n = ps.len();
    let mut i: usize = 0;
    while i < n
        invariant
            n == ps@.len(),
            0 <= i <= n,
            forall|j: int| 0 <= j < i ==> views_of(ps@)[j].protocol_address != addr,
        decreases n - i,
    {
        if ps[i].protocol_address == addr {
            return Some(i);
        }
        i += 1;
    }
    None
}

/// The first enabled protocol supporting the pair, in registration order.
pub(crate) fn find_supporting_protocol(
    ps: &Vec<AmmProtocolConfig>,
    token_in: Asset,
    token_out: Asset,
) -> (r: Option<Address>)
    ensures
        r == first_supporting(views_of(ps@), token_in, token_out),
{
    let ghost vs = views_of(ps@);
    let n = ps.len();
    let mut i: usize = 0;
    while i < n
        invariant
            vs == views_of(ps@),
            n == ps@.len(),
            0 <= i <= n,
            forall|j: int|
                0 <= j < i ==> !((#[trigger] vs[j]).enabled && vs[j].supports(token_in, token_out)),
        decreases n - i,
    {
        if ps[i].enabled && pairs_support(&ps[i].supported_pairs, token_in, token_out) {
            proof {
                assert(vs[i as int].supports(token_in, token_out));
                lemma_first_supporting_at(vs, token_in, token_out, i as int);
            }
            return Some(ps[i].protocol_address);
        }
        i += 1;
    }
    proof {
        lemma_first_supporting_none(vs, token_in, token_out);
    }
    None
}

} // verus!
