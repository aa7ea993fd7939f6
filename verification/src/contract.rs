//! The contract state and its verified operations.
//!
//! `HelloContract` owns the four persistent components — settings,
//! protocol registry, swap history, nonce ledger — and every operation
//! on them is a verified state transition. All fallible checks run
//! before any write, so a call that reports an error leaves the state
//! exactly as it was.

use vstd::prelude::*;
use vstd::pervasive::VecAdditionalExecFns;

use crate::history::{history_query, query_history};
use crate::math::{compute_swap_output, lemma_swap_output_bounds, swap_output};
use crate::nonce::{callback_result, nonce_get, nonce_lookup, nonce_set};
use crate::registry::{
    find_protocol_index, find_supporting_protocol, first_supporting, lemma_lookup_at_first_match,
    lemma_lookup_none, lookup_spec, pairs_support, register_result, registry_after_upsert, views_of,
};
use crate::router::{auto_swap_params, auto_swap_result, swap_result, AUTO_SWAP_DEADLINE_WINDOW};
use crate::settings::{initialize_result, update_result};
use crate::types::{
    Address, AmmCallbackData, AmmError, AmmProtocolConfig, AmmSettings, Asset, ProtocolConfigView,
    SwapParams, SwapRecord, TokenPair,
};

verus! {

/// The lending contract's AMM subsystem state. Settings and registry are
/// written only through admin-gated operations; history and nonce ledger
/// only by the router and the callback validator.
pub struct HelloContract {
    settings: Option<AmmSettings>,
    admin: Option<Address>,
    registry: Vec<AmmProtocolConfig>,
    history: Vec<SwapRecord>,
    nonces: Vec<(Address, u64)>,
}

impl HelloContract {
    /// The stored settings record, if initialized.
    pub closed spec fn settings_opt(self) -> Option<AmmSettings> {
        self.settings
    }

    /// The stored admin identity, if initialized.
    pub closed spec fn admin_opt(self) -> Option<Address> {
        self.admin
    }

    /// The registry, in registration order.
    pub closed spec fn protocols_view(self) -> Seq<ProtocolConfigView> {
        views_of(self.registry@)
    }

    /// The swap history, in insertion order.
    pub closed spec fn history_view(self) -> Seq<SwapRecord> {
        self.history@
    }

    /// The last consumed callback nonce of `protocol`; zero while none
    /// was ever accepted.
    pub closed spec fn last_nonce(self, protocol: Address) -> u64 {
        nonce_lookup(self.nonces@, protocol)
    }

    /// Whether the settings singleton has been created.
    pub open spec fn is_initialized(self) -> bool {
        self.settings_opt() is Some
    }

    /// Well-formedness of the state: a valid settings record goes with a
    /// stored admin, every registered configuration satisfies its
    /// invariant, and history records carry their insertion index as
    /// sequence id.
    pub closed spec fn inv(self) -> bool {
        &&& (self.settings matches Some(s) ==> s.valid())
        &&& (self.settings is Some <==> self.admin is Some)
        &&& (forall|i: int|
            0 <= i < self.registry@.len() ==> (#[trigger] views_of(self.registry@)[i]).valid())
        &&& (forall|i: int|
            0 <= i < self.history@.len() ==> (#[trigger] self.history@[i]).sequence_id == i as u64)
    }

    /// A fresh, uninitialized contract: no settings, no admin, nothing
    /// registered, an empty history, every nonce at zero.
    pub fn new() -> (c: HelloContract)
        ensures
            c.inv(),
            !c.is_initialized(),
            c.admin_opt() is None,
            c.protocols_view() == Seq::<ProtocolConfigView>::empty(),
            c.history_view() == Seq::<SwapRecord>::empty(),
            forall|q: Address| #[trigger] c.last_nonce(q) == 0,
    {
        let c = HelloContract {
            settings: None,
            admin: None,
            registry: Vec::new(),
            history: Vec::new(),
            nonces: Vec::new(),
        };
        proof {
            assert(views_of(c.registry@) =~= Seq::<ProtocolConfigView>::empty());
        }
        c
    }

    /// Creates the settings singleton and stores the admin identity.
    /// Fails once settings exist, or on a malformed record; a failing
    /// call changes nothing.
    pub fn initialize_amm_settings(
        &mut self,
        admin: Address,
        default_slippage_bps: u32,
        max_slippage_bps: u32,
        auto_swap_threshold: i128,
    ) -> (r: Result<(), AmmError>)
        requires
            old(self).inv(),
        ensures
            final(self).inv(),
            r == initialize_result(old(self).settings_opt(), default_slippage_bps, max_slippage_bps),
            r is Err ==> *final(self) == *old(self),
            r is Ok ==> final(self).settings_opt() == Some(
                (AmmSettings {
                    default_slippage_bps,
                    max_slippage_bps,
                    swap_enabled: true,
                    liquidity_enabled: true,
                    auto_swap_threshold,
                }),
            ),
            r is Ok ==> final(self).admin_opt() == Some(admin),
            final(self).protocols_view() == old(self).protocols_view(),
            final(self).history_view() == old(self).history_view(),
            forall|q: Address| #[trigger] final(self).last_nonce(q) == old(self).last_nonce(q),
    {
        if self.settings.is_some() {
            return Err(AmmError::AlreadyInitialized);
        }
        if !(default_slippage_bps <= max_slippage_bps && max_slippage_bps <= crate::types::BPS_DENOMINATOR) {
            return Err(AmmError::InvalidParameter);
        }
        self.settings = Some(
            AmmSettings {
                default_slippage_bps,
                max_slippage_bps,
                swap_enabled: true,
                liquidity_enabled: true,
                auto_swap_threshold,
            },
        );
        self.admin = Some(admin);
        Ok(())
    }

    /// The stored settings record, if any.
    pub fn get_amm_settings(&self) -> (r: Option<AmmSettings>)
        ensures
            r == self.settings_opt(),
    {
        self.settings
    }

    /// Replaces the whole settings record. Only the stored admin may do
    /// so, and only with a record satisfying the settings invariant; a
    /// failing call changes nothing.
    pub fn update_amm_settings(&mut self, caller: Address, new_settings: AmmSettings) -> (r: Result<
        (),
        AmmError,
    >)
        requires
            old(self).inv(),
        ensures
            final(self).inv(),
            r == update_result(old(self).admin_opt(), caller, new_settings),
            r is Err ==> *final(self) == *old(self),
            r is Ok ==> final(self).settings_opt() == Some(new_settings),
            final(self).admin_opt() == old(self).admin_opt(),
            final(self).protocols_view() == old(self).protocols_view(),
            final(self).history_view() == old(self).history_view(),
            forall|q: Address| #[trigger] final(self).last_nonce(q) == old(self).last_nonce(q),
    {
        match self.admin {
            None => {
                return Err(AmmError::Unauthorized);
            },
            Some(a) => {
                if a != caller {
                    return Err(AmmError::Unauthorized);
                }
            },
        }
        if !(new_settings.default_slippage_bps <= new_settings.max_slippage_bps
            && new_settings.max_slippage_bps <= crate::types::BPS_DENOMINATOR) {
            return Err(AmmError::InvalidParameter);
        }
        self.settings = Some(new_settings);
        Ok(())
    }

    /// Registers a protocol, or overwrites the configuration already
    /// registered under the same address. Only the stored admin may do
    /// so, and only with a configuration satisfying its invariant; a
    /// failing call changes nothing.
    pub fn add_amm_protocol(&mut self, caller: Address, config: AmmProtocolConfig) -> (r: Result<
        (),
        AmmError,
    >)
        requires
            old(self).inv(),
        ensures
            final(self).inv(),
            r == register_result(old(self).admin_opt(), caller, config@),
            r is Err ==> *final(self) == *old(self),
            r is Ok ==> registry_after_upsert(
                old(self).protocols_view(),
                final(self).protocols_view(),
                config@,
            ),
            final(self).settings_opt() == old(self).settings_opt(),
            final(self).admin_opt() == old(self).admin_opt(),
            final(self).history_view() == old(self).history_view(),
            forall|q: Address| #[trigger] final(self).last_nonce(q) == old(self).last_nonce(q),
    {
        match self.admin {
            None => {
                return Err(AmmError::Unauthorized);
            },
            Some(a) => {
                if a != caller {
                    return Err(AmmError::Unauthorized);
                }
            },
        }
        if !(0 <= config.min_swap_amount && config.min_swap_amount <= config.max_swap_amount
            && config.max_swap_amount <= crate::types::MAX_SWAP_AMOUNT
            && config.supported_pairs.len() > 0) {
            return Err(AmmError::InvalidParameter);
        }
        let idx = find_protocol_index(&self.registry, config.protocol_address);
        let ghost before = views_of(self.registry@);
        match idx {
            Some(i) => {
                self.registry.set(i, config);
                proof {
                    assert(views_of(self.registry@) =~= before.update(i as int, config@));
                }
            },
            None => {
                self.registry.push(config);
                proof {
                    assert(views_of(self.registry@) =~= before.push(config@));
                }
            },
        }
        Ok(())
    }

    /// The configuration registered under `protocol`, if any.
    pub fn get_amm_protocol(&self, protocol: Address) -> (r: Option<AmmProtocolConfig>)
        ensures
            match r {
                Some(c) => lookup_spec(self.protocols_view(), protocol) == Some(c@),
                None => lookup_spec(self.protocols_view(), protocol) is None,
            },
    {
        let ghost vs = views_of(self.registry@);
        let idx = find_protocol_index(&self.registry, protocol);
        proof {
            match idx {
                Some(i) => lemma_lookup_at_first_match(vs, protocol, i as int),
                None => lemma_lookup_none(vs, protocol),
            }
        }
        match idx {
            None => None,
            Some(i) => {
                let cfg = &self.registry[i];
                let n = cfg.supported_pairs.len();
                let mut pairs: Vec<TokenPair> = Vec::new();
                let mut k: usize = 0;
                while k < n
                    invariant
                        n == cfg.supported_pairs@.len(),
                        0 <= k <= n,
                        pairs@ == cfg.supported_pairs@.take(k as int),
                    decreases n - k,
                {
                    pairs.push(cfg.supported_pairs[k]);
                    proof {
                        assert(cfg.supported_pairs@.take(k + 1 as int) =~= cfg.supported_pairs@.take(
                            k as int,
                        ).push(cfg.supported_pairs@[k as int]));
                    }
                    k += 1;
                }
                let out = AmmProtocolConfig {
                    protocol_address: cfg.protocol_address,
                    protocol_name: cfg.protocol_name,
                    enabled: cfg.enabled,
                    fee_tier_bps: cfg.fee_tier_bps,
                    min_swap_amount: cfg.min_swap_amount,
                    max_swap_amount: cfg.max_swap_amount,
                    supported_pairs: pairs,
                };
                proof {
                    assert(out.supported_pairs@ =~= cfg.supported_pairs@);
                    assert(out@ == vs[i as int]);
                }
                Some(out)
            },
        }
    }

    /// The first enabled protocol, in registration order, that supports
    /// the requested pair.
    pub fn find_supporting(&self, token_in: Asset, token_out: Asset) -> (r: Option<Address>)
        ensures
            r == first_supporting(self.protocols_view(), token_in, token_out),
    {
        find_supporting_protocol(&self.registry, token_in, token_out)
    }

    /// Validates and executes one swap against the named protocol.
    /// Every check runs before any write: a passing request appends
    /// exactly one history record and returns its output; a failing
    /// request reports the first failing check and changes nothing.
    pub fn execute_swap(&mut self, user: Address, params: SwapParams, now: u64) -> (r: Result<
        i128,
        AmmError,
    >)
        requires
            old(self).inv(),
            old(self).is_initialized(),
        ensures
            final(self).inv(),
            final(self).is_initialized(),
            r == swap_result(
                old(self).settings_opt().unwrap(),
                lookup_spec(old(self).protocols_view(), params.protocol),
                params,
                now,
            ),
            r is Err ==> *final(self) == *old(self),
            r matches Ok(out) ==> out == swap_output(
                params.amount_in as int,
                params.slippage_tolerance_bps as int,
            ),
            r matches Ok(out) ==> final(self).history_view() == old(self).history_view().push(
                (SwapRecord {
                    user,
                    protocol: params.protocol,
                    amount_in: params.amount_in,
                    amount_out: out,
                    timestamp: now,
                    sequence_id: old(self).history_view().len() as u64,
                }),
            ),
            final(self).settings_opt() == old(self).settings_opt(),
            final(self).admin_opt() == old(self).admin_opt(),
            final(self).protocols_view() == old(self).protocols_view(),
            forall|q: Address| #[trigger] final(self).last_nonce(q) == old(self).last_nonce(q),
    {
        let ghost vs = views_of(self.registry@);
        let settings = self.settings.unwrap();
        if !settings.swap_enabled {
            return Err(AmmError::SwapsPaused);
        }
        let idx = find_protocol_index(&self.registry, params.protocol);
        proof {
            match idx {
                Some(i) => lemma_lookup_at_first_match(vs, params.protocol, i as int),
                None => lemma_lookup_none(vs, params.protocol),
            }
        }
        let i = match idx {
            None => {
                return Err(AmmError::ProtocolUnavailable);
            },
            Some(i) => i,
        };
        if !self.registry[i].enabled {
            return Err(AmmError::ProtocolUnavailable);
        }
        if params.deadline < now {
            return Err(AmmError::DeadlineExpired);
        }
        if params.amount_in < self.registry[i].min_swap_amount || params.amount_in
            > self.registry[i].max_swap_amount {
            return Err(AmmError::AmountOutOfBounds);
        }
        let supported = pairs_support(&self.registry[i].supported_pairs, params.token_in, params.token_out);
        if !supported {
            return Err(AmmError::UnsupportedPair);
        }
        if params.slippage_tolerance_bps > settings.max_slippage_bps {
            return Err(AmmError::SlippageTooHigh);
        }
        proof {
            assert(vs[idx.unwrap() as int].valid());
            if params.amount_in > 0 {
                lemma_swap_output_bounds(params.amount_in as int, params.slippage_tolerance_bps as int);
            }
        }
        let out = compute_swap_output(params.amount_in, params.slippage_tolerance_bps);
        if out < params.min_amount_out {
            return Err(AmmError::InsufficientOutput);
        }
        let sequence_id = self.history.len() as u64;
        let record = SwapRecord {
            user,
            protocol: params.protocol,
            amount_in: params.amount_in,
            amount_out: out,
            timestamp: now,
            sequence_id,
        };
        self.history.push(record);
        Ok(out)
    }

    /// Liquidation entry point: gates the request on a positive amount,
    /// the auto-swap threshold, and an available protocol for native
    /// collateral, then delegates to the router with the default
    /// slippage, any positive output accepted, and a fresh deadline.
    /// A failing call changes nothing.
    pub fn auto_swap_for_collateral(
        &mut self,
        caller: Address,
        token_out: Asset,
        amount: i128,
        now: u64,
    ) -> (r: Result<i128, AmmError>)
        requires
            old(self).inv(),
            old(self).is_initialized(),
        ensures
            final(self).inv(),
            final(self).is_initialized(),
            r == auto_swap_result(
                old(self).settings_opt().unwrap(),
                old(self).protocols_view(),
                token_out,
                amount,
                now,
            ),
            r is Err ==> *final(self) == *old(self),
            r matches Ok(out) ==> final(self).history_view() == old(self).history_view().push(
                (SwapRecord {
                    user: caller,
                    protocol: first_supporting(
                        old(self).protocols_view(),
                        Asset::Native,
                        token_out,
                    ).unwrap(),
                    amount_in: amount,
                    amount_out: out,
                    timestamp: now,
                    sequence_id: old(self).history_view().len() as u64,
                }),
            ),
            final(self).settings_opt() == old(self).settings_opt(),
            final(self).admin_opt() == old(self).admin_opt(),
            final(self).protocols_view() == old(self).protocols_view(),
            forall|q: Address| #[trigger] final(self).last_nonce(q) == old(self).last_nonce(q),
    {
        let settings = self.settings.unwrap();
        if amount <= 0 {
            return Err(AmmError::InvalidAmount);
        }
        if amount < settings.auto_swap_threshold {
            return Err(AmmError::BelowLiquidationThreshold);
        }
        let resolved = find_supporting_protocol(&self.registry, Asset::Native, token_out);
        let protocol = match resolved {
            None => {
                return Err(AmmError::NoProtocolAvailable);
            },
            Some(a) => a,
        };
        let deadline: u64 = if now <= u64::MAX - AUTO_SWAP_DEADLINE_WINDOW {
            now + AUTO_SWAP_DEADLINE_WINDOW
        } else {
            u64::MAX
        };
        let params = SwapParams {
            protocol,
            token_in: Asset::Native,
            token_out,
            amount_in: amount,
            min_amount_out: 1,
            slippage_tolerance_bps: settings.default_slippage_bps,
            deadline,
        };
        proof {
            assert(params == auto_swap_params(settings, protocol, token_out, amount, now));
        }
        self.execute_swap(caller, params, now)
    }

    /// Validates a post-swap callback from a registered protocol against
    /// the nonce ledger and its deadline. Acceptance advances the
    /// protocol's last consumed nonce to the callback's; a failing call
    /// changes nothing, so a replayed nonce is rejected forever.
    pub fn validate_amm_callback(
        &mut self,
        protocol: Address,
        callback: &AmmCallbackData,
        now: u64,
    ) -> (r: Result<(), AmmError>)
        requires
            old(self).inv(),
        ensures
            final(self).inv(),
            r == callback_result(
                lookup_spec(old(self).protocols_view(), protocol) is Some,
                old(self).last_nonce(protocol),
                callback.nonce,
                callback.deadline,
                now,
            ),
            r is Err ==> *final(self) == *old(self),
            r is Ok ==> final(self).last_nonce(protocol) == callback.nonce,
            forall|q: Address|
                q != protocol ==> #[trigger] final(self).last_nonce(q) == old(self).last_nonce(q),
            final(self).settings_opt() == old(self).settings_opt(),
            final(self).admin_opt() == old(self).admin_opt(),
            final(self).protocols_view() == old(self).protocols_view(),
            final(self).history_view() == old(self).history_view(),
    {
        let ghost vs = views_of(self.registry@);
        let idx = find_protocol_index(&self.registry, protocol);
        proof {
            match idx {
                Some(i) => lemma_lookup_at_first_match(vs, protocol, i as int),
                None => lemma_lookup_none(vs, protocol),
            }
        }
        if idx.is_none() {
            return Err(AmmError::UnknownProtocol);
        }
        if callback.deadline < now {
            return Err(AmmError::DeadlineExpired);
        }
        let last = nonce_get(&self.nonces, protocol);
        if callback.nonce <= last {
            return Err(AmmError::NonceReplay);
        }
        nonce_set(&mut self.nonces, protocol, callback.nonce);
        Ok(())
    }

    /// The swap history: the given user's records — or every record,
    /// with no user given — in insertion order, cut off at `limit`.
    pub fn get_swap_history(&self, user: Option<Address>, limit: u32) -> (r: Vec<SwapRecord>)
        ensures
            r@ == history_query(self.history_view(), user, limit as int),
    {
        query_history(&self.history, user, limit)
    }
}

} // verus!
