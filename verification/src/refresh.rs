//! The oracle's operations: binding a record to a pool, refreshing it, and
//! refreshing it for publication.
//!
//! Each operation works on the accounts it is handed and on the moment that
//! the host reports. An operation that is rejected changes nothing.

use vstd::prelude::*;
use crate::account::{AccountHeader, AccountSnapshot};
use crate::address::Address;
use crate::error::OracleError;
use crate::history::{lemma_history_after_refreshes, replay};
use crate::payload::{encode_push_payload, push_payload};
use crate::programs::{is_percolator, is_percolator_program};
use crate::state::{update_oracle_state, Clock, PriceOracle, Reading, TWAP_SIZE};
use crate::validate::{calculate_price, price_rejection, reading_of};

verus! {

/// The accounts of the operation that binds a new record.
#[derive(Clone, Debug, PartialEq, Eq)]
pub struct InitializeOracle {
    /// The identity that creates the record and becomes its admin.
    pub admin: Address,
    /// The record to bind.
    pub oracle_account: PriceOracle,
    /// The consumer's record that prices will be published to.
    pub slab: AccountHeader,
    /// The exchange pool to bind the record to.
    pub pool: AccountHeader,
    /// Bump seed of the record's own derived address.
    pub bump: u8,
}

/// The accounts of a refresh that only updates the record.
#[derive(Clone, Debug, PartialEq, Eq)]
pub struct ComputePrice {
    /// The identity that asks for the refresh.
    pub caller: Address,
    /// The record to refresh.
    pub oracle_account: PriceOracle,
    /// The exchange pool.
    pub pool: AccountSnapshot,
    /// The pool's base reserve account.
    pub pool_base_token: AccountSnapshot,
    /// The pool's quote reserve account.
    pub pool_quote_token: AccountSnapshot,
    /// The SOL/USD feed account.
    pub pyth_price_feed: AccountSnapshot,
}

/// The accounts of a refresh that also publishes the smoothed price.
#[derive(Clone, Debug, PartialEq, Eq)]
pub struct PushPrice {
    /// The identity that asks for the refresh.
    pub caller: Address,
    /// The record to refresh.
    pub oracle_account: PriceOracle,
    /// The exchange pool.
    pub pool: AccountSnapshot,
    /// The pool's base reserve account.
    pub pool_base_token: AccountSnapshot,
    /// The pool's quote reserve account.
    pub pool_quote_token: AccountSnapshot,
    /// The SOL/USD feed account.
    pub pyth_price_feed: AccountSnapshot,
    /// The consumer's record that the price is published to.
    pub slab: AccountHeader,
    /// The consumer program.
    pub percolator_program: AccountHeader,
}

impl PriceOracle {
    /// A record bound to `slab` and `pool` with `admin` and `bump`, with no
    /// price recorded yet: every number and every slot of the ring is zero.
    pub open spec fn bound_to(slab: Address, pool: Address, admin: Address, bump: u8) -> PriceOracle {
        PriceOracle {
            slab,
            pool,
            price_e6: 0,
            token_sol_e9: 0,
            sol_usd_e6: 0,
            last_update: 0,
            base_reserve: 0,
            quote_reserve: 0,
            last_slot: 0,
            price_history: vstd::array::spec_array_fill_for_copy_type::<u64, 10>(0),
            history_idx: 0,
            history_count: 0,
            twap_e6: 0,
            bump,
            admin,
        }
    }
}

/// Why `caller` may not refresh `oracle` at `clock`, if they may not: the
/// sequence tick has not advanced past the last refresh, or the ring is
/// warming up and the caller is not the admin.
pub open spec fn gate_rejection(oracle: PriceOracle, caller: Address, clock: Clock) -> Option<
    OracleError,
> {
    if oracle.last_slot >= clock.slot {
        Some(OracleError::SlotAlreadyPushed)
    } else if oracle.warming() && caller != oracle.admin {
        Some(OracleError::WarmupAdminOnly)
    } else {
        None
    }
}

/// Why the consumer's accounts are not accepted, if they are not.
pub open spec fn consumer_rejection(
    percolator_program: AccountHeader,
    slab: AccountHeader,
) -> Option<OracleError> {
    if !is_percolator(percolator_program.key) {
        Some(OracleError::InvalidPercolatorProgram)
    } else if !is_percolator(slab.owner) {
        Some(OracleError::InvalidSlabOwner)
    } else {
        None
    }
}

/// Why the refresh `ctx` is rejected at `clock`, if it is: the caller is not
/// admitted, or else the first rejection on the way to the price.
pub open spec fn compute_rejection(ctx: ComputePrice, clock: Clock) -> Option<OracleError> {
    if gate_rejection(ctx.oracle_account, ctx.caller, clock) is Some {
        gate_rejection(ctx.oracle_account, ctx.caller, clock)
    } else {
        price_rejection(
            ctx.pool,
            ctx.pool_base_token,
            ctx.pool_quote_token,
            ctx.pyth_price_feed,
            clock.unix_timestamp as int,
            ctx.oracle_account.pool,
        )
    }
}

/// Why the publishing refresh `ctx` is rejected at `clock`, if it is: the
/// caller is not admitted, the consumer's accounts are not accepted, or else
/// the first rejection on the way to the price.
pub open spec fn push_rejection(ctx: PushPrice, clock: Clock) -> Option<OracleError> {
    if gate_rejection(ctx.oracle_account, ctx.caller, clock) is Some {
        gate_rejection(ctx.oracle_account, ctx.caller, clock)
    } else if consumer_rejection(ctx.percolator_program, ctx.slab) is Some {
        consumer_rejection(ctx.percolator_program, ctx.slab)
    } else {
        price_rejection(
            ctx.pool,
            ctx.pool_base_token,
            ctx.pool_quote_token,
            ctx.pyth_price_feed,
            clock.unix_timestamp as int,
            ctx.oracle_account.pool,
        )
    }
}

/// Decides whether `caller` may refresh `oracle` at `clock`.
pub fn check_gate(oracle: &PriceOracle, caller: &Address, clock: &Clock) -> (r: Result<
    (),
    OracleError,
>)
    ensures
        match r {
            Ok(_) => gate_rejection(*oracle, *caller, *clock) is None,
            Err(e) => gate_rejection(*oracle, *caller, *clock) == Some(e),
        },
{
    if !(oracle.last_slot < clock.slot) {
        return Err(OracleError::SlotAlreadyPushed);
    }
    if oracle.history_count < TWAP_SIZE as u8 {
        if *caller != oracle.admin {
            return Err(OracleError::WarmupAdminOnly);
        }
    }
    Ok(())
}

/// Binds the record to the consumer's record and to the pool, with the
/// caller as admin. Every number of the record and every slot of its ring
/// starts at zero.
///
/// Rejected with `InvalidSlabOwner` where the consumer program does not own
/// the consumer's record.
pub fn initialize_oracle(ctx: &mut InitializeOracle) -> (r: Result<(), OracleError>)
    ensures
        match r {
            Ok(_) => {
                &&& is_percolator(old(ctx).slab.owner)
                &&& *final(ctx) == (InitializeOracle {
                    oracle_account: PriceOracle::bound_to(
                        old(ctx).slab.key,
                        old(ctx).pool.key,
                        old(ctx).admin,
                        old(ctx).bump,
                    ),
                    ..*old(ctx)
                })
                &&& final(ctx).oracle_account.wf()
            },
            Err(e) => {
                &&& e == OracleError::InvalidSlabOwner
                &&& !is_percolator(old(ctx).slab.owner)
                &&& *final(ctx) == *old(ctx)
            },
        },
{
    if !is_percolator_program(&ctx.slab.owner) {
        return Err(OracleError::InvalidSlabOwner);
    }
    ctx.oracle_account = PriceOracle {
        slab: ctx.slab.key,
        pool: ctx.pool.key,
        price_e6: 0,
        token_sol_e9: 0,
        sol_usd_e6: 0,
        last_update: 0,
        base_reserve: 0,
        quote_reserve: 0,
        last_slot: 0,
        price_history: [0u64; 10],
        history_idx: 0,
        history_count: 0,
        twap_e6: 0,
        bump: ctx.bump,
        admin: ctx.admin,
    };
    assert(ctx.oracle_account.filled() =~= Seq::<u64>::empty());
    Ok(())
}

/// Refreshes the record from the pool and the feed, without publishing.
///
/// The caller is admitted first, then the price is derived and folded into
/// the record. Where any step rejects the refresh, the record stays as it was.
pub fn compute_price(ctx: &mut ComputePrice, clock: &Clock) -> (r: Result<(), OracleError>)
    requires
        old(ctx).oracle_account.wf(),
    ensures
        match r {
            Ok(_) => {
                &&& compute_rejection(*old(ctx), *clock) is None
                &&& *final(ctx) == (ComputePrice {
                    oracle_account: old(ctx).oracle_account.updated(
                        reading_of(
                            old(ctx).pool_base_token,
                            old(ctx).pool_quote_token,
                            old(ctx).pyth_price_feed,
                        ),
                        *clock,
                    ),
                    ..*old(ctx)
                })
            },
            Err(e) => compute_rejection(*old(ctx), *clock) == Some(e) && *final(ctx) == *old(ctx),
        },
        final(ctx).oracle_account.wf(),
{
    check_gate(&ctx.oracle_account, &ctx.caller, clock)?;
    let (price_e6, token_sol_e9, sol_usd_e6, base_reserve, quote_reserve) = calculate_price(
        &ctx.pool,
        &ctx.pool_base_token,
        &ctx.pool_quote_token,
        &ctx.pyth_price_feed,
        clock,
        ctx.oracle_account.pool,
    )?;
    update_oracle_state(
        &mut ctx.oracle_account,
        price_e6,
        token_sol_e9,
        sol_usd_e6,
        base_reserve,
        quote_reserve,
        clock,
    );
    Ok(())
}

/// Refreshes the record from the pool and the feed and builds the message
/// that publishes the smoothed price to the consumer.
///
/// Returns the message for the new smoothed price at the time of `clock`.
/// Where any step rejects the refresh, the record stays as it was and there
/// is no message.
pub fn push_price(ctx: &mut PushPrice, clock: &Clock) -> (r: Result<Vec<u8>, OracleError>)
    requires
        old(ctx).oracle_account.wf(),
    ensures
        match r {
            Ok(data) => {
                &&& push_rejection(*old(ctx), *clock) is None
                &&& *final(ctx) == (PushPrice {
                    oracle_account: old(ctx).oracle_account.updated(
                        reading_of(
                            old(ctx).pool_base_token,
                            old(ctx).pool_quote_token,
                            old(ctx).pyth_price_feed,
                        ),
                        *clock,
                    ),
                    ..*old(ctx)
                })
                &&& data@ == push_payload(final(ctx).oracle_account.twap_e6, clock.unix_timestamp)
            },
            Err(e) => push_rejection(*old(ctx), *clock) == Some(e) && *final(ctx) == *old(ctx),
        },
        final(ctx).oracle_account.wf(),
{
    check_gate(&ctx.oracle_account, &ctx.caller, clock)?;
    if !is_percolator_program(&ctx.percolator_program.key) {
        return Err(OracleError::InvalidPercolatorProgram);
    }
    if !is_percolator_program(&ctx.slab.owner) {
        return Err(OracleError::InvalidSlabOwner);
    }
    let (price_e6, token_sol_e9, sol_usd_e6, base_reserve, quote_reserve) = calculate_price(
        &ctx.pool,
        &ctx.pool_base_token,
        &ctx.pool_quote_token,
        &ctx.pyth_price_feed,
        clock,
        ctx.oracle_account.pool,
    )?;
    update_oracle_state(
        &mut ctx.oracle_account,
        price_e6,
        token_sol_e9,
        sol_usd_e6,
        base_reserve,
        quote_reserve,
        clock,
    );
    Ok(encode_push_payload(ctx.oracle_account.twap_e6, clock.unix_timestamp))
}

/// A record that has just been bound meets the invariant and has an empty
/// history.
pub proof fn lemma_bound_record_is_empty(slab: Address, pool: Address, admin: Address, bump: u8)
    ensures
        PriceOracle::bound_to(slab, pool, admin, bump).wf(),
        PriceOracle::bound_to(slab, pool, admin, bump).history_count == 0,
        PriceOracle::bound_to(slab, pool, admin, bump).warming(),
{
    assert(PriceOracle::bound_to(slab, pool, admin, bump).filled() =~= Seq::<u64>::empty());
}

/// At most one refresh per tick. Once a refresh has succeeded at some tick, every later
/// attempt at the same or an earlier tick is rejected with
/// `SlotAlreadyPushed`, whoever makes it and whatever accounts it brings: of
/// two attempts that do not advance the tick, only the first can succeed.
pub proof fn lemma_sequence_gate(
    before: ComputePrice,
    first: Clock,
    after: ComputePrice,
    second: Clock,
)
    requires
        compute_rejection(before, first) is None,
        after.oracle_account == before.oracle_account.updated(
            reading_of(before.pool_base_token, before.pool_quote_token, before.pyth_price_feed),
            first,
        ),
        second.slot <= first.slot,
    ensures
        before.oracle_account.last_slot < after.oracle_account.last_slot == first.slot,
        compute_rejection(after, second) == Some(OracleError::SlotAlreadyPushed),
{
}

/// At most one publishing refresh per tick: as [`lemma_sequence_gate`].
pub proof fn lemma_push_sequence_gate(
    before: PushPrice,
    first: Clock,
    after: PushPrice,
    second: Clock,
)
    requires
        push_rejection(before, first) is None,
        after.oracle_account == before.oracle_account.updated(
            reading_of(before.pool_base_token, before.pool_quote_token, before.pyth_price_feed),
            first,
        ),
        second.slot <= first.slot,
    ensures
        before.oracle_account.last_slot < after.oracle_account.last_slot == first.slot,
        push_rejection(after, second) == Some(OracleError::SlotAlreadyPushed),
{
}

/// Warm-up is left once and for all: a ring that is full stays full.
pub proof fn lemma_steady_is_permanent(oracle: PriceOracle, reading: Reading, clock: Clock)
    requires
        oracle.wf(),
        !oracle.warming(),
    ensures
        !oracle.updated(reading, clock).warming(),
{
}

/// Admission during warm-up. Take a record that was bound with an empty
/// history and has since seen `refreshes`, and an attempt at a tick past the
/// last one. While fewer than [`TWAP_SIZE`] refreshes have succeeded, the
/// caller is admitted exactly when it is the admin, and any other caller
/// meets `WarmupAdminOnly`. From then on every caller is admitted. What
/// counts is the number of refreshes that the record has seen, not who made
/// them.
pub proof fn lemma_warmup_gate(
    start: PriceOracle,
    refreshes: Seq<(Reading, Clock)>,
    caller: Address,
    clock: Clock,
)
    requires
        start.wf(),
        start.history_count == 0,
        forall|i: int| 0 <= i < refreshes.len() ==> (#[trigger] refreshes[i]).0.0 > 0,
        replay(start, refreshes).last_slot < clock.slot,
    ensures
        refreshes.len() < TWAP_SIZE && caller != start.admin ==> gate_rejection(
            replay(start, refreshes),
            caller,
            clock,
        ) == Some(OracleError::WarmupAdminOnly),
        refreshes.len() < TWAP_SIZE && caller == start.admin ==> gate_rejection(
            replay(start, refreshes),
            caller,
            clock,
        ) is None,
        refreshes.len() >= TWAP_SIZE ==> gate_rejection(replay(start, refreshes), caller, clock)
            is None,
{
    lemma_history_after_refreshes(start, refreshes);
}

} // verus!
