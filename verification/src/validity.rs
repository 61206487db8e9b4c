//! Every operation keeps the pallet in a valid state: one outstanding preimage request for each
//! whitelisted hash, and none for any other.
use vstd::prelude::*;
use crate::spec::{
    clean, dispatch_whitelisted_call_step, dispatch_with_hash_step, finish_dispatch_step,
    initial_state, outstanding_requests, remove_whitelisted_call_step, requests_match_whitelist,
    valid_state, whitelist_call_step, PalletView,
};
use crate::types::{CallHash, Config, DispatchResultWithPostInfo, Effect, PendingView};
use crate::weight::Weight;

verus! {

/// How one effect changes the number of outstanding requests for the preimage of `h`.
pub open spec fn request_delta(e: Effect, h: CallHash) -> int {
    match e {
        Effect::RequestPreimage(x) => if x == h { 1 } else { 0 },
        Effect::UnrequestPreimage(x) => if x == h { -1 } else { 0 },
        Effect::Deposit(_) => 0,
    }
}

proof fn lemma_outstanding_push(effects: Seq<Effect>, e: Effect, h: CallHash)
    ensures
        outstanding_requests(effects.push(e), h) == outstanding_requests(effects, h)
            + request_delta(e, h),
{
    assert(effects.push(e).drop_last() =~= effects);
}

/// A freshly built pallet is in a valid state.
pub proof fn initial_state_is_valid(config: Config)
    ensures
        valid_state(initial_state(config)),
{
}

/// Deposit-only effects leave every request count unchanged.
proof fn lemma_deposit_keeps_counts(s: PalletView, e: Effect)
    requires
        e is Deposit,
    ensures
        forall|h: CallHash|
            #[trigger] outstanding_requests(s.effects.push(e), h) == outstanding_requests(
                s.effects,
                h,
            ),
{
    assert forall|h: CallHash| #[trigger]
        outstanding_requests(s.effects.push(e), h) == outstanding_requests(s.effects, h) by {
        lemma_outstanding_push(s.effects, e, h);
    }
}

/// Cleaning a whitelisted hash keeps the state valid.
pub proof fn clean_keeps_valid(s: PalletView, call_hash: CallHash)
    requires
        valid_state(s),
        s.whitelisted.contains(call_hash),
    ensures
        valid_state(clean(s, call_hash)),
{
    let t = clean(s, call_hash);
    assert forall|h: CallHash| #[trigger]
        outstanding_requests(t.effects, h) == if t.whitelisted.contains(h) {
            1int
        } else {
            0int
        } by {
        lemma_outstanding_push(s.effects, Effect::UnrequestPreimage(call_hash), h);
        assert(outstanding_requests(s.effects, h) == if s.whitelisted.contains(h) {
            1int
        } else {
            0int
        });
    }
}

/// `whitelist_call` keeps the state valid.
pub proof fn whitelist_call_keeps_valid(s: PalletView, origin_ok: bool, call_hash: CallHash)
    requires
        valid_state(s),
    ensures
        valid_state(whitelist_call_step(s, origin_ok, call_hash).0),
{
    let t = whitelist_call_step(s, origin_ok, call_hash).0;
    if origin_ok && !s.whitelisted.contains(call_hash) {
        let e1 = Effect::RequestPreimage(call_hash);
        let mid = s.effects.push(e1);
        assert forall|h: CallHash| #[trigger]
            outstanding_requests(t.effects, h) == if t.whitelisted.contains(h) {
                1int
            } else {
                0int
            } by {
            lemma_outstanding_push(s.effects, e1, h);
            lemma_outstanding_push(
                mid,
                Effect::Deposit(crate::types::Event::CallWhitelisted { call_hash }),
                h,
            );
            assert(outstanding_requests(s.effects, h) == if s.whitelisted.contains(h) {
                1int
            } else {
                0int
            });
        }
    }
}

/// `remove_whitelisted_call` keeps the state valid.
pub proof fn remove_whitelisted_call_keeps_valid(
    s: PalletView,
    origin_ok: bool,
    call_hash: CallHash,
)
    requires
        valid_state(s),
    ensures
        valid_state(remove_whitelisted_call_step(s, origin_ok, call_hash).0),
{
    if origin_ok && s.whitelisted.contains(call_hash) {
        clean_keeps_valid(s, call_hash);
        let c = clean(s, call_hash);
        let e = Effect::Deposit(crate::types::Event::WhitelistedCallRemoved { call_hash });
        lemma_deposit_keeps_counts(c, e);
        let t = remove_whitelisted_call_step(s, origin_ok, call_hash).0;
        assert(t.effects == c.effects.push(e));
        assert forall|h: CallHash| #[trigger]
            outstanding_requests(t.effects, h) == if t.whitelisted.contains(h) {
                1int
            } else {
                0int
            } by {
            assert(outstanding_requests(c.effects, h) == if c.whitelisted.contains(h) {
                1int
            } else {
                0int
            });
        }
    }
}

/// `dispatch_whitelisted_call` keeps the state valid.
pub proof fn dispatch_whitelisted_call_keeps_valid(
    s: PalletView,
    origin_ok: bool,
    call_hash: CallHash,
    preimage_available: bool,
    decoded_call_weight: Option<Weight>,
    call_weight_witness: Weight,
    extrinsic_weight: Weight,
)
    requires
        valid_state(s),
    ensures
        valid_state(
            dispatch_whitelisted_call_step(
                s,
                origin_ok,
                call_hash,
                preimage_available,
                decoded_call_weight,
                call_weight_witness,
                extrinsic_weight,
            ).0,
        ),
{
    if origin_ok && s.whitelisted.contains(call_hash) {
        clean_keeps_valid(s, call_hash);
    }
}

/// Dispatching a call handed in whole keeps the state valid.
pub proof fn dispatch_with_hash_keeps_valid(
    s: PalletView,
    origin_ok: bool,
    call_hash: CallHash,
    extrinsic_weight: Weight,
)
    requires
        valid_state(s),
    ensures
        valid_state(dispatch_with_hash_step(s, origin_ok, call_hash, extrinsic_weight).0),
{
    if origin_ok && s.whitelisted.contains(call_hash) {
        clean_keeps_valid(s, call_hash);
    }
}

/// Recording the result of a dispatched call keeps the state valid.
pub proof fn finish_dispatch_keeps_valid(
    s: PalletView,
    pending: PendingView,
    result: DispatchResultWithPostInfo,
)
    requires
        valid_state(s),
    ensures
        valid_state(finish_dispatch_step(s, pending, result).0),
{
    lemma_deposit_keeps_counts(
        s,
        Effect::Deposit(
            crate::types::Event::WhitelistedCallDispatched { call_hash: pending.call_hash, result },
        ),
    );
}

} // verus!
