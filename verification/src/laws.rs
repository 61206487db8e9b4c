//! Laws of the whitelist pallet that relate its operations.
use vstd::prelude::*;
use crate::spec::{
    authorize_admits, dispatch_post_info, dispatch_whitelisted_call_step,
    dispatch_with_hash_step, finish_dispatch_step, outstanding_requests,
    remove_whitelisted_call_step, valid_state, whitelist_call_step, PalletView,
};
use crate::types::{CallHash, DispatchError, DispatchResultWithPostInfo, Error, PendingView};
use crate::weight::Weight;

verus! {

/// Whitelisting a hash that was not whitelisted and then removing it, both by an allowed
/// origin, succeeds twice and leaves the whitelist as it was.
pub proof fn whitelist_then_remove_restores(s: PalletView, call_hash: CallHash)
    requires
        !s.whitelisted.contains(call_hash),
    ensures
        whitelist_call_step(s, true, call_hash).1 is Ok,
        remove_whitelisted_call_step(whitelist_call_step(s, true, call_hash).0, true, call_hash).1 is Ok,
        remove_whitelisted_call_step(
            whitelist_call_step(s, true, call_hash).0,
            true,
            call_hash,
        ).0.whitelisted == s.whitelisted,
        remove_whitelisted_call_step(
            whitelist_call_step(s, true, call_hash).0,
            true,
            call_hash,
        ).0.config == s.config,
{
    let s1 = whitelist_call_step(s, true, call_hash).0;
    let s2 = remove_whitelisted_call_step(s1, true, call_hash).0;
    assert(s2.whitelisted =~= s.whitelisted);
}

/// A refused operation changes nothing: whenever `whitelist_call`, `remove_whitelisted_call`
/// or either dispatch fails, the state after it is the state before it.
pub proof fn refusals_change_nothing(
    s: PalletView,
    origin_ok: bool,
    call_hash: CallHash,
    preimage_available: bool,
    decoded_call_weight: Option<Weight>,
    call_weight_witness: Weight,
    extrinsic_weight: Weight,
)
    ensures
        whitelist_call_step(s, origin_ok, call_hash).1 is Err ==> whitelist_call_step(
            s,
            origin_ok,
            call_hash,
        ).0 == s,
        remove_whitelisted_call_step(s, origin_ok, call_hash).1 is Err
            ==> remove_whitelisted_call_step(s, origin_ok, call_hash).0 == s,
        dispatch_whitelisted_call_step(
            s,
            origin_ok,
            call_hash,
            preimage_available,
            decoded_call_weight,
            call_weight_witness,
            extrinsic_weight,
        ).1 is Err ==> dispatch_whitelisted_call_step(
            s,
            origin_ok,
            call_hash,
            preimage_available,
            decoded_call_weight,
            call_weight_witness,
            extrinsic_weight,
        ).0 == s,
        dispatch_with_hash_step(s, origin_ok, call_hash, extrinsic_weight).1 is Err
            ==> dispatch_with_hash_step(s, origin_ok, call_hash, extrinsic_weight).0 == s,
{
}

/// One operation that changes the pallet, with what the runtime hands in for it. A dispatch of
/// a call handed in whole is `DispatchWithHash` with the hash of the call's encoding; the
/// authorization callbacks change nothing and are not listed.
pub enum Operation {
    WhitelistCall { origin_ok: bool, call_hash: CallHash },
    RemoveWhitelistedCall { origin_ok: bool, call_hash: CallHash },
    DispatchWhitelistedCall {
        origin_ok: bool,
        call_hash: CallHash,
        preimage_available: bool,
        decoded_call_weight: Option<Weight>,
        call_weight_witness: Weight,
        extrinsic_weight: Weight,
    },
    DispatchWithHash { origin_ok: bool, call_hash: CallHash, extrinsic_weight: Weight },
    FinishDispatch { pending: PendingView, result: DispatchResultWithPostInfo },
}

/// The state after one operation.
pub open spec fn apply(s: PalletView, op: Operation) -> PalletView {
    match op {
        Operation::WhitelistCall { origin_ok, call_hash } => whitelist_call_step(
            s,
            origin_ok,
            call_hash,
        ).0,
        Operation::RemoveWhitelistedCall { origin_ok, call_hash } => remove_whitelisted_call_step(
            s,
            origin_ok,
            call_hash,
        ).0,
        Operation::DispatchWhitelistedCall {
            origin_ok,
            call_hash,
            preimage_available,
            decoded_call_weight,
            call_weight_witness,
            extrinsic_weight,
        } => dispatch_whitelisted_call_step(
            s,
            origin_ok,
            call_hash,
            preimage_available,
            decoded_call_weight,
            call_weight_witness,
            extrinsic_weight,
        ).0,
        Operation::DispatchWithHash { origin_ok, call_hash, extrinsic_weight } =>
            dispatch_with_hash_step(s, origin_ok, call_hash, extrinsic_weight).0,
        Operation::FinishDispatch { pending, result } => finish_dispatch_step(
            s,
            pending,
            result,
        ).0,
    }
}

/// The state after a sequence of operations, in order.
pub open spec fn run(s: PalletView, ops: Seq<Operation>) -> PalletView
    decreases ops.len(),
{
    if ops.len() == 0 {
        s
    } else {
        apply(run(s, ops.drop_last()), ops.last())
    }
}

/// Whether the operation is a `whitelist_call` of `h` that succeeds in state `s`.
pub open spec fn readmits(s: PalletView, op: Operation, h: CallHash) -> bool {
    match op {
        Operation::WhitelistCall { origin_ok, call_hash } => call_hash == h
            && whitelist_call_step(s, origin_ok, h).1 is Ok,
        _ => false,
    }
}

/// No operation of the sequence, run from `s`, is a successful `whitelist_call` of `h`.
pub open spec fn no_readmission(s: PalletView, ops: Seq<Operation>, h: CallHash) -> bool {
    forall|i: int| 0 <= i < ops.len() ==> !#[trigger] readmits(run(s, ops.take(i)), ops[i], h)
}

/// A hash out of the whitelist stays out under every operation but a successful
/// `whitelist_call` of that hash.
pub proof fn out_of_whitelist_stays_out(s: PalletView, op: Operation, h: CallHash)
    requires
        !s.whitelisted.contains(h),
        !readmits(s, op, h),
    ensures
        !apply(s, op).whitelisted.contains(h),
{
}

/// A hash out of the whitelist stays out across any sequence of operations in which no
/// `whitelist_call` of that hash succeeds.
pub proof fn stays_out_across(s: PalletView, ops: Seq<Operation>, h: CallHash)
    requires
        !s.whitelisted.contains(h),
        no_readmission(s, ops, h),
    ensures
        !run(s, ops).whitelisted.contains(h),
    decreases ops.len(),
{
    if ops.len() > 0 {
        let init = ops.drop_last();
        assert forall|i: int| 0 <= i < init.len() implies !#[trigger] readmits(
            run(s, init.take(i)),
            init[i],
            h,
        ) by {
            assert(init.take(i) =~= ops.take(i));
            assert(init[i] == ops[i]);
            assert(!readmits(run(s, ops.take(i)), ops[i], h));
        }
        stays_out_across(s, init, h);
        let k = ops.len() - 1;
        assert(ops.take(k) =~= init);
        assert(!readmits(run(s, ops.take(k)), ops[k], h));
        out_of_whitelist_stays_out(run(s, init), ops.last(), h);
    }
}

/// A whitelisting is used up by one dispatch: once a dispatch of a hash has passed its checks
/// (by either extrinsic), and whatever operations follow so long as no `whitelist_call` of the
/// hash succeeds among them, another dispatch of the same hash (by either extrinsic) is refused,
/// with `BadOrigin` or `CallIsNotWhitelisted`, and changes nothing.
pub proof fn dispatch_at_most_once(
    s: PalletView,
    first: Operation,
    between: Seq<Operation>,
    call_hash: CallHash,
    second_origin_ok: bool,
    second_preimage_available: bool,
    second_decoded_call_weight: Option<Weight>,
    second_call_weight_witness: Weight,
    second_extrinsic_weight: Weight,
)
    requires
        match first {
            Operation::DispatchWhitelistedCall {
                origin_ok,
                call_hash: h,
                preimage_available,
                decoded_call_weight,
                call_weight_witness,
                extrinsic_weight,
            } => h == call_hash && dispatch_whitelisted_call_step(
                s,
                origin_ok,
                h,
                preimage_available,
                decoded_call_weight,
                call_weight_witness,
                extrinsic_weight,
            ).1 is Ok,
            Operation::DispatchWithHash { origin_ok, call_hash: h, extrinsic_weight } => h
                == call_hash && dispatch_with_hash_step(s, origin_ok, h, extrinsic_weight).1 is Ok,
            _ => false,
        },
        no_readmission(apply(s, first), between, call_hash),
    ensures
        ({
            let later = run(apply(s, first), between);
            let refusal = if second_origin_ok {
                DispatchError::Module(Error::CallIsNotWhitelisted)
            } else {
                DispatchError::BadOrigin
            };
            let by_preimage = dispatch_whitelisted_call_step(
                later,
                second_origin_ok,
                call_hash,
                second_preimage_available,
                second_decoded_call_weight,
                second_call_weight_witness,
                second_extrinsic_weight,
            );
            let by_hash = dispatch_with_hash_step(
                later,
                second_origin_ok,
                call_hash,
                second_extrinsic_weight,
            );
            &&& !later.whitelisted.contains(call_hash)
            &&& by_preimage.1 == Err::<PendingView, DispatchError>(refusal)
            &&& by_preimage.0 == later
            &&& by_hash.1 == Err::<PendingView, DispatchError>(refusal)
            &&& by_hash.0 == later
        }),
{
    stays_out_across(apply(s, first), between, call_hash);
}

/// With a preimage handler that never has a preimage, such as `NoopPreimages`, a dispatch of a
/// stored preimage never passes its checks and changes nothing.
pub proof fn unavailable_preimage_blocks_stored_dispatch(
    s: PalletView,
    origin_ok: bool,
    call_hash: CallHash,
    decoded_call_weight: Option<Weight>,
    call_weight_witness: Weight,
    extrinsic_weight: Weight,
)
    ensures
        ({
            let step = dispatch_whitelisted_call_step(
                s,
                origin_ok,
                call_hash,
                false,
                decoded_call_weight,
                call_weight_witness,
                extrinsic_weight,
            );
            &&& step.1 is Err
            &&& step.0 == s
            &&& origin_ok && s.whitelisted.contains(call_hash) ==> step.1
                == Err::<PendingView, DispatchError>(
                DispatchError::Module(Error::UnavailablePreImage),
            )
        }),
{
}

/// The authorization callbacks admit an unsigned dispatch exactly where authorized dispatch is
/// enabled and a dispatch of the call by an allowed origin would pass its checks.
pub proof fn authorize_agrees_with_dispatch(
    s: PalletView,
    call_hash: CallHash,
    extrinsic_weight: Weight,
)
    ensures
        authorize_admits(s, call_hash) <==> (s.config.enable_authorized_dispatch
            && dispatch_with_hash_step(s, true, call_hash, extrinsic_weight).1 is Ok),
{
}

/// In every valid state a preimage is requested by the pallet exactly while its hash is
/// whitelisted: one outstanding request per whitelisted hash, none for any other.
pub proof fn requested_exactly_while_whitelisted(s: PalletView, call_hash: CallHash)
    requires
        valid_state(s),
    ensures
        outstanding_requests(s.effects, call_hash) >= 0,
        outstanding_requests(s.effects, call_hash) > 0 <==> s.whitelisted.contains(call_hash),
{
    assert(outstanding_requests(s.effects, call_hash) == if s.whitelisted.contains(call_hash) {
        1int
    } else {
        0int
    });
}

/// A dispatching extrinsic never reports less weight than the dispatched call reported: where
/// the call reported a weight, the extrinsic reports one at least as large in each component.
pub proof fn reported_weight_covers_call(pending: PendingView, result: DispatchResultWithPostInfo)
    ensures
        ({
            let call_weight = match result {
                Ok(info) => info.actual_weight,
                Err(e) => e.post_info.actual_weight,
            };
            let info = dispatch_post_info(pending, result);
            &&& (call_weight is None <==> info.actual_weight is None)
            &&& call_weight is Some ==> call_weight->0.spec_all_lte(info.actual_weight->0)
            &&& call_weight is Some ==> pending.extrinsic_weight.spec_all_lte(
                info.actual_weight->0,
            )
        }),
{
}

/// What a write gives back to a read: after `whitelist_call` by an allowed origin the hash is
/// whitelisted (whether it was before or not), and after `remove_whitelisted_call` by an allowed
/// origin it is not; no other hash changes membership.
pub proof fn membership_after_writes(s: PalletView, call_hash: CallHash, other: CallHash)
    requires
        other != call_hash,
    ensures
        whitelist_call_step(s, true, call_hash).0.whitelisted.contains(call_hash),
        !remove_whitelisted_call_step(s, true, call_hash).0.whitelisted.contains(call_hash),
        whitelist_call_step(s, true, call_hash).0.whitelisted.contains(other)
            == s.whitelisted.contains(other),
        remove_whitelisted_call_step(s, true, call_hash).0.whitelisted.contains(other)
            == s.whitelisted.contains(other),
{
}

/// An origin refused by the configured origin check is answered `BadOrigin`, and nothing
/// changes, whatever the state, the configuration, the whitelist, the hash and whatever the
/// preimage handler and the decoder gave: for `whitelist_call`, `remove_whitelisted_call` and
/// both dispatches.
pub proof fn refused_origin_is_bad_origin(
    s: PalletView,
    call_hash: CallHash,
    preimage_available: bool,
    decoded_call_weight: Option<Weight>,
    call_weight_witness: Weight,
    extrinsic_weight: Weight,
)
    ensures
        whitelist_call_step(s, false, call_hash) == (s, Err::<(), DispatchError>(DispatchError::BadOrigin)),
        remove_whitelisted_call_step(s, false, call_hash) == (
            s,
            Err::<(), DispatchError>(DispatchError::BadOrigin),
        ),
        dispatch_whitelisted_call_step(
            s,
            false,
            call_hash,
            preimage_available,
            decoded_call_weight,
            call_weight_witness,
            extrinsic_weight,
        ) == (s, Err::<PendingView, DispatchError>(DispatchError::BadOrigin)),
        dispatch_with_hash_step(s, false, call_hash, extrinsic_weight) == (
            s,
            Err::<PendingView, DispatchError>(DispatchError::BadOrigin),
        ),
{
}

/// `whitelist_call` succeeds exactly for an allowed origin and a hash not yet whitelisted, and
/// `remove_whitelisted_call` exactly for an allowed origin and a whitelisted hash, whatever the
/// configuration.
pub proof fn whitelist_and_remove_succeed_exactly(s: PalletView, origin_ok: bool, call_hash: CallHash)
    ensures
        whitelist_call_step(s, origin_ok, call_hash).1 is Ok <==> origin_ok
            && !s.whitelisted.contains(call_hash),
        remove_whitelisted_call_step(s, origin_ok, call_hash).1 is Ok <==> origin_ok
            && s.whitelisted.contains(call_hash),
{
}

/// A dispatch of a stored preimage passes its checks only where every check holds: an allowed
/// origin, a whitelisted hash, an available preimage that decodes, and a decoded call weight that
/// the witness covers in each component; the hash then leaves the whitelist and the
/// configuration is kept. A dispatch of a call handed in whole passes exactly for an allowed
/// origin and a whitelisted hash.
pub proof fn dispatch_passes_only_every_check(
    s: PalletView,
    origin_ok: bool,
    call_hash: CallHash,
    preimage_available: bool,
    decoded_call_weight: Option<Weight>,
    call_weight_witness: Weight,
    extrinsic_weight: Weight,
)
    ensures
        ({
            let step = dispatch_whitelisted_call_step(
                s,
                origin_ok,
                call_hash,
                preimage_available,
                decoded_call_weight,
                call_weight_witness,
                extrinsic_weight,
            );
            step.1 is Ok ==> {
                &&& origin_ok
                &&& s.whitelisted.contains(call_hash)
                &&& preimage_available
                &&& decoded_call_weight is Some
                &&& decoded_call_weight->0.ref_time <= call_weight_witness.ref_time
                &&& decoded_call_weight->0.proof_size <= call_weight_witness.proof_size
                &&& !step.0.whitelisted.contains(call_hash)
                &&& step.0.config == s.config
                &&& step.1->Ok_0.call_hash == call_hash
            }
        }),
        dispatch_with_hash_step(s, origin_ok, call_hash, extrinsic_weight).1 is Ok <==> origin_ok
            && s.whitelisted.contains(call_hash),
{
}

/// A decoded call heavier than its witness in either component is refused with
/// `InvalidCallWeightWitness` once the origin, whitelist and preimage checks pass, and is never
/// dispatched: the state is unchanged.
pub proof fn overweight_call_is_refused(
    s: PalletView,
    origin_ok: bool,
    call_hash: CallHash,
    preimage_available: bool,
    call_weight: Weight,
    call_weight_witness: Weight,
    extrinsic_weight: Weight,
)
    requires
        call_weight.ref_time > call_weight_witness.ref_time || call_weight.proof_size
            > call_weight_witness.proof_size,
    ensures
        ({
            let step = dispatch_whitelisted_call_step(
                s,
                origin_ok,
                call_hash,
                preimage_available,
                Some(call_weight),
                call_weight_witness,
                extrinsic_weight,
            );
            &&& step.1 is Err
            &&& step.0 == s
            &&& origin_ok && s.whitelisted.contains(call_hash) && preimage_available ==> step.1
                == Err::<PendingView, DispatchError>(
                DispatchError::Module(Error::InvalidCallWeightWitness),
            )
        }),
{
}

} // verus!
