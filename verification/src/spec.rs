//! The pallet as a mathematical state, and what each of its operations does to it.
use vstd::prelude::*;
use crate::types::{
    CallHash, Config, DispatchError, DispatchResultWithPostInfo, Effect, Error, Event,
    InvalidTransaction, Pays, PendingView, PostDispatchInfo, TransactionValidityError,
    TransactionValidityWithRefund, ValidTransaction,
};
use crate::weight::Weight;

verus! {

/// The pallet's state: its configuration, the set of whitelisted call hashes, and everything
/// it has asked of its surroundings so far (preimage requests and events), in order.
#[verifier::ext_equal]
pub struct PalletView {
    pub config: Config,
    pub whitelisted: Set<CallHash>,
    pub effects: Seq<Effect>,
}

/// How many requests for the preimage of `h` are outstanding after `effects`: one for each
/// request, less one for each release.
pub open spec fn outstanding_requests(effects: Seq<Effect>, h: CallHash) -> int
    decreases effects.len(),
{
    if effects.len() == 0 {
        0
    } else {
        let before = outstanding_requests(effects.drop_last(), h);
        match effects.last() {
            Effect::RequestPreimage(x) => if x == h { before + 1 } else { before },
            Effect::UnrequestPreimage(x) => if x == h { before - 1 } else { before },
            Effect::Deposit(_) => before,
        }
    }
}

/// The pallet holds exactly one request for the preimage of each whitelisted hash, and
/// none for any other hash.
pub open spec fn requests_match_whitelist(s: PalletView) -> bool {
    forall|h: CallHash|
        #[trigger] outstanding_requests(s.effects, h) == if s.whitelisted.contains(h) {
            1int
        } else {
            0int
        }
}

/// A state that a pallet can reach.
pub open spec fn valid_state(s: PalletView) -> bool {
    &&& s.whitelisted.finite()
    &&& requests_match_whitelist(s)
}

/// The state of a freshly built pallet.
pub open spec fn initial_state(config: Config) -> PalletView {
    PalletView { config, whitelisted: Set::empty(), effects: Seq::empty() }
}

/// `whitelist_call`: a refused request leaves the state as it was.
pub open spec fn whitelist_call_step(s: PalletView, origin_ok: bool, call_hash: CallHash) -> (
    PalletView,
    Result<(), DispatchError>,
) {
    if !origin_ok {
        (s, Err(DispatchError::BadOrigin))
    } else if s.whitelisted.contains(call_hash) {
        (s, Err(DispatchError::Module(Error::CallAlreadyWhitelisted)))
    } else {
        (
            PalletView {
                whitelisted: s.whitelisted.insert(call_hash),
                effects: s.effects.push(Effect::RequestPreimage(call_hash)).push(
                    Effect::Deposit(Event::CallWhitelisted { call_hash }),
                ),
                ..s
            },
            Ok(()),
        )
    }
}

/// `remove_whitelisted_call`.
pub open spec fn remove_whitelisted_call_step(
    s: PalletView,
    origin_ok: bool,
    call_hash: CallHash,
) -> (PalletView, Result<(), DispatchError>) {
    if !origin_ok {
        (s, Err(DispatchError::BadOrigin))
    } else if !s.whitelisted.contains(call_hash) {
        (s, Err(DispatchError::Module(Error::CallIsNotWhitelisted)))
    } else {
        (
            PalletView {
                whitelisted: s.whitelisted.remove(call_hash),
                effects: s.effects.push(Effect::UnrequestPreimage(call_hash)).push(
                    Effect::Deposit(Event::WhitelistedCallRemoved { call_hash }),
                ),
                ..s
            },
            Ok(()),
        )
    }
}

/// The state after a call's whitelisting is cleaned before the call is dispatched: the hash
/// leaves the whitelist and the request for its preimage is released.
pub open spec fn clean(s: PalletView, call_hash: CallHash) -> PalletView {
    PalletView {
        whitelisted: s.whitelisted.remove(call_hash),
        effects: s.effects.push(Effect::UnrequestPreimage(call_hash)),
        ..s
    }
}

/// The first check that a dispatch of a stored preimage fails, in the order in which the
/// pallet makes them: the origin, the whitelist, the preimage store, the decoding of the
/// preimage (`None` where it does not decode), and the weight witness.
pub open spec fn dispatch_check_failure(
    s: PalletView,
    origin_ok: bool,
    call_hash: CallHash,
    preimage_available: bool,
    decoded_call_weight: Option<Weight>,
    call_weight_witness: Weight,
) -> Option<DispatchError> {
    if !origin_ok {
        Some(DispatchError::BadOrigin)
    } else if !s.whitelisted.contains(call_hash) {
        Some(DispatchError::Module(Error::CallIsNotWhitelisted))
    } else if !preimage_available {
        Some(DispatchError::Module(Error::UnavailablePreImage))
    } else if decoded_call_weight is None {
        Some(DispatchError::Module(Error::UndecodableCall))
    } else if !decoded_call_weight->0.spec_all_lte(call_weight_witness) {
        Some(DispatchError::Module(Error::InvalidCallWeightWitness))
    } else {
        None
    }
}

/// `dispatch_whitelisted_call`, up to the dispatch of the call.
pub open spec fn dispatch_whitelisted_call_step(
    s: PalletView,
    origin_ok: bool,
    call_hash: CallHash,
    preimage_available: bool,
    decoded_call_weight: Option<Weight>,
    call_weight_witness: Weight,
    extrinsic_weight: Weight,
) -> (PalletView, Result<PendingView, DispatchError>) {
    match dispatch_check_failure(
        s,
        origin_ok,
        call_hash,
        preimage_available,
        decoded_call_weight,
        call_weight_witness,
    ) {
        Some(e) => (s, Err(e)),
        None => (clean(s, call_hash), Ok(PendingView { call_hash, extrinsic_weight })),
    }
}

/// `dispatch_whitelisted_call` with the runtime's own steps handed in: the preimage of
/// `call_hash` is fetched, with the length hint `Some(call_encoded_len)`, only once the origin
/// and whitelist checks pass, and decoded only once fetched. The outcome is
/// that of `dispatch_whitelisted_call_step` on what those steps gave.
pub open spec fn dispatch_with_loaders<F, D>(
    s: PalletView,
    t: PalletView,
    r: Result<PendingView, DispatchError>,
    origin_ok: bool,
    call_hash: CallHash,
    call_encoded_len: u32,
    call_weight_witness: Weight,
    extrinsic_weight: Weight,
    fetch: F,
    decode: D,
) -> bool where
    F: FnOnce(CallHash, Option<u32>) -> Result<Vec<u8>, DispatchError>,
    D: FnOnce(Vec<u8>) -> Option<Weight>,
 {
    if !origin_ok || !s.whitelisted.contains(call_hash) {
        (t, r) == dispatch_whitelisted_call_step(
            s,
            origin_ok,
            call_hash,
            false,
            None,
            call_weight_witness,
            extrinsic_weight,
        )
    } else {
        exists|fetched: Result<Vec<u8>, DispatchError>|
            #[trigger] call_ensures(fetch, (call_hash, Some(call_encoded_len)), fetched) && match fetched {
                Err(_) => (t, r) == dispatch_whitelisted_call_step(
                    s,
                    origin_ok,
                    call_hash,
                    false,
                    None,
                    call_weight_witness,
                    extrinsic_weight,
                ),
                Ok(bytes) => exists|decoded: Option<Weight>|
                    #[trigger] call_ensures(decode, (bytes,), decoded) && (t, r)
                        == dispatch_whitelisted_call_step(
                        s,
                        origin_ok,
                        call_hash,
                        true,
                        decoded,
                        call_weight_witness,
                        extrinsic_weight,
                    ),
            }
    }
}

/// `dispatch_whitelisted_call_with_preimage`, up to the dispatch of the call, given the hash of
/// the call handed in.
pub open spec fn dispatch_with_hash_step(
    s: PalletView,
    origin_ok: bool,
    call_hash: CallHash,
    extrinsic_weight: Weight,
) -> (PalletView, Result<PendingView, DispatchError>) {
    if !origin_ok {
        (s, Err(DispatchError::BadOrigin))
    } else if !s.whitelisted.contains(call_hash) {
        (s, Err(DispatchError::Module(Error::CallIsNotWhitelisted)))
    } else {
        (clean(s, call_hash), Ok(PendingView { call_hash, extrinsic_weight }))
    }
}

/// The weight that a dispatched call reports having used, whether it succeeded or failed.
pub open spec fn reported_weight(result: DispatchResultWithPostInfo) -> Option<Weight> {
    match result {
        Ok(info) => info.actual_weight,
        Err(e) => e.post_info.actual_weight,
    }
}

/// What a dispatching extrinsic reports: the call's reported weight plus the extrinsic's own,
/// where the call reported one.
pub open spec fn dispatch_post_info(
    pending: PendingView,
    result: DispatchResultWithPostInfo,
) -> PostDispatchInfo {
    PostDispatchInfo {
        actual_weight: match reported_weight(result) {
            Some(w) => Some(w.spec_saturating_add(pending.extrinsic_weight)),
            None => None,
        },
        pays_fee: Pays::Yes,
    }
}

/// After the call ran: the pallet deposits an event with its result.
pub open spec fn finish_dispatch_step(
    s: PalletView,
    pending: PendingView,
    result: DispatchResultWithPostInfo,
) -> (PalletView, PostDispatchInfo) {
    (
        PalletView {
            effects: s.effects.push(
                Effect::Deposit(
                    Event::WhitelistedCallDispatched { call_hash: pending.call_hash, result },
                ),
            ),
            ..s
        },
        dispatch_post_info(pending, result),
    )
}

/// Whether the authorization callbacks admit an unsigned transaction dispatching the call with
/// this hash.
pub open spec fn authorize_admits(s: PalletView, call_hash: CallHash) -> bool {
    s.config.enable_authorized_dispatch && s.whitelisted.contains(call_hash)
}

/// The transaction that an admitting authorization callback returns: default validity that
/// provides the encoded call hash as its tag.
pub open spec fn admitted_transaction(vt: ValidTransaction, call_hash: CallHash) -> bool {
    &&& vt.priority == 0
    &&& vt.requires@.len() == 0
    &&& vt.provides@.len() == 1
    &&& vt.provides@[0]@ == call_hash@
    &&& vt.longevity == u64::MAX
    &&& vt.propagate
}

/// What an authorization callback returns for the call with this hash.
pub open spec fn authorize_outcome(
    s: PalletView,
    call_hash: CallHash,
    outcome: TransactionValidityWithRefund,
) -> bool {
    match outcome {
        Ok((vt, refund)) => {
            &&& authorize_admits(s, call_hash)
            &&& admitted_transaction(vt, call_hash)
            &&& refund == Weight { ref_time: 0, proof_size: 0 }
        },
        Err(e) => {
            &&& !authorize_admits(s, call_hash)
            &&& e == TransactionValidityError::Invalid(InvalidTransaction::Call)
        },
    }
}

} // verus!
