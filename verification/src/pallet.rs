//! The whitelist pallet: its storage, its extrinsics and its authorization callbacks.
use vstd::prelude::*;
use crate::hashing::{blake2_256_of, call_hash_of, call_hash_spec, encode_call_hash};
use crate::spec::{
    authorize_outcome, clean, dispatch_whitelisted_call_step, dispatch_with_loaders,
    dispatch_with_hash_step, finish_dispatch_step, initial_state, remove_whitelisted_call_step,
    valid_state, whitelist_call_step, PalletView,
};
use crate::types::{
    CallHash, Config, DispatchError, DispatchResultWithPostInfo, Effect, Error, Event,
    InvalidTransaction, Pays, PendingDispatch, PendingView, PostDispatchInfo, TransactionValidityError,
    TransactionValidityWithRefund, ValidTransaction, pending_result_view,
};
use crate::validity::{
    dispatch_whitelisted_call_keeps_valid, dispatch_with_hash_keeps_valid,
    finish_dispatch_keeps_valid, initial_state_is_valid, remove_whitelisted_call_keeps_valid,
    whitelist_call_keeps_valid,
};
use crate::weight::Weight;

verus! {

/// Whether two call hashes are the same.
fn hash_eq(a: &CallHash, b: &CallHash) -> (same: bool)
    ensures
        same == (*a == *b),
{
    let mut i: usize = 0;
    while i < 32
        invariant
            0 <= i <= 32,
            forall|j: int| 0 <= j < i ==> a[j] == b[j],
        decreases 32 - i,
    {
        if a[i] != b[i] {
            return false;
        }
        i += 1;
    }
    assert(*a =~= *b);
    true
}

/// The whitelist pallet: the whitelisted call hashes (its storage map), and the record of what
/// it has asked of the preimage handler and of the event log.
pub struct Pallet {
    config: Config,
    whitelisted: Vec<CallHash>,
    effects: Vec<Effect>,
}

impl View for Pallet {
    type V = PalletView;

    closed spec fn view(&self) -> PalletView {
        PalletView {
            config: self.config,
            whitelisted: self.whitelisted@.to_set(),
            effects: self.effects@,
        }
    }
}

impl Pallet {
    /// Well-formed: the store holds each hash once, and the state is valid.
    pub closed spec fn wf(&self) -> bool {
        &&& self.whitelisted@.no_duplicates()
        &&& valid_state(self@)
    }

    /// The state of a well-formed pallet is valid.
    pub proof fn lemma_wf_is_valid(&self)
        requires
            self.wf(),
        ensures
            valid_state(self@),
    {
    }

    /// A pallet with the given configuration and an empty whitelist.
    pub fn new(config: Config) -> (p: Pallet)
        ensures
            p.wf(),
            p@ == initial_state(config),
    {
        let p = Pallet { config, whitelisted: Vec::new(), effects: Vec::new() };
        proof {
            initial_state_is_valid(config);
            assert(p@.whitelisted =~= Set::<CallHash>::empty());
        }
        p
    }

    /// The configuration the pallet was built with.
    pub fn config(&self) -> (c: Config)
        ensures
            c == self@.config,
    {
        self.config
    }

    /// Everything the pallet has asked of its surroundings so far, in order.
    pub fn effects(&self) -> (e: &Vec<Effect>)
        ensures
            e@ == self@.effects,
    {
        &self.effects
    }

    /// The whitelisted call hashes, each once.
    pub fn whitelisted_calls(&self) -> (calls: &Vec<CallHash>)
        requires
            self.wf(),
        ensures
            calls@.no_duplicates(),
            calls@.to_set() == self@.whitelisted,
    {
        &self.whitelisted
    }

    /// Where the hash stands in the store, if it is there.
    fn find(&self, call_hash: &CallHash) -> (pos: Option<usize>)
        ensures
            match pos {
                Some(i) => i < self.whitelisted@.len() && self.whitelisted@[i as int] == *call_hash,
                None => !self.whitelisted@.contains(*call_hash),
            },
    {
        let mut i: usize = 0;
        while i < self.whitelisted.len()
            invariant
                0 <= i <= self.whitelisted@.len(),
                forall|j: int| 0 <= j < i ==> self.whitelisted@[j] != *call_hash,
            decreases self.whitelisted@.len() - i,
        {
            if hash_eq(&self.whitelisted[i], call_hash) {
                return Some(i);
            }
            i += 1;
        }
        None
    }

    /// Whether the call hash is whitelisted (`WhitelistedCall::contains_key`).
    pub fn contains(&self, call_hash: &CallHash) -> (found: bool)
        ensures
            found == self@.whitelisted.contains(*call_hash),
    {
        self.find(call_hash).is_some()
    }

    /// Takes the hash at `pos` out of the store and releases the request for its preimage.
    fn clean_at(&mut self, pos: usize, Ghost(call_hash): Ghost<CallHash>)
        requires
            old(self).wf(),
            pos < old(self).whitelisted@.len(),
            old(self).whitelisted@[pos as int] == call_hash,
        ensures
            final(self).whitelisted@.no_duplicates(),
            final(self)@ == clean(old(self)@, call_hash),
    {
        let ghost old_seq = self.whitelisted@;
        let h = self.whitelisted.remove(pos);
        self.effects.push(Effect::UnrequestPreimage(h));
        proof {
            old_seq.remove_ensures(pos as int);
            let new_seq = self.whitelisted@;
            assert(new_seq == old_seq.remove(pos as int));
            assert forall|a: int, b: int|
                0 <= a < new_seq.len() && 0 <= b < new_seq.len() && a != b implies new_seq[a]
                != new_seq[b] by {
                let a2 = if a < pos { a } else { a + 1 };
                let b2 = if b < pos { b } else { b + 1 };
                assert(new_seq[a] == old_seq[a2]);
                assert(new_seq[b] == old_seq[b2]);
            }
            assert forall|x: CallHash| new_seq.contains(x) <==> (old_seq.contains(x) && x
                != call_hash) by {
                if new_seq.contains(x) {
                    let a = choose|a: int| 0 <= a < new_seq.len() && new_seq[a] == x;
                    let a2 = if a < pos { a } else { a + 1 };
                    assert(old_seq[a2] == x);
                    assert(a2 != pos);
                }
                if old_seq.contains(x) && x != call_hash {
                    let a = choose|a: int| 0 <= a < old_seq.len() && old_seq[a] == x;
                    assert(a != pos);
                    let a2 = if a < pos { a } else { a - 1 };
                    assert(new_seq[a2] == x);
                }
            }
            assert(self@.whitelisted =~= old(self)@.whitelisted.remove(call_hash));
        }
    }

    /// Whitelists the hash of a call (`whitelist_call`). `origin_ok` is whether the origin
    /// passed the configured `WhitelistOrigin`. The pallet requests the call's preimage and
    /// deposits `CallWhitelisted`.
    pub fn whitelist_call(&mut self, origin_ok: bool, call_hash: CallHash) -> (r: Result<
        (),
        DispatchError,
    >)
        requires
            old(self).wf(),
        ensures
            final(self).wf(),
            (final(self)@, r) == whitelist_call_step(old(self)@, origin_ok, call_hash),
            !origin_ok ==> r == Err::<(), DispatchError>(DispatchError::BadOrigin) && final(self)@
                == old(self)@,
            r is Ok <==> origin_ok && !old(self)@.whitelisted.contains(call_hash),
            r is Ok ==> final(self)@.whitelisted.contains(call_hash) && final(self)@.effects
                == old(self)@.effects.push(Effect::RequestPreimage(call_hash)).push(
                Effect::Deposit(Event::CallWhitelisted { call_hash }),
            ),
            r is Err ==> final(self)@ == old(self)@,
    {
        proof {
            whitelist_call_keeps_valid(self@, origin_ok, call_hash);
        }
        if !origin_ok {
            return Err(DispatchError::BadOrigin);
        }
        if self.contains(&call_hash) {
            return Err(DispatchError::Module(Error::CallAlreadyWhitelisted));
        }
        let ghost old_seq = self.whitelisted@;
        self.whitelisted.push(call_hash);
        self.effects.push(Effect::RequestPreimage(call_hash));
        self.effects.push(Effect::Deposit(Event::CallWhitelisted { call_hash }));
        proof {
            assert forall|x: CallHash| self.whitelisted@.contains(x) <==> (old_seq.contains(x)
                || x == call_hash) by {
                if self.whitelisted@.contains(x) {
                    let a = choose|a: int|
                        0 <= a < self.whitelisted@.len() && self.whitelisted@[a] == x;
                    if a < old_seq.len() {
                        assert(old_seq[a] == x);
                    }
                }
                if x == call_hash {
                    assert(self.whitelisted@[old_seq.len() as int] == x);
                }
                if old_seq.contains(x) {
                    let a = choose|a: int| 0 <= a < old_seq.len() && old_seq[a] == x;
                    assert(self.whitelisted@[a] == x);
                }
            }
            assert(self@.whitelisted =~= old(self)@.whitelisted.insert(call_hash));
        }
        Ok(())
    }

    /// Removes a hash from the whitelist (`remove_whitelisted_call`). `origin_ok` is whether
    /// the origin passed the configured `WhitelistOrigin`. The pallet releases the request for
    /// the preimage and deposits `WhitelistedCallRemoved`.
    pub fn remove_whitelisted_call(&mut self, origin_ok: bool, call_hash: CallHash) -> (r: Result<
        (),
        DispatchError,
    >)
        requires
            old(self).wf(),
        ensures
            final(self).wf(),
            (final(self)@, r) == remove_whitelisted_call_step(old(self)@, origin_ok, call_hash),
            !origin_ok ==> r == Err::<(), DispatchError>(DispatchError::BadOrigin) && final(self)@
                == old(self)@,
            r is Ok <==> origin_ok && old(self)@.whitelisted.contains(call_hash),
            r is Ok ==> !final(self)@.whitelisted.contains(call_hash) && final(self)@.effects
                == old(self)@.effects.push(Effect::UnrequestPreimage(call_hash)).push(
                Effect::Deposit(Event::WhitelistedCallRemoved { call_hash }),
            ),
            r is Err ==> final(self)@ == old(self)@,
    {
        proof {
            remove_whitelisted_call_keeps_valid(self@, origin_ok, call_hash);
        }
        if !origin_ok {
            return Err(DispatchError::BadOrigin);
        }
        match self.find(&call_hash) {
            None => Err(DispatchError::Module(Error::CallIsNotWhitelisted)),
            Some(pos) => {
                self.clean_at(pos, Ghost(call_hash));
                self.effects.push(Effect::Deposit(Event::WhitelistedCallRemoved { call_hash }));
                Ok(())
            },
        }
    }
    /// Dispatches a whitelisted call whose preimage is in the preimage store
    /// (`dispatch_whitelisted_call`), up to the dispatch of the call itself.
    ///
    /// `origin_ok` is whether the origin passed the configured `DispatchWhitelistedOrigin`, and
    /// `extrinsic_weight` the extrinsic's own benchmarked weight for the call's encoded length.
    /// The runtime hands in two steps that only it can take, and the pallet takes them only
    /// once the origin and whitelist checks have passed: `fetch` is the preimage handler's fetch,
    /// which the pallet calls with `call_hash` and the length hint `Some(call_encoded_len)`, and
    /// `decode` decodes the
    /// fetched bytes as a call that consumes all of them, giving the call's weight, or `None`
    /// where they do not decode; `decode` runs only on a fetched preimage. The checks come in this
    /// order: origin, whitelist, preimage, decoding, weight witness; the first that fails is the
    /// error, and the pallet is then unchanged. Where all pass, the hash leaves the whitelist,
    /// the request for its preimage is released, and the runtime is to dispatch the call as root
    /// and hand its result to `finish_dispatch`.
    pub fn dispatch_whitelisted_call<F, D>(
        &mut self,
        origin_ok: bool,
        call_hash: CallHash,
        call_encoded_len: u32,
        call_weight_witness: Weight,
        extrinsic_weight: Weight,
        fetch: F,
        decode: D,
    ) -> (r: Result<PendingDispatch, DispatchError>) where
        F: FnOnce(CallHash, Option<u32>) -> Result<Vec<u8>, DispatchError>,
        D: FnOnce(Vec<u8>) -> Option<Weight>,

        requires
            old(self).wf(),
            call_requires(fetch, (call_hash, Some(call_encoded_len))),
            forall|bytes: Vec<u8>| #[trigger] call_requires(decode, (bytes,)),
        ensures
            final(self).wf(),
            dispatch_with_loaders(
                old(self)@,
                final(self)@,
                pending_result_view(r),
                origin_ok,
                call_hash,
                call_encoded_len,
                call_weight_witness,
                extrinsic_weight,
                fetch,
                decode,
            ),
            !origin_ok ==> (r matches Err(DispatchError::BadOrigin)) && final(self)@ == old(self)@,
            r is Err ==> final(self)@ == old(self)@,
            (r matches Err(DispatchError::Module(Error::CallIsNotWhitelisted))) <==> origin_ok
                && !old(self)@.whitelisted.contains(call_hash),
            r is Ok ==> {
                &&& origin_ok
                &&& old(self)@.whitelisted.contains(call_hash)
                &&& !final(self)@.whitelisted.contains(call_hash)
                &&& r->Ok_0@ == (PendingView { call_hash, extrinsic_weight })
                &&& exists|fetched: Result<Vec<u8>, DispatchError>, decoded: Option<Weight>|
                    #![trigger call_ensures(fetch, (call_hash, Some(call_encoded_len)), fetched), call_ensures(decode, (fetched->Ok_0,), decoded)]
                    {
                        &&& call_ensures(fetch, (call_hash, Some(call_encoded_len)), fetched)
                        &&& fetched is Ok
                        &&& call_ensures(decode, (fetched->Ok_0,), decoded)
                        &&& decoded is Some
                        &&& decoded->0.spec_all_lte(call_weight_witness)
                    }
            },
    {
        let ghost s0 = self@;
        if !origin_ok {
            proof {
                dispatch_whitelisted_call_keeps_valid(
                    s0, origin_ok, call_hash, false, None, call_weight_witness, extrinsic_weight);
            }
            return Err(DispatchError::BadOrigin);
        }
        let pos = match self.find(&call_hash) {
            None => {
                return Err(DispatchError::Module(Error::CallIsNotWhitelisted));
            },
            Some(pos) => pos,
        };
        let preimage = fetch(call_hash, Some(call_encoded_len));
        let ghost fetched = preimage;
        let bytes = match preimage {
            Err(_) => {
                proof {
                    assert(call_ensures(fetch, (call_hash, Some(call_encoded_len)), fetched));
                }
                return Err(DispatchError::Module(Error::UnavailablePreImage));
            },
            Ok(bytes) => bytes,
        };
        let decoded = decode(bytes);
        proof {
            assert(call_ensures(fetch, (call_hash, Some(call_encoded_len)), fetched));
            assert(call_ensures(decode, (bytes,), decoded));
            dispatch_whitelisted_call_keeps_valid(
                s0, true, call_hash, true, decoded, call_weight_witness, extrinsic_weight);
        }
        let call_weight = match decoded {
            None => {
                return Err(DispatchError::Module(Error::UndecodableCall));
            },
            Some(w) => w,
        };
        if !call_weight.all_lte(call_weight_witness) {
            return Err(DispatchError::Module(Error::InvalidCallWeightWitness));
        }
        self.clean_at(pos, Ghost(call_hash));
        Ok(PendingDispatch::new(call_hash, extrinsic_weight))
    }

    /// Dispatches a whitelisted call handed in whole, given the hash of its encoding, up to the
    /// dispatch of the call itself. `origin_ok` is whether the origin passed the configured
    /// `DispatchWhitelistedOrigin`; `extrinsic_weight` is the extrinsic's own benchmarked
    /// weight for the call's encoded length.
    pub fn dispatch_whitelisted_call_with_hash(
        &mut self,
        origin_ok: bool,
        call_hash: CallHash,
        extrinsic_weight: Weight,
    ) -> (r: Result<PendingDispatch, DispatchError>)
        requires
            old(self).wf(),
        ensures
            final(self).wf(),
            (final(self)@, pending_result_view(r)) == dispatch_with_hash_step(
                old(self)@,
                origin_ok,
                call_hash,
                extrinsic_weight,
            ),
            !origin_ok ==> (r matches Err(DispatchError::BadOrigin)) && final(self)@ == old(self)@,
            r is Err ==> final(self)@ == old(self)@,
            r is Ok <==> origin_ok && old(self)@.whitelisted.contains(call_hash),
            r is Ok ==> !final(self)@.whitelisted.contains(call_hash) && r->Ok_0@ == (PendingView {
                call_hash,
                extrinsic_weight,
            }),
    {
        proof {
            dispatch_with_hash_keeps_valid(self@, origin_ok, call_hash, extrinsic_weight);
        }
        if !origin_ok {
            return Err(DispatchError::BadOrigin);
        }
        match self.find(&call_hash) {
            None => Err(DispatchError::Module(Error::CallIsNotWhitelisted)),
            Some(pos) => {
                self.clean_at(pos, Ghost(call_hash));
                Ok(PendingDispatch::new(call_hash, extrinsic_weight))
            },
        }
    }

    /// Dispatches a whitelisted call handed in whole (`dispatch_whitelisted_call_with_preimage`),
    /// up to the dispatch of the call itself: the call's hash is the `BlakeTwo256` hash of its
    /// encoding, and the rest is `dispatch_whitelisted_call_with_hash`. The hasher is fixed: a
    /// runtime configured with another hasher hashes the call itself and calls
    /// `dispatch_whitelisted_call_with_hash`.
    pub fn dispatch_whitelisted_call_with_preimage(
        &mut self,
        origin_ok: bool,
        call_encoded: &[u8],
        extrinsic_weight: Weight,
    ) -> (r: Result<PendingDispatch, DispatchError>)
        requires
            old(self).wf(),
        ensures
            final(self).wf(),
            (final(self)@, pending_result_view(r)) == dispatch_with_hash_step(
                old(self)@,
                origin_ok,
                call_hash_spec(call_encoded@),
                extrinsic_weight,
            ),
            !origin_ok ==> (r matches Err(DispatchError::BadOrigin)) && final(self)@ == old(self)@,
            r is Err ==> final(self)@ == old(self)@,
            r is Ok <==> origin_ok && old(self)@.whitelisted.contains(call_hash_spec(call_encoded@)),
            r is Ok ==> !final(self)@.whitelisted.contains(call_hash_spec(call_encoded@))
                && r->Ok_0@.call_hash@ == blake2_256_of(call_encoded@),
    {
        if !origin_ok {
            return Err(DispatchError::BadOrigin);
        }
        let call_hash = call_hash_of(call_encoded);
        self.dispatch_whitelisted_call_with_hash(origin_ok, call_hash, extrinsic_weight)
    }

    /// Records the result of a dispatched whitelisted call: deposits
    /// `WhitelistedCallDispatched` with the result, and returns what the extrinsic reports: the
    /// weight the call reported, plus the extrinsic's own weight, where the call reported one.
    pub fn finish_dispatch(
        &mut self,
        pending: PendingDispatch,
        result: DispatchResultWithPostInfo,
    ) -> (info: PostDispatchInfo)
        requires
            old(self).wf(),
        ensures
            final(self).wf(),
            (final(self)@, info) == finish_dispatch_step(old(self)@, pending@, result),
            final(self)@.whitelisted == old(self)@.whitelisted,
            final(self)@.config == old(self)@.config,
            final(self)@.effects == old(self)@.effects.push(
                Effect::Deposit(Event::WhitelistedCallDispatched { call_hash: pending@.call_hash, result }),
            ),
            info.pays_fee == Pays::Yes,
            ({
                let reported = match result {
                    Ok(post) => post.actual_weight,
                    Err(e) => e.post_info.actual_weight,
                };
                match reported {
                    Some(w) => info.actual_weight == Some(w.spec_saturating_add(pending@.extrinsic_weight)),
                    None => info.actual_weight is None,
                }
            }),
    {
        proof {
            finish_dispatch_keeps_valid(self@, pending@, result);
        }
        let call_hash = pending.call_hash();
        let own_weight = pending.extrinsic_weight();
        let reported = match result {
            Ok(post) => post.actual_weight,
            Err(e) => e.post_info.actual_weight,
        };
        self.effects.push(
            Effect::Deposit(Event::WhitelistedCallDispatched { call_hash, result }),
        );
        let actual_weight = match reported {
            Some(w) => Some(w.saturating_add(own_weight)),
            None => None,
        };
        PostDispatchInfo { actual_weight, pays_fee: Pays::Yes }
    }

    /// Pool-level authorization callback for `dispatch_whitelisted_call`: admits an unsigned
    /// submission exactly where authorized dispatch is enabled and the hash is whitelisted. An
    /// admitted transaction has default validity, provides the encoded hash as its tag, and
    /// refunds no weight.
    pub fn authorize_dispatch_whitelisted_call(&self, call_hash: &CallHash) -> (r:
        TransactionValidityWithRefund)
        ensures
            authorize_outcome(self@, *call_hash, r),
            r is Ok <==> self@.config.enable_authorized_dispatch && self@.whitelisted.contains(
                *call_hash,
            ),
            r is Err ==> r == Err::<(ValidTransaction, Weight), TransactionValidityError>(
                TransactionValidityError::Invalid(InvalidTransaction::Call),
            ),
    {
        if !self.config.enable_authorized_dispatch {
            return Err(TransactionValidityError::Invalid(InvalidTransaction::Call));
        }
        if !self.contains(call_hash) {
            return Err(TransactionValidityError::Invalid(InvalidTransaction::Call));
        }
        let mut provides: Vec<Vec<u8>> = Vec::new();
        provides.push(encode_call_hash(call_hash));
        Ok(
            (
                ValidTransaction {
                    priority: 0,
                    requires: Vec::new(),
                    provides,
                    longevity: u64::MAX,
                    propagate: true,
                },
                Weight::zero(),
            ),
        )
    }

    /// Pool-level authorization callback for `dispatch_whitelisted_call_with_preimage`: the
    /// call's hash is the `BlakeTwo256` hash of its encoding, and the rest is
    /// `authorize_dispatch_whitelisted_call`. The hasher is fixed: a runtime configured with
    /// another hasher hashes the call itself and calls `authorize_dispatch_whitelisted_call`.
    pub fn authorize_dispatch_whitelisted_call_with_preimage(&self, call_encoded: &[u8]) -> (r:
        TransactionValidityWithRefund)
        ensures
            authorize_outcome(self@, call_hash_spec(call_encoded@), r),
            r is Ok <==> self@.config.enable_authorized_dispatch && self@.whitelisted.contains(
                call_hash_spec(call_encoded@),
            ),
    {
        if !self.config.enable_authorized_dispatch {
            return Err(TransactionValidityError::Invalid(InvalidTransaction::Call));
        }
        let call_hash = call_hash_of(call_encoded);
        self.authorize_dispatch_whitelisted_call(&call_hash)
    }
    /// The weight that both dispatching extrinsics declare before they run: the extrinsic's own
    /// benchmarked weight plus the call's weight (the witness for `dispatch_whitelisted_call`,
    /// the call's dispatch weight for `dispatch_whitelisted_call_with_preimage`), saturating.
    pub fn declared_dispatch_weight(extrinsic_weight: Weight, call_weight: Weight) -> (w: Weight)
        ensures
            w == extrinsic_weight.spec_saturating_add(call_weight),
    {
        extrinsic_weight.saturating_add(call_weight)
    }

    /// The encoded length of a call handed in whole, as the extrinsic counts it for its own
    /// weight: the byte count cast to 32 bits.
    pub fn encoded_len(call_encoded: &[u8]) -> (len: u32)
        ensures
            len == call_encoded@.len() as u32,
    {
        call_encoded.len() as u32
    }
}

} // verus!
