use pallet_whitelist::hashing::call_hash_of;
use pallet_whitelist::pallet::Pallet;
use pallet_whitelist::preimages::NoopPreimages;
use pallet_whitelist::types::{
    Config, DispatchError, DispatchErrorWithPostInfo, Effect, Error, Event, InvalidTransaction,
    Pays, PostDispatchInfo, TransactionValidityError,
};
use pallet_whitelist::weight::Weight;

fn hex(bytes: &[u8]) -> String {
    bytes.iter().map(|b| format!("{:02x}", b)).collect()
}

#[test]
fn call_hash_is_blake2_256_of_the_encoding() {
    assert_eq!(
        hex(&call_hash_of(&[])),
        "0e5751c026e543b2e8ab2eb06099daa1d1e5df47778f7787faab45cdf12fe3a8"
    );
    assert_eq!(
        hex(&call_hash_of(b"abc")),
        "bddd813c634239723171ef3fee98579b94964e3bb1cb3e427262c8c068d52319"
    );
}

#[test]
fn admitted_transaction_provides_the_encoded_hash() {
    let mut p = Pallet::new(Config { enable_authorized_dispatch: true });
    let h = call_hash_of(&[1, 2, 3]);
    assert_eq!(p.whitelist_call(true, h), Ok(()));
    let (vt, refund) = p.authorize_dispatch_whitelisted_call(&h).unwrap();
    assert_eq!(vt.priority, 0);
    assert!(vt.requires.is_empty());
    assert_eq!(vt.provides, vec![h.to_vec()]);
    assert_eq!(vt.longevity, u64::MAX);
    assert!(vt.propagate);
    assert_eq!(refund, Weight::zero());
    // The inline variant hashes the call and agrees.
    let (vt2, _) = p.authorize_dispatch_whitelisted_call_with_preimage(&[1, 2, 3]).unwrap();
    assert_eq!(vt2, vt);
}

#[test]
fn refused_authorization_is_an_invalid_call() {
    let p = Pallet::new(Config { enable_authorized_dispatch: true });
    assert_eq!(
        p.authorize_dispatch_whitelisted_call(&[9u8; 32]),
        Err(TransactionValidityError::Invalid(InvalidTransaction::Call))
    );
}

#[test]
fn whitelist_then_remove_restores_the_whitelist() {
    let mut p = Pallet::new(Config { enable_authorized_dispatch: false });
    let a = [1u8; 32];
    let b = [2u8; 32];
    assert_eq!(p.whitelist_call(true, a), Ok(()));
    assert_eq!(p.whitelist_call(true, b), Ok(()));
    assert_eq!(p.remove_whitelisted_call(true, b), Ok(()));
    assert!(p.contains(&a));
    assert!(!p.contains(&b));
    assert_eq!(
        p.effects().clone(),
        vec![
            Effect::RequestPreimage(a),
            Effect::Deposit(Event::CallWhitelisted { call_hash: a }),
            Effect::RequestPreimage(b),
            Effect::Deposit(Event::CallWhitelisted { call_hash: b }),
            Effect::UnrequestPreimage(b),
            Effect::Deposit(Event::WhitelistedCallRemoved { call_hash: b }),
        ]
    );
}

#[test]
fn a_whitelisting_allows_one_dispatch() {
    let mut p = Pallet::new(Config { enable_authorized_dispatch: false });
    let h = [5u8; 32];
    assert_eq!(p.whitelist_call(true, h), Ok(()));
    let pending = p.dispatch_whitelisted_call_with_hash(true, h, Weight::zero()).unwrap();
    p.finish_dispatch(pending, Ok(PostDispatchInfo { actual_weight: None, pays_fee: Pays::Yes }));
    assert_eq!(
        p.dispatch_whitelisted_call(
            true,
            h,
            1,
            Weight::zero(),
            Weight::zero(),
            |_: [u8; 32], _: Option<u32>| Ok(vec![1u8]),
            |_: Vec<u8>| Some(Weight::zero()),
        )
        .map(|d| d.call_hash()),
        Err(DispatchError::Module(Error::CallIsNotWhitelisted))
    );
    assert_eq!(
        p.dispatch_whitelisted_call_with_hash(false, h, Weight::zero()),
        Err(DispatchError::BadOrigin)
    );
}

/// Runs `dispatch_whitelisted_call` with a preimage handler that answers `preimage` and a
/// decoder that answers `decoded`, and reports which of the two the pallet used.
fn dispatch_with(
    p: &mut Pallet,
    origin_ok: bool,
    h: [u8; 32],
    witness: Weight,
    extra: Weight,
    preimage: Result<Vec<u8>, DispatchError>,
    decoded: Option<Weight>,
) -> (Result<[u8; 32], DispatchError>, bool, bool) {
    let mut fetched = false;
    let len: u32 = 7;
    let mut decoded_used = false;
    let r = p
        .dispatch_whitelisted_call(
            origin_ok,
            h,
            len,
            witness,
            extra,
            |asked: [u8; 32], hint: Option<u32>| {
                // The pallet asks for the preimage of the hash it checked, with the length hint.
                assert_eq!(asked, h);
                assert_eq!(hint, Some(len));
                fetched = true;
                preimage
            },
            |_: Vec<u8>| {
                decoded_used = true;
                decoded
            },
        )
        .map(|d| d.call_hash());
    (r, fetched, decoded_used)
}

#[test]
fn checks_fail_in_order() {
    let mut p = Pallet::new(Config { enable_authorized_dispatch: false });
    let h = [6u8; 32];
    let ok = || -> Result<Vec<u8>, DispatchError> { Ok(vec![0]) };
    let missing = || -> Result<Vec<u8>, DispatchError> { Err(DispatchError::Unavailable) };
    let w = Weight::from_parts(10, 10);
    let heavy = Some(Weight::from_parts(10, 11));
    // Not whitelisted and a bad origin: the origin comes first, and nothing is fetched.
    assert_eq!(
        dispatch_with(&mut p, false, h, w, w, ok(), Some(w)),
        (Err(DispatchError::BadOrigin), false, false)
    );
    assert_eq!(
        dispatch_with(&mut p, true, h, w, w, ok(), Some(w)),
        (Err(DispatchError::Module(Error::CallIsNotWhitelisted)), false, false)
    );
    assert_eq!(p.whitelist_call(true, h), Ok(()));
    assert_eq!(
        dispatch_with(&mut p, false, h, w, w, ok(), Some(w)),
        (Err(DispatchError::BadOrigin), false, false)
    );
    // A missing preimage is never decoded.
    assert_eq!(
        dispatch_with(&mut p, true, h, w, w, missing(), Some(w)),
        (Err(DispatchError::Module(Error::UnavailablePreImage)), true, false)
    );
    assert_eq!(
        dispatch_with(&mut p, true, h, w, w, ok(), None),
        (Err(DispatchError::Module(Error::UndecodableCall)), true, true)
    );
    assert_eq!(
        dispatch_with(&mut p, true, h, w, w, ok(), heavy),
        (Err(DispatchError::Module(Error::InvalidCallWeightWitness)), true, true)
    );
    assert!(p.contains(&h));
    let extra = Weight::from_parts(3, 4);
    let pending = p
        .dispatch_whitelisted_call(true, h, 1, w, extra, |_: [u8; 32], _: Option<u32>| ok(), |_: Vec<u8>| Some(w))
        .unwrap();
    assert_eq!(pending.call_hash(), h);
    assert_eq!(pending.extrinsic_weight(), extra);
    assert!(!p.contains(&h));
}

#[test]
fn finish_dispatch_adds_the_extrinsic_weight() {
    let mut p = Pallet::new(Config { enable_authorized_dispatch: false });
    let h = [8u8; 32];
    let own = Weight::from_parts(100, 7);
    let mut dispatch = |p: &mut Pallet| {
        assert_eq!(p.whitelist_call(true, h), Ok(()));
        p.dispatch_whitelisted_call_with_hash(true, h, own).unwrap()
    };
    let ok = Ok(PostDispatchInfo { actual_weight: Some(Weight::from_parts(u64::MAX - 1, 3)), pays_fee: Pays::No });
    let pending = dispatch(&mut p);
    assert_eq!(
        p.finish_dispatch(pending, ok),
        PostDispatchInfo { actual_weight: Some(Weight::from_parts(u64::MAX, 10)), pays_fee: Pays::Yes }
    );
    let failed = Err(DispatchErrorWithPostInfo {
        post_info: PostDispatchInfo { actual_weight: Some(Weight::from_parts(1, 1)), pays_fee: Pays::Yes },
        error: DispatchError::OtherModule { index: 5, error: [1, 0, 0, 0], message: Some("Boom") },
    });
    let pending = dispatch(&mut p);
    assert_eq!(
        p.finish_dispatch(pending, failed),
        PostDispatchInfo { actual_weight: Some(Weight::from_parts(101, 8)), pays_fee: Pays::Yes }
    );
    let unknown = Ok(PostDispatchInfo { actual_weight: None, pays_fee: Pays::Yes });
    let pending = dispatch(&mut p);
    assert_eq!(
        p.finish_dispatch(pending, unknown),
        PostDispatchInfo { actual_weight: None, pays_fee: Pays::Yes }
    );
    let dispatched: Vec<Effect> = p
        .effects()
        .iter()
        .filter(|e| matches!(e, Effect::Deposit(Event::WhitelistedCallDispatched { .. })))
        .cloned()
        .collect();
    assert_eq!(
        dispatched,
        vec![
            Effect::Deposit(Event::WhitelistedCallDispatched { call_hash: h, result: ok }),
            Effect::Deposit(Event::WhitelistedCallDispatched { call_hash: h, result: failed }),
            Effect::Deposit(Event::WhitelistedCallDispatched { call_hash: h, result: unknown }),
        ]
    );
}

#[test]
fn dispatch_refused_after_any_operations_until_rewhitelisted() {
    let mut p = Pallet::new(Config { enable_authorized_dispatch: false });
    let h = [10u8; 32];
    let other = [11u8; 32];
    assert_eq!(p.whitelist_call(true, h), Ok(()));
    let pending = p.dispatch_whitelisted_call_with_hash(true, h, Weight::zero()).unwrap();
    // Operations in between, none of which whitelists `h` again.
    assert_eq!(p.whitelist_call(true, other), Ok(()));
    assert_eq!(
        p.remove_whitelisted_call(true, h),
        Err(DispatchError::Module(Error::CallIsNotWhitelisted))
    );
    assert_eq!(p.whitelist_call(false, h), Err(DispatchError::BadOrigin));
    p.finish_dispatch(pending, Ok(PostDispatchInfo { actual_weight: None, pays_fee: Pays::Yes }));
    assert!(p.dispatch_whitelisted_call_with_hash(true, other, Weight::zero()).is_ok());
    assert_eq!(
        p.dispatch_whitelisted_call_with_hash(true, h, Weight::zero()).map(|d| d.call_hash()),
        Err(DispatchError::Module(Error::CallIsNotWhitelisted))
    );
    // Whitelisting it again allows one more dispatch.
    assert_eq!(p.whitelist_call(true, h), Ok(()));
    assert!(p.dispatch_whitelisted_call_with_hash(true, h, Weight::zero()).is_ok());
}

#[test]
fn weight_comparison_and_saturation() {
    let a = Weight::from_parts(1, 5);
    let b = Weight::from_parts(2, 5);
    assert!(a.all_lte(b));
    assert!(!b.all_lte(a));
    assert!(!Weight::from_parts(0, 6).all_lte(a));
    assert_eq!(
        Weight::from_parts(u64::MAX, 1).saturating_add(Weight::from_parts(1, 2)),
        Weight::from_parts(u64::MAX, 3)
    );
    assert_eq!(Weight::zero(), Weight::from_parts(0, 0));
}

#[test]
fn noop_preimages_store_nothing() {
    let h = [3u8; 32];
    assert_eq!(NoopPreimages::len(&h), None);
    assert_eq!(NoopPreimages::fetch(&h, Some(4)), Err(DispatchError::Unavailable));
    NoopPreimages::request(&h);
    assert!(!NoopPreimages::is_requested(&h));
    NoopPreimages::unrequest(&h);
    assert_eq!(NoopPreimages::note(&[1, 2]), Err(DispatchError::Exhausted));
    assert_eq!(NoopPreimages::MAX_LENGTH, 0);
}

#[test]
fn requests_follow_the_whitelist() {
    let mut p = Pallet::new(Config { enable_authorized_dispatch: false });
    let h = [4u8; 32];
    for _ in 0..3 {
        assert_eq!(p.whitelist_call(true, h), Ok(()));
        let pending = p.dispatch_whitelisted_call_with_preimage(true, &[], Weight::zero());
        // The empty call is not this hash.
        assert_eq!(pending.map(|d| d.call_hash()), Err(DispatchError::Module(Error::CallIsNotWhitelisted)));
        assert_eq!(p.remove_whitelisted_call(true, h), Ok(()));
    }
    let requests = p.effects().iter().filter(|e| matches!(e, Effect::RequestPreimage(_))).count();
    let releases = p.effects().iter().filter(|e| matches!(e, Effect::UnrequestPreimage(_))).count();
    assert_eq!(requests, 3);
    assert_eq!(releases, 3);
}

#[test]
fn declared_weight_and_encoded_length() {
    assert_eq!(
        Pallet::declared_dispatch_weight(Weight::from_parts(5, 6), Weight::from_parts(7, u64::MAX)),
        Weight::from_parts(12, u64::MAX)
    );
    assert_eq!(Pallet::encoded_len(&[0u8; 17]), 17);
    assert_eq!(Pallet::encoded_len(&[]), 0);
}
