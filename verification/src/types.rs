//! The values that the whitelist pallet reads, returns and records.
use vstd::prelude::*;
use crate::weight::Weight;

verus! {

/// The hash of an encoded call: 32 bytes.
pub type CallHash = [u8; 32];

/// Errors that the pallet itself raises.
#[derive(Clone, Copy, Debug, PartialEq, Eq, Structural)]
pub enum Error {
    /// The preimage of the call hash could not be loaded.
    UnavailablePreImage,
    /// The call could not be decoded.
    UndecodableCall,
    /// The weight of the decoded call was higher than the witness.
    InvalidCallWeightWitness,
    /// The call was not whitelisted.
    CallIsNotWhitelisted,
    /// The call was already whitelisted; No-Op.
    CallAlreadyWhitelisted,
}

/// A token error of a dispatched call.
#[derive(Clone, Copy, Debug, PartialEq, Eq, Structural)]
pub enum TokenError {
    FundsUnavailable,
    OnlyProvider,
    BelowMinimum,
    CannotCreate,
    UnknownAsset,
    Frozen,
    Unsupported,
    CannotCreateHold,
    NotExpendable,
    Blocked,
}

/// An arithmetic error of a dispatched call.
#[derive(Clone, Copy, Debug, PartialEq, Eq, Structural)]
pub enum ArithmeticError {
    Underflow,
    Overflow,
    DivisionByZero,
}

/// A transactional-layer error of a dispatched call.
#[derive(Clone, Copy, Debug, PartialEq, Eq, Structural)]
pub enum TransactionalError {
    LimitReached,
    NoLayer,
}

/// An error of the storage trie of a dispatched call.
#[derive(Clone, Copy, Debug, PartialEq, Eq, Structural)]
pub enum TrieError {
    InvalidStateRoot,
    IncompleteDatabase,
    ValueAtIncompleteKey,
    DecoderError,
    InvalidHash,
    DuplicateKey,
    ExtraneousNode,
    ExtraneousValue,
    ExtraneousHashReference,
    InvalidChildReference,
    ValueMismatch,
    IncompleteProof,
    RootMismatch,
    DecodeError,
}

/// Why a dispatch, or a preimage operation, failed.
#[derive(Clone, Copy, Debug, PartialEq, Eq)]
pub enum DispatchError {
    /// Some error occurred, with its message.
    Other(&'static str),
    /// Failed to look up some data.
    CannotLookup,
    /// The origin is not allowed to make this call.
    BadOrigin,
    /// An error of this pallet.
    Module(Error),
    /// An error of another pallet: the pallet's index, its encoded error, and its message where
    /// known.
    OtherModule { index: u8, error: [u8; 4], message: Option<&'static str> },
    /// At least one consumer is remaining so the account cannot be destroyed.
    ConsumerRemaining,
    /// There are no providers so the account cannot be created.
    NoProviders,
    /// There are too many consumers so the account cannot be created.
    TooManyConsumers,
    /// An error to do with tokens.
    Token(TokenError),
    /// An arithmetic error.
    Arithmetic(ArithmeticError),
    /// The number of transactional layers has been reached, or we are not in one.
    Transactional(TransactionalError),
    /// Resources are exhausted.
    Exhausted,
    /// The state is corrupt.
    Corruption,
    /// A resource (such as a preimage) is not available.
    Unavailable,
    /// Root origin is not allowed.
    RootNotAllowed,
    /// An error of the storage trie.
    Trie(TrieError),
}

/// Whether a dispatched call pays a fee.
#[derive(Clone, Copy, Debug, PartialEq, Eq, Structural)]
pub enum Pays {
    Yes,
    No,
}

/// What a dispatch reports after it ran.
#[derive(Clone, Copy, Debug, PartialEq, Eq, Structural)]
pub struct PostDispatchInfo {
    /// The weight actually consumed, where it is known.
    pub actual_weight: Option<Weight>,
    pub pays_fee: Pays,
}

/// A failed dispatch, with what it reported after it ran.
#[derive(Clone, Copy, Debug, PartialEq, Eq)]
pub struct DispatchErrorWithPostInfo {
    pub post_info: PostDispatchInfo,
    pub error: DispatchError,
}

/// The result of dispatching a call.
pub type DispatchResultWithPostInfo = Result<PostDispatchInfo, DispatchErrorWithPostInfo>;

/// Events that the pallet deposits.
#[derive(Clone, Copy, Debug, PartialEq, Eq)]
pub enum Event {
    CallWhitelisted { call_hash: CallHash },
    WhitelistedCallRemoved { call_hash: CallHash },
    WhitelistedCallDispatched { call_hash: CallHash, result: DispatchResultWithPostInfo },
}

/// What the pallet asks of its surroundings, in the order in which it asks.
#[derive(Clone, Copy, Debug, PartialEq, Eq)]
pub enum Effect {
    /// Ask the preimage handler to keep (and fetch) the preimage of this hash.
    RequestPreimage(CallHash),
    /// Release an earlier request for the preimage of this hash.
    UnrequestPreimage(CallHash),
    /// Deposit an event.
    Deposit(Event),
}

/// The parameters of the runtime that the pallet's logic reads.
#[derive(Clone, Copy, Debug, PartialEq, Eq, Structural)]
pub struct Config {
    /// Whether whitelisted calls may be submitted as unsigned transactions that the
    /// authorization callbacks admit.
    pub enable_authorized_dispatch: bool,
}

/// A whitelisted call that passed every check and was cleaned from the whitelist: the
/// runtime dispatches it next and hands its result to `Pallet::finish_dispatch`. Only the
/// pallet's dispatching extrinsics make one, it cannot be copied, and finishing consumes it, so
/// each one leads to at most one dispatch event. Which pallet value finishes it is up to the
/// runtime, which keeps a single pallet.
#[derive(Debug, PartialEq, Eq)]
pub struct PendingDispatch {
    call_hash: CallHash,
    extrinsic_weight: Weight,
}

/// What a `PendingDispatch` holds.
#[verifier::ext_equal]
pub struct PendingView {
    pub call_hash: CallHash,
    /// The pallet's own benchmarked weight for the extrinsic, added to the call's actual weight.
    pub extrinsic_weight: Weight,
}

impl View for PendingDispatch {
    type V = PendingView;

    closed spec fn view(&self) -> PendingView {
        PendingView { call_hash: self.call_hash, extrinsic_weight: self.extrinsic_weight }
    }
}

impl PendingDispatch {
    pub(crate) fn new(call_hash: CallHash, extrinsic_weight: Weight) -> (p: PendingDispatch)
        ensures
            p@ == (PendingView { call_hash, extrinsic_weight }),
    {
        PendingDispatch { call_hash, extrinsic_weight }
    }

    /// The hash of the call to dispatch.
    pub fn call_hash(&self) -> (h: CallHash)
        ensures
            h == self@.call_hash,
    {
        self.call_hash
    }

    /// The extrinsic's own weight, to be added to the call's.
    pub fn extrinsic_weight(&self) -> (w: Weight)
        ensures
            w == self@.extrinsic_weight,
    {
        self.extrinsic_weight
    }
}

/// What a dispatch's result holds, with a pending dispatch taken by its view.
pub open spec fn pending_result_view(r: Result<PendingDispatch, DispatchError>) -> Result<
    PendingView,
    DispatchError,
> {
    match r {
        Ok(p) => Ok(p@),
        Err(e) => Err(e),
    }
}

/// Why a transaction is invalid.
#[derive(Clone, Copy, Debug, PartialEq, Eq, Structural)]
pub enum InvalidTransaction {
    /// The call of the transaction is not expected.
    Call,
}

/// Why a transaction is refused at the pool.
#[derive(Clone, Copy, Debug, PartialEq, Eq, Structural)]
pub enum TransactionValidityError {
    Invalid(InvalidTransaction),
}

/// A transaction admitted to the pool.
#[derive(Debug, PartialEq, Eq)]
pub struct ValidTransaction {
    pub priority: u64,
    pub requires: Vec<Vec<u8>>,
    pub provides: Vec<Vec<u8>>,
    pub longevity: u64,
    pub propagate: bool,
}

/// The outcome of an authorization callback: an admitted transaction with the weight to
/// refund, or the reason it is refused.
pub type TransactionValidityWithRefund = Result<(ValidTransaction, Weight), TransactionValidityError>;

} // verus!
