use vstd::prelude::*;

verus! {

/// The kinds of failure that a dispatched call or a block can end in.
#[derive(Debug, Clone, Copy, PartialEq, Eq, Structural)]
pub enum DispatchError {
    /// The sender's balance is below the amount transferred.
    InsufficientFunds,
    /// The receiver's balance would leave the range of `Balance`.
    BalanceOverflow,
    /// The content already has an owner.
    AlreadyClaimed,
    /// The content has no owner.
    ClaimNotFound,
    /// The content is owned by another account.
    NotClaimOwner,
    /// The block's declared number is not the one expected next.
    BlockNumberMismatch,
}

impl DispatchError {
    /// A human-readable description of the error.
    pub fn message(&self) -> (r: &'static str)
        ensures
            r@ == match *self {
                DispatchError::InsufficientFunds => "Not enough funds."@,
                DispatchError::BalanceOverflow => "Overflow."@,
                DispatchError::AlreadyClaimed => "This content is already claimed"@,
                DispatchError::ClaimNotFound => "Claim does not exist"@,
                DispatchError::NotClaimOwner => "You are not the owner of this claim"@,
                DispatchError::BlockNumberMismatch => "block number does not match what is expected"@,
            },
    {
        match self {
            DispatchError::InsufficientFunds => "Not enough funds.",
            DispatchError::BalanceOverflow => "Overflow.",
            DispatchError::AlreadyClaimed => "This content is already claimed",
            DispatchError::ClaimNotFound => "Claim does not exist",
            DispatchError::NotClaimOwner => "You are not the owner of this claim",
            DispatchError::BlockNumberMismatch => "block number does not match what is expected",
        }
    }
}

/// The result of dispatching one call.
pub type DispatchResult = Result<(), DispatchError>;

/// The header of a block: the number that the block declares for itself.
pub struct Header<BlockNumber> {
    pub block_number: BlockNumber,
}

/// One call submitted by `caller`.
pub struct Extrinsic<Caller, Call> {
    pub caller: Caller,
    pub call: Call,
}

/// A header and the extrinsics to apply, in order.
pub struct Block<Header, Extrinsic> {
    pub header: Header,
    pub extrinsics: Vec<Extrinsic>,
}

/// Routes a call made by a caller to the code that carries it out.
pub trait Dispatch {
    type Caller;
    type Call;

    fn dispatch(&mut self, caller: Self::Caller, call: Self::Call) -> DispatchResult;
}

} // verus!
