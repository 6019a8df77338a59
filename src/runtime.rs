use vstd::prelude::*;
use crate::balances;
use crate::proof_of_existence;
use crate::support::{Dispatch, DispatchError, DispatchResult};
use crate::system::{self, bump_nonce, nonce_in};
use crate::types::{AccountId, Balance, Block, BlockNumber, Extrinsic, Nonce};

verus! {

/// Every call that the runtime dispatches, grouped by the pallet that owns it.
pub enum RuntimeCall {
    Balances(balances::Call),
    ProofOfExistence(proof_of_existence::Call),
}

/// An extrinsic that failed inside an accepted block: the block's number, the
/// extrinsic's position in the block, and why it failed.
#[derive(Debug, Clone, Copy, PartialEq, Eq, Structural)]
pub struct ExtrinsicError {
    pub block_number: BlockNumber,
    pub index: usize,
    pub error: DispatchError,
}

/// The whole state of a runtime, as values.
pub ghost struct RuntimeState {
    pub block_number: BlockNumber,
    pub nonces: Map<Seq<char>, Nonce>,
    pub balances: Map<Seq<char>, Balance>,
    pub claims: Map<Seq<char>, AccountId>,
}

/// What dispatching `call` from `caller` makes of `s`, and what it returns.
pub open spec fn dispatch_outcome(s: RuntimeState, caller: AccountId, call: RuntimeCall) -> (
    RuntimeState,
    DispatchResult,
) {
    match call {
        RuntimeCall::Balances(c) => {
            let (m, r) = balances::call_outcome(s.balances, caller@, c);
            (RuntimeState { balances: m, ..s }, r)
        },
        RuntimeCall::ProofOfExistence(c) => {
            let (m, r) = proof_of_existence::call_outcome(s.claims, caller, c);
            (RuntimeState { claims: m, ..s }, r)
        },
    }
}

/// One extrinsic applied to `s`: the caller's nonce goes up, then the call is
/// dispatched.
pub open spec fn apply_outcome(s: RuntimeState, e: Extrinsic) -> (RuntimeState, DispatchResult) {
    dispatch_outcome(
        RuntimeState { nonces: bump_nonce(s.nonces, e.caller@), ..s },
        e.caller,
        e.call,
    )
}

/// The extrinsics `exts` of block `block_number` applied to `s` in order: the
/// state they leave and the failures among them, in order.
pub open spec fn apply_all(s: RuntimeState, exts: Seq<Extrinsic>, block_number: BlockNumber) -> (
    RuntimeState,
    Seq<ExtrinsicError>,
)
    decreases exts.len(),
{
    if exts.len() == 0 {
        (s, Seq::empty())
    } else {
        let (s0, errs) = apply_all(s, exts.drop_last(), block_number);
        let (s1, r) = apply_outcome(s0, exts.last());
        match r {
            Ok(_) => (s1, errs),
            Err(e) => (
                s1,
                errs.push(
                    ExtrinsicError {
                        block_number,
                        index: (exts.len() - 1) as usize,
                        error: e,
                    },
                ),
            ),
        }
    }
}

/// The number of extrinsics in `exts` sent by `who`.
pub open spec fn calls_by(exts: Seq<Extrinsic>, who: Seq<char>) -> nat
    decreases exts.len(),
{
    if exts.len() == 0 {
        0
    } else {
        calls_by(exts.drop_last(), who) + if exts.last().caller@ == who {
            1nat
        } else {
            0nat
        }
    }
}

/// What `execute_block` makes of `s`, and what it returns.
pub open spec fn execute_outcome(s: RuntimeState, block: Block) -> (
    RuntimeState,
    Result<Seq<ExtrinsicError>, DispatchError>,
) {
    let advanced = RuntimeState { block_number: (s.block_number + 1) as BlockNumber, ..s };
    if block.header.block_number != advanced.block_number {
        (advanced, Err(DispatchError::BlockNumberMismatch))
    } else {
        let (t, errs) = apply_all(advanced, block.extrinsics@, advanced.block_number);
        (t, Ok(errs))
    }
}

/// Whether `block` can be executed on `s` without a counter leaving its type:
/// the block number is below its maximum, and so is each sender's nonce after
/// all of the sender's extrinsics in the block.
pub open spec fn fits_counters(s: RuntimeState, block: Block) -> bool {
    &&& s.block_number < BlockNumber::MAX
    &&& forall|who: Seq<char>|
        nonce_in(s.nonces, who) + #[trigger] calls_by(block.extrinsics@, who) <= Nonce::MAX
}

/// The pallets composed into one runtime.
pub struct Runtime {
    pub system: system::Pallet,
    pub balances: balances::Pallet,
    pub proof_of_existence: proof_of_existence::Pallet,
}

impl View for Runtime {
    type V = RuntimeState;

    open spec fn view(&self) -> RuntimeState {
        RuntimeState {
            block_number: self.system@.block_number,
            nonces: self.system@.nonces,
            balances: self.balances@,
            claims: self.proof_of_existence@,
        }
    }
}

impl Dispatch for Runtime {
    type Caller = AccountId;
    type Call = RuntimeCall;

    /// Hands `runtime_call` to the pallet that owns it and passes its result on.
    fn dispatch(&mut self, caller: AccountId, runtime_call: RuntimeCall) -> (r: DispatchResult)
        ensures
            (final(self)@, r) == dispatch_outcome(old(self)@, caller, runtime_call),
    {
        match runtime_call {
            RuntimeCall::Balances(call) => self.balances.dispatch(caller, call),
            RuntimeCall::ProofOfExistence(call) => self.proof_of_existence.dispatch(caller, call),
        }
    }
}

impl Runtime {
    /// A runtime at block zero, with no nonces, balances or claims.
    pub fn new() -> (r: Self)
        ensures
            r@.block_number == 0,
            r@.nonces == Map::<Seq<char>, Nonce>::empty(),
            r@.balances == Map::<Seq<char>, Balance>::empty(),
            r@.claims == Map::<Seq<char>, AccountId>::empty(),
    {
        Runtime {
            system: system::Pallet::new(),
            balances: balances::Pallet::new(),
            proof_of_existence: proof_of_existence::Pallet::new(),
        }
    }

    /// Executes `block`. The block counter always advances. Where the block
    /// declares another number than the new one, nothing else changes and the
    /// block is rejected. Otherwise each extrinsic in turn counts against its
    /// sender's nonce and is dispatched; one that fails changes nothing more
    /// and the next one runs. The failures are returned.
    pub fn execute_block(&mut self, block: Block) -> (r: Result<Vec<ExtrinsicError>, DispatchError>)
        requires
            fits_counters(old(self)@, block),
        ensures
            final(self)@ == execute_outcome(old(self)@, block).0,
            match r {
                Ok(failures) => execute_outcome(old(self)@, block).1 == Ok::<
                    Seq<ExtrinsicError>,
                    DispatchError,
                >(failures@),
                Err(e) => execute_outcome(old(self)@, block).1 == Err::<
                    Seq<ExtrinsicError>,
                    DispatchError,
                >(e),
            },
    {
        self.system.inc_block_number();
        let block_number = self.system.block_number();
        if block.header.block_number != block_number {
            return Err(DispatchError::BlockNumberMismatch);
        }
        let ghost start = self@;
        let ghost all = block.extrinsics@;
        let mut rest = block.extrinsics;
        let mut errors: Vec<ExtrinsicError> = Vec::new();
        let n: usize = rest.len();
        let mut i: usize = 0;
        while i < n
            invariant
                n == all.len(),
                i <= n,
                rest@ == all.subrange(i as int, n as int),
                start.block_number == block_number,
                forall|who: Seq<char>|
                    nonce_in(start.nonces, who) + #[trigger] calls_by(all, who) <= Nonce::MAX,
                (self@, errors@) == apply_all(start, all.subrange(0, i as int), block_number),
            decreases n - i,
        {
            let ext = rest.remove(0);
            proof {
                assert(all.subrange(0, i + 1).drop_last() == all.subrange(0, i as int));
                assert(ext == all[i as int]);
                lemma_calls_by_prefix(all, i + 1, ext.caller@);
                assert(nonce_in(start.nonces, ext.caller@) + calls_by(all, ext.caller@)
                    <= Nonce::MAX);
                lemma_apply_all_counts(start, all.subrange(0, i as int), block_number, ext.caller@);
            }
            let Extrinsic { caller, call } = ext;
            self.system.inc_nonce(&caller);
            match self.dispatch(caller, call) {
                Ok(()) => {},
                Err(error) => {
                    errors.push(ExtrinsicError { block_number, index: i, error });
                },
            }
            i = i + 1;
        }
        assert(all.subrange(0, n as int) == all);
        Ok(errors)
    }
}

/// Extrinsics leave the block number alone, and each one raises its sender's
/// nonce by one whether or not its call succeeds: after `exts`, the nonce of
/// every account has grown by the number of extrinsics it sent.
pub proof fn lemma_apply_all_counts(
    s: RuntimeState,
    exts: Seq<Extrinsic>,
    block_number: BlockNumber,
    who: Seq<char>,
)
    requires
        nonce_in(s.nonces, who) + calls_by(exts, who) <= Nonce::MAX,
    ensures
        apply_all(s, exts, block_number).0.block_number == s.block_number,
        nonce_in(apply_all(s, exts, block_number).0.nonces, who) == nonce_in(s.nonces, who)
            + calls_by(exts, who),
    decreases exts.len(),
{
    if exts.len() > 0 {
        lemma_apply_all_counts(s, exts.drop_last(), block_number, who);
    }
}

/// An account that has no recorded balance and no recorded nonce has balance
/// zero and nonce zero.
pub proof fn lemma_unassigned_account_is_zero(s: RuntimeState, who: Seq<char>)
    requires
        !s.balances.contains_key(who),
        !s.nonces.contains_key(who),
    ensures
        balances::balance_in(s.balances, who) == 0,
        nonce_in(s.nonces, who) == 0,
{
}

/// A call that fails leaves the state as it was.
pub proof fn lemma_failed_dispatch_changes_nothing(s: RuntimeState, caller: AccountId, call: RuntimeCall)
    requires
        dispatch_outcome(s, caller, call).1 is Err,
    ensures
        dispatch_outcome(s, caller, call).0 == s,
{
}

/// A block whose declared number is not the next one advances the block
/// counter and changes nothing else.
pub proof fn lemma_rejected_block_changes_only_counter(s: RuntimeState, block: Block)
    requires
        s.block_number < BlockNumber::MAX,
        block.header.block_number != s.block_number + 1,
    ensures
        execute_outcome(s, block).1 == Err::<Seq<ExtrinsicError>, DispatchError>(
            DispatchError::BlockNumberMismatch,
        ),
        execute_outcome(s, block).0.nonces == s.nonces,
        execute_outcome(s, block).0.balances == s.balances,
        execute_outcome(s, block).0.claims == s.claims,
{
}

/// Executing a block raises each account's nonce by the number of extrinsics
/// it sent in the block, where the block is accepted, and by nothing where it
/// is rejected.
pub proof fn lemma_execute_counts_nonces(s: RuntimeState, block: Block, who: Seq<char>)
    requires
        fits_counters(s, block),
    ensures
        nonce_in(execute_outcome(s, block).0.nonces, who) == nonce_in(s.nonces, who) + if execute_outcome(
            s,
            block,
        ).1 is Ok {
            calls_by(block.extrinsics@, who)
        } else {
            0
        },
{
    let advanced = RuntimeState { block_number: (s.block_number + 1) as BlockNumber, ..s };
    assert(nonce_in(s.nonces, who) + calls_by(block.extrinsics@, who) <= Nonce::MAX);
    lemma_apply_all_counts(advanced, block.extrinsics@, advanced.block_number, who);
}

/// The state that `blocks` leave when executed on `s` one after another.
pub open spec fn execute_chain(s: RuntimeState, blocks: Seq<Block>) -> RuntimeState
    decreases blocks.len(),
{
    if blocks.len() == 0 {
        s
    } else {
        execute_outcome(execute_chain(s, blocks.drop_last()), blocks.last()).0
    }
}

/// Whether each of `blocks` fits the counters of the state it is executed on.
pub open spec fn chain_fits(s: RuntimeState, blocks: Seq<Block>) -> bool
    decreases blocks.len(),
{
    blocks.len() == 0 || (chain_fits(s, blocks.drop_last()) && fits_counters(
        execute_chain(s, blocks.drop_last()),
        blocks.last(),
    ))
}

/// The number of extrinsics sent by `who` in those of `blocks` that were
/// accepted, when executed on `s` one after another.
pub open spec fn dispatched_by(s: RuntimeState, blocks: Seq<Block>, who: Seq<char>) -> nat
    decreases blocks.len(),
{
    if blocks.len() == 0 {
        0
    } else {
        let before = execute_chain(s, blocks.drop_last());
        dispatched_by(s, blocks.drop_last(), who) + if execute_outcome(before, blocks.last()).1 is Ok {
            calls_by(blocks.last().extrinsics@, who)
        } else {
            0
        }
    }
}

/// Over any number of blocks, an account's nonce grows by exactly the number
/// of extrinsics it sent in the blocks that were accepted.
pub proof fn lemma_nonce_counts_dispatched(s: RuntimeState, blocks: Seq<Block>, who: Seq<char>)
    requires
        chain_fits(s, blocks),
    ensures
        nonce_in(execute_chain(s, blocks).nonces, who) == nonce_in(s.nonces, who) + dispatched_by(
            s,
            blocks,
            who,
        ),
    decreases blocks.len(),
{
    if blocks.len() > 0 {
        lemma_nonce_counts_dispatched(s, blocks.drop_last(), who);
        lemma_execute_counts_nonces(execute_chain(s, blocks.drop_last()), blocks.last(), who);
    }
}

/// The extrinsics that a prefix of `exts` holds from `who` are no more than
/// those of the whole.
proof fn lemma_calls_by_prefix(exts: Seq<Extrinsic>, k: int, who: Seq<char>)
    requires
        0 <= k <= exts.len(),
    ensures
        calls_by(exts.subrange(0, k), who) <= calls_by(exts, who),
    decreases exts.len() - k,
{
    if k < exts.len() {
        lemma_calls_by_prefix(exts, k + 1, who);
        assert(exts.subrange(0, k + 1).drop_last() == exts.subrange(0, k));
    } else {
        assert(exts.subrange(0, k) == exts);
    }
}

} // verus!
