use vstd::prelude::*;
use vstd::hash_map::StringHashMap;
use crate::types::{AccountId, BlockNumber, Nonce};

verus! {

/// The nonce of `who` in `m`: zero where `who` has none recorded.
pub open spec fn nonce_in(m: Map<Seq<char>, Nonce>, who: Seq<char>) -> Nonce {
    if m.contains_key(who) {
        m[who]
    } else {
        0
    }
}

/// The nonces `m` after one more transaction of `who`.
pub open spec fn bump_nonce(m: Map<Seq<char>, Nonce>, who: Seq<char>) -> Map<Seq<char>, Nonce> {
    m.insert(who, (nonce_in(m, who) + 1) as Nonce)
}

/// What the system pallet holds: the number of the current block and the
/// number of transactions each account has made.
pub ghost struct SystemState {
    pub block_number: BlockNumber,
    pub nonces: Map<Seq<char>, Nonce>,
}

/// The block counter and the nonce of each account.
pub struct Pallet {
    block_number: BlockNumber,
    nonce: StringHashMap<Nonce>,
}

impl View for Pallet {
    type V = SystemState;

    closed spec fn view(&self) -> SystemState {
        SystemState { block_number: self.block_number, nonces: self.nonce@ }
    }
}

impl Pallet {
    /// A pallet at block zero in which no account has a nonce.
    pub fn new() -> (r: Self)
        ensures
            r@.block_number == 0,
            r@.nonces == Map::<Seq<char>, Nonce>::empty(),
    {
        Pallet { block_number: 0, nonce: StringHashMap::new() }
    }

    /// The number of the current block.
    pub fn block_number(&self) -> (r: BlockNumber)
        ensures
            r == self@.block_number,
    {
        self.block_number
    }

    /// The nonce of `who`; zero where `who` has made no transaction.
    pub fn nonce(&self, who: &AccountId) -> (r: Nonce)
        ensures
            r == nonce_in(self@.nonces, who@),
    {
        match self.nonce.get(who.as_str()) {
            Some(n) => *n,
            None => 0,
        }
    }

    /// Moves on to the next block.
    pub fn inc_block_number(&mut self)
        requires
            old(self)@.block_number < BlockNumber::MAX,
        ensures
            final(self)@.block_number == old(self)@.block_number + 1,
            final(self)@.nonces == old(self)@.nonces,
    {
        self.block_number = self.block_number + 1;
    }

    /// Counts one more transaction of `who`.
    pub fn inc_nonce(&mut self, who: &AccountId)
        requires
            nonce_in(old(self)@.nonces, who@) < Nonce::MAX,
        ensures
            final(self)@.block_number == old(self)@.block_number,
            final(self)@.nonces == bump_nonce(old(self)@.nonces, who@),
    {
        let nonce = self.nonce(who);
        let new_nonce = nonce + 1;
        self.nonce.insert(who.clone(), new_nonce);
    }
}

} // verus!
