use vstd::prelude::*;
use vstd::hash_map::StringHashMap;
use crate::support::{DispatchError, DispatchResult};
use crate::types::{AccountId, Content};

verus! {

/// What `create_claim` makes of the claims `m`, and what it returns.
pub open spec fn create_outcome(m: Map<Seq<char>, AccountId>, caller: AccountId, claim: Seq<char>) -> (
    Map<Seq<char>, AccountId>,
    DispatchResult,
) {
    if m.contains_key(claim) {
        (m, Err(DispatchError::AlreadyClaimed))
    } else {
        (m.insert(claim, caller), Ok(()))
    }
}

/// What `revoke_claim` makes of the claims `m`, and what it returns.
pub open spec fn revoke_outcome(m: Map<Seq<char>, AccountId>, caller: Seq<char>, claim: Seq<char>) -> (
    Map<Seq<char>, AccountId>,
    DispatchResult,
) {
    if !m.contains_key(claim) {
        (m, Err(DispatchError::ClaimNotFound))
    } else if m[claim]@ != caller {
        (m, Err(DispatchError::NotClaimOwner))
    } else {
        (m.remove(claim), Ok(()))
    }
}

/// The calls that this pallet dispatches.
pub enum Call {
    CreateClaim { claim: Content },
    RevokeClaim { claim: Content },
}

/// What dispatching `call` from `caller` makes of the claims `m`.
pub open spec fn call_outcome(m: Map<Seq<char>, AccountId>, caller: AccountId, call: Call) -> (
    Map<Seq<char>, AccountId>,
    DispatchResult,
) {
    match call {
        Call::CreateClaim { claim } => create_outcome(m, caller, claim@),
        Call::RevokeClaim { claim } => revoke_outcome(m, caller@, claim@),
    }
}

/// The owner of each claimed content.
pub struct Pallet {
    claims: StringHashMap<AccountId>,
}

impl View for Pallet {
    type V = Map<Seq<char>, AccountId>;

    closed spec fn view(&self) -> Map<Seq<char>, AccountId> {
        self.claims@
    }
}

impl Pallet {
    /// A pallet in which nothing is claimed.
    pub fn new() -> (r: Self)
        ensures
            r@ == Map::<Seq<char>, AccountId>::empty(),
    {
        Pallet { claims: StringHashMap::new() }
    }

    /// The owner of `claim`, if it has one.
    pub fn get_claim(&self, claim: &Content) -> (r: Option<&AccountId>)
        ensures
            match r {
                Some(owner) => self@.contains_key(claim@) && *owner == self@[claim@],
                None => !self@.contains_key(claim@),
            },
    {
        self.claims.get(claim.as_str())
    }

    /// Records `caller` as the owner of `claim`; fails where it already has one.
    pub fn create_claim(&mut self, caller: AccountId, claim: Content) -> (r: DispatchResult)
        ensures
            (final(self)@, r) == create_outcome(old(self)@, caller, claim@),
    {
        if self.claims.contains_key(claim.as_str()) {
            return Err(DispatchError::AlreadyClaimed);
        }
        self.claims.insert(claim, caller);
        Ok(())
    }

    /// Removes the claim on `claim`; fails where it has no owner or where the
    /// owner is not `caller`.
    pub fn revoke_claim(&mut self, caller: AccountId, claim: Content) -> (r: DispatchResult)
        ensures
            (final(self)@, r) == revoke_outcome(old(self)@, caller@, claim@),
    {
        let owner = match self.get_claim(&claim) {
            Some(o) => o,
            None => {
                return Err(DispatchError::ClaimNotFound);
            },
        };
        if caller != *owner {
            return Err(DispatchError::NotClaimOwner);
        }
        self.claims.remove(claim.as_str());
        Ok(())
    }

    /// Carries out `call` on behalf of `caller`.
    pub fn dispatch(&mut self, caller: AccountId, call: Call) -> (r: DispatchResult)
        ensures
            (final(self)@, r) == call_outcome(old(self)@, caller, call),
    {
        match call {
            Call::CreateClaim { claim } => self.create_claim(caller, claim),
            Call::RevokeClaim { claim } => self.revoke_claim(caller, claim),
        }
    }
}

/// Once `claim` has been created by one account, creating it again fails for
/// every account.
pub proof fn lemma_claim_is_exclusive(
    m: Map<Seq<char>, AccountId>,
    first: AccountId,
    second: AccountId,
    claim: Seq<char>,
)
    requires
        create_outcome(m, first, claim).1 is Ok,
    ensures
        ({
            let after = create_outcome(m, first, claim).0;
            create_outcome(after, second, claim) == (
                after,
                Err::<(), DispatchError>(DispatchError::AlreadyClaimed),
            )
        }),
{
}

/// A claimed content stays claimed through every call but a revocation of it,
/// so that creating it keeps failing until it is revoked.
pub proof fn lemma_claim_held_until_revoked(
    m: Map<Seq<char>, AccountId>,
    caller: AccountId,
    call: Call,
    claim: Seq<char>,
    other: AccountId,
)
    requires
        m.contains_key(claim),
        !(call matches Call::RevokeClaim { claim: c } && c@ == claim),
    ensures
        call_outcome(m, caller, call).0.contains_key(claim),
        create_outcome(call_outcome(m, caller, call).0, other, claim).1 == Err::<(), DispatchError>(
            DispatchError::AlreadyClaimed,
        ),
{
}

/// Revoking a claim that another account owns fails and changes nothing.
pub proof fn lemma_revoke_needs_owner(m: Map<Seq<char>, AccountId>, caller: Seq<char>, claim: Seq<char>)
    requires
        m.contains_key(claim),
        m[claim]@ != caller,
    ensures
        revoke_outcome(m, caller, claim) == (
            m,
            Err::<(), DispatchError>(DispatchError::NotClaimOwner),
        ),
{
}

} // verus!
