use vstd::prelude::*;

use crate::address::Address;
use crate::derivation::{
    create_program_address, program_address, seeds_fit, seeds_view, MAX_SEEDS, MAX_SEED_LEN,
};
use crate::error::PoolError;
use crate::pool::TokenAccountState;
use crate::withdraw::TransferInstruction;

verus! {

/// An in-memory ledger of token accounts that executes transfer instructions
/// the way the token program does: the authority must be the source's owner
/// and must have signed, which for a derived address means that the
/// instruction's seeds derive it under the invoking program.
#[derive(Debug)]
pub struct Ledger {
    pub accounts: Vec<TokenAccountState>,
}

/// No two accounts share an address.
pub open spec fn unique_addresses(s: Seq<TokenAccountState>) -> bool {
    forall|i: int, j: int|
        0 <= i < s.len() && 0 <= j < s.len() && (#[trigger] s[i]).address@ == (#[trigger] s[j]).address@
            ==> i == j
}

/// Some account has the address.
pub open spec fn holds(s: Seq<TokenAccountState>, a: Seq<u8>) -> bool {
    exists|i: int| 0 <= i < s.len() && (#[trigger] s[i]).address@ == a
}

/// The position of the account with the address.
pub open spec fn index_of(s: Seq<TokenAccountState>, a: Seq<u8>) -> int {
    choose|i: int| 0 <= i < s.len() && (#[trigger] s[i]).address@ == a
}

/// The address that the instruction's seeds sign for under `program_id`.
pub open spec fn signer_of(ix: TransferInstruction, program_id: Seq<u8>) -> Option<Seq<u8>> {
    if seeds_fit(seeds_view(ix.signer_seeds@)) {
        program_address(seeds_view(ix.signer_seeds@), program_id)
    } else {
        None
    }
}

/// The ledger after the transfer, or the error that refuses it.
pub open spec fn apply_transfer(
    s: Seq<TokenAccountState>,
    ix: TransferInstruction,
    program_id: Seq<u8>,
) -> Result<Seq<TokenAccountState>, PoolError> {
    let from = ix.accounts.from@;
    let to = ix.accounts.to@;
    let authority = ix.accounts.authority@;
    if signer_of(ix, program_id) != Some(authority) || !holds(s, from) || !holds(s, to) {
        Err(PoolError::TransferRejected)
    } else {
        let fi = index_of(s, from);
        let ti = index_of(s, to);
        let src = s[fi];
        let dst = s[ti];
        if src.owner@ != authority || src.mint@ != dst.mint@ {
            Err(PoolError::TransferRejected)
        } else if ix.amount > src.amount {
            Err(PoolError::InsufficientBalance)
        } else if fi == ti {
            Ok(s)
        } else if dst.amount + ix.amount > u64::MAX {
            Err(PoolError::TransferRejected)
        } else {
            Ok(
                s.update(fi, TokenAccountState { amount: (src.amount - ix.amount) as u64, ..src }).update(
                    ti,
                    TokenAccountState { amount: (dst.amount + ix.amount) as u64, ..dst },
                ),
            )
        }
    }
}

/// The balance held at the address, if the ledger has such an account.
pub open spec fn balance_of(s: Seq<TokenAccountState>, a: Seq<u8>) -> Option<u64> {
    if holds(s, a) {
        Some(s[index_of(s, a)].amount)
    } else {
        None
    }
}

impl Ledger {
    pub open spec fn wf(&self) -> bool {
        unique_addresses(self.accounts@)
    }

    pub fn new() -> (r: Ledger)
        ensures
            r.wf(),
            r.accounts@.len() == 0,
    {
        Ledger { accounts: Vec::new() }
    }

    /// The position of the account with the address.
    pub fn find(&self, a: &Address) -> (r: Option<usize>)
        requires
            self.wf(),
        ensures
            r is Some <==> holds(self.accounts@, a@),
            r matches Some(i) ==> i == index_of(self.accounts@, a@) && i < self.accounts@.len(),
    {
        let mut i: usize = 0;
        while i < self.accounts.len()
            invariant
                self.wf(),
                i <= self.accounts@.len(),
                forall|j: int| 0 <= j < i ==> (#[trigger] self.accounts@[j]).address@ != a@,
            decreases self.accounts@.len() - i,
        {
            if self.accounts[i].address.same_as(a) {
                proof {
                    let k = index_of(self.accounts@, a@);
                    assert(self.accounts@[k].address@ == a@);
                    assert(self.accounts@[i as int].address@ == self.accounts@[k].address@);

                }
                return Some(i);
            }
            i = i + 1;
        }
        None
    }

    /// Adds an account; refused, leaving the ledger as it was, where one with
    /// that address is already there.
    pub fn open_account(&mut self, account: TokenAccountState) -> (r: bool)
        requires
            old(self).wf(),
        ensures
            final(self).wf(),
            r == !holds(old(self).accounts@, account.address@),
            r ==> final(self).accounts@ == old(self).accounts@.push(account),
            !r ==> *final(self) == *old(self),
    {
        match self.find(&account.address) {
            Some(_) => false,
            None => {
                self.accounts.push(account);
                true
            },
        }
    }

    /// The account with the address.
    pub fn account(&self, a: &Address) -> (r: Option<TokenAccountState>)
        requires
            self.wf(),
        ensures
            r is Some <==> holds(self.accounts@, a@),
            r matches Some(acc) ==> acc == self.accounts@[index_of(self.accounts@, a@)],
    {
        match self.find(a) {
            Some(i) => Some(self.accounts[i]),
            None => None,
        }
    }

    /// Executes a transfer that the program `program_id` signs with the
    /// instruction's seeds. On refusal nothing changes.
    pub fn execute(&mut self, program_id: &Address, ix: &TransferInstruction) -> (r: Result<
        (),
        PoolError,
    >)
        requires
            old(self).wf(),
        ensures
            final(self).wf(),
            match apply_transfer(old(self).accounts@, *ix, program_id@) {
                Ok(s) => r is Ok && final(self).accounts@ == s,
                Err(e) => r == Err::<(), PoolError>(e) && final(self).accounts@ == old(
                    self,
                ).accounts@,
            },
    {
        if !self.seeds_fit_exec(ix) {
            return Err(PoolError::TransferRejected);
        }
        let signer = create_program_address(&ix.signer_seeds, program_id);
        let signed = match signer {
            Some(a) => a.same_as(&ix.accounts.authority),
            None => false,
        };
        if !signed {
            return Err(PoolError::TransferRejected);
        }
        let fi = match self.find(&ix.accounts.from) {
            Some(i) => i,
            None => {
                return Err(PoolError::TransferRejected);
            },
        };
        let ti = match self.find(&ix.accounts.to) {
            Some(i) => i,
            None => {
                return Err(PoolError::TransferRejected);
            },
        };
        let src = self.accounts[fi];
        let dst = self.accounts[ti];
        if !src.owner.same_as(&ix.accounts.authority) || !src.mint.same_as(&dst.mint) {
            return Err(PoolError::TransferRejected);
        }
        if ix.amount > src.amount {
            return Err(PoolError::InsufficientBalance);
        }
        if fi == ti {
            return Ok(());
        }
        if dst.amount > u64::MAX - ix.amount {
            return Err(PoolError::TransferRejected);
        }
        let ghost s0 = self.accounts@;
        self.accounts.set(fi, TokenAccountState { amount: src.amount - ix.amount, ..src });
        self.accounts.set(ti, TokenAccountState { amount: dst.amount + ix.amount, ..dst });
        proof {
            assert forall|i: int, j: int|
                0 <= i < self.accounts@.len() && 0 <= j < self.accounts@.len() && (
                #[trigger] self.accounts@[i]).address@ == (#[trigger] self.accounts@[j]).address@
                implies i == j by {
                assert(self.accounts@[i].address == s0[i].address);
                assert(self.accounts@[j].address == s0[j].address);
            }
        }
        Ok(())
    }

    /// The instruction's seeds are within the derivation's limits.
    fn seeds_fit_exec(&self, ix: &TransferInstruction) -> (r: bool)
        ensures
            r == seeds_fit(seeds_view(ix.signer_seeds@)),
    {
        if ix.signer_seeds.len() > MAX_SEEDS {
            return false;
        }
        let mut i: usize = 0;
        while i < ix.signer_seeds.len()
            invariant
                i <= ix.signer_seeds@.len() <= MAX_SEEDS,
                forall|j: int| 0 <= j < i ==> (#[trigger] seeds_view(ix.signer_seeds@)[j]).len() <= MAX_SEED_LEN,
            decreases ix.signer_seeds@.len() - i,
        {
            if ix.signer_seeds[i].len() > MAX_SEED_LEN {
                proof {
                    assert(seeds_view(ix.signer_seeds@)[i as int] == ix.signer_seeds@[i as int]@);
                }
                return false;
            }
            i = i + 1;
        }
        true
    }
}

} // verus!
