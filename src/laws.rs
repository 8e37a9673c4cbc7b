use vstd::prelude::*;

use crate::derivation::{seeds_view, with_bump};
use crate::ledger::{apply_transfer, holds, index_of, unique_addresses};
use crate::pool::{destination_seeds, TokenAccountState, TokenPool};
use crate::withdraw::TransferInstruction;
use crate::error::PoolError;

verus! {

/// Pools with different withdrawal destinations sign with different seed
/// material, whatever their discriminators: the bound protocol never feeds the
/// derivation the same input for two such pools.
pub proof fn lemma_distinct_destinations_distinct_seeds(
    a: TokenPool,
    b: TokenPool,
    bump_a: u8,
    bump_b: u8,
)
    requires
        a.withdraw_destination@ != b.withdraw_destination@,
    ensures
        with_bump(destination_seeds(a.withdraw_destination), bump_a) != with_bump(
            destination_seeds(b.withdraw_destination),
            bump_b,
        ),
{
    let sa = with_bump(destination_seeds(a.withdraw_destination), bump_a);
    let sb = with_bump(destination_seeds(b.withdraw_destination), bump_b);
    assert(sa[0] == a.withdraw_destination@);
    assert(sb[0] == b.withdraw_destination@);
}

/// Draining a vault twice: a transfer of a vault's whole balance to another
/// account leaves the vault at zero, and the transfer that follows, of the
/// balance now held (zero), succeeds and changes nothing.
pub proof fn lemma_drain_twice(
    s: Seq<TokenAccountState>,
    first: TransferInstruction,
    second: TransferInstruction,
    program_id: Seq<u8>,
)
    requires
        unique_addresses(s),
        holds(s, first.accounts.from@),
        first.accounts.from@ != first.accounts.to@,
        first.amount == s[index_of(s, first.accounts.from@)].amount,
        apply_transfer(s, first, program_id) is Ok,
        second.accounts == first.accounts,
        seeds_view(second.signer_seeds@) == seeds_view(first.signer_seeds@),
        second.amount == apply_transfer(s, first, program_id)->Ok_0[index_of(
            apply_transfer(s, first, program_id)->Ok_0,
            first.accounts.from@,
        )].amount,
    ensures
        ({
            let after = apply_transfer(s, first, program_id)->Ok_0;
            &&& after[index_of(after, first.accounts.from@)].amount == 0
            &&& second.amount == 0
            &&& apply_transfer(after, second, program_id) == Ok::<
                Seq<TokenAccountState>,
                PoolError,
            >(after)
        }),
{
    let from = first.accounts.from@;
    let to = first.accounts.to@;
    let fi = index_of(s, from);
    let ti = index_of(s, to);
    let after = apply_transfer(s, first, program_id)->Ok_0;
    assert(s[fi].address@ == from);
    assert(s[ti].address@ == to);
    assert(fi != ti);
    assert(after.len() == s.len());
    assert forall|i: int| 0 <= i < after.len() implies (#[trigger] after[i]).address == s[i].address by {}
    assert(unique_addresses(after)) by {
        assert forall|i: int, j: int|
            0 <= i < after.len() && 0 <= j < after.len() && (#[trigger] after[i]).address@ == (
            #[trigger] after[j]).address@ implies i == j by {
            assert(after[i].address == s[i].address);
            assert(after[j].address == s[j].address);
        }
    }
    assert(after[fi].address@ == from);
    assert(after[ti].address@ == to);
    assert(holds(after, from));
    assert(holds(after, to));
    let fi2 = index_of(after, from);
    let ti2 = index_of(after, to);
    assert(after[fi2].address@ == after[fi].address@);
    assert(fi2 == fi);
    assert(after[ti2].address@ == after[ti].address@);
    assert(ti2 == ti);
    assert(after[fi].amount == 0);
    assert(apply_transfer(after, second, program_id) == Ok::<Seq<TokenAccountState>, PoolError>(
        after.update(fi, TokenAccountState { amount: 0, ..after[fi] }).update(
            ti,
            TokenAccountState { amount: after[ti].amount, ..after[ti] },
        ),
    ));
    assert(after.update(fi, TokenAccountState { amount: 0, ..after[fi] }).update(
        ti,
        TokenAccountState { amount: after[ti].amount, ..after[ti] },
    ) =~= after);
}

} // verus!
