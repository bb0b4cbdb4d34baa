//! Where the escrows are kept: one for each payer, under the payer's key.
//!
//! An operation on an escrow takes what is kept for the payer, which may be
//! nothing, and leaves what is to be kept from then on, which may be nothing
//! again. The registry hands out the one and takes in the other.

use crate::errors::Rejection;
use crate::keys::same_key;
use crate::records::EscrowAccount;
use anchor_lang::prelude::Pubkey;
use vstd::prelude::*;

verus! {

/// No two of the escrows have the same payer.
spec fn distinct_payers(escrows: Seq<EscrowAccount>) -> bool {
    forall|i: int, j: int|
        0 <= i < j < escrows.len() ==> (#[trigger] escrows[i]).payer != (
        #[trigger] escrows[j]).payer
}

/// One of the escrows is the payer's.
spec fn kept_for(escrows: Seq<EscrowAccount>, payer: Pubkey) -> bool {
    exists|i: int| 0 <= i < escrows.len() && (#[trigger] escrows[i]).payer == payer
}

/// The escrows by their payers.
spec fn by_payer(escrows: Seq<EscrowAccount>) -> Map<Pubkey, EscrowAccount> {
    Map::new(
        |payer: Pubkey| kept_for(escrows, payer),
        |payer: Pubkey|
            escrows[choose|i: int|
                0 <= i < escrows.len() && (#[trigger] escrows[i]).payer == payer],
    )
}

/// Among escrows with distinct payers, each is the one kept for its payer.
proof fn lemma_kept_at(escrows: Seq<EscrowAccount>, i: int)
    requires
        distinct_payers(escrows),
        0 <= i < escrows.len(),
    ensures
        by_payer(escrows).contains_key(escrows[i].payer),
        by_payer(escrows)[escrows[i].payer] == escrows[i],
{
    let payer = escrows[i].payer;
    let chosen = choose|k: int| 0 <= k < escrows.len() && (#[trigger] escrows[k]).payer == payer;
    assert(kept_for(escrows, payer));
    if chosen < i {
        assert(escrows[chosen].payer != escrows[i].payer);
    }
    if i < chosen {
        assert(escrows[i].payer != escrows[chosen].payer);
    }
}

/// The escrows, at most one for each payer.
#[derive(Debug)]
pub struct EscrowRegistry {
    escrows: Vec<EscrowAccount>,
}

impl EscrowRegistry {
    #[verifier::type_invariant]
    spec fn one_for_each_payer(self) -> bool {
        distinct_payers(self.escrows@)
    }

    /// The escrows that are kept, each under the key of its payer.
    pub closed spec fn view(&self) -> Map<Pubkey, EscrowAccount> {
        by_payer(self.escrows@)
    }

    /// What is kept for the payer.
    pub open spec fn kept(&self, payer: Pubkey) -> Option<EscrowAccount> {
        if self@.contains_key(payer) {
            Some(self@[payer])
        } else {
            None
        }
    }

    /// Every escrow is kept under the key of its own payer.
    pub proof fn lemma_keyed_by_payer(&self, payer: Pubkey)
        requires
            self@.contains_key(payer),
        ensures
            self@[payer].payer == payer,
    {
    }

    /// A registry that keeps nothing.
    pub fn new() -> (registry: Self)
        ensures
            registry@ == Map::<Pubkey, EscrowAccount>::empty(),
    {
        let registry = EscrowRegistry { escrows: Vec::new() };
        assert(registry@ =~= Map::<Pubkey, EscrowAccount>::empty());
        registry
    }

    /// Where the payer's escrow stands, if one is kept.
    fn position(escrows: &Vec<EscrowAccount>, payer: &Pubkey) -> (found: Option<usize>)
        ensures
            match found {
                Some(i) => i < escrows@.len() && escrows@[i as int].payer == *payer,
                None => !kept_for(escrows@, *payer),
            },
    {
        let mut i: usize = 0;
        while i < escrows.len()
            invariant
                i <= escrows@.len(),
                forall|k: int| 0 <= k < i ==> (#[trigger] escrows@[k]).payer != *payer,
            decreases escrows@.len() - i,
        {
            if same_key(&escrows[i].payer, payer) {
                return Some(i);
            }
            i += 1;
        }
        None
    }

    /// What is kept for the payer: the payer's escrow, or nothing.
    pub fn slot(&self, payer: &Pubkey) -> (slot: Option<EscrowAccount>)
        ensures
            slot == self.kept(*payer),
    {
        proof {
            use_type_invariant(&*self);
        }
        match Self::position(&self.escrows, payer) {
            Some(i) => {
                proof {
                    lemma_kept_at(self.escrows@, i as int);
                }
                Some(self.escrows[i])
            },
            None => None,
        }
    }

    /// What the registry keeps once `slot` has been committed for the payer.
    pub open spec fn committed(&self, payer: Pubkey, slot: Option<EscrowAccount>) -> Map<
        Pubkey,
        EscrowAccount,
    > {
        match slot {
            Some(escrow) => if escrow.payer == payer {
                self@.insert(payer, escrow)
            } else {
                self@
            },
            None => self@.remove(payer),
        }
    }

    /// Keeps `slot` for the payer from now on: the escrow in it in place of
    /// what was kept before, or nothing. An escrow of another payer is refused.
    /// What is kept for other payers stays.
    pub fn commit(&mut self, payer: &Pubkey, slot: Option<EscrowAccount>) -> (outcome: Result<
        (),
        Rejection,
    >)
        ensures
            outcome == if slot matches Some(escrow) && escrow.payer != *payer {
                Err::<(), Rejection>(Rejection::ConstraintSeeds)
            } else {
                Ok::<(), Rejection>(())
            },
            final(self)@ == old(self).committed(*payer, slot),
            final(self).kept(*payer) == if outcome is Ok {
                slot
            } else {
                old(self).kept(*payer)
            },
            forall|other: Pubkey|
                other != *payer ==> #[trigger] final(self).kept(other) == old(self).kept(other),
    {
        proof {
            use_type_invariant(&*self);
        }
        let ghost before = self.escrows@;
        match slot {
            Some(escrow) => {
                if !same_key(&escrow.payer, payer) {
                    return Err(Rejection::ConstraintSeeds);
                }
                let found = Self::position(&self.escrows, payer);
                let mut escrows = Vec::new();
                std::mem::swap(&mut escrows, &mut self.escrows);
                match found {
                    Some(i) => {
                        escrows[i] = escrow;
                    },
                    None => {
                        escrows.push(escrow);
                    },
                }
                proof {
                    lemma_put(before, escrows@, escrow);
                }
                self.escrows = escrows;
                Ok(())
            },
            None => {
                let found = Self::position(&self.escrows, payer);
                let mut escrows = Vec::new();
                std::mem::swap(&mut escrows, &mut self.escrows);
                match found {
                    Some(i) => {
                        let _ = escrows.remove(i);
                    },
                    None => {},
                }
                proof {
                    lemma_dropped(before, escrows@, *payer);
                }
                self.escrows = escrows;
                Ok(())
            },
        }
    }
}

/// Putting an escrow in the place of its payer's, or at the end where the
/// payer had none, keeps the payers distinct and changes what is kept for
/// that payer alone.
proof fn lemma_put(before: Seq<EscrowAccount>, after: Seq<EscrowAccount>, escrow: EscrowAccount)
    requires
        distinct_payers(before),
        ({
            ||| exists|i: int|
                0 <= i < before.len() && before[i].payer == escrow.payer && after == before.update(
                    i,
                    escrow,
                )
            ||| !kept_for(before, escrow.payer) && after == before.push(escrow)
        }),
    ensures
        distinct_payers(after),
        by_payer(after) == by_payer(before).insert(escrow.payer, escrow),
{
    let place = if kept_for(before, escrow.payer) {
        choose|i: int|
            0 <= i < before.len() && before[i].payer == escrow.payer && after == before.update(
                i,
                escrow,
            )
    } else {
        before.len() as int
    };
    assert(after.len() > place && after[place] == escrow);
    assert forall|k: int| 0 <= k < after.len() && k != place implies k < before.len()
        && #[trigger] after[k] == before[k] && before[k].payer != escrow.payer by {
        if kept_for(before, escrow.payer) {
            if k < place {
                assert(before[k].payer != before[place].payer);
            } else {
                assert(before[place].payer != before[k].payer);
            }
        }
    }
    assert forall|i: int, j: int| 0 <= i < j < after.len() implies (#[trigger] after[i]).payer != (
    #[trigger] after[j]).payer by {
        if i != place && j != place {
            assert(before[i].payer != before[j].payer);
        }
    }
    let expected = by_payer(before).insert(escrow.payer, escrow);
    assert forall|payer: Pubkey| by_payer(after).contains_key(payer) implies
        #[trigger] expected.contains_key(payer) && expected[payer] == by_payer(after)[payer] by {
        let k = choose|k: int| 0 <= k < after.len() && (#[trigger] after[k]).payer == payer;
        lemma_kept_at(after, k);
        if k != place {
            lemma_kept_at(before, k);
        }
    }
    assert forall|payer: Pubkey| expected.contains_key(payer) implies #[trigger] by_payer(
        after,
    ).contains_key(payer) by {
        if payer == escrow.payer {
            lemma_kept_at(after, place);
        } else {
            let k = choose|k: int| 0 <= k < before.len() && (#[trigger] before[k]).payer == payer;
            assert(after[k] == before[k]);
            lemma_kept_at(after, k);
        }
    }
    assert(by_payer(after) =~= expected);
}

/// Taking the payer's escrow out, where one is kept, keeps the payers distinct
/// and changes what is kept for that payer alone.
proof fn lemma_dropped(before: Seq<EscrowAccount>, after: Seq<EscrowAccount>, payer: Pubkey)
    requires
        distinct_payers(before),
        ({
            ||| exists|i: int|
                0 <= i < before.len() && before[i].payer == payer && after == before.remove(i)
            ||| !kept_for(before, payer) && after == before
        }),
    ensures
        distinct_payers(after),
        by_payer(after) == by_payer(before).remove(payer),
{
    let expected = by_payer(before).remove(payer);
    if kept_for(before, payer) {
        let place = choose|i: int|
            0 <= i < before.len() && before[i].payer == payer && after == before.remove(i);
        assert forall|k: int| 0 <= k < after.len() implies #[trigger] after[k] == before[if k
            < place {
            k
        } else {
            k + 1
        }] && after[k].payer != payer by {
            if k < place {
                assert(before[k].payer != before[place].payer);
            } else {
                assert(before[place].payer != before[k + 1].payer);
            }
        }
        assert forall|i: int, j: int| 0 <= i < j < after.len() implies (#[trigger] after[i]).payer
            != (#[trigger] after[j]).payer by {
            let from_i = if i < place {
                i
            } else {
                i + 1
            };
            let from_j = if j < place {
                j
            } else {
                j + 1
            };
            assert(before[from_i].payer != before[from_j].payer);
        }
        assert forall|who: Pubkey| by_payer(after).contains_key(who) implies
            #[trigger] expected.contains_key(who) && expected[who] == by_payer(after)[who] by {
            let k = choose|k: int| 0 <= k < after.len() && (#[trigger] after[k]).payer == who;
            lemma_kept_at(after, k);
            lemma_kept_at(
                before,
                if k < place {
                    k
                } else {
                    k + 1
                },
            );
        }
        assert forall|who: Pubkey| expected.contains_key(who) implies #[trigger] by_payer(
            after,
        ).contains_key(who) by {
            let k = choose|k: int| 0 <= k < before.len() && (#[trigger] before[k]).payer == who;
            assert(k != place);
            let to = if k < place {
                k
            } else {
                k - 1
            };
            assert(after[to] == before[k]);
            lemma_kept_at(after, to);
        }
    }
    assert(by_payer(after) =~= expected);
}

} // verus!
