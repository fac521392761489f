//! The ordered validator membership at one height, with the derived
//! proposer rotation and the quorum thresholds.

use vstd::prelude::*;

use crate::types::Address;
use crate::wire::bytes_eq;

verus! {

/// The ordered validator set for a height. `N` is its size, `F` the number
/// of tolerated faulty members, and the commit quorum is `ceil(2 * N / 3)`.
pub struct ValidatorSet {
    pub members: Vec<Address>,
}

impl ValidatorSet {
    /// The member addresses, in order.
    pub open spec fn view(self) -> Seq<Seq<u8>> {
        self.members@.map(|i: int, a: Address| a@)
    }

    /// Non-empty, every address 20 bytes wide, no address twice.
    pub open spec fn wf(self) -> bool {
        &&& self@.len() >= 1
        &&& forall|i: int| 0 <= i < self@.len() ==> (#[trigger] self@[i]).len()
            == crate::types::ADDRESS_LEN
        &&& forall|i: int, j: int|
            0 <= i < j < self@.len() ==> #[trigger] self@[i] != #[trigger] self@[j]
    }

    pub open spec fn contains_addr(self, addr: Seq<u8>) -> bool {
        exists|i: int| 0 <= i < self@.len() && self@[i] == addr
    }

    /// The commit quorum threshold, `ceil(2 * N / 3)`.
    pub open spec fn spec_two_thirds_majority(self) -> int {
        (2 * (self@.len() as int) + 2) / 3
    }

    /// The number of tolerated faulty validators, `F = floor((N - 1) / 3)`.
    pub open spec fn spec_fault_bound(self) -> int {
        ((self@.len() as int) - 1) / 3
    }

    /// The index of the proposer for round `round` under seed `seed`:
    /// `(seed + round) mod N`.
    pub open spec fn spec_proposer_index(self, seed: u64, round: u64) -> int {
        (seed + round) % (self@.len() as int)
    }

    pub fn new(members: Vec<Address>) -> (s: ValidatorSet)
        requires
            members@.len() >= 1,
            forall|i: int| 0 <= i < members@.len() ==> (#[trigger] members@[i]@).len()
                == crate::types::ADDRESS_LEN,
            forall|i: int, j: int|
                0 <= i < j < members@.len() ==> #[trigger] members@[i]@ != #[trigger] members@[j]@,
        ensures
            s.wf(),
            s@ == members@.map(|i: int, a: Address| a@),
    {
        ValidatorSet { members }
    }

    pub fn len(&self) -> (n: usize)
        ensures
            n == self@.len(),
    {
        self.members.len()
    }

    /// The address of the member at `i`.
    pub fn member_at(&self, i: usize) -> (a: Address)
        requires
            i < self@.len(),
        ensures
            a@ == self@[i as int],
    {
        self.members[i].clone()
    }

    pub fn is_member(&self, addr: &Address) -> (r: bool)
        ensures
            r == self.contains_addr(addr@),
    {
        let n = self.members.len();
        let mut i: usize = 0;
        while i < n
            invariant
                i <= n,
                n == self@.len(),
                forall|j: int| 0 <= j < i ==> self@[j] != addr@,
            decreases n - i,
        {
            if bytes_eq(&self.members[i].bytes, &addr.bytes) {
                proof {
                    assert(self@[i as int] == addr@);
                }
                return true;
            }
            i += 1;
        }
        false
    }

    /// The commit quorum threshold, `ceil(2 * N / 3)`.
    pub fn two_thirds_majority(&self) -> (r: usize)
        requires
            self.wf(),
        ensures
            r as int == self.spec_two_thirds_majority(),
            1 <= r <= self@.len(),
    {
        let n = self.members.len();
        let r = ((2 * (n as u128) + 2) / 3) as usize;
        proof {
            let ni = n as int;
            assert((2 * ni + 2) / 3 <= ni && (2 * ni + 2) / 3 >= 1) by (nonlinear_arith)
                requires
                    ni >= 1,
            ;
        }
        r
    }

    /// The number of tolerated faulty validators, `F = floor((N - 1) / 3)`.
    pub fn fault_bound(&self) -> (r: usize)
        requires
            self.wf(),
        ensures
            r as int == self.spec_fault_bound(),
            r <= self@.len(),
    {
        (self.members.len() - 1) / 3
    }

    /// How many RoundChange votes for one target round advance the view:
    /// `2 * F + 1`.
    pub fn round_change_threshold(&self) -> (r: usize)
        requires
            self.wf(),
        ensures
            r as int == 2 * self.spec_fault_bound() + 1,
            1 <= r <= self@.len(),
    {
        let n = self.members.len();
        let f = self.fault_bound();
        proof {
            let ni = n as int;
            assert(2 * ((ni - 1) / 3) + 1 <= ni) by (nonlinear_arith)
                requires
                    ni >= 1,
            ;
        }
        2 * f + 1
    }

    /// How many RoundChange votes for a future round make a lagging node
    /// join the round change: `F + 1`.
    pub fn catch_up_threshold(&self) -> (r: usize)
        requires
            self.wf(),
        ensures
            r as int == self.spec_fault_bound() + 1,
            1 <= r <= self@.len(),
    {
        let n = self.members.len();
        let f = self.fault_bound();
        proof {
            let ni = n as int;
            assert((ni - 1) / 3 + 1 <= ni) by (nonlinear_arith)
                requires
                    ni >= 1,
            ;
        }
        f + 1
    }

    /// The index of the round's proposer: deterministic rotation from the
    /// height's seed.
    pub fn proposer_index(&self, seed: u64, round: u64) -> (i: usize)
        requires
            self.wf(),
        ensures
            i as int == self.spec_proposer_index(seed, round),
            i < self@.len(),
    {
        let n = self.members.len();
        let i = (((seed as u128) + (round as u128)) % (n as u128)) as usize;
        proof {
            let s = seed as int;
            let r = round as int;
            let ni = n as int;
            assert((s + r) % ni < ni && (s + r) % ni >= 0) by (nonlinear_arith)
                requires
                    ni >= 1 && s >= 0 && r >= 0,
            ;
        }
        i
    }

    /// The address of the round's proposer.
    pub fn proposer(&self, seed: u64, round: u64) -> (a: Address)
        requires
            self.wf(),
        ensures
            a@ == self@[self.spec_proposer_index(seed, round)],
    {
        let i = self.proposer_index(seed, round);
        self.member_at(i)
    }
}

impl Clone for ValidatorSet {
    fn clone(&self) -> (c: Self)
        ensures
            c@ == self@,
    {
        let mut members: Vec<Address> = Vec::new();
        let n = self.members.len();
        let mut i: usize = 0;
        while i < n
            invariant
                i <= n,
                n == self.members@.len(),
                members@.len() == i,
                forall|j: int| 0 <= j < i ==> #[trigger] members@[j]@ == self.members@[j]@,
            decreases n - i,
        {
            members.push(self.members[i].clone());
            i += 1;
        }
        let c = ValidatorSet { members };
        proof {
            assert(c@ =~= self@);
        }
        c
    }
}

} // verus!
