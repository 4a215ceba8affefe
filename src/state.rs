use vstd::prelude::*;

use crate::error::ContractError;

verus! {

/// The configuration fixed at instantiation.
pub struct Config {
    /// Receives the fee of every transfer.
    pub owner: String,
    /// The one denomination accepted and paid out.
    pub coin_denom: String,
    /// The fixed fee per transfer; `None` runs the splitter without a fee.
    pub fee: Option<u128>,
}

/// One ledger record: an address and its credited balance.
pub struct Entry {
    pub address: String,
    pub amount: u128,
}

/// The balance of `a` in the ledger model `m`: zero where `a` has no entry.
pub open spec fn balance_of(m: Map<Seq<char>, u128>, a: Seq<char>) -> u128 {
    if m.contains_key(a) {
        m[a]
    } else {
        0
    }
}

/// The model `m` after `amount` is added to the balance of `a`; `None` where
/// the sum leaves the range of `u128`.
pub open spec fn credited(m: Map<Seq<char>, u128>, a: Seq<char>, amount: nat) -> Option<
    Map<Seq<char>, u128>,
> {
    if balance_of(m, a) + amount <= u128::MAX {
        Some(m.insert(a, (balance_of(m, a) + amount) as u128))
    } else {
        None
    }
}

/// Balances by address. An address without an entry holds zero.
pub struct Ledger {
    entries: Vec<Entry>,
    model: Ghost<Map<Seq<char>, u128>>,
}

impl View for Ledger {
    type V = Map<Seq<char>, u128>;

    closed spec fn view(&self) -> Map<Seq<char>, u128> {
        self.model@
    }
}

impl Ledger {
    /// The entries hold each address once, and agree with the model.
    pub closed spec fn wf(&self) -> bool {
        &&& forall|i: int, j: int|
            0 <= i < j < self.entries@.len() ==> self.entries@[i].address@
                != self.entries@[j].address@
        &&& forall|i: int|
            0 <= i < self.entries@.len() ==> #[trigger] self.model@.contains_key(
                self.entries@[i].address@,
            ) && self.model@[self.entries@[i].address@] == self.entries@[i].amount
        &&& forall|k: Seq<char>|
            #[trigger] self.model@.contains_key(k) ==> exists|i: int|
                0 <= i < self.entries@.len() && self.entries@[i].address@ == k
    }

    /// An empty ledger.
    pub fn new() -> (r: Ledger)
        ensures
            r.wf(),
            r@ == Map::<Seq<char>, u128>::empty(),
    {
        Ledger { entries: Vec::new(), model: Ghost(Map::empty()) }
    }

    /// Where `address` stands among the entries, if anywhere.
    fn position(&self, address: &String) -> (r: Option<usize>)
        requires
            self.wf(),
        ensures
            match r {
                Some(i) => i < self.entries@.len() && self.entries@[i as int].address@ == address@,
                None => !self@.contains_key(address@),
            },
    {
        let mut i: usize = 0;
        while i < self.entries.len()
            invariant
                self.wf(),
                i <= self.entries@.len(),
                forall|j: int| 0 <= j < i ==> self.entries@[j].address@ != address@,
            decreases self.entries@.len() - i,
        {
            if self.entries[i].address == *address {
                return Some(i);
            }
            i = i + 1;
        }
        None
    }

    /// The balance held by `address`; zero if it was never credited.
    pub fn get(&self, address: &String) -> (r: u128)
        requires
            self.wf(),
        ensures
            r == balance_of(self@, address@),
    {
        match self.position(address) {
            Some(i) => self.entries[i].amount,
            None => 0,
        }
    }

    /// Sets the balance of `address` to `amount`.
    pub fn set(&mut self, address: &String, amount: u128)
        requires
            old(self).wf(),
        ensures
            final(self).wf(),
            final(self)@ == old(self)@.insert(address@, amount),
    {
        let ghost m = self.model@.insert(address@, amount);
        let ghost at: int;
        match self.position(address) {
            Some(i) => {
                let entry = Entry { address: address.clone(), amount };
                self.entries.set(i, entry);
                proof {
                    at = i as int;
                }
            },
            None => {
                let entry = Entry { address: address.clone(), amount };
                self.entries.push(entry);
                proof {
                    at = self.entries@.len() - 1;
                }
            },
        }
        self.model = Ghost(m);
        assert forall|i: int, j: int|
            0 <= i < j < self.entries@.len() implies self.entries@[i].address@
                != self.entries@[j].address@ by {
            if i != at && j != at {
                assert(old(self).entries@[i] == self.entries@[i]);
                assert(old(self).entries@[j] == self.entries@[j]);
            }
        }
        assert forall|i: int| 0 <= i < self.entries@.len() implies #[trigger] m.contains_key(
            self.entries@[i].address@,
        ) && m[self.entries@[i].address@] == self.entries@[i].amount by {
            if i != at {
                assert(old(self).entries@[i] == self.entries@[i]);
            }
        }
        assert forall|k: Seq<char>| #[trigger] m.contains_key(k) implies exists|i: int|
            0 <= i < self.entries@.len() && self.entries@[i].address@ == k by {
            if k == address@ {
                assert(self.entries@[at].address@ == k);
            } else {
                assert(old(self).model@.contains_key(k));
                let i = choose|i: int|
                    0 <= i < old(self).entries@.len() && old(self).entries@[i].address@ == k;
                assert(self.entries@[i].address@ == k);
            }
        }
    }

    /// A copy of this ledger.
    pub fn duplicate(&self) -> (r: Ledger)
        requires
            self.wf(),
        ensures
            r.wf(),
            r@ == self@,
    {
        let mut entries: Vec<Entry> = Vec::new();
        let mut i: usize = 0;
        while i < self.entries.len()
            invariant
                self.wf(),
                i <= self.entries@.len(),
                entries@.len() == i,
                forall|j: int|
                    0 <= j < i ==> (#[trigger] entries@[j]).address@ == self.entries@[j].address@
                        && entries@[j].amount == self.entries@[j].amount,
            decreases self.entries@.len() - i,
        {
            let e = &self.entries[i];
            entries.push(Entry { address: e.address.clone(), amount: e.amount });
            i = i + 1;
        }
        let r = Ledger { entries, model: Ghost(self.model@) };
        assert forall|k: Seq<char>| #[trigger] r.model@.contains_key(k) implies exists|i: int|
            0 <= i < r.entries@.len() && r.entries@[i].address@ == k by {
            let i = choose|i: int| 0 <= i < self.entries@.len() && self.entries@[i].address@ == k;
            assert(r.entries@[i].address@ == k);
        }
        r
    }

    /// Adds `amount` to the balance of `address`. Fails, changing nothing,
    /// where the sum would leave the range of `u128`.
    pub fn credit(&mut self, address: &String, amount: u128) -> (r: Result<(), ContractError>)
        requires
            old(self).wf(),
        ensures
            final(self).wf(),
            match credited(old(self)@, address@, amount as nat) {
                Some(m) => r is Ok && final(self)@ == m,
                None => r == Err::<(), ContractError>(ContractError::ArithmeticOverflow {})
                    && final(self)@ == old(self)@,
            },
    {
        let balance = self.get(address);
        match balance.checked_add(amount) {
            Some(sum) => {
                self.set(address, sum);
                Ok(())
            },
            None => Err(ContractError::ArithmeticOverflow {}),
        }
    }
}

/// The configuration and the ledger, as held between calls.
pub struct State {
    pub config: Config,
    pub ledger: Ledger,
}

impl State {
    pub open spec fn wf(&self) -> bool {
        self.ledger.wf()
    }
}

} // verus!
