use vstd::prelude::*;

use crate::address::{same_address, Address};

verus! {

/// Amounts of the two tokens that a participant may withdraw.
#[derive(Clone, Copy, Debug, PartialEq, Eq, Structural)]
pub struct TokenClaim {
    pub tokens_for_bidding: u128,
    pub tokens_for_sale: u128,
}

/// The empty claim.
pub open spec fn zero_claim() -> TokenClaim {
    TokenClaim { tokens_for_bidding: 0, tokens_for_sale: 0 }
}

/// No address appears twice in the ledger.
pub open spec fn keys_unique(s: Seq<(Address, TokenClaim)>) -> bool {
    forall|i: int, j: int|
        0 <= i < s.len() && 0 <= j < s.len() && i != j ==> s[i].0 != s[j].0
}

/// The ledger holds an entry for `a`.
pub open spec fn has_entry(s: Seq<(Address, TokenClaim)>, a: Address) -> bool {
    exists|i: int| 0 <= i < s.len() && s[i].0 == a
}

/// The position of the entry of `a`, where there is one.
pub open spec fn entry_index(s: Seq<(Address, TokenClaim)>, a: Address) -> int {
    choose|i: int| 0 <= i < s.len() && s[i].0 == a
}

/// What `a` may withdraw: its entry, or nothing where it has none.
pub open spec fn claim_of(s: Seq<(Address, TokenClaim)>, a: Address) -> TokenClaim {
    if has_entry(s, a) {
        s[entry_index(s, a)].1
    } else {
        zero_claim()
    }
}

/// Crediting `add` to `a` keeps both of its amounts within `u128`.
pub open spec fn credit_fits(s: Seq<(Address, TokenClaim)>, a: Address, add: TokenClaim) -> bool {
    &&& claim_of(s, a).tokens_for_bidding + add.tokens_for_bidding <= u128::MAX
    &&& claim_of(s, a).tokens_for_sale + add.tokens_for_sale <= u128::MAX
}

/// The ledger after `add` is credited to `a`: its entry grows in place, or a
/// new entry is appended.
pub open spec fn credited(s: Seq<(Address, TokenClaim)>, a: Address, add: TokenClaim) -> Seq<
    (Address, TokenClaim),
> {
    let old_claim = claim_of(s, a);
    let new_claim = TokenClaim {
        tokens_for_bidding: (old_claim.tokens_for_bidding + add.tokens_for_bidding) as u128,
        tokens_for_sale: (old_claim.tokens_for_sale + add.tokens_for_sale) as u128,
    };
    if has_entry(s, a) {
        s.update(entry_index(s, a), (a, new_claim))
    } else {
        s.push((a, new_claim))
    }
}

/// The ledger after the entry of `a`, if any, is zeroed in place.
pub open spec fn settled(s: Seq<(Address, TokenClaim)>, a: Address) -> Seq<(Address, TokenClaim)> {
    if has_entry(s, a) {
        s.update(entry_index(s, a), (a, zero_claim()))
    } else {
        s
    }
}

/// Sum of the bidding-token amounts over the ledger.
pub open spec fn bidding_total(s: Seq<(Address, TokenClaim)>) -> int
    decreases s.len(),
{
    if s.len() == 0 {
        0
    } else {
        bidding_total(s.drop_last()) + s.last().1.tokens_for_bidding
    }
}

/// Sum of the sale-token amounts over the ledger.
pub open spec fn sale_total(s: Seq<(Address, TokenClaim)>) -> int
    decreases s.len(),
{
    if s.len() == 0 {
        0
    } else {
        sale_total(s.drop_last()) + s.last().1.tokens_for_sale
    }
}

/// Replacing one entry changes each total by the difference of the two claims.
pub proof fn lemma_totals_update(s: Seq<(Address, TokenClaim)>, i: int, e: (Address, TokenClaim))
    requires
        0 <= i < s.len(),
    ensures
        bidding_total(s.update(i, e)) == bidding_total(s) - s[i].1.tokens_for_bidding
            + e.1.tokens_for_bidding,
        sale_total(s.update(i, e)) == sale_total(s) - s[i].1.tokens_for_sale
            + e.1.tokens_for_sale,
    decreases s.len(),
{
    let t = s.update(i, e);
    if i < s.len() - 1 {
        lemma_totals_update(s.drop_last(), i, e);
        assert(t.drop_last() =~= s.drop_last().update(i, e));
    } else {
        assert(t.drop_last() =~= s.drop_last());
    }
}

/// Appending an entry adds its claim to each total.
pub proof fn lemma_totals_push(s: Seq<(Address, TokenClaim)>, e: (Address, TokenClaim))
    ensures
        bidding_total(s.push(e)) == bidding_total(s) + e.1.tokens_for_bidding,
        sale_total(s.push(e)) == sale_total(s) + e.1.tokens_for_sale,
{
    assert(s.push(e).drop_last() =~= s);
}

/// Crediting adds exactly the credited amounts to the totals.
pub proof fn lemma_credited_totals(s: Seq<(Address, TokenClaim)>, a: Address, add: TokenClaim)
    requires
        credit_fits(s, a, add),
    ensures
        bidding_total(credited(s, a, add)) == bidding_total(s) + add.tokens_for_bidding,
        sale_total(credited(s, a, add)) == sale_total(s) + add.tokens_for_sale,
{
    let c = claim_of(s, a);
    let n = TokenClaim {
        tokens_for_bidding: (c.tokens_for_bidding + add.tokens_for_bidding) as u128,
        tokens_for_sale: (c.tokens_for_sale + add.tokens_for_sale) as u128,
    };
    if has_entry(s, a) {
        lemma_totals_update(s, entry_index(s, a), (a, n));
    } else {
        lemma_totals_push(s, (a, n));
    }
}

/// Crediting keeps addresses unique.
pub proof fn lemma_credited_unique(s: Seq<(Address, TokenClaim)>, a: Address, add: TokenClaim)
    requires
        keys_unique(s),
    ensures
        keys_unique(credited(s, a, add)),
{
}

/// Zeroing an entry keeps addresses unique.
pub proof fn lemma_settled_unique(s: Seq<(Address, TokenClaim)>, a: Address)
    requires
        keys_unique(s),
    ensures
        keys_unique(settled(s, a)),
{
}

/// Settling `a` leaves it an entry of zero, and every other claim as it was.
pub proof fn lemma_settled_claims(s: Seq<(Address, TokenClaim)>, a: Address, b: Address)
    requires
        keys_unique(s),
    ensures
        has_entry(settled(s, a), b) == has_entry(s, b),
        claim_of(settled(s, a), b) == if b == a {
            zero_claim()
        } else {
            claim_of(s, b)
        },
{
    let t = settled(s, a);
    lemma_settled_unique(s, a);
    if has_entry(s, b) {
        let i = entry_index(s, b);
        assert(t[i].0 == b);
        assert(has_entry(t, b));
        let k = entry_index(t, b);
        assert(t[k].0 == b);
        if k != i {
            assert(t[k].0 != t[i].0);
        }
    } else {
        if has_entry(t, b) {
            let k = entry_index(t, b);
            assert(s[k].0 == b);
        }
    }
}

/// The ledger of claims, one entry per address, in order of first credit.
#[derive(Clone, Debug)]
pub struct ClaimMap {
    entries: Vec<(Address, TokenClaim)>,
}

impl View for ClaimMap {
    type V = Seq<(Address, TokenClaim)>;

    closed spec fn view(&self) -> Seq<(Address, TokenClaim)> {
        self.entries@
    }
}

impl ClaimMap {
    /// An empty ledger.
    pub fn new() -> (r: ClaimMap)
        ensures
            r@ == Seq::<(Address, TokenClaim)>::empty(),
    {
        ClaimMap { entries: Vec::new() }
    }

    /// The entries, in order of first credit.
    pub fn to_vec(&self) -> (r: Vec<(Address, TokenClaim)>)
        ensures
            r@ == self@,
    {
        let mut r: Vec<(Address, TokenClaim)> = Vec::new();
        let mut i: usize = 0;
        while i < self.entries.len()
            invariant
                0 <= i <= self@.len(),
                self@ == self.entries@,
                r@ == self@.take(i as int),
            decreases self@.len() - i,
        {
            r.push(self.entries[i]);
            i = i + 1;
            proof {
                assert(r@ =~= self@.take(i as int));
            }
        }
        proof {
            assert(self@.take(i as int) =~= self@);
        }
        r
    }

    /// Looks for the entry of `a`.
    fn find(&self, a: &Address) -> (r: Option<usize>)
        requires
            keys_unique(self@),
        ensures
            r.is_none() <==> !has_entry(self@, *a),
            r matches Some(i) ==> i < self@.len() && self@[i as int].0 == *a && entry_index(self@, *a)
                == i,
    {
        let mut i: usize = 0;
        while i < self.entries.len()
            invariant
                0 <= i <= self@.len(),
                self@ == self.entries@,
                keys_unique(self@),
                forall|j: int| 0 <= j < i ==> self@[j].0 != *a,
            decreases self@.len() - i,
        {
            if same_address(&self.entries[i].0, a) {
                proof {
                    assert(self@[i as int].0 == *a);
                    assert(has_entry(self@, *a));
                    let k = entry_index(self@, *a);
                    assert(self@[k].0 == *a);
                }
                return Some(i);
            }
            i = i + 1;
        }
        None
    }

    /// What `a` may withdraw, where the ledger has an entry for it.
    pub fn get(&self, a: &Address) -> (r: Option<TokenClaim>)
        requires
            keys_unique(self@),
        ensures
            r.is_none() <==> !has_entry(self@, *a),
            r matches Some(c) ==> c == claim_of(self@, *a),
    {
        match self.find(a) {
            Some(i) => Some(self.entries[i].1),
            None => None,
        }
    }

    /// Credits `add` to `a`, creating its entry on first credit. Fails, and
    /// leaves the ledger as it was, where an amount would overflow.
    pub fn add(&mut self, a: Address, add: TokenClaim) -> (r: bool)
        requires
            keys_unique(old(self)@),
        ensures
            r == credit_fits(old(self)@, a, add),
            r ==> final(self)@ == credited(old(self)@, a, add),
            !r ==> final(self)@ == old(self)@,
    {
        let found = self.find(&a);
        let current = match found {
            Some(i) => self.entries[i].1,
            None => TokenClaim { tokens_for_bidding: 0, tokens_for_sale: 0 },
        };
        let bidding = current.tokens_for_bidding.checked_add(add.tokens_for_bidding);
        let sale = current.tokens_for_sale.checked_add(add.tokens_for_sale);
        match (bidding, sale) {
            (Some(b), Some(s)) => {
                let merged = TokenClaim { tokens_for_bidding: b, tokens_for_sale: s };
                match found {
                    Some(i) => {
                        self.entries.set(i, (a, merged));
                    },
                    None => {
                        self.entries.push((a, merged));
                    },
                }
                proof {
                    assert(self@ =~= credited(old(self)@, a, add));
                }
                true
            },
            _ => false,
        }
    }

    /// Zeroes the entry of `a` in place, keeping it for later credits.
    pub fn reset(&mut self, a: Address)
        requires
            keys_unique(old(self)@),
        ensures
            final(self)@ == settled(old(self)@, a),
    {
        match self.find(&a) {
            Some(i) => {
                self.entries.set(i, (a, TokenClaim { tokens_for_bidding: 0, tokens_for_sale: 0 }));
                proof {
                    assert(self@ =~= settled(old(self)@, a));
                }
            },
            None => {},
        }
    }
}

} // verus!
