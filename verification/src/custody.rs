//! Ownership-holding containers: buckets carry assets between calls,
//! vaults hold the two pools of a sale.

use vstd::prelude::*;

use crate::decimal::Decimal;
use crate::error::SaleError;
use crate::resource::ResourceKind;

verus! {

broadcast use crate::decimal::lemma_attos_in_range;

/// A transferable parcel of a fungible resource: a kind and a
/// non-negative amount. Not copyable: a bucket is custody, not data.
#[derive(Debug)]
pub struct FungibleBucket {
    kind: ResourceKind,
    amount: Decimal,
}

impl FungibleBucket {
    pub closed spec fn kind(self) -> ResourceKind {
        self.kind
    }

    pub closed spec fn amount(self) -> Decimal {
        self.amount
    }

    /// A bucket never holds a negative amount.
    pub open spec fn wf(self) -> bool {
        self.amount().attos() >= 0
    }

    pub fn new(kind: ResourceKind, amount: Decimal) -> (r: FungibleBucket)
        requires
            amount.attos() >= 0,
        ensures
            r.kind() == kind,
            r.amount() == amount,
            r.wf(),
    {
        FungibleBucket { kind, amount }
    }

    pub fn resource_kind(&self) -> (r: ResourceKind)
        ensures
            r == self.kind(),
    {
        self.kind
    }

    pub fn balance(&self) -> (r: Decimal)
        ensures
            r == self.amount(),
    {
        self.amount
    }

    /// Splits `amount` out of this bucket into a new bucket of the same
    /// kind, leaving the remainder behind.
    pub fn split(&mut self, amount: Decimal) -> (r: FungibleBucket)
        requires
            old(self).wf(),
            0 <= amount.attos() <= old(self).amount().attos(),
        ensures
            final(self).wf(),
            r.wf(),
            r.kind() == old(self).kind(),
            final(self).kind() == old(self).kind(),
            r.amount() == amount,
            final(self).amount().attos() == old(self).amount().attos() - amount.attos(),
    {
        let remainder = self.amount.minus(&amount);
        self.amount = remainder;
        FungibleBucket { kind: self.kind, amount }
    }
}

/// A transferable parcel of individually identified items: a kind and
/// the local ids of the items it carries. Not copyable.
#[derive(Debug)]
pub struct NonFungibleBucket {
    kind: ResourceKind,
    ids: Vec<u64>,
}

impl NonFungibleBucket {
    pub closed spec fn kind(self) -> ResourceKind {
        self.kind
    }

    pub closed spec fn ids(self) -> Seq<u64> {
        self.ids@
    }

    pub fn new(kind: ResourceKind, ids: Vec<u64>) -> (r: NonFungibleBucket)
        ensures
            r.kind() == kind,
            r.ids() == ids@,
    {
        NonFungibleBucket { kind, ids }
    }

    pub fn resource_kind(&self) -> (r: ResourceKind)
        ensures
            r == self.kind(),
    {
        self.kind
    }

    pub fn item_ids(&self) -> (r: &Vec<u64>)
        ensures
            r@ == self.ids(),
    {
        &self.ids
    }

    pub fn count(&self) -> (r: usize)
        ensures
            r == self.ids().len(),
    {
        self.ids.len()
    }
}

/// The payment pool: holds an amount of one fungible resource kind,
/// fixed at construction.
#[derive(Debug)]
pub struct FungibleVault {
    kind: ResourceKind,
    amount: Decimal,
}

impl FungibleVault {
    pub closed spec fn kind(self) -> ResourceKind {
        self.kind
    }

    /// The held amount, as a count of attos.
    pub closed spec fn balance_attos(self) -> int {
        self.amount.attos()
    }

    /// A vault never holds a negative amount.
    pub open spec fn wf(self) -> bool {
        self.balance_attos() >= 0
    }

    pub fn new(kind: ResourceKind) -> (r: FungibleVault)
        ensures
            r.kind() == kind,
            r.balance_attos() == 0,
            r.wf(),
    {
        FungibleVault { kind, amount: Decimal::zero() }
    }

    /// Moves the whole content of `bucket` into the vault. Only buckets
    /// of the vault's own kind can be deposited.
    pub fn deposit(&mut self, bucket: FungibleBucket)
        requires
            old(self).wf(),
            bucket.wf(),
            bucket.kind() == old(self).kind(),
            old(self).balance_attos() + bucket.amount().attos() <= i128::MAX,
        ensures
            final(self).wf(),
            final(self).kind() == old(self).kind(),
            final(self).balance_attos() == old(self).balance_attos() + bucket.amount().attos(),
    {
        let deposited = bucket.balance();
        self.amount = self.amount.plus(&deposited);
    }

    /// Takes `amount` out of the vault; fails, changing nothing, when
    /// the vault holds less than was requested.
    pub fn withdraw(&mut self, amount: Decimal) -> (r: Result<FungibleBucket, SaleError>)
        requires
            old(self).wf(),
            amount.attos() >= 0,
        ensures
            final(self).wf(),
            final(self).kind() == old(self).kind(),
            r is Ok <==> amount.attos() <= old(self).balance_attos(),
            r matches Ok(b) ==> {
                &&& b.wf()
                &&& b.kind() == old(self).kind()
                &&& b.amount() == amount
                &&& final(self).balance_attos() == old(self).balance_attos() - amount.attos()
            },
            r is Err ==> r == Err::<FungibleBucket, SaleError>(
                SaleError::InsufficientBalanceError,
            ) && *final(self) == *old(self),
    {
        if !self.amount.ge(&amount) {
            return Err(SaleError::InsufficientBalanceError);
        }
        let taken = self.amount.minus(&amount);
        self.amount = taken;
        Ok(FungibleBucket { kind: self.kind, amount })
    }

    /// Drains the vault completely and returns everything it held.
    pub fn withdraw_all(&mut self) -> (r: FungibleBucket)
        requires
            old(self).wf(),
        ensures
            final(self).wf(),
            final(self).kind() == old(self).kind(),
            final(self).balance_attos() == 0,
            r.wf(),
            r.kind() == old(self).kind(),
            r.amount().attos() == old(self).balance_attos(),
    {
        let drained = self.amount;
        self.amount = Decimal::zero();
        FungibleBucket { kind: self.kind, amount: drained }
    }

    pub fn is_empty(&self) -> (r: bool)
        ensures
            r <==> self.balance_attos() == 0,
    {
        self.amount.to_attos() == 0
    }

    pub fn balance(&self) -> (r: Decimal)
        ensures
            r.attos() == self.balance_attos(),
    {
        self.amount
    }
}

/// The item pool: holds individually identified items of one kind,
/// fixed at construction.
#[derive(Debug)]
pub struct NonFungibleVault {
    kind: ResourceKind,
    ids: Vec<u64>,
}

impl NonFungibleVault {
    pub closed spec fn kind(self) -> ResourceKind {
        self.kind
    }

    /// The ids of the held items, oldest deposit first.
    pub closed spec fn ids(self) -> Seq<u64> {
        self.ids@
    }

    pub fn new(kind: ResourceKind) -> (r: NonFungibleVault)
        ensures
            r.kind() == kind,
            r.ids() == Seq::<u64>::empty(),
    {
        NonFungibleVault { kind, ids: Vec::new() }
    }

    pub fn resource_kind(&self) -> (r: ResourceKind)
        ensures
            r == self.kind(),
    {
        self.kind
    }

    /// Moves the whole content of `bucket` into the vault. Only buckets
    /// of the vault's own kind can be deposited.
    pub fn deposit(&mut self, bucket: NonFungibleBucket)
        requires
            bucket.kind() == old(self).kind(),
        ensures
            final(self).kind() == old(self).kind(),
            final(self).ids() == old(self).ids() + bucket.ids(),
    {
        let mut incoming = bucket.into_ids();
        self.ids.append(&mut incoming);
    }

    /// Takes `count` items out of the vault, newest deposits first; the
    /// caller does not choose which items it receives. Fails, changing
    /// nothing, when the vault holds fewer than `count` items.
    pub fn withdraw(&mut self, count: usize) -> (r: Result<NonFungibleBucket, SaleError>)
        ensures
            final(self).kind() == old(self).kind(),
            r is Ok <==> count <= old(self).ids().len(),
            r matches Ok(b) ==> {
                &&& b.kind() == old(self).kind()
                &&& b.ids() == old(self).ids().subrange(
                    old(self).ids().len() - count,
                    old(self).ids().len() as int,
                )
                &&& final(self).ids() == old(self).ids().subrange(
                    0,
                    old(self).ids().len() - count,
                )
            },
            r is Err ==> r == Err::<NonFungibleBucket, SaleError>(
                SaleError::InsufficientBalanceError,
            ) && *final(self) == *old(self),
    {
        if count > self.ids.len() {
            return Err(SaleError::InsufficientBalanceError);
        }
        let at = self.ids.len() - count;
        let taken = self.ids.split_off(at);
        Ok(NonFungibleBucket::new(self.kind, taken))
    }

    pub fn is_empty(&self) -> (r: bool)
        ensures
            r <==> self.ids().len() == 0,
    {
        self.ids.len() == 0
    }

    /// How many items the vault holds.
    pub fn balance(&self) -> (r: usize)
        ensures
            r == self.ids().len(),
    {
        self.ids.len()
    }
}

impl NonFungibleBucket {
    /// Consumes the bucket and hands over the ids it carried.
    fn into_ids(self) -> (r: Vec<u64>)
        ensures
            r@ == self.ids(),
    {
        self.ids
    }
}

} // verus!
