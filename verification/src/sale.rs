//! The sale core: the capability guard, the two custody pools and the
//! atomic exchange engine.

use vstd::prelude::*;

use crate::custody::FungibleBucket;
use crate::custody::FungibleVault;
use crate::custody::NonFungibleBucket;
use crate::custody::NonFungibleVault;
use crate::decimal::Decimal;
use crate::error::SaleError;
use crate::resource::Capability;
use crate::resource::ResourceKind;

verus! {

broadcast use
    crate::decimal::lemma_attos_in_range,
    vstd::seq_lib::group_seq_properties,
;

/// The observable state of a sale: everything the contracts speak of.
pub ghost struct SaleModel {
    /// Kind of the items the item pool holds.
    pub item_kind: ResourceKind,
    /// Ids of the items in the item pool, oldest deposit first.
    pub item_ids: Seq<u64>,
    /// The fungible kind the payment pool accepts; fixed at construction.
    pub payment_kind: ResourceKind,
    /// Attos held by the payment pool.
    pub payment_balance: int,
    /// Price per item, in attos.
    pub unit_price: int,
    /// Badge kind that satisfies the owner role.
    pub owner_capability_kind: ResourceKind,
    /// Badge kind that satisfies the admin role.
    pub admin_capability_kind: ResourceKind,
    /// Local ids of the admin badge units that are still valid.
    pub admin_registry: Seq<u64>,
    /// Whether `buy` is currently allowed.
    pub sale_open: bool,
}

/// The call failed with `err` and no state changed hands.
pub open spec fn rejected<T>(r: Result<T, SaleError>, err: SaleError) -> bool {
    r == Err::<T, SaleError>(err)
}

/// The purchase failed with `err` and the full payment came back.
pub open spec fn buy_rejected(
    r: Result<(FungibleBucket, NonFungibleBucket), (SaleError, FungibleBucket)>,
    err: SaleError,
    payment: FungibleBucket,
) -> bool {
    r == Err::<(FungibleBucket, NonFungibleBucket), (SaleError, FungibleBucket)>((err, payment))
}

/// The purchase failed because the payment fell short of the required
/// amount, which the error reports; the full payment came back.
pub open spec fn buy_rejected_short_payment(
    r: Result<(FungibleBucket, NonFungibleBucket), (SaleError, FungibleBucket)>,
    payment: FungibleBucket,
    required_attos: int,
) -> bool {
    &&& r matches Err(e)
    &&& e.1 == payment
    &&& e.0 matches SaleError::InsufficientPaymentError { required } && required.attos()
        == required_attos
}

/// The item deposit failed with `err` and the bucket of items came back.
pub open spec fn deposit_rejected(
    r: Result<(), (SaleError, NonFungibleBucket)>,
    err: SaleError,
    items: NonFungibleBucket,
) -> bool {
    r == Err::<(), (SaleError, NonFungibleBucket)>((err, items))
}

/// A sale instance: sells the items held by its item pool for a fungible
/// payment token at `unit_price` per item, and keeps the proceeds in its
/// payment pool. Privileged operations demand a capability badge minted
/// at construction; the pools themselves are never handed out.
pub struct NFTSale {
    item_vault: NonFungibleVault,
    payment_vault: FungibleVault,
    accepted_payment_kind: ResourceKind,
    unit_price: Decimal,
    owner_capability_kind: ResourceKind,
    admin_capability_kind: ResourceKind,
    admin_registry: Vec<u64>,
    sale_open: bool,
}

impl View for NFTSale {
    type V = SaleModel;

    closed spec fn view(&self) -> SaleModel {
        SaleModel {
            item_kind: self.item_vault.kind(),
            item_ids: self.item_vault.ids(),
            payment_kind: self.accepted_payment_kind,
            payment_balance: self.payment_vault.balance_attos(),
            unit_price: self.unit_price.attos(),
            owner_capability_kind: self.owner_capability_kind,
            admin_capability_kind: self.admin_capability_kind,
            admin_registry: self.admin_registry@,
            sale_open: self.sale_open,
        }
    }
}

impl NFTSale {
    /// Representation invariant: the payment pool is a vault of exactly
    /// the accepted payment kind and never holds a negative amount.
    pub closed spec fn inv(self) -> bool {
        &&& self.payment_vault.kind() == self.accepted_payment_kind
        &&& self.payment_vault.wf()
    }

    /// Well-formedness of a sale: established at construction and
    /// preserved by every operation. The owner and admin badge kinds are
    /// distinct badges, so neither stands in for the other, and no
    /// externally built kind equals either of them.
    pub open spec fn wf(self) -> bool {
        &&& self.inv()
        &&& self@.unit_price >= 0
        &&& self@.payment_balance >= 0
        &&& self@.payment_kind.is_fungible()
        &&& self@.owner_capability_kind.is_badge()
        &&& self@.admin_capability_kind.is_badge()
        &&& self@.owner_capability_kind != self@.admin_capability_kind
    }

    /// The guard's owner check: the presented badge certifies the owner
    /// badge kind.
    pub open spec fn is_owner_proof(self, badge: Capability) -> bool {
        badge.kind() == self@.owner_capability_kind
    }

    /// The guard's admin check: the presented badge certifies the admin
    /// badge kind and its unit has not been recalled.
    pub open spec fn is_admin_proof(self, badge: Capability) -> bool {
        &&& badge.kind() == self@.admin_capability_kind
        &&& self@.admin_registry.contains(badge.id())
    }

    /// The guard's table for sale control, price changes and item
    /// top-ups: admin or owner.
    pub open spec fn is_admin_or_owner_proof(self, badge: Capability) -> bool {
        self.is_admin_proof(badge) || self.is_owner_proof(badge)
    }

    fn registry_contains(&self, id: u64) -> (r: bool)
        ensures
            r == self@.admin_registry.contains(id),
    {
        let mut i: usize = 0;
        while i < self.admin_registry.len()
            invariant
                i <= self.admin_registry.len(),
                forall|j: int| 0 <= j < i ==> self.admin_registry@[j] != id,
            decreases self.admin_registry.len() - i,
        {
            if self.admin_registry[i] == id {
                return true;
            }
            i += 1;
        }
        false
    }

    fn is_owner(&self, badge: &Capability) -> (r: bool)
        ensures
            r == self.is_owner_proof(*badge),
    {
        badge.resource_kind() == self.owner_capability_kind
    }

    fn is_admin_or_owner(&self, badge: &Capability) -> (r: bool)
        ensures
            r == self.is_admin_or_owner_proof(*badge),
    {
        if badge.resource_kind() == self.admin_capability_kind {
            if self.registry_contains(badge.instance_id()) {
                return true;
            }
        }
        badge.resource_kind() == self.owner_capability_kind
    }

    /// Constructs a sale that sells items of `item_kind` for
    /// `payment_kind` at `price` per item, with the sale closed and both
    /// pools empty, and mints the two capability badges: the only owner
    /// badge that will ever exist for this sale, and one admin badge.
    ///
    /// `component_id` is the host-allocated identifier of the forthcoming
    /// sale instance; the badge kinds are derived from it, so they are
    /// fresh as long as the host never reuses an identifier.
    ///
    /// Rejects a non-fungible payment kind and a negative price.
    pub fn instantiate_nft_sale(
        item_kind: ResourceKind,
        payment_kind: ResourceKind,
        price: Decimal,
        component_id: u64,
    ) -> (r: Result<(NFTSale, Capability, Capability), SaleError>)
        ensures
            r is Ok <==> payment_kind.is_fungible() && price.attos() >= 0,
            !payment_kind.is_fungible() ==> rejected(r, SaleError::NonFungiblePaymentRejected),
            payment_kind.is_fungible() && price.attos() < 0 ==> rejected(
                r,
                SaleError::InvalidPriceError,
            ),
            r matches Ok((sale, owner_badge, admin_badge)) ==> {
                &&& sale.wf()
                &&& sale@.item_kind == item_kind
                &&& sale@.item_ids == Seq::<u64>::empty()
                &&& sale@.payment_kind == payment_kind
                &&& sale@.payment_balance == 0
                &&& sale@.unit_price == price.attos()
                &&& !sale@.sale_open
                &&& sale@.admin_registry == seq![0u64]
                &&& owner_badge.kind() == sale@.owner_capability_kind
                &&& owner_badge.id() == 0
                &&& admin_badge.kind() == sale@.admin_capability_kind
                &&& admin_badge.id() == 0
                &&& sale.is_owner_proof(owner_badge)
                &&& !sale.is_admin_proof(owner_badge)
                &&& sale.is_admin_proof(admin_badge)
                &&& !sale.is_owner_proof(admin_badge)
                &&& sale@.owner_capability_kind.badge_component() == component_id
                &&& sale@.admin_capability_kind.badge_component() == component_id
            },
    {
        if !payment_kind.fungible() {
            return Err(SaleError::NonFungiblePaymentRejected);
        }
        if price.is_negative() {
            return Err(SaleError::InvalidPriceError);
        }
        let owner_kind = ResourceKind::new_badge(component_id, 0);
        let admin_kind = ResourceKind::new_badge(component_id, 1);
        let owner_badge = Capability::issue(owner_kind, 0);
        let admin_badge = Capability::issue(admin_kind, 0);
        let mut admin_registry: Vec<u64> = Vec::new();
        admin_registry.push(0u64);
        let sale = NFTSale {
            item_vault: NonFungibleVault::new(item_kind),
            payment_vault: FungibleVault::new(payment_kind),
            accepted_payment_kind: payment_kind,
            unit_price: price,
            owner_capability_kind: owner_kind,
            admin_capability_kind: admin_kind,
            admin_registry,
            sale_open: false,
        };
        proof {
            assert(sale@.admin_registry =~= seq![0u64]);
        }
        Ok((sale, owner_badge, admin_badge))
    }

    /// Deposits caller-supplied items into the item pool. Requires the
    /// admin or owner capability; rejects items that are not of the item
    /// pool's kind, handing the bucket back untouched.
    pub fn add_nfts_to_vault(&mut self, badge: &Capability, items: NonFungibleBucket) -> (r:
        Result<(), (SaleError, NonFungibleBucket)>)
        requires
            old(self).wf(),
        ensures
            final(self).wf(),
            r is Ok <==> old(self).is_admin_or_owner_proof(*badge) && items.kind()
                == old(self)@.item_kind,
            !old(self).is_admin_or_owner_proof(*badge) ==> deposit_rejected(
                r,
                SaleError::AuthorizationError,
                items,
            ) && *final(self) == *old(self),
            old(self).is_admin_or_owner_proof(*badge) && items.kind() != old(self)@.item_kind
                ==> deposit_rejected(r, SaleError::WrongItemKindError, items) && *final(self)
                == *old(self),
            r is Ok ==> final(self)@ == (SaleModel {
                item_ids: old(self)@.item_ids + items.ids(),
                ..old(self)@
            }),
    {
        if !self.is_admin_or_owner(badge) {
            return Err((SaleError::AuthorizationError, items));
        }
        if items.resource_kind() != self.item_vault.resource_kind() {
            return Err((SaleError::WrongItemKindError, items));
        }
        self.item_vault.deposit(items);
        Ok(())
    }

    /// Opens the sale gate. Requires the admin or owner capability.
    pub fn start_sale(&mut self, badge: &Capability) -> (r: Result<(), SaleError>)
        requires
            old(self).wf(),
        ensures
            final(self).wf(),
            r is Ok <==> old(self).is_admin_or_owner_proof(*badge),
            r is Err ==> rejected(r, SaleError::AuthorizationError) && *final(self) == *old(self),
            r is Ok ==> final(self)@ == (SaleModel { sale_open: true, ..old(self)@ }),
    {
        if !self.is_admin_or_owner(badge) {
            return Err(SaleError::AuthorizationError);
        }
        self.sale_open = true;
        Ok(())
    }

    /// Closes the sale gate. Requires the admin or owner capability.
    pub fn end_sale(&mut self, badge: &Capability) -> (r: Result<(), SaleError>)
        requires
            old(self).wf(),
        ensures
            final(self).wf(),
            r is Ok <==> old(self).is_admin_or_owner_proof(*badge),
            r is Err ==> rejected(r, SaleError::AuthorizationError) && *final(self) == *old(self),
            r is Ok ==> final(self)@ == (SaleModel { sale_open: false, ..old(self)@ }),
    {
        if !self.is_admin_or_owner(badge) {
            return Err(SaleError::AuthorizationError);
        }
        self.sale_open = false;
        Ok(())
    }

    /// The atomic purchase. The preconditions are checked in order —
    /// sale open, payment kind, quantity cap, payment amount, item
    /// availability — and the first violated one aborts the whole call
    /// with no effect, handing the full payment back. On success the
    /// buyer receives the change and exactly `count` items, and the
    /// payment pool grows by exactly `unit_price * count`.
    ///
    /// The two arithmetic preconditions only keep the exact cost and the
    /// grown pool balance within the machine's numeric range.
    pub fn buy(&mut self, payment: FungibleBucket, count: u16) -> (r: Result<
        (FungibleBucket, NonFungibleBucket),
        (SaleError, FungibleBucket),
    >)
        requires
            old(self).wf(),
            payment.wf(),
            count <= 10 ==> old(self)@.unit_price * count <= i128::MAX,
            count <= 10 ==> old(self)@.payment_balance + old(self)@.unit_price * count
                <= i128::MAX,
        ensures
            final(self).wf(),
            r is Ok <==> (old(self)@.sale_open && payment.kind() == old(self)@.payment_kind
                && count <= 10 && payment.amount().attos() >= old(self)@.unit_price * count
                && count <= old(self)@.item_ids.len()),
            !old(self)@.sale_open ==> buy_rejected(r, SaleError::SaleClosedError, payment)
                && *final(self) == *old(self),
            old(self)@.sale_open && payment.kind() != old(self)@.payment_kind ==> buy_rejected(
                r,
                SaleError::WrongTokenError,
                payment,
            ) && *final(self) == *old(self),
            old(self)@.sale_open && payment.kind() == old(self)@.payment_kind && count > 10
                ==> buy_rejected(r, SaleError::QuantityLimitError, payment) && *final(self)
                == *old(self),
            old(self)@.sale_open && payment.kind() == old(self)@.payment_kind && count <= 10
                && payment.amount().attos() < old(self)@.unit_price * count
                ==> buy_rejected_short_payment(r, payment, old(self)@.unit_price * count)
                && *final(self) == *old(self),
            old(self)@.sale_open && payment.kind() == old(self)@.payment_kind && count <= 10
                && payment.amount().attos() >= old(self)@.unit_price * count && count > old(
                self,
            )@.item_ids.len() ==> buy_rejected(r, SaleError::InsufficientBalanceError, payment)
                && *final(self) == *old(self),
            r matches Ok((change, purchased)) ==> {
                &&& change.wf()
                &&& change.kind() == payment.kind()
                &&& change.amount().attos() == payment.amount().attos() - old(self)@.unit_price
                    * count
                &&& purchased.kind() == old(self)@.item_kind
                &&& purchased.ids().len() == count
                &&& purchased.ids() == old(self)@.item_ids.subrange(
                    old(self)@.item_ids.len() - count,
                    old(self)@.item_ids.len() as int,
                )
                &&& final(self)@ == (SaleModel {
                    item_ids: old(self)@.item_ids.subrange(0, old(self)@.item_ids.len() - count),
                    payment_balance: old(self)@.payment_balance + old(self)@.unit_price * count,
                    ..old(self)@
                })
            },
    {
        if !self.sale_open {
            return Err((SaleError::SaleClosedError, payment));
        }
        if payment.resource_kind() != self.accepted_payment_kind {
            return Err((SaleError::WrongTokenError, payment));
        }
        if count > 10 {
            return Err((SaleError::QuantityLimitError, payment));
        }
        proof {
            let price_attos = self.unit_price.attos();
            assert(price_attos * count >= 0) by (nonlinear_arith)
                requires
                    price_attos >= 0,
                    count >= 0,
            ;
        }
        let cost = self.unit_price.times_u16(count);
        if !payment.balance().ge(&cost) {
            return Err((SaleError::InsufficientPaymentError { required: cost }, payment));
        }
        let purchased = match self.item_vault.withdraw(count as usize) {
            Ok(bucket) => bucket,
            Err(e) => {
                return Err((e, payment));
            },
        };
        let mut remainder = payment;
        let revenue = remainder.split(cost);
        self.payment_vault.deposit(revenue);
        Ok((remainder, purchased))
    }

    /// Drains the payment pool completely and returns everything it
    /// held. Requires the owner capability — the admin badge is
    /// rejected — and a non-empty payment pool.
    pub fn withdraw_profits(&mut self, badge: &Capability) -> (r: Result<
        FungibleBucket,
        SaleError,
    >)
        requires
            old(self).wf(),
        ensures
            final(self).wf(),
            r is Ok <==> old(self).is_owner_proof(*badge) && old(self)@.payment_balance > 0,
            !old(self).is_owner_proof(*badge) ==> rejected(r, SaleError::AuthorizationError)
                && *final(self) == *old(self),
            old(self).is_owner_proof(*badge) && old(self)@.payment_balance == 0 ==> rejected(
                r,
                SaleError::NothingToWithdrawError,
            ) && *final(self) == *old(self),
            r matches Ok(proceeds) ==> {
                &&& proceeds.wf()
                &&& proceeds.kind() == old(self)@.payment_kind
                &&& proceeds.amount().attos() == old(self)@.payment_balance
                &&& final(self)@ == (SaleModel { payment_balance: 0, ..old(self)@ })
            },
    {
        if !self.is_owner(badge) {
            return Err(SaleError::AuthorizationError);
        }
        if self.payment_vault.is_empty() {
            return Err(SaleError::NothingToWithdrawError);
        }
        Ok(self.payment_vault.withdraw_all())
    }

    /// Sets the price per item. Requires the admin or owner capability;
    /// rejects a negative price and leaves the old price standing.
    pub fn change_price(&mut self, badge: &Capability, new_price: Decimal) -> (r: Result<
        (),
        SaleError,
    >)
        requires
            old(self).wf(),
        ensures
            final(self).wf(),
            r is Ok <==> old(self).is_admin_or_owner_proof(*badge) && new_price.attos() >= 0,
            !old(self).is_admin_or_owner_proof(*badge) ==> rejected(
                r,
                SaleError::AuthorizationError,
            ) && *final(self) == *old(self),
            old(self).is_admin_or_owner_proof(*badge) && new_price.attos() < 0 ==> rejected(
                r,
                SaleError::InvalidPriceError,
            ) && *final(self) == *old(self),
            r is Ok ==> final(self)@ == (SaleModel {
                unit_price: new_price.attos(),
                ..old(self)@
            }),
    {
        if !self.is_admin_or_owner(badge) {
            return Err(SaleError::AuthorizationError);
        }
        if new_price.is_negative() {
            return Err(SaleError::InvalidPriceError);
        }
        self.unit_price = new_price;
        Ok(())
    }

    /// Revokes the admin badge unit with local id `admin_id`: the unit
    /// leaves the registry of valid admin units, and the guard rejects
    /// it from then on. Requires the owner capability.
    pub fn recall_admin(&mut self, badge: &Capability, admin_id: u64) -> (r: Result<
        (),
        SaleError,
    >)
        requires
            old(self).wf(),
        ensures
            final(self).wf(),
            r is Ok <==> old(self).is_owner_proof(*badge),
            r is Err ==> rejected(r, SaleError::AuthorizationError) && *final(self) == *old(self),
            r is Ok ==> (forall|x: u64|
                final(self)@.admin_registry.contains(x) <==> (
                old(self)@.admin_registry.contains(x) && x != admin_id)),
            r is Ok ==> final(self)@ == (SaleModel {
                admin_registry: final(self)@.admin_registry,
                ..old(self)@
            }),
    {
        if !self.is_owner(badge) {
            return Err(SaleError::AuthorizationError);
        }
        let mut kept: Vec<u64> = Vec::new();
        let mut i: usize = 0;
        while i < self.admin_registry.len()
            invariant
                i <= self.admin_registry.len(),
                forall|x: u64|
                    kept@.contains(x) <==> (self.admin_registry@.subrange(0, i as int).contains(x)
                        && x != admin_id),
            decreases self.admin_registry.len() - i,
        {
            let id = self.admin_registry[i];
            if id != admin_id {
                kept.push(id);
            }
            i += 1;
        }
        self.admin_registry = kept;
        Ok(())
    }

    /// The accepted payment kind and the current price per item. Public.
    pub fn price(&self) -> (r: (ResourceKind, Decimal))
        ensures
            r.0 == self@.payment_kind,
            r.1.attos() == self@.unit_price,
    {
        (self.accepted_payment_kind, self.unit_price)
    }

    /// Whether any sale has happened yet: true exactly when the payment
    /// pool is non-empty. Public.
    pub fn is_sold(&self) -> (r: bool)
        ensures
            r <==> self@.payment_balance != 0,
    {
        !self.payment_vault.is_empty()
    }
}

/// Law: a credential of the admin badge kind never satisfies the
/// owner-only guard of a well-formed sale, so every owner-gated
/// operation — withdrawing the proceeds, recalling an admin badge —
/// rejects it with an authorization failure.
pub proof fn lemma_admin_badge_is_not_owner(sale: NFTSale, badge: Capability)
    requires
        sale.wf(),
        badge.kind() == sale@.admin_capability_kind,
    ensures
        !sale.is_owner_proof(badge),
{
}

} // verus!
