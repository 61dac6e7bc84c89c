use crate::auth::AuthContext;
use crate::errors::Error;
use crate::movement::Transfer;
use vstd::prelude::*;

verus! {

/// The storage keys a contract instance uses: one slot for the admin, one
/// for the running payment counter, and one per payment record, keyed by
/// the payment's identifier.
pub enum DataKey {
    Admin,
    Payment(u64),
    PaymentCount,
}

/// One escrowed cross-asset payment: who funded it, what was escrowed, and
/// the off-chain routing details an anchor needs, together with a status
/// the admin advances as the payout progresses.
#[derive(Debug)]
pub struct PaymentRecord {
    /// The principal that funded the escrow.
    pub from: u64,
    /// How much was escrowed.
    pub amount: i128,
    /// The escrowed asset.
    pub asset: u64,
    /// Who is to be paid out, named in the anchor's terms.
    pub receiver_id: String,
    /// The asset the receiver is to be paid in.
    pub target_asset: String,
    /// The anchor expected to carry out the payout.
    pub anchor_id: String,
    /// The payment's progress, such as "pending", "completed" or "failed".
    pub status: String,
}

impl Clone for PaymentRecord {
    /// An exact copy of the record.
    fn clone(&self) -> (r: Self)
        ensures
            r == *self,
    {
        PaymentRecord {
            from: self.from,
            amount: self.amount,
            asset: self.asset,
            receiver_id: self.receiver_id.clone(),
            target_asset: self.target_asset.clone(),
            anchor_id: self.anchor_id.clone(),
            status: self.status.clone(),
        }
    }
}

/// One payment-tracking instance: its custody address, the admin slot, and
/// the payment records in order of creation. The record stored under
/// identifier `k` is `payments[k - 1]`: identifiers start at one and are
/// handed out by the counter.
pub struct CrossAssetPaymentContract {
    /// The custody account escrowed funds sit in.
    pub address: u64,
    /// The principal allowed to advance payment statuses.
    pub admin: Option<u64>,
    /// The stored records, in order of creation.
    pub payments: Vec<PaymentRecord>,
}

impl CrossAssetPaymentContract {
    /// A fresh, uninitialized instance at the given custody address.
    pub fn new(address: u64) -> (r: Self)
        ensures
            r.address == address,
            r.admin is None,
            r.payments@.len() == 0,
    {
        CrossAssetPaymentContract { address, admin: None, payments: Vec::new() }
    }

    /// Writes the admin and resets the payment counter. Rejects a second
    /// initialization, leaving the instance unchanged.
    pub fn init(&mut self, admin: u64) -> (r: Result<(), Error>)
        ensures
            final(self).address == old(self).address,
            r is Err ==> *final(self) == *old(self),
            old(self).admin is Some ==> r == Err::<(), Error>(Error::AlreadyInitialized),
            old(self).admin is None ==> {
                &&& r is Ok
                &&& final(self).admin == Some(admin)
                &&& final(self).payments@.len() == 0
            },
    {
        if self.admin.is_some() {
            return Err(Error::AlreadyInitialized);
        }
        self.admin = Some(admin);
        self.payments = Vec::new();
        Ok(())
    }

    /// Escrows `amount` of `asset` for an off-chain payout: stores a fresh
    /// record in "pending" status under the next identifier and hands back
    /// the movement of the funds from the sender into custody, which the
    /// host must perform before committing the new state. Only the sender's
    /// consent is required; the instance need not be initialized. Every
    /// failure leaves the instance unchanged. The caller keeps the record
    /// count below the identifier type's ceiling, which no real store can
    /// reach.
    pub fn initiate_payment(
        &mut self,
        auth: &AuthContext,
        from: u64,
        amount: i128,
        asset: u64,
        receiver_id: String,
        target_asset: String,
        anchor_id: String,
    ) -> (r: Result<(u64, Transfer), Error>)
        requires
            old(self).payments@.len() < u64::MAX,
        ensures
            final(self).address == old(self).address,
            final(self).admin == old(self).admin,
            r is Err ==> *final(self) == *old(self),
            !auth.allows(from) ==> r == Err::<(u64, Transfer), Error>(Error::Unauthorized),
            auth.allows(from) ==> {
                &&& r matches Ok((id, t)) && id == old(self).payments@.len() + 1 && t == (Transfer {
                    token: asset,
                    from,
                    to: old(self).address,
                    amount,
                })
                &&& final(self).payments@.len() == old(self).payments@.len() + 1
                &&& forall|j: int|
                    0 <= j < old(self).payments@.len() ==> final(self).payments@[j] == old(
                        self,
                    ).payments@[j]
                &&& final(self).payments@.last().from == from
                &&& final(self).payments@.last().amount == amount
                &&& final(self).payments@.last().asset == asset
                &&& final(self).payments@.last().receiver_id == receiver_id
                &&& final(self).payments@.last().target_asset == target_asset
                &&& final(self).payments@.last().anchor_id == anchor_id
                &&& final(self).payments@.last().status@ == "pending"@
            },
    {
        if let Err(e) = auth.authorize(from) {
            return Err(e);
        }
        let count = self.payments.len() as u64;
        let record = PaymentRecord {
            from,
            amount,
            asset,
            receiver_id,
            target_asset,
            anchor_id,
            status: String::from_str("pending"),
        };
        self.payments.push(record);
        Ok((count + 1, Transfer { token: asset, from, to: self.address, amount }))
    }

    /// Advances the status of a stored payment, admin only. Rejects an
    /// uninitialized instance, a call without the admin's consent, and an
    /// unknown payment identifier, in that order; every failure leaves the
    /// instance unchanged.
    pub fn update_status(&mut self, auth: &AuthContext, payment_id: u64, new_status: String) -> (r:
        Result<(), Error>)
        ensures
            final(self).address == old(self).address,
            final(self).admin == old(self).admin,
            r is Err ==> *final(self) == *old(self),
            old(self).admin is None ==> r == Err::<(), Error>(Error::NotInitialized),
            old(self).admin matches Some(a) && !auth.allows(a) ==> r == Err::<(), Error>(
                Error::Unauthorized,
            ),
            old(self).admin matches Some(a) ==> (auth.allows(a) && !(1 <= payment_id
                && payment_id <= old(self).payments@.len()) ==> r == Err::<(), Error>(
                Error::PaymentNotFound,
            )),
            old(self).admin matches Some(a) ==> (auth.allows(a) && 1 <= payment_id && payment_id
                <= old(self).payments@.len() ==> {
                let k = payment_id - 1;
                let before = old(self).payments@[k];
                let after = final(self).payments@[k];
                &&& r is Ok
                &&& final(self).payments@.len() == old(self).payments@.len()
                &&& forall|j: int|
                    0 <= j < old(self).payments@.len() && j != k ==> final(self).payments@[j]
                        == old(self).payments@[j]
                &&& after.from == before.from
                &&& after.amount == before.amount
                &&& after.asset == before.asset
                &&& after.receiver_id == before.receiver_id
                &&& after.target_asset == before.target_asset
                &&& after.anchor_id == before.anchor_id
                &&& after.status == new_status
            }),
    {
        let admin = match &self.admin {
            Some(a) => *a,
            None => { return Err(Error::NotInitialized) },
        };
        if let Err(e) = auth.authorize(admin) {
            return Err(e);
        }
        if payment_id < 1 || payment_id > self.payments.len() as u64 {
            return Err(Error::PaymentNotFound);
        }
        let idx = (payment_id - 1) as usize;
        let mut record = self.payments[idx].clone();
        record.status = new_status;
        self.payments[idx] = record;
        Ok(())
    }

    /// The stored record under `payment_id`, if any. Read-only, no
    /// authorization.
    pub fn get_payment(&self, payment_id: u64) -> (r: Option<PaymentRecord>)
        ensures
            r is Some <==> 1 <= payment_id <= self.payments@.len(),
            r matches Some(p) ==> p == self.payments@[payment_id - 1],
    {
        if payment_id < 1 || payment_id > self.payments.len() as u64 {
            return None;
        }
        let idx = (payment_id - 1) as usize;
        Some(self.payments[idx].clone())
    }
}

} // verus!
