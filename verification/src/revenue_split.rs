use crate::auth::AuthContext;
use crate::errors::Error;
use crate::movement::{sum_transfer_amounts, Transfer};
use crate::movement::lemma_sum_transfer_amounts_push;
use vstd::arithmetic::div_mod::{
    lemma_div_is_ordered, lemma_div_is_ordered_by_denominator, lemma_div_nonincreasing,
    lemma_div_pos_is_pos, lemma_remainder_lower,
};
use vstd::arithmetic::mul::{
    lemma_mul_by_zero_is_zero, lemma_mul_is_distributive_add, lemma_mul_left_inequality,
    lemma_mul_nonnegative,
};
use vstd::prelude::*;

verus! {

/// The storage keys a contract instance uses: one slot for the admin, one
/// for the whole share table.
pub enum DataKey {
    Admin,
    Recipients,
}

/// One entry of the share table: a destination principal and its slice of
/// every distributed amount, in basis points.
#[derive(Clone, Copy, Debug, PartialEq, Eq, Structural)]
pub struct RecipientShare {
    /// Where this slice goes.
    pub destination: u64,
    /// The slice, in basis points (1/100 of a percent).
    pub basis_points: u32,
}

/// The whole: 10000 basis points make 100%.
pub const TOTAL_BASIS_POINTS: u32 = 10000;

/// The basis points of a share table, summed.
pub open spec fn sum_basis_points(shares: Seq<RecipientShare>) -> int
    decreases shares.len(),
{
    if shares.len() == 0 {
        0
    } else {
        sum_basis_points(shares.drop_last()) + shares.last().basis_points
    }
}

/// Extending a prefix of the share table by one entry adds that entry's
/// basis points to the prefix sum.
proof fn lemma_sum_take_step(s: Seq<RecipientShare>, i: int)
    requires
        0 <= i < s.len(),
    ensures
        sum_basis_points(s.take(i + 1)) == sum_basis_points(s.take(i)) + s[i].basis_points,
{
    assert(s.take(i + 1).drop_last() =~= s.take(i));
    assert(s.take(i + 1).last() == s[i]);
}

/// No prefix of a share table sums to more than the whole table: basis
/// points are unsigned.
proof fn lemma_sum_prefix_bound(s: Seq<RecipientShare>, i: int)
    requires
        0 <= i <= s.len(),
    ensures
        sum_basis_points(s.take(i)) <= sum_basis_points(s),
    decreases s.len() - i,
{
    if i == s.len() {
        assert(s.take(i) =~= s);
    } else {
        lemma_sum_take_step(s, i);
        lemma_sum_prefix_bound(s, i + 1);
    }
}

/// Division that truncates toward zero, as the amount type's division does.
/// For the non-negative operands of an ordinary distribution this is plain
/// flooring division.
pub open spec fn div_toward_zero(x: int, d: int) -> int {
    if x >= 0 {
        x / d
    } else {
        -((-x) / d)
    }
}

/// The slice of `amount` a share of `bp` basis points receives, rounded
/// toward zero.
pub open spec fn share_amount(amount: int, bp: int) -> int {
    div_toward_zero(amount * bp, TOTAL_BASIS_POINTS as int)
}

/// A value clipped to zero from below: only positive computed slices are
/// transferred and counted.
pub open spec fn positive_part(x: int) -> int {
    if x > 0 {
        x
    } else {
        0
    }
}

/// The running total a distribution has handed out after the first `n`
/// entries of the share table, counting only the positive computed slices,
/// as the transfer loop does.
pub open spec fn distributed_through(shares: Seq<RecipientShare>, amount: int, n: int) -> int
    decreases n,
{
    if n <= 0 {
        0
    } else {
        distributed_through(shares, amount, n - 1) + positive_part(
            share_amount(amount, shares[n - 1].basis_points as int),
        )
    }
}

/// What entry `i` of the share table is owed out of `amount`: its computed
/// slice, except that the last entry is owed the exact remainder, so that
/// the rounding dust ends up with it and the total adds up to `amount`.
pub open spec fn payout_amount(shares: Seq<RecipientShare>, amount: int, i: int) -> int {
    if i == shares.len() - 1 {
        amount - distributed_through(shares, amount, i)
    } else {
        share_amount(amount, shares[i].basis_points as int)
    }
}

/// The transfers a distribution performs for the first `n` entries of the
/// share table, in table order, skipping entries whose payout is not
/// positive.
pub open spec fn expected_transfers(
    shares: Seq<RecipientShare>,
    token: u64,
    from: u64,
    amount: int,
    n: int,
) -> Seq<Transfer>
    decreases n,
{
    if n <= 0 {
        Seq::empty()
    } else {
        let rest = expected_transfers(shares, token, from, amount, n - 1);
        let p = payout_amount(shares, amount, n - 1);
        if p > 0 {
            rest.push((Transfer { token, from, to: shares[n - 1].destination, amount: p as i128 }))
        } else {
            rest
        }
    }
}

/// Whether every product the distribution loop forms stays within the
/// amount type. The last entry's payout is a subtraction, not a product, so
/// the last entry is exempt.
pub open spec fn products_fit(shares: Seq<RecipientShare>, amount: i128) -> bool {
    forall|i: int|
        0 <= i < shares.len() - 1 ==> i128::MIN <= amount * (#[trigger] shares[i].basis_points
            as int) <= i128::MAX
}

/// One revenue split instance: its keyed store holds at most one admin and
/// at most one share table.
pub struct RevenueSplitContract {
    /// The principal allowed to replace the admin and the share table.
    pub admin: Option<u64>,
    /// The share table. Replaced wholesale, never partially mutated.
    pub recipients: Option<Vec<RecipientShare>>,
}

impl RevenueSplitContract {
    /// Well-formedness: admin and share table are written together, and a
    /// stored share table sums to exactly the whole.
    pub open spec fn wf(self) -> bool {
        &&& self.admin is Some <==> self.recipients is Some
        &&& (self.recipients matches Some(s) ==> sum_basis_points(s@) == TOTAL_BASIS_POINTS)
    }

    /// A fresh, uninitialized instance.
    pub fn new() -> (r: Self)
        ensures
            r.admin is None,
            r.recipients is None,
            r.wf(),
    {
        RevenueSplitContract { admin: None, recipients: None }
    }

    /// Whether a share table sums to exactly the whole.
    fn shares_sum_ok(shares: &Vec<RecipientShare>) -> (r: bool)
        ensures
            r <==> sum_basis_points(shares@) == TOTAL_BASIS_POINTS,
    {
        let n = shares.len();
        let mut total_bp: u64 = 0;
        let mut i: usize = 0;
        while i < n
            invariant
                n == shares@.len(),
                i <= n,
                total_bp == sum_basis_points(shares@.take(i as int)),
                total_bp <= TOTAL_BASIS_POINTS,
            decreases n - i,
        {
            proof {
                lemma_sum_take_step(shares@, i as int);
            }
            total_bp = total_bp + shares[i].basis_points as u64;
            if total_bp > TOTAL_BASIS_POINTS as u64 {
                proof {
                    lemma_sum_prefix_bound(shares@, i + 1);
                }
                return false;
            }
            i += 1;
        }
        proof {
            assert(shares@.take(n as int) =~= shares@);
        }
        total_bp == TOTAL_BASIS_POINTS as u64
    }

    /// Writes the admin and the initial share table, after checking that
    /// the table sums to exactly the whole. Rejects a second initialization
    /// and an invalid sum; every rejection leaves the instance unchanged.
    pub fn init(&mut self, admin: u64, shares: Vec<RecipientShare>) -> (r: Result<(), Error>)
        requires
            old(self).wf(),
        ensures
            final(self).wf(),
            r is Err ==> *final(self) == *old(self),
            old(self).admin is Some ==> r == Err::<(), Error>(Error::AlreadyInitialized),
            old(self).admin is None && sum_basis_points(shares@) != TOTAL_BASIS_POINTS ==> r
                == Err::<(), Error>(Error::InvalidShareSum),
            old(self).admin is None && sum_basis_points(shares@) == TOTAL_BASIS_POINTS ==> {
                &&& r is Ok
                &&& final(self).admin == Some(admin)
                &&& final(self).recipients matches Some(s) && s@ == shares@
            },
    {
        if self.admin.is_some() {
            return Err(Error::AlreadyInitialized);
        }
        if !Self::shares_sum_ok(&shares) {
            return Err(Error::InvalidShareSum);
        }
        self.admin = Some(admin);
        self.recipients = Some(shares);
        Ok(())
    }

    /// Lets the current admin hand the role to a new principal. The share
    /// table is untouched; every failure leaves the instance unchanged.
    pub fn set_admin(&mut self, auth: &AuthContext, new_admin: u64) -> (r: Result<(), Error>)
        requires
            old(self).wf(),
        ensures
            final(self).wf(),
            r is Err ==> *final(self) == *old(self),
            old(self).admin is None ==> r == Err::<(), Error>(Error::NotInitialized),
            old(self).admin matches Some(a) && !auth.allows(a) ==> r == Err::<(), Error>(
                Error::Unauthorized,
            ),
            old(self).admin matches Some(a) ==> (auth.allows(a) ==> {
                &&& r is Ok
                &&& final(self).admin == Some(new_admin)
                &&& final(self).recipients == old(self).recipients
            }),
    {
        let admin = match &self.admin {
            Some(a) => *a,
            None => { return Err(Error::NotInitialized) },
        };
        if let Err(e) = auth.authorize(admin) {
            return Err(e);
        }
        self.admin = Some(new_admin);
        Ok(())
    }

    /// Replaces the share table wholesale, admin only. A table whose basis
    /// points do not sum to exactly the whole is rejected and the prior
    /// table stays in force; every failure leaves the instance unchanged.
    pub fn update_recipients(&mut self, auth: &AuthContext, new_shares: Vec<RecipientShare>) -> (r:
        Result<(), Error>)
        requires
            old(self).wf(),
        ensures
            final(self).wf(),
            r is Err ==> *final(self) == *old(self),
            old(self).admin is None ==> r == Err::<(), Error>(Error::NotInitialized),
            old(self).admin matches Some(a) && !auth.allows(a) ==> r == Err::<(), Error>(
                Error::Unauthorized,
            ),
            old(self).admin matches Some(a) ==> (auth.allows(a) && sum_basis_points(new_shares@)
                != TOTAL_BASIS_POINTS ==> r == Err::<(), Error>(Error::InvalidShareSum)),
            old(self).admin matches Some(a) ==> (auth.allows(a) && sum_basis_points(new_shares@)
                == TOTAL_BASIS_POINTS ==> {
                &&& r is Ok
                &&& final(self).admin == old(self).admin
                &&& final(self).recipients matches Some(s) && s@ == new_shares@
            }),
    {
        let admin = match &self.admin {
            Some(a) => *a,
            None => { return Err(Error::NotInitialized) },
        };
        if let Err(e) = auth.authorize(admin) {
            return Err(e);
        }
        if !Self::shares_sum_ok(&new_shares) {
            return Err(Error::InvalidShareSum);
        }
        self.recipients = Some(new_shares);
        Ok(())
    }

    /// Apportions `amount` of `token` held by `from` among the stored
    /// recipients, in table order: every entry but the last gets its slice
    /// rounded toward zero, the last gets the exact remainder, so the
    /// returned transfers move `amount` exactly, with all rounding dust
    /// absorbed by the last recipient. Entries whose computed slice is not
    /// positive are skipped without a transfer. Nothing is persisted: each
    /// call is independent, and the host performs the returned transfers
    /// all-or-nothing.
    pub fn distribute(&self, auth: &AuthContext, token: u64, from: u64, amount: i128) -> (r: Result<
        Vec<Transfer>,
        Error,
    >)
        requires
            self.wf(),
        ensures
            !auth.allows(from) ==> r == Err::<Vec<Transfer>, Error>(Error::Unauthorized),
            auth.allows(from) && self.recipients is None ==> r == Err::<Vec<Transfer>, Error>(
                Error::NotInitialized,
            ),
            self.recipients matches Some(shares) ==> (auth.allows(from) && !products_fit(
                shares@,
                amount,
            ) ==> r == Err::<Vec<Transfer>, Error>(Error::ArithmeticOverflow)),
            self.recipients matches Some(shares) ==> (auth.allows(from) && products_fit(
                shares@,
                amount,
            ) ==> (r matches Ok(ts) && ts@ == expected_transfers(
                shares@,
                token,
                from,
                amount as int,
                shares@.len() as int,
            ))),
            // Conservation: what the transfers move adds up to exactly the
            // distributed amount.
            r matches Ok(ts) ==> (amount >= 0 ==> sum_transfer_amounts(ts@) == amount),
            // A non-positive amount gives nothing to move.
            r matches Ok(ts) ==> (amount <= 0 ==> ts@.len() == 0),
    {
        if let Err(e) = auth.authorize(from) {
            return Err(e);
        }
        let shares = match &self.recipients {
            Some(s) => s,
            None => { return Err(Error::NotInitialized) },
        };
        let ghost gshares = shares@;
        let ghost gamount = amount as int;
        let n = shares.len();
        // An empty table would sum to zero basis points, so a stored table
        // has at least one entry: the remainder absorber exists.
        assert(n >= 1) by {
            if gshares.len() == 0 {
                assert(sum_basis_points(gshares) == 0);
            }
        }
        let mut ts: Vec<Transfer> = Vec::new();
        let mut amount_distributed: i128 = 0;
        let mut i: usize = 0;
        while i < n - 1
            invariant
                self.wf(),
                auth.allows(from),
                self.recipients matches Some(s) && s@ == gshares,
                shares@ == gshares,
                gamount == amount as int,
                n == gshares.len(),
                1 <= n,
                i <= n - 1,
                amount_distributed == distributed_through(gshares, gamount, i as int),
                ts@ == expected_transfers(gshares, token, from, gamount, i as int),
                sum_transfer_amounts(ts@) == amount_distributed,
                forall|j: int|
                    0 <= j < i ==> i128::MIN <= gamount * (#[trigger] gshares[j].basis_points
                        as int) <= i128::MAX,
                amount >= 0 ==> 0 <= amount_distributed && amount_distributed * (
                TOTAL_BASIS_POINTS as int) <= gamount * sum_basis_points(gshares.take(i as int)),
                amount <= 0 ==> ts@.len() == 0,
                amount < 0 ==> amount_distributed == 0,
            decreases n - 1 - i,
        {
            let ghost whole = TOTAL_BASIS_POINTS as int;
            let bp = shares[i].basis_points;
            let product = match amount.checked_mul(bp as i128) {
                Some(p) => p,
                None => {
                    proof {
                        // This very index is a witness that the products do
                        // not all fit.
                        assert(gamount * (gshares[i as int].basis_points as int) > i128::MAX
                            || gamount * (gshares[i as int].basis_points as int) < i128::MIN);
                        assert(!products_fit(gshares, amount));
                    }
                    return Err(Error::ArithmeticOverflow)
                },
            };
            let recipient_amount = match product.checked_div(TOTAL_BASIS_POINTS as i128) {
                Some(v) => v,
                None => {
                    proof {
                        // Truncating division by the whole cannot leave the
                        // amount type: the magnitude only shrinks.
                        if product >= 0 {
                            lemma_div_pos_is_pos(product as int, whole);
                            lemma_div_nonincreasing(product as int, whole);
                        } else {
                            let m = -(product as int);
                            lemma_div_pos_is_pos(m, whole);
                            lemma_div_is_ordered_by_denominator(m, 2, whole);
                            lemma_div_is_ordered(m, 0x8000_0000_0000_0000_0000_0000_0000_0000, 2);
                        }
                        assert(false);
                    }
                    return Err(Error::ArithmeticOverflow)
                },
            };
            proof {
                let stake = sum_basis_points(gshares.take(i as int));
                let stake1 = sum_basis_points(gshares.take(i as int + 1));
                lemma_sum_take_step(gshares, i as int);
                assert(recipient_amount as int == share_amount(gamount, bp as int));
                if amount >= 0 {
                    // The slice is non-negative and, scaled back up by the
                    // whole, at most this entry's exact part of the amount.
                    lemma_mul_nonnegative(gamount, bp as int);
                    lemma_div_pos_is_pos(product as int, whole);
                    lemma_remainder_lower(product as int, whole);
                    assert(recipient_amount * whole <= gamount * (bp as int));
                    lemma_mul_is_distributive_add(gamount, stake, bp as int);
                    assert((amount_distributed + recipient_amount) * whole <= gamount * stake1);
                    // The new running total is still at most the amount.
                    lemma_sum_prefix_bound(gshares, i as int + 1);
                    if amount > 0 {
                        lemma_mul_left_inequality(gamount, stake1, whole);
                    }
                    assert(amount_distributed + recipient_amount <= gamount);
                } else {
                    // A non-positive product yields a non-positive slice.
                    assert(product as int <= 0) by (nonlinear_arith)
                        requires
                            gamount < 0,
                            bp >= 0,
                            product as int == gamount * (bp as int),
                    ;
                    lemma_div_pos_is_pos(-(product as int), whole);
                    assert(recipient_amount <= 0);
                }
            }
            if recipient_amount > 0 {
                ts.push(
                    Transfer { token, from, to: shares[i].destination, amount: recipient_amount },
                );
                amount_distributed = amount_distributed + recipient_amount;
                proof {
                    lemma_sum_transfer_amounts_push(
                        ts@.drop_last(),
                        ts@.last(),
                    );
                    assert(ts@.drop_last() =~= expected_transfers(
                        gshares,
                        token,
                        from,
                        gamount,
                        i as int,
                    ));
                }
            }
            i += 1;
        }
        // The last recipient takes the exact remainder, dust included.
        proof {
            if amount > 0 {
                lemma_sum_prefix_bound(gshares, n - 1);
                lemma_mul_left_inequality(
                    gamount,
                    sum_basis_points(gshares.take(n - 1)),
                    TOTAL_BASIS_POINTS as int,
                );
                assert(amount_distributed <= gamount);
            } else if amount == 0 {
                lemma_mul_by_zero_is_zero(sum_basis_points(gshares.take(n - 1)));
                assert(amount_distributed <= gamount);
            }
        }
        let final_amount = amount - amount_distributed;
        if final_amount > 0 {
            ts.push(Transfer { token, from, to: shares[n - 1].destination, amount: final_amount });
            proof {
                lemma_sum_transfer_amounts_push(ts@.drop_last(), ts@.last());
                assert(ts@.drop_last() =~= expected_transfers(
                    gshares,
                    token,
                    from,
                    gamount,
                    n - 1,
                ));
            }
        }
        proof {
            assert(payout_amount(gshares, gamount, n - 1) == gamount - distributed_through(
                gshares,
                gamount,
                n - 1,
            ));
            assert(ts@ == expected_transfers(gshares, token, from, gamount, n as int));
        }
        Ok(ts)
    }
}

} // verus!
