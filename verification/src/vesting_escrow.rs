use crate::auth::AuthContext;
use crate::errors::Error;
use crate::movement::Transfer;
use vstd::arithmetic::div_mod::{
    lemma_div_is_ordered, lemma_div_is_ordered_by_denominator, lemma_div_multiples_vanish,
};
use vstd::arithmetic::mul::lemma_mul_inequality;
use vstd::prelude::*;

verus! {

/// The one vesting grant a contract instance custodies. Created once,
/// mutated only by `claim` and `clawback`, never deleted.
#[derive(Clone, Copy, Debug, PartialEq, Eq, Structural)]
pub struct VestingConfig {
    /// The principal entitled to claim vested funds.
    pub beneficiary: u64,
    /// The custodied fungible asset.
    pub token: u64,
    /// When the schedule starts.
    pub start_time: u64,
    /// Seconds after `start_time` during which nothing accrues.
    pub cliff_seconds: u64,
    /// Seconds after `start_time` at which the full amount has accrued.
    pub duration_seconds: u64,
    /// The amount the schedule releases in total. Positive at creation;
    /// decreased at most once, by clawback.
    pub total_amount: i128,
    /// How much the beneficiary has claimed so far. Never decreases.
    pub claimed_amount: i128,
    /// The principal entitled to revoke the grant.
    pub clawback_admin: u64,
    /// Starts `true`; set to `false` exactly once, by clawback.
    pub is_active: bool,
}

/// The storage key under which a contract instance keeps its one grant.
pub enum DataKey {
    Config,
}

/// Well-formedness of a stored grant: the schedule is consistent, the
/// claimed amount lies between zero and the total, and an active grant is
/// over a positive amount. Established at initialization and preserved by
/// every operation.
pub open spec fn config_wf(c: VestingConfig) -> bool {
    &&& c.cliff_seconds <= c.duration_seconds
    &&& 0 <= c.claimed_amount <= c.total_amount
    &&& (c.is_active ==> c.total_amount > 0)
}

/// The entitlement accrued by time `now`: zero before the cliff, the full
/// (possibly clawback-capped) amount after the schedule ends or once the
/// grant is revoked, and otherwise a linear share, rounded down.
///
/// A schedule with `duration_seconds == 0` never reaches the linear branch:
/// it vests in full the moment `now` reaches `start_time`.
pub open spec fn accrued_spec(c: VestingConfig, now: u64) -> int {
    if now < c.start_time + c.cliff_seconds {
        0
    } else if now >= c.start_time + c.duration_seconds || !c.is_active {
        c.total_amount as int
    } else {
        c.total_amount * (now - c.start_time) / (c.duration_seconds as int)
    }
}

/// Whether the wide product formed in the linear branch of the accrual
/// computation stays within the amount type. When the linear branch is not
/// taken, nothing is multiplied and this holds vacuously.
pub open spec fn accrual_fits(c: VestingConfig, now: u64) -> bool {
    (c.start_time + c.cliff_seconds <= now && now < c.start_time + c.duration_seconds
        && c.is_active) ==> c.total_amount * (now - c.start_time) <= i128::MAX
}

/// The grant as clawback at time `t` leaves it: accrual capped at what had
/// vested by `t`, and the grant marked revoked.
pub open spec fn spec_clawback(c: VestingConfig, t: u64) -> VestingConfig {
    (VestingConfig { total_amount: accrued_spec(c, t) as i128, is_active: false, ..c })
}

/// The grant as a claim at time `t` leaves it: everything accrued by `t`
/// is recorded as claimed, and a claim with nothing to take changes
/// nothing.
pub open spec fn spec_claim(c: VestingConfig, t: u64) -> VestingConfig {
    if accrued_spec(c, t) > c.claimed_amount {
        (VestingConfig { claimed_amount: accrued_spec(c, t) as i128, ..c })
    } else {
        c
    }
}

/// The accrued entitlement stays between zero and the total amount.
pub proof fn lemma_accrued_bounds(c: VestingConfig, now: u64)
    requires
        config_wf(c),
    ensures
        0 <= accrued_spec(c, now) <= c.total_amount,
{
    if c.start_time + c.cliff_seconds <= now && now < c.start_time + c.duration_seconds
        && c.is_active {
        let total = c.total_amount as int;
        let elapsed = (now - c.start_time) as int;
        let duration = c.duration_seconds as int;
        lemma_mul_inequality(elapsed, duration, total);
        lemma_div_is_ordered(0, total * elapsed, duration);
        lemma_div_is_ordered(total * elapsed, total * duration, duration);
        lemma_div_multiples_vanish(total, duration);
        assert(total * elapsed == elapsed * total) by (nonlinear_arith);
        assert(total * duration == duration * total) by (nonlinear_arith);
    }
}

/// The accrued entitlement of an active grant never decreases as time
/// advances.
pub proof fn lemma_accrued_monotone(c: VestingConfig, t1: u64, t2: u64)
    requires
        config_wf(c),
        c.is_active,
        t1 <= t2,
    ensures
        accrued_spec(c, t1) <= accrued_spec(c, t2),
{
    lemma_accrued_bounds(c, t1);
    lemma_accrued_bounds(c, t2);
    if c.start_time + c.cliff_seconds <= t1 && t1 < c.start_time + c.duration_seconds
        && c.start_time + c.cliff_seconds <= t2 && t2 < c.start_time + c.duration_seconds {
        let total = c.total_amount as int;
        let e1 = (t1 - c.start_time) as int;
        let e2 = (t2 - c.start_time) as int;
        let duration = c.duration_seconds as int;
        lemma_mul_inequality(e1, e2, total);
        assert(total * e1 == e1 * total) by (nonlinear_arith);
        assert(total * e2 == e2 * total) by (nonlinear_arith);
        lemma_div_is_ordered(total * e1, total * e2, duration);
    }
}

/// Nothing has accrued at the start of a schedule with a non-trivial cliff.
pub proof fn lemma_accrued_zero_at_start(c: VestingConfig)
    requires
        config_wf(c),
        c.cliff_seconds > 0,
    ensures
        accrued_spec(c, c.start_time) == 0,
{
}

/// From the end of the schedule on, the full amount has accrued.
pub proof fn lemma_accrued_full_at_end(c: VestingConfig, t: u64)
    requires
        config_wf(c),
        t >= c.start_time + c.duration_seconds,
    ensures
        accrued_spec(c, t) == c.total_amount,
{
}

/// A claimed amount that the accrued entitlement had covered stays covered
/// at every later time, whether or not the grant is still active.
pub proof fn lemma_claimed_within_accrual(c: VestingConfig, t1: u64, t2: u64)
    requires
        config_wf(c),
        c.claimed_amount <= accrued_spec(c, t1),
        t1 <= t2,
    ensures
        c.claimed_amount <= accrued_spec(c, t2),
{
    if c.is_active {
        lemma_accrued_monotone(c, t1, t2);
    }
}

/// Along any non-decreasing sequence of times, claiming keeps the claimed
/// amount within its bounds: a claim at a later time never decreases it
/// and never pushes it past the entitlement accrued by then.
pub proof fn lemma_claim_keeps_claims_covered(c: VestingConfig, t1: u64, t2: u64)
    requires
        config_wf(c),
        c.claimed_amount <= accrued_spec(c, t1),
        t1 <= t2,
    ensures
        spec_claim(c, t2).claimed_amount >= c.claimed_amount,
        spec_claim(c, t2).claimed_amount <= accrued_spec(spec_claim(c, t2), t2),
{
    lemma_accrued_bounds(c, t2);
    lemma_claimed_within_accrual(c, t1, t2);
}

/// After a clawback at time `t`, the accrued entitlement is frozen: at
/// every time from `t` on it equals what had accrued by `t`.
pub proof fn lemma_clawback_freezes_accrual(c: VestingConfig, t: u64, t2: u64)
    requires
        config_wf(c),
        c.is_active,
        t <= t2,
    ensures
        accrued_spec(spec_clawback(c, t), t2) == accrued_spec(c, t),
{
    lemma_accrued_bounds(c, t);
}

/// One vesting escrow instance: its own address (the custody account the
/// external transfer capability debits and credits) and its keyed store,
/// which holds at most one grant, under [`DataKey::Config`].
pub struct VestingContract {
    /// The custody account of this instance.
    pub address: u64,
    /// The stored grant, if one was initialized.
    pub config: Option<VestingConfig>,
}

impl VestingContract {
    /// Well-formedness of the instance: whatever grant is stored is
    /// well-formed.
    pub open spec fn wf(self) -> bool {
        self.config matches Some(c) ==> config_wf(c)
    }

    /// The host's clock is monotone and claims only ever record already
    /// accrued entitlement, so the stored claimed amount never runs ahead
    /// of the entitlement accrued by the current time. Operations that rely
    /// on this guarantee state it as a precondition;
    /// [`lemma_claimed_within_accrual`] shows it is preserved as time
    /// advances.
    pub open spec fn time_consistent(self, now: u64) -> bool {
        self.config matches Some(c) ==> c.claimed_amount <= accrued_spec(c, now)
    }

    /// A fresh, uninitialized instance at the given custody address.
    pub fn new(address: u64) -> (r: Self)
        ensures
            r.address == address,
            r.config is None,
    {
        VestingContract { address, config: None }
    }

    /// Writes the one grant of this instance and hands back the movement of
    /// `amount` from the funder into custody, which the host must perform
    /// before committing the new state. Rejects a second initialization, a
    /// call without the funder's consent, a schedule whose duration is
    /// shorter than its cliff, and a non-positive amount, in that order;
    /// every rejection leaves the instance unchanged.
    pub fn initialize(
        &mut self,
        auth: &AuthContext,
        funder: u64,
        beneficiary: u64,
        token: u64,
        start_time: u64,
        cliff_seconds: u64,
        duration_seconds: u64,
        amount: i128,
        clawback_admin: u64,
    ) -> (r: Result<Transfer, Error>)
        requires
            old(self).wf(),
        ensures
            final(self).address == old(self).address,
            r is Err ==> *final(self) == *old(self),
            old(self).config is Some ==> r == Err::<Transfer, Error>(Error::AlreadyInitialized),
            old(self).config is None && !auth.allows(funder) ==> r == Err::<Transfer, Error>(
                Error::Unauthorized,
            ),
            old(self).config is None && auth.allows(funder) && duration_seconds < cliff_seconds
                ==> r == Err::<Transfer, Error>(Error::InvalidSchedule),
            old(self).config is None && auth.allows(funder) && duration_seconds >= cliff_seconds
                && amount <= 0 ==> r == Err::<Transfer, Error>(Error::InvalidAmount),
            old(self).config is None && auth.allows(funder) && duration_seconds >= cliff_seconds
                && amount > 0 ==> {
                &&& r == Ok::<Transfer, Error>(
                    (Transfer { token, from: funder, to: old(self).address, amount }),
                )
                &&& final(self).config == Some(
                    (VestingConfig {
                        beneficiary,
                        token,
                        start_time,
                        cliff_seconds,
                        duration_seconds,
                        total_amount: amount,
                        claimed_amount: 0,
                        clawback_admin,
                        is_active: true,
                    }),
                )
            },
            final(self).wf(),
    {
        if self.config.is_some() {
            return Err(Error::AlreadyInitialized);
        }
        if let Err(e) = auth.authorize(funder) {
            return Err(e);
        }
        if duration_seconds < cliff_seconds {
            return Err(Error::InvalidSchedule);
        }
        if amount <= 0 {
            return Err(Error::InvalidAmount);
        }
        self.config = Some(
            VestingConfig {
                beneficiary,
                token,
                start_time,
                cliff_seconds,
                duration_seconds,
                total_amount: amount,
                claimed_amount: 0,
                clawback_admin,
                is_active: true,
            },
        );
        Ok(Transfer { token, from: funder, to: self.address, amount })
    }

    /// The accrued entitlement at time `now`, the single source of truth
    /// used by claims, clawback and the read-only queries. Fails only when
    /// the wide product of the linear branch leaves the amount type.
    pub fn calc_vested(config: &VestingConfig, now: u64) -> (r: Result<i128, Error>)
        requires
            config_wf(*config),
        ensures
            r is Ok <==> accrual_fits(*config, now),
            r matches Ok(v) ==> v == accrued_spec(*config, now),
            r is Err ==> r == Err::<i128, Error>(Error::ArithmeticOverflow),
    {
        proof {
            lemma_accrued_bounds(*config, now);
        }
        if now < config.start_time {
            return Ok(0);
        }
        let elapsed_time = now - config.start_time;
        if elapsed_time < config.cliff_seconds {
            return Ok(0);
        }
        if elapsed_time >= config.duration_seconds || !config.is_active {
            return Ok(config.total_amount);
        }
        // Linear accrual: 0 <= cliff <= elapsed < duration, and the grant is
        // active, so the total is positive and the divisor is at least one.
        let elapsed = elapsed_time as i128;
        let duration = config.duration_seconds as i128;
        match config.total_amount.checked_mul(elapsed) {
            Some(product) => {
                proof {
                    lemma_div_is_ordered(0, product as int, duration as int);
                }
                match product.checked_div(duration) {
                    Some(v) => Ok(v),
                    None => {
                        proof {
                            // A non-negative product divided by a positive
                            // divisor neither divides by zero nor overflows.
                            lemma_div_is_ordered_by_denominator(product as int, 1, duration as int);
                        }
                        Err(Error::ArithmeticOverflow)
                    },
                }
            },
            None => Err(Error::ArithmeticOverflow),
        }
    }

    /// Records all entitlement accrued by `now` that was not claimed yet and
    /// hands back its movement from custody to the beneficiary, which the
    /// host must perform before committing the new state. A call with
    /// nothing to claim succeeds as a deliberate no-op: no state change, no
    /// transfer. Claims stay valid after a clawback, against the then frozen
    /// total. Every failure leaves the instance unchanged.
    pub fn claim(&mut self, auth: &AuthContext, now: u64) -> (r: Result<Option<Transfer>, Error>)
        requires
            old(self).wf(),
        ensures
            final(self).wf(),
            final(self).address == old(self).address,
            r is Err ==> *final(self) == *old(self),
            old(self).config is None ==> r == Err::<Option<Transfer>, Error>(
                Error::NotInitialized,
            ),
            old(self).config matches Some(c) && !auth.allows(c.beneficiary) ==> r == Err::<
                Option<Transfer>,
                Error,
            >(Error::Unauthorized),
            old(self).config matches Some(c) && auth.allows(c.beneficiary) && !accrual_fits(c, now)
                ==> r == Err::<Option<Transfer>, Error>(Error::ArithmeticOverflow),
            old(self).config matches Some(c) ==> (auth.allows(c.beneficiary) && accrual_fits(
                c,
                now,
            ) && accrued_spec(c, now) <= c.claimed_amount ==> r == Ok::<Option<Transfer>, Error>(
                None,
            ) && *final(self) == *old(self)),
            old(self).config matches Some(c) ==> (auth.allows(c.beneficiary) && accrual_fits(
                c,
                now,
            ) && accrued_spec(c, now) > c.claimed_amount ==> {
                &&& r == Ok::<Option<Transfer>, Error>(
                    Some(
                        (Transfer {
                            token: c.token,
                            from: old(self).address,
                            to: c.beneficiary,
                            amount: (accrued_spec(c, now) - c.claimed_amount) as i128,
                        }),
                    ),
                )
                &&& final(self).config == Some(
                    (VestingConfig { claimed_amount: accrued_spec(c, now) as i128, ..c }),
                )
            }),
            // Both successful outcomes are one step of `spec_claim`.
            old(self).config matches Some(c) ==> (auth.allows(c.beneficiary) && accrual_fits(
                c,
                now,
            ) ==> final(self).config == Some(spec_claim(c, now))),
            // The claimed amount never decreases.
            old(self).config matches Some(c) ==> final(self).config matches Some(c2)
                && c2.claimed_amount >= c.claimed_amount,
    {
        let config = match &self.config {
            Some(c) => *c,
            None => { return Err(Error::NotInitialized) },
        };
        if let Err(e) = auth.authorize(config.beneficiary) {
            return Err(e);
        }
        let vested = match Self::calc_vested(&config, now) {
            Ok(v) => v,
            Err(e) => { return Err(e) },
        };
        proof {
            lemma_accrued_bounds(config, now);
        }
        let claimable = vested - config.claimed_amount;
        if claimable <= 0 {
            // Nothing to claim: succeed without touching state.
            return Ok(None);
        }
        self.config = Some(VestingConfig { claimed_amount: vested, ..config });
        Ok(Some(Transfer {
            token: config.token,
            from: self.address,
            to: config.beneficiary,
            amount: claimable,
        }))
    }

    /// Revokes the grant: caps all future accrual at what had vested by
    /// `now` and, if anything was still unvested, hands back its movement
    /// from custody to the clawback admin, which the host must perform
    /// before committing the new state. Fails on a grant already revoked;
    /// every failure leaves the instance unchanged.
    pub fn clawback(&mut self, auth: &AuthContext, now: u64) -> (r: Result<
        Option<Transfer>,
        Error,
    >)
        requires
            old(self).wf(),
            old(self).time_consistent(now),
        ensures
            final(self).wf(),
            final(self).address == old(self).address,
            r is Err ==> *final(self) == *old(self),
            old(self).config is None ==> r == Err::<Option<Transfer>, Error>(
                Error::NotInitialized,
            ),
            old(self).config matches Some(c) && !auth.allows(c.clawback_admin) ==> r == Err::<
                Option<Transfer>,
                Error,
            >(Error::Unauthorized),
            old(self).config matches Some(c) && auth.allows(c.clawback_admin) && !c.is_active ==> r
                == Err::<Option<Transfer>, Error>(Error::AlreadyRevoked),
            old(self).config matches Some(c) && auth.allows(c.clawback_admin) && c.is_active
                && !accrual_fits(c, now) ==> r == Err::<Option<Transfer>, Error>(
                Error::ArithmeticOverflow,
            ),
            old(self).config matches Some(c) ==> (auth.allows(c.clawback_admin) && c.is_active
                && accrual_fits(c, now) ==> {
                &&& final(self).config == Some(spec_clawback(c, now))
                &&& r == Ok::<Option<Transfer>, Error>(
                    if accrued_spec(c, now) < c.total_amount {
                        Some(
                            (Transfer {
                                token: c.token,
                                from: old(self).address,
                                to: c.clawback_admin,
                                amount: (c.total_amount - accrued_spec(c, now)) as i128,
                            }),
                        )
                    } else {
                        None
                    },
                )
            }),
            // The claimed amount never decreases (here: never changes).
            old(self).config matches Some(c) ==> final(self).config matches Some(c2)
                && c2.claimed_amount >= c.claimed_amount,
    {
        let config = match &self.config {
            Some(c) => *c,
            None => { return Err(Error::NotInitialized) },
        };
        if let Err(e) = auth.authorize(config.clawback_admin) {
            return Err(e);
        }
        if !config.is_active {
            return Err(Error::AlreadyRevoked);
        }
        let vested = match Self::calc_vested(&config, now) {
            Ok(v) => v,
            Err(e) => { return Err(e) },
        };
        proof {
            lemma_accrued_bounds(config, now);
        }
        let unvested = config.total_amount - vested;
        // Cap the grant at what had vested the moment of revocation.
        self.config = Some(VestingConfig { total_amount: vested, is_active: false, ..config });
        if unvested > 0 {
            Ok(Some(Transfer {
                token: config.token,
                from: self.address,
                to: config.clawback_admin,
                amount: unvested,
            }))
        } else {
            Ok(None)
        }
    }

    /// The entitlement accrued by `now`. Read-only, no authorization.
    pub fn get_vested_amount(&self, now: u64) -> (r: Result<i128, Error>)
        requires
            self.wf(),
        ensures
            self.config is None ==> r == Err::<i128, Error>(Error::NotInitialized),
            self.config matches Some(c) && !accrual_fits(c, now) ==> r == Err::<i128, Error>(
                Error::ArithmeticOverflow,
            ),
            self.config matches Some(c) ==> (accrual_fits(c, now) ==> r == Ok::<i128, Error>(
                accrued_spec(c, now) as i128,
            )),
    {
        let config = match &self.config {
            Some(c) => *c,
            None => { return Err(Error::NotInitialized) },
        };
        proof {
            lemma_accrued_bounds(config, now);
        }
        Self::calc_vested(&config, now)
    }

    /// The entitlement accrued by `now` and not claimed yet. Read-only, no
    /// authorization.
    pub fn get_claimable_amount(&self, now: u64) -> (r: Result<i128, Error>)
        requires
            self.wf(),
        ensures
            self.config is None ==> r == Err::<i128, Error>(Error::NotInitialized),
            self.config matches Some(c) && !accrual_fits(c, now) ==> r == Err::<i128, Error>(
                Error::ArithmeticOverflow,
            ),
            self.config matches Some(c) ==> (accrual_fits(c, now) ==> r == Ok::<i128, Error>(
                (accrued_spec(c, now) - c.claimed_amount) as i128,
            )),
    {
        let config = match &self.config {
            Some(c) => *c,
            None => { return Err(Error::NotInitialized) },
        };
        let vested = match Self::calc_vested(&config, now) {
            Ok(v) => v,
            Err(e) => { return Err(e) },
        };
        proof {
            lemma_accrued_bounds(config, now);
        }
        Ok(vested - config.claimed_amount)
    }

    /// The full stored grant. Read-only, no authorization.
    pub fn get_config(&self) -> (r: Result<VestingConfig, Error>)
        ensures
            self.config is None ==> r == Err::<VestingConfig, Error>(Error::NotInitialized),
            self.config matches Some(c) ==> r == Ok::<VestingConfig, Error>(c),
    {
        match &self.config {
            Some(c) => Ok(*c),
            None => Err(Error::NotInitialized),
        }
    }
}

} // verus!
