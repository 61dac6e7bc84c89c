use crate::errors::Error;
use vstd::prelude::*;

verus! {

/// The authorization gate. A value of this type stands for the proof of
/// consent that the current invocation carries: the set of principals that
/// signed off on this exact call. The host builds it from the invocation's
/// credentials; the contracts only ever ask whether a required principal is
/// in it. Checking has no side effect.
pub struct AuthContext {
    /// The principals that consented to the current call.
    pub authorized: Vec<u64>,
}

impl AuthContext {
    /// Whether the current call carries consent from `principal`.
    pub open spec fn allows(&self, principal: u64) -> bool {
        self.authorized@.contains(principal)
    }

    /// Succeeds exactly when the current call carries consent from
    /// `principal`; otherwise reports `Unauthorized` and nothing else.
    pub fn authorize(&self, principal: u64) -> (r: Result<(), Error>)
        ensures
            r is Ok <==> self.allows(principal),
            r is Err ==> r == Err::<(), Error>(Error::Unauthorized),
    {
        let n = self.authorized.len();
        let mut i: usize = 0;
        while i < n
            invariant
                n == self.authorized.len(),
                i <= n,
                forall|j: int| 0 <= j < i ==> self.authorized@[j] != principal,
            decreases n - i,
        {
            if self.authorized[i] == principal {
                return Ok(());
            }
            i += 1;
        }
        Err(Error::Unauthorized)
    }
}

} // verus!
