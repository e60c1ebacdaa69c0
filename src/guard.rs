use vstd::prelude::*;

use crate::error::StdinError;

verus! {

/// Records whether standard input has been claimed.
///
/// A program keeps one guard for the whole process and hands it to every
/// argument that may read standard input; the first claim succeeds and every
/// later one fails.
pub struct StdinGuard {
    used: bool,
}

impl View for StdinGuard {
    type V = bool;

    /// Whether standard input has been claimed.
    closed spec fn view(&self) -> bool {
        self.used
    }
}

/// Evidence that standard input was claimed; only a successful claim makes
/// one, so only its holder may read standard input.
pub struct StdinClaim {
    _private: (),
}

impl StdinGuard {
    /// A guard under which standard input is still free.
    pub fn new() -> (r: StdinGuard)
        ensures
            !r@,
    {
        StdinGuard { used: false }
    }

    /// Whether standard input has been claimed.
    pub fn is_claimed(&self) -> (r: bool)
        ensures
            r == self@,
    {
        self.used
    }

    /// Claims standard input: succeeds only if it was free, and leaves it
    /// claimed either way.
    pub fn claim(&mut self) -> (r: Result<(), StdinError>)
        ensures
            (r is Ok, final(self)@) == claim_step(old(self)@),
            r is Err ==> r->Err_0 is StdInRepeatedUse,
    {
        match self.claim_token() {
            Ok(_) => Ok(()),
            Err(e) => Err(e),
        }
    }

    /// Claims standard input as `claim` does, and hands back the evidence
    /// of the claim that reading standard input asks for.
    pub fn claim_token(&mut self) -> (r: Result<StdinClaim, StdinError>)
        ensures
            (r is Ok, final(self)@) == claim_step(old(self)@),
            r is Err ==> r->Err_0 is StdInRepeatedUse,
    {
        if self.used {
            Err(StdinError::StdInRepeatedUse)
        } else {
            self.used = true;
            Ok(StdinClaim { _private: () })
        }
    }
}

/// One claim on a guard whose state is `claimed`: whether it succeeds, and
/// the state it leaves.
pub open spec fn claim_step(claimed: bool) -> (bool, bool) {
    (!claimed, true)
}

/// Whether each of `n` claims in a row succeeds, starting from a guard whose
/// state is `claimed`.
pub open spec fn claims_outcomes(claimed: bool, n: nat) -> Seq<bool>
    decreases n,
{
    if n == 0 {
        Seq::empty()
    } else {
        seq![claim_step(claimed).0] + claims_outcomes(claim_step(claimed).1, (n - 1) as nat)
    }
}

/// Of any run of claims on a fresh guard, exactly the first succeeds; from a
/// claimed guard none does.
pub proof fn lemma_only_first_claim_succeeds(claimed: bool, n: nat)
    ensures
        claims_outcomes(claimed, n).len() == n,
        forall|i: int| 0 <= i < n ==> claims_outcomes(claimed, n)[i] == (i == 0 && !claimed),
    decreases n,
{
    if n > 0 {
        lemma_only_first_claim_succeeds(true, (n - 1) as nat);
    }
}

} // verus!
