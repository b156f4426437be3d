use vstd::prelude::*;

verus! {

/// Logistic regression: a Bernoulli response, one trial per observation,
/// fitted through its canonical link, the logit.
#[derive(Clone, Copy, Debug)]
pub struct Logistic;

impl Logistic {
    /// The number of successes that a boolean observation records.
    pub open spec fn spec_response_count(y: bool) -> nat {
        if y { 1 } else { 0 }
    }

    /// Maps an observation to its count of successes out of one trial; the
    /// floating-point response is this count.
    pub fn response_count(y: bool) -> (r: u16)
        ensures
            r as nat == Self::spec_response_count(y),
            r <= 1,
    {
        if y {
            1
        } else {
            0
        }
    }
}

/// Binomial regression with a fixed number of trials per observation; an
/// observation is the count of successes among them.
#[derive(Clone, Copy, Debug)]
pub struct Binomial {
    trials: u16,
}

impl Binomial {
    #[verifier::type_invariant]
    spec fn has_trials(self) -> bool {
        self.trials >= 1
    }

    /// The number of trials behind each observation.
    pub closed spec fn spec_trials(self) -> nat {
        self.trials as nat
    }

    /// A family with `trials` trials per observation; there is none without
    /// a trial.
    pub fn new(trials: u16) -> (r: Option<Binomial>)
        ensures
            r is Some <==> trials >= 1,
            r matches Some(b) ==> b.spec_trials() == trials as nat,
    {
        if trials >= 1 {
            Some(Binomial { trials })
        } else {
            None
        }
    }

    /// The number of trials behind each observation, at least one.
    pub fn trials(&self) -> (r: u16)
        ensures
            r as nat == self.spec_trials(),
            r >= 1,
    {
        proof {
            use_type_invariant(self);
        }
        self.trials
    }

    /// Whether `y` is a count of successes that the family can observe.
    pub open spec fn spec_in_domain(self, y: u16) -> bool {
        y as nat <= self.spec_trials()
    }

    /// Whether every observation in `ys` lies in the family's domain.
    pub fn responses_in_domain(&self, ys: &[u16]) -> (r: bool)
        ensures
            r == forall|i: int| 0 <= i < ys@.len() ==> self.spec_in_domain(#[trigger] ys@[i]),
    {
        let mut i: usize = 0;
        while i < ys.len()
            invariant
                0 <= i <= ys@.len(),
                forall|k: int| 0 <= k < i ==> self.spec_in_domain(#[trigger] ys@[k]),
            decreases ys@.len() - i,
        {
            if ys[i] > self.trials {
                return false;
            }
            i = i + 1;
        }
        true
    }
}

/// The logit link, `eta = ln(mu / (n - mu))` for a mean `mu` out of `n`
/// trials. It is the canonical link of the Bernoulli and binomial families:
/// the natural parameter is the linear predictor itself.
#[derive(Clone, Copy, Debug)]
pub struct Logit;

impl Logit {
    /// Whether the link is canonical for the families it serves, which lets
    /// the working weight reduce to the variance at the current mean.
    pub open spec fn spec_is_canonical() -> bool {
        true
    }

    /// Canonical-ness of the link, as a capability the solver reads.
    pub fn is_canonical() -> (r: bool)
        ensures
            r == Self::spec_is_canonical(),
    {
        true
    }
}

} // verus!
