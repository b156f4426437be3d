use crate::error::FitError;
use vstd::prelude::*;

verus! {

/// The bounds that every fit runs under.
#[derive(Clone, Copy, Debug, PartialEq, Eq, Structural)]
pub struct IrlsConfig {
    /// The most outer iterations (solves of the normal equations) a fit may use.
    pub max_iterations: usize,
    /// The most times one step may be halved before the fit gives up.
    pub max_halvings: usize,
}

/// The iteration budget of a fit when the caller sets none.
pub const DEFAULT_MAX_ITERATIONS: usize = 50;

/// The halving budget of each step when the caller sets none.
pub const DEFAULT_MAX_HALVINGS: usize = 16;

impl Default for IrlsConfig {
    /// Finite budgets for both loops, so that no fit runs unbounded.
    fn default() -> (r: IrlsConfig)
        ensures
            r.max_iterations == DEFAULT_MAX_ITERATIONS,
            r.max_halvings == DEFAULT_MAX_HALVINGS,
    {
        IrlsConfig { max_iterations: DEFAULT_MAX_ITERATIONS, max_halvings: DEFAULT_MAX_HALVINGS }
    }
}

/// How the objective at a trial point compares with the objective at the
/// coefficients currently held.
#[derive(Clone, Copy, Debug, PartialEq, Eq, Structural)]
pub enum Trend {
    Increased,
    Unchanged,
    Decreased,
    /// One of the two values is not a number.
    Undefined,
}

/// What the caller observed when it carried out the last requested action.
#[derive(Clone, Copy, Debug, PartialEq, Eq, Structural)]
pub enum Event {
    /// The weighted normal equations were solved: a candidate is ready.
    Solved,
    /// The weighted normal equations were not positive definite.
    Singular,
    /// The objective was evaluated at the requested trial point;
    /// `within_tolerance` tells whether its relative change from the
    /// objective held so far is below the convergence tolerance.
    Evaluated { trend: Trend, within_tolerance: bool },
}

/// Where a fit stands.
#[derive(Clone, Copy, Debug, PartialEq, Eq, Structural)]
pub enum Phase {
    /// A candidate must be computed from the coefficients held.
    Solve,
    /// The objective must be evaluated at a trial point toward the candidate.
    Evaluate,
    /// The coefficients held are the fit.
    Converged,
    /// The fit ended without meeting the tolerance.
    Failed(FitError),
}

/// What the controller asks of its caller.
#[derive(Clone, Copy, Debug, PartialEq, Eq, Structural)]
pub enum Action {
    /// Build the weighted, penalized normal equations at the coefficients
    /// held and solve them for a candidate.
    Solve,
    /// Evaluate the objective at `held + (candidate - held) / 2^halvings`.
    Evaluate { halvings: usize },
    /// Done: the coefficients held are the fit, after `n_iter` iterations.
    Converged { n_iter: usize },
    /// Done: the fit failed with `error` after `n_iter` iterations.
    Failed { error: FitError, n_iter: usize },
}

/// The mathematical state of a fit.
pub struct IrlsState {
    pub config: IrlsConfig,
    /// Outer iterations begun so far.
    pub iteration: nat,
    /// Halvings of the current step so far.
    pub halvings: nat,
    pub phase: Phase,
}

impl IrlsState {
    /// The state before the first iteration. With no iteration allowed the
    /// fit cannot converge.
    pub open spec fn start(config: IrlsConfig) -> IrlsState {
        IrlsState {
            config,
            iteration: 0,
            halvings: 0,
            phase: if config.max_iterations > 0 {
                Phase::Solve
            } else {
                Phase::Failed(FitError::NonConvergence)
            },
        }
    }

    /// The bounds hold: no more iterations than allowed, no more halvings
    /// of a step than allowed.
    pub open spec fn wf(self) -> bool {
        &&& self.iteration <= self.config.max_iterations
        &&& self.halvings <= self.config.max_halvings
        &&& self.phase is Solve ==> self.iteration < self.config.max_iterations
            && self.halvings == 0
        &&& self.phase is Evaluate ==> self.iteration >= 1
    }

    pub open spec fn is_done(self) -> bool {
        self.phase is Converged || self.phase is Failed
    }

    /// Whether `e` answers the action that the state asks for.
    pub open spec fn expects(self, e: Event) -> bool {
        match self.phase {
            Phase::Solve => e is Solved || e is Singular,
            Phase::Evaluate => e is Evaluated,
            _ => false,
        }
    }

    /// Whether `e` makes the trial point the coefficients held: only a
    /// strict increase of the objective does.
    pub open spec fn accepts(self, e: Event) -> bool {
        &&& self.phase is Evaluate
        &&& e matches Event::Evaluated { trend, .. } && trend is Increased
    }

    /// The state after an accepted step that did not meet the tolerance.
    pub open spec fn after_accepted(self) -> IrlsState {
        if self.iteration < self.config.max_iterations {
            IrlsState { halvings: 0, phase: Phase::Solve, ..self }
        } else {
            IrlsState { phase: Phase::Failed(FitError::NonConvergence), ..self }
        }
    }

    /// The state after the caller answers with `e`.
    pub open spec fn next(self, e: Event) -> IrlsState {
        match e {
            Event::Singular => IrlsState {
                phase: Phase::Failed(FitError::SingularNormalEquations),
                ..self
            },
            Event::Solved => IrlsState {
                iteration: self.iteration + 1,
                halvings: 0,
                phase: Phase::Evaluate,
                ..self
            },
            Event::Evaluated { trend, within_tolerance } => {
                if trend is Increased {
                    if within_tolerance {
                        IrlsState { phase: Phase::Converged, ..self }
                    } else {
                        self.after_accepted()
                    }
                } else if self.halvings < self.config.max_halvings {
                    IrlsState { halvings: self.halvings + 1, ..self }
                } else {
                    IrlsState { phase: Phase::Failed(FitError::StepHalvingExhausted), ..self }
                }
            },
        }
    }

    /// The action that the state asks for.
    pub open spec fn action(self) -> Action {
        match self.phase {
            Phase::Solve => Action::Solve,
            Phase::Evaluate => Action::Evaluate { halvings: self.halvings as usize },
            Phase::Converged => Action::Converged { n_iter: self.iteration as usize },
            Phase::Failed(error) => Action::Failed { error, n_iter: self.iteration as usize },
        }
    }
}

/// The controller of a fit by iteratively reweighted least squares. It holds
/// no numbers of the model: it asks its caller for a solve or for an
/// evaluation of the objective, and decides from the answer whether to take
/// the step, halve it, go on, or stop.
pub struct Irls {
    config: IrlsConfig,
    iteration: usize,
    halvings: usize,
    phase: Phase,
}

impl View for Irls {
    type V = IrlsState;

    closed spec fn view(&self) -> IrlsState {
        IrlsState {
            config: self.config,
            iteration: self.iteration as nat,
            halvings: self.halvings as nat,
            phase: self.phase,
        }
    }
}

impl Irls {
    #[verifier::type_invariant]
    spec fn within_bounds(self) -> bool {
        self@.wf()
    }

    /// A controller at the start of a fit under `config`.
    pub fn new(config: IrlsConfig) -> (r: Irls)
        ensures
            r@ == IrlsState::start(config),
    {
        Irls {
            config,
            iteration: 0,
            halvings: 0,
            phase: if config.max_iterations > 0 {
                Phase::Solve
            } else {
                Phase::Failed(FitError::NonConvergence)
            },
        }
    }

    /// The action that the caller must carry out next.
    pub fn action(&self) -> (r: Action)
        ensures
            r == self@.action(),
    {
        match self.phase {
            Phase::Solve => Action::Solve,
            Phase::Evaluate => Action::Evaluate { halvings: self.halvings },
            Phase::Converged => Action::Converged { n_iter: self.iteration },
            Phase::Failed(error) => Action::Failed { error, n_iter: self.iteration },
        }
    }

    /// Whether `e` answers the action asked for.
    pub fn expects(&self, e: Event) -> (r: bool)
        ensures
            r == self@.expects(e),
    {
        match self.phase {
            Phase::Solve => matches!(e, Event::Solved | Event::Singular),
            Phase::Evaluate => matches!(e, Event::Evaluated { .. }),
            _ => false,
        }
    }

    /// Takes the caller's answer to the action asked for. Returns whether
    /// the trial point just evaluated becomes the coefficients held.
    pub fn step(&mut self, e: Event) -> (accepted: bool)
        requires
            old(self)@.expects(e),
        ensures
            final(self)@ == old(self)@.next(e),
            accepted == old(self)@.accepts(e),
    {
        proof {
            use_type_invariant(&*self);
        }
        let config = self.config;
        let iteration = self.iteration;
        let halvings = self.halvings;
        let (phase, new_halvings, new_iteration, accepted) = match e {
            Event::Singular => {
                (Phase::Failed(FitError::SingularNormalEquations), halvings, iteration, false)
            },
            Event::Solved => (Phase::Evaluate, 0, iteration + 1, false),
            Event::Evaluated { trend, within_tolerance } => {
                if matches!(trend, Trend::Increased) {
                    if within_tolerance {
                        (Phase::Converged, halvings, iteration, true)
                    } else if iteration < config.max_iterations {
                        (Phase::Solve, 0, iteration, true)
                    } else {
                        (Phase::Failed(FitError::NonConvergence), halvings, iteration, true)
                    }
                } else if halvings < config.max_halvings {
                    (Phase::Evaluate, halvings + 1, iteration, false)
                } else {
                    (Phase::Failed(FitError::StepHalvingExhausted), halvings, iteration, false)
                }
            },
        };
        *self = Irls { config, iteration: new_iteration, halvings: new_halvings, phase };
        accepted
    }
}

} // verus!
