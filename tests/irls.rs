use ndarray_glm::error::FitError;
use ndarray_glm::irls::{Action, Event, Irls, IrlsConfig, Trend};

fn config(max_iterations: usize, max_halvings: usize) -> IrlsConfig {
    IrlsConfig { max_iterations, max_halvings }
}

fn evaluated(trend: Trend, within_tolerance: bool) -> Event {
    Event::Evaluated { trend, within_tolerance }
}

#[test]
fn no_iteration_allowed_means_no_convergence() {
    let c = Irls::new(config(0, 4));
    assert_eq!(c.action(), Action::Failed { error: FitError::NonConvergence, n_iter: 0 });
    assert!(!c.expects(Event::Solved));
}

#[test]
fn singular_equations_end_the_fit() {
    let mut c = Irls::new(config(10, 4));
    assert_eq!(c.action(), Action::Solve);
    assert!(!c.step(Event::Singular));
    assert_eq!(
        c.action(),
        Action::Failed { error: FitError::SingularNormalEquations, n_iter: 0 }
    );
}

#[test]
fn converges_when_an_increase_is_within_tolerance() {
    let mut c = Irls::new(config(10, 4));
    assert!(!c.step(Event::Solved));
    assert_eq!(c.action(), Action::Evaluate { halvings: 0 });
    assert!(c.step(evaluated(Trend::Increased, false)));
    assert_eq!(c.action(), Action::Solve);
    assert!(!c.step(Event::Solved));
    assert!(c.step(evaluated(Trend::Increased, true)));
    assert_eq!(c.action(), Action::Converged { n_iter: 2 });
    assert!(!c.expects(Event::Solved));
    assert!(!c.expects(evaluated(Trend::Increased, true)));
}

#[test]
fn a_step_without_increase_is_halved() {
    let mut c = Irls::new(config(10, 3));
    c.step(Event::Solved);
    assert!(!c.step(evaluated(Trend::Decreased, false)));
    assert_eq!(c.action(), Action::Evaluate { halvings: 1 });
    assert!(!c.step(evaluated(Trend::Unchanged, true)));
    assert_eq!(c.action(), Action::Evaluate { halvings: 2 });
    assert!(!c.step(evaluated(Trend::Undefined, false)));
    assert_eq!(c.action(), Action::Evaluate { halvings: 3 });
    assert!(c.step(evaluated(Trend::Increased, false)));
    assert_eq!(c.action(), Action::Solve);
    c.step(Event::Solved);
    assert_eq!(c.action(), Action::Evaluate { halvings: 0 });
}

#[test]
fn halvings_run_out() {
    let mut c = Irls::new(config(10, 2));
    c.step(Event::Solved);
    c.step(evaluated(Trend::Decreased, false));
    c.step(evaluated(Trend::Decreased, false));
    assert_eq!(c.action(), Action::Evaluate { halvings: 2 });
    assert!(!c.step(evaluated(Trend::Unchanged, false)));
    assert_eq!(
        c.action(),
        Action::Failed { error: FitError::StepHalvingExhausted, n_iter: 1 }
    );
}

#[test]
fn iterations_run_out() {
    let mut c = Irls::new(config(3, 2));
    for _ in 0..3 {
        assert_eq!(c.action(), Action::Solve);
        c.step(Event::Solved);
        assert!(c.step(evaluated(Trend::Increased, false)));
    }
    assert_eq!(c.action(), Action::Failed { error: FitError::NonConvergence, n_iter: 3 });
}

#[test]
fn answers_must_match_the_action() {
    let mut c = Irls::new(config(3, 2));
    assert!(c.expects(Event::Solved));
    assert!(c.expects(Event::Singular));
    assert!(!c.expects(evaluated(Trend::Increased, true)));
    c.step(Event::Solved);
    assert!(!c.expects(Event::Solved));
    assert!(!c.expects(Event::Singular));
    assert!(c.expects(evaluated(Trend::Decreased, false)));
}

// Answers the controller from a fixed objective sequence; returns the number
// of answers given and the objectives of the steps taken.
fn drive(cfg: IrlsConfig, start: f64, trial: impl Fn(usize, usize) -> f64) -> (usize, Vec<f64>, Action) {
    let mut c = Irls::new(cfg);
    let mut held = start;
    let mut taken = Vec::new();
    let mut answers = 0usize;
    let mut iter = 0usize;
    loop {
        let e = match c.action() {
            Action::Solve => {
                iter += 1;
                Event::Solved
            }
            Action::Evaluate { halvings } => {
                let v = trial(iter, halvings);
                let trend = match v.partial_cmp(&held) {
                    Some(std::cmp::Ordering::Greater) => Trend::Increased,
                    Some(std::cmp::Ordering::Equal) => Trend::Unchanged,
                    Some(std::cmp::Ordering::Less) => Trend::Decreased,
                    None => Trend::Undefined,
                };
                let within = ((v - held) / held).abs() < 1e-6;
                if trend == Trend::Increased {
                    held = v;
                    taken.push(v);
                }
                evaluated(trend, within)
            }
            done => return (answers, taken, done),
        };
        assert!(c.expects(e));
        c.step(e);
        answers += 1;
        assert!(answers <= cfg.max_iterations * (cfg.max_halvings + 2));
    }
}

#[test]
fn adversarial_objective_still_terminates() {
    let cfg = config(25, 6);
    // Oscillates: the full step always overshoots, a deep halving barely helps.
    let (answers, taken, end) = drive(cfg, -100.0, |it, h| {
        if h >= 5 { -100.0 + it as f64 * 1e-3 } else { f64::NAN }
    });
    assert!(answers <= 25 * 8);
    assert_eq!(taken.len(), 25);
    assert_eq!(end, Action::Failed { error: FitError::NonConvergence, n_iter: 25 });
}

#[test]
fn never_improving_objective_stops_after_halvings() {
    let cfg = config(25, 6);
    let (answers, taken, end) = drive(cfg, -10.0, |_, _| -11.0);
    assert_eq!(answers, 1 + 7);
    assert!(taken.is_empty());
    assert_eq!(end, Action::Failed { error: FitError::StepHalvingExhausted, n_iter: 1 });
}

#[test]
fn taken_objectives_rise() {
    let cfg = config(50, 8);
    // An objective that approaches zero from below, overshooting on full steps.
    let (_, taken, end) = drive(cfg, -64.0, |it, h| {
        let target = -64.0 / (1u64 << it.min(40)) as f64;
        if h == 0 && it % 2 == 0 { -1000.0 } else { target }
    });
    assert!(!taken.is_empty());
    for w in taken.windows(2) {
        assert!(w[0] < w[1]);
    }
    assert!(taken[0] > -64.0);
    assert!(matches!(end, Action::Converged { .. } | Action::Failed { .. }));
}

#[test]
fn default_budgets_are_finite() {
    let c = IrlsConfig::default();
    assert_eq!(c, config(50, 16));
    let mut ctl = Irls::new(c);
    let mut answers = 0usize;
    while ctl.expects(Event::Solved) || ctl.expects(evaluated(Trend::Decreased, false)) {
        let e = if ctl.expects(Event::Solved) { Event::Solved } else { evaluated(Trend::Decreased, false) };
        ctl.step(e);
        answers += 1;
    }
    assert_eq!(answers, 1 + 17);
    assert_eq!(ctl.action(), Action::Failed { error: FitError::StepHalvingExhausted, n_iter: 1 });
}
