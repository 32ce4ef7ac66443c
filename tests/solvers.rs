use root_finding::{
    HalleysMethodSolver, HalleysMethodState, NewtonRaphsonSolver, NewtonRaphsonState,
    RootFindingAlgorithm, RootFindingResult, RootFindingStep, SecantMethodSolver,
    SecantMethodState,
};
use std::cell::Cell;

const EPS: f64 = f64::EPSILON;

#[test]
fn test_newton_raphson() {
    let mut solver = NewtonRaphsonSolver {
        f: |x: f64| x * x,
        f_prime: |x: f64| 2.0 * x,
    };
    let guess = NewtonRaphsonState { prev_val: 10.0 };

    match solver.solve(guess, EPS.sqrt(), 100) {
        RootFindingResult::Found(ans) => {
            assert!(
                (solver.f)(ans.prev_val).abs() < EPS.sqrt(),
                "Did not converge to the correct value."
            )
        }
        _ => panic!("Could not converge"),
    }
}

#[test]
fn test_secant_method() {
    let mut solver = SecantMethodSolver {
        f: |x: f64| x * x - 612.0,
    };
    let guess = SecantMethodState::new(1.0);

    match solver.solve(guess, EPS.sqrt(), 1000) {
        RootFindingResult::Found(ans) => {
            assert!(
                (solver.f)(ans.prev1).abs() < EPS.sqrt(),
                "Did not converge to the correct value."
            )
        }
        _ => panic!("Could not converge"),
    }
}

#[test]
fn test_halleys_method() {
    let mut solver = HalleysMethodSolver {
        f: |x: f64| x * x,
        f_prime: |x: f64| 2.0 * x,
        f_prime_prime: |_x: f64| 2.0,
    };
    let guess = HalleysMethodState { prev_val: 10.0 };

    match solver.solve(guess, EPS.sqrt(), 100) {
        RootFindingResult::Found(ans) => {
            assert!(
                (solver.f)(ans.prev_val).abs() < EPS.sqrt(),
                "Did not converge to the correct value."
            )
        }
        _ => panic!("Could not converge"),
    }
}

#[test]
fn secant_converges_near_square_root_of_612() {
    let mut solver = SecantMethodSolver {
        f: |x: f64| x * x - 612.0,
    };
    match solver.solve(SecantMethodState::new(1.0), EPS.sqrt(), 1000) {
        RootFindingResult::Found(ans) => {
            assert!((ans.prev1.abs() - 612.0f64.sqrt()).abs() < 1e-6);
        }
        _ => panic!("Could not converge"),
    }
}

#[test]
fn zero_budget_gives_up_for_every_solver() {
    let mut newton = NewtonRaphsonSolver {
        f: |x: f64| x - 3.0,
        f_prime: |_x: f64| 1.0,
    };
    let r = newton.solve(NewtonRaphsonState::new(3.0), f64::INFINITY, 0);
    assert!(matches!(r, RootFindingResult::MaxIterReached));

    let mut secant = SecantMethodSolver {
        f: |x: f64| x - 3.0,
    };
    let r = secant.solve(SecantMethodState::new(3.0), f64::INFINITY, 0);
    assert!(matches!(r, RootFindingResult::MaxIterReached));

    let mut halley = HalleysMethodSolver {
        f: |x: f64| x - 3.0,
        f_prime: |_x: f64| 1.0,
        f_prime_prime: |_x: f64| 0.0,
    };
    let r = halley.solve(HalleysMethodState::new(3.0), f64::INFINITY, 0);
    assert!(matches!(r, RootFindingResult::MaxIterReached));
}

#[test]
fn zero_budget_calls_no_function() {
    let calls = Cell::new(0u32);
    let mut solver = NewtonRaphsonSolver {
        f: |x: f64| {
            calls.set(calls.get() + 1);
            x
        },
        f_prime: |_x: f64| 1.0,
    };
    let r = solver.solve(NewtonRaphsonState::new(0.0), 1.0, 0);
    assert!(matches!(r, RootFindingResult::MaxIterReached));
    assert_eq!(calls.get(), 0);
}

#[test]
fn convergence_is_tested_only_after_one_step() {
    let steps = Cell::new(0u32);
    let mut solver = NewtonRaphsonSolver {
        f: |x: f64| x - 3.0,
        f_prime: |_x: f64| {
            steps.set(steps.get() + 1);
            1.0
        },
    };
    // The initial state is already a root, yet one step is taken.
    match solver.solve(NewtonRaphsonState::new(3.0), 0.5, 10) {
        RootFindingResult::Found(ans) => assert_eq!(ans.prev_val, 3.0),
        _ => panic!("Could not converge"),
    }
    assert_eq!(steps.get(), 1);
}

#[test]
fn error_equal_to_tolerance_is_not_converged() {
    let mut solver = NewtonRaphsonSolver {
        f: |x: f64| x - 3.0,
        f_prime: |_x: f64| 1.0,
    };
    let r = solver.solve(NewtonRaphsonState::new(0.0), 0.0, 5);
    assert!(matches!(r, RootFindingResult::MaxIterReached));
}

#[test]
fn negative_tolerance_never_converges() {
    let mut solver = SecantMethodSolver {
        f: |x: f64| x - 3.0,
    };
    let r = solver.solve(SecantMethodState::new(0.0), -1.0, 20);
    assert!(matches!(r, RootFindingResult::MaxIterReached));
}

#[test]
fn solve_twice_gives_the_same_result() {
    let mut solver = HalleysMethodSolver {
        f: |x: f64| x * x - 2.0,
        f_prime: |x: f64| 2.0 * x,
        f_prime_prime: |_x: f64| 2.0,
    };
    let a = solver.solve(HalleysMethodState::new(5.0), 1e-12, 50);
    let b = solver.solve(HalleysMethodState::new(5.0), 1e-12, 50);
    match (a, b) {
        (RootFindingResult::Found(x), RootFindingResult::Found(y)) => {
            assert_eq!(x.prev_val.to_bits(), y.prev_val.to_bits())
        }
        _ => panic!("Could not converge"),
    }
}

#[test]
fn newton_step_value() {
    let mut solver = NewtonRaphsonSolver {
        f: |x: f64| x * x - 4.0,
        f_prime: |x: f64| 2.0 * x,
    };
    let (next, error) = solver.iterate_once(NewtonRaphsonState::new(1.0));
    assert_eq!(next.prev_val, 2.5);
    assert_eq!(error, 2.25);
}

#[test]
fn secant_state_starts_one_apart() {
    let s = SecantMethodState::new(1.0);
    assert_eq!(s.prev1, 1.0);
    assert_eq!(s.prev2, 2.0);
}

#[test]
fn secant_step_value_and_window_shift() {
    let mut solver = SecantMethodSolver {
        f: |x: f64| x - 3.0,
    };
    let (next, error) = solver.iterate_once(SecantMethodState::new(0.0));
    assert_eq!(next.prev1, 3.0);
    assert_eq!(next.prev2, 0.0);
    assert_eq!(error, 0.0);
}

#[test]
fn halley_step_value_and_absolute_error() {
    let mut solver = HalleysMethodSolver {
        f: |x: f64| x * x - 4.0,
        f_prime: |x: f64| 2.0 * x,
        f_prime_prime: |_x: f64| 2.0,
    };
    let (next, error) = solver.iterate_once(HalleysMethodState::new(1.0));
    let expected = 1.0 - (-12.0 / 14.0);
    assert_eq!(next.prev_val, expected);
    // f is negative at the new iterate; the error is its magnitude.
    assert!(expected * expected - 4.0 < 0.0);
    assert_eq!(error, 4.0 - expected * expected);
}

#[test]
fn newton_on_root_at_zero_found_below_tolerance() {
    let mut solver = NewtonRaphsonSolver {
        f: |x: f64| x * x,
        f_prime: |x: f64| 2.0 * x,
    };
    match solver.solve(NewtonRaphsonState::new(-7.0), 1e-6, 1000) {
        RootFindingResult::Found(ans) => assert!((ans.prev_val * ans.prev_val).abs() < 1e-6),
        _ => panic!("Could not converge"),
    }
}
