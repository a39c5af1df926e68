//! The race between a computation and a deadline.

use pagecore::error::ErrorKind;
use pagecore::poll::Poll;
use pagecore::timeout::{timeout_step, Timeout};

#[test]
fn computation_finishing_wins_the_race() {
    let mut completed = false;
    match timeout_step(&mut completed, Some(42), false) {
        Poll::Ready(Ok(v)) => assert_eq!(42, v),
        _ => panic!("expected the computation's value"),
    }
    assert!(completed);
}

#[test]
fn computation_finishing_wins_even_when_the_deadline_also_fired() {
    let mut completed = false;
    match timeout_step(&mut completed, Some(7), true) {
        Poll::Ready(Ok(v)) => assert_eq!(7, v),
        _ => panic!("expected the computation's value"),
    }
    assert!(completed);
}

#[test]
fn deadline_firing_first_times_out() {
    let mut completed = false;
    match timeout_step::<i32>(&mut completed, None, true) {
        Poll::Ready(Err(e)) => {
            assert_eq!(&ErrorKind::Other, e.kind());
            assert_eq!("operation timed out", e.message().as_str());
        }
        _ => panic!("expected a timeout error"),
    }
    assert!(completed);
}

#[test]
fn neither_ready_keeps_the_race_open() {
    let mut completed = false;
    match timeout_step::<i32>(&mut completed, None, false) {
        Poll::Pending => {}
        _ => panic!("expected the race to stay open"),
    }
    assert!(!completed);
}

#[test]
fn timeout_pairs_a_computation_with_a_deadline() {
    let mut race: Timeout<&str, &str> = Timeout::new("future", "deadline");
    match race.step(None, false) {
        Poll::<Result<i32, pagecore::error::Error>>::Pending => {}
        _ => panic!("expected the race to stay open"),
    }
    match race.step(Some(3), false) {
        Poll::Ready(Ok(v)) => assert_eq!(3, v),
        _ => panic!("expected the computation's value"),
    }
}
