use std::sync::{Arc, Mutex};

use inu_core::error::PinError;
use inu_core::physical::hardware::MAX_PINS;
use inu_core::pin_mgr::PinManager;
use inu_core::types::{Level, Pull};

fn claimed_pins(mgr: &PinManager) -> Vec<u8> {
    (0..=u8::MAX).filter(|pin| mgr.is_claimed(*pin)).collect()
}

#[test]
fn new_manager_has_no_claimed_pin() {
    let mgr = PinManager::new();
    assert_eq!(claimed_pins(&mgr), Vec::<u8>::new());
}

#[test]
fn claim_of_a_free_pin_is_granted() {
    let mut mgr = PinManager::new();
    let handle = mgr.get_pin(9).unwrap();
    assert_eq!(handle.pin(), 9);
    assert_eq!(claimed_pins(&mgr), vec![9]);
}

#[test]
fn first_and_last_pin_can_be_claimed() {
    let mut mgr = PinManager::new();
    assert_eq!(mgr.get_pin(0).unwrap().pin(), 0);
    assert_eq!(mgr.get_pin(MAX_PINS - 1).unwrap().pin(), 48);
    assert_eq!(claimed_pins(&mgr), vec![0, 48]);
}

#[test]
fn second_claim_of_a_pin_is_refused() {
    let mut mgr = PinManager::new();
    assert!(mgr.get_pin(3).is_ok());
    assert_eq!(mgr.get_pin(3).err(), Some(PinError::PinInUse(3)));
    assert_eq!(mgr.get_pin(3).err(), Some(PinError::PinInUse(3)));
    assert_eq!(claimed_pins(&mgr), vec![3]);
}

#[test]
fn claim_outside_the_table_is_invalid() {
    let mut mgr = PinManager::new();
    assert!(mgr.get_pin(5).is_ok());
    for pin in [MAX_PINS, MAX_PINS + 1, 100, u8::MAX] {
        assert_eq!(mgr.get_pin(pin).err(), Some(PinError::InvalidPin(pin)));
        assert_eq!(claimed_pins(&mgr), vec![5]);
    }
}

#[test]
fn pin_at_the_table_size_is_invalid() {
    let mut mgr = PinManager::new();
    assert_eq!(MAX_PINS, 49);
    assert_eq!(mgr.get_pin(49).err(), Some(PinError::InvalidPin(49)));
    assert!(!mgr.is_claimed(49));
}

#[test]
fn every_pin_is_claimed_exactly_once() {
    let mut mgr = PinManager::new();
    for pin in 0..MAX_PINS {
        assert_eq!(mgr.get_pin(pin).unwrap().pin(), pin);
    }
    for pin in 0..MAX_PINS {
        assert_eq!(mgr.get_pin(pin).err(), Some(PinError::PinInUse(pin)));
    }
    assert_eq!(claimed_pins(&mgr).len(), 49);
}

#[test]
fn claims_of_one_pin_among_others_have_one_winner() {
    let mut mgr = PinManager::new();
    let calls = [3u8, 5, 3, 49, 3, 5, 7, 3];
    let answers: Vec<Result<u8, PinError>> =
        calls.iter().map(|pin| mgr.get_pin(*pin).map(|handle| handle.pin())).collect();
    assert_eq!(
        answers,
        vec![
            Ok(3),
            Ok(5),
            Err(PinError::PinInUse(3)),
            Err(PinError::InvalidPin(49)),
            Err(PinError::PinInUse(3)),
            Err(PinError::PinInUse(5)),
            Ok(7),
            Err(PinError::PinInUse(3)),
        ]
    );
    assert_eq!(claimed_pins(&mgr), vec![3, 5, 7]);
}

#[test]
fn input_carries_pin_and_pull() {
    let mut mgr = PinManager::new();
    let input = mgr.get_input(9, Pull::Down).unwrap();
    assert_eq!(input.pin(), 9);
    assert_eq!(input.pull(), Pull::Down);
    assert!(mgr.is_claimed(9));
    let other = mgr.get_input(10, Pull::UpDown).unwrap();
    assert_eq!((other.pin(), other.pull()), (10, Pull::UpDown));
}

#[test]
fn output_carries_pin_and_level() {
    let mut mgr = PinManager::new();
    let output = mgr.get_output(12, Level::High).unwrap();
    assert_eq!(output.pin(), 12);
    assert_eq!(output.level(), Level::High);
    assert!(mgr.is_claimed(12));
    let other = mgr.get_output(13, Level::Low).unwrap();
    assert_eq!((other.pin(), other.level()), (13, Level::Low));
}

#[test]
fn input_and_output_share_the_one_table() {
    let mut mgr = PinManager::new();
    assert!(mgr.get_input(4, Pull::Up).is_ok());
    assert_eq!(mgr.get_output(4, Level::Low).err(), Some(PinError::PinInUse(4)));
    assert_eq!(mgr.get_pin(4).err(), Some(PinError::PinInUse(4)));
    assert!(mgr.get_output(6, Level::Low).is_ok());
    assert_eq!(mgr.get_input(6, Pull::Floating).err(), Some(PinError::PinInUse(6)));
    assert_eq!(mgr.get_input(49, Pull::Floating).err(), Some(PinError::InvalidPin(49)));
    assert_eq!(mgr.get_output(200, Level::High).err(), Some(PinError::InvalidPin(200)));
    assert_eq!(claimed_pins(&mgr), vec![4, 6]);
}

#[test]
fn claimed_pin_turns_into_input_or_output() {
    let mut mgr = PinManager::new();
    let input = mgr.get_pin(20).unwrap().into_input(Pull::Floating);
    assert_eq!((input.pin(), input.pull()), (20, Pull::Floating));
    let output = mgr.get_pin(21).unwrap().into_output(Level::High);
    assert_eq!((output.pin(), output.level()), (21, Level::High));
}

/// One caller's claim on the manager that all callers share: the lock is held
/// for the whole of the claim, and for nothing else.
fn claim_shared(mgr: &Arc<Mutex<PinManager>>, pin: u8) -> Result<u8, PinError> {
    mgr.lock().unwrap().get_pin(pin).map(|handle| handle.pin())
}

#[test]
fn two_callers_claim_the_same_pin() {
    // whichever of the two gets the lock first wins, the other is refused
    for first in [0usize, 1] {
        let mgr = Arc::new(Mutex::new(PinManager::new()));
        let callers = [Arc::clone(&mgr), Arc::clone(&mgr)];
        let mut answers = [None, None];
        answers[first] = Some(claim_shared(&callers[first], 3));
        answers[1 - first] = Some(claim_shared(&callers[1 - first], 3));
        assert_eq!(answers[first], Some(Ok(3)));
        assert_eq!(answers[1 - first], Some(Err(PinError::PinInUse(3))));
        assert_eq!(claimed_pins(&mgr.lock().unwrap()), vec![3]);
    }
}

#[test]
fn many_callers_claim_the_same_pin() {
    let mgr = Arc::new(Mutex::new(PinManager::new()));
    let callers: Vec<Arc<Mutex<PinManager>>> = (0..16).map(|_| Arc::clone(&mgr)).collect();
    // the callers take turns in an order that is not the order of their numbers
    let order: Vec<usize> = (0..16).map(|n| (n * 7 + 5) % 16).collect();
    let mut answers = vec![None; 16];
    for n in order.iter() {
        assert!(claim_shared(&callers[*n], 20 + *n as u8).is_ok());
        answers[*n] = Some(claim_shared(&callers[*n], 7));
    }
    assert_eq!(answers.iter().filter(|answer| **answer == Some(Ok(7))).count(), 1);
    assert_eq!(answers[order[0]], Some(Ok(7)));
    assert_eq!(
        answers.iter().filter(|answer| **answer == Some(Err(PinError::PinInUse(7)))).count(),
        15
    );
    assert_eq!(claimed_pins(&mgr.lock().unwrap()).len(), 17);
}
