use guessing_game::{
    get_secret_number, handle_guess, Guess, GuessCount, GuessError, GuessResult, Guessable,
    Incrementable, Parsable,
};
use std::cmp::Ordering;

#[test]
fn parse_input_valid() {
    let valid_input = "42";
    let result = Guess::parse_input(valid_input);
    assert!(result.is_ok(), "Valid input should result in a valid Guess");
    assert_eq!(result.unwrap().value(), 42);
}

#[test]
fn parse_input_invalid_number() {
    let invalid_input = "not_a_number";
    let result = Guess::parse_input(invalid_input);
    assert!(result.is_err(), "Invalid input should result in an error");
    if let Err(GuessError::ParseError(_)) = result {
    } else {
        panic!("Expected ParseError");
    }
}

#[test]
fn parse_input_out_of_range() {
    let out_of_range_input = "150";
    let result = Guess::parse_input(out_of_range_input);
    assert_eq!(result, Err(GuessError::InvalidRange));
}

#[test]
fn guess_creation_valid_range() {
    let guess = Guess::new(50);
    assert!(guess.is_ok(), "Valid guess should be created successfully");
}

#[test]
fn guess_creation_invalid_range_low() {
    let guess = Guess::new(0);
    assert_eq!(guess, Err(GuessError::InvalidRange), "Guess below 1 should be invalid");
}

#[test]
fn guess_creation_invalid_range_high() {
    let guess = Guess::new(101);
    assert_eq!(guess, Err(GuessError::InvalidRange), "Guess above 100 should be invalid");
}

#[test]
fn handle_guess_correct() {
    let guess = Guess::new(50).unwrap();
    let secret = Guess::new(50).unwrap();
    let result = handle_guess(guess, &secret);
    assert_eq!(result, GuessResult::Correct);
}

#[test]
fn handle_guess_too_small() {
    let guess = Guess::new(30).unwrap();
    let secret = Guess::new(50).unwrap();
    let result = handle_guess(guess, &secret);
    assert_eq!(result, GuessResult::TooSmall);
}

#[test]
fn handle_guess_too_big() {
    let guess = Guess::new(70).unwrap();
    let secret = Guess::new(50).unwrap();
    let result = handle_guess(guess, &secret);
    assert_eq!(result, GuessResult::TooBig);
}

#[test]
fn test_guess_count_initialization() {
    let guess_count = GuessCount::new();
    assert_eq!(guess_count.value(), 0, "Initial guess count should be 0");
}

#[test]
fn test_guess_count_increment() {
    let mut guess_count = GuessCount::new();
    guess_count.increment();
    assert_eq!(guess_count.value(), 1, "Guess count should be incremented to 1");
    guess_count.increment();
    assert_eq!(guess_count.value(), 2, "Guess count should be incremented to 2");
}

#[test]
fn every_value_in_range_makes_a_guess() {
    for v in 1..=100u32 {
        let g = Guess::new(v).unwrap();
        assert_eq!(g.value(), v);
    }
}

#[test]
fn values_outside_range_are_refused() {
    for v in [0u32, 101, 102, 1000, u32::MAX] {
        assert_eq!(Guess::new(v), Err(GuessError::InvalidRange));
    }
}

#[test]
fn range_edges_are_accepted() {
    assert_eq!(Guess::new(1).unwrap().value(), 1);
    assert_eq!(Guess::new(100).unwrap().value(), 100);
}

#[test]
fn parse_abc_is_malformed() {
    assert!(matches!(Guess::parse_input("abc"), Err(GuessError::ParseError(_))));
}

#[test]
fn parse_trims_white_space() {
    assert_eq!(Guess::parse_input("  7\n").unwrap().value(), 7);
    assert_eq!(Guess::parse_input("\t100 \r\n").unwrap().value(), 100);
    assert_eq!(Guess::parse_input("+42").unwrap().value(), 42);
}

#[test]
fn parse_rejects_empty_and_signed_text() {
    assert!(matches!(Guess::parse_input(""), Err(GuessError::ParseError(_))));
    assert!(matches!(Guess::parse_input("   \n"), Err(GuessError::ParseError(_))));
    assert!(matches!(Guess::parse_input("-5"), Err(GuessError::ParseError(_))));
    assert!(matches!(Guess::parse_input("+"), Err(GuessError::ParseError(_))));
    assert!(matches!(Guess::parse_input("4 2"), Err(GuessError::ParseError(_))));
}

#[test]
fn parse_out_of_range_numbers() {
    assert_eq!(Guess::parse_input("0"), Err(GuessError::InvalidRange));
    assert_eq!(Guess::parse_input("101"), Err(GuessError::InvalidRange));
    assert_eq!(Guess::parse_input("4294967295"), Err(GuessError::InvalidRange));
    assert!(matches!(Guess::parse_input("4294967296"), Err(GuessError::ParseError(_))));
}

#[test]
fn compare_orders_by_value() {
    let a = Guess::new(30).unwrap();
    let b = Guess::new(50).unwrap();
    assert_eq!(a.compare(&b), Ordering::Less);
    assert_eq!(b.compare(&a), Ordering::Greater);
    assert_eq!(b.compare(&Guess::new(50).unwrap()), Ordering::Equal);
}

#[test]
fn error_messages() {
    assert_eq!(
        GuessError::InvalidRange.message(),
        "Error: The number must be between 1 and 100."
    );
    let e = Guess::parse_input("x").unwrap_err();
    assert_eq!(e.message(), "Error: Please enter a valid number.");
    assert_eq!(GuessError::InvalidInput.message(), "Error: Invalid input, please try again.");
}

#[test]
fn secret_number_stays_in_bounds() {
    for _ in 0..200 {
        let n = get_secret_number(1, 100);
        assert!((1..=100).contains(&n));
    }
    assert_eq!(get_secret_number(7, 7), 7);
}
