//! A guess in the range 1 to 100, how it is read from text, and how it
//! compares with the hidden number.

use vstd::prelude::*;
use crate::text::{trim_text, parse_u32, trimmed, is_u32_numeral, numeral_value};

verus! {

/// The smallest value a guess can take.
pub const LOWEST: u32 = 1;

/// The largest value a guess can take.
pub const HIGHEST: u32 = 100;

/// The value lies in the range of valid guesses.
pub open spec fn in_range(v: int) -> bool {
    LOWEST <= v <= HIGHEST
}

/// Why a guess could not be made.
#[derive(Debug, PartialEq)]
pub enum GuessError {
    /// The number lies outside 1 to 100.
    InvalidRange,
    /// The text is not an unsigned decimal number; holds std's reason.
    ParseError(std::num::ParseIntError),
    /// Input that cannot be used for some other reason.
    InvalidInput,
}

impl GuessError {
    /// The message shown to the player for this error.
    pub fn message(&self) -> (r: &'static str)
        ensures
            self is InvalidRange ==> r@ == "Error: The number must be between 1 and 100."@,
            self is ParseError ==> r@ == "Error: Please enter a valid number."@,
            self is InvalidInput ==> r@ == "Error: Invalid input, please try again."@,
    {
        match self {
            GuessError::InvalidRange => "Error: The number must be between 1 and 100.",
            GuessError::ParseError(_) => "Error: Please enter a valid number.",
            GuessError::InvalidInput => "Error: Invalid input, please try again.",
        }
    }
}

/// A guess: an integer from 1 to 100.
#[derive(Debug, PartialEq)]
pub struct Guess {
    value: u32,
}

impl View for Guess {
    type V = int;

    closed spec fn view(&self) -> int {
        self.value as int
    }
}

impl Guess {
    #[verifier::type_invariant]
    spec fn within_bounds(self) -> bool {
        in_range(self.value as int)
    }

    /// A guess of `value`, or `InvalidRange` where it lies outside 1 to 100.
    pub fn new(value: u32) -> (r: Result<Guess, GuessError>)
        ensures
            r is Ok <==> in_range(value as int),
            r is Ok ==> r->Ok_0@ == value,
            !(r is Ok) ==> r->Err_0 is InvalidRange,
    {
        if value < LOWEST || value > HIGHEST {
            return Err(GuessError::InvalidRange);
        }
        Ok(Guess { value })
    }

    /// The guessed number.
    pub fn value(&self) -> (r: u32)
        ensures
            r == self@,
            in_range(r as int),
    {
        proof {
            use_type_invariant(self);
        }
        self.value
    }
}

/// Values that can be read from a line of text.
pub trait Parsable: Sized {
    /// `r` is what reading `input` yields.
    spec fn parses_to(input: Seq<char>, r: Result<Self, GuessError>) -> bool;

    /// Reads a value from `input`.
    fn parse_input(input: &str) -> (r: Result<Self, GuessError>)
        ensures
            Self::parses_to(input@, r),
    ;
}

/// The number that `input` holds once trimmed, if it is a numeral that fits
/// in a `u32`.
pub open spec fn number_in(input: Seq<char>) -> Option<nat> {
    if is_u32_numeral(trimmed(input)) {
        Some(numeral_value(trimmed(input)))
    } else {
        None
    }
}

/// `r` is the guess read from `input`: `ParseError` where the trimmed text
/// is no numeral, `InvalidRange` where its number lies outside 1 to 100,
/// and otherwise that number.
pub open spec fn reads_as_guess(input: Seq<char>, r: Result<Guess, GuessError>) -> bool {
    match number_in(input) {
        None => r is Err && r->Err_0 is ParseError,
        Some(v) => if in_range(v as int) {
            r is Ok && r->Ok_0@ == v
        } else {
            r is Err && r->Err_0 is InvalidRange
        },
    }
}

impl Parsable for Guess {
    open spec fn parses_to(input: Seq<char>, r: Result<Guess, GuessError>) -> bool {
        reads_as_guess(input, r)
    }

    /// Trims `input`, reads it as an unsigned decimal number and makes a
    /// guess of it.
    fn parse_input(input: &str) -> (r: Result<Guess, GuessError>) {
        let t = trim_text(input);
        match parse_u32(t) {
            Ok(v) => Guess::new(v),
            Err(e) => Err(GuessError::ParseError(e)),
        }
    }
}

/// Values with a number by which they are compared.
pub trait Guessable {
    /// The number by which the value is compared.
    spec fn rank(&self) -> int;

    /// How this value stands against `other`.
    fn compare(&self, other: &Self) -> (r: std::cmp::Ordering)
        ensures
            r == ordering_of(self.rank(), other.rank()),
    ;
}

/// The three-way comparison of two integers.
pub open spec fn ordering_of(a: int, b: int) -> std::cmp::Ordering {
    if a < b {
        std::cmp::Ordering::Less
    } else if a > b {
        std::cmp::Ordering::Greater
    } else {
        std::cmp::Ordering::Equal
    }
}

impl Guessable for Guess {
    open spec fn rank(&self) -> int {
        self@
    }

    fn compare(&self, other: &Self) -> (r: std::cmp::Ordering) {
        if self.value < other.value {
            std::cmp::Ordering::Less
        } else if self.value > other.value {
            std::cmp::Ordering::Greater
        } else {
            std::cmp::Ordering::Equal
        }
    }
}

/// How a guess stands against the hidden number.
#[derive(Debug, Clone, Copy, PartialEq, Eq, Structural)]
pub enum GuessResult {
    TooSmall,
    TooBig,
    Correct,
}

/// The outcome of guessing `guess` when the hidden number is `secret`.
pub open spec fn outcome_of(guess: int, secret: int) -> GuessResult {
    if guess < secret {
        GuessResult::TooSmall
    } else if guess > secret {
        GuessResult::TooBig
    } else {
        GuessResult::Correct
    }
}

/// Compares `guess` with `secret_number`: `TooSmall` below it, `TooBig`
/// above it, `Correct` where they are equal.
pub fn handle_guess<G: Guessable>(guess: G, secret_number: &G) -> (r: GuessResult)
    ensures
        r == outcome_of(guess.rank(), secret_number.rank()),
{
    match guess.compare(secret_number) {
        std::cmp::Ordering::Less => GuessResult::TooSmall,
        std::cmp::Ordering::Greater => GuessResult::TooBig,
        std::cmp::Ordering::Equal => GuessResult::Correct,
    }
}

} // verus!
