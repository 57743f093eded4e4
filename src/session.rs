//! One game: the hidden number, the guesses accepted so far, and whether the
//! number has been found. The caller reads each line and shows each outcome.

use vstd::prelude::*;
use crate::guess::{
    Guess, GuessError, GuessResult, Parsable, handle_guess, in_range, number_in, outcome_of,
    LOWEST, HIGHEST,
};
use crate::count::{GuessCount, Incrementable};
use crate::secret::get_secret_number;

verus! {

/// What a game is at a given moment.
pub struct GameState {
    /// The hidden number.
    pub secret: int,
    /// The guesses accepted so far.
    pub attempts: nat,
    /// The hidden number has been guessed.
    pub finished: bool,
}

/// A game in progress, or one that has been won.
pub struct Session {
    secret: Guess,
    count: GuessCount,
    finished: bool,
}

impl View for Session {
    type V = GameState;

    closed spec fn view(&self) -> GameState {
        GameState { secret: self.secret@, attempts: self.count@, finished: self.finished }
    }
}

/// The number that `line` holds, where it can be taken as a guess.
pub open spec fn accepted_number(line: Seq<char>) -> Option<nat> {
    match number_in(line) {
        Some(v) => if in_range(v as int) {
            Some(v)
        } else {
            None
        },
        None => None,
    }
}

/// The game after `line` is offered as a guess: an accepted number counts
/// one attempt and ends the game where it is the hidden number; any other
/// line leaves the game as it was.
pub open spec fn next_state(s: GameState, line: Seq<char>) -> GameState {
    match accepted_number(line) {
        Some(v) => GameState {
            secret: s.secret,
            attempts: s.attempts + 1,
            finished: v == s.secret,
        },
        None => s,
    }
}

/// The game after each of `lines` is offered in turn.
pub open spec fn run(s: GameState, lines: Seq<Seq<char>>) -> GameState
    decreases lines.len(),
{
    if lines.len() == 0 {
        s
    } else {
        next_state(run(s, lines.drop_last()), lines.last())
    }
}

/// How many of `lines` can be taken as guesses.
pub open spec fn accepted_count(lines: Seq<Seq<char>>) -> nat
    decreases lines.len(),
{
    if lines.len() == 0 {
        0
    } else {
        accepted_count(lines.drop_last()) + if accepted_number(lines.last()) is Some {
            1nat
        } else {
            0nat
        }
    }
}

/// The attempt counter goes up by exactly one for each line that reads as a
/// number from 1 to 100, whether the guess is too small, too big or right,
/// and stays put for every line that does not; the hidden number never
/// changes.
pub proof fn lemma_attempts_count_accepted_lines(s: GameState, lines: Seq<Seq<char>>)
    ensures
        run(s, lines).attempts == s.attempts + accepted_count(lines),
        run(s, lines).secret == s.secret,
    decreases lines.len(),
{
    if lines.len() > 0 {
        lemma_attempts_count_accepted_lines(s, lines.drop_last());
    }
}

impl Session {
    /// A game with hidden number `secret` and no guess made yet.
    pub fn new(secret: Guess) -> (r: Session)
        ensures
            r@ == (GameState { secret: secret@, attempts: 0, finished: false }),
    {
        Session { secret, count: GuessCount::new(), finished: false }
    }

    /// A game whose hidden number is drawn at random from 1 to 100.
    pub fn start() -> (r: Session)
        ensures
            in_range(r@.secret),
            r@.attempts == 0,
            !r@.finished,
    {
        let n = get_secret_number(LOWEST, HIGHEST);
        let secret = Guess::new(n).unwrap();
        Session::new(secret)
    }

    /// The guesses accepted so far.
    pub fn attempts(&self) -> (r: u32)
        ensures
            r == self@.attempts,
    {
        self.count.value()
    }

    /// The hidden number has been guessed.
    pub fn is_finished(&self) -> (r: bool)
        ensures
            r == self@.finished,
    {
        self.finished
    }

    /// Takes one line of input as a guess. A line that reads as a number
    /// from 1 to 100 counts as an attempt, whatever its outcome, and a correct
    /// one ends the game; any other line is rejected with its error and
    /// changes nothing.
    pub fn submit(&mut self, line: &str) -> (r: Result<GuessResult, GuessError>)
        requires
            !old(self)@.finished,
            old(self)@.attempts < u32::MAX,
        ensures
            final(self)@ == next_state(old(self)@, line@),
            r is Ok <==> accepted_number(line@) is Some,
            r is Ok ==> r->Ok_0 == outcome_of(
                accepted_number(line@)->Some_0 as int,
                old(self)@.secret,
            ),
            number_in(line@) is None ==> r is Err && r->Err_0 is ParseError,
            number_in(line@) is Some && accepted_number(line@) is None ==> r is Err
                && r->Err_0 is InvalidRange,
    {
        match Guess::parse_input(line) {
            Ok(guess) => {
                self.count.increment();
                let outcome = handle_guess(guess, &self.secret);
                if outcome == GuessResult::Correct {
                    self.finished = true;
                }
                Ok(outcome)
            },
            Err(e) => Err(e),
        }
    }
}

} // verus!
