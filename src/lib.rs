//! A number-guessing game: a bounded guess type, its parser, a three-way
//! comparison against a hidden number, an attempt counter, and the session
//! state machine that ties them together.

mod text;
pub mod guess;
pub mod count;
pub mod secret;
pub mod session;

pub use guess::{GuessError, Guess, Guessable, GuessResult, Parsable, handle_guess};
pub use count::{GuessCount, Incrementable};
pub use secret::get_secret_number;
pub use session::{GameState, Session};
