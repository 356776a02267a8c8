//! Types shared by every part of the simulation.

use vstd::prelude::*;
use vstd::std_specs::convert::FromSpecImpl;
use vstd::string::StringExecFns;

verus! {

/// A cell coordinate on the map grid.
#[derive(Clone, Copy, Debug, PartialEq, Eq, Structural)]
pub struct Point {
    pub x: i32,
    pub y: i32,
}

impl Point {
    /// Builds the point `(x, y)`.
    pub fn new(x: i32, y: i32) -> (p: Self)
        ensures
            p == (Point { x, y }),
    {
        Self { x, y }
    }
}

/// `v` held within `lo..=hi`.
pub open spec fn clamp(v: int, lo: int, hi: int) -> int {
    if v < lo {
        lo
    } else if v > hi {
        hi
    } else {
        v
    }
}

/// `v` held within `lo..=hi`.
pub fn clamp_i64(v: i64, lo: i64, hi: i64) -> (r: i64)
    ensures
        r == clamp(v as int, lo as int, hi as int),
{
    if v < lo {
        lo
    } else if v > hi {
        hi
    } else {
        v
    }
}

/// Whether two strings hold the same text.
pub fn same_text(a: &str, b: &str) -> (r: bool)
    ensures
        r == (a@ == b@),
{
    a.to_owned() == b.to_owned()
}

/// `std::io::Error`, taken as it is: nothing is known of what an error
/// holds.
#[verifier::external_type_specification]
#[verifier::external_body]
pub struct ExIoError(std::io::Error);

/// Everything that can go wrong in the game logic.
#[derive(Debug)]
pub enum GameError {
    /// The operation cannot be carried out in the current state.
    InvalidOperation,
    /// The storage layer failed.
    Io(std::io::Error),
    /// A text field could not be read; the payload names it.
    Parse(String),
}

pub type GameResult<T> = Result<T, GameError>;

impl From<std::io::Error> for GameError {
    fn from(e: std::io::Error) -> (r: GameError) {
        GameError::Io(e)
    }
}

impl FromSpecImpl<std::io::Error> for GameError {
    open spec fn obeys_from_spec() -> bool {
        true
    }

    open spec fn from_spec(e: std::io::Error) -> GameError {
        GameError::Io(e)
    }
}

impl GameError {
    /// What the message of this error is, where the library decides it.
    /// The text of a storage failure belongs to the storage layer, so the
    /// model has none for it.
    pub open spec fn message(self) -> Option<Seq<char>> {
        match self {
            GameError::InvalidOperation => Some("invalid operation"@),
            GameError::Io(_) => None,
            GameError::Parse(field) => Some("parse error: "@ + field@),
        }
    }

    /// Renders the error for display.
    pub fn to_string(&self) -> (s: String)
        ensures
            self.message() matches Some(m) ==> s@ == m,
    {
        match self {
            GameError::InvalidOperation => String::from_str("invalid operation"),
            GameError::Io(e) => e.to_string(),
            GameError::Parse(field) => String::from_str("parse error: ").concat(field.as_str()),
        }
    }
}

} // verus!
