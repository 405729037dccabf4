use vstd::prelude::*;

verus! {

/// The HTTP status that a refused request is answered with.
#[derive(PartialEq, Eq, Structural, Clone, Copy, Debug)]
pub enum Status {
    /// `200 OK` (a gift without points is answered so).
    Success,
    /// `400 Bad Request`.
    BadRequest,
}

/// Why a game action was refused. The message that the server sends for
/// each is given by `GameError::message`.
#[derive(PartialEq, Eq, Structural, Clone, Copy, Debug)]
pub enum GameError {
    NotEnoughActionPoints,
    MaxRangeReached,
    MaxRangeAcquired,
    CannotDigHere,
    ImagineBeingDead,
    CouldNotFindUser,
    CannotAttackDeadPlayers,
    NotEnoughRange,
    NotEnoughPoints,
    InvalidUserId,
}

/// The text that the server sends, under the key `"error"`, for each refusal.
pub open spec fn error_text(e: GameError) -> Seq<char> {
    match e {
        GameError::NotEnoughActionPoints => "Not enough action points"@,
        GameError::MaxRangeReached => "Max range reached"@,
        GameError::MaxRangeAcquired => "Max range acquired"@,
        GameError::CannotDigHere => "Cannot dig here"@,
        GameError::ImagineBeingDead => "Imagine being dead"@,
        GameError::CouldNotFindUser => "Could not find user"@,
        GameError::CannotAttackDeadPlayers => "Cannot attack dead players"@,
        GameError::NotEnoughRange => "Not enough range"@,
        GameError::NotEnoughPoints => "Not enough points"@,
        GameError::InvalidUserId => "Invalid user id"@,
    }
}

impl GameError {
    /// The message sent to the client for this refusal.
    pub fn message(&self) -> (m: &'static str)
        ensures
            m@ == error_text(*self),
    {
        match self {
            GameError::NotEnoughActionPoints => "Not enough action points",
            GameError::MaxRangeReached => "Max range reached",
            GameError::MaxRangeAcquired => "Max range acquired",
            GameError::CannotDigHere => "Cannot dig here",
            GameError::ImagineBeingDead => "Imagine being dead",
            GameError::CouldNotFindUser => "Could not find user",
            GameError::CannotAttackDeadPlayers => "Cannot attack dead players",
            GameError::NotEnoughRange => "Not enough range",
            GameError::NotEnoughPoints => "Not enough points",
            GameError::InvalidUserId => "Invalid user id",
        }
    }
}

/// A refused request: the status it is answered with and the reason.
#[derive(PartialEq, Eq, Structural, Clone, Copy, Debug)]
pub struct Rejection {
    pub status: Status,
    pub error: GameError,
}

/// A refusal answered with `400 Bad Request`.
pub open spec fn bad_request(e: GameError) -> Rejection {
    Rejection { status: Status::BadRequest, error: e }
}

} // verus!
