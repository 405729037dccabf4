use vstd::prelude::*;

verus! {

/// Range that a new player starts with.
pub const INITIAL_RANGE: u8 = 1;

/// Health that a new player starts with.
pub const INITIAL_HEALTH: u8 = 3;

/// A player, as it is stored between requests.
pub struct User {
    pub id: u32,
    pub username: String,
    pub action_points: u32,
    pub position: (u8, u8),
    pub creation_date: u32,
    pub awarded_points: u32,
    pub range: u8,
    pub health: u8,
}

/// What a freshly created account looks like.
pub open spec fn fresh_user(u: User, id: u32, username: Seq<char>, created_at: u32) -> bool {
    &&& u.id == id
    &&& u.username@ == username
    &&& u.action_points == 0
    &&& u.position == (0u8, 0u8)
    &&& u.awarded_points == 0
    &&& u.creation_date == created_at
    &&& u.range == INITIAL_RANGE
    &&& u.health == INITIAL_HEALTH
}

/// Builds the player that a new account starts as: at the origin, with no
/// action points, range 1 and 3 health.
pub fn new_user(id: u32, username: String, created_at: u32) -> (u: User)
    ensures
        fresh_user(u, id, username@, created_at),
{
    User {
        id,
        username,
        action_points: 0,
        position: (0, 0),
        awarded_points: 0,
        creation_date: created_at,
        range: INITIAL_RANGE,
        health: INITIAL_HEALTH,
    }
}


/// Whole hours between the account's creation and `now_secs`, both in
/// seconds since the Unix epoch.
pub open spec fn hours_since(creation_date: u32, now_secs: u64) -> int {
    (now_secs - creation_date) / 3600
}

/// The inputs on which awarding points runs to the end: the clock is not
/// behind the creation date, the hour count fits a `u32`, no more points
/// were awarded than hours have passed, and the new balance fits a `u32`.
pub open spec fn award_defined(u: User, now_secs: u64) -> bool {
    let h = hours_since(u.creation_date, now_secs);
    &&& u.creation_date <= now_secs
    &&& h <= u32::MAX
    &&& u.awarded_points <= h
    &&& u.action_points + (h - u.awarded_points) <= u32::MAX
}

/// The player after being granted one action point for every hour since
/// creation that was not granted yet.
pub open spec fn awarded(u: User, now_secs: u64) -> User {
    let h = hours_since(u.creation_date, now_secs);
    User {
        awarded_points: h as u32,
        action_points: (u.action_points + (h - u.awarded_points)) as u32,
        ..u
    }
}

/// Tells whether `process_award_points` can run on these inputs (see
/// `award_defined`).
pub fn award_is_computable(user: &User, now_secs: u64) -> (b: bool)
    ensures
        b == award_defined(*user, now_secs),
{
    if now_secs < user.creation_date as u64 {
        return false;
    }
    let hours: u64 = (now_secs - user.creation_date as u64) / 60 / 60;
    if hours > u32::MAX as u64 {
        return false;
    }
    if hours < user.awarded_points as u64 {
        return false;
    }
    let fresh: u64 = hours - user.awarded_points as u64;
    user.action_points as u64 + fresh <= u32::MAX as u64
}

/// Grants the player one action point for every whole hour since the
/// account was created that has not been granted before, and records how
/// many hours have been granted. Returns how many points were granted now.
pub fn process_award_points(user: &mut User, now_secs: u64) -> (granted: u32)
    requires
        award_defined(*old(user), now_secs),
    ensures
        *final(user) == awarded(*old(user), now_secs),
        granted == hours_since(old(user).creation_date, now_secs) - old(user).awarded_points,
        final(user).awarded_points == hours_since(old(user).creation_date, now_secs),
{
    let hours: u64 = (now_secs - user.creation_date as u64) / 60 / 60;
    let hours: u32 = hours as u32;
    let granted: u32 = hours - user.awarded_points;
    user.awarded_points = user.awarded_points + granted;
    user.action_points = user.action_points + granted;
    granted
}

/// Awarding is idempotent: a second award at the same moment grants
/// nothing and leaves the player as the first one left it.
pub proof fn award_is_idempotent(u: User, now_secs: u64)
    requires
        award_defined(u, now_secs),
    ensures
        award_defined(awarded(u, now_secs), now_secs),
        awarded(awarded(u, now_secs), now_secs) == awarded(u, now_secs),
{
}

/// Points do not depend on how often they are awarded: awarding at `t1`
/// and then at a later `t2` leaves the player as a single award at `t2`.
pub proof fn award_composes(u: User, t1: u64, t2: u64)
    requires
        t1 <= t2,
        award_defined(u, t1),
        award_defined(u, t2),
    ensures
        award_defined(awarded(u, t1), t2),
        awarded(awarded(u, t1), t2) == awarded(u, t2),
{
    assert(hours_since(u.creation_date, t1) <= hours_since(u.creation_date, t2)) by {
        vstd::arithmetic::div_mod::lemma_div_is_ordered(
            t1 - u.creation_date,
            t2 - u.creation_date,
            3600,
        );
    }
}

/// An award grants exactly the whole hours since creation that were not
/// granted yet: the player's points grow by that many, the granted count
/// becomes the number of whole hours, and nothing else changes.
pub proof fn award_law(u: User, now_secs: u64)
    requires
        award_defined(u, now_secs),
    ensures
        awarded(u, now_secs).awarded_points == (now_secs - u.creation_date) / 3600,
        awarded(u, now_secs).action_points == u.action_points + (now_secs - u.creation_date) / 3600
            - u.awarded_points,
        awarded(u, now_secs).id == u.id,
        awarded(u, now_secs).position == u.position,
        awarded(u, now_secs).creation_date == u.creation_date,
        awarded(u, now_secs).range == u.range,
        awarded(u, now_secs).health == u.health,
        awarded(u, now_secs).username == u.username,
{
}

} // verus!
