use vstd::prelude::*;
use crate::error::{Rejection, Status, GameError, bad_request};
use crate::user::User;
use crate::auth::{key_of, user_key};

verus! {

/// Highest range that a player can upgrade to.
pub const MAX_RANGE: u8 = 5;

/// Highest coordinate that a move can reach.
pub const MAX_COORDINATE: u8 = 100;

/// Action points that the test endpoint sets.
pub const TEST_POINTS: u32 = 99;

/// A refusal answered with `200 OK` and an error body.
pub open spec fn refused_with_ok(e: GameError) -> Rejection {
    Rejection { status: Status::Success, error: e }
}

/// Looks up a player for display: a missing player is refused with
/// "Invalid user id".
pub fn get_user(found: Option<User>) -> (r: Result<User, Rejection>)
    ensures
        match found {
            Some(u) => r == Ok::<User, Rejection>(u),
            None => r == Err::<User, Rejection>(bad_request(GameError::InvalidUserId)),
        },
{
    match found {
        Some(u) => Ok(u),
        None => Err(Rejection { status: Status::BadRequest, error: GameError::InvalidUserId }),
    }
}

/// Sets the player's action points to 99 (a testing aid).
pub fn test_create_points(user: &mut User)
    ensures
        *final(user) == (User { action_points: TEST_POINTS, ..*old(user) }),
{
    user.action_points = TEST_POINTS;
}

/// What upgrading the player's range gives: it costs one action point and
/// raises the range by one, up to 5.
pub open spec fn upgrade_outcome(u: User) -> Result<User, Rejection> {
    if u.action_points == 0 {
        Err(bad_request(GameError::NotEnoughActionPoints))
    } else if u.range == MAX_RANGE {
        Err(bad_request(GameError::MaxRangeReached))
    } else if u.range == u8::MAX {
        Err(bad_request(GameError::MaxRangeAcquired))
    } else {
        Ok(User { action_points: (u.action_points - 1) as u32, range: (u.range + 1) as u8, ..u })
    }
}

/// Upgrades the player's range (see `upgrade_outcome`). On refusal the
/// player does not change.
pub fn upgrade_range(user: &mut User) -> (r: Result<(), Rejection>)
    ensures
        match upgrade_outcome(*old(user)) {
            Ok(u) => r is Ok && *final(user) == u,
            Err(e) => r == Err::<(), Rejection>(e) && *final(user) == *old(user),
        },
{
    let points = match user.action_points.checked_sub(1) {
        Some(p) => p,
        None => return Err(Rejection { status: Status::BadRequest, error: GameError::NotEnoughActionPoints }),
    };
    if user.range == MAX_RANGE {
        return Err(Rejection { status: Status::BadRequest, error: GameError::MaxRangeReached });
    }
    let range = match user.range.checked_add(1) {
        Some(r) => r,
        None => return Err(Rejection { status: Status::BadRequest, error: GameError::MaxRangeAcquired }),
    };
    user.action_points = points;
    user.range = range;
    Ok(())
}

/// A direction that a move request names.
#[derive(PartialEq, Eq, Structural, Clone, Copy, Debug)]
pub enum Direction {
    Up,
    Down,
    Left,
    Right,
    /// Any other text; such a move sends the player to the origin.
    Unknown,
}

/// The direction that the path segment `s` names.
pub open spec fn direction_of(s: Seq<char>) -> Direction {
    if s == "UP"@ {
        Direction::Up
    } else if s == "DOWN"@ {
        Direction::Down
    } else if s == "LEFT"@ {
        Direction::Left
    } else if s == "RIGHT"@ {
        Direction::Right
    } else {
        Direction::Unknown
    }
}

/// Reads the direction of a move request ("UP", "DOWN", "LEFT", "RIGHT").
pub fn parse_direction(s: &str) -> (d: Direction)
    ensures
        d == direction_of(s@),
{
    let s = s.to_owned();
    if s == "UP".to_owned() {
        Direction::Up
    } else if s == "DOWN".to_owned() {
        Direction::Down
    } else if s == "LEFT".to_owned() {
        Direction::Left
    } else if s == "RIGHT".to_owned() {
        Direction::Right
    } else {
        Direction::Unknown
    }
}

/// One step up a coordinate, wrapping from 255 to 0.
pub open spec fn step_up(v: u8) -> u8 {
    if v == u8::MAX { 0 } else { (v + 1) as u8 }
}

/// One step down a coordinate, wrapping from 0 to 255.
pub open spec fn step_down(v: u8) -> u8 {
    if v == 0 { u8::MAX } else { (v - 1) as u8 }
}

/// A coordinate capped at 100.
pub open spec fn capped(v: u8) -> u8 {
    if v > MAX_COORDINATE { MAX_COORDINATE } else { v }
}

/// Where a move in direction `d` takes a player at `p`: up and down change
/// the second coordinate, left and right the first, each step wrapping
/// around a byte, and the result is capped at 100 on both axes; an
/// unknown direction leads to the origin.
pub open spec fn moved(p: (u8, u8), d: Direction) -> (u8, u8) {
    let q = match d {
        Direction::Up => (p.0, step_up(p.1)),
        Direction::Down => (p.0, step_down(p.1)),
        Direction::Left => (step_down(p.0), p.1),
        Direction::Right => (step_up(p.0), p.1),
        Direction::Unknown => (0u8, 0u8),
    };
    (capped(q.0), capped(q.1))
}

/// What a move gives: it costs one action point.
pub open spec fn move_outcome(u: User, d: Direction) -> Result<User, Rejection> {
    if u.action_points == 0 {
        Err(bad_request(GameError::NotEnoughActionPoints))
    } else {
        Ok(User { position: moved(u.position, d), action_points: (u.action_points - 1) as u32, ..u })
    }
}

/// Moves the player one tile in the named direction (see `move_outcome`).
/// On refusal the player does not change.
pub fn move_player(user: &mut User, direction: &str) -> (r: Result<(), Rejection>)
    ensures
        match move_outcome(*old(user), direction_of(direction@)) {
            Ok(u) => r is Ok && *final(user) == u,
            Err(e) => r == Err::<(), Rejection>(e) && *final(user) == *old(user),
        },
{
    let (x, y) = user.position;
    let new_position: (u8, u8) = match parse_direction(direction) {
        Direction::Up => (x, y.wrapping_add(1)),
        Direction::Down => (x, y.wrapping_sub(1)),
        Direction::Left => (x.wrapping_sub(1), y),
        Direction::Right => (x.wrapping_add(1), y),
        Direction::Unknown => (0, 0),
    };
    let cx: u8 = if new_position.0 > MAX_COORDINATE { MAX_COORDINATE } else { new_position.0 };
    let cy: u8 = if new_position.1 > MAX_COORDINATE { MAX_COORDINATE } else { new_position.1 };
    let points = match user.action_points.checked_sub(1) {
        Some(p) => p,
        None => return Err(Rejection { status: Status::BadRequest, error: GameError::NotEnoughActionPoints }),
    };
    user.position = (cx, cy);
    user.action_points = points;
    Ok(())
}

/// A byte read as a signed byte (two's complement).
pub open spec fn as_signed(b: u8) -> int {
    if b < 128 { b as int } else { b - 256 }
}

/// Absolute value.
pub open spec fn abs(v: int) -> int {
    if v < 0 { -v } else { v }
}

/// Whether a signed-byte difference and its absolute value stay within a
/// signed byte (the difference of two signed bytes, then its absolute
/// value, as the distance is computed).
pub open spec fn gap_fits(d: int) -> bool {
    -127 <= d <= 127
}

/// Whether the distance between `p` and `q` can be computed in signed
/// bytes without overflow: each coordinate difference and its absolute
/// value, and their sum, fit a signed byte.
pub open spec fn distance_defined(p: (u8, u8), q: (u8, u8)) -> bool {
    let dx = as_signed(p.0) - as_signed(q.0);
    let dy = as_signed(p.1) - as_signed(q.1);
    &&& gap_fits(dx)
    &&& gap_fits(dy)
    &&& abs(dx) + abs(dy) <= 127
}

/// The Manhattan distance between `p` and `q`, their coordinates read as
/// signed bytes.
pub open spec fn distance(p: (u8, u8), q: (u8, u8)) -> int {
    abs(as_signed(p.0) - as_signed(q.0)) + abs(as_signed(p.1) - as_signed(q.1))
}

/// The inputs on which an attack runs to the end: where the distance is
/// computed, it does not overflow.
pub open spec fn attack_defined(attacker: User, target: Option<User>) -> bool {
    attacker.health != 0 && target is Some && target->0.health != 0 ==> distance_defined(
        attacker.position,
        target->0.position,
    )
}

/// What an attack gives: a living attacker within range of a living
/// target pays one action point and takes one health from the target.
pub open spec fn attack_outcome(attacker: User, target: Option<User>) -> Result<(User, User), Rejection> {
    if attacker.health == 0 {
        Err(bad_request(GameError::ImagineBeingDead))
    } else {
        match target {
            None => Err(bad_request(GameError::CouldNotFindUser)),
            Some(t) => if t.health == 0 {
                Err(bad_request(GameError::CannotAttackDeadPlayers))
            } else if distance(attacker.position, t.position) > attacker.range {
                Err(bad_request(GameError::NotEnoughRange))
            } else if attacker.action_points == 0 {
                Err(bad_request(GameError::NotEnoughPoints))
            } else {
                Ok((
                    User { action_points: (attacker.action_points - 1) as u32, ..attacker },
                    User { health: (t.health - 1) as u8, ..t },
                ))
            },
        }
    }
}

fn signed_coordinate(b: u8) -> (r: i16)
    ensures
        r == as_signed(b),
{
    if b < 128 { b as i16 } else { b as i16 - 256 }
}

/// The distance between two positions, or `None` where computing it in
/// signed bytes overflows.
pub fn attack_distance(p: (u8, u8), q: (u8, u8)) -> (r: Option<u8>)
    ensures
        match r {
            Some(d) => distance_defined(p, q) && d == distance(p, q),
            None => !distance_defined(p, q),
        },
{
    let dx: i16 = signed_coordinate(p.0) - signed_coordinate(q.0);
    let dy: i16 = signed_coordinate(p.1) - signed_coordinate(q.1);
    if dx < -127 || dx > 127 || dy < -127 || dy > 127 {
        return None;
    }
    let ax: i16 = if dx < 0 { -dx } else { dx };
    let ay: i16 = if dy < 0 { -dy } else { dy };
    if ax + ay > 127 {
        return None;
    }
    Some((ax + ay) as u8)
}

/// Tells whether `attack_player` can run on these inputs (see
/// `attack_defined`).
pub fn attack_is_computable(attacker: &User, target: &Option<User>) -> (b: bool)
    ensures
        b == attack_defined(*attacker, *target),
{
    if attacker.health == 0 {
        return true;
    }
    match target {
        None => true,
        Some(t) => t.health == 0 || attack_distance(attacker.position, t.position).is_some(),
    }
}

/// The first check of an attack, made before the target is looked up: a
/// dead attacker is refused with "Imagine being dead".
pub fn attacker_can_attack(attacker: &User) -> (r: Result<(), Rejection>)
    ensures
        r == (if attacker.health == 0 {
            Err::<(), Rejection>(bad_request(GameError::ImagineBeingDead))
        } else {
            Ok::<(), Rejection>(())
        }),
{
    if attacker.health == 0 {
        Err(Rejection { status: Status::BadRequest, error: GameError::ImagineBeingDead })
    } else {
        Ok(())
    }
}

/// The attacker attacks the target, if found (see `attack_outcome`).
/// Returns both players as they are to be stored.
pub fn attack_player(attacker: User, target: Option<User>) -> (r: Result<(User, User), Rejection>)
    requires
        attack_defined(attacker, target),
    ensures
        r == attack_outcome(attacker, target),
{
    if attacker.health == 0 {
        return Err(Rejection { status: Status::BadRequest, error: GameError::ImagineBeingDead });
    }
    let mut target = match target {
        Some(t) => t,
        None => return Err(Rejection { status: Status::BadRequest, error: GameError::CouldNotFindUser }),
    };
    if target.health == 0 {
        return Err(Rejection { status: Status::BadRequest, error: GameError::CannotAttackDeadPlayers });
    }
    let distance = match attack_distance(attacker.position, target.position) {
        Some(d) => d,
        None => return Err(Rejection { status: Status::BadRequest, error: GameError::NotEnoughRange }),
    };
    if distance > attacker.range {
        return Err(Rejection { status: Status::BadRequest, error: GameError::NotEnoughRange });
    }
    let mut attacker = attacker;
    let points = match attacker.action_points.checked_sub(1) {
        Some(p) => p,
        None => return Err(Rejection { status: Status::BadRequest, error: GameError::NotEnoughPoints }),
    };
    attacker.action_points = points;
    target.health = target.health - 1;
    Ok((attacker, target))
}

/// The inputs on which a gift runs to the end: the receiver's balance can
/// take one more point.
pub open spec fn gift_defined(giver: User, receiver: Option<User>) -> bool {
    receiver is Some && giver.action_points != 0 ==> receiver->0.action_points < u32::MAX
}

/// What a gift gives: one action point passes from the giver to the
/// receiver. A giver without points is answered with `200 OK` and an error.
pub open spec fn gift_outcome(giver: User, receiver: Option<User>) -> Result<(User, User), Rejection> {
    match receiver {
        None => Err(bad_request(GameError::CouldNotFindUser)),
        Some(r) => if giver.action_points == 0 {
            Err(refused_with_ok(GameError::NotEnoughActionPoints))
        } else {
            Ok((
                User { action_points: (giver.action_points - 1) as u32, ..giver },
                User { action_points: (r.action_points + 1) as u32, ..r },
            ))
        },
    }
}

/// Tells whether `gift_player` can run on these inputs (see
/// `gift_defined`).
pub fn gift_is_computable(giver: &User, receiver: &Option<User>) -> (b: bool)
    ensures
        b == gift_defined(*giver, *receiver),
{
    match receiver {
        None => true,
        Some(r) => giver.action_points == 0 || r.action_points < u32::MAX,
    }
}

/// The giver gives one action point to the receiver, if found (see
/// `gift_outcome`). Returns both players as they are to be stored.
pub fn gift_player(giver: User, receiver: Option<User>) -> (r: Result<(User, User), Rejection>)
    requires
        gift_defined(giver, receiver),
    ensures
        r == gift_outcome(giver, receiver),
{
    let mut receiver = match receiver {
        Some(r) => r,
        None => return Err(Rejection { status: Status::BadRequest, error: GameError::CouldNotFindUser }),
    };
    if giver.action_points == 0 {
        return Err(Rejection { status: Status::Success, error: GameError::NotEnoughActionPoints });
    }
    let mut giver = giver;
    giver.action_points = giver.action_points - 1;
    receiver.action_points = receiver.action_points + 1;
    Ok((giver, receiver))
}


/// Range stays capped: a player whose range is at most 5 still has range
/// at most 5 after any upgrade, and is never refused with "Max range
/// acquired".
pub proof fn upgrade_keeps_range_capped(u: User)
    requires
        u.range <= MAX_RANGE,
    ensures
        upgrade_outcome(u) matches Ok(v) ==> v.range <= MAX_RANGE,
        upgrade_outcome(u) != Err::<User, Rejection>(bad_request(GameError::MaxRangeAcquired)),
{
}

/// Players stay on the grid: after any successful move both coordinates
/// are at most 100, whatever the position before.
pub proof fn moves_stay_on_grid(u: User, d: Direction)
    ensures
        move_outcome(u, d) matches Ok(v) ==> v.position.0 <= MAX_COORDINATE && v.position.1
            <= MAX_COORDINATE,
{
}

/// A gift moves one point and creates none: the two balances add up to
/// what they added up to before.
pub proof fn gift_conserves_points(giver: User, receiver: Option<User>)
    requires
        gift_defined(giver, receiver),
    ensures
        gift_outcome(giver, receiver) matches Ok((g, r)) ==> g.action_points + r.action_points
            == giver.action_points + receiver->0.action_points,
{
}

/// An attack lands only on a living target within the attacker's range,
/// and takes exactly one health from it.
pub proof fn attack_hits_only_in_range(attacker: User, target: Option<User>)
    ensures
        attack_outcome(attacker, target) matches Ok((a, t)) ==> {
            &&& target is Some
            &&& target->0.health > 0
            &&& distance(attacker.position, target->0.position) <= attacker.range
            &&& t.health == target->0.health - 1
        },
{
}

/// Every successful action is paid with exactly one action point of the
/// acting player, and changes nothing else about who they are.
pub proof fn actions_cost_one_point(u: User, d: Direction, other: Option<User>)
    ensures
        upgrade_outcome(u) matches Ok(v) ==> v.action_points == u.action_points - 1 && v.id == u.id,
        move_outcome(u, d) matches Ok(v) ==> v.action_points == u.action_points - 1 && v.id == u.id,
        attack_outcome(u, other) matches Ok((v, _)) ==> v.action_points == u.action_points - 1
            && v.id == u.id,
        gift_outcome(u, other) matches Ok((v, _)) ==> v.action_points == u.action_points - 1
            && v.id == u.id,
{
}

/// The records to store after an action between the player `actor_id` and
/// the player `target_id`, as (key, player) in the order they are written.
/// For two players, the actor's record and then the target's. When both
/// are the same player only the target's record is written, which leaves
/// the store as writing both in that order would: the second write
/// replaces the first.
pub fn pair_writes(actor_id: &str, target_id: &str, actor: User, target: User) -> (w: Vec<(String, User)>)
    ensures
        actor_id@ == target_id@ ==> w@.len() == 1 && w@[0].0@ == key_of(target_id@) && w@[0].1
            == target,
        actor_id@ != target_id@ ==> {
            &&& w@.len() == 2
            &&& w@[0].0@ == key_of(actor_id@)
            &&& w@[0].1 == actor
            &&& w@[1].0@ == key_of(target_id@)
            &&& w@[1].1 == target
        },
{
    let mut w: Vec<(String, User)> = Vec::new();
    if actor_id.to_owned() != target_id.to_owned() {
        w.push((user_key(actor_id), actor));
    }
    w.push((user_key(target_id), target));
    w
}

/// A player who gifts to themself ends up with one point more: the
/// record kept is the receiver's, which gained the point, while the
/// giver's payment is overwritten.
pub proof fn self_gift_adds_a_point(u: User)
    requires
        gift_defined(u, Some(u)),
        u.action_points > 0,
    ensures
        gift_outcome(u, Some(u)) matches Ok((_, r)) && r.action_points == u.action_points + 1,
{
}

/// A player who attacks themself loses one health and no action point:
/// the record kept is the target's, while the attacker's payment is
/// overwritten.
pub proof fn self_attack_costs_only_health(u: User)
    requires
        attack_outcome(u, Some(u)) is Ok,
    ensures
        attack_outcome(u, Some(u)) matches Ok((_, t)) && t.action_points == u.action_points
            && t.health == u.health - 1,
{
}

/// Upgrading is refused for lack of points exactly when the player has
/// none; below range 5 a player with points always gets one more range
/// for one point, and nothing else about them changes; at range 5 a
/// player with points is refused with "Max range reached".
pub proof fn upgrade_law(u: User)
    ensures
        u.action_points == 0 ==> upgrade_outcome(u) == Err::<User, Rejection>(
            Rejection { status: Status::BadRequest, error: GameError::NotEnoughActionPoints },
        ),
        u.action_points > 0 && u.range < 5 ==> (upgrade_outcome(u) matches Ok(v) && v.range
            == u.range + 1 && v.action_points == u.action_points - 1 && v.id == u.id
            && v.username == u.username && v.position == u.position && v.creation_date
            == u.creation_date && v.awarded_points == u.awarded_points && v.health == u.health),
        u.action_points > 0 && u.range == 5 ==> upgrade_outcome(u) == Err::<User, Rejection>(
            Rejection { status: Status::BadRequest, error: GameError::MaxRangeReached },
        ),
{
}

/// A move is refused, for lack of points, exactly when the player has
/// none. Otherwise it costs one point, leaves everything but position and
/// points alone, and from a position on the grid (both coordinates at most
/// 100) it goes one tile: "UP" raises the second coordinate and "RIGHT"
/// the first, stopping at 100; "DOWN" lowers the second and "LEFT" the
/// first, with a step below 0 landing at 100; anything else goes to the
/// origin.
pub proof fn move_law(u: User, s: Seq<char>)
    ensures
        u.action_points == 0 ==> move_outcome(u, direction_of(s)) == Err::<User, Rejection>(
            Rejection { status: Status::BadRequest, error: GameError::NotEnoughActionPoints },
        ),
        u.action_points > 0 ==> (move_outcome(u, direction_of(s)) matches Ok(v) && v.action_points
            == u.action_points - 1 && v.id == u.id && v.username == u.username && v.range
            == u.range && v.health == u.health && v.creation_date == u.creation_date
            && v.awarded_points == u.awarded_points),
        ({
            let x = u.position.0;
            let y = u.position.1;
            u.action_points > 0 && x <= 100 && y <= 100 ==> {
                let p = move_outcome(u, direction_of(s))->Ok_0.position;
                &&& s == "UP"@ ==> p == (x, if y == 100 { 100u8 } else { (y + 1) as u8 })
                &&& s == "RIGHT"@ ==> p == (if x == 100 { 100u8 } else { (x + 1) as u8 }, y)
                &&& s == "DOWN"@ ==> p == (x, if y == 0 { 100u8 } else { (y - 1) as u8 })
                &&& s == "LEFT"@ ==> p == (if x == 0 { 100u8 } else { (x - 1) as u8 }, y)
                &&& s != "UP"@ && s != "RIGHT"@ && s != "DOWN"@ && s != "LEFT"@ ==> p == (0u8, 0u8)
            }
        }),
{
    reveal_strlit("UP");
    reveal_strlit("DOWN");
    reveal_strlit("LEFT");
    reveal_strlit("RIGHT");
    assert("UP"@.len() == 2 && "DOWN"@.len() == 4 && "LEFT"@.len() == 4 && "RIGHT"@.len() == 5);
    assert("DOWN"@[0] != "LEFT"@[0]);
    if s == "UP"@ {
        assert(direction_of(s) == Direction::Up);
    } else if s == "DOWN"@ {
        assert(direction_of(s) == Direction::Down);
    } else if s == "LEFT"@ {
        assert(direction_of(s) == Direction::Left);
    } else if s == "RIGHT"@ {
        assert(direction_of(s) == Direction::Right);
    } else {
        assert(direction_of(s) == Direction::Unknown);
    }
}

/// On positions with coordinates below 128 the attack distance is the
/// plain Manhattan distance: the sum of the two coordinate differences,
/// each taken without sign. It is symmetric.
pub proof fn distance_law(p: (u8, u8), q: (u8, u8))
    ensures
        distance(p, q) == distance(q, p),
        p.0 < 128 && p.1 < 128 && q.0 < 128 && q.1 < 128 ==> distance(p, q) == (if p.0 >= q.0 {
            p.0 - q.0
        } else {
            q.0 - p.0
        }) + (if p.1 >= q.1 {
            p.1 - q.1
        } else {
            q.1 - p.1
        }),
{
}

/// Between living players on coordinates below 128, with `dist` the sum of
/// the unsigned coordinate differences: an attack beyond the attacker's
/// range is refused with "Not enough range"; within range it is refused
/// only for lack of points, and otherwise the attacker pays one point and
/// the target loses one health, nothing else changing.
pub proof fn attack_law(a: User, t: User)
    requires
        a.health > 0,
        t.health > 0,
        a.position.0 < 128 && a.position.1 < 128 && t.position.0 < 128 && t.position.1 < 128,
    ensures
        ({
            let dist = (if a.position.0 >= t.position.0 {
                a.position.0 - t.position.0
            } else {
                t.position.0 - a.position.0
            }) + (if a.position.1 >= t.position.1 {
                a.position.1 - t.position.1
            } else {
                t.position.1 - a.position.1
            });
            &&& dist > a.range ==> attack_outcome(a, Some(t)) == Err::<(User, User), Rejection>(
                Rejection { status: Status::BadRequest, error: GameError::NotEnoughRange },
            )
            &&& dist <= a.range && a.action_points == 0 ==> attack_outcome(a, Some(t)) == Err::<
                (User, User),
                Rejection,
            >(Rejection { status: Status::BadRequest, error: GameError::NotEnoughPoints })
            &&& dist <= a.range && a.action_points > 0 ==> (attack_outcome(a, Some(t)) matches Ok(
                (a2, t2),
            ) && a2.action_points == a.action_points - 1 && a2.health == a.health && a2.position
                == a.position && a2.id == a.id && t2.health == t.health - 1 && t2.action_points
                == t.action_points && t2.position == t.position && t2.id == t.id)
        }),
{
}

/// A gift to a found receiver is refused exactly when the giver has no
/// points, whatever the receiver holds; otherwise one point passes from
/// the giver to the receiver and nothing else changes.
pub proof fn gift_law(g: User, r: User)
    ensures
        g.action_points == 0 ==> gift_outcome(g, Some(r)) == Err::<(User, User), Rejection>(
            Rejection { status: Status::Success, error: GameError::NotEnoughActionPoints },
        ),
        g.action_points > 0 && r.action_points < u32::MAX ==> (gift_outcome(g, Some(r)) matches Ok(
            (g2, r2),
        ) && g2.action_points == g.action_points - 1 && r2.action_points == r.action_points + 1
            && g2.id == g.id && r2.id == r.id && g2.health == g.health && r2.health == r.health
            && g2.position == g.position && r2.position == r.position),
        gift_outcome(g, None) == Err::<(User, User), Rejection>(
            Rejection { status: Status::BadRequest, error: GameError::CouldNotFindUser },
        ),
{
}

} // verus!
