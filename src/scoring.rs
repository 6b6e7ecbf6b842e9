use vstd::prelude::*;
use crate::vec2::Vec2;
use crate::positions::{Position, Velocity};

verus! {

/// The side that won a point.
#[derive(Clone, Copy, Debug, PartialEq, Eq, Structural)]
pub enum Scorer {
    Ai,
    Player,
}

/// The signal that a point was won.
#[derive(Clone, Copy, Debug, PartialEq, Eq, Structural)]
pub struct Scored(pub Scorer);

/// The points won by each side so far.
#[derive(Clone, Copy, Debug, PartialEq, Eq, Structural)]
pub struct Score {
    pub player: u32,
    pub ai: u32,
}

impl Default for Score {
    fn default() -> (r: Score)
        ensures
            r.player == 0,
            r.ai == 0,
    {
        Score { player: 0, ai: 0 }
    }
}

/// The signal for a ball whose center is at `x` in a window `window_width`
/// wide: past the right edge the opponent scores, past the left edge the
/// player does.
pub open spec fn scoring_signal(x: int, window_width: int) -> Option<Scored> {
    if 2 * x > window_width {
        Some(Scored(Scorer::Ai))
    } else if 2 * x < -window_width {
        Some(Scored(Scorer::Player))
    } else {
        None
    }
}

/// Tells whether the ball has left the playfield through a side, and who
/// scored if so.
pub fn detect_scoring(ball: &Position, window_width: u32) -> (r: Option<Scored>)
    ensures
        r == scoring_signal(ball.0.x as int, window_width as int),
{
    let twice_x = 2 * ball.0.x as i64;
    let w = window_width as i64;
    if twice_x > w {
        Some(Scored(Scorer::Ai))
    } else if twice_x < -w {
        Some(Scored(Scorer::Player))
    } else {
        None
    }
}

/// The velocity the ball restarts with: toward the side that did not score.
pub open spec fn serve_velocity(scorer: Scorer) -> Vec2 {
    match scorer {
        Scorer::Ai => Vec2 { x: -1i32, y: -1i32 },
        Scorer::Player => Vec2 { x: 1, y: 1 },
    }
}

/// Puts the ball back at the origin after a point, heading toward the side
/// that did not score.
pub fn reset_ball(position: &mut Position, velocity: &mut Velocity, scored: &Scored)
    ensures
        final(position).0 == (Vec2 { x: 0, y: 0 }),
        final(velocity).0 == serve_velocity(scored.0),
{
    position.0 = Vec2::new(0, 0);
    match scored.0 {
        Scorer::Ai => {
            velocity.0 = Vec2::new(-1, -1);
        },
        Scorer::Player => {
            velocity.0 = Vec2::new(1, 1);
        },
    }
}

/// The scorer's counter has room for one more point.
pub open spec fn can_record(score: Score, scorer: Scorer) -> bool {
    match scorer {
        Scorer::Ai => score.ai < u32::MAX,
        Scorer::Player => score.player < u32::MAX,
    }
}

/// The score with one more point for `scorer`.
pub open spec fn recorded(score: Score, scorer: Scorer) -> Score {
    match scorer {
        Scorer::Ai => Score { ai: (score.ai + 1) as u32, ..score },
        Scorer::Player => Score { player: (score.player + 1) as u32, ..score },
    }
}

/// Counts the point that `scored` signals.
pub fn update_score(score: &mut Score, scored: &Scored)
    requires
        can_record(*old(score), scored.0),
    ensures
        *final(score) == recorded(*old(score), scored.0),
{
    match scored.0 {
        Scorer::Ai => score.ai = score.ai + 1,
        Scorer::Player => score.player = score.player + 1,
    }
}

/// Once a point is processed, the ball stands at the origin, heading at
/// `(-1, -1)` after the opponent scored and at `(1, 1)` after the player
/// did, and the scorer's counter alone has grown, by exactly one.
pub proof fn lemma_point_processed(score: Score, scorer: Scorer)
    requires
        can_record(score, scorer),
    ensures
        scorer == Scorer::Ai ==> (serve_velocity(scorer) == Vec2 { x: -1i32, y: -1i32 }),
        scorer == Scorer::Player ==> (serve_velocity(scorer) == Vec2 { x: 1, y: 1 }),
        scorer == Scorer::Ai ==> recorded(score, scorer).ai == score.ai + 1
            && recorded(score, scorer).player == score.player,
        scorer == Scorer::Player ==> recorded(score, scorer).player == score.player + 1
            && recorded(score, scorer).ai == score.ai,
{
}

/// A ball whose center is past the right edge (`x > window_width / 2`)
/// signals a point for the opponent, one past the left edge a point for the
/// player, and one within the playfield, edges included, signals nothing.
pub proof fn lemma_scoring_regions(x: i32, window_width: u32)
    ensures
        2 * x > window_width ==> (scoring_signal(x as int, window_width as int) == Some(
            Scored(Scorer::Ai),
        )),
        2 * x < -window_width ==> (scoring_signal(x as int, window_width as int) == Some(
            Scored(Scorer::Player),
        )),
        -window_width <= 2 * x <= window_width ==> (scoring_signal(x as int, window_width as int)
            == None::<Scored>),
{
}

} // verus!
