//! Score comparison at the end of a session.
//!
//! The two counters themselves live in the simulation state and are
//! incremented only by the goal rule. This module turns their final
//! standing into the result line the presentation layer prints once on
//! quit.

use vstd::prelude::*;

verus! {

/// The end-of-session result from comparing the two score counters.
pub fn session_result(score1: usize, score2: usize) -> (r: &'static str)
    ensures
        score1 > score2 ==> r@ == "Player1 has won!"@,
        score1 == score2 ==> r@ == "Draw"@,
        score1 < score2 ==> r@ == "Player2 has won!"@,
{
    if score1 > score2 {
        "Player1 has won!"
    } else if score1 == score2 {
        "Draw"
    } else {
        "Player2 has won!"
    }
}

} // verus!
