//! Properties of the Uno state machine that hold of every call of `next`
//! (and of `draw`, `no_card` and `discard`, whose contracts are stated with
//! the same `next_outcome`).
use vstd::prelude::*;

use crate::uno::{
    next_outcome, CardType, GameView, UnoCard, UnoError, UnoEvent, UnoEventType, UnoGameState,
    UnoOutput, UnoStateType,
};

verus! {

/// The transition table: each accepted pair of phase and event kind, sent by
/// the turn holder, succeeds and leads to exactly the stated state; every other
/// event returns its error and leaves the state unchanged.
pub proof fn lemma_transition_table(
    pre: UnoGameState,
    e: UnoEvent,
    r: Result<Option<UnoOutput>, UnoError>,
    post: UnoGameState,
)
    requires
        next_outcome(pre, e, r, post),
    ensures
        e.id != pre@.turn_holder ==> r == Err::<Option<UnoOutput>, UnoError>(
            UnoError::IncorrectPlayer,
        ) && post == pre,
        e.id == pre@.turn_holder && pre@.phase == UnoStateType::WaitingForDiscard ==> match e.event_type {
            UnoEventType::Discard(c) => if c.card_type == pre@.top_card.card_type || c.number
                == pre@.top_card.number {
                r == Ok::<Option<UnoOutput>, UnoError>(None) && post@ == (GameView {
                    top_card: c,
                    turn_holder: ((pre@.turn_holder + 1) % pre@.player_count) as nat,
                    ..pre@
                })
            } else {
                r == Err::<Option<UnoOutput>, UnoError>(UnoError::IncorrectCard) && post == pre
            },
            UnoEventType::NoCard => r == Ok::<Option<UnoOutput>, UnoError>(None) && post@ == (
            GameView { phase: UnoStateType::WaitingForDraw, ..pre@ }),
            UnoEventType::Draw => r == Err::<Option<UnoOutput>, UnoError>(
                UnoError::UnexpectedEvent,
            ) && post == pre,
        },
        e.id == pre@.turn_holder && pre@.phase == UnoStateType::WaitingForDraw ==> match e.event_type {
            UnoEventType::Draw => r matches Ok(Some(UnoOutput::Card(_))) && post@ == (GameView {
                phase: UnoStateType::WaitingForDiscard,
                ..pre@
            }),
            _ => r == Err::<Option<UnoOutput>, UnoError>(UnoError::UnexpectedEvent) && post == pre,
        },
{
}

/// Rejection is idempotent: the same rejected event sent twice gives the same
/// error both times, and the state stays what it was.
pub proof fn lemma_rejection_idempotent(
    pre: UnoGameState,
    e: UnoEvent,
    r1: Result<Option<UnoOutput>, UnoError>,
    mid: UnoGameState,
    r2: Result<Option<UnoOutput>, UnoError>,
    post: UnoGameState,
)
    requires
        next_outcome(pre, e, r1, mid),
        next_outcome(mid, e, r2, post),
        r1 is Err,
    ensures
        r2 == r1,
        mid == pre,
        post == pre,
{
}

/// An accepted discard passes the turn to the next player, modulo the number
/// of players, which does not change.
pub proof fn lemma_discard_advances_turn(
    pre: UnoGameState,
    c: UnoCard,
    e: UnoEvent,
    r: Result<Option<UnoOutput>, UnoError>,
    post: UnoGameState,
)
    requires
        next_outcome(pre, e, r, post),
        e.event_type == UnoEventType::Discard(c),
        r is Ok,
    ensures
        post@.turn_holder == (pre@.turn_holder + 1) % pre@.player_count,
        post@.player_count == pre@.player_count,
        post@.top_card == c,
        post@.phase == pre@.phase,
{
}

/// With four players and player 0 to move, four accepted discards in a row
/// hand the turn to players 1, 2, 3 and then 0 again.
pub proof fn lemma_four_discards_wrap(
    s0: UnoGameState,
    e1: UnoEvent,
    r1: Result<Option<UnoOutput>, UnoError>,
    s1: UnoGameState,
    e2: UnoEvent,
    r2: Result<Option<UnoOutput>, UnoError>,
    s2: UnoGameState,
    e3: UnoEvent,
    r3: Result<Option<UnoOutput>, UnoError>,
    s3: UnoGameState,
    e4: UnoEvent,
    r4: Result<Option<UnoOutput>, UnoError>,
    s4: UnoGameState,
)
    requires
        s0@.player_count == 4,
        s0@.turn_holder == 0,
        next_outcome(s0, e1, r1, s1),
        next_outcome(s1, e2, r2, s2),
        next_outcome(s2, e3, r3, s3),
        next_outcome(s3, e4, r4, s4),
        e1.event_type is Discard && r1 is Ok,
        e2.event_type is Discard && r2 is Ok,
        e3.event_type is Discard && r3 is Ok,
        e4.event_type is Discard && r4 is Ok,
    ensures
        s1@.turn_holder == 1,
        s2@.turn_holder == 2,
        s3@.turn_holder == 3,
        s4@.turn_holder == 0,
{
    lemma_discard_advances_turn(s0, e1.event_type->Discard_0, e1, r1, s1);
    lemma_discard_advances_turn(s1, e2.event_type->Discard_0, e2, r2, s2);
    lemma_discard_advances_turn(s2, e3.event_type->Discard_0, e3, r3, s3);
    lemma_discard_advances_turn(s3, e4.event_type->Discard_0, e4, r4, s4);
    assert(s3@.player_count == 4 && s3@.turn_holder == 3);
    assert(((3 as nat) + 1) % (4 as nat) == 0) by (nonlinear_arith);
}

/// An accepted draw hands out a card whose colour is one of the four and whose
/// number lies in `1..=9`.
pub proof fn lemma_draw_output_domain(
    pre: UnoGameState,
    e: UnoEvent,
    r: Result<Option<UnoOutput>, UnoError>,
    post: UnoGameState,
)
    requires
        next_outcome(pre, e, r, post),
        e.event_type == UnoEventType::Draw,
        r is Ok,
    ensures
        r matches Ok(Some(UnoOutput::Card(c))) && 1 <= c.number <= 9 && (c.card_type
            == CardType::Red || c.card_type == CardType::Blue || c.card_type == CardType::Green
            || c.card_type == CardType::Yellow),
{
}

/// An event from anyone but the turn holder is rejected with
/// `IncorrectPlayer`, whatever its kind and the phase, and changes nothing.
pub proof fn lemma_wrong_player_rejected(
    pre: UnoGameState,
    e: UnoEvent,
    r: Result<Option<UnoOutput>, UnoError>,
    post: UnoGameState,
)
    requires
        next_outcome(pre, e, r, post),
        e.id != pre@.turn_holder,
    ensures
        r == Err::<Option<UnoOutput>, UnoError>(UnoError::IncorrectPlayer),
        post == pre,
{
}

/// The phase gates the event kinds: a draw while a discard is awaited, or a
/// discard while a draw is awaited, is rejected with `UnexpectedEvent` and
/// changes nothing.
pub proof fn lemma_phase_gating(
    pre: UnoGameState,
    e: UnoEvent,
    r: Result<Option<UnoOutput>, UnoError>,
    post: UnoGameState,
)
    requires
        next_outcome(pre, e, r, post),
        e.id == pre@.turn_holder,
        (pre@.phase == UnoStateType::WaitingForDiscard && e.event_type == UnoEventType::Draw) || (
        pre@.phase == UnoStateType::WaitingForDraw && e.event_type is Discard),
    ensures
        r == Err::<Option<UnoOutput>, UnoError>(UnoError::UnexpectedEvent),
        post == pre,
{
}

} // verus!
