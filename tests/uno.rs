use uno_engine::engine::State;
use uno_engine::uno::{
    CardType, UnoCard, UnoError, UnoEvent, UnoEventType, UnoGameState, UnoOutput, UnoStateType,
};

fn card(card_type: CardType, number: usize) -> UnoCard {
    UnoCard::new(card_type, number)
}

fn snapshot(g: &UnoGameState) -> (usize, UnoCard, UnoStateType, usize) {
    (g.player_count(), g.top_card(), g.phase(), g.turn_holder())
}

fn assert_in_domain(out: Result<Option<UnoOutput>, UnoError>) {
    match out {
        Ok(Some(UnoOutput::Card(c))) => {
            assert!((1..=9).contains(&c.number));
            assert!(matches!(
                c.card_type,
                CardType::Red | CardType::Blue | CardType::Green | CardType::Yellow
            ));
        }
        other => panic!("expected a drawn card, got {:?}", other),
    }
}

#[test]
fn new_game_starting_state() {
    let g = UnoGameState::new();
    assert_eq!(snapshot(&g), (4, card(CardType::Blue, 5), UnoStateType::WaitingForDiscard, 0));
}

#[test]
fn with_config_starting_state() {
    let g = UnoGameState::with_config(2, card(CardType::Red, 4));
    assert_eq!(snapshot(&g), (2, card(CardType::Red, 4), UnoStateType::WaitingForDiscard, 0));
}

#[test]
fn discard_colour_match_succeeds() {
    let mut g = UnoGameState::new();
    assert_eq!(g.discard(0, CardType::Blue, 7), Ok(None));
    assert_eq!(snapshot(&g), (4, card(CardType::Blue, 7), UnoStateType::WaitingForDiscard, 1));
}

#[test]
fn discard_number_match_succeeds() {
    let mut g = UnoGameState::new();
    assert_eq!(g.discard(0, CardType::Green, 5), Ok(None));
    assert_eq!(snapshot(&g), (4, card(CardType::Green, 5), UnoStateType::WaitingForDiscard, 1));
}

#[test]
fn discard_without_match_is_incorrect_card() {
    let mut g = UnoGameState::new();
    let before = snapshot(&g);
    assert_eq!(g.discard(0, CardType::Green, 7), Err(UnoError::IncorrectCard));
    assert_eq!(snapshot(&g), before);
}

#[test]
fn no_card_moves_to_draw_phase() {
    let mut g = UnoGameState::new();
    assert_eq!(g.no_card(0), Ok(None));
    assert_eq!(snapshot(&g), (4, card(CardType::Blue, 5), UnoStateType::WaitingForDraw, 0));
}

#[test]
fn draw_gives_card_and_returns_to_discard_phase() {
    let mut g = UnoGameState::new();
    assert_eq!(g.no_card(0), Ok(None));
    let out = g.draw(0);
    assert_in_domain(out);
    assert_eq!(snapshot(&g), (4, card(CardType::Blue, 5), UnoStateType::WaitingForDiscard, 0));
}

#[test]
fn draws_always_in_domain_and_vary() {
    let mut g = UnoGameState::with_config(1, card(CardType::Yellow, 1));
    let mut numbers = Vec::new();
    let mut colours = Vec::new();
    for _ in 0..200 {
        assert_eq!(g.no_card(0), Ok(None));
        let out = g.draw(0);
        if let Ok(Some(UnoOutput::Card(c))) = out {
            if !numbers.contains(&c.number) {
                numbers.push(c.number);
            }
            if !colours.contains(&c.card_type) {
                colours.push(c.card_type);
            }
        }
        assert_in_domain(out);
    }
    assert!(numbers.len() > 1);
    assert!(colours.len() > 1);
}

#[test]
fn turn_rotation_wraps_after_four_discards() {
    let mut g = UnoGameState::new();
    let mut holders = Vec::new();
    for id in 0..4u32 {
        assert_eq!(g.discard(id, CardType::Blue, 3 + id), Ok(None));
        holders.push(g.turn_holder());
    }
    assert_eq!(holders, vec![1, 2, 3, 0]);
}

#[test]
fn wrong_player_rejected_in_every_phase() {
    let mut g = UnoGameState::new();
    assert_eq!(g.discard(0, CardType::Blue, 2), Ok(None));
    assert_eq!(g.turn_holder(), 1);
    let before = snapshot(&g);
    assert_eq!(g.discard(0, CardType::Blue, 2), Err(UnoError::IncorrectPlayer));
    assert_eq!(g.discard(0, CardType::Red, 9), Err(UnoError::IncorrectPlayer));
    assert_eq!(g.no_card(0), Err(UnoError::IncorrectPlayer));
    assert_eq!(g.draw(0), Err(UnoError::IncorrectPlayer));
    assert_eq!(snapshot(&g), before);
    assert_eq!(g.no_card(1), Ok(None));
    let before = snapshot(&g);
    assert_eq!(g.discard(0, CardType::Blue, 2), Err(UnoError::IncorrectPlayer));
    assert_eq!(g.no_card(0), Err(UnoError::IncorrectPlayer));
    assert_eq!(g.draw(0), Err(UnoError::IncorrectPlayer));
    assert_eq!(snapshot(&g), before);
}

#[test]
fn wrong_player_checked_before_card() {
    let mut g = UnoGameState::new();
    assert_eq!(g.discard(3, CardType::Green, 7), Err(UnoError::IncorrectPlayer));
}

#[test]
fn draw_while_awaiting_discard_is_unexpected() {
    let mut g = UnoGameState::new();
    let before = snapshot(&g);
    assert_eq!(g.draw(0), Err(UnoError::UnexpectedEvent));
    assert_eq!(snapshot(&g), before);
}

#[test]
fn discard_while_awaiting_draw_is_unexpected() {
    let mut g = UnoGameState::new();
    assert_eq!(g.no_card(0), Ok(None));
    let before = snapshot(&g);
    assert_eq!(g.discard(0, CardType::Blue, 5), Err(UnoError::UnexpectedEvent));
    assert_eq!(g.no_card(0), Err(UnoError::UnexpectedEvent));
    assert_eq!(snapshot(&g), before);
}

#[test]
fn rejection_is_idempotent() {
    let mut g = UnoGameState::new();
    let before = snapshot(&g);
    let first = g.discard(0, CardType::Red, 1);
    let mid = snapshot(&g);
    let second = g.discard(0, CardType::Red, 1);
    assert_eq!(first, Err(UnoError::IncorrectCard));
    assert_eq!(second, first);
    assert_eq!(mid, before);
    assert_eq!(snapshot(&g), before);
}

#[test]
fn next_through_the_protocol() {
    let mut g = UnoGameState::new();
    let e = UnoEvent::new(0, UnoEventType::Discard(card(CardType::Yellow, 5)));
    assert_eq!(g.validate(&e), Ok(()));
    assert_eq!(g.compute(&e), None);
    assert_eq!(g.next(&e), Ok(None));
    assert_eq!(snapshot(&g), (4, card(CardType::Yellow, 5), UnoStateType::WaitingForDiscard, 1));
    let bad = UnoEvent::new(1, UnoEventType::Draw);
    assert_eq!(g.validate(&bad), Err(UnoError::UnexpectedEvent));
    assert_eq!(g.next(&bad), Err(UnoError::UnexpectedEvent));
}

#[test]
fn demo_sequence() {
    let mut g = UnoGameState::with_config(4, card(CardType::Red, 4));
    assert_eq!(g.next(&UnoEvent::new(0, UnoEventType::Discard(card(CardType::Blue, 4)))), Ok(None));
    assert_eq!(g.next(&UnoEvent::new(1, UnoEventType::NoCard)), Ok(None));
    assert_eq!(g.next(&UnoEvent::new(1, UnoEventType::NoCard)), Err(UnoError::UnexpectedEvent));
    assert_in_domain(g.next(&UnoEvent::new(1, UnoEventType::Draw)));
    assert_eq!(g.next(&UnoEvent::new(3, UnoEventType::Draw)), Err(UnoError::IncorrectPlayer));
    assert_eq!(
        g.next(&UnoEvent::new(1, UnoEventType::Discard(card(CardType::Green, 5)))),
        Err(UnoError::IncorrectCard)
    );
    assert_eq!(snapshot(&g), (4, card(CardType::Blue, 4), UnoStateType::WaitingForDiscard, 1));
}

#[test]
fn single_player_keeps_turn() {
    let mut g = UnoGameState::with_config(1, card(CardType::Green, 2));
    assert_eq!(g.discard(0, CardType::Green, 8), Ok(None));
    assert_eq!(g.turn_holder(), 0);
}

#[test]
fn colour_picks_map_to_colours() {
    assert_eq!(UnoCard::from_picks(1, 3), card(CardType::Red, 3));
    assert_eq!(UnoCard::from_picks(2, 3), card(CardType::Green, 3));
    assert_eq!(UnoCard::from_picks(3, 9), card(CardType::Yellow, 9));
    assert_eq!(UnoCard::from_picks(4, 1), card(CardType::Blue, 1));
}
