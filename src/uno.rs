//! A simplified Uno turn cycle: the player whose turn it is either discards a
//! card matching the top card, or declares that they have none and then draws.
use vstd::prelude::*;

use crate::engine::State;
use crate::random::random_in;

verus! {

/// The colour of a card.
#[derive(Debug, Clone, Copy, PartialEq, Eq, Structural)]
pub enum CardType {
    Red,
    Blue,
    Green,
    Yellow,
}

/// A card: a colour and a number, which lies in `1..=9` for cards of the deck.
#[derive(Debug, Clone, Copy, PartialEq, Eq, Structural)]
pub struct UnoCard {
    pub card_type: CardType,
    pub number: usize,
}

/// The colour that a uniform pick in `1..=4` stands for.
pub open spec fn color_of_pick(pick: u64) -> CardType {
    if pick == 1 {
        CardType::Red
    } else if pick == 2 {
        CardType::Green
    } else if pick == 3 {
        CardType::Yellow
    } else {
        CardType::Blue
    }
}

impl UnoCard {
    /// Whether this card is one of the deck: its number lies in `1..=9`.
    pub open spec fn in_domain(self) -> bool {
        1 <= self.number <= 9
    }

    /// Whether this card may be discarded on `top`: same colour or same number.
    pub open spec fn playable_on(self, top: UnoCard) -> bool {
        self.card_type == top.card_type || self.number == top.number
    }

    pub fn new(card_type: CardType, number: usize) -> (c: UnoCard)
        ensures
            c == (UnoCard { card_type, number }),
    {
        UnoCard { card_type, number }
    }

    /// The card given by a colour pick in `1..=4` and a number.
    pub fn from_picks(color_pick: u64, number: usize) -> (c: UnoCard)
        requires
            1 <= color_pick <= 4,
        ensures
            c == (UnoCard { card_type: color_of_pick(color_pick), number }),
    {
        let card_type = if color_pick == 1 {
            CardType::Red
        } else if color_pick == 2 {
            CardType::Green
        } else if color_pick == 3 {
            CardType::Yellow
        } else {
            CardType::Blue
        };
        UnoCard { card_type, number }
    }
}

/// What a player asks for.
#[derive(Debug, Clone, Copy, PartialEq, Eq, Structural)]
pub enum UnoEventType {
    /// Put the given card on top of the pile.
    Discard(UnoCard),
    /// Declare that no card in hand can be played, and prepare to draw.
    NoCard,
    /// Draw a card.
    Draw,
}

/// An event: who sent it and what they ask for.
#[derive(Debug, Clone, Copy, PartialEq, Eq, Structural)]
pub struct UnoEvent {
    pub id: usize,
    pub event_type: UnoEventType,
}

impl UnoEvent {
    pub fn new(id: usize, event_type: UnoEventType) -> (e: UnoEvent)
        ensures
            e == (UnoEvent { id, event_type }),
    {
        UnoEvent { id, event_type }
    }
}

/// Why an event was rejected.
#[derive(Debug, Clone, Copy, PartialEq, Eq, Structural)]
pub enum UnoError {
    /// The discarded card matches the top card neither in colour nor in number.
    IncorrectCard,
    /// The event was not sent by the player whose turn it is.
    IncorrectPlayer,
    /// The event is of a kind that the current phase does not accept.
    UnexpectedEvent,
}

/// The phase of the current turn.
#[derive(Debug, Clone, Copy, PartialEq, Eq, Structural)]
pub enum UnoStateType {
    WaitingForDiscard,
    WaitingForDraw,
}

/// The output of an accepted event.
#[derive(Debug, Clone, Copy, PartialEq, Eq, Structural)]
pub enum UnoOutput {
    /// The card drawn by a `Draw` event.
    Card(UnoCard),
}

/// The abstract value of a game state.
pub ghost struct GameView {
    pub player_count: nat,
    pub top_card: UnoCard,
    pub phase: UnoStateType,
    pub turn_holder: nat,
}

impl GameView {
    /// There is at least one player, and the turn holder is one of them.
    pub open spec fn wf(self) -> bool {
        self.player_count > 0 && self.turn_holder < self.player_count
    }
}

/// The verdict on event `e` in state `s`: the sender is checked first, then
/// the pair of phase and event kind.
pub open spec fn verdict(s: GameView, e: UnoEvent) -> Result<(), UnoError> {
    if e.id != s.turn_holder {
        Err(UnoError::IncorrectPlayer)
    } else {
        match (s.phase, e.event_type) {
            (UnoStateType::WaitingForDiscard, UnoEventType::Discard(c)) => {
                if c.playable_on(s.top_card) {
                    Ok(())
                } else {
                    Err(UnoError::IncorrectCard)
                }
            },
            (UnoStateType::WaitingForDiscard, UnoEventType::NoCard) => Ok(()),
            (UnoStateType::WaitingForDraw, UnoEventType::Draw) => Ok(()),
            _ => Err(UnoError::UnexpectedEvent),
        }
    }
}

/// The state that an accepted event `e` leads to from `s`.
pub open spec fn step(s: GameView, e: UnoEvent) -> GameView {
    match (s.phase, e.event_type) {
        (UnoStateType::WaitingForDiscard, UnoEventType::Discard(c)) => GameView {
            top_card: c,
            turn_holder: ((s.turn_holder + 1) % s.player_count) as nat,
            ..s
        },
        (UnoStateType::WaitingForDiscard, UnoEventType::NoCard) => GameView {
            phase: UnoStateType::WaitingForDraw,
            ..s
        },
        (UnoStateType::WaitingForDraw, UnoEventType::Draw) => GameView {
            phase: UnoStateType::WaitingForDiscard,
            ..s
        },
        _ => s,
    }
}

/// Whether `e` is a draw made in the drawing phase of `s`.
pub open spec fn is_draw(s: GameView, e: UnoEvent) -> bool {
    s.phase == UnoStateType::WaitingForDraw && e.event_type == UnoEventType::Draw
}

/// The outputs that an accepted event `e` may give in `s`: a card of the deck
/// for a draw, nothing otherwise.
pub open spec fn output_ok(s: GameView, e: UnoEvent, out: Option<UnoOutput>) -> bool {
    if is_draw(s, e) {
        out matches Some(UnoOutput::Card(c)) && c.in_domain()
    } else {
        out is None
    }
}

/// The state of one game. Only `next` and the methods built on it change it.
#[derive(Debug)]
pub struct UnoGameState {
    players_num: usize,
    top_card: UnoCard,
    state_type: UnoStateType,
    expected_player_turn: usize,
}

impl View for UnoGameState {
    type V = GameView;

    closed spec fn view(&self) -> GameView {
        GameView {
            player_count: self.players_num as nat,
            top_card: self.top_card,
            phase: self.state_type,
            turn_holder: self.expected_player_turn as nat,
        }
    }
}

impl UnoGameState {
    #[verifier::type_invariant]
    closed spec fn inv(self) -> bool {
        self@.wf()
    }
}

impl State for UnoGameState {
    type Input = UnoEvent;
    type Output = UnoOutput;
    type Error = UnoError;

    open spec fn validation(&self, input: &UnoEvent) -> Result<(), UnoError> {
        verdict(self@, *input)
    }

    open spec fn output_allowed(&self, input: &UnoEvent, out: Option<UnoOutput>) -> bool {
        output_ok(self@, *input, out)
    }

    open spec fn stepped_to(&self, input: &UnoEvent, post: Self) -> bool {
        post@ == step(self@, *input)
    }

    fn validate(&self, t: &UnoEvent) -> (r: Result<(), UnoError>) {
        if self.expected_player_turn != t.id {
            return Err(UnoError::IncorrectPlayer);
        }
        match (self.state_type, t.event_type) {
            (UnoStateType::WaitingForDiscard, UnoEventType::Discard(c)) => {
                if self.top_card.card_type == c.card_type || self.top_card.number == c.number {
                    Ok(())
                } else {
                    Err(UnoError::IncorrectCard)
                }
            },
            (UnoStateType::WaitingForDiscard, UnoEventType::NoCard) => Ok(()),
            (UnoStateType::WaitingForDraw, UnoEventType::Draw) => Ok(()),
            _ => Err(UnoError::UnexpectedEvent),
        }
    }

    fn compute(&self, t: &UnoEvent) -> (r: Option<UnoOutput>) {
        match (self.state_type, t.event_type) {
            (UnoStateType::WaitingForDraw, UnoEventType::Draw) => {
                let color_pick = random_in(1, 4);
                let number = random_in(1, 9);
                Some(UnoOutput::Card(UnoCard::from_picks(color_pick, number as usize)))
            },
            _ => None,
        }
    }

    fn transition(&mut self, input: &UnoEvent) {
        proof {
            use_type_invariant(&*self);
        }
        match (self.state_type, input.event_type) {
            (UnoStateType::WaitingForDiscard, UnoEventType::Discard(c)) => {
                *self = UnoGameState {
                    players_num: self.players_num,
                    top_card: c,
                    state_type: self.state_type,
                    expected_player_turn: (self.expected_player_turn + 1) % self.players_num,
                };
            },
            (UnoStateType::WaitingForDiscard, UnoEventType::NoCard) => {
                *self = UnoGameState {
                    players_num: self.players_num,
                    top_card: self.top_card,
                    state_type: UnoStateType::WaitingForDraw,
                    expected_player_turn: self.expected_player_turn,
                };
            },
            (UnoStateType::WaitingForDraw, UnoEventType::Draw) => {
                *self = UnoGameState {
                    players_num: self.players_num,
                    top_card: self.top_card,
                    state_type: UnoStateType::WaitingForDiscard,
                    expected_player_turn: self.expected_player_turn,
                };
            },
            _ => {},
        }
    }
}

/// What one call of `next` with event `e` on state `pre` may give, as result
/// `r` and state `post`: the error and no change at all when `e` is rejected;
/// otherwise an allowed output and the state that `e` leads to.
pub open spec fn next_outcome(
    pre: UnoGameState,
    e: UnoEvent,
    r: Result<Option<UnoOutput>, UnoError>,
    post: UnoGameState,
) -> bool {
    match verdict(pre@, e) {
        Err(err) => r == Err::<Option<UnoOutput>, UnoError>(err) && post == pre,
        Ok(_) => r matches Ok(out) && output_ok(pre@, e, out) && post@ == step(pre@, e),
    }
}

/// The number of players of a game made by `UnoGameState::new`.
pub const DEFAULT_PLAYERS: usize = 4;

impl UnoGameState {
    /// A game of four players, waiting for player 0 to discard on a blue 5.
    pub fn new() -> (s: UnoGameState)
        ensures
            s@ == (GameView {
                player_count: 4,
                top_card: UnoCard { card_type: CardType::Blue, number: 5 },
                phase: UnoStateType::WaitingForDiscard,
                turn_holder: 0,
            }),
    {
        UnoGameState::with_config(DEFAULT_PLAYERS, UnoCard { card_type: CardType::Blue, number: 5 })
    }

    /// A game of `player_count` players, waiting for player 0 to discard on
    /// `top_card`.
    pub fn with_config(player_count: usize, top_card: UnoCard) -> (s: UnoGameState)
        requires
            player_count > 0,
        ensures
            s@ == (GameView {
                player_count: player_count as nat,
                top_card,
                phase: UnoStateType::WaitingForDiscard,
                turn_holder: 0,
            }),
    {
        UnoGameState {
            players_num: player_count,
            top_card,
            state_type: UnoStateType::WaitingForDiscard,
            expected_player_turn: 0,
        }
    }

    /// Player `id` draws a card.
    pub fn draw(&mut self, id: u32) -> (r: Result<Option<UnoOutput>, UnoError>)
        ensures
            next_outcome(
                *old(self),
                UnoEvent { id: id as usize, event_type: UnoEventType::Draw },
                r,
                *final(self),
            ),
    {
        self.next(&UnoEvent { id: id as usize, event_type: UnoEventType::Draw })
    }

    /// Player `id` declares that they have no card to play.
    pub fn no_card(&mut self, id: u32) -> (r: Result<Option<UnoOutput>, UnoError>)
        ensures
            next_outcome(
                *old(self),
                UnoEvent { id: id as usize, event_type: UnoEventType::NoCard },
                r,
                *final(self),
            ),
    {
        self.next(&UnoEvent { id: id as usize, event_type: UnoEventType::NoCard })
    }

    /// Player `id` discards the card of colour `color` and number `num`.
    pub fn discard(&mut self, id: u32, color: CardType, num: u32) -> (r: Result<
        Option<UnoOutput>,
        UnoError,
    >)
        ensures
            next_outcome(
                *old(self),
                UnoEvent {
                    id: id as usize,
                    event_type: UnoEventType::Discard(UnoCard { card_type: color, number: num as usize }),
                },
                r,
                *final(self),
            ),
    {
        self.next(
            &UnoEvent {
                id: id as usize,
                event_type: UnoEventType::Discard(UnoCard { card_type: color, number: num as usize }),
            },
        )
    }

    pub fn player_count(&self) -> (r: usize)
        ensures
            r == self@.player_count,
            r > 0,
    {
        proof {
            use_type_invariant(self);
        }
        self.players_num
    }

    /// The player whose turn it is.
    pub fn turn_holder(&self) -> (r: usize)
        ensures
            r == self@.turn_holder,
            r < self@.player_count,
    {
        proof {
            use_type_invariant(self);
        }
        self.expected_player_turn
    }

    pub fn top_card(&self) -> (r: UnoCard)
        ensures
            r == self@.top_card,
    {
        self.top_card
    }

    pub fn phase(&self) -> (r: UnoStateType)
        ensures
            r == self@.phase,
    {
        self.state_type
    }
}

} // verus!
