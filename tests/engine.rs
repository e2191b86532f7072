use uno::card::{standard_card, standard_deck, Card, CardType, Color};
use uno::game::{ConfigError, Game};
use uno::moves::{Move, Variant};

fn card(value: u8, color: Color, variant: CardType) -> Card {
    Card { value, color, variant }
}

fn value(v: u8, color: Color) -> Card {
    card(v, color, CardType::Value)
}

fn total_cards(g: &Game) -> usize {
    g.deck.len() + g.field.len() + g.hands.iter().map(|h| h.len()).sum::<usize>()
}

fn game_with(hands: Vec<Vec<Card>>, field: Vec<Card>, deck: Vec<Card>, turn: usize) -> Game {
    let players = hands.len();
    Game {
        deck,
        field,
        hands,
        players,
        turn,
        direction: false,
        seed: 11,
        chainable: false,
        accum: 0,
    }
}

fn filler(n: usize) -> Vec<Card> {
    (0..n).map(|i| value((i % 10) as u8, Color::Yellow)).collect()
}

#[test]
fn standard_deck_composition() {
    let deck = standard_deck();
    assert_eq!(deck.len(), 108);
    let count = |t: CardType| deck.iter().filter(|c| c.variant == t).count();
    assert_eq!(count(CardType::Value), 76);
    assert_eq!(count(CardType::Reverse), 8);
    assert_eq!(count(CardType::Cancel), 8);
    assert_eq!(count(CardType::DrawTwo), 8);
    assert_eq!(count(CardType::DrawFour), 4);
    assert_eq!(count(CardType::Wild), 4);
    let zeros = deck.iter().filter(|c| c.variant == CardType::Value && c.value == 0).count();
    assert_eq!(zeros, 4);
    let red_sevens = deck.iter().filter(|c| **c == value(7, Color::Red)).count();
    assert_eq!(red_sevens, 2);
    assert!(deck.iter().all(|c| (c.color == Color::Wild)
        == (c.variant == CardType::Wild || c.variant == CardType::DrawFour)));
    assert_eq!(standard_card(0), value(1, Color::Red));
    assert_eq!(standard_card(107), card(0, Color::Wild, CardType::Wild));
}

#[test]
fn init_two_players_one_deck() {
    let g = Game::init(2, 1, 7, 0).unwrap();
    assert_eq!(g.deck.len(), 108 - 1 - 14);
    assert_eq!(g.deck.len(), 93);
    assert_eq!(g.field.len(), 1);
    assert_eq!(g.hands.len(), 2);
    assert!(g.hands.iter().all(|h| h.len() == 7));
    assert_eq!(g.players, 2);
    assert_eq!(g.turn, 0);
    assert!(!g.direction);
    assert!(!g.chainable);
    assert_eq!(g.accum, 0);
    assert_eq!(g.seed, 1);
    assert_eq!(total_cards(&g), 108);
}

#[test]
fn init_is_deterministic() {
    let a = Game::init(3, 2, 5, 42).unwrap();
    let b = Game::init(3, 2, 5, 42).unwrap();
    assert_eq!(a.deck, b.deck);
    assert_eq!(a.field, b.field);
    assert_eq!(a.hands, b.hands);
    assert_eq!(a.seed, b.seed);
}

#[test]
fn init_shuffles_by_seed() {
    let a = Game::init(2, 1, 7, 0).unwrap();
    let b = Game::init(2, 1, 7, 1).unwrap();
    assert_ne!(a.deck, b.deck);
    // Without a shuffle the deck would keep the construction order.
    assert_ne!(a.deck[..], standard_deck()[..93]);
    let mut all: Vec<Card> = a.deck.clone();
    all.extend(a.field.iter().copied());
    for h in a.hands.iter() {
        all.extend(h.iter().copied());
    }
    let mut sorted_a: Vec<String> = all.iter().map(|c| format!("{:?}", c)).collect();
    let mut sorted_std: Vec<String> = standard_deck().iter().map(|c| format!("{:?}", c)).collect();
    sorted_a.sort();
    sorted_std.sort();
    assert_eq!(sorted_a, sorted_std);
}

#[test]
fn deck_multiplier_doubles() {
    let g = Game::init(2, 2, 7, 3).unwrap();
    assert_eq!(g.deck.len() + 1 + 2 * 7, 216);
    let g = Game::init(3, 3, 5, 1).unwrap();
    assert_eq!(g.deck.len() + 1 + 3 * 5, 432);
    assert_eq!(total_cards(&g), 432);
    let g = Game::init(4, 4, 10, 9).unwrap();
    assert_eq!(total_cards(&g), 108 * 8);
}

#[test]
fn init_config_errors() {
    assert_eq!(Game::init(1, 1, 7, 0).err(), Some(ConfigError::TooFewPlayers));
    assert_eq!(Game::init(0, 1, 7, 0).err(), Some(ConfigError::TooFewPlayers));
    assert_eq!(Game::init(2, 0, 7, 0).err(), Some(ConfigError::NoDecks));
    assert_eq!(Game::init(2, 1, 54, 0).err(), Some(ConfigError::HandsExceedDeck));
    assert_eq!(Game::init(107, 1, 1, 0).err(), Some(ConfigError::HandsExceedDeck));
    let g = Game::init(2, 1, 53, 0).unwrap();
    assert_eq!(g.deck.len(), 1);
    assert_eq!(Game::init(2, 2, 108, 0).err(), Some(ConfigError::HandsExceedDeck));
    assert_eq!(Game::init(2, 2, 107, 0).unwrap().deck.len(), 1);
}

#[test]
fn draw_chain_scenario() {
    let g = game_with(
        vec![
            vec![card(0, Color::Red, CardType::DrawTwo), value(3, Color::Green)],
            vec![card(0, Color::Red, CardType::DrawTwo), value(8, Color::Blue)],
        ],
        vec![value(5, Color::Red)],
        filler(6),
        0,
    );
    assert!(!g.chainable);
    assert_eq!(g.accum, 0);
    let moves = g.generate();
    let m = *moves.iter().find(|m| m.variant == Variant::Draw2).unwrap();
    let g = g.simulate(&m);
    assert_eq!(g.accum, 2);
    assert!(g.chainable);
    assert_eq!(g.turn, 1);

    let moves = g.generate();
    assert!(moves.iter().all(|m| m.variant == Variant::Draw2));
    let g = g.simulate(&moves[0]);
    assert_eq!(g.accum, 4);
    assert!(g.chainable);
    assert_eq!(g.turn, 0);

    let moves = g.generate();
    assert_eq!(moves.len(), 1);
    assert_eq!(moves[0].variant, Variant::DrawDeck);
    let before = g.hands[0].len();
    let deck_before = g.deck.len();
    let g = g.simulate(&moves[0]);
    assert_eq!(g.hands[0].len(), before + 4);
    assert_eq!(g.deck.len(), deck_before - 4);
    assert_eq!(g.accum, 0);
    assert!(!g.chainable);
    assert_eq!(g.turn, 1);
}

#[test]
fn turn_wraps_around() {
    let hands = vec![vec![value(1, Color::Red)], vec![value(2, Color::Red)], vec![value(3, Color::Red), value(4, Color::Red)]];
    let g = game_with(hands, vec![value(9, Color::Red)], filler(5), 2);
    let m = Move { hand_idx: 0, player_idx: 2, variant: Variant::Play, as_color: Color::Red };
    assert_eq!(g.simulate(&m).turn, 0);
    let skip = Move { hand_idx: 0, player_idx: 2, variant: Variant::Skip, as_color: Color::Red };
    assert_eq!(g.simulate(&skip).turn, 1);
    let rev = Move { hand_idx: 0, player_idx: 2, variant: Variant::Reverse, as_color: Color::Red };
    let r = g.simulate(&rev);
    assert!(r.direction);
    assert_eq!(r.turn, 1);
    let r2 = r.simulate(&Move { hand_idx: 0, player_idx: 1, variant: Variant::Skip, as_color: Color::Red });
    assert_eq!(r2.turn, 2);
}

#[test]
fn played_card_takes_declared_colour() {
    let hands = vec![vec![card(0, Color::Wild, CardType::Wild), value(1, Color::Blue)], vec![value(2, Color::Red)]];
    let g = game_with(hands, vec![value(9, Color::Green)], filler(5), 0);
    let moves = g.generate();
    assert_eq!(moves.len(), 4);
    let yellow = moves[1];
    assert_eq!(yellow.as_color, Color::Yellow);
    let after = g.simulate(&yellow);
    assert_eq!(*after.field.last().unwrap(), card(0, Color::Yellow, CardType::Wild));
    assert_eq!(after.hands[0], vec![value(1, Color::Blue)]);
    assert_eq!(g.hands[0].len(), 2);
    assert_eq!(g.field.len(), 1);
    assert_eq!(total_cards(&after), total_cards(&g));
}

#[test]
fn reshuffle_keeps_top() {
    let field = vec![value(1, Color::Blue), value(2, Color::Blue), value(3, Color::Blue)];
    let hands = vec![vec![value(7, Color::Green)], vec![value(8, Color::Green)]];
    let g = game_with(hands, field, vec![value(4, Color::Red)], 0);
    let moves = g.generate();
    assert_eq!(moves, vec![Move { hand_idx: 0, player_idx: 0, variant: Variant::DrawDeck, as_color: Color::Wild }]);
    let after = g.simulate(&moves[0]);
    assert_eq!(after.field, vec![value(3, Color::Blue)]);
    assert_eq!(after.deck.len(), 2);
    assert!(after.deck.contains(&value(1, Color::Blue)));
    assert!(after.deck.contains(&value(2, Color::Blue)));
    assert_eq!(after.seed, 12);
    assert_eq!(after.hands[0], vec![value(7, Color::Green), value(4, Color::Red)]);
    assert_eq!(total_cards(&after), total_cards(&g));
}

#[test]
fn reshuffle_after_play() {
    let field = vec![value(1, Color::Blue), value(2, Color::Blue)];
    let hands = vec![vec![value(5, Color::Blue), value(6, Color::Red)], vec![value(8, Color::Green)]];
    let mut g = game_with(hands, field, vec![], 0);
    g.deck = vec![];
    let after = g.simulate(&Move { hand_idx: 0, player_idx: 0, variant: Variant::Play, as_color: Color::Blue });
    assert_eq!(after.field, vec![value(5, Color::Blue)]);
    assert_eq!(after.deck.len(), 2);
    assert_eq!(after.seed, 12);
}

#[test]
fn every_legal_move_applies() {
    let g = Game::init(4, 1, 7, 5).unwrap();
    let mut state = g;
    for _ in 0..200 {
        if state.hands.iter().any(|h| h.is_empty()) {
            break;
        }
        let moves = state.generate();
        assert!(!moves.is_empty());
        for m in moves.iter() {
            assert_eq!(m.player_idx, state.turn);
            let next = state.simulate(m);
            assert_eq!(total_cards(&next), 108);
            assert!(!next.field.is_empty());
            assert!(next.turn < next.players);
        }
        let pick = moves.len() / 2;
        state = state.simulate(&moves[pick]);
    }
}

#[test]
fn chain_restricts_moves() {
    let hands = vec![
        vec![
            value(4, Color::Red),
            card(0, Color::Red, CardType::Cancel),
            card(0, Color::Red, CardType::DrawTwo),
            card(0, Color::Wild, CardType::DrawFour),
            card(0, Color::Blue, CardType::DrawTwo),
        ],
        vec![value(1, Color::Red)],
    ];
    let mut g = game_with(hands, vec![card(0, Color::Red, CardType::DrawTwo)], filler(8), 0);
    g.chainable = true;
    g.accum = 2;
    let moves = g.generate();
    assert_eq!(moves, vec![Move { hand_idx: 2, player_idx: 0, variant: Variant::Draw2, as_color: Color::Red }]);

    let hands = vec![vec![value(4, Color::Red), card(0, Color::Red, CardType::Reverse)], vec![value(1, Color::Red)]];
    let mut g = game_with(hands, vec![card(0, Color::Red, CardType::DrawTwo)], filler(8), 0);
    g.chainable = true;
    g.accum = 2;
    let moves = g.generate();
    assert_eq!(moves, vec![Move { hand_idx: 0, player_idx: 0, variant: Variant::DrawDeck, as_color: Color::Wild }]);
    let after = g.simulate(&moves[0]);
    assert_eq!(after.hands[0].len(), 4);
}

#[test]
fn wild_cards_expand_to_four_colours() {
    let hands = vec![
        vec![card(0, Color::Wild, CardType::DrawFour), value(2, Color::Green), card(0, Color::Wild, CardType::Wild)],
        vec![value(1, Color::Red)],
    ];
    let g = game_with(hands, vec![value(9, Color::Blue)], filler(8), 0);
    let moves = g.generate();
    assert_eq!(moves.len(), 8);
    let colours = [Color::Red, Color::Yellow, Color::Blue, Color::Green];
    for (k, c) in colours.iter().enumerate() {
        assert_eq!(moves[k], Move { hand_idx: 0, player_idx: 0, variant: Variant::Draw4, as_color: *c });
        assert_eq!(moves[4 + k], Move { hand_idx: 2, player_idx: 0, variant: Variant::Play, as_color: *c });
    }
    assert!(moves.iter().all(|m| m.as_color != Color::Wild));
}

#[test]
fn empty_hand_has_no_moves() {
    let g = game_with(vec![vec![], vec![value(1, Color::Red)]], vec![value(9, Color::Blue)], filler(3), 0);
    assert!(g.generate().is_empty());
}

#[test]
fn playable_rules() {
    let top = value(5, Color::Red);
    let p = |c: Card| Game::playable(&top, &c, 3, 1, false);
    assert_eq!(p(value(7, Color::Red)), Some(Move { hand_idx: 3, player_idx: 1, variant: Variant::Play, as_color: Color::Red }));
    assert_eq!(p(value(5, Color::Green)), Some(Move { hand_idx: 3, player_idx: 1, variant: Variant::Play, as_color: Color::Green }));
    assert_eq!(p(value(6, Color::Green)), None);
    assert_eq!(p(card(0, Color::Red, CardType::Cancel)).map(|m| m.variant), Some(Variant::Skip));
    assert_eq!(p(card(0, Color::Red, CardType::Reverse)).map(|m| m.variant), Some(Variant::Reverse));
    assert_eq!(p(card(0, Color::Red, CardType::DrawTwo)).map(|m| m.variant), Some(Variant::Draw2));
    assert_eq!(p(card(0, Color::Blue, CardType::DrawTwo)), None);
    assert_eq!(p(card(0, Color::Wild, CardType::DrawFour)), Some(Move { hand_idx: 3, player_idx: 1, variant: Variant::Draw4, as_color: Color::Wild }));
    assert_eq!(p(card(0, Color::Wild, CardType::Wild)).map(|m| m.variant), Some(Variant::Play));
    // a zero on a skip card is no number match
    let skip_top = card(0, Color::Blue, CardType::Cancel);
    assert_eq!(Game::playable(&skip_top, &value(0, Color::Red), 0, 0, false), None);
    assert_eq!(Game::playable(&skip_top, &card(0, Color::Red, CardType::Cancel), 0, 0, false), None);
    // an open chain blocks other kinds
    let d2 = card(0, Color::Red, CardType::DrawTwo);
    assert_eq!(Game::playable(&d2, &value(3, Color::Red), 0, 0, true), None);
    assert_eq!(Game::playable(&d2, &card(0, Color::Wild, CardType::DrawFour), 0, 0, true), None);
    assert!(Game::playable(&d2, &value(3, Color::Red), 0, 0, false).is_some());
    let d4 = card(0, Color::Green, CardType::DrawFour);
    assert!(Game::playable(&d4, &card(0, Color::Wild, CardType::DrawFour), 0, 0, true).is_some());
}
