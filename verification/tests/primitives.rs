use oak_primitives::cards::{all_cards, Card, Rank, Suit};
use oak_primitives::seats::{HandIdentifier, PlayerName};

#[test]
fn next_cycles_through_all_four_seats() {
    for s in HandIdentifier::all() {
        assert_eq!(s.next().next().next().next(), s);
        assert_ne!(s.next(), s);
        assert_ne!(s.next().next(), s);
    }
    assert_eq!(HandIdentifier::North.next(), HandIdentifier::East);
    assert_eq!(HandIdentifier::East.next(), HandIdentifier::South);
    assert_eq!(HandIdentifier::South.next(), HandIdentifier::West);
    assert_eq!(HandIdentifier::West.next(), HandIdentifier::North);
}

#[test]
fn partner_is_an_involution_with_no_fixed_point() {
    for s in HandIdentifier::all() {
        assert_eq!(s.partner().partner(), s);
        assert_ne!(s.partner(), s);
    }
    assert_eq!(HandIdentifier::North.partner(), HandIdentifier::South);
    assert_eq!(HandIdentifier::East.partner(), HandIdentifier::West);
    assert_eq!(HandIdentifier::South.partner(), HandIdentifier::North);
    assert_eq!(HandIdentifier::West.partner(), HandIdentifier::East);
}

#[test]
fn partners_belong_to_the_same_player() {
    for s in HandIdentifier::all() {
        assert_eq!(s.player_name(), s.partner().player_name());
    }
}

#[test]
fn seats_split_between_the_two_players() {
    assert_eq!(HandIdentifier::North.player_name(), PlayerName::User);
    assert_eq!(HandIdentifier::South.player_name(), PlayerName::User);
    assert_eq!(HandIdentifier::East.player_name(), PlayerName::Opponent);
    assert_eq!(HandIdentifier::West.player_name(), PlayerName::Opponent);
    let users: Vec<HandIdentifier> = HandIdentifier::all()
        .into_iter()
        .filter(|s| s.player_name() == PlayerName::User)
        .collect();
    assert_eq!(users, vec![HandIdentifier::North, HandIdentifier::South]);
    let opponents: Vec<HandIdentifier> = HandIdentifier::all()
        .into_iter()
        .filter(|s| s.player_name() == PlayerName::Opponent)
        .collect();
    assert_eq!(opponents, vec![HandIdentifier::East, HandIdentifier::West]);
}

#[test]
fn primary_hands_are_south_and_west() {
    assert_eq!(PlayerName::User.primary_hand(), HandIdentifier::South);
    assert_eq!(PlayerName::Opponent.primary_hand(), HandIdentifier::West);
}

#[test]
fn lower_suit_sorts_before_higher_suit_whatever_the_ranks() {
    let suits = Suit::all();
    let ranks = Rank::all();
    for i in 0..suits.len() {
        for j in (i + 1)..suits.len() {
            for &r1 in &ranks {
                for &r2 in &ranks {
                    assert!(Card::new(suits[i], r1) < Card::new(suits[j], r2));
                }
            }
        }
    }
    assert!(Card::new(Suit::Clubs, Rank::Ace) < Card::new(Suit::Diamonds, Rank::Two));
}

#[test]
fn within_one_suit_cards_follow_rank_order_aces_high() {
    let ranks = Rank::all();
    for s in Suit::all() {
        for i in 0..ranks.len() {
            for j in (i + 1)..ranks.len() {
                assert!(Card::new(s, ranks[i]) < Card::new(s, ranks[j]));
            }
        }
    }
    assert!(Card::new(Suit::Spades, Rank::Ace) > Card::new(Suit::Spades, Rank::King));
}

#[test]
fn sorting_cards_is_stable_across_orderings() {
    let deck = all_cards();
    let mut shuffled: Vec<Card> = deck.iter().rev().cloned().collect();
    shuffled.sort();
    assert_eq!(shuffled, deck);
}

#[test]
fn deck_has_52_distinct_cards() {
    let deck = all_cards();
    assert_eq!(deck.len(), 52);
    for i in 0..deck.len() {
        for j in (i + 1)..deck.len() {
            assert_ne!(deck[i], deck[j]);
        }
    }
    for s in Suit::all() {
        for r in Rank::all() {
            assert!(deck.contains(&Card::new(s, r)));
        }
    }
}

#[test]
fn suits_render_as_their_glyphs() {
    assert_eq!(Suit::Clubs.to_text(), "♣");
    assert_eq!(Suit::Diamonds.to_text(), "♦");
    assert_eq!(Suit::Hearts.to_text(), "♥");
    assert_eq!(Suit::Spades.to_text(), "♠");
}

#[test]
fn ranks_render_as_digits_or_letters() {
    assert_eq!(Rank::Two.to_text(), "2");
    assert_eq!(Rank::Nine.to_text(), "9");
    assert_eq!(Rank::Ten.to_text(), "10");
    assert_eq!(Rank::Jack.to_text(), "J");
    assert_eq!(Rank::Queen.to_text(), "Q");
    assert_eq!(Rank::King.to_text(), "K");
    assert_eq!(Rank::Ace.to_text(), "A");
}

#[test]
fn cards_render_as_rank_then_suit() {
    assert_eq!(Card::new(Suit::Spades, Rank::Ace).to_text(), "A♠");
    assert_eq!(Card::new(Suit::Clubs, Rank::Ten).to_text(), "10♣");
    assert_eq!(Card::new(Suit::Hearts, Rank::Queen).to_text(), "Q♥");
    assert_eq!(Card::new(Suit::Diamonds, Rank::Two).to_text(), "2♦");
}

#[test]
fn iteration_orders_are_the_declaration_orders() {
    assert_eq!(
        Suit::all(),
        vec![Suit::Clubs, Suit::Diamonds, Suit::Hearts, Suit::Spades]
    );
    assert_eq!(
        Rank::all(),
        vec![
            Rank::Two,
            Rank::Three,
            Rank::Four,
            Rank::Five,
            Rank::Six,
            Rank::Seven,
            Rank::Eight,
            Rank::Nine,
            Rank::Ten,
            Rank::Jack,
            Rank::Queen,
            Rank::King,
            Rank::Ace,
        ]
    );
    assert_eq!(
        HandIdentifier::all(),
        vec![
            HandIdentifier::North,
            HandIdentifier::East,
            HandIdentifier::South,
            HandIdentifier::West,
        ]
    );
    assert_eq!(PlayerName::all(), vec![PlayerName::User, PlayerName::Opponent]);
}

#[test]
fn new_pairs_the_given_suit_and_rank() {
    let c = Card::new(Suit::Hearts, Rank::Jack);
    assert_eq!(c.suit, Suit::Hearts);
    assert_eq!(c.rank, Rank::Jack);
    assert_eq!(c, Card::new(Suit::Hearts, Rank::Jack));
    assert_ne!(c, Card::new(Suit::Hearts, Rank::Queen));
    assert_ne!(c, Card::new(Suit::Spades, Rank::Jack));
}

#[test]
fn positions_match_the_declared_orders() {
    assert_eq!(Suit::Clubs.position(), 0);
    assert_eq!(Suit::Spades.position(), 3);
    assert_eq!(Rank::Two.position(), 0);
    assert_eq!(Rank::Ace.position(), 12);
    assert_eq!(HandIdentifier::North.position(), 0);
    assert_eq!(HandIdentifier::West.position(), 3);
}

#[test]
fn deck_order_follows_the_card_order() {
    let deck = all_cards();
    for i in 0..deck.len() - 1 {
        assert!(deck[i] < deck[i + 1]);
    }
    assert_eq!(deck[0], Card::new(Suit::Clubs, Rank::Two));
    assert_eq!(deck[51], Card::new(Suit::Spades, Rank::Ace));
}
