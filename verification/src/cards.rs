//! Card identity: suits, ranks, and the 52 cards they combine into, with the
//! fixed total order (suit first, then rank, aces high) and the textual
//! rendering used by the game's display layer.

use vstd::prelude::*;

verus! {

/// One of the four traditional playing-card suits.
///
/// Suits are ordered `Clubs < Diamonds < Hearts < Spades`, the declaration
/// order.
#[derive(Clone, Copy, Debug, Hash, PartialEq, Eq, Structural, Ord)]
pub enum Suit {
    Clubs,
    Diamonds,
    Hearts,
    Spades,
}

/// Position of a suit in the fixed suit order: `Clubs` is 0, `Spades` is 3.
pub open spec fn suit_index(s: Suit) -> int {
    match s {
        Suit::Clubs => 0,
        Suit::Diamonds => 1,
        Suit::Hearts => 2,
        Suit::Spades => 3,
    }
}

/// The single-character glyph that renders a suit.
pub open spec fn suit_text(s: Suit) -> Seq<char> {
    match s {
        Suit::Clubs => seq!['♣'],
        Suit::Diamonds => seq!['♦'],
        Suit::Hearts => seq!['♥'],
        Suit::Spades => seq!['♠'],
    }
}

impl Suit {
    /// Position in the fixed suit order; comparisons go by this number.
    pub fn position(&self) -> (i: u8)
        ensures
            i as int == suit_index(*self),
    {
        match self {
            Suit::Clubs => 0,
            Suit::Diamonds => 1,
            Suit::Hearts => 2,
            Suit::Spades => 3,
        }
    }

    /// The suit's glyph as an owned string.
    pub fn to_text(&self) -> (s: String)
        ensures
            s@ == suit_text(*self),
    {
        let t: &str = match self {
            Suit::Clubs => "♣",
            Suit::Diamonds => "♦",
            Suit::Hearts => "♥",
            Suit::Spades => "♠",
        };
        proof {
            reveal_strlit("♣");
            reveal_strlit("♦");
            reveal_strlit("♥");
            reveal_strlit("♠");
            assert(t@ =~= suit_text(*self));
        }
        t.to_owned()
    }

    /// Every suit, in declaration order.
    pub fn all() -> (v: Vec<Suit>)
        ensures
            v@ == seq![Suit::Clubs, Suit::Diamonds, Suit::Hearts, Suit::Spades],
    {
        let mut v: Vec<Suit> = Vec::new();
        v.push(Suit::Clubs);
        v.push(Suit::Diamonds);
        v.push(Suit::Hearts);
        v.push(Suit::Spades);
        proof {
            assert(v@ =~= seq![Suit::Clubs, Suit::Diamonds, Suit::Hearts, Suit::Spades]);
        }
        v
    }
}

/// One of the thirteen playing-card ranks, with aces high.
///
/// Ranks are ordered in declaration order, so `Two` is the minimum and `Ace`
/// the maximum.
#[derive(Clone, Copy, Debug, Hash, PartialEq, Eq, Structural, Ord)]
pub enum Rank {
    Two,
    Three,
    Four,
    Five,
    Six,
    Seven,
    Eight,
    Nine,
    Ten,
    Jack,
    Queen,
    King,
    Ace,
}

/// Position of a rank in the fixed rank order: `Two` is 0, `Ace` is 12.
pub open spec fn rank_index(r: Rank) -> int {
    match r {
        Rank::Two => 0,
        Rank::Three => 1,
        Rank::Four => 2,
        Rank::Five => 3,
        Rank::Six => 4,
        Rank::Seven => 5,
        Rank::Eight => 6,
        Rank::Nine => 7,
        Rank::Ten => 8,
        Rank::Jack => 9,
        Rank::Queen => 10,
        Rank::King => 11,
        Rank::Ace => 12,
    }
}

/// The characters that render a rank: digits for the numeric ranks, a single
/// letter for the face ranks.
pub open spec fn rank_text(r: Rank) -> Seq<char> {
    match r {
        Rank::Two => seq!['2'],
        Rank::Three => seq!['3'],
        Rank::Four => seq!['4'],
        Rank::Five => seq!['5'],
        Rank::Six => seq!['6'],
        Rank::Seven => seq!['7'],
        Rank::Eight => seq!['8'],
        Rank::Nine => seq!['9'],
        Rank::Ten => seq!['1', '0'],
        Rank::Jack => seq!['J'],
        Rank::Queen => seq!['Q'],
        Rank::King => seq!['K'],
        Rank::Ace => seq!['A'],
    }
}

impl Rank {
    /// Position in the fixed rank order; comparisons go by this number.
    pub fn position(&self) -> (i: u8)
        ensures
            i as int == rank_index(*self),
    {
        match self {
            Rank::Two => 0,
            Rank::Three => 1,
            Rank::Four => 2,
            Rank::Five => 3,
            Rank::Six => 4,
            Rank::Seven => 5,
            Rank::Eight => 6,
            Rank::Nine => 7,
            Rank::Ten => 8,
            Rank::Jack => 9,
            Rank::Queen => 10,
            Rank::King => 11,
            Rank::Ace => 12,
        }
    }

    /// The rank's text as an owned string.
    pub fn to_text(&self) -> (s: String)
        ensures
            s@ == rank_text(*self),
    {
        let t: &str = match self {
            Rank::Two => "2",
            Rank::Three => "3",
            Rank::Four => "4",
            Rank::Five => "5",
            Rank::Six => "6",
            Rank::Seven => "7",
            Rank::Eight => "8",
            Rank::Nine => "9",
            Rank::Ten => "10",
            Rank::Jack => "J",
            Rank::Queen => "Q",
            Rank::King => "K",
            Rank::Ace => "A",
        };
        proof {
            reveal_strlit("2");
            reveal_strlit("3");
            reveal_strlit("4");
            reveal_strlit("5");
            reveal_strlit("6");
            reveal_strlit("7");
            reveal_strlit("8");
            reveal_strlit("9");
            reveal_strlit("10");
            reveal_strlit("J");
            reveal_strlit("Q");
            reveal_strlit("K");
            reveal_strlit("A");
            assert(t@ =~= rank_text(*self));
        }
        t.to_owned()
    }

    /// Every rank, in declaration order.
    pub fn all() -> (v: Vec<Rank>)
        ensures
            v@ == seq![
                Rank::Two,
                Rank::Three,
                Rank::Four,
                Rank::Five,
                Rank::Six,
                Rank::Seven,
                Rank::Eight,
                Rank::Nine,
                Rank::Ten,
                Rank::Jack,
                Rank::Queen,
                Rank::King,
                Rank::Ace,
            ],
    {
        let mut v: Vec<Rank> = Vec::new();
        v.push(Rank::Two);
        v.push(Rank::Three);
        v.push(Rank::Four);
        v.push(Rank::Five);
        v.push(Rank::Six);
        v.push(Rank::Seven);
        v.push(Rank::Eight);
        v.push(Rank::Nine);
        v.push(Rank::Ten);
        v.push(Rank::Jack);
        v.push(Rank::Queen);
        v.push(Rank::King);
        v.push(Rank::Ace);
        proof {
            assert(v@ =~= seq![
                Rank::Two,
                Rank::Three,
                Rank::Four,
                Rank::Five,
                Rank::Six,
                Rank::Seven,
                Rank::Eight,
                Rank::Nine,
                Rank::Ten,
                Rank::Jack,
                Rank::Queen,
                Rank::King,
                Rank::Ace,
            ]);
        }
        v
    }
}

impl PartialOrd for Rank {
    fn partial_cmp(&self, other: &Rank) -> Option<core::cmp::Ordering> {
        let a: u8 = self.position();
        let b: u8 = other.position();
        if a < b {
            Some(core::cmp::Ordering::Less)
        } else if b < a {
            Some(core::cmp::Ordering::Greater)
        } else {
            Some(core::cmp::Ordering::Equal)
        }
    }
}

impl vstd::std_specs::cmp::PartialOrdSpecImpl for Rank {
    open spec fn obeys_partial_cmp_spec() -> bool {
        true
    }

    open spec fn partial_cmp_spec(&self, other: &Rank) -> Option<core::cmp::Ordering> {
        Some(index_cmp(rank_index(*self), rank_index(*other)))
    }
}

/// Three-way comparison of two positions in a fixed order.
pub open spec fn index_cmp(a: int, b: int) -> core::cmp::Ordering {
    if a < b {
        core::cmp::Ordering::Less
    } else if b < a {
        core::cmp::Ordering::Greater
    } else {
        core::cmp::Ordering::Equal
    }
}

impl PartialOrd for Suit {
    fn partial_cmp(&self, other: &Suit) -> Option<core::cmp::Ordering> {
        let a: u8 = self.position();
        let b: u8 = other.position();
        if a < b {
            Some(core::cmp::Ordering::Less)
        } else if b < a {
            Some(core::cmp::Ordering::Greater)
        } else {
            Some(core::cmp::Ordering::Equal)
        }
    }
}

impl vstd::std_specs::cmp::PartialOrdSpecImpl for Suit {
    open spec fn obeys_partial_cmp_spec() -> bool {
        true
    }

    open spec fn partial_cmp_spec(&self, other: &Suit) -> Option<core::cmp::Ordering> {
        Some(index_cmp(suit_index(*self), suit_index(*other)))
    }
}

/// One of the 52 standard playing cards: a suit paired with a rank.
///
/// Cards are ordered by suit first and then by rank, and render as rank
/// followed by suit with no separator.
#[derive(Clone, Copy, Debug, Hash, PartialEq, Eq, Structural, Ord)]
pub struct Card {
    pub suit: Suit,
    pub rank: Rank,
}

/// Three-way comparison of two cards: by suit first, then by rank.
pub open spec fn card_cmp(a: Card, b: Card) -> core::cmp::Ordering {
    if a.suit == b.suit {
        index_cmp(rank_index(a.rank), rank_index(b.rank))
    } else {
        index_cmp(suit_index(a.suit), suit_index(b.suit))
    }
}

/// The characters that render a card: its rank's text followed by its suit's
/// glyph.
pub open spec fn card_text(c: Card) -> Seq<char> {
    rank_text(c.rank) + suit_text(c.suit)
}

impl Card {
    /// Pairs a suit and a rank. Total and pure: every combination is a valid
    /// card.
    pub fn new(suit: Suit, rank: Rank) -> (c: Card)
        ensures
            c == (Card { suit, rank }),
    {
        Card { suit, rank }
    }

    /// The card's text as an owned string: rank then suit.
    pub fn to_text(&self) -> (s: String)
        ensures
            s@ == card_text(*self),
    {
        let mut s: String = self.rank.to_text();
        let g: String = self.suit.to_text();
        s.append(g.as_str());
        s
    }
}

impl PartialOrd for Card {
    fn partial_cmp(&self, other: &Card) -> Option<core::cmp::Ordering> {
        let sa: u8 = self.suit.position();
        let sb: u8 = other.suit.position();
        if sa < sb {
            Some(core::cmp::Ordering::Less)
        } else if sb < sa {
            Some(core::cmp::Ordering::Greater)
        } else {
            let ra: u8 = self.rank.position();
            let rb: u8 = other.rank.position();
            if ra < rb {
                Some(core::cmp::Ordering::Less)
            } else if rb < ra {
                Some(core::cmp::Ordering::Greater)
            } else {
                Some(core::cmp::Ordering::Equal)
            }
        }
    }
}

impl vstd::std_specs::cmp::PartialOrdSpecImpl for Card {
    open spec fn obeys_partial_cmp_spec() -> bool {
        true
    }

    open spec fn partial_cmp_spec(&self, other: &Card) -> Option<core::cmp::Ordering> {
        Some(card_cmp(*self, *other))
    }
}

/// Any card of a lower suit precedes every card of a higher suit, whatever
/// the ranks; within one suit, cards follow rank order with `Ace` maximal.
pub proof fn lemma_card_order(a: Card, b: Card)
    ensures
        suit_index(a.suit) < suit_index(b.suit) ==> card_cmp(a, b) == core::cmp::Ordering::Less,
        a.suit == b.suit ==> (card_cmp(a, b) == core::cmp::Ordering::Less <==> rank_index(a.rank)
            < rank_index(b.rank)),
{
}

/// The card order is total and consistent with equality: a comparison always
/// answers, it answers `Equal` exactly on equal cards, and it is
/// antisymmetric.
pub proof fn lemma_card_order_total(a: Card, b: Card)
    ensures
        card_cmp(a, b) == core::cmp::Ordering::Equal <==> a == b,
        card_cmp(a, b) == core::cmp::Ordering::Less <==> card_cmp(b, a)
            == core::cmp::Ordering::Greater,
{
}

/// The card order is transitive.
pub proof fn lemma_card_order_transitive(a: Card, b: Card, c: Card)
    requires
        card_cmp(a, b) == core::cmp::Ordering::Less,
        card_cmp(b, c) == core::cmp::Ordering::Less,
    ensures
        card_cmp(a, c) == core::cmp::Ordering::Less,
{
}

/// The suit at position `i` of the fixed suit order.
pub open spec fn suit_at(i: int) -> Suit {
    if i == 0 {
        Suit::Clubs
    } else if i == 1 {
        Suit::Diamonds
    } else if i == 2 {
        Suit::Hearts
    } else {
        Suit::Spades
    }
}

/// The rank at position `i` of the fixed rank order.
pub open spec fn rank_at(i: int) -> Rank {
    if i == 0 {
        Rank::Two
    } else if i == 1 {
        Rank::Three
    } else if i == 2 {
        Rank::Four
    } else if i == 3 {
        Rank::Five
    } else if i == 4 {
        Rank::Six
    } else if i == 5 {
        Rank::Seven
    } else if i == 6 {
        Rank::Eight
    } else if i == 7 {
        Rank::Nine
    } else if i == 8 {
        Rank::Ten
    } else if i == 9 {
        Rank::Jack
    } else if i == 10 {
        Rank::Queen
    } else if i == 11 {
        Rank::King
    } else {
        Rank::Ace
    }
}

/// The card at position `i` when the deck is enumerated suit by suit in suit
/// order, and in rank order within each suit.
pub open spec fn card_at(i: int) -> Card {
    Card { suit: suit_at(i / 13), rank: rank_at(i % 13) }
}

/// All 52 cards, enumerated suit by suit in suit order and in rank order
/// within each suit: position `i` holds `card_at(i)`.
pub fn all_cards() -> (v: Vec<Card>)
    ensures
        v@.len() == 52,
        forall|i: int| 0 <= i < 52 ==> v@[i] == card_at(i),
{
    let suits: Vec<Suit> = Suit::all();
    let ranks: Vec<Rank> = Rank::all();
    let mut v: Vec<Card> = Vec::new();
    let mut si: usize = 0;
    while si < 4
        invariant
            suits@ == seq![Suit::Clubs, Suit::Diamonds, Suit::Hearts, Suit::Spades],
            ranks@ == seq![
                Rank::Two,
                Rank::Three,
                Rank::Four,
                Rank::Five,
                Rank::Six,
                Rank::Seven,
                Rank::Eight,
                Rank::Nine,
                Rank::Ten,
                Rank::Jack,
                Rank::Queen,
                Rank::King,
                Rank::Ace,
            ],
            si <= 4,
            v@.len() == si * 13,
            forall|k: int| 0 <= k < v@.len() ==> v@[k] == card_at(k),
        decreases 4 - si,
    {
        let mut ri: usize = 0;
        while ri < 13
            invariant
                suits@ == seq![Suit::Clubs, Suit::Diamonds, Suit::Hearts, Suit::Spades],
                ranks@ == seq![
                    Rank::Two,
                    Rank::Three,
                    Rank::Four,
                    Rank::Five,
                    Rank::Six,
                    Rank::Seven,
                    Rank::Eight,
                    Rank::Nine,
                    Rank::Ten,
                    Rank::Jack,
                    Rank::Queen,
                    Rank::King,
                    Rank::Ace,
                ],
                si < 4,
                ri <= 13,
                v@.len() == si * 13 + ri,
                forall|k: int| 0 <= k < v@.len() ==> v@[k] == card_at(k),
            decreases 13 - ri,
        {
            v.push(Card::new(suits[si], ranks[ri]));
            proof {
                let k = si * 13 + ri;
                vstd::arithmetic::div_mod::lemma_fundamental_div_mod_converse(
                    k as int,
                    13,
                    si as int,
                    ri as int,
                );
                assert(v@[k as int] == card_at(k as int));
            }
            ri += 1;
        }
        si += 1;
    }
    v
}

/// Distinct positions of the deck enumeration hold distinct cards: the 52
/// suit-and-rank combinations contain no duplicate.
pub proof fn lemma_deck_distinct(i: int, j: int)
    requires
        0 <= i < 52,
        0 <= j < 52,
        i != j,
    ensures
        card_at(i) != card_at(j),
{
    vstd::arithmetic::div_mod::lemma_fundamental_div_mod(i, 13);
    vstd::arithmetic::div_mod::lemma_fundamental_div_mod(j, 13);
    vstd::arithmetic::div_mod::lemma_mod_bound(i, 13);
    vstd::arithmetic::div_mod::lemma_mod_bound(j, 13);
}

/// Every card appears in the deck enumeration: the 52 positions cover all
/// suit-and-rank combinations.
pub proof fn lemma_deck_complete(c: Card)
    ensures
        exists|i: int| 0 <= i < 52 && card_at(i) == c,
{
    let i = suit_index(c.suit) * 13 + rank_index(c.rank);
    vstd::arithmetic::div_mod::lemma_fundamental_div_mod_converse(
        i,
        13,
        suit_index(c.suit),
        rank_index(c.rank),
    );
    assert(0 <= i < 52 && card_at(i) == c);
}

} // verus!
