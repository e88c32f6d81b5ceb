//! Table topology: the four seats with their turn rotation and fixed
//! partnerships, and the two players that the seats are divided between.

use vstd::prelude::*;
use crate::cards::index_cmp;

verus! {

/// One of the four hands at the table, named by compass seat.
///
/// Declaration order — `North`, `East`, `South`, `West` — is both the
/// iteration order and the turn-rotation order.
#[derive(Clone, Copy, Debug, Hash, PartialEq, Eq, Structural, Ord)]
pub enum HandIdentifier {
    /// Dummy partner of the human player.
    North,
    /// Dummy partner of the AI player.
    East,
    /// Always the human player in the round.
    South,
    /// Always the AI player in the round.
    West,
}

/// One of the two players competing in a round.
#[derive(Clone, Copy, Debug, Hash, PartialEq, Eq, Structural)]
pub enum PlayerName {
    User,
    Opponent,
}

/// Position of a seat in declaration order: `North` is 0, `West` is 3.
pub open spec fn seat_index(s: HandIdentifier) -> int {
    match s {
        HandIdentifier::North => 0,
        HandIdentifier::East => 1,
        HandIdentifier::South => 2,
        HandIdentifier::West => 3,
    }
}

/// The seat whose turn comes immediately after `s`.
pub open spec fn next_seat(s: HandIdentifier) -> HandIdentifier {
    match s {
        HandIdentifier::North => HandIdentifier::East,
        HandIdentifier::East => HandIdentifier::South,
        HandIdentifier::South => HandIdentifier::West,
        HandIdentifier::West => HandIdentifier::North,
    }
}

/// The fixed partner of seat `s`: North pairs with South, East with West.
pub open spec fn partner_seat(s: HandIdentifier) -> HandIdentifier {
    match s {
        HandIdentifier::North => HandIdentifier::South,
        HandIdentifier::East => HandIdentifier::West,
        HandIdentifier::South => HandIdentifier::North,
        HandIdentifier::West => HandIdentifier::East,
    }
}

/// The player who controls seat `s`.
pub open spec fn seat_player(s: HandIdentifier) -> PlayerName {
    match s {
        HandIdentifier::North | HandIdentifier::South => PlayerName::User,
        HandIdentifier::East | HandIdentifier::West => PlayerName::Opponent,
    }
}

/// The seat a player sees and controls at the start of a round.
pub open spec fn primary_seat(p: PlayerName) -> HandIdentifier {
    match p {
        PlayerName::User => HandIdentifier::South,
        PlayerName::Opponent => HandIdentifier::West,
    }
}

impl HandIdentifier {
    /// Position in declaration order; comparisons go by this number.
    pub fn position(&self) -> (i: u8)
        ensures
            i as int == seat_index(*self),
    {
        match self {
            HandIdentifier::North => 0,
            HandIdentifier::East => 1,
            HandIdentifier::South => 2,
            HandIdentifier::West => 3,
        }
    }

    /// Returns the next position in turn sequence after this one.
    pub fn next(&self) -> (r: HandIdentifier)
        ensures
            r == next_seat(*self),
    {
        match self {
            HandIdentifier::North => HandIdentifier::East,
            HandIdentifier::East => HandIdentifier::South,
            HandIdentifier::South => HandIdentifier::West,
            HandIdentifier::West => HandIdentifier::North,
        }
    }

    /// Returns the partner position of this position.
    pub fn partner(&self) -> (r: HandIdentifier)
        ensures
            r == partner_seat(*self),
    {
        match self {
            HandIdentifier::North => HandIdentifier::South,
            HandIdentifier::East => HandIdentifier::West,
            HandIdentifier::South => HandIdentifier::North,
            HandIdentifier::West => HandIdentifier::East,
        }
    }

    /// Returns the player who controls this seat.
    pub fn player_name(&self) -> (r: PlayerName)
        ensures
            r == seat_player(*self),
    {
        match self {
            HandIdentifier::South | HandIdentifier::North => PlayerName::User,
            HandIdentifier::East | HandIdentifier::West => PlayerName::Opponent,
        }
    }

    /// Every seat, in declaration order.
    pub fn all() -> (v: Vec<HandIdentifier>)
        ensures
            v@ == seq![
                HandIdentifier::North,
                HandIdentifier::East,
                HandIdentifier::South,
                HandIdentifier::West,
            ],
    {
        let mut v: Vec<HandIdentifier> = Vec::new();
        v.push(HandIdentifier::North);
        v.push(HandIdentifier::East);
        v.push(HandIdentifier::South);
        v.push(HandIdentifier::West);
        proof {
            assert(v@ =~= seq![
                HandIdentifier::North,
                HandIdentifier::East,
                HandIdentifier::South,
                HandIdentifier::West,
            ]);
        }
        v
    }
}

impl PartialOrd for HandIdentifier {
    fn partial_cmp(&self, other: &HandIdentifier) -> Option<core::cmp::Ordering> {
        let a: u8 = self.position();
        let b: u8 = other.position();
        if a < b {
            Some(core::cmp::Ordering::Less)
        } else if b < a {
            Some(core::cmp::Ordering::Greater)
        } else {
            Some(core::cmp::Ordering::Equal)
        }
    }
}

impl vstd::std_specs::cmp::PartialOrdSpecImpl for HandIdentifier {
    open spec fn obeys_partial_cmp_spec() -> bool {
        true
    }

    open spec fn partial_cmp_spec(&self, other: &HandIdentifier) -> Option<core::cmp::Ordering> {
        Some(index_cmp(seat_index(*self), seat_index(*other)))
    }
}

impl PlayerName {
    /// Returns the hand which this player can see at the beginning of the
    /// auction phase.
    ///
    /// Also the hand which gets the lead for the first trick of a round when
    /// this player is the declarer.
    pub fn primary_hand(&self) -> (r: HandIdentifier)
        ensures
            r == primary_seat(*self),
    {
        match self {
            PlayerName::User => HandIdentifier::South,
            PlayerName::Opponent => HandIdentifier::West,
        }
    }

    /// Every player, in declaration order.
    pub fn all() -> (v: Vec<PlayerName>)
        ensures
            v@ == seq![PlayerName::User, PlayerName::Opponent],
    {
        let mut v: Vec<PlayerName> = Vec::new();
        v.push(PlayerName::User);
        v.push(PlayerName::Opponent);
        proof {
            assert(v@ =~= seq![PlayerName::User, PlayerName::Opponent]);
        }
        v
    }
}

/// Turn rotation is a cyclic permutation of period exactly four: following
/// `next` four times returns to the starting seat, and neither one nor two
/// steps do.
pub proof fn lemma_next_cycle(s: HandIdentifier)
    ensures
        next_seat(next_seat(next_seat(next_seat(s)))) == s,
        next_seat(s) != s,
        next_seat(next_seat(s)) != s,
{
}

/// Partnership is an involution with no fixed point: a seat's partner's
/// partner is the seat itself, and no seat partners itself.
pub proof fn lemma_partner_involution(s: HandIdentifier)
    ensures
        partner_seat(partner_seat(s)) == s,
        partner_seat(s) != s,
{
}

/// Partners belong to the same player.
pub proof fn lemma_partner_same_player(s: HandIdentifier)
    ensures
        seat_player(partner_seat(s)) == seat_player(s),
{
}

/// The seats split between the players exactly as North/South to the user
/// and East/West to the opponent.
pub proof fn lemma_player_partition(s: HandIdentifier)
    ensures
        seat_player(s) == PlayerName::User <==> (s == HandIdentifier::North
            || s == HandIdentifier::South),
        seat_player(s) == PlayerName::Opponent <==> (s == HandIdentifier::East
            || s == HandIdentifier::West),
{
}

} // verus!
