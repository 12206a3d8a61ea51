use rand::seq::SliceRandom;
use vstd::prelude::*;

verus! {

pub enum Arcana {
    TheWorld,
    Judgement,
    TheSun,
    TheMoon,
    TheStar,
    TheTower,
    TheDevil,
    Temperance,
    Death,
    TheHangedMan,
    Justice,
    TheWheelOfFortune,
    TheHermit,
    Strength,
    TheChariot,
    TheLovers,
    TheHierophant,
    TheEmperor,
    TheHighPriestess,
    TheMagician,
    TheFool,
}

pub enum TarotCard {
    MajorArcana(Arcana),
    Wands(i16),
    Cups(i16),
    Swords(i16),
    Rentacles(i16),
}

impl TarotCard {
    /// The card's display name. No name has been assigned to any card of the
    /// four suits yet, so each of them answers with the empty string; the
    /// major arcana have no answer at all and are excluded.
    pub fn get_name(&self) -> (name: &str)
        requires
            !(self is MajorArcana),
        ensures
            name@ == Seq::<char>::empty(),
    {
        proof {
            reveal_strlit("");
        }
        assert(""@ =~= Seq::<char>::empty());
        ""
    }

    /// The card's meaning. Nothing is attached to any card yet.
    pub fn get_meaning(&self) {
    }
}

pub enum DeckType {
    Major,
    FullSet,
}

pub struct TarotDeck {
    cards: Vec<TarotCard>,
}

impl View for TarotDeck {
    type V = Seq<TarotCard>;

    closed spec fn view(&self) -> Seq<TarotCard> {
        self.cards@
    }
}

/// `rand::seq::SliceRandom::shuffle` on the cards, with the thread-local
/// generator. The shuffle only swaps elements of the slice, so the cards
/// after the call are the cards before it, in some order.
#[verifier::external_body]
fn shuffle_cards(cards: &mut Vec<TarotCard>)
    ensures
        final(cards)@.to_multiset() == old(cards)@.to_multiset(),
{
    cards.shuffle(&mut rand::thread_rng());
}

impl TarotDeck {
    /// A freshly shuffled deck. Neither kind of deck has been given its
    /// cards yet, so every new deck is empty.
    pub fn new(deck_type: DeckType) -> (deck: TarotDeck)
        ensures
            deck@ == Seq::<TarotCard>::empty(),
    {
        let mut cards: Vec<TarotCard> = Vec::new();
        match deck_type {
            DeckType::Major => {},
            DeckType::FullSet => {},
        }
        shuffle_cards(&mut cards);
        proof {
            cards@.to_multiset_ensures();
            Seq::<TarotCard>::empty().to_multiset_ensures();
            assert(cards@.len() == 0);
            assert(cards@ =~= Seq::<TarotCard>::empty());
        }
        TarotDeck { cards }
    }

    /// How many cards the deck holds.
    pub fn len(&self) -> (n: usize)
        ensures
            n == self@.len(),
    {
        self.cards.len()
    }
}

} // verus!
