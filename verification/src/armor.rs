//! Kinds of belt and of armoured deck, and the thicknesses of the deck.
//!
//! Coefficients are held as whole numbers of millionths.

use crate::text::str_eq;
use vstd::prelude::*;
use vstd::std_specs::convert::FromSpecImpl;
use vstd::string::*;

verus! {

/// Place of a belt of side armour. A belt keeps the kind that it was made
/// with.
#[derive(Clone, Copy, Debug, PartialEq, Eq, Structural)]
pub enum BeltType {
    Main,
    End,
    Upper,
    Bulge,
    Bulkhead,
}

/// Scheme of the armoured deck.
#[derive(Clone, Copy, Debug, PartialEq, Eq, Structural)]
pub enum DeckType {
    MultipleArmored,
    SingleArmored,
    MultipleProtected,
    SingleProtected,
    BoxOverMachinery,
    BoxOverMagazine,
    BoxOverBoth,
}

/// Armoured deck: its scheme and the thickness over each part of the deck.
#[derive(Clone, Copy, Debug, PartialEq, Eq, Structural)]
pub struct Deck {
    /// Scheme of the deck, which selects the rule for the weight of the main
    /// deck.
    pub kind: DeckType,
    /// Thickness over the forecastle.
    pub fc: u32,
    /// Thickness over the foredeck.
    pub fd: u32,
    /// Thickness over the afterdeck.
    pub ad: u32,
    /// Thickness over the quarterdeck.
    pub qd: u32,
}

impl BeltType {
    /// Whether the belt tapers into the unarmoured ends of the ship: the main
    /// and the upper belt do, the others end squarely.
    pub open spec fn tapers(self) -> bool {
        self is Main || self is Upper
    }

    /// Weight of the taper into the unarmoured ends that is added to the
    /// length of the belt, in millionths: one for a belt that tapers, else
    /// nothing.
    pub open spec fn spec_taper(self) -> u32 {
        match self {
            BeltType::Main => 1_000_000,
            BeltType::End => 0,
            BeltType::Upper => 1_000_000,
            BeltType::Bulge => 0,
            BeltType::Bulkhead => 0,
        }
    }

    /// Weight of the taper into the unarmoured ends that is added to the
    /// length of the belt, in millionths: one for a belt that tapers, else
    /// nothing.
    pub fn taper(&self) -> (r: u32)
        ensures
            r == self.spec_taper(),
    {
        match self {
            BeltType::Main => 1_000_000,
            BeltType::End => 0,
            BeltType::Upper => 1_000_000,
            BeltType::Bulge => 0,
            BeltType::Bulkhead => 0,
        }
    }
}

impl DeckType {
    /// The scheme that a code of a SpringSharp ship file selects; an unknown code
    /// selects the armoured deck over multiple decks.
    pub open spec fn of_code(code: Seq<char>) -> DeckType {
        if code == "1"@ {
            DeckType::SingleArmored
        } else if code == "2"@ {
            DeckType::MultipleProtected
        } else if code == "3"@ {
            DeckType::SingleProtected
        } else if code == "4"@ {
            DeckType::BoxOverMachinery
        } else if code == "5"@ {
            DeckType::BoxOverMagazine
        } else if code == "6"@ {
            DeckType::BoxOverBoth
        } else {
            DeckType::MultipleArmored
        }
    }

    /// Name of the scheme, as the report prints it.
    pub open spec fn name(self) -> Seq<char> {
        match self {
            DeckType::MultipleArmored => "Armoured deck - multiple decks"@,
            DeckType::SingleArmored => "Armoured deck - single deck"@,
            DeckType::MultipleProtected => "Protected deck - multiple decks"@,
            DeckType::SingleProtected => "Protected deck - singls deck"@,
            DeckType::BoxOverMachinery => "Box over machinery"@,
            DeckType::BoxOverMagazine => "Box over magazines"@,
            DeckType::BoxOverBoth => "Box over machiner & magazines"@,
        }
    }

    /// Name of the scheme, as the report prints it.
    pub fn to_string(&self) -> (s: String)
        ensures
            s@ == self.name(),
    {
        let s = match self {
            DeckType::MultipleArmored => "Armoured deck - multiple decks",
            DeckType::SingleArmored => "Armoured deck - single deck",
            DeckType::MultipleProtected => "Protected deck - multiple decks",
            DeckType::SingleProtected => "Protected deck - singls deck",
            DeckType::BoxOverMachinery => "Box over machinery",
            DeckType::BoxOverMagazine => "Box over magazines",
            DeckType::BoxOverBoth => "Box over machiner & magazines",
        };
        String::from_str(s)
    }

    /// Whether the scheme is a box over the vitals rather than a deck over the
    /// length of the ship.
    pub open spec fn spec_is_box(self) -> bool {
        self is BoxOverMachinery || self is BoxOverMagazine || self is BoxOverBoth
    }

    /// Whether the scheme is a box over the vitals, whose weight follows the
    /// weight of what it covers.
    pub fn is_box(&self) -> (r: bool)
        ensures
            r == self.spec_is_box(),
    {
        match self {
            DeckType::BoxOverMachinery | DeckType::BoxOverMagazine | DeckType::BoxOverBoth => true,
            _ => false,
        }
    }

    /// Whether the scheme covers the machinery with a box.
    pub fn covers_machinery(&self) -> (r: bool)
        ensures
            r == (self is BoxOverMachinery || self is BoxOverBoth),
            r ==> self.spec_is_box(),
    {
        match self {
            DeckType::BoxOverMachinery | DeckType::BoxOverBoth => true,
            _ => false,
        }
    }

    /// Whether the scheme covers the magazines with a box.
    pub fn covers_magazines(&self) -> (r: bool)
        ensures
            r == (self is BoxOverMagazine || self is BoxOverBoth),
            r ==> self.spec_is_box(),
    {
        match self {
            DeckType::BoxOverMagazine | DeckType::BoxOverBoth => true,
            _ => false,
        }
    }
}

impl Deck {
    /// A deck without armour, of the default scheme.
    pub fn new() -> (r: Deck)
        ensures
            r == (Deck { kind: DeckType::MultipleArmored, fc: 0, fd: 0, ad: 0, qd: 0 }),
    {
        Deck { kind: DeckType::MultipleArmored, fc: 0, fd: 0, ad: 0, qd: 0 }
    }
}

impl Default for Deck {
    fn default() -> (r: Deck)
        ensures
            r == (Deck { kind: DeckType::MultipleArmored, fc: 0, fd: 0, ad: 0, qd: 0 }),
    {
        Deck::new()
    }
}

impl Default for DeckType {
    fn default() -> (r: DeckType)
        ensures
            r == DeckType::MultipleArmored,
    {
        DeckType::MultipleArmored
    }
}

impl From<&str> for DeckType {
    fn from(index: &str) -> (r: DeckType) {
        if str_eq(index, "1") {
            DeckType::SingleArmored
        } else if str_eq(index, "2") {
            DeckType::MultipleProtected
        } else if str_eq(index, "3") {
            DeckType::SingleProtected
        } else if str_eq(index, "4") {
            DeckType::BoxOverMachinery
        } else if str_eq(index, "5") {
            DeckType::BoxOverMagazine
        } else if str_eq(index, "6") {
            DeckType::BoxOverBoth
        } else {
            DeckType::MultipleArmored
        }
    }
}

impl FromSpecImpl<&str> for DeckType {
    open spec fn obeys_from_spec() -> bool {
        true
    }

    open spec fn from_spec(index: &str) -> DeckType {
        DeckType::of_code(index@)
    }
}

impl From<String> for DeckType {
    fn from(index: String) -> (r: DeckType) {
        DeckType::from(index.as_str())
    }
}

impl FromSpecImpl<String> for DeckType {
    open spec fn obeys_from_spec() -> bool {
        true
    }

    open spec fn from_spec(index: String) -> DeckType {
        DeckType::of_code(index@)
    }
}

} // verus!
