//! Hull form: the kind of stern, the sheer of the deck, and the pairs of
//! quantities of which the designer enters one.
//!
//! Coefficients are held as whole numbers of millionths.

use crate::text::{join, joined, str_eq, texts};
use vstd::prelude::*;
use vstd::std_specs::convert::FromSpecImpl;
use vstd::string::*;

verus! {

/// Shape of the stern.
#[derive(Clone, Copy, Debug, PartialEq, Eq, Structural)]
pub enum SternType {
    TransomSm,
    TransomLg,
    Cruiser,
    Round,
}

/// How the height of the deck changes at a break between two sections,
/// going aft.
#[derive(Clone, Copy, Debug, PartialEq, Eq, Structural)]
pub enum Step {
    /// Both sections meet at the same height.
    Level,
    /// The forward section ends higher than the after section begins.
    Drop,
    /// The forward section ends lower than the after section begins.
    Rise,
    /// The heights cannot be compared.
    Unordered,
}

/// Two quantities that determine each other, of which at most one is stored:
/// the one that was set last. The other is then derived from it.
#[derive(Copy, Debug, PartialEq, Eq, Structural)]
pub enum Paired<T> {
    /// Nothing was set yet.
    Neither,
    /// The first quantity was set last.
    First(T),
    /// The second quantity was set last.
    Second(T),
}

impl SternType {
    /// The shape that a code of a SpringSharp ship file selects; an unknown code
    /// selects the cruiser stern.
    pub open spec fn of_code(code: Seq<char>) -> SternType {
        if code == "1"@ {
            SternType::TransomSm
        } else if code == "2"@ {
            SternType::TransomLg
        } else if code == "3"@ {
            SternType::Round
        } else {
            SternType::Cruiser
        }
    }

    /// Name of the shape with its article, as the report prints it.
    pub open spec fn name(self) -> Seq<char> {
        match self {
            SternType::TransomSm => "a small transom stern"@,
            SternType::TransomLg => "a large transom stern"@,
            SternType::Cruiser => "a cruiser stern"@,
            SternType::Round => "a round stern"@,
        }
    }

    /// Name of the shape with its article, as the report prints it.
    pub fn to_string(&self) -> (s: String)
        ensures
            s@ == self.name(),
    {
        let s = match self {
            SternType::TransomSm => "a small transom stern",
            SternType::TransomLg => "a large transom stern",
            SternType::Cruiser => "a cruiser stern",
            SternType::Round => "a round stern",
        };
        String::from_str(s)
    }

    /// The two coefficients of the waterplane rule for a hull of ordinary
    /// fullness, in millionths: the constant and the multiple of the
    /// prismatic coefficient.
    pub open spec fn spec_wp_calc(self) -> (u32, u32) {
        match self {
            SternType::TransomSm => (262_000, 790_000),
            SternType::TransomLg => (262_000, 810_000),
            SternType::Cruiser => (262_000, 760_000),
            SternType::Round => (262_000, 760_000),
        }
    }

    /// The two coefficients of the waterplane rule for a hull of ordinary
    /// fullness, in millionths: the constant and the multiple of the
    /// prismatic coefficient.
    pub fn wp_calc(&self) -> (r: (u32, u32))
        ensures
            r == self.spec_wp_calc(),
    {
        match self {
            SternType::TransomSm => (262_000, 790_000),
            SternType::TransomLg => (262_000, 810_000),
            SternType::Cruiser => (262_000, 760_000),
            SternType::Round => (262_000, 760_000),
        }
    }

    /// The two coefficients of the waterplane rule, in millionths. A full
    /// hull, which is one with fewer than two shafts or with a block
    /// coefficient of three quarters or more, has the same pair whatever the
    /// stern.
    pub open spec fn spec_wp_coefs(self, full: bool) -> (u32, u32) {
        if full {
            (175_000, 875_000)
        } else {
            self.spec_wp_calc()
        }
    }

    /// The two coefficients of the waterplane rule, in millionths.
    pub fn wp_coefs(&self, full: bool) -> (r: (u32, u32))
        ensures
            r == self.spec_wp_coefs(full),
    {
        if full {
            (175_000, 875_000)
        } else {
            self.wp_calc()
        }
    }

    /// Share of the beam, divided by the sharpness of the hull, by which a
    /// transom lengthens the hull in effect, in millionths; `None` for a
    /// stern that adds nothing.
    pub open spec fn spec_transom_factor(self) -> Option<u32> {
        match self {
            SternType::TransomSm => Some(500_000u32),
            SternType::TransomLg => Some(1_000_000u32),
            _ => None,
        }
    }

    /// Share of the beam, divided by the sharpness of the hull, by which a
    /// transom lengthens the hull in effect, in millionths.
    pub fn transom_factor(&self) -> (r: Option<u32>)
        ensures
            r == self.spec_transom_factor(),
    {
        match self {
            SternType::TransomSm => Some(500_000),
            SternType::TransomLg => Some(1_000_000),
            _ => None,
        }
    }
}

impl<T: Copy> Paired<T> {
    /// The pair after the first quantity was set to `v`.
    pub open spec fn with_first(self, v: T) -> Paired<T> {
        Paired::First(v)
    }

    /// The pair after the second quantity was set to `v`.
    pub open spec fn with_second(self, v: T) -> Paired<T> {
        Paired::Second(v)
    }

    /// The first quantity, where it is the stored one.
    pub open spec fn spec_first(self) -> Option<T> {
        match self {
            Paired::First(v) => Some(v),
            _ => None,
        }
    }

    /// The second quantity, where it is the stored one.
    pub open spec fn spec_second(self) -> Option<T> {
        match self {
            Paired::Second(v) => Some(v),
            _ => None,
        }
    }

    /// A pair of which nothing was set.
    pub fn new() -> (r: Paired<T>)
        ensures
            r == Paired::<T>::Neither,
    {
        Paired::Neither
    }

    /// Stores `v` as the first quantity and forgets the second. Returns `v`.
    pub fn set_first(&mut self, v: T) -> (r: T)
        ensures
            *final(self) == old(self).with_first(v),
            r == v,
    {
        *self = Paired::First(v);
        v
    }

    /// Stores `v` as the second quantity and forgets the first. Returns `v`.
    pub fn set_second(&mut self, v: T) -> (r: T)
        ensures
            *final(self) == old(self).with_second(v),
            r == v,
    {
        *self = Paired::Second(v);
        v
    }

    /// The first quantity as it was set, or `None` where it has to be
    /// derived: from the second quantity, or from nothing.
    pub fn first(&self) -> (r: Option<T>)
        ensures
            r == self.spec_first(),
    {
        match self {
            Paired::First(v) => Some(*v),
            _ => None,
        }
    }

    /// The second quantity as it was set, or `None` where it has to be
    /// derived: from the first quantity, or from nothing.
    pub fn second(&self) -> (r: Option<T>)
        ensures
            r == self.spec_second(),
    {
        match self {
            Paired::Second(v) => Some(*v),
            _ => None,
        }
    }

    /// Whether neither quantity was set.
    pub fn is_unset(&self) -> (r: bool)
        ensures
            r == (*self == Paired::<T>::Neither),
            r == (self.spec_first().is_none() && self.spec_second().is_none()),
    {
        match self {
            Paired::Neither => true,
            _ => false,
        }
    }
}

/// The phrases that describe the sheer of a deck with a break after the
/// forecastle, one amidships and one before the quarterdeck. A deck without
/// a step at any break is flush.
pub open spec fn freeboard_parts(fc: Step, mid: Step, qd: Step) -> Seq<Seq<char>> {
    if fc is Level && mid is Level && qd is Level {
        seq!["flush deck"@]
    } else {
        (match fc {
            Step::Drop => seq!["raised forecastle"@],
            Step::Rise => seq!["low forecastle"@],
            _ => Seq::<Seq<char>>::empty(),
        }) + (match mid {
            Step::Drop => seq!["rise forward of midbreak"@],
            Step::Rise => seq!["rise aft of midbreak"@],
            _ => Seq::<Seq<char>>::empty(),
        }) + (match qd {
            Step::Drop => seq!["low quarterdeck"@],
            Step::Rise => seq!["raised quarterdeck"@],
            _ => Seq::<Seq<char>>::empty(),
        })
    }
}

/// Description of the sheer of the deck: the phrases for the three breaks,
/// from forward to aft, separated by commas.
pub fn freeboard_desc(fc: Step, mid: Step, qd: Step) -> (s: String)
    ensures
        s@ == joined(freeboard_parts(fc, mid, qd), ", "@),
{
    let mut parts: Vec<String> = Vec::new();
    if fc == Step::Level && mid == Step::Level && qd == Step::Level {
        parts.push(String::from_str("flush deck"));
    } else {
        match fc {
            Step::Drop => parts.push(String::from_str("raised forecastle")),
            Step::Rise => parts.push(String::from_str("low forecastle")),
            _ => {},
        }
        match mid {
            Step::Drop => parts.push(String::from_str("rise forward of midbreak")),
            Step::Rise => parts.push(String::from_str("rise aft of midbreak")),
            _ => {},
        }
        match qd {
            Step::Drop => parts.push(String::from_str("low quarterdeck")),
            Step::Rise => parts.push(String::from_str("raised quarterdeck")),
            _ => {},
        }
    }
    assert(texts(parts@) =~= freeboard_parts(fc, mid, qd));
    join(&parts, ", ")
}

impl<T: Copy> Clone for Paired<T> {
    fn clone(&self) -> (r: Paired<T>)
        ensures
            r == *self,
    {
        *self
    }
}

impl Default for SternType {
    fn default() -> (r: SternType)
        ensures
            r == SternType::Cruiser,
    {
        SternType::Cruiser
    }
}

impl From<&str> for SternType {
    fn from(index: &str) -> (r: SternType) {
        if str_eq(index, "1") {
            SternType::TransomSm
        } else if str_eq(index, "2") {
            SternType::TransomLg
        } else if str_eq(index, "3") {
            SternType::Round
        } else {
            SternType::Cruiser
        }
    }
}

impl FromSpecImpl<&str> for SternType {
    open spec fn obeys_from_spec() -> bool {
        true
    }

    open spec fn from_spec(index: &str) -> SternType {
        SternType::of_code(index@)
    }
}

impl From<String> for SternType {
    fn from(index: String) -> (r: SternType) {
        SternType::from(index.as_str())
    }
}

impl FromSpecImpl<String> for SternType {
    open spec fn obeys_from_spec() -> bool {
        true
    }

    open spec fn from_spec(index: String) -> SternType {
        SternType::of_code(index@)
    }
}

/// Of a pair, the quantity that was set last is returned as it was set, and
/// the other is not stored: after the first was set to `x` the first is `x`
/// and the second has to be derived; after the second was then set to `y`
/// the second is `y` and the first has to be derived.
pub proof fn lemma_last_write_wins<T: Copy>(p: Paired<T>, x: T, y: T)
    ensures
        p.with_first(x).spec_first() == Some(x),
        p.with_first(x).spec_second().is_none(),
        p.with_first(x).with_second(y).spec_second() == Some(y),
        p.with_first(x).with_second(y).spec_first().is_none(),
        p.with_second(y).with_first(x).spec_first() == Some(x),
        p.with_second(y).with_first(x).spec_second().is_none(),
{
}

/// Whatever was set, a pair never stores both quantities.
pub proof fn lemma_never_both<T: Copy>(p: Paired<T>)
    ensures
        p.spec_first().is_none() || p.spec_second().is_none(),
{
}

} // verus!
