//! Placement of a group of gun mounts along the ship.

use crate::text::str_eq;
use vstd::prelude::*;
use vstd::std_specs::convert::FromSpecImpl;
use vstd::string::*;

verus! {

/// Where the mounts of a group stand: on the centreline or on the sides, and
/// on which part of the deck.
#[derive(Clone, Copy, Debug, PartialEq, Eq, Structural)]
pub enum GunDistributionType {
    CenterlineEven,
    CenterlineEndsFD,
    CenterlineEndsAD,
    CenterlineFDFwd,
    CenterlineFD,
    CenterlineFDAft,
    CenterlineADFwd,
    CenterlineAD,
    CenterlineADAft,
    SidesEven,
    SidesEndsFD,
    SidesEndsAD,
    SidesFDFwd,
    SidesFD,
    SidesFDAft,
    SidesADFwd,
    SidesAD,
    SidesADAft,
}

/// Part of the deck on which a placement puts its mounts, whichever the
/// side: it selects the rule for the height of the guns above the water.
#[derive(Clone, Copy, Debug, PartialEq, Eq, Structural)]
pub enum Zone {
    /// Spread over foredeck and afterdeck.
    Even,
    /// At the forward end of the foredeck and the after end of the afterdeck.
    Ends,
    /// At the forward end of the foredeck.
    FDFwd,
    /// Over the foredeck.
    FD,
    /// At the after end of the foredeck.
    FDAft,
    /// At the forward end of the afterdeck.
    ADFwd,
    /// Over the afterdeck.
    AD,
    /// At the after end of the afterdeck.
    ADAft,
}

/// Place of a group of mounts along the ship, as a share of a length, in
/// millionths.
#[derive(Clone, Copy, Debug, PartialEq, Eq, Structural)]
pub enum GunPosition {
    /// A share of the whole length, whatever the decks.
    Fixed(u32),
    /// A share of the length of the foredeck.
    OfForedeck(u32),
    /// A share of the length of the afterdeck.
    OfAfterdeck(u32),
}

/// Half of `n`, rounded up.
pub open spec fn half_up(n: nat) -> nat {
    (n + 1) / 2
}

/// Half of `n`, with halves rounded away from zero.
pub fn half(n: u32) -> (r: u32)
    ensures
        r == half_up(n as nat),
        r <= n,
        n - r <= r,
{
    n / 2 + n % 2
}

impl GunDistributionType {
    /// The placement that a code of a SpringSharp ship file selects. An unknown
    /// code selects the even centreline placement.
    pub open spec fn of_code(code: Seq<char>) -> GunDistributionType {
        if code == "1"@ {
            GunDistributionType::CenterlineEndsFD
        } else if code == "2"@ {
            GunDistributionType::CenterlineEndsAD
        } else if code == "3"@ {
            GunDistributionType::CenterlineFDFwd
        } else if code == "4"@ {
            GunDistributionType::CenterlineFD
        } else if code == "5"@ {
            GunDistributionType::CenterlineFDAft
        } else if code == "6"@ {
            GunDistributionType::CenterlineADFwd
        } else if code == "7"@ {
            GunDistributionType::CenterlineAD
        } else if code == "8"@ {
            GunDistributionType::CenterlineADAft
        } else if code == "9"@ {
            GunDistributionType::SidesEven
        } else if code == "10"@ {
            GunDistributionType::SidesEndsFD
        } else if code == "11"@ {
            GunDistributionType::SidesEndsAD
        } else if code == "12"@ {
            GunDistributionType::SidesFDFwd
        } else if code == "13"@ {
            GunDistributionType::SidesFD
        } else if code == "14"@ {
            GunDistributionType::SidesFDAft
        } else if code == "15"@ {
            GunDistributionType::SidesADFwd
        } else if code == "16"@ {
            GunDistributionType::SidesAD
        } else if code == "17"@ {
            GunDistributionType::SidesADAft
        } else {
            GunDistributionType::CenterlineEven
        }
    }

    /// Short name of the placement.
    pub open spec fn name(self) -> Seq<char> {
        match self {
            GunDistributionType::CenterlineEven => "centerline - distributed"@,
            GunDistributionType::CenterlineEndsFD => "centerline - ends (fore ≥ aft)"@,
            GunDistributionType::CenterlineEndsAD => "centerline - ends (aft ≥ fore)"@,
            GunDistributionType::CenterlineFDFwd => "centerline - foredeck forward"@,
            GunDistributionType::CenterlineFD => "centerline - foredeck"@,
            GunDistributionType::CenterlineFDAft => "centerline - foredeck aft"@,
            GunDistributionType::CenterlineADFwd => "centerline - afterdeck forward"@,
            GunDistributionType::CenterlineAD => "centerline - afterdeck"@,
            GunDistributionType::CenterlineADAft => "centerline - afterdeck aft"@,
            GunDistributionType::SidesEven => "sides - distributed"@,
            GunDistributionType::SidesEndsFD => "sides - ends (fore ≥ aft)"@,
            GunDistributionType::SidesEndsAD => "sides - ends (aft ≥ fore)"@,
            GunDistributionType::SidesFDFwd => "sides - foredeck forward"@,
            GunDistributionType::SidesFD => "sides - foredeck"@,
            GunDistributionType::SidesFDAft => "sides - foredeck aft"@,
            GunDistributionType::SidesADFwd => "sides - afterdeck forared"@,
            GunDistributionType::SidesAD => "sides - afterdeck"@,
            GunDistributionType::SidesADAft => "sides - afterdeck aft"@,
        }
    }

    /// Short name of the placement.
    pub fn to_string(&self) -> (s: String)
        ensures
            s@ == self.name(),
    {
        let s = match self {
            GunDistributionType::CenterlineEven => "centerline - distributed",
            GunDistributionType::CenterlineEndsFD => "centerline - ends (fore ≥ aft)",
            GunDistributionType::CenterlineEndsAD => "centerline - ends (aft ≥ fore)",
            GunDistributionType::CenterlineFDFwd => "centerline - foredeck forward",
            GunDistributionType::CenterlineFD => "centerline - foredeck",
            GunDistributionType::CenterlineFDAft => "centerline - foredeck aft",
            GunDistributionType::CenterlineADFwd => "centerline - afterdeck forward",
            GunDistributionType::CenterlineAD => "centerline - afterdeck",
            GunDistributionType::CenterlineADAft => "centerline - afterdeck aft",
            GunDistributionType::SidesEven => "sides - distributed",
            GunDistributionType::SidesEndsFD => "sides - ends (fore ≥ aft)",
            GunDistributionType::SidesEndsAD => "sides - ends (aft ≥ fore)",
            GunDistributionType::SidesFDFwd => "sides - foredeck forward",
            GunDistributionType::SidesFD => "sides - foredeck",
            GunDistributionType::SidesFDAft => "sides - foredeck aft",
            GunDistributionType::SidesADFwd => "sides - afterdeck forared",
            GunDistributionType::SidesAD => "sides - afterdeck",
            GunDistributionType::SidesADAft => "sides - afterdeck aft",
        };
        String::from_str(s)
    }

    /// Wording of the placement for `mounts` mounts, as the report prints it.
    /// `fwd_majority` says whether forecastle and foredeck together cover at
    /// least half of the deck length; it matters for a single mount that is
    /// placed evenly on the centreline.
    pub open spec fn desc_text(self, mounts: nat, fwd_majority: bool) -> Seq<char> {
        match self {
            GunDistributionType::CenterlineEven => if mounts == 1 {
                if fwd_majority {
                    "centreline amidships (forward deck)"@
                } else {
                    "centreline amidships (aft deck)"@
                }
            } else {
                "centreline, evenly spread"@
            },
            GunDistributionType::CenterlineEndsFD => if mounts == 1 {
                "centreline forward"@
            } else if mounts % 2 == 0 {
                "centreline ends, evenly spread"@
            } else {
                "centreline ends, majority forward"@
            },
            GunDistributionType::CenterlineEndsAD => if mounts == 1 {
                "centreline aft"@
            } else if mounts % 2 == 0 {
                "centrelineends, evenly spread"@
            } else {
                "centreline ends, majority aft"@
            },
            GunDistributionType::CenterlineFDFwd => "centreline, forward deck forward"@,
            GunDistributionType::CenterlineFD => if mounts == 1 {
                "centreline, forward deck centre"@
            } else {
                "centreline, forward evenly spread"@
            },
            GunDistributionType::CenterlineFDAft => "centreline, forward deck aft"@,
            GunDistributionType::CenterlineADFwd => "centreline, aft deck forward"@,
            GunDistributionType::CenterlineAD => if mounts == 1 {
                "centreline, aft deck centre"@
            } else {
                "centreline, aft evenly spread"@
            },
            GunDistributionType::CenterlineADAft => "cenreline, aft deck aft"@,
            GunDistributionType::SidesEven => if mounts < 3 {
                "sides amidships"@
            } else {
                "sides, evenly spread"@
            },
            GunDistributionType::SidesEndsFD => if mounts < 3 {
                "sides, forward"@
            } else if mounts % 4 == 0 {
                "side ends, evenly spread"@
            } else {
                "side ends, majority forward"@
            },
            GunDistributionType::SidesEndsAD => if mounts < 3 {
                "sides aft"@
            } else if mounts % 4 == 0 {
                "side ends, evenly spread"@
            } else {
                "side ends, majority aft"@
            },
            GunDistributionType::SidesFDFwd => "sides, forward deck forward"@,
            GunDistributionType::SidesFD => if mounts < 3 {
                "sides, forward deck centre"@
            } else {
                "sides, forward evenly spread"@
            },
            GunDistributionType::SidesFDAft => "sides, forward deck aft"@,
            GunDistributionType::SidesADFwd => "sides, aft deck forward"@,
            GunDistributionType::SidesAD => if mounts < 3 {
                "sides, aft deck centre"@
            } else {
                "sides, aft evenly spread"@
            },
            GunDistributionType::SidesADAft => "sides, aft deck aft"@,
        }
    }

    /// Wording of the placement for `mounts` mounts.
    pub fn desc(&self, mounts: u32, fwd_majority: bool) -> (s: String)
        ensures
            s@ == self.desc_text(mounts as nat, fwd_majority),
    {
        let s = match self {
            GunDistributionType::CenterlineEven => if mounts == 1 {
                if fwd_majority {
                    "centreline amidships (forward deck)"
                } else {
                    "centreline amidships (aft deck)"
                }
            } else {
                "centreline, evenly spread"
            },
            GunDistributionType::CenterlineEndsFD => if mounts == 1 {
                "centreline forward"
            } else if mounts % 2 == 0 {
                "centreline ends, evenly spread"
            } else {
                "centreline ends, majority forward"
            },
            GunDistributionType::CenterlineEndsAD => if mounts == 1 {
                "centreline aft"
            } else if mounts % 2 == 0 {
                "centrelineends, evenly spread"
            } else {
                "centreline ends, majority aft"
            },
            GunDistributionType::CenterlineFDFwd => "centreline, forward deck forward",
            GunDistributionType::CenterlineFD => if mounts == 1 {
                "centreline, forward deck centre"
            } else {
                "centreline, forward evenly spread"
            },
            GunDistributionType::CenterlineFDAft => "centreline, forward deck aft",
            GunDistributionType::CenterlineADFwd => "centreline, aft deck forward",
            GunDistributionType::CenterlineAD => if mounts == 1 {
                "centreline, aft deck centre"
            } else {
                "centreline, aft evenly spread"
            },
            GunDistributionType::CenterlineADAft => "cenreline, aft deck aft",
            GunDistributionType::SidesEven => if mounts < 3 {
                "sides amidships"
            } else {
                "sides, evenly spread"
            },
            GunDistributionType::SidesEndsFD => if mounts < 3 {
                "sides, forward"
            } else if mounts % 4 == 0 {
                "side ends, evenly spread"
            } else {
                "side ends, majority forward"
            },
            GunDistributionType::SidesEndsAD => if mounts < 3 {
                "sides aft"
            } else if mounts % 4 == 0 {
                "side ends, evenly spread"
            } else {
                "side ends, majority aft"
            },
            GunDistributionType::SidesFDFwd => "sides, forward deck forward",
            GunDistributionType::SidesFD => if mounts < 3 {
                "sides, forward deck centre"
            } else {
                "sides, forward evenly spread"
            },
            GunDistributionType::SidesFDAft => "sides, forward deck aft",
            GunDistributionType::SidesADFwd => "sides, aft deck forward",
            GunDistributionType::SidesAD => if mounts < 3 {
                "sides, aft deck centre"
            } else {
                "sides, aft evenly spread"
            },
            GunDistributionType::SidesADAft => "sides, aft deck aft",
        };
        String::from_str(s)
    }

    /// Whether the placement lies on the after part of the ship.
    pub open spec fn is_aft(self) -> bool {
        match self {
            GunDistributionType::CenterlineEndsAD
            | GunDistributionType::CenterlineADFwd
            | GunDistributionType::CenterlineAD
            | GunDistributionType::CenterlineADAft
            | GunDistributionType::SidesEndsAD
            | GunDistributionType::SidesADFwd
            | GunDistributionType::SidesAD
            | GunDistributionType::SidesADAft => true,
            _ => false,
        }
    }

    /// Whether a single raised mount of this placement is reported as standing
    /// aft.
    pub fn super_aft(&self) -> (r: bool)
        ensures
            r == self.is_aft(),
    {
        match self {
            GunDistributionType::CenterlineEndsAD
            | GunDistributionType::CenterlineADFwd
            | GunDistributionType::CenterlineAD
            | GunDistributionType::CenterlineADAft
            | GunDistributionType::SidesEndsAD
            | GunDistributionType::SidesADFwd
            | GunDistributionType::SidesAD
            | GunDistributionType::SidesADAft => true,
            _ => false,
        }
    }

    /// Number of the `tot` mounts that count as standing forward.
    ///
    /// Placements on the foredeck, and the one forward on the centreline of
    /// the afterdeck, count all mounts; the other afterdeck placements count
    /// none. A placement at the ends puts the larger half on its own end. An
    /// even placement puts the larger half forward exactly when
    /// `fwd_majority` holds.
    pub open spec fn fwd_count(self, tot: nat, fwd_majority: bool) -> nat {
        match self {
            GunDistributionType::CenterlineFDFwd
            | GunDistributionType::CenterlineFD
            | GunDistributionType::CenterlineFDAft
            | GunDistributionType::CenterlineADFwd
            | GunDistributionType::SidesFDFwd
            | GunDistributionType::SidesFD
            | GunDistributionType::SidesFDAft => tot,
            GunDistributionType::CenterlineAD
            | GunDistributionType::CenterlineADAft
            | GunDistributionType::SidesADFwd
            | GunDistributionType::SidesAD
            | GunDistributionType::SidesADAft => 0,
            GunDistributionType::CenterlineEndsFD | GunDistributionType::SidesEndsFD => half_up(
                tot,
            ),
            GunDistributionType::CenterlineEndsAD | GunDistributionType::SidesEndsAD => tot / 2,
            GunDistributionType::CenterlineEven | GunDistributionType::SidesEven => if fwd_majority {
                half_up(tot)
            } else {
                tot / 2
            },
        }
    }

    /// Number of the `tot` mounts that count as standing forward.
    pub fn mounts_fwd(&self, tot: u32, fwd_majority: bool) -> (r: u32)
        ensures
            r == self.fwd_count(tot as nat, fwd_majority),
            r <= tot,
    {
        match self {
            GunDistributionType::CenterlineFDFwd
            | GunDistributionType::CenterlineFD
            | GunDistributionType::CenterlineFDAft
            | GunDistributionType::CenterlineADFwd
            | GunDistributionType::SidesFDFwd
            | GunDistributionType::SidesFD
            | GunDistributionType::SidesFDAft => tot,
            GunDistributionType::CenterlineAD
            | GunDistributionType::CenterlineADAft
            | GunDistributionType::SidesADFwd
            | GunDistributionType::SidesAD
            | GunDistributionType::SidesADAft => 0,
            GunDistributionType::CenterlineEndsFD | GunDistributionType::SidesEndsFD => if tot
                == 1 {
                tot
            } else {
                half(tot)
            },
            GunDistributionType::CenterlineEndsAD | GunDistributionType::SidesEndsAD => if tot
                == 1 {
                0
            } else {
                tot - half(tot)
            },
            GunDistributionType::CenterlineEven | GunDistributionType::SidesEven => if tot == 1
                && fwd_majority {
                tot
            } else if fwd_majority {
                half(tot)
            } else {
                tot - half(tot)
            },
        }
    }

    /// Part of the deck on which the placement puts its mounts.
    pub open spec fn spec_zone(self) -> Zone {
        match self {
            GunDistributionType::CenterlineEven | GunDistributionType::SidesEven => Zone::Even,
            GunDistributionType::CenterlineEndsFD
            | GunDistributionType::CenterlineEndsAD
            | GunDistributionType::SidesEndsFD
            | GunDistributionType::SidesEndsAD => Zone::Ends,
            GunDistributionType::CenterlineFDFwd | GunDistributionType::SidesFDFwd => Zone::FDFwd,
            GunDistributionType::CenterlineFD | GunDistributionType::SidesFD => Zone::FD,
            GunDistributionType::CenterlineFDAft | GunDistributionType::SidesFDAft => Zone::FDAft,
            GunDistributionType::CenterlineADFwd | GunDistributionType::SidesADFwd => Zone::ADFwd,
            GunDistributionType::CenterlineAD | GunDistributionType::SidesAD => Zone::AD,
            GunDistributionType::CenterlineADAft | GunDistributionType::SidesADAft => Zone::ADAft,
        }
    }

    /// Part of the deck on which the placement puts its mounts.
    pub fn zone(&self) -> (r: Zone)
        ensures
            r == self.spec_zone(),
    {
        match self {
            GunDistributionType::CenterlineEven | GunDistributionType::SidesEven => Zone::Even,
            GunDistributionType::CenterlineEndsFD
            | GunDistributionType::CenterlineEndsAD
            | GunDistributionType::SidesEndsFD
            | GunDistributionType::SidesEndsAD => Zone::Ends,
            GunDistributionType::CenterlineFDFwd | GunDistributionType::SidesFDFwd => Zone::FDFwd,
            GunDistributionType::CenterlineFD | GunDistributionType::SidesFD => Zone::FD,
            GunDistributionType::CenterlineFDAft | GunDistributionType::SidesFDAft => Zone::FDAft,
            GunDistributionType::CenterlineADFwd | GunDistributionType::SidesADFwd => Zone::ADFwd,
            GunDistributionType::CenterlineAD | GunDistributionType::SidesAD => Zone::AD,
            GunDistributionType::CenterlineADAft | GunDistributionType::SidesADAft => Zone::ADAft,
        }
    }

    /// Place of the mounts along their deck: a quarter, a half or three
    /// quarters of its length for a placement at the forward end, over the
    /// whole or at the after end of a deck. A placement that is spread or at
    /// the ends has no place of its own.
    pub open spec fn spec_gun_position(self) -> GunPosition {
        match self.spec_zone() {
            Zone::FDFwd => GunPosition::OfForedeck(250_000),
            Zone::FD => GunPosition::OfForedeck(500_000),
            Zone::FDAft => GunPosition::OfForedeck(750_000),
            Zone::ADFwd => GunPosition::OfAfterdeck(250_000),
            Zone::AD => GunPosition::OfAfterdeck(500_000),
            Zone::ADAft => GunPosition::OfAfterdeck(750_000),
            _ => GunPosition::Fixed(0),
        }
    }

    /// Place of the mounts along their deck.
    pub fn gun_position(&self) -> (r: GunPosition)
        ensures
            r == self.spec_gun_position(),
    {
        match self.zone() {
            Zone::FDFwd => GunPosition::OfForedeck(250_000),
            Zone::FD => GunPosition::OfForedeck(500_000),
            Zone::FDAft => GunPosition::OfForedeck(750_000),
            Zone::ADFwd => GunPosition::OfAfterdeck(250_000),
            Zone::AD => GunPosition::OfAfterdeck(500_000),
            Zone::ADAft => GunPosition::OfAfterdeck(750_000),
            _ => GunPosition::Fixed(0),
        }
    }

    /// Whether the placement is spread over both decks or stands at their
    /// ends, so that it has no place of its own.
    pub open spec fn is_spread(self) -> bool {
        self.spec_zone() is Even || self.spec_zone() is Ends
    }

    /// Place of the mounts where they form the first group of a battery: a
    /// spread placement counts as the whole length.
    pub fn g1_gun_position(&self) -> (r: GunPosition)
        ensures
            r == if self.is_spread() {
                GunPosition::Fixed(1_000_000)
            } else {
                self.spec_gun_position()
            },
    {
        match self.zone() {
            Zone::Even | Zone::Ends => GunPosition::Fixed(1_000_000),
            _ => self.gun_position(),
        }
    }

    /// Place of the mounts where they form the second group of a battery: a
    /// spread placement counts as no length.
    pub fn g2_gun_position(&self) -> (r: GunPosition)
        ensures
            r == if self.is_spread() {
                GunPosition::Fixed(0)
            } else {
                self.spec_gun_position()
            },
    {
        match self.zone() {
            Zone::Even | Zone::Ends => GunPosition::Fixed(0),
            _ => self.gun_position(),
        }
    }

    /// Whether a battery that stands in this placement alone concentrates its
    /// weight along the length of the ship.
    pub open spec fn is_concentrated(self) -> bool {
        match self {
            GunDistributionType::CenterlineEven
            | GunDistributionType::CenterlineEndsFD
            | GunDistributionType::SidesEven
            | GunDistributionType::SidesEndsFD
            | GunDistributionType::SidesEndsAD => false,
            _ => true,
        }
    }

    /// Whether a battery that stands in this placement alone concentrates its
    /// weight along the length of the ship.
    pub fn super_factor_long(&self) -> (r: bool)
        ensures
            r == self.is_concentrated(),
    {
        match self {
            GunDistributionType::CenterlineEven => false,
            GunDistributionType::CenterlineEndsFD => false,
            GunDistributionType::CenterlineEndsAD => true,
            GunDistributionType::CenterlineFDFwd => true,
            GunDistributionType::CenterlineFD => true,
            GunDistributionType::CenterlineFDAft => true,
            GunDistributionType::CenterlineADFwd => true,
            GunDistributionType::CenterlineAD => true,
            GunDistributionType::CenterlineADAft => true,
            GunDistributionType::SidesEven => false,
            GunDistributionType::SidesEndsFD => false,
            GunDistributionType::SidesEndsAD => false,
            GunDistributionType::SidesFDFwd => true,
            GunDistributionType::SidesFD => true,
            GunDistributionType::SidesFDAft => true,
            GunDistributionType::SidesADFwd => true,
            GunDistributionType::SidesAD => true,
            GunDistributionType::SidesADAft => true,
        }
    }
}

impl Default for GunDistributionType {
    fn default() -> (r: GunDistributionType)
        ensures
            r == GunDistributionType::CenterlineEven,
    {
        GunDistributionType::CenterlineEven
    }
}

impl From<&str> for GunDistributionType {
    fn from(index: &str) -> (r: GunDistributionType) {
        if str_eq(index, "1") {
            GunDistributionType::CenterlineEndsFD
        } else if str_eq(index, "2") {
            GunDistributionType::CenterlineEndsAD
        } else if str_eq(index, "3") {
            GunDistributionType::CenterlineFDFwd
        } else if str_eq(index, "4") {
            GunDistributionType::CenterlineFD
        } else if str_eq(index, "5") {
            GunDistributionType::CenterlineFDAft
        } else if str_eq(index, "6") {
            GunDistributionType::CenterlineADFwd
        } else if str_eq(index, "7") {
            GunDistributionType::CenterlineAD
        } else if str_eq(index, "8") {
            GunDistributionType::CenterlineADAft
        } else if str_eq(index, "9") {
            GunDistributionType::SidesEven
        } else if str_eq(index, "10") {
            GunDistributionType::SidesEndsFD
        } else if str_eq(index, "11") {
            GunDistributionType::SidesEndsAD
        } else if str_eq(index, "12") {
            GunDistributionType::SidesFDFwd
        } else if str_eq(index, "13") {
            GunDistributionType::SidesFD
        } else if str_eq(index, "14") {
            GunDistributionType::SidesFDAft
        } else if str_eq(index, "15") {
            GunDistributionType::SidesADFwd
        } else if str_eq(index, "16") {
            GunDistributionType::SidesAD
        } else if str_eq(index, "17") {
            GunDistributionType::SidesADAft
        } else {
            GunDistributionType::CenterlineEven
        }
    }
}

impl FromSpecImpl<&str> for GunDistributionType {
    open spec fn obeys_from_spec() -> bool {
        true
    }

    open spec fn from_spec(index: &str) -> GunDistributionType {
        GunDistributionType::of_code(index@)
    }
}

impl From<String> for GunDistributionType {
    fn from(index: String) -> (r: GunDistributionType) {
        GunDistributionType::from(index.as_str())
    }
}

impl FromSpecImpl<String> for GunDistributionType {
    open spec fn obeys_from_spec() -> bool {
        true
    }

    open spec fn from_spec(index: String) -> GunDistributionType {
        GunDistributionType::of_code(index@)
    }
}

/// No mount counts forward that the group does not have, and a forward
/// majority of the deck never lowers the count.
pub proof fn lemma_fwd_count_bounds(d: GunDistributionType, tot: nat)
    ensures
        d.fwd_count(tot, true) <= tot,
        d.fwd_count(tot, false) <= d.fwd_count(tot, true),
{
}

/// A spread placement, or one at the ends, divides its mounts between the
/// two ends as evenly as it can: the counts forward and aft differ by one at
/// most.
pub proof fn lemma_fwd_count_split(d: GunDistributionType, tot: nat, fwd_majority: bool)
    requires
        d.is_spread(),
    ensures
        2 * d.fwd_count(tot, fwd_majority) - tot <= 1,
        tot - 2 * d.fwd_count(tot, fwd_majority) <= 1,
{
}

/// Among the placements on one deck, all but three count every mount on the
/// side of their deck: the one forward on the centreline of the afterdeck
/// counts forward, and no other placement on the afterdeck does.
pub proof fn lemma_fwd_count_deck(d: GunDistributionType, tot: nat, fwd_majority: bool)
    requires
        !d.is_spread(),
    ensures
        d.fwd_count(tot, fwd_majority) == (if d.spec_gun_position() is OfForedeck || d
            == GunDistributionType::CenterlineADFwd {
            tot
        } else {
            0
        }),
{
}

} // verus!
