//! Kinds of torpedo mount, of mine laying gear and of anti-submarine weapon.
//!
//! Weight factors are held as whole numbers of millionths.

use crate::text::{decimal, push_decimal, str_eq};
use vstd::prelude::*;
use vstd::std_specs::convert::FromSpecImpl;
use vstd::string::*;

verus! {

/// How mines are laid.
#[derive(Clone, Copy, Debug, PartialEq, Eq, Structural)]
pub enum MineType {
    SternRails,
    BowTubes,
    SternTubes,
    SideTubes,
}

/// Kind of anti-submarine weapon.
#[derive(Clone, Copy, Debug, PartialEq, Eq, Structural)]
pub enum ASWType {
    SternRacks,
    Throwers,
    Hedgehogs,
    SquidMortars,
}

/// How torpedoes are carried and launched.
#[derive(Clone, Copy, Debug, PartialEq, Eq, Structural)]
pub enum TorpedoMountType {
    FixedTubes,
    DeckSideTubes,
    CenterTubes,
    DeckReloads,
    BowTubes,
    SternTubes,
    BowAndSternTubes,
    SubmergedSideTubes,
    SubmergedReloads,
}

impl MineType {
    /// The kind that a code of a SpringSharp ship file selects; an unknown code
    /// selects stern rails.
    pub open spec fn of_code(code: Seq<char>) -> MineType {
        if code == "1"@ {
            MineType::BowTubes
        } else if code == "2"@ {
            MineType::SternTubes
        } else if code == "3"@ {
            MineType::SideTubes
        } else {
            MineType::SternRails
        }
    }

    /// Weight of the laying gear relative to the weight of the mines, in
    /// millionths.
    pub open spec fn spec_wgt_factor(self) -> u32 {
        match self {
            MineType::SternRails => 250_000,
            MineType::BowTubes => 1_000_000,
            MineType::SternTubes => 1_000_000,
            MineType::SideTubes => 1_000_000,
        }
    }

    /// Weight of the laying gear relative to the weight of the mines, in
    /// millionths.
    pub fn wgt_factor(&self) -> (r: u32)
        ensures
            r == self.spec_wgt_factor(),
    {
        match self {
            MineType::SternRails => 250_000,
            MineType::BowTubes => 1_000_000,
            MineType::SternTubes => 1_000_000,
            MineType::SideTubes => 1_000_000,
        }
    }

    /// Where the mines are carried, as the report prints it; empty for the
    /// kinds that the report does not describe.
    pub open spec fn desc_text(self) -> Seq<char> {
        match self {
            MineType::SternRails => "in Above water - Stern racks/rails"@,
            MineType::BowTubes => "in Below water - bow tubes"@,
            MineType::SternTubes => ""@,
            MineType::SideTubes => ""@,
        }
    }

    /// Where the mines are carried, as the report prints it; empty for the
    /// kinds that the report does not describe.
    pub fn desc(&self) -> (s: String)
        ensures
            s@ == self.desc_text(),
    {
        let s = match self {
            MineType::SternRails => "in Above water - Stern racks/rails",
            MineType::BowTubes => "in Below water - bow tubes",
            MineType::SternTubes => "",
            MineType::SideTubes => "",
        };
        String::from_str(s)
    }
}

impl ASWType {
    /// The kind that a code of a SpringSharp ship file selects; an unknown code
    /// selects stern racks.
    pub open spec fn of_code(code: Seq<char>) -> ASWType {
        if code == "1"@ {
            ASWType::Throwers
        } else if code == "2"@ {
            ASWType::Hedgehogs
        } else if code == "3"@ {
            ASWType::SquidMortars
        } else {
            ASWType::SternRacks
        }
    }

    /// Weight of the mounts relative to the weight of the weapons, in
    /// millionths.
    pub open spec fn spec_mount_wgt_factor(self) -> u32 {
        match self {
            ASWType::SternRacks => 250_000,
            ASWType::Throwers => 500_000,
            ASWType::Hedgehogs => 500_000,
            ASWType::SquidMortars => 10_000_000,
        }
    }

    /// Weight of the mounts relative to the weight of the weapons, in
    /// millionths.
    pub fn mount_wgt_factor(&self) -> (r: u32)
        ensures
            r == self.spec_mount_wgt_factor(),
    {
        match self {
            ASWType::SternRacks => 250_000,
            ASWType::Throwers => 500_000,
            ASWType::Hedgehogs => 500_000,
            ASWType::SquidMortars => 10_000_000,
        }
    }

    /// Name of the weapon, as the report prints it after the weight.
    pub open spec fn inline_desc_text(self) -> Seq<char> {
        match self {
            ASWType::SternRacks => "Depth Charges"@,
            ASWType::Throwers => "Depth Charges"@,
            ASWType::Hedgehogs => "ahead throwing AS Mortars"@,
            ASWType::SquidMortars => "trainable AS Mortars"@,
        }
    }

    /// Name of the weapon, as the report prints it after the weight.
    pub fn inline_desc(&self) -> (s: String)
        ensures
            s@ == self.inline_desc_text(),
    {
        let s = match self {
            ASWType::SternRacks => "Depth Charges",
            ASWType::Throwers => "Depth Charges",
            ASWType::Hedgehogs => "ahead throwing AS Mortars",
            ASWType::SquidMortars => "trainable AS Mortars",
        };
        String::from_str(s)
    }

    /// Where the weapons are carried, as the report prints it; empty for the
    /// kinds that the report does not describe.
    pub open spec fn desc_text(self) -> Seq<char> {
        match self {
            ASWType::SternRacks => "in Stern depth charge racks"@,
            ASWType::Throwers => "in Depth depth throwers"@,
            ASWType::Hedgehogs => ""@,
            ASWType::SquidMortars => ""@,
        }
    }

    /// Where the weapons are carried, as the report prints it; empty for the
    /// kinds that the report does not describe.
    pub fn desc(&self) -> (s: String)
        ensures
            s@ == self.desc_text(),
    {
        let s = match self {
            ASWType::SternRacks => "in Stern depth charge racks",
            ASWType::Throwers => "in Depth depth throwers",
            ASWType::Hedgehogs => "",
            ASWType::SquidMortars => "",
        };
        String::from_str(s)
    }
}

impl TorpedoMountType {
    /// The kind that a code of a SpringSharp ship file selects; an unknown code
    /// selects fixed tubes.
    pub open spec fn of_code(code: Seq<char>) -> TorpedoMountType {
        if code == "1"@ {
            TorpedoMountType::DeckSideTubes
        } else if code == "2"@ {
            TorpedoMountType::CenterTubes
        } else if code == "3"@ {
            TorpedoMountType::DeckReloads
        } else if code == "4"@ {
            TorpedoMountType::BowTubes
        } else if code == "5"@ {
            TorpedoMountType::SternTubes
        } else if code == "6"@ {
            TorpedoMountType::BowAndSternTubes
        } else if code == "7"@ {
            TorpedoMountType::SubmergedSideTubes
        } else if code == "8"@ {
            TorpedoMountType::SubmergedReloads
        } else {
            TorpedoMountType::FixedTubes
        }
    }

    /// Weight of the mounts relative to the weight of the torpedoes, in
    /// millionths.
    pub open spec fn spec_wgt_factor(self) -> u32 {
        match self {
            TorpedoMountType::FixedTubes => 250_000,
            TorpedoMountType::DeckSideTubes => 1_000_000,
            TorpedoMountType::CenterTubes => 1_000_000,
            TorpedoMountType::DeckReloads => 250_000,
            TorpedoMountType::BowTubes => 1_000_000,
            TorpedoMountType::SternTubes => 1_000_000,
            TorpedoMountType::BowAndSternTubes => 1_000_000,
            TorpedoMountType::SubmergedSideTubes => 1_000_000,
            TorpedoMountType::SubmergedReloads => 250_000,
        }
    }

    /// Weight of the mounts relative to the weight of the torpedoes, in
    /// millionths.
    pub fn wgt_factor(&self) -> (r: u32)
        ensures
            r == self.spec_wgt_factor(),
    {
        match self {
            TorpedoMountType::FixedTubes => 250_000,
            TorpedoMountType::DeckSideTubes => 1_000_000,
            TorpedoMountType::CenterTubes => 1_000_000,
            TorpedoMountType::DeckReloads => 250_000,
            TorpedoMountType::BowTubes => 1_000_000,
            TorpedoMountType::SternTubes => 1_000_000,
            TorpedoMountType::BowAndSternTubes => 1_000_000,
            TorpedoMountType::SubmergedSideTubes => 1_000_000,
            TorpedoMountType::SubmergedReloads => 250_000,
        }
    }

    /// Whether the torpedoes stand on deck (otherwise below the waterline).
    pub open spec fn spec_on_deck(self) -> bool {
        self is FixedTubes || self is DeckSideTubes || self is CenterTubes || self is DeckReloads
    }

    /// Whether the torpedoes stand on deck, where they take up deck space and
    /// no hull space.
    pub fn on_deck(&self) -> (r: bool)
        ensures
            r == self.spec_on_deck(),
    {
        match self {
            TorpedoMountType::FixedTubes
            | TorpedoMountType::DeckSideTubes
            | TorpedoMountType::CenterTubes
            | TorpedoMountType::DeckReloads => true,
            _ => false,
        }
    }

    /// The two coefficients of the hull space that one torpedo takes up below
    /// the waterline, in millionths: the multiple of its length, and the
    /// multiple of its diameter. Torpedoes on deck take up none.
    pub open spec fn spec_hull_space(self) -> Option<(u32, u32)> {
        match self {
            TorpedoMountType::BowTubes
            | TorpedoMountType::SternTubes
            | TorpedoMountType::BowAndSternTubes
            | TorpedoMountType::SubmergedSideTubes => Some((2_500_000u32, 2_750_000u32)),
            TorpedoMountType::SubmergedReloads => Some((1_500_000u32, 1_500_000u32)),
            _ => None,
        }
    }

    /// The two coefficients of the hull space that one torpedo takes up below
    /// the waterline, in millionths, or `None` for torpedoes on deck.
    pub fn hull_space(&self) -> (r: Option<(u32, u32)>)
        ensures
            r == self.spec_hull_space(),
            r.is_none() == self.spec_on_deck(),
    {
        match self {
            TorpedoMountType::BowTubes
            | TorpedoMountType::SternTubes
            | TorpedoMountType::BowAndSternTubes
            | TorpedoMountType::SubmergedSideTubes => Some((2_500_000, 2_750_000)),
            TorpedoMountType::SubmergedReloads => Some((1_500_000, 1_500_000)),
            _ => None,
        }
    }

    /// Name of one tube or reload of this kind. A mount with tubes in bow and
    /// stern reads "&" where there are several tubes, "OR" where there is one.
    pub open spec fn tube_text(self, tubes: nat) -> Seq<char> {
        match self {
            TorpedoMountType::FixedTubes => "deck mounted carriage/fixed tube"@,
            TorpedoMountType::DeckSideTubes => "deck mounted side rotating tube"@,
            TorpedoMountType::CenterTubes => "deck mounted centre rotating tube"@,
            TorpedoMountType::DeckReloads => "deck mounted reload"@,
            TorpedoMountType::BowTubes => "submerged bow tube"@,
            TorpedoMountType::SternTubes => "submerged stern tube"@,
            TorpedoMountType::BowAndSternTubes => if tubes > 1 {
                "submerged bow & stern tube"@
            } else {
                "submerged bow OR stern tube"@
            },
            TorpedoMountType::SubmergedSideTubes => "submerged side tube"@,
            TorpedoMountType::SubmergedReloads => "below water reload"@,
        }
    }

    /// What stands before the name of the tube: for torpedoes on deck the
    /// number of sets, or "In a " for a single tube; nothing below water.
    pub open spec fn prefix_text(self, tubes: nat, mounts: nat) -> Seq<char> {
        if self.spec_on_deck() {
            if tubes > 1 {
                "In "@ + decimal(mounts) + " sets of "@
            } else {
                "In a "@
            }
        } else {
            Seq::empty()
        }
    }

    /// Description of `tubes` tubes in `mounts` mounts, as the report prints
    /// it: prefix, name of the tube, and a plural "s" for several tubes.
    pub open spec fn desc_text(self, tubes: nat, mounts: nat) -> Seq<char> {
        self.prefix_text(tubes, mounts) + self.tube_text(tubes) + if tubes > 1 {
            "s"@
        } else {
            Seq::empty()
        }
    }

    /// Description of `tubes` tubes in `mounts` mounts, as the report prints
    /// it.
    pub fn desc(&self, tubes: u32, mounts: u32) -> (s: String)
        ensures
            s@ == self.desc_text(tubes as nat, mounts as nat),
    {
        let mut s = String::new();
        if self.on_deck() {
            if tubes > 1 {
                s.append("In ");
                push_decimal(&mut s, mounts);
                s.append(" sets of ");
            } else {
                s.append("In a ");
            }
        }
        assert(s@ =~= self.prefix_text(tubes as nat, mounts as nat));
        let tube = match self {
            TorpedoMountType::FixedTubes => "deck mounted carriage/fixed tube",
            TorpedoMountType::DeckSideTubes => "deck mounted side rotating tube",
            TorpedoMountType::CenterTubes => "deck mounted centre rotating tube",
            TorpedoMountType::DeckReloads => "deck mounted reload",
            TorpedoMountType::BowTubes => "submerged bow tube",
            TorpedoMountType::SternTubes => "submerged stern tube",
            TorpedoMountType::BowAndSternTubes => if tubes > 1 {
                "submerged bow & stern tube"
            } else {
                "submerged bow OR stern tube"
            },
            TorpedoMountType::SubmergedSideTubes => "submerged side tube",
            TorpedoMountType::SubmergedReloads => "below water reload",
        };
        s.append(tube);
        if tubes > 1 {
            s.append("s");
        }
        assert(s@ =~= self.desc_text(tubes as nat, mounts as nat));
        s
    }
}

impl Default for MineType {
    fn default() -> (r: MineType)
        ensures
            r == MineType::SternRails,
    {
        MineType::SternRails
    }
}

impl From<&str> for MineType {
    fn from(index: &str) -> (r: MineType) {
        if str_eq(index, "1") {
            MineType::BowTubes
        } else if str_eq(index, "2") {
            MineType::SternTubes
        } else if str_eq(index, "3") {
            MineType::SideTubes
        } else {
            MineType::SternRails
        }
    }
}

impl FromSpecImpl<&str> for MineType {
    open spec fn obeys_from_spec() -> bool {
        true
    }

    open spec fn from_spec(index: &str) -> MineType {
        MineType::of_code(index@)
    }
}

impl From<String> for MineType {
    fn from(index: String) -> (r: MineType) {
        MineType::from(index.as_str())
    }
}

impl FromSpecImpl<String> for MineType {
    open spec fn obeys_from_spec() -> bool {
        true
    }

    open spec fn from_spec(index: String) -> MineType {
        MineType::of_code(index@)
    }
}

impl Default for ASWType {
    fn default() -> (r: ASWType)
        ensures
            r == ASWType::SternRacks,
    {
        ASWType::SternRacks
    }
}

impl From<&str> for ASWType {
    fn from(index: &str) -> (r: ASWType) {
        if str_eq(index, "1") {
            ASWType::Throwers
        } else if str_eq(index, "2") {
            ASWType::Hedgehogs
        } else if str_eq(index, "3") {
            ASWType::SquidMortars
        } else {
            ASWType::SternRacks
        }
    }
}

impl FromSpecImpl<&str> for ASWType {
    open spec fn obeys_from_spec() -> bool {
        true
    }

    open spec fn from_spec(index: &str) -> ASWType {
        ASWType::of_code(index@)
    }
}

impl From<String> for ASWType {
    fn from(index: String) -> (r: ASWType) {
        ASWType::from(index.as_str())
    }
}

impl FromSpecImpl<String> for ASWType {
    open spec fn obeys_from_spec() -> bool {
        true
    }

    open spec fn from_spec(index: String) -> ASWType {
        ASWType::of_code(index@)
    }
}

impl Default for TorpedoMountType {
    fn default() -> (r: TorpedoMountType)
        ensures
            r == TorpedoMountType::FixedTubes,
    {
        TorpedoMountType::FixedTubes
    }
}

impl From<&str> for TorpedoMountType {
    fn from(index: &str) -> (r: TorpedoMountType) {
        if str_eq(index, "1") {
            TorpedoMountType::DeckSideTubes
        } else if str_eq(index, "2") {
            TorpedoMountType::CenterTubes
        } else if str_eq(index, "3") {
            TorpedoMountType::DeckReloads
        } else if str_eq(index, "4") {
            TorpedoMountType::BowTubes
        } else if str_eq(index, "5") {
            TorpedoMountType::SternTubes
        } else if str_eq(index, "6") {
            TorpedoMountType::BowAndSternTubes
        } else if str_eq(index, "7") {
            TorpedoMountType::SubmergedSideTubes
        } else if str_eq(index, "8") {
            TorpedoMountType::SubmergedReloads
        } else {
            TorpedoMountType::FixedTubes
        }
    }
}

impl FromSpecImpl<&str> for TorpedoMountType {
    open spec fn obeys_from_spec() -> bool {
        true
    }

    open spec fn from_spec(index: &str) -> TorpedoMountType {
        TorpedoMountType::of_code(index@)
    }
}

impl From<String> for TorpedoMountType {
    fn from(index: String) -> (r: TorpedoMountType) {
        TorpedoMountType::from(index.as_str())
    }
}

impl FromSpecImpl<String> for TorpedoMountType {
    open spec fn obeys_from_spec() -> bool {
        true
    }

    open spec fn from_spec(index: String) -> TorpedoMountType {
        TorpedoMountType::of_code(index@)
    }
}

} // verus!
