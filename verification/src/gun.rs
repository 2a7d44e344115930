//! Kinds of gun, of gun mount and of gun layout within a mount, with the
//! coefficients that each kind contributes to the weight formulas.
//!
//! Coefficients are held as whole numbers of millionths, so that they can be
//! compared exactly; `UNIT` is the number that stands for one.

use crate::text::str_eq;
use vstd::prelude::*;
use vstd::std_specs::convert::FromSpecImpl;
use vstd::string::*;

verus! {

/// The number that stands for a coefficient of one.
pub const UNIT: u32 = 1_000_000;

/// Kind of gun, by loading mechanism and role.
#[derive(Clone, Copy, Debug, PartialEq, Eq, Structural)]
pub enum GunType {
    MuzzleLoading,
    BreechLoading,
    QuickFiring,
    AntiAir,
    DualPurpose,
    RapidFire,
    MachineGun,
}

/// Kind of mount that carries the guns of a battery.
#[derive(Clone, Copy, Debug, PartialEq, Eq, Structural)]
pub enum MountType {
    Broadside,
    ColesTurret,
    OpenBarbette,
    ClosedBarbette,
    DeckAndHoist,
    Deck,
    Casemate,
}

/// Arrangement of the barrels within one mount.
#[derive(Clone, Copy, Debug, PartialEq, Eq, Structural)]
pub enum GunLayoutType {
    Single,
    Twin2Row,
    Quad4Row,
    Twin,
    TwoGun,
    Quad2Row,
    Triple,
    ThreeGun,
    Sex2Row,
    Quad,
    FourGun,
    Oct2Row,
    Quint,
    FiveGun,
    Dec2Row,
}

/// A coefficient that is either a whole number of millionths or half of the
/// ratio of a circle's circumference to its diameter.
#[derive(Clone, Copy, Debug, PartialEq, Eq, Structural)]
pub enum Coef {
    /// A whole number of millionths.
    Millionths(u32),
    /// Half of pi: the share of a circumference that faces one way.
    HalfPi,
}

impl GunType {
    /// The kind that a code of a SpringSharp ship file selects; an unknown code
    /// selects muzzle loading.
    pub open spec fn of_code(code: Seq<char>) -> GunType {
        if code == "1"@ {
            GunType::BreechLoading
        } else if code == "2"@ {
            GunType::QuickFiring
        } else if code == "3"@ {
            GunType::AntiAir
        } else if code == "4"@ {
            GunType::DualPurpose
        } else if code == "5"@ {
            GunType::RapidFire
        } else if code == "6"@ {
            GunType::MachineGun
        } else {
            GunType::MuzzleLoading
        }
    }

    /// Name of the kind, as the report prints it before the word "gun".
    pub open spec fn name(self) -> Seq<char> {
        match self {
            GunType::MuzzleLoading => "Muzzle loading"@,
            GunType::BreechLoading => "Breech loading"@,
            GunType::QuickFiring => "Quick-firing"@,
            GunType::AntiAir => "Anti-air"@,
            GunType::DualPurpose => "Dual-purpose"@,
            GunType::RapidFire => "Automatic rapid-fire"@,
            GunType::MachineGun => "Machine"@,
        }
    }

    /// Name of the kind, as the report prints it before the word "gun".
    pub fn to_string(&self) -> (s: String)
        ensures
            s@ == self.name(),
    {
        let s = match self {
            GunType::MuzzleLoading => "Muzzle loading",
            GunType::BreechLoading => "Breech loading",
            GunType::QuickFiring => "Quick-firing",
            GunType::AntiAir => "Anti-air",
            GunType::DualPurpose => "Dual-purpose",
            GunType::RapidFire => "Automatic rapid-fire",
            GunType::MachineGun => "Machine",
        };
        String::from_str(s)
    }

    /// Share of the face armour weight that a gun of this kind carries, in
    /// millionths.
    pub open spec fn spec_armor_face_wgt(self) -> u32 {
        match self {
            GunType::MuzzleLoading => 1_000_000,
            GunType::BreechLoading => 1_000_000,
            GunType::QuickFiring => 1_000_000,
            GunType::AntiAir => 333_000,
            GunType::DualPurpose => 1_000_000,
            GunType::RapidFire => 1_000_000,
            GunType::MachineGun => 1_000_000,
        }
    }

    /// Share of the face armour weight that a gun of this kind carries, in
    /// millionths.
    pub fn armor_face_wgt(&self) -> (r: u32)
        ensures
            r == self.spec_armor_face_wgt(),
    {
        match self {
            GunType::MuzzleLoading => 1_000_000,
            GunType::BreechLoading => 1_000_000,
            GunType::QuickFiring => 1_000_000,
            GunType::AntiAir => 333_000,
            GunType::DualPurpose => 1_000_000,
            GunType::RapidFire => 1_000_000,
            GunType::MachineGun => 1_000_000,
        }
    }

    /// Share of the face armour weight where the mount has no other armour,
    /// in millionths.
    pub open spec fn spec_armor_face_wgt_if_no_back(self) -> u32 {
        match self {
            GunType::MuzzleLoading => 1_000_000,
            GunType::BreechLoading => 1_000_000,
            GunType::QuickFiring => 1_000_000,
            GunType::AntiAir => 1_000_000,
            GunType::DualPurpose => 1_000_000,
            GunType::RapidFire => 1_000_000,
            GunType::MachineGun => 333_000,
        }
    }

    /// Share of the face armour weight where the mount has no other armour,
    /// in millionths.
    pub fn armor_face_wgt_if_no_back(&self) -> (r: u32)
        ensures
            r == self.spec_armor_face_wgt_if_no_back(),
    {
        match self {
            GunType::MuzzleLoading => 1_000_000,
            GunType::BreechLoading => 1_000_000,
            GunType::QuickFiring => 1_000_000,
            GunType::AntiAir => 1_000_000,
            GunType::DualPurpose => 1_000_000,
            GunType::RapidFire => 1_000_000,
            GunType::MachineGun => 333_000,
        }
    }

    /// Mount weight multiplier of this kind on a light mount, in millionths.
    pub open spec fn spec_wgt_sm(self) -> u32 {
        match self {
            GunType::MuzzleLoading => 900_000,
            GunType::BreechLoading => 1_000_000,
            GunType::QuickFiring => 1_350_000,
            GunType::AntiAir => 1_440_000,
            GunType::DualPurpose => 1_570_000,
            GunType::RapidFire => 2_160_000,
            GunType::MachineGun => 1_000_000,
        }
    }

    /// Mount weight multiplier of this kind on a light mount, in millionths.
    pub fn wgt_sm(&self) -> (r: u32)
        ensures
            r == self.spec_wgt_sm(),
    {
        match self {
            GunType::MuzzleLoading => 900_000,
            GunType::BreechLoading => 1_000_000,
            GunType::QuickFiring => 1_350_000,
            GunType::AntiAir => 1_440_000,
            GunType::DualPurpose => 1_570_000,
            GunType::RapidFire => 2_160_000,
            GunType::MachineGun => 1_000_000,
        }
    }

    /// Mount weight multiplier of this kind on a heavy mount, in millionths.
    pub open spec fn spec_wgt_lg(self) -> u32 {
        match self {
            GunType::MuzzleLoading => 980_000,
            GunType::BreechLoading => 1_000_000,
            GunType::QuickFiring => 1_000_000,
            GunType::AntiAir => 1_000_000,
            GunType::DualPurpose => 1_100_000,
            GunType::RapidFire => 1_500_000,
            GunType::MachineGun => 1_000_000,
        }
    }

    /// Mount weight multiplier of this kind on a heavy mount, in millionths.
    pub fn wgt_lg(&self) -> (r: u32)
        ensures
            r == self.spec_wgt_lg(),
    {
        match self {
            GunType::MuzzleLoading => 980_000,
            GunType::BreechLoading => 1_000_000,
            GunType::QuickFiring => 1_000_000,
            GunType::AntiAir => 1_000_000,
            GunType::DualPurpose => 1_100_000,
            GunType::RapidFire => 1_500_000,
            GunType::MachineGun => 1_000_000,
        }
    }

    /// Mount weight multiplier of this kind on a mount of kind `mount`, in
    /// millionths: the light one where the mount carries less than six
    /// tenths of the gun weight high in the ship, else the heavy one.
    pub open spec fn spec_wgt_on(self, mount: MountType) -> u32 {
        if mount.spec_wgt_adj() < 600_000 {
            self.spec_wgt_sm()
        } else {
            self.spec_wgt_lg()
        }
    }

    /// Mount weight multiplier of this kind on a mount of kind `mount`, in
    /// millionths.
    pub fn wgt_on(&self, mount: MountType) -> (r: u32)
        ensures
            r == self.spec_wgt_on(mount),
    {
        if mount.wgt_adj() < 600_000 {
            self.wgt_sm()
        } else {
            self.wgt_lg()
        }
    }
}

impl MountType {
    /// The kind that a code of a SpringSharp ship file selects; an unknown code
    /// selects the broadside mount.
    pub open spec fn of_code(code: Seq<char>) -> MountType {
        if code == "1"@ {
            MountType::ColesTurret
        } else if code == "2"@ {
            MountType::OpenBarbette
        } else if code == "3"@ {
            MountType::ClosedBarbette
        } else if code == "4"@ {
            MountType::DeckAndHoist
        } else if code == "5"@ {
            MountType::Deck
        } else if code == "6"@ {
            MountType::Casemate
        } else {
            MountType::Broadside
        }
    }

    /// Name of the kind, as the report prints it before the word "mount".
    pub open spec fn name(self) -> Seq<char> {
        match self {
            MountType::Broadside => "broadside"@,
            MountType::ColesTurret => "Coles/Ericsson turret"@,
            MountType::OpenBarbette => "open barbette"@,
            MountType::ClosedBarbette => "turret on barbette"@,
            MountType::DeckAndHoist => "deck and hoist"@,
            MountType::Deck => "deck"@,
            MountType::Casemate => "casemate"@,
        }
    }

    /// Name of the kind, as the report prints it before the word "mount".
    pub fn to_string(&self) -> (s: String)
        ensures
            s@ == self.name(),
    {
        let s = match self {
            MountType::Broadside => "broadside",
            MountType::ColesTurret => "Coles/Ericsson turret",
            MountType::OpenBarbette => "open barbette",
            MountType::ClosedBarbette => "turret on barbette",
            MountType::DeckAndHoist => "deck and hoist",
            MountType::Deck => "deck",
            MountType::Casemate => "casemate",
        };
        String::from_str(s)
    }

    /// Weight coefficient of the face armour: the share of the circumference
    /// of the mount that the face covers.
    pub open spec fn spec_armor_face_wgt(self) -> Coef {
        match self {
            MountType::Broadside => Coef::Millionths(1_000_000),
            MountType::ColesTurret => Coef::HalfPi,
            MountType::OpenBarbette => Coef::Millionths(0),
            MountType::ClosedBarbette => Coef::Millionths(500_000),
            MountType::DeckAndHoist => Coef::Millionths(500_000),
            MountType::Deck => Coef::Millionths(500_000),
            MountType::Casemate => Coef::Millionths(1_000_000),
        }
    }

    /// Weight coefficient of the face armour: the share of the circumference
    /// of the mount that the face covers.
    pub fn armor_face_wgt(&self) -> (r: Coef)
        ensures
            r == self.spec_armor_face_wgt(),
    {
        match self {
            MountType::Broadside => Coef::Millionths(1_000_000),
            MountType::ColesTurret => Coef::HalfPi,
            MountType::OpenBarbette => Coef::Millionths(0),
            MountType::ClosedBarbette => Coef::Millionths(500_000),
            MountType::DeckAndHoist => Coef::Millionths(500_000),
            MountType::Deck => Coef::Millionths(500_000),
            MountType::Casemate => Coef::Millionths(1_000_000),
        }
    }

    /// Face armour weight that is added where the mount has no other armour,
    /// in millionths.
    pub open spec fn spec_armor_face_wgt_if_no_back(self) -> u32 {
        match self {
            MountType::Broadside => 0,
            MountType::ColesTurret => 0,
            MountType::OpenBarbette => 0,
            MountType::ClosedBarbette => 1_000_000,
            MountType::DeckAndHoist => 1_000_000,
            MountType::Deck => 1_000_000,
            MountType::Casemate => 0,
        }
    }

    /// Face armour weight that is added where the mount has no other armour,
    /// in millionths.
    pub fn armor_face_wgt_if_no_back(&self) -> (r: u32)
        ensures
            r == self.spec_armor_face_wgt_if_no_back(),
    {
        match self {
            MountType::Broadside => 0,
            MountType::ColesTurret => 0,
            MountType::OpenBarbette => 0,
            MountType::ClosedBarbette => 1_000_000,
            MountType::DeckAndHoist => 1_000_000,
            MountType::Deck => 1_000_000,
            MountType::Casemate => 0,
        }
    }

    /// Height of the gunhouse relative to the calibre rule, in millionths.
    pub open spec fn spec_gunhouse_hgt_factor(self) -> u32 {
        match self {
            MountType::Broadside => 1_000_000,
            MountType::ColesTurret => 2_000_000,
            MountType::OpenBarbette => 1_000_000,
            MountType::ClosedBarbette => 1_000_000,
            MountType::DeckAndHoist => 1_000_000,
            MountType::Deck => 1_000_000,
            MountType::Casemate => 1_000_000,
        }
    }

    /// Height of the gunhouse relative to the calibre rule, in millionths.
    pub fn gunhouse_hgt_factor(&self) -> (r: u32)
        ensures
            r == self.spec_gunhouse_hgt_factor(),
    {
        match self {
            MountType::Broadside => 1_000_000,
            MountType::ColesTurret => 2_000_000,
            MountType::OpenBarbette => 1_000_000,
            MountType::ClosedBarbette => 1_000_000,
            MountType::DeckAndHoist => 1_000_000,
            MountType::Deck => 1_000_000,
            MountType::Casemate => 1_000_000,
        }
    }

    /// Weight coefficient of the armour on the sides and rear of the gunhouse,
    /// in millionths.
    pub open spec fn spec_armor_back_wgt(self) -> u32 {
        match self {
            MountType::Broadside => 0,
            MountType::ColesTurret => 0,
            MountType::OpenBarbette => 0,
            MountType::ClosedBarbette => 2_500_000,
            MountType::DeckAndHoist => 2_500_000,
            MountType::Deck => 2_500_000,
            MountType::Casemate => 0,
        }
    }

    /// Weight coefficient of the armour on the sides and rear of the gunhouse,
    /// in millionths.
    pub fn armor_back_wgt(&self) -> (r: u32)
        ensures
            r == self.spec_armor_back_wgt(),
    {
        match self {
            MountType::Broadside => 0,
            MountType::ColesTurret => 0,
            MountType::OpenBarbette => 0,
            MountType::ClosedBarbette => 2_500_000,
            MountType::DeckAndHoist => 2_500_000,
            MountType::Deck => 2_500_000,
            MountType::Casemate => 0,
        }
    }

    /// Weight coefficient of the armour on the gunhouse roof, in millionths.
    pub open spec fn spec_armor_back_wgt_factor(self) -> u32 {
        match self {
            MountType::Broadside => 750_000,
            MountType::ColesTurret => 1_000_000,
            MountType::OpenBarbette => 750_000,
            MountType::ClosedBarbette => 750_000,
            MountType::DeckAndHoist => 750_000,
            MountType::Deck => 750_000,
            MountType::Casemate => 750_000,
        }
    }

    /// Weight coefficient of the armour on the gunhouse roof, in millionths.
    pub fn armor_back_wgt_factor(&self) -> (r: u32)
        ensures
            r == self.spec_armor_back_wgt_factor(),
    {
        match self {
            MountType::Broadside => 750_000,
            MountType::ColesTurret => 1_000_000,
            MountType::OpenBarbette => 750_000,
            MountType::ClosedBarbette => 750_000,
            MountType::DeckAndHoist => 750_000,
            MountType::Deck => 750_000,
            MountType::Casemate => 750_000,
        }
    }

    /// Weight coefficient of the barbette or hoist armour, in millionths.
    pub open spec fn spec_armor_barb_wgt(self) -> u32 {
        match self {
            MountType::Broadside => 0,
            MountType::ColesTurret => 0,
            MountType::OpenBarbette => 641_600,
            MountType::ClosedBarbette => 500_000,
            MountType::DeckAndHoist => 100_000,
            MountType::Deck => 0,
            MountType::Casemate => 100_000,
        }
    }

    /// Weight coefficient of the barbette or hoist armour, in millionths.
    pub fn armor_barb_wgt(&self) -> (r: u32)
        ensures
            r == self.spec_armor_barb_wgt(),
    {
        match self {
            MountType::Broadside => 0,
            MountType::ColesTurret => 0,
            MountType::OpenBarbette => 641_600,
            MountType::ClosedBarbette => 500_000,
            MountType::DeckAndHoist => 100_000,
            MountType::Deck => 0,
            MountType::Casemate => 100_000,
        }
    }

    /// Weight of the mount relative to the weight of its guns, in millionths.
    pub open spec fn spec_wgt(self) -> u32 {
        match self {
            MountType::Broadside => 830_000,
            MountType::ColesTurret => 3_500_000,
            MountType::OpenBarbette => 3_330_000,
            MountType::ClosedBarbette => 3_500_000,
            MountType::DeckAndHoist => 3_150_000,
            MountType::Deck => 1_080_000,
            MountType::Casemate => 1_080_000,
        }
    }

    /// Weight of the mount relative to the weight of its guns, in millionths.
    pub fn wgt(&self) -> (r: u32)
        ensures
            r == self.spec_wgt(),
    {
        match self {
            MountType::Broadside => 830_000,
            MountType::ColesTurret => 3_500_000,
            MountType::OpenBarbette => 3_330_000,
            MountType::ClosedBarbette => 3_500_000,
            MountType::DeckAndHoist => 3_150_000,
            MountType::Deck => 1_080_000,
            MountType::Casemate => 1_080_000,
        }
    }

    /// Share of the gun weight that the mount carries high in the ship, in
    /// millionths.
    pub open spec fn spec_wgt_adj(self) -> u32 {
        match self {
            MountType::Broadside => 500_000,
            MountType::ColesTurret => 1_000_000,
            MountType::OpenBarbette => 700_000,
            MountType::ClosedBarbette => 1_000_000,
            MountType::DeckAndHoist => 1_000_000,
            MountType::Deck => 500_000,
            MountType::Casemate => 500_000,
        }
    }

    /// Share of the gun weight that the mount carries high in the ship, in
    /// millionths.
    pub fn wgt_adj(&self) -> (r: u32)
        ensures
            r == self.spec_wgt_adj(),
    {
        match self {
            MountType::Broadside => 500_000,
            MountType::ColesTurret => 1_000_000,
            MountType::OpenBarbette => 700_000,
            MountType::ClosedBarbette => 1_000_000,
            MountType::DeckAndHoist => 1_000_000,
            MountType::Deck => 500_000,
            MountType::Casemate => 500_000,
        }
    }

    /// Whether the mount turns on a structure of its own: a turret or a
    /// barbette, or a deck mount with a hoist.
    pub open spec fn is_turning(self) -> bool {
        self is ColesTurret || self is OpenBarbette || self is ClosedBarbette
            || self is DeckAndHoist
    }

    /// Largest number of barrels per mount that the barbette armour rule
    /// takes into account: four where the mount carries more than half of
    /// the gun weight high in the ship, else five.
    pub open spec fn spec_barbette_gun_cap(self) -> u32 {
        if self.spec_wgt_adj() > 500_000 {
            4
        } else {
            5
        }
    }

    /// Largest number of barrels per mount that the barbette armour rule
    /// takes into account.
    pub fn barbette_gun_cap(&self) -> (r: u32)
        ensures
            r == self.spec_barbette_gun_cap(),
            r == 4 <==> self.is_turning(),
    {
        if self.wgt_adj() > 500_000 {
            4
        } else {
            5
        }
    }

    /// Number of barrels per mount that the barbette armour rule counts for
    /// `guns` barrels in `mounts` mounts: the whole average, up to the cap of
    /// the kind of mount. There is none without mounts.
    pub open spec fn spec_barbette_guns(self, guns: u32, mounts: u32) -> Option<u32> {
        if mounts == 0 {
            None
        } else if guns / mounts < self.spec_barbette_gun_cap() {
            Some((guns / mounts) as u32)
        } else {
            Some(self.spec_barbette_gun_cap())
        }
    }

    /// Number of barrels per mount that the barbette armour rule counts for
    /// `guns` barrels in `mounts` mounts, or `None` without mounts.
    pub fn barbette_guns(&self, guns: u32, mounts: u32) -> (r: Option<u32>)
        ensures
            r == self.spec_barbette_guns(guns, mounts),
            r matches Some(n) ==> n <= 5 && n * mounts <= guns,
    {
        if mounts == 0 {
            return None;
        }
        let cap = self.barbette_gun_cap();
        let avg = guns / mounts;
        assert(avg * mounts <= guns) by (nonlinear_arith)
            requires
                avg == guns / mounts,
                mounts > 0,
        ;
        if avg < cap {
            Some(avg)
        } else {
            assert(cap * mounts <= avg * mounts) by (nonlinear_arith)
                requires
                    cap <= avg,
            ;
            Some(cap)
        }
    }

    /// Whether the guns of a mount of this kind add to the concentration of
    /// weight in few mounts: those that carry more than six tenths of the gun
    /// weight high in the ship.
    pub fn concentrates(&self) -> (r: bool)
        ensures
            r == (self.spec_wgt_adj() > 600_000),
            r == self.is_turning(),
    {
        self.wgt_adj() > 600_000
    }
}

impl GunLayoutType {
    /// The layout that a code of a SpringSharp ship file selects; an unknown code
    /// selects the single mount.
    pub open spec fn of_code(code: Seq<char>) -> GunLayoutType {
        if code == "1"@ {
            GunLayoutType::Twin2Row
        } else if code == "2"@ {
            GunLayoutType::Quad4Row
        } else if code == "3"@ {
            GunLayoutType::Twin
        } else if code == "4"@ {
            GunLayoutType::TwoGun
        } else if code == "5"@ {
            GunLayoutType::Quad2Row
        } else if code == "6"@ {
            GunLayoutType::Triple
        } else if code == "7"@ {
            GunLayoutType::ThreeGun
        } else if code == "8"@ {
            GunLayoutType::Sex2Row
        } else if code == "9"@ {
            GunLayoutType::Quad
        } else if code == "10"@ {
            GunLayoutType::FourGun
        } else if code == "11"@ {
            GunLayoutType::Oct2Row
        } else if code == "12"@ {
            GunLayoutType::Quint
        } else if code == "13"@ {
            GunLayoutType::FiveGun
        } else if code == "14"@ {
            GunLayoutType::Dec2Row
        } else {
            GunLayoutType::Single
        }
    }

    /// Name of the layout, as the report prints it before the word "mount".
    pub open spec fn name(self) -> Seq<char> {
        match self {
            GunLayoutType::Single => "Single"@,
            GunLayoutType::Twin2Row => "2 row, twin"@,
            GunLayoutType::Quad4Row => "4 row, quad"@,
            GunLayoutType::Twin => "Twin"@,
            GunLayoutType::TwoGun => "2-gun"@,
            GunLayoutType::Quad2Row => "2 row, quad"@,
            GunLayoutType::Triple => "Triple"@,
            GunLayoutType::ThreeGun => "3-gun"@,
            GunLayoutType::Sex2Row => "2 row, sextuple"@,
            GunLayoutType::Quad => "quad"@,
            GunLayoutType::FourGun => "4-gun"@,
            GunLayoutType::Oct2Row => "2 row, octuple"@,
            GunLayoutType::Quint => "quintuple"@,
            GunLayoutType::FiveGun => "5-gun"@,
            GunLayoutType::Dec2Row => "2 row, decuple"@,
        }
    }

    /// Name of the layout, as the report prints it before the word "mount".
    pub fn to_string(&self) -> (s: String)
        ensures
            s@ == self.name(),
    {
        let s = match self {
            GunLayoutType::Single => "Single",
            GunLayoutType::Twin2Row => "2 row, twin",
            GunLayoutType::Quad4Row => "4 row, quad",
            GunLayoutType::Twin => "Twin",
            GunLayoutType::TwoGun => "2-gun",
            GunLayoutType::Quad2Row => "2 row, quad",
            GunLayoutType::Triple => "Triple",
            GunLayoutType::ThreeGun => "3-gun",
            GunLayoutType::Sex2Row => "2 row, sextuple",
            GunLayoutType::Quad => "quad",
            GunLayoutType::FourGun => "4-gun",
            GunLayoutType::Oct2Row => "2 row, octuple",
            GunLayoutType::Quint => "quintuple",
            GunLayoutType::FiveGun => "5-gun",
            GunLayoutType::Dec2Row => "2 row, decuple",
        };
        String::from_str(s)
    }

    /// Number of barrels in one mount.
    pub open spec fn spec_guns_per(self) -> u32 {
        match self {
            GunLayoutType::Single => 1,
            GunLayoutType::Twin2Row => 2,
            GunLayoutType::Quad4Row => 4,
            GunLayoutType::Twin => 2,
            GunLayoutType::TwoGun => 2,
            GunLayoutType::Quad2Row => 4,
            GunLayoutType::Triple => 3,
            GunLayoutType::ThreeGun => 3,
            GunLayoutType::Sex2Row => 6,
            GunLayoutType::Quad => 4,
            GunLayoutType::FourGun => 4,
            GunLayoutType::Oct2Row => 8,
            GunLayoutType::Quint => 5,
            GunLayoutType::FiveGun => 5,
            GunLayoutType::Dec2Row => 10,
        }
    }

    /// Number of barrels in one mount.
    pub fn guns_per(&self) -> (r: u32)
        ensures
            r == self.spec_guns_per(),
    {
        match self {
            GunLayoutType::Single => 1,
            GunLayoutType::Twin2Row => 2,
            GunLayoutType::Quad4Row => 4,
            GunLayoutType::Twin => 2,
            GunLayoutType::TwoGun => 2,
            GunLayoutType::Quad2Row => 4,
            GunLayoutType::Triple => 3,
            GunLayoutType::ThreeGun => 3,
            GunLayoutType::Sex2Row => 6,
            GunLayoutType::Quad => 4,
            GunLayoutType::FourGun => 4,
            GunLayoutType::Oct2Row => 8,
            GunLayoutType::Quint => 5,
            GunLayoutType::FiveGun => 5,
            GunLayoutType::Dec2Row => 10,
        }
    }

    /// The two coefficients of the mount diameter rule, in millionths: the
    /// multiple of the calibre, and the exponent of its reciprocal.
    pub open spec fn spec_diameter_calc_nums(self) -> (u32, u32) {
        match self {
            GunLayoutType::Single => (1_440_000, 609_725),
            GunLayoutType::Twin2Row => (1_440_000, 609_725),
            GunLayoutType::Quad4Row => (1_440_000, 609_725),
            GunLayoutType::Twin => (1_520_000, 420_500),
            GunLayoutType::TwoGun => (1_520_000, 420_500),
            GunLayoutType::Quad2Row => (1_520_000, 420_500),
            GunLayoutType::Triple => (1_640_000, 290_000),
            GunLayoutType::ThreeGun => (1_640_000, 290_000),
            GunLayoutType::Sex2Row => (1_640_000, 290_000),
            GunLayoutType::Quad => (1_800_000, 200_000),
            GunLayoutType::FourGun => (1_800_000, 200_000),
            GunLayoutType::Oct2Row => (1_800_000, 200_000),
            GunLayoutType::Quint => (2_000_000, 140_000),
            GunLayoutType::FiveGun => (2_000_000, 140_000),
            GunLayoutType::Dec2Row => (2_000_000, 140_000),
        }
    }

    /// The two coefficients of the mount diameter rule, in millionths: the
    /// multiple of the calibre, and the exponent of its reciprocal.
    pub fn diameter_calc_nums(&self) -> (r: (u32, u32))
        ensures
            r == self.spec_diameter_calc_nums(),
    {
        match self {
            GunLayoutType::Single => (1_440_000, 609_725),
            GunLayoutType::Twin2Row => (1_440_000, 609_725),
            GunLayoutType::Quad4Row => (1_440_000, 609_725),
            GunLayoutType::Twin => (1_520_000, 420_500),
            GunLayoutType::TwoGun => (1_520_000, 420_500),
            GunLayoutType::Quad2Row => (1_520_000, 420_500),
            GunLayoutType::Triple => (1_640_000, 290_000),
            GunLayoutType::ThreeGun => (1_640_000, 290_000),
            GunLayoutType::Sex2Row => (1_640_000, 290_000),
            GunLayoutType::Quad => (1_800_000, 200_000),
            GunLayoutType::FourGun => (1_800_000, 200_000),
            GunLayoutType::Oct2Row => (1_800_000, 200_000),
            GunLayoutType::Quint => (2_000_000, 140_000),
            GunLayoutType::FiveGun => (2_000_000, 140_000),
            GunLayoutType::Dec2Row => (2_000_000, 140_000),
        }
    }

    /// Weight of a mount of this layout relative to separate barrels, in
    /// millionths.
    pub open spec fn spec_wgt_adj(self) -> u32 {
        match self {
            GunLayoutType::Single => 1_000_000,
            GunLayoutType::Twin2Row => 1_000_000,
            GunLayoutType::Quad4Row => 1_000_000,
            GunLayoutType::Twin => 750_000,
            GunLayoutType::TwoGun => 1_000_000,
            GunLayoutType::Quad2Row => 1_000_000,
            GunLayoutType::Triple => 750_000,
            GunLayoutType::ThreeGun => 1_000_000,
            GunLayoutType::Sex2Row => 1_000_000,
            GunLayoutType::Quad => 750_000,
            GunLayoutType::FourGun => 1_000_000,
            GunLayoutType::Oct2Row => 1_000_000,
            GunLayoutType::Quint => 750_000,
            GunLayoutType::FiveGun => 1_000_000,
            GunLayoutType::Dec2Row => 1_000_000,
        }
    }

    /// Weight of a mount of this layout relative to separate barrels, in
    /// millionths.
    pub fn wgt_adj(&self) -> (r: u32)
        ensures
            r == self.spec_wgt_adj(),
    {
        match self {
            GunLayoutType::Single => 1_000_000,
            GunLayoutType::Twin2Row => 1_000_000,
            GunLayoutType::Quad4Row => 1_000_000,
            GunLayoutType::Twin => 750_000,
            GunLayoutType::TwoGun => 1_000_000,
            GunLayoutType::Quad2Row => 1_000_000,
            GunLayoutType::Triple => 750_000,
            GunLayoutType::ThreeGun => 1_000_000,
            GunLayoutType::Sex2Row => 1_000_000,
            GunLayoutType::Quad => 750_000,
            GunLayoutType::FourGun => 1_000_000,
            GunLayoutType::Oct2Row => 1_000_000,
            GunLayoutType::Quint => 750_000,
            GunLayoutType::FiveGun => 1_000_000,
            GunLayoutType::Dec2Row => 1_000_000,
        }
    }
}

impl Default for GunType {
    fn default() -> (r: GunType)
        ensures
            r == GunType::BreechLoading,
    {
        GunType::BreechLoading
    }
}

impl From<&str> for GunType {
    fn from(index: &str) -> (r: GunType) {
        if str_eq(index, "1") {
            GunType::BreechLoading
        } else if str_eq(index, "2") {
            GunType::QuickFiring
        } else if str_eq(index, "3") {
            GunType::AntiAir
        } else if str_eq(index, "4") {
            GunType::DualPurpose
        } else if str_eq(index, "5") {
            GunType::RapidFire
        } else if str_eq(index, "6") {
            GunType::MachineGun
        } else {
            GunType::MuzzleLoading
        }
    }
}

impl FromSpecImpl<&str> for GunType {
    open spec fn obeys_from_spec() -> bool {
        true
    }

    open spec fn from_spec(index: &str) -> GunType {
        GunType::of_code(index@)
    }
}

impl From<String> for GunType {
    fn from(index: String) -> (r: GunType) {
        GunType::from(index.as_str())
    }
}

impl FromSpecImpl<String> for GunType {
    open spec fn obeys_from_spec() -> bool {
        true
    }

    open spec fn from_spec(index: String) -> GunType {
        GunType::of_code(index@)
    }
}

impl Default for MountType {
    fn default() -> (r: MountType)
        ensures
            r == MountType::Deck,
    {
        MountType::Deck
    }
}

impl From<&str> for MountType {
    fn from(index: &str) -> (r: MountType) {
        if str_eq(index, "1") {
            MountType::ColesTurret
        } else if str_eq(index, "2") {
            MountType::OpenBarbette
        } else if str_eq(index, "3") {
            MountType::ClosedBarbette
        } else if str_eq(index, "4") {
            MountType::DeckAndHoist
        } else if str_eq(index, "5") {
            MountType::Deck
        } else if str_eq(index, "6") {
            MountType::Casemate
        } else {
            MountType::Broadside
        }
    }
}

impl FromSpecImpl<&str> for MountType {
    open spec fn obeys_from_spec() -> bool {
        true
    }

    open spec fn from_spec(index: &str) -> MountType {
        MountType::of_code(index@)
    }
}

impl From<String> for MountType {
    fn from(index: String) -> (r: MountType) {
        MountType::from(index.as_str())
    }
}

impl FromSpecImpl<String> for MountType {
    open spec fn obeys_from_spec() -> bool {
        true
    }

    open spec fn from_spec(index: String) -> MountType {
        MountType::of_code(index@)
    }
}

impl Default for GunLayoutType {
    fn default() -> (r: GunLayoutType)
        ensures
            r == GunLayoutType::Single,
    {
        GunLayoutType::Single
    }
}

impl From<&str> for GunLayoutType {
    fn from(index: &str) -> (r: GunLayoutType) {
        if str_eq(index, "1") {
            GunLayoutType::Twin2Row
        } else if str_eq(index, "2") {
            GunLayoutType::Quad4Row
        } else if str_eq(index, "3") {
            GunLayoutType::Twin
        } else if str_eq(index, "4") {
            GunLayoutType::TwoGun
        } else if str_eq(index, "5") {
            GunLayoutType::Quad2Row
        } else if str_eq(index, "6") {
            GunLayoutType::Triple
        } else if str_eq(index, "7") {
            GunLayoutType::ThreeGun
        } else if str_eq(index, "8") {
            GunLayoutType::Sex2Row
        } else if str_eq(index, "9") {
            GunLayoutType::Quad
        } else if str_eq(index, "10") {
            GunLayoutType::FourGun
        } else if str_eq(index, "11") {
            GunLayoutType::Oct2Row
        } else if str_eq(index, "12") {
            GunLayoutType::Quint
        } else if str_eq(index, "13") {
            GunLayoutType::FiveGun
        } else if str_eq(index, "14") {
            GunLayoutType::Dec2Row
        } else {
            GunLayoutType::Single
        }
    }
}

impl FromSpecImpl<&str> for GunLayoutType {
    open spec fn obeys_from_spec() -> bool {
        true
    }

    open spec fn from_spec(index: &str) -> GunLayoutType {
        GunLayoutType::of_code(index@)
    }
}

impl From<String> for GunLayoutType {
    fn from(index: String) -> (r: GunLayoutType) {
        GunLayoutType::from(index.as_str())
    }
}

impl FromSpecImpl<String> for GunLayoutType {
    open spec fn obeys_from_spec() -> bool {
        true
    }

    open spec fn from_spec(index: String) -> GunLayoutType {
        GunLayoutType::of_code(index@)
    }
}

/// A mount holds between one and ten barrels.
pub proof fn lemma_guns_per_bounds(layout: GunLayoutType)
    ensures
        1 <= layout.spec_guns_per() <= 10,
{
}

} // verus!
