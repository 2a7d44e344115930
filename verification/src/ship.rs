//! Judgements on the ship as a whole: the type of ship that its main
//! batteries make it, and the remarks on its seakeeping.

use crate::battery::{Battery, SubBattery};
use crate::distribution::GunDistributionType;
use crate::gun::MountType;
use crate::text::{join, joined, texts};
use vstd::prelude::*;
use vstd::string::*;

verus! {

/// Class of seakeeping.
#[derive(Clone, Copy, Debug, PartialEq, Eq, Structural)]
pub enum SeaType {
    BadSea,
    PoorSea,
    FineSea,
    GoodSea,
    /// The seakeeping figure falls in none of the classes.
    Error,
}

impl Default for SeaType {
    fn default() -> (r: SeaType)
        ensures
            r == SeaType::BadSea,
    {
        SeaType::BadSea
    }
}

impl SubBattery {
    /// Whether the group has any mount.
    pub fn has_mounts(&self) -> (r: bool)
        ensures
            r == (self.total_mounts() > 0),
    {
        self.above > 0 || self.on > 0 || self.below > 0
    }
}

impl Battery {
    /// Whether the battery is spread evenly over the ship in three or four
    /// mounts: one of its groups is placed evenly, on the centreline or on
    /// the sides.
    pub open spec fn spec_spread_in_few(self) -> bool {
        &&& (self.groups@[0].distribution is CenterlineEven || self.groups@[0].distribution
            is SidesEven || self.groups@[1].distribution is CenterlineEven
            || self.groups@[1].distribution is SidesEven)
        &&& (self.mount_num == 3 || self.mount_num == 4)
    }

    /// Whether the battery is spread evenly over the ship in three or four
    /// mounts, so that the weight of its superfiring mounts bears on the
    /// length of the hull.
    pub fn spread_in_few(&self) -> (r: bool)
        requires
            self.wf(),
        ensures
            r == self.spec_spread_in_few(),
    {
        let d0 = self.groups[0].distribution;
        let d1 = self.groups[1].distribution;
        (d0 == GunDistributionType::CenterlineEven || d0 == GunDistributionType::SidesEven || d1
            == GunDistributionType::CenterlineEven || d1 == GunDistributionType::SidesEven) && (
        self.mount_num == 3 || self.mount_num == 4)
    }

    /// Whether the mounts of the battery are massed along the length of the
    /// ship: the only group with mounts has a placement that concentrates
    /// them, or both groups have mounts and `positions_close` says that they
    /// stand less than a fifth of the length apart.
    pub open spec fn spec_massed(self, positions_close: bool) -> bool {
        let g0 = self.groups@[0];
        let g1 = self.groups@[1];
        ||| (g0.total_mounts() > 0 && g1.total_mounts() == 0 && g0.distribution.is_concentrated())
        ||| (g1.total_mounts() > 0 && g0.total_mounts() == 0 && g1.distribution.is_concentrated())
        ||| (g0.total_mounts() > 0 && g1.total_mounts() > 0 && positions_close)
    }

    /// Whether the mounts of the battery are massed along the length of the
    /// ship.
    pub fn massed(&self, positions_close: bool) -> (r: bool)
        requires
            self.wf(),
        ensures
            r == self.spec_massed(positions_close),
    {
        let g0 = &self.groups[0];
        let g1 = &self.groups[1];
        (g0.has_mounts() && !g1.has_mounts() && g0.distribution.super_factor_long()) || (
        g1.has_mounts() && !g0.has_mounts() && g1.distribution.super_factor_long()) || (
        g0.has_mounts() && g1.has_mounts() && positions_close)
    }
}

/// What the type of ship reads of one of the three first batteries. The
/// mounts below the waterline are those of the first group of the battery
/// and of the second group of the main battery.
pub struct BroadsideFacts {
    /// The battery stands in broadside mounts.
    pub broad: bool,
    /// Mounts stand below the waterline.
    pub below: bool,
    /// The mounts carry face armour.
    pub face: bool,
}

/// What `ship_type` reads of battery `b`, of which `face` says whether its
/// mounts carry face armour, on a ship with the main battery `main`.
pub open spec fn broadside_facts(b: Battery, main: Battery, face: bool) -> BroadsideFacts {
    BroadsideFacts {
        broad: b.mount_kind is Broadside,
        below: b.groups@[0].below + main.groups@[1].below > 0,
        face,
    }
}

/// The names of the historical types that the ship belongs to, in the order
/// in which the report lists them.
///
/// A ship with open barbettes in its main or secondary battery is a barbette
/// ship. One whose first group of main mounts stands on the centreline of
/// the foredeck, or at the ends of the sides with the majority forward, is a
/// central citadel ship. One with
/// broadside mounts in any of the three batteries is, with a belt, an
/// armoured casemate ship where a broadside battery carries face armour,
/// else a broadside ironclad where the forward decks are short and a central
/// battery ironclad where they are not; without a belt it is unarmoured. It
/// is a frigate where a broadside battery has mounts below the waterline,
/// else a corvette.
pub open spec fn ship_type_parts(
    main: BroadsideFacts,
    sec: BroadsideFacts,
    ter: BroadsideFacts,
    barbette: bool,
    citadel: bool,
    has_belt: bool,
    short_fwd: bool,
) -> Seq<Seq<char>> {
    let frigate = (main.broad && main.below) || (sec.broad && sec.below) || (ter.broad
        && ter.below);
    let casemate = (main.broad && main.face) || (sec.broad && sec.face) || (ter.broad && ter.face);
    (if barbette {
        seq!["Barbette Ship"@]
    } else {
        Seq::<Seq<char>>::empty()
    }) + (if citadel {
        seq!["Central Citadel Ship"@]
    } else {
        Seq::<Seq<char>>::empty()
    }) + (if main.broad || sec.broad || ter.broad {
        seq![
            if has_belt {
                if casemate {
                    "Armoured Casemate Ship"@
                } else if short_fwd {
                    if frigate {
                        "Armoured Frigate (Broadside Ironclad)"@
                    } else {
                        "Armoured Corvette (Broadside Ironclad)"@
                    }
                } else if frigate {
                    "Armoured Frigate (Central Battery Ironclad)"@
                } else {
                    "Armoured Corvette (Central Battery Ironclad)"@
                }
            } else if frigate {
                "Frigate (Unarmoured)"@
            } else {
                "Corvette (Unarmoured)"@
            },
        ]
    } else {
        Seq::<Seq<char>>::empty()
    })
}

/// The historical types that the ship belongs to, one on each line.
///
/// `main`, `sec` and `ter` are the three first batteries, and the three
/// `face` flags say whether their mounts carry face armour. `has_belt` says
/// whether main, end and upper belt weigh anything together, `short_fwd`
/// whether forecastle and foredeck cover less than half of the deck.
pub fn ship_type(
    main: &Battery,
    sec: &Battery,
    ter: &Battery,
    main_face: bool,
    sec_face: bool,
    ter_face: bool,
    has_belt: bool,
    short_fwd: bool,
) -> (s: String)
    requires
        main.wf(),
        sec.wf(),
        ter.wf(),
    ensures
        s@ == joined(
            ship_type_parts(
                broadside_facts(*main, *main, main_face),
                broadside_facts(*sec, *main, sec_face),
                broadside_facts(*ter, *main, ter_face),
                main.mount_kind is OpenBarbette || sec.mount_kind is OpenBarbette,
                main.groups@[0].distribution is CenterlineFD || main.groups@[0].distribution
                    is SidesEndsFD,
                has_belt,
                short_fwd,
            ),
            "\n"@,
        ),
{
    let mut s: Vec<String> = Vec::new();

    if main.mount_kind == MountType::OpenBarbette || sec.mount_kind == MountType::OpenBarbette {
        s.push(String::from_str("Barbette Ship"));
    }
    let d = main.groups[0].distribution;
    if d == GunDistributionType::CenterlineFD || d == GunDistributionType::SidesEndsFD {
        s.push(String::from_str("Central Citadel Ship"));
    }
    let main_broad = main.mount_kind == MountType::Broadside;
    let sec_broad = sec.mount_kind == MountType::Broadside;
    let ter_broad = ter.mount_kind == MountType::Broadside;

    let main_below = main.groups[0].below > 0 || main.groups[1].below > 0;
    let sec_below = sec.groups[0].below > 0 || main.groups[1].below > 0;
    let ter_below = ter.groups[0].below > 0 || main.groups[1].below > 0;

    let main_broad_below = main_broad && main_below;
    let sec_broad_below = sec_broad && sec_below;
    let ter_broad_below = ter_broad && ter_below;

    let main_broad_face = main_broad && main_face;
    let sec_broad_face = sec_broad && sec_face;
    let ter_broad_face = ter_broad && ter_face;

    if main_broad || sec_broad || ter_broad {
        if has_belt {
            if main_broad_face || sec_broad_face || ter_broad_face {
                s.push(String::from_str("Armoured Casemate Ship"));
            } else if short_fwd {
                if main_broad_below || sec_broad_below || ter_broad_below {
                    s.push(String::from_str("Armoured Frigate (Broadside Ironclad)"));
                } else {
                    s.push(String::from_str("Armoured Corvette (Broadside Ironclad)"));
                }
            } else if main_broad_below || sec_broad_below || ter_broad_below {
                s.push(String::from_str("Armoured Frigate (Central Battery Ironclad)"));
            } else {
                s.push(String::from_str("Armoured Corvette (Central Battery Ironclad)"));
            }
        } else if main_broad_below || sec_broad_below || ter_broad_below {
            s.push(String::from_str("Frigate (Unarmoured)"));
        } else {
            s.push(String::from_str("Corvette (Unarmoured)"));
        }
    }
    assert(texts(s@) =~= ship_type_parts(
        broadside_facts(*main, *main, main_face),
        broadside_facts(*sec, *main, sec_face),
        broadside_facts(*ter, *main, ter_face),
        main.mount_kind is OpenBarbette || sec.mount_kind is OpenBarbette,
        main.groups@[0].distribution is CenterlineFD || main.groups@[0].distribution
            is SidesEndsFD,
        has_belt,
        short_fwd,
    ));
    join(&s, "\n")
}

/// The remark on the class of seakeeping `sea`. A fine seaboat is praised
/// for her gunnery where she has guns.
pub open spec fn sea_text(sea: SeaType, has_guns: bool) -> Seq<char> {
    match sea {
        SeaType::BadSea => "Caution: Lacks seaworthiness - very limited seakeeping ability"@,
        SeaType::PoorSea =>
            "Poor seaboat, wet and uncomfortable, reduced performance in heavy weather"@,
        SeaType::GoodSea => "Good seaboat, rides out heavy weather easily"@,
        SeaType::FineSea => if has_guns {
            "Excellent seaboat, comfortable, can fire her guns in the heaviest weather"@
        } else {
            "Excellent seaboat, comfortable, rides out heavy weather easily"@
        },
        SeaType::Error => "Invalid SeaType"@,
    }
}

/// The remarks on stability, strength, steadiness and seakeeping, in the
/// order of the report. A warning on stability is given where the ship is
/// both tender and at risk of capsizing; a ship is called steady, or else
/// unsteady, or neither; the remark on the class of seakeeping always comes
/// last.
pub open spec fn seakeeping_parts(
    tender: bool,
    capsize: bool,
    strained: bool,
    steady: bool,
    unsteady: bool,
    sea: SeaType,
    has_guns: bool,
) -> Seq<Seq<char>> {
    (if tender && capsize {
        seq!["Caution: Poor stability - excessive risk of capsizing"@]
    } else {
        Seq::<Seq<char>>::empty()
    }) + (if strained {
        seq!["Caution: Hull subject to strain in open-sea"@]
    } else {
        Seq::<Seq<char>>::empty()
    }) + (if steady {
        seq!["Ship has slow easy roll, a good steady, gun platform"@]
    } else if unsteady {
        seq!["Ship has quick, lively roll, not a steady gun platform"@]
    } else {
        Seq::<Seq<char>>::empty()
    }) + seq![sea_text(sea, has_guns)]
}

/// The remarks on stability, strength, steadiness and seakeeping, in the
/// order of the report.
pub fn seakeeping_desc(
    tender: bool,
    capsize: bool,
    strained: bool,
    steady: bool,
    unsteady: bool,
    sea: SeaType,
    has_guns: bool,
) -> (s: Vec<String>)
    ensures
        texts(s@) == seakeeping_parts(tender, capsize, strained, steady, unsteady, sea, has_guns),
{
    let mut s: Vec<String> = Vec::new();

    if tender && capsize {
        s.push(String::from_str("Caution: Poor stability - excessive risk of capsizing"));
    }
    if strained {
        s.push(String::from_str("Caution: Hull subject to strain in open-sea"));
    }
    if steady {
        s.push(String::from_str("Ship has slow easy roll, a good steady, gun platform"));
    } else if unsteady {
        s.push(String::from_str("Ship has quick, lively roll, not a steady gun platform"));
    }
    let remark = match sea {
        SeaType::BadSea => "Caution: Lacks seaworthiness - very limited seakeeping ability",
        SeaType::PoorSea =>
            "Poor seaboat, wet and uncomfortable, reduced performance in heavy weather",
        SeaType::GoodSea => "Good seaboat, rides out heavy weather easily",
        SeaType::FineSea => if has_guns {
            "Excellent seaboat, comfortable, can fire her guns in the heaviest weather"
        } else {
            "Excellent seaboat, comfortable, rides out heavy weather easily"
        },
        SeaType::Error => "Invalid SeaType",
    };
    s.push(String::from_str(remark));
    assert(texts(s@) =~= seakeeping_parts(
        tender,
        capsize,
        strained,
        steady,
        unsteady,
        sea,
        has_guns,
    ));
    s
}

/// Whether every battery of the ship stands in broadside mounts with some
/// below the waterline.
pub open spec fn all_broad_and_below(batteries: Seq<Battery>) -> bool {
    forall|i: int|
        0 <= i < batteries.len() ==> (#[trigger] batteries[i]).mount_kind is Broadside
            && crate::battery::any_below(batteries[i].groups@)
}

/// Whether every battery of the ship stands in broadside mounts with some
/// below the waterline, so that the freeboard counts from the gun deck. It
/// holds of a ship without batteries.
pub fn cap_calc_broadside(batteries: &Vec<Battery>) -> (r: bool)
    ensures
        r == all_broad_and_below(batteries@),
{
    let mut i: usize = 0;
    while i < batteries.len()
        invariant
            i <= batteries.len(),
            forall|j: int|
                0 <= j < i ==> (#[trigger] batteries@[j]).mount_kind is Broadside
                    && crate::battery::any_below(batteries@[j].groups@),
        decreases batteries.len() - i,
    {
        if !batteries[i].broad_and_below() {
            return false;
        }
        i += 1;
    }
    true
}

} // verus!
