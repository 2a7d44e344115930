//! Gun batteries: the groups of mounts of a battery, and what follows from
//! their counts alone.

use crate::distribution::GunDistributionType;
use crate::gun::{GunLayoutType, GunType, MountType};
use crate::units::Units;
use vstd::prelude::*;

verus! {

/// A group of like mounts of one battery, placed together.
#[derive(Clone, Copy, Debug, PartialEq, Eq, Structural)]
pub struct SubBattery {
    /// Gun layout.
    pub layout: GunLayoutType,
    /// Distribution of guns on the ship.
    pub distribution: GunDistributionType,
    /// Number of mounts above the waterline.
    pub above: u32,
    /// Number of mounts on the waterline.
    pub on: u32,
    /// Number of mounts below the waterline.
    pub below: u32,
    /// If mounts above the deck are two mounts up.
    pub two_mounts_up: bool,
    /// If mounts below the deck are on the lower deck.
    pub lower_deck: bool,
}

/// What a battery is made of, apart from its measurements: the number and
/// kind of its guns and mounts, and the two groups that place the mounts.
#[derive(Debug)]
pub struct Battery {
    /// Units in which the battery was entered.
    pub units: Units,
    /// Number of guns in the battery.
    pub num: u32,
    /// Year the gun was designed.
    pub year: u32,
    /// Number of shells for each gun.
    pub shells: u32,
    /// Type of gun.
    pub kind: GunType,
    /// Number of mounts in the battery.
    pub mount_num: u32,
    /// Kind of mounts.
    pub mount_kind: MountType,
    /// Sub-batteries to position the battery mounts.
    pub groups: Vec<SubBattery>,
}

/// A 32-bit count read as a signed number of the same bits.
pub open spec fn as_signed(x: int) -> int {
    if x <= i32::MAX {
        x
    } else {
        x - 0x1_0000_0000
    }
}

/// A 32-bit count read as a signed number of the same bits.
pub fn to_signed(x: u32) -> (r: i32)
    ensures
        r == as_signed(x as int),
{
    if x <= 0x7fff_ffff {
        x as i32
    } else {
        (x - 0x8000_0000) as i32 + i32::MIN
    }
}

/// Number of mounts in all the groups.
pub open spec fn sum_mounts(groups: Seq<SubBattery>) -> nat
    decreases groups.len(),
{
    if groups.len() == 0 {
        0
    } else {
        sum_mounts(groups.drop_last()) + groups.last().total_mounts()
    }
}

/// Number of barrels in all the groups: for each group the barrels of a
/// mount times the number of mounts.
pub open spec fn sum_guns(groups: Seq<SubBattery>) -> nat
    decreases groups.len(),
{
    if groups.len() == 0 {
        0
    } else {
        sum_guns(groups.drop_last()) + (groups.last().layout.spec_guns_per()
            * groups.last().total_mounts()) as nat
    }
}

/// Net number of superfiring barrels in all the groups.
pub open spec fn sum_super(groups: Seq<SubBattery>) -> int
    decreases groups.len(),
{
    if groups.len() == 0 {
        0
    } else {
        sum_super(groups.drop_last()) + groups.last().spec_super()
    }
}

/// Whether the superfiring barrels of the groups can be added up one group
/// after the other in 32-bit arithmetic: the count of each group can be
/// formed, and the sum fits after each group.
pub open spec fn super_sum_defined(groups: Seq<SubBattery>) -> bool
    decreases groups.len(),
{
    if groups.len() == 0 {
        true
    } else {
        &&& super_sum_defined(groups.drop_last())
        &&& groups.last().super_defined()
        &&& i32::MIN <= sum_super(groups) <= i32::MAX
    }
}

/// Whether any group has a mount below the waterline.
pub open spec fn any_below(groups: Seq<SubBattery>) -> bool {
    exists|i: int| 0 <= i < groups.len() && groups[i].below != 0
}

impl SubBattery {
    /// Levels by which the mounts above the waterline are raised: one for
    /// each mount, two where they stand two mounts up.
    pub open spec fn raised(self) -> int {
        self.above * (if self.two_mounts_up {
            2int
        } else {
            1int
        })
    }

    /// Levels by which the mounts below the waterline are sunk: one for each
    /// mount, two where they stand on the lower deck.
    pub open spec fn sunk(self) -> int {
        self.below * (if self.lower_deck {
            2int
        } else {
            1int
        })
    }

    /// Whether the superfiring count can be formed in 32-bit arithmetic.
    pub open spec fn super_defined(self) -> bool {
        &&& self.raised() <= u32::MAX
        &&& self.sunk() <= u32::MAX
        &&& i32::MIN <= as_signed(self.raised()) - as_signed(self.sunk()) <= i32::MAX
        &&& i32::MIN <= self.spec_super() <= i32::MAX
    }

    /// Net number of barrels that fire over others: the levels raised less
    /// the levels sunk, times the barrels of a mount.
    pub open spec fn spec_super(self) -> int {
        (as_signed(self.raised()) - as_signed(self.sunk())) * self.layout.spec_guns_per()
    }

    /// The group without mounts, of the default layout and placement.
    pub open spec fn default_group() -> SubBattery {
        SubBattery {
            layout: GunLayoutType::Single,
            distribution: GunDistributionType::CenterlineEven,
            above: 0,
            on: 0,
            below: 0,
            two_mounts_up: false,
            lower_deck: false,
        }
    }

    /// Sum of the mounts above, on and below the waterline.
    pub open spec fn total_mounts(self) -> nat {
        (self.above + self.on + self.below) as nat
    }

    /// Net number of barrels that fire over others. Mounts above the
    /// waterline count twice where they stand two mounts up; mounts below the
    /// waterline are taken off, twice where they stand on the lower deck.
    pub fn super_(&self) -> (r: i32)
        requires
            self.super_defined(),
        ensures
            r == self.spec_super(),
            self.raised() <= i32::MAX && self.sunk() <= i32::MAX ==> r == (self.raised()
                - self.sunk()) * self.layout.spec_guns_per(),
    {
        let above: i32 = to_signed(
            self.above * if self.two_mounts_up {
                2
            } else {
                1
            },
        );
        let below: i32 = to_signed(
            self.below * if self.lower_deck {
                2
            } else {
                1
            },
        );
        (above - below) * self.layout.guns_per() as i32
    }

    /// Net number of barrels that fire over others, or `None` where it
    /// cannot be formed in 32-bit arithmetic.
    pub fn checked_super(&self) -> (r: Option<i32>)
        ensures
            self.super_defined() ==> r == Some(self.spec_super() as i32),
            !self.super_defined() ==> r.is_none(),
    {
        let a: u64 = self.above as u64 * if self.two_mounts_up {
            2
        } else {
            1
        };
        let b: u64 = self.below as u64 * if self.lower_deck {
            2
        } else {
            1
        };
        if a > 0xffff_ffff || b > 0xffff_ffff {
            return None;
        }
        let d: i64 = to_signed(a as u32) as i64 - to_signed(b as u32) as i64;
        if d < -0x8000_0000 || d > 0x7fff_ffff {
            return None;
        }
        let g: i64 = self.layout.guns_per() as i64;
        assert(-0x8000_0000 * 10 <= d * g <= 0x7fff_ffff * 10) by (nonlinear_arith)
            requires
                -0x8000_0000 <= d <= 0x7fff_ffff,
                1 <= g <= 10,
        ;
        let s: i64 = d * g;
        if s < -0x8000_0000 || s > 0x7fff_ffff {
            return None;
        }
        Some(s as i32)
    }

    /// Total number of gun mounts.
    pub fn num_mounts(&self) -> (r: u32)
        requires
            self.total_mounts() <= u32::MAX,
        ensures
            r == self.total_mounts(),
    {
        self.above + self.on + self.below
    }

    /// Total number of gun mounts, or `None` where it exceeds what a 32-bit
    /// count holds.
    pub fn checked_num_mounts(&self) -> (r: Option<u32>)
        ensures
            self.total_mounts() <= u32::MAX ==> r == Some(self.total_mounts() as u32),
            self.total_mounts() > u32::MAX ==> r.is_none(),
    {
        let n: u64 = self.above as u64 + self.on as u64 + self.below as u64;
        if n <= 0xffff_ffff {
            Some(n as u32)
        } else {
            None
        }
    }
}

impl Battery {
    /// A battery has two groups of mounts.
    pub open spec fn wf(self) -> bool {
        self.groups@.len() == 2
    }

    /// Whether this is the battery without guns: of the default kinds,
    /// designed in 1920, with two groups without mounts.
    pub open spec fn is_blank(self) -> bool {
        &&& self.units == Units::Imperial
        &&& self.num == 0
        &&& self.year == 1920
        &&& self.shells == 0
        &&& self.kind == GunType::BreechLoading
        &&& self.mount_num == 0
        &&& self.mount_kind == MountType::Deck
        &&& self.groups@ == seq![SubBattery::default_group(), SubBattery::default_group()]
    }

    /// A battery without guns, of the default kinds, designed in 1920.
    pub fn new() -> (r: Battery)
        ensures
            r.is_blank(),
            r.wf(),
    {
        let r = Battery {
            units: Units::Imperial,
            num: 0,
            year: 1920,
            shells: 0,
            kind: GunType::BreechLoading,
            mount_num: 0,
            mount_kind: MountType::Deck,
            groups: vec![SubBattery::default(), SubBattery::default()],
        };
        assert(r.groups@ =~= seq![SubBattery::default_group(), SubBattery::default_group()]);
        r
    }

    /// Whether the battery stands in broadside mounts of which some are below
    /// the waterline.
    pub fn broad_and_below(&self) -> (r: bool)
        ensures
            r == (self.mount_kind is Broadside && any_below(self.groups@)),
    {
        if self.mount_kind == MountType::Broadside {
            let mut i: usize = 0;
            while i < self.groups.len()
                invariant
                    self.mount_kind is Broadside,
                    i <= self.groups.len(),
                    forall|j: int| 0 <= j < i ==> self.groups@[j].below == 0,
                decreases self.groups.len() - i,
            {
                if self.groups[i].below != 0 {
                    assert(self.groups@[i as int].below != 0);
                    return true;
                }
                i += 1;
            }
        }
        false
    }

    /// Number of mounts in all the groups, or `None` where the count exceeds
    /// 32 bits.
    pub fn mounts(&self) -> (r: Option<u32>)
        ensures
            sum_mounts(self.groups@) <= u32::MAX ==> r == Some(sum_mounts(self.groups@) as u32),
            sum_mounts(self.groups@) > u32::MAX ==> r.is_none(),
    {
        let mut n: u32 = 0;
        let mut i: usize = 0;
        while i < self.groups.len()
            invariant
                i <= self.groups.len(),
                n == sum_mounts(self.groups@.take(i as int)),
            decreases self.groups.len() - i,
        {
            proof {
                lemma_sums_step(self.groups@, i as int);
            }
            let m = match self.groups[i].checked_num_mounts() {
                Some(m) => m,
                None => {
                    return None;
                },
            };
            if m > u32::MAX - n {
                return None;
            }
            n = n + m;
            i += 1;
        }
        assert(self.groups@.take(i as int) =~= self.groups@);
        Some(n)
    }

    /// Number of barrels in all the groups, or `None` where the count exceeds
    /// 32 bits.
    pub fn guns(&self) -> (r: Option<u32>)
        ensures
            sum_guns(self.groups@) <= u32::MAX ==> r == Some(sum_guns(self.groups@) as u32),
            sum_guns(self.groups@) > u32::MAX ==> r.is_none(),
    {
        let mut n: u64 = 0;
        let mut i: usize = 0;
        while i < self.groups.len()
            invariant
                i <= self.groups.len(),
                n == sum_guns(self.groups@.take(i as int)),
                n <= u32::MAX,
            decreases self.groups.len() - i,
        {
            proof {
                lemma_sums_step(self.groups@, i as int);
            }
            let g = &self.groups[i];
            let per: u64 = g.layout.guns_per() as u64;
            let m: u64 = g.above as u64 + g.on as u64 + g.below as u64;
            assert(per * m <= 10 * m) by (nonlinear_arith)
                requires
                    per <= 10,
            ;
            let t: u64 = n + per * m;
            if t > 0xffff_ffff {
                return None;
            }
            n = t;
            i += 1;
        }
        assert(self.groups@.take(i as int) =~= self.groups@);
        Some(n as u32)
    }

    /// Net number of superfiring barrels in all the groups, or `None` where
    /// adding them up one group after the other leaves 32-bit arithmetic.
    pub fn super_sum(&self) -> (r: Option<i32>)
        ensures
            super_sum_defined(self.groups@) ==> r == Some(sum_super(self.groups@) as i32),
            !super_sum_defined(self.groups@) ==> r.is_none(),
    {
        let mut n: i32 = 0;
        let mut i: usize = 0;
        while i < self.groups.len()
            invariant
                i <= self.groups.len(),
                n == sum_super(self.groups@.take(i as int)),
                super_sum_defined(self.groups@.take(i as int)),
            decreases self.groups.len() - i,
        {
            proof {
                lemma_sums_step(self.groups@, i as int);
            }
            let s = match self.groups[i].checked_super() {
                Some(s) => s,
                None => {
                    return None;
                },
            };
            let t: i64 = n as i64 + s as i64;
            if t < -0x8000_0000 || t > 0x7fff_ffff {
                return None;
            }
            n = t as i32;
            i += 1;
        }
        assert(self.groups@.take(i as int) =~= self.groups@);
        Some(n)
    }
}

impl Clone for Battery {
    fn clone(&self) -> (r: Battery)
        ensures
            r.units == self.units,
            r.num == self.num,
            r.year == self.year,
            r.shells == self.shells,
            r.kind == self.kind,
            r.mount_num == self.mount_num,
            r.mount_kind == self.mount_kind,
            r.groups@ == self.groups@,
    {
        let mut groups: Vec<SubBattery> = Vec::new();
        let mut i: usize = 0;
        while i < self.groups.len()
            invariant
                i <= self.groups.len(),
                groups@ == self.groups@.take(i as int),
            decreases self.groups.len() - i,
        {
            groups.push(self.groups[i]);
            assert(groups@ =~= self.groups@.take(i as int + 1));
            i += 1;
        }
        assert(self.groups@.take(i as int) =~= self.groups@);
        Battery {
            units: self.units,
            num: self.num,
            year: self.year,
            shells: self.shells,
            kind: self.kind,
            mount_num: self.mount_num,
            mount_kind: self.mount_kind,
            groups,
        }
    }
}

impl Default for Battery {
    fn default() -> (r: Battery)
        ensures
            r.is_blank(),
            r.wf(),
    {
        Battery::new()
    }
}

impl Default for SubBattery {
    fn default() -> (r: SubBattery)
        ensures
            r == SubBattery::default_group(),
    {
        SubBattery {
            layout: GunLayoutType::Single,
            distribution: GunDistributionType::CenterlineEven,
            above: 0,
            on: 0,
            below: 0,
            two_mounts_up: false,
            lower_deck: false,
        }
    }
}

/// The sums over the first `i + 1` groups are the sums over the first `i`
/// groups and the share of group `i`.
proof fn lemma_sums_step(groups: Seq<SubBattery>, i: int)
    requires
        0 <= i < groups.len(),
    ensures
        sum_mounts(groups.take(i + 1)) == sum_mounts(groups.take(i)) + groups[i].total_mounts(),
        sum_guns(groups.take(i + 1)) == sum_guns(groups.take(i)) + groups[i].layout.spec_guns_per()
            * groups[i].total_mounts(),
        sum_super(groups.take(i + 1)) == sum_super(groups.take(i)) + groups[i].spec_super(),
        sum_mounts(groups.take(i + 1)) <= sum_mounts(groups),
        sum_guns(groups.take(i + 1)) <= sum_guns(groups),
        super_sum_defined(groups.take(i + 1)) == (super_sum_defined(groups.take(i))
            && groups[i].super_defined() && i32::MIN <= sum_super(groups.take(i + 1)) <= i32::MAX),
        super_sum_defined(groups) ==> super_sum_defined(groups.take(i + 1)),
{
    assert(groups.take(i + 1).drop_last() =~= groups.take(i));
    assert(groups.take(i + 1).last() == groups[i]);
    lemma_sums_monotone(groups, i + 1);
}

/// The counts over the first `k` groups do not exceed the counts over all.
proof fn lemma_sums_monotone(groups: Seq<SubBattery>, k: int)
    requires
        0 <= k <= groups.len(),
    ensures
        sum_mounts(groups.take(k)) <= sum_mounts(groups),
        sum_guns(groups.take(k)) <= sum_guns(groups),
        super_sum_defined(groups) ==> super_sum_defined(groups.take(k)),
    decreases groups.len() - k,
{
    if k == groups.len() {
        assert(groups.take(k) =~= groups);
    } else {
        assert(groups.take(k + 1).drop_last() =~= groups.take(k));
        assert(groups.take(k + 1).last() == groups[k]);
        lemma_sums_monotone(groups, k + 1);
    }
}

/// Each flag doubles one side of the superfiring count only: for counts that
/// fit, raising the upper mounts a second level adds the barrels of the
/// mounts above the waterline and nothing else, and sinking the lower mounts
/// to the lower deck takes off the barrels of the mounts below the waterline
/// and nothing else.
pub proof fn lemma_super_flags(g: SubBattery)
    requires
        2 * g.above <= i32::MAX,
        2 * g.below <= i32::MAX,
    ensures
        (SubBattery { two_mounts_up: true, ..g }).spec_super() - (SubBattery {
            two_mounts_up: false,
            ..g
        }).spec_super() == g.above * g.layout.spec_guns_per(),
        (SubBattery { lower_deck: false, ..g }).spec_super() - (SubBattery {
            lower_deck: true,
            ..g
        }).spec_super() == g.below * g.layout.spec_guns_per(),
{
    let n = g.layout.spec_guns_per() as int;
    let a = g.above as int;
    let b = g.below as int;
    let s = g.sunk();
    let r = g.raised();
    assert((2 * a - s) * n - (a - s) * n == a * n) by (nonlinear_arith);
    assert((r - b) * n - (r - 2 * b) * n == b * n) by (nonlinear_arith);
}

} // verus!
