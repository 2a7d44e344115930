use sharpie::battery::to_signed;
use sharpie::{
    Battery, GunDistributionType, GunLayoutType, GunType, MountType, SubBattery, Units,
};

fn group(above: u32, two_mounts_up: bool, below: u32, lower_deck: bool) -> SubBattery {
    let mut g = SubBattery::default();
    g.layout = GunLayoutType::Single;
    g.above = above;
    g.below = below;
    g.two_mounts_up = two_mounts_up;
    g.lower_deck = lower_deck;
    g
}

#[test]
fn super_test_1() {
    assert!(1 == group(1, false, 0, false).super_());
}

#[test]
fn super_test_2() {
    assert!(-1 == group(0, false, 1, false).super_());
}

#[test]
fn super_test_3() {
    assert!(2 == group(1, true, 0, true).super_());
}

#[test]
fn super_test_4() {
    assert!(-2 == group(0, true, 1, true).super_());
}

#[test]
fn super_test_5() {
    assert!(0 == group(1, false, 1, false).super_());
}

#[test]
fn super_test_6() {
    assert!(0 == group(1, true, 1, true).super_());
}

#[test]
fn super_test_7() {
    assert!(-1 == group(1, false, 1, true).super_());
}

#[test]
fn super_test_8() {
    assert!(1 == group(1, true, 1, false).super_());
}

#[test]
fn super_counts_one_way_for_each_flag() {
    for layout in [
        GunLayoutType::Single,
        GunLayoutType::Twin,
        GunLayoutType::Triple,
        GunLayoutType::Quad,
        GunLayoutType::Dec2Row,
    ] {
        let mut g = group(5, true, 2, false);
        g.layout = layout;
        let guns_per = layout.guns_per() as i32;
        assert_eq!(g.super_(), (5 * 2 - 2 * 1) * guns_per);
        assert_eq!(g.super_(), 8 * guns_per);
        g.two_mounts_up = false;
        assert_eq!(g.super_(), 3 * guns_per);
        g.lower_deck = true;
        assert_eq!(g.super_(), (5 - 4) * guns_per);
        g.two_mounts_up = true;
        assert_eq!(g.super_(), (10 - 4) * guns_per);
    }
}

#[test]
fn super_ignores_mounts_on_deck() {
    let mut g = group(3, false, 1, false);
    g.on = 40;
    assert_eq!(g.super_(), 2);
}

#[test]
fn checked_super_agrees_with_super() {
    for above in 0..6u32 {
        for below in 0..6u32 {
            for (up, low) in [(false, false), (true, false), (false, true), (true, true)] {
                let mut g = group(above, up, below, low);
                g.layout = GunLayoutType::Triple;
                assert_eq!(g.checked_super(), Some(g.super_()));
            }
        }
    }
}

#[test]
fn checked_super_where_counts_do_not_fit() {
    assert_eq!(group(0x8000_0000, true, 0, false).checked_super(), None);
    assert_eq!(group(0, false, 0x8000_0000, true).checked_super(), None);
    let mut g = group(0x7fff_ffff, false, 0, false);
    assert_eq!(g.checked_super(), Some(i32::MAX));
    g.layout = GunLayoutType::Twin;
    assert_eq!(g.checked_super(), None);
    assert_eq!(group(0, false, 0x7fff_ffff, false).checked_super(), Some(-i32::MAX));
    assert_eq!(group(0x7fff_ffff, false, 0x7fff_ffff, false).checked_super(), Some(0));
}

#[test]
fn checked_super_reads_large_counts_as_signed() {
    assert_eq!(group(u32::MAX, false, 0, false).checked_super(), Some(-1));
    assert_eq!(group(u32::MAX, false, 0, false).super_(), -1);
    assert_eq!(group(0, false, u32::MAX, false).checked_super(), Some(1));
    assert_eq!(group(0x8000_0000, false, 0, false).checked_super(), Some(i32::MIN));
    assert_eq!(group(0x8000_0000, false, 1, false).checked_super(), None);
}

#[test]
fn to_signed_keeps_the_bits() {
    for x in [0u32, 1, 2, 0x7fff_ffff, 0x8000_0000, 0x8000_0001, u32::MAX - 1, u32::MAX] {
        assert_eq!(to_signed(x), x as i32);
    }
}

#[test]
fn num_mounts_adds_the_three_counts() {
    let mut g = group(1, false, 3, false);
    g.on = 2;
    assert_eq!(g.num_mounts(), 6);
    assert_eq!(g.checked_num_mounts(), Some(6));
    assert_eq!(SubBattery::default().num_mounts(), 0);
    assert!(g.has_mounts());
    assert!(!SubBattery::default().has_mounts());
}

#[test]
fn checked_num_mounts_beyond_the_limit() {
    let mut g = group(u32::MAX, false, 0, false);
    assert_eq!(g.checked_num_mounts(), Some(u32::MAX));
    g.on = 1;
    assert_eq!(g.checked_num_mounts(), None);
    assert!(g.has_mounts());
}

#[test]
fn sub_battery_default() {
    let g = SubBattery::default();
    assert_eq!(g.layout, GunLayoutType::Single);
    assert_eq!(g.distribution, GunDistributionType::CenterlineEven);
    assert_eq!((g.above, g.on, g.below), (0, 0, 0));
    assert!(!g.two_mounts_up && !g.lower_deck);
}

#[test]
fn battery_default() {
    let b = Battery::default();
    assert_eq!(b.units, Units::Imperial);
    assert_eq!(b.num, 0);
    assert_eq!(b.year, 1920);
    assert_eq!(b.shells, 0);
    assert_eq!(b.kind, GunType::BreechLoading);
    assert_eq!(b.mount_num, 0);
    assert_eq!(b.mount_kind, MountType::Deck);
    assert_eq!(b.groups, vec![SubBattery::default(), SubBattery::default()]);
    let n = Battery::new();
    assert_eq!(n.groups.len(), 2);
    assert_eq!(n.year, 1920);
}

#[test]
fn broad_and_below_not_broadside() {
    let mut btry = Battery::default();
    btry.mount_kind = MountType::Deck;
    btry.groups[0].below = 0;

    assert!(false == btry.broad_and_below());
}

#[test]
fn broad_and_below_broadside_not_below() {
    let mut btry = Battery::default();
    btry.mount_kind = MountType::Broadside;
    btry.groups[0].below = 0;

    assert!(false == btry.broad_and_below());
}

#[test]
fn broad_and_below_broadside_below() {
    let mut btry = Battery::default();
    btry.mount_kind = MountType::Broadside;
    btry.groups[0].below = 1;

    assert!(true == btry.broad_and_below());
}

#[test]
fn broad_and_below_in_the_second_group() {
    let mut btry = Battery::default();
    btry.mount_kind = MountType::Broadside;
    btry.groups[1].below = 4;
    assert!(btry.broad_and_below());
    btry.mount_kind = MountType::Casemate;
    assert!(!btry.broad_and_below());
}

#[test]
fn broad_and_below_without_groups() {
    let mut btry = Battery::default();
    btry.mount_kind = MountType::Broadside;
    btry.groups.clear();
    assert!(!btry.broad_and_below());
}

#[test]
fn battery_counts() {
    let mut btry = Battery::default();
    btry.groups[0].layout = GunLayoutType::Twin;
    btry.groups[0].above = 1;
    btry.groups[0].on = 2;
    btry.groups[1].layout = GunLayoutType::Triple;
    btry.groups[1].on = 1;
    btry.groups[1].below = 1;
    assert_eq!(btry.mounts(), Some(5));
    assert_eq!(btry.guns(), Some(2 * 3 + 3 * 2));
    assert_eq!(btry.super_sum(), Some(2 - 3));
}

#[test]
fn battery_counts_of_an_empty_battery() {
    let btry = Battery::default();
    assert_eq!(btry.mounts(), Some(0));
    assert_eq!(btry.guns(), Some(0));
    assert_eq!(btry.super_sum(), Some(0));
}

#[test]
fn battery_counts_over_any_number_of_groups() {
    let mut btry = Battery::default();
    btry.groups.clear();
    assert_eq!(btry.mounts(), Some(0));
    assert_eq!(btry.guns(), Some(0));
    assert_eq!(btry.super_sum(), Some(0));
    for i in 1..=5u32 {
        let mut g = SubBattery::default();
        g.layout = GunLayoutType::Quad;
        g.above = i;
        btry.groups.push(g);
    }
    assert_eq!(btry.mounts(), Some(15));
    assert_eq!(btry.guns(), Some(60));
    assert_eq!(btry.super_sum(), Some(60));
}

#[test]
fn battery_counts_beyond_the_limit() {
    let mut btry = Battery::default();
    btry.groups[0].on = u32::MAX;
    assert_eq!(btry.mounts(), Some(u32::MAX));
    assert_eq!(btry.guns(), Some(u32::MAX));
    btry.groups[1].on = 1;
    assert_eq!(btry.mounts(), None);
    assert_eq!(btry.guns(), None);
    btry.groups[1].on = 0;
    btry.groups[0].layout = GunLayoutType::Twin;
    assert_eq!(btry.mounts(), Some(u32::MAX));
    assert_eq!(btry.guns(), None);
    btry.groups[0].above = 1;
    assert_eq!(btry.mounts(), None);
}

#[test]
fn super_sum_beyond_the_limit() {
    let mut btry = Battery::default();
    btry.groups[0].above = 0x7fff_ffff;
    assert_eq!(btry.super_sum(), Some(i32::MAX));
    btry.groups[1].above = 1;
    assert_eq!(btry.super_sum(), None);
    btry.groups[1].above = 0;
    btry.groups[1].below = 1;
    assert_eq!(btry.super_sum(), Some(i32::MAX - 1));
    btry.groups[0].two_mounts_up = true;
    assert_eq!(btry.super_sum(), Some(-3));
    btry.groups[0].above = 0x8000_0000;
    assert_eq!(btry.super_sum(), None);
}

#[test]
fn super_sum_fails_where_a_partial_sum_does_not_fit() {
    let mut btry = Battery::default();
    let mut g = SubBattery::default();
    g.above = 0x7fff_ffff;
    btry.groups[0] = g;
    btry.groups[1] = g;
    let mut h = SubBattery::default();
    h.below = 0x7fff_ffff;
    btry.groups.push(h);
    assert_eq!(btry.super_sum(), None);
    btry.groups.swap(1, 2);
    assert_eq!(btry.super_sum(), Some(i32::MAX));
}

#[test]
fn spread_in_few_mounts() {
    let mut btry = Battery::default();
    btry.mount_num = 3;
    assert!(btry.spread_in_few());
    btry.mount_num = 4;
    assert!(btry.spread_in_few());
    btry.mount_num = 5;
    assert!(!btry.spread_in_few());
    btry.mount_num = 2;
    assert!(!btry.spread_in_few());
    btry.mount_num = 3;
    btry.groups[0].distribution = GunDistributionType::CenterlineFD;
    assert!(btry.spread_in_few());
    btry.groups[1].distribution = GunDistributionType::SidesEndsFD;
    assert!(!btry.spread_in_few());
    btry.groups[1].distribution = GunDistributionType::SidesEven;
    assert!(btry.spread_in_few());
}

#[test]
fn massed_with_one_group() {
    let mut btry = Battery::default();
    assert!(!btry.massed(true));
    assert!(!btry.massed(false));
    btry.groups[0].on = 2;
    btry.groups[0].distribution = GunDistributionType::CenterlineFD;
    assert!(btry.massed(false));
    btry.groups[0].distribution = GunDistributionType::CenterlineEven;
    assert!(!btry.massed(false));
    assert!(!btry.massed(true));
    btry.groups[0].on = 0;
    btry.groups[1].below = 1;
    btry.groups[1].distribution = GunDistributionType::SidesEndsAD;
    assert!(!btry.massed(true));
    btry.groups[1].distribution = GunDistributionType::CenterlineEndsAD;
    assert!(btry.massed(false));
}

#[test]
fn massed_with_two_groups() {
    let mut btry = Battery::default();
    btry.groups[0].on = 1;
    btry.groups[1].above = 1;
    btry.groups[0].distribution = GunDistributionType::CenterlineFD;
    btry.groups[1].distribution = GunDistributionType::CenterlineAD;
    assert!(btry.massed(true));
    assert!(!btry.massed(false));
}
