use sharpie::distribution::half;
use sharpie::{GunDistributionType, GunPosition, Zone};

const ALL: [GunDistributionType; 18] = [
    GunDistributionType::CenterlineEven,
    GunDistributionType::CenterlineEndsFD,
    GunDistributionType::CenterlineEndsAD,
    GunDistributionType::CenterlineFDFwd,
    GunDistributionType::CenterlineFD,
    GunDistributionType::CenterlineFDAft,
    GunDistributionType::CenterlineADFwd,
    GunDistributionType::CenterlineAD,
    GunDistributionType::CenterlineADAft,
    GunDistributionType::SidesEven,
    GunDistributionType::SidesEndsFD,
    GunDistributionType::SidesEndsAD,
    GunDistributionType::SidesFDFwd,
    GunDistributionType::SidesFD,
    GunDistributionType::SidesFDAft,
    GunDistributionType::SidesADFwd,
    GunDistributionType::SidesAD,
    GunDistributionType::SidesADAft,
];

#[test]
fn mounts_fwd_center_1() {
    let fwd_len: f64 = 0.5;
    assert_eq!(1, GunDistributionType::CenterlineEven.mounts_fwd(1, fwd_len >= 0.5));
}

#[test]
fn mounts_fwd_center_2() {
    let fwd_len: f64 = 0.5;
    assert_eq!(2, GunDistributionType::CenterlineEven.mounts_fwd(3, fwd_len >= 0.5));
}

#[test]
fn mounts_fwd_center_3() {
    let fwd_len: f64 = 0.4;
    assert_eq!(0, GunDistributionType::CenterlineEven.mounts_fwd(1, fwd_len >= 0.5));
}

#[test]
fn mounts_fwd_center_4() {
    let fwd_len: f64 = 0.4;
    assert_eq!(1, GunDistributionType::CenterlineEven.mounts_fwd(3, fwd_len >= 0.5));
}

#[test]
fn mounts_fwd_center_end_fd_1() {
    let fwd_len: f64 = 0.0;
    assert_eq!(1, GunDistributionType::CenterlineEndsFD.mounts_fwd(1, fwd_len >= 0.5));
}

#[test]
fn mounts_fwd_center_end_fd_2() {
    let fwd_len: f64 = 0.0;
    assert_eq!(2, GunDistributionType::CenterlineEndsFD.mounts_fwd(3, fwd_len >= 0.5));
}

#[test]
fn mounts_fwd_center_end_ad_1() {
    let fwd_len: f64 = 0.0;
    assert_eq!(0, GunDistributionType::CenterlineEndsAD.mounts_fwd(1, fwd_len >= 0.5));
}

#[test]
fn mounts_fwd_center_end_ad_2() {
    let fwd_len: f64 = 0.0;
    assert_eq!(1, GunDistributionType::CenterlineEndsAD.mounts_fwd(3, fwd_len >= 0.5));
}

#[test]
fn mounts_fwd_center_fd_fwd() {
    let fwd_len: f64 = 0.0;
    assert_eq!(3, GunDistributionType::CenterlineFDFwd.mounts_fwd(3, fwd_len >= 0.5));
}

#[test]
fn mounts_fwd_center_fd() {
    let fwd_len: f64 = 0.0;
    assert_eq!(3, GunDistributionType::CenterlineFD.mounts_fwd(3, fwd_len >= 0.5));
}

#[test]
fn mounts_fwd_center_fd_aft() {
    let fwd_len: f64 = 0.0;
    assert_eq!(3, GunDistributionType::CenterlineFDAft.mounts_fwd(3, fwd_len >= 0.5));
}

#[test]
fn mounts_fwd_center_ad_fwd() {
    let fwd_len: f64 = 0.0;
    assert_eq!(3, GunDistributionType::CenterlineADFwd.mounts_fwd(3, fwd_len >= 0.5));
}

#[test]
fn mounts_fwd_center_ad() {
    let fwd_len: f64 = 0.0;
    assert_eq!(0, GunDistributionType::CenterlineAD.mounts_fwd(3, fwd_len >= 0.5));
}

#[test]
fn mounts_fwd_center_ad_aft() {
    let fwd_len: f64 = 0.0;
    assert_eq!(0, GunDistributionType::CenterlineADAft.mounts_fwd(3, fwd_len >= 0.5));
}

#[test]
fn mounts_fwd_sides_1() {
    let fwd_len: f64 = 0.5;
    assert_eq!(1, GunDistributionType::SidesEven.mounts_fwd(1, fwd_len >= 0.5));
}

#[test]
fn mounts_fwd_sides_2() {
    let fwd_len: f64 = 0.5;
    assert_eq!(2, GunDistributionType::SidesEven.mounts_fwd(3, fwd_len >= 0.5));
}

#[test]
fn mounts_fwd_sides_3() {
    let fwd_len: f64 = 0.4;
    assert_eq!(0, GunDistributionType::SidesEven.mounts_fwd(1, fwd_len >= 0.5));
}

#[test]
fn mounts_fwd_sides_4() {
    let fwd_len: f64 = 0.4;
    assert_eq!(1, GunDistributionType::SidesEven.mounts_fwd(3, fwd_len >= 0.5));
}

#[test]
fn mounts_fwd_sides_end_fd_1() {
    let fwd_len: f64 = 0.0;
    assert_eq!(1, GunDistributionType::SidesEndsFD.mounts_fwd(1, fwd_len >= 0.5));
}

#[test]
fn mounts_fwd_sides_end_fd_2() {
    let fwd_len: f64 = 0.0;
    assert_eq!(2, GunDistributionType::SidesEndsFD.mounts_fwd(3, fwd_len >= 0.5));
}

#[test]
fn mounts_fwd_sides_end_ad_1() {
    let fwd_len: f64 = 0.0;
    assert_eq!(0, GunDistributionType::SidesEndsAD.mounts_fwd(1, fwd_len >= 0.5));
}

#[test]
fn mounts_fwd_sides_end_ad_2() {
    let fwd_len: f64 = 0.0;
    assert_eq!(1, GunDistributionType::SidesEndsAD.mounts_fwd(3, fwd_len >= 0.5));
}

#[test]
fn mounts_fwd_sides_fd_fwd() {
    let fwd_len: f64 = 0.0;
    assert_eq!(3, GunDistributionType::SidesFDFwd.mounts_fwd(3, fwd_len >= 0.5));
}

#[test]
fn mounts_fwd_sides_fd() {
    let fwd_len: f64 = 0.0;
    assert_eq!(3, GunDistributionType::SidesFD.mounts_fwd(3, fwd_len >= 0.5));
}

#[test]
fn mounts_fwd_sides_fd_aft() {
    let fwd_len: f64 = 0.0;
    assert_eq!(3, GunDistributionType::SidesFDAft.mounts_fwd(3, fwd_len >= 0.5));
}

#[test]
fn mounts_fwd_sides_ad_fwd() {
    let fwd_len: f64 = 0.0;
    assert_eq!(0, GunDistributionType::SidesADFwd.mounts_fwd(3, fwd_len >= 0.5));
}

#[test]
fn mounts_fwd_sides_ad() {
    let fwd_len: f64 = 0.0;
    assert_eq!(0, GunDistributionType::SidesAD.mounts_fwd(3, fwd_len >= 0.5));
}

#[test]
fn mounts_fwd_sides_ad_aft() {
    let fwd_len: f64 = 0.0;
    assert_eq!(0, GunDistributionType::SidesADAft.mounts_fwd(3, fwd_len >= 0.5));
}

fn coef(millionths: u32) -> f64 {
    millionths as f64 / 1_000_000.0
}

fn to_place(n: f64, digits: u32) -> f64 {
    let mult = 10_u32.pow(digits) as f64;
    (n * mult).round() / mult
}

fn place(p: GunPosition, fd_len: f64, ad_len: f64) -> f64 {
    match p {
        GunPosition::Fixed(m) => coef(m),
        GunPosition::OfForedeck(m) => coef(m) * fd_len,
        GunPosition::OfAfterdeck(m) => coef(m) * ad_len,
    }
}

fn positions(dist: GunDistributionType) -> (f64, f64) {
    let fd_len = 0.2;
    let ad_len = 0.2;
    (
        to_place(place(dist.g1_gun_position(), fd_len, ad_len), 2),
        to_place(place(dist.g2_gun_position(), fd_len, ad_len), 2),
    )
}

#[test]
fn gun_position_center() {
    assert_eq!((1.0, 0.0), positions(GunDistributionType::CenterlineEven));
}

#[test]
fn gun_position_center_end_fd() {
    assert_eq!((1.0, 0.0), positions(GunDistributionType::CenterlineEndsFD));
}

#[test]
fn gun_position_center_end_ad() {
    assert_eq!((1.0, 0.0), positions(GunDistributionType::CenterlineEndsAD));
}

#[test]
fn gun_position_sides() {
    assert_eq!((1.0, 0.0), positions(GunDistributionType::SidesEven));
}

#[test]
fn gun_position_sides_end_fd() {
    assert_eq!((1.0, 0.0), positions(GunDistributionType::SidesEndsFD));
}

#[test]
fn gun_position_sides_end_ad() {
    assert_eq!((1.0, 0.0), positions(GunDistributionType::SidesEndsAD));
}

#[test]
fn gun_position_center_fd_fwd() {
    assert_eq!((0.05, 0.05), positions(GunDistributionType::CenterlineFDFwd));
}

#[test]
fn gun_position_center_fd() {
    assert_eq!((0.1, 0.1), positions(GunDistributionType::CenterlineFD));
}

#[test]
fn gun_position_center_fd_aft() {
    assert_eq!((0.15, 0.15), positions(GunDistributionType::CenterlineFDAft));
}

#[test]
fn gun_position_center_ad_fwd() {
    assert_eq!((0.05, 0.05), positions(GunDistributionType::CenterlineADFwd));
}

#[test]
fn gun_position_center_ad() {
    assert_eq!((0.1, 0.1), positions(GunDistributionType::CenterlineAD));
}

#[test]
fn gun_position_center_ad_aft() {
    assert_eq!((0.15, 0.15), positions(GunDistributionType::CenterlineADAft));
}

#[test]
fn gun_position_sides_fd_fwd() {
    assert_eq!((0.05, 0.05), positions(GunDistributionType::SidesFDFwd));
}

#[test]
fn gun_position_sides_fd() {
    assert_eq!((0.1, 0.1), positions(GunDistributionType::SidesFD));
}

#[test]
fn gun_position_sides_fd_aft() {
    assert_eq!((0.15, 0.15), positions(GunDistributionType::SidesFDAft));
}

#[test]
fn gun_position_sides_ad_fwd() {
    assert_eq!((0.05, 0.05), positions(GunDistributionType::SidesADFwd));
}

#[test]
fn gun_position_sides_ad() {
    assert_eq!((0.1, 0.1), positions(GunDistributionType::SidesAD));
}

#[test]
fn gun_position_sides_ad_aft() {
    assert_eq!((0.15, 0.15), positions(GunDistributionType::SidesADAft));
}

#[test]
fn gun_position_shares() {
    assert_eq!(GunDistributionType::CenterlineFDFwd.gun_position(), GunPosition::OfForedeck(250_000));
    assert_eq!(GunDistributionType::SidesFD.gun_position(), GunPosition::OfForedeck(500_000));
    assert_eq!(GunDistributionType::SidesFDAft.gun_position(), GunPosition::OfForedeck(750_000));
    assert_eq!(GunDistributionType::SidesADFwd.gun_position(), GunPosition::OfAfterdeck(250_000));
    assert_eq!(GunDistributionType::CenterlineAD.gun_position(), GunPosition::OfAfterdeck(500_000));
    assert_eq!(
        GunDistributionType::CenterlineADAft.gun_position(),
        GunPosition::OfAfterdeck(750_000)
    );
    assert_eq!(GunDistributionType::CenterlineEven.gun_position(), GunPosition::Fixed(0));
    assert_eq!(GunDistributionType::SidesEndsAD.gun_position(), GunPosition::Fixed(0));
}

#[test]
fn zones() {
    let zones: Vec<Zone> = ALL.iter().map(|d| d.zone()).collect();
    let nine = [
        Zone::Even,
        Zone::Ends,
        Zone::Ends,
        Zone::FDFwd,
        Zone::FD,
        Zone::FDAft,
        Zone::ADFwd,
        Zone::AD,
        Zone::ADAft,
    ];
    assert_eq!(zones[..9], nine);
    assert_eq!(zones[9..], nine);
}

#[test]
fn half_rounds_up() {
    assert_eq!(half(0), 0);
    assert_eq!(half(1), 1);
    assert_eq!(half(2), 1);
    assert_eq!(half(3), 2);
    assert_eq!(half(4), 2);
    assert_eq!(half(u32::MAX), 2_147_483_648);
    for n in 0..1000u32 {
        assert_eq!(half(n), f64::round(n as f64 / 2.0) as u32);
    }
}

#[test]
fn mounts_fwd_never_exceeds_total() {
    for d in ALL {
        for tot in [0u32, 1, 2, 3, 4, 5, 10, 11, u32::MAX - 1, u32::MAX] {
            for fwd in [false, true] {
                assert!(d.mounts_fwd(tot, fwd) <= tot);
            }
            assert!(d.mounts_fwd(tot, false) <= d.mounts_fwd(tot, true));
        }
    }
}

#[test]
fn mounts_fwd_of_no_mounts() {
    for d in ALL {
        assert_eq!(d.mounts_fwd(0, false), 0);
        assert_eq!(d.mounts_fwd(0, true), 0);
    }
}

#[test]
fn mounts_fwd_splits_evenly() {
    for d in [
        GunDistributionType::CenterlineEven,
        GunDistributionType::CenterlineEndsFD,
        GunDistributionType::CenterlineEndsAD,
        GunDistributionType::SidesEven,
        GunDistributionType::SidesEndsFD,
        GunDistributionType::SidesEndsAD,
    ] {
        for fwd in [false, true] {
            assert_eq!(d.mounts_fwd(4, fwd), 2);
            assert_eq!(d.mounts_fwd(10, fwd), 5);
        }
    }
    assert_eq!(GunDistributionType::CenterlineEndsFD.mounts_fwd(5, false), 3);
    assert_eq!(GunDistributionType::CenterlineEndsAD.mounts_fwd(5, true), 2);
}

#[test]
fn mounts_fwd_is_the_rounding_rule() {
    fn rule(d: GunDistributionType, tot: u32, fwd_len: f64) -> u32 {
        fn half(n: u32) -> u32 {
            f64::round(n as f64 / 2.0) as u32
        }
        match d.zone() {
            Zone::FDFwd | Zone::FD | Zone::FDAft => tot,
            Zone::ADFwd => {
                if d == GunDistributionType::CenterlineADFwd {
                    tot
                } else {
                    0
                }
            },
            Zone::AD | Zone::ADAft => 0,
            Zone::Ends => {
                if d == GunDistributionType::CenterlineEndsFD
                    || d == GunDistributionType::SidesEndsFD
                {
                    if tot == 1 {
                        tot
                    } else {
                        half(tot)
                    }
                } else if tot == 1 {
                    0
                } else {
                    tot - half(tot)
                }
            },
            Zone::Even => {
                if tot == 1 && fwd_len >= 0.5 {
                    tot
                } else if fwd_len >= 0.5 {
                    half(tot)
                } else if tot == 1 && fwd_len < 0.5 {
                    0
                } else {
                    tot - half(tot)
                }
            },
        }
    }
    for d in ALL {
        for tot in 0..40u32 {
            for fwd_len in [0.0, 0.4, 0.5, 0.9, f64::NAN] {
                assert_eq!(d.mounts_fwd(tot, fwd_len >= 0.5), rule(d, tot, fwd_len));
            }
        }
    }
}

#[test]
fn super_aft_placements() {
    let aft: Vec<bool> = ALL.iter().map(|d| d.super_aft()).collect();
    let nine = [false, false, true, false, false, false, true, true, true];
    assert_eq!(aft[..9], nine);
    assert_eq!(aft[9..], nine);
}

#[test]
fn super_factor_long_placements() {
    let long: Vec<bool> = ALL.iter().map(|d| d.super_factor_long()).collect();
    assert_eq!(
        long,
        [
            false, false, true, true, true, true, true, true, true, false, false, false, true,
            true, true, true, true, true
        ]
    );
}

#[test]
fn distribution_from_code() {
    for (i, d) in ALL.iter().enumerate() {
        assert_eq!(GunDistributionType::from(i.to_string().as_str()), *d);
        assert_eq!(GunDistributionType::from(i.to_string()), *d);
    }
}

#[test]
fn distribution_from_unknown_code() {
    assert_eq!(GunDistributionType::from("18"), GunDistributionType::CenterlineEven);
    assert_eq!(GunDistributionType::from(""), GunDistributionType::CenterlineEven);
    assert_eq!(GunDistributionType::from("1 "), GunDistributionType::CenterlineEven);
    assert_eq!(GunDistributionType::from("1\n"), GunDistributionType::CenterlineEven);
    assert_eq!(GunDistributionType::from("one"), GunDistributionType::CenterlineEven);
    assert_eq!(GunDistributionType::default(), GunDistributionType::CenterlineEven);
}

#[test]
fn distribution_names() {
    let names: Vec<String> = ALL.iter().map(|d| d.to_string()).collect();
    assert_eq!(
        names,
        [
            "centerline - distributed",
            "centerline - ends (fore ≥ aft)",
            "centerline - ends (aft ≥ fore)",
            "centerline - foredeck forward",
            "centerline - foredeck",
            "centerline - foredeck aft",
            "centerline - afterdeck forward",
            "centerline - afterdeck",
            "centerline - afterdeck aft",
            "sides - distributed",
            "sides - ends (fore ≥ aft)",
            "sides - ends (aft ≥ fore)",
            "sides - foredeck forward",
            "sides - foredeck",
            "sides - foredeck aft",
            "sides - afterdeck forared",
            "sides - afterdeck",
            "sides - afterdeck aft"
        ]
    );
}

#[test]
fn desc_of_a_single_mount() {
    let one: Vec<String> = ALL.iter().map(|d| d.desc(1, true)).collect();
    assert_eq!(
        one,
        [
            "centreline amidships (forward deck)",
            "centreline forward",
            "centreline aft",
            "centreline, forward deck forward",
            "centreline, forward deck centre",
            "centreline, forward deck aft",
            "centreline, aft deck forward",
            "centreline, aft deck centre",
            "cenreline, aft deck aft",
            "sides amidships",
            "sides, forward",
            "sides aft",
            "sides, forward deck forward",
            "sides, forward deck centre",
            "sides, forward deck aft",
            "sides, aft deck forward",
            "sides, aft deck centre",
            "sides, aft deck aft"
        ]
    );
    assert_eq!(
        GunDistributionType::CenterlineEven.desc(1, false),
        "centreline amidships (aft deck)"
    );
}

#[test]
fn desc_of_three_mounts() {
    let three: Vec<String> = ALL.iter().map(|d| d.desc(3, false)).collect();
    assert_eq!(
        three,
        [
            "centreline, evenly spread",
            "centreline ends, majority forward",
            "centreline ends, majority aft",
            "centreline, forward deck forward",
            "centreline, forward evenly spread",
            "centreline, forward deck aft",
            "centreline, aft deck forward",
            "centreline, aft evenly spread",
            "cenreline, aft deck aft",
            "sides, evenly spread",
            "side ends, majority forward",
            "side ends, majority aft",
            "sides, forward deck forward",
            "sides, forward evenly spread",
            "sides, forward deck aft",
            "sides, aft deck forward",
            "sides, aft evenly spread",
            "sides, aft deck aft"
        ]
    );
}

#[test]
fn desc_of_even_numbers() {
    assert_eq!(
        GunDistributionType::CenterlineEndsFD.desc(2, false),
        "centreline ends, evenly spread"
    );
    assert_eq!(
        GunDistributionType::CenterlineEndsAD.desc(4, true),
        "centrelineends, evenly spread"
    );
    assert_eq!(GunDistributionType::SidesEndsFD.desc(2, false), "sides, forward");
    assert_eq!(GunDistributionType::SidesEndsFD.desc(4, false), "side ends, evenly spread");
    assert_eq!(GunDistributionType::SidesEndsFD.desc(6, false), "side ends, majority forward");
    assert_eq!(GunDistributionType::SidesEndsAD.desc(8, false), "side ends, evenly spread");
    assert_eq!(GunDistributionType::SidesEndsAD.desc(6, false), "side ends, majority aft");
    assert_eq!(GunDistributionType::SidesEven.desc(2, true), "sides amidships");
    assert_eq!(GunDistributionType::SidesFD.desc(2, true), "sides, forward deck centre");
    assert_eq!(GunDistributionType::SidesAD.desc(2, true), "sides, aft deck centre");
    assert_eq!(GunDistributionType::CenterlineEven.desc(0, true), "centreline, evenly spread");
    assert_eq!(GunDistributionType::SidesEven.desc(0, true), "sides amidships");
}
