use sharpie::engine::{early_hull, early_hull_long, early_steam, year_adj};
use sharpie::{BoilerType, FuelType, Ramp, Rate};

fn coef(millionths: u32) -> f64 {
    millionths as f64 / 1_000_000.0
}

fn value(r: Ramp) -> f64 {
    let step = match r.rate {
        Rate::Times(m) => r.years as f64 * coef(m),
        Rate::Over(d) => r.years as f64 / coef(d),
    };
    if r.rising {
        coef(r.base) + step
    } else {
        coef(r.base) - step
    }
}

fn to_place(n: f64, digits: u32) -> f64 {
    let mult = 10_u32.pow(digits) as f64;
    (n * mult).round() / mult
}

fn d_engine_factor(boiler: BoilerType, year: u32, fuel: FuelType) -> f64 {
    let (a, b, c) = boiler.d_engine_factor(year, fuel);
    value(a) + value(b) + value(c)
}

#[test]
fn year_adj_1() {
    assert_eq!(0.985, to_place(value(year_adj(1889)), 5));
}

#[test]
fn year_adj_2() {
    assert_eq!(1.0, to_place(value(year_adj(1890)), 5));
}

#[test]
fn year_adj_3() {
    assert_eq!(1.0, to_place(value(year_adj(1949)), 5));
}

#[test]
fn year_adj_4() {
    assert_eq!(1.0, to_place(value(year_adj(1950)), 5));
}

#[test]
fn year_adj_5() {
    assert_eq!(0.0, to_place(value(year_adj(1951)), 5));
}

#[test]
fn year_adj_is_the_formula_bit_for_bit() {
    for year in 0..2100u32 {
        let expected = if year <= 1890 {
            1.0 - (1890 - year) as f64 / 66.666664
        } else if year <= 1950 {
            1.0
        } else {
            0.0
        };
        assert_eq!(value(year_adj(year)).to_bits(), expected.to_bits(), "year {}", year);
    }
}

#[test]
fn year_adj_pieces() {
    assert_eq!(
        year_adj(1880),
        Ramp { base: 1_000_000, years: 10, rising: false, rate: Rate::Over(66_666_664) }
    );
    assert_eq!(
        year_adj(1900),
        Ramp { base: 1_000_000, years: 0, rising: true, rate: Rate::Times(0) }
    );
    assert_eq!(year_adj(2000), Ramp { base: 0, years: 0, rising: true, rate: Rate::Times(0) });
}

#[test]
fn early_steam_boundary() {
    assert_eq!(value(early_steam(1890)), 1.0);
    assert_eq!(value(early_steam(1889)), 1.01);
    assert_eq!(value(early_steam(1889)) / value(early_steam(1890)), 1.01);
    assert_eq!(value(early_steam(2000)), 1.0);
}

#[test]
fn early_steam_is_the_formula_bit_for_bit() {
    for year in 0..2100u32 {
        let expected = if year < 1890 { 1.0 + (1890 - year) as f64 / 100.0 } else { 1.0 };
        assert_eq!(value(early_steam(year)).to_bits(), expected.to_bits(), "year {}", year);
    }
}

#[test]
fn early_hull_is_the_formula_bit_for_bit() {
    for year in 0..2100u32 {
        let expected = if year < 1900 { 1.0 - (1900.0 - year as f64) / 100.0 } else { 1.0 };
        assert_eq!(value(early_hull(year)).to_bits(), expected.to_bits(), "year {}", year);
    }
}

#[test]
fn early_hull_long_steps() {
    assert_eq!(early_hull_long(1701), 0);
    assert_eq!(early_hull_long(1800), 0);
    assert_eq!(early_hull_long(1801), 1);
    assert_eq!(early_hull_long(1899), 1);
    assert_eq!(early_hull_long(1900), 1);
    assert_eq!(early_hull_long(1950), 1);
}

#[test]
fn d_engine_factor_simple_1() {
    assert_eq!(2.4, to_place(d_engine_factor(BoilerType::simple(), 1884, FuelType::oil()), 3));
}

#[test]
fn d_engine_factor_simple_2() {
    assert_eq!(4.05, to_place(d_engine_factor(BoilerType::simple(), 1949, FuelType::oil()), 3));
}

#[test]
fn d_engine_factor_simple_3() {
    assert_eq!(4.075, to_place(d_engine_factor(BoilerType::simple(), 1950, FuelType::oil()), 3));
}

#[test]
fn d_engine_factor_complex_1() {
    assert_eq!(3.45, to_place(d_engine_factor(BoilerType::complex(), 1905, FuelType::oil()), 3));
}

#[test]
fn d_engine_factor_complex_2() {
    assert_eq!(7.5, to_place(d_engine_factor(BoilerType::complex(), 1910, FuelType::oil()), 3));
}

#[test]
fn d_engine_factor_complex_3() {
    assert_eq!(8.475, to_place(d_engine_factor(BoilerType::complex(), 1949, FuelType::oil()), 3));
}

#[test]
fn d_engine_factor_complex_4() {
    assert_eq!(8.5, to_place(d_engine_factor(BoilerType::complex(), 1950, FuelType::oil()), 3));
}

#[test]
fn d_engine_factor_other_1() {
    assert_eq!(3.05, to_place(d_engine_factor(BoilerType::turbine(), 1897, FuelType::oil()), 3));
}

#[test]
fn d_engine_factor_other_2() {
    assert_eq!(3.0, to_place(d_engine_factor(BoilerType::turbine(), 1902, FuelType::oil()), 3));
}

#[test]
fn d_engine_factor_other_3() {
    assert_eq!(10.0, to_place(d_engine_factor(BoilerType::turbine(), 1909, FuelType::oil()), 3));
}

#[test]
fn d_engine_factor_other_4() {
    assert_eq!(18.8, to_place(d_engine_factor(BoilerType::turbine(), 1949, FuelType::oil()), 3));
}

#[test]
fn d_engine_factor_other_5() {
    assert_eq!(19.0, to_place(d_engine_factor(BoilerType::turbine(), 1950, FuelType::oil()), 3));
}

#[test]
fn d_engine_factor_not_steam() {
    assert_eq!(
        4.825,
        to_place(d_engine_factor(BoilerType::simple(), 1900, FuelType::gasoline()), 3)
    );
}

#[test]
fn d_engine_factor_recip() {
    assert_eq!(
        6.025,
        to_place(
            d_engine_factor(BoilerType::simple() | BoilerType::complex(), 1900, FuelType::oil()),
            3
        )
    );
}

#[test]
fn d_engine_factor_simple_turbine() {
    assert_eq!(
        4.825,
        to_place(
            d_engine_factor(BoilerType::simple() | BoilerType::turbine(), 1900, FuelType::oil()),
            3
        )
    );
}

#[test]
fn d_engine_factor_complex_turbine() {
    assert_eq!(
        5.2,
        to_place(
            d_engine_factor(BoilerType::complex() | BoilerType::turbine(), 1900, FuelType::oil()),
            3
        )
    );
}

#[test]
fn d_engine_factor_is_the_formula_bit_for_bit() {
    for bits in 0..8u8 {
        let boiler = BoilerType { bits };
        for fuel in [FuelType::oil(), FuelType::diesel(), FuelType::coal() | FuelType::diesel()] {
            for year in 1860..2000u32 {
                let a = if boiler.is_simple() {
                    if year <= 1884 {
                        1.2 + (year - 1860) as f64 * 0.05
                    } else if year <= 1949 {
                        2.45 + (year - 1885) as f64 * 0.025
                    } else {
                        4.075
                    }
                } else {
                    0.0
                };
                let b = if boiler.is_complex() {
                    if year <= 1905 {
                        1.2 + (year - 1860) as f64 * 0.05
                    } else if year <= 1910 {
                        3.5 + (year - 1906) as f64
                    } else if year <= 1949 {
                        7.5 + (year - 1910) as f64 * 0.025
                    } else {
                        8.5
                    }
                } else {
                    0.0
                };
                let c = if boiler.is_turbine() || !fuel.is_steam() {
                    if year <= 1897 {
                        1.2 + (year - 1860) as f64 * 0.05
                    } else if year <= 1902 {
                        1.0 + (year - 1898) as f64 * 0.5
                    } else if year <= 1909 {
                        4.0 + (year - 1903) as f64
                    } else if year <= 1949 {
                        11.0 + (year - 1910) as f64 * 0.2
                    } else {
                        19.0
                    }
                } else {
                    0.0
                };
                let expected: f64 = a + b + c;
                assert_eq!(
                    d_engine_factor(boiler, year, fuel).to_bits(),
                    expected.to_bits(),
                    "boiler {} year {}",
                    bits,
                    year
                );
            }
        }
    }
}

#[test]
fn d_engine_factor_without_engines_is_nothing() {
    for year in [0u32, 1500, 1900, 2000, u32::MAX] {
        assert_eq!(d_engine_factor(BoilerType::empty(), year, FuelType::coal()), 0.0);
    }
}

#[test]
fn d_engine_factor_before_1860_falls_on_the_same_line() {
    for boiler in [BoilerType::simple(), BoilerType::complex(), BoilerType::turbine()] {
        assert_eq!(d_engine_factor(boiler, 1860, FuelType::coal()), 1.2);
        assert_eq!(
            d_engine_factor(boiler, 1850, FuelType::coal()).to_bits(),
            (1.2f64 - 10.0 * 0.05).to_bits()
        );
        assert_eq!(
            d_engine_factor(boiler, 1859, FuelType::coal()).to_bits(),
            (1.2f64 - 1.0 * 0.05).to_bits()
        );
    }
    assert_eq!(
        d_engine_factor(BoilerType::empty(), 1850, FuelType::diesel()).to_bits(),
        (0.0f64 + 0.0 + (1.2 - 10.0 * 0.05)).to_bits()
    );
}

#[test]
fn turbine_curve_starts_anew_in_1898() {
    let before = d_engine_factor(BoilerType::turbine(), 1897, FuelType::oil());
    let after = d_engine_factor(BoilerType::turbine(), 1898, FuelType::oil());
    assert_eq!(to_place(before, 3), 3.05);
    assert_eq!(after, 1.0);
}

#[test]
fn bunker_factor_reciprocating() {
    let b = BoilerType::simple();
    assert_eq!(value(b.bunker_factor(1910)), 1.0);
    assert_eq!(value(b.bunker_factor(1840)), 0.0);
    assert_eq!(value(b.bunker_factor(1875)), 0.5);
}

#[test]
fn bunker_factor_turbines() {
    let b = BoilerType::turbine();
    assert_eq!(value(b.bunker_factor(1897)).to_bits(), (1.0f64 - 13.0 / 70.0).to_bits());
    assert_eq!(value(b.bunker_factor(1910)), 1.0);
    assert_eq!(value(b.bunker_factor(1919)), 1.45);
    assert_eq!(value(b.bunker_factor(1920)), 1.5);
    assert_eq!(value(b.bunker_factor(1935)), 1.75);
    assert_eq!(value(b.bunker_factor(1949)).to_bits(), (1.5f64 + 29.0 / 60.0).to_bits());
    assert_eq!(value(b.bunker_factor(1950)), 2.0);
    assert_eq!(value(b.bunker_factor(2000)), 2.0);
}

#[test]
fn bunker_factor_is_the_formula_bit_for_bit() {
    for bits in 0..8u8 {
        let boiler = BoilerType { bits };
        for year in 1800..2000u32 {
            let y = year as f64;
            let expected = if boiler.is_reciprocating() {
                1.0 - (1910.0 - y) / 70.0
            } else if year < 1898 {
                1.0 - (1910.0 - y) / 70.0
            } else if year < 1920 {
                1.0 + (y - 1910.0) / 20.0
            } else if year < 1950 {
                1.5 + (y - 1920.0) / 60.0
            } else {
                2.0
            };
            let r = boiler.bunker_factor(year);
            assert_eq!(value(r).to_bits(), expected.to_bits(), "boiler {} year {}", bits, year);
        }
    }
}

#[test]
fn bunker_factor_of_early_turbines() {
    let b = BoilerType::turbine();
    assert_eq!(value(b.bunker_factor(1898)), 0.4);
    assert_eq!(value(b.bunker_factor(1900)), 0.5);
    assert_eq!(value(b.bunker_factor(1909)), 0.95);
    assert_eq!(
        b.bunker_factor(1906),
        Ramp { base: 1_000_000, years: 4, rising: false, rate: Rate::Over(20_000_000) }
    );
}

#[test]
fn bunker_factor_of_late_reciprocating_engines() {
    let b = BoilerType::complex();
    assert_eq!(value(b.bunker_factor(1945)), 1.5);
    assert_eq!(value(b.bunker_factor(1980)), 2.0);
    assert_eq!(
        b.bunker_factor(1915),
        Ramp { base: 1_000_000, years: 5, rising: true, rate: Rate::Over(70_000_000) }
    );
    let both = BoilerType::simple() | BoilerType::turbine();
    assert_eq!(both.bunker_factor(1915), b.bunker_factor(1915));
}
