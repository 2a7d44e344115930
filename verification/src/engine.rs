//! Curves by which the formulas for machinery, hull strength and general
//! progress follow the year of design.
//!
//! A curve is made of straight pieces. For a given year a curve yields the
//! piece that holds there as a [`Ramp`]: a base value and the number of years
//! over which a yearly rate applies. Bases and rates are whole numbers of
//! millionths.

use crate::flags::{flag, BoilerType, FuelType, COMPLEX, SIMPLE, TURBINE};
use vstd::prelude::*;

verus! {

/// Yearly change of a ramp, in millionths.
#[derive(Clone, Copy, Debug, PartialEq, Eq, Structural)]
pub enum Rate {
    /// The value changes by the number of years times this rate.
    Times(u32),
    /// The value changes by the number of years divided by this span.
    Over(u32),
}

/// A value that changes with a number of years at a yearly rate, upwards or
/// downwards from a base.
#[derive(Clone, Copy, Debug, PartialEq, Eq, Structural)]
pub struct Ramp {
    /// Value at no years, in millionths.
    pub base: u32,
    /// Number of years over which the rate applies.
    pub years: u32,
    /// Whether the value rises with the years (otherwise it falls).
    pub rising: bool,
    /// Yearly change.
    pub rate: Rate,
}

impl Ramp {
    /// The ramp that stays at `base`.
    pub open spec fn flat(base: u32) -> Ramp {
        Ramp { base, years: 0, rising: true, rate: Rate::Times(0) }
    }

    /// The ramp that rises from `base` by `rate` for each of `years` years.
    pub open spec fn up(base: u32, years: int, rate: u32) -> Ramp {
        Ramp { base, years: years as u32, rising: true, rate: Rate::Times(rate) }
    }

    /// The ramp that falls from `base` by `rate` for each of `years` years.
    pub open spec fn down(base: u32, years: int, rate: u32) -> Ramp {
        Ramp { base, years: years as u32, rising: false, rate: Rate::Times(rate) }
    }

    /// The ramp that rises from `base` by one in `span` for each of `years`
    /// years.
    pub open spec fn up_over(base: u32, years: int, span: u32) -> Ramp {
        Ramp { base, years: years as u32, rising: true, rate: Rate::Over(span) }
    }

    /// The ramp that falls from `base` by one in `span` for each of `years`
    /// years.
    pub open spec fn down_over(base: u32, years: int, span: u32) -> Ramp {
        Ramp { base, years: years as u32, rising: false, rate: Rate::Over(span) }
    }

    /// Value of a ramp with a rate of the `Times` kind, in millionths.
    pub open spec fn micro(self) -> int
        recommends
            self.rate is Times,
    {
        let step = self.years * self.rate->Times_0;
        if self.rising {
            self.base + step
        } else {
            self.base - step
        }
    }

    /// Denominator of the value of the ramp as a fraction.
    pub open spec fn den(self) -> int {
        match self.rate {
            Rate::Times(_) => 1_000_000,
            Rate::Over(span) => 1_000_000 * span,
        }
    }

    /// Numerator of the value of the ramp as a fraction over `den`.
    pub open spec fn num(self) -> int {
        match self.rate {
            Rate::Times(_) => self.micro(),
            Rate::Over(span) => if self.rising {
                self.base * span + self.years * 1_000_000_000_000
            } else {
                self.base * span - self.years * 1_000_000_000_000
            },
        }
    }

    /// Whether the value of the ramp is the fraction `n / d`.
    pub open spec fn is_value(self, n: int, d: int) -> bool {
        d > 0 && self.den() > 0 && self.num() * d == n * self.den()
    }

    /// Whether the ramp stays at one.
    pub open spec fn is_one(self) -> bool {
        self.base == 1_000_000 && self.years == 0
    }
}

/// The piece of the curve of general progress that holds in `year`: one less
/// a year in 66.666664 for each year before 1890, one until 1950, and
/// nothing after.
pub open spec fn spec_year_adj(year: u32) -> Ramp {
    if year <= 1890 {
        Ramp::down_over(1_000_000, 1890 - year, 66_666_664)
    } else if year <= 1950 {
        Ramp::flat(1_000_000)
    } else {
        Ramp::flat(0)
    }
}

/// Year adjustment factor for various calculations.
pub fn year_adj(year: u32) -> (r: Ramp)
    ensures
        r == spec_year_adj(year),
{
    if year <= 1890 {
        Ramp { base: 1_000_000, years: 1890 - year, rising: false, rate: Rate::Over(66_666_664) }
    } else if year <= 1950 {
        Ramp { base: 1_000_000, years: 0, rising: true, rate: Rate::Times(0) }
    } else {
        Ramp { base: 0, years: 0, rising: true, rate: Rate::Times(0) }
    }
}

/// The piece of the penalty on early steam plants that holds in `year`: one
/// and a hundredth more for each year before 1890.
pub open spec fn spec_early_steam(year: u32) -> Ramp {
    if year < 1890 {
        Ramp::up_over(1_000_000, 1890 - year, 100_000_000)
    } else {
        Ramp::flat(1_000_000)
    }
}

/// The factor by which a plant of `year` needs more power and weighs more
/// than a plant of 1890 or later.
pub fn early_steam(year: u32) -> (r: Ramp)
    ensures
        r == spec_early_steam(year),
        year >= 1890 ==> r.is_one(),
{
    if year < 1890 {
        Ramp { base: 1_000_000, years: 1890 - year, rising: true, rate: Rate::Over(100_000_000) }
    } else {
        Ramp { base: 1_000_000, years: 0, rising: true, rate: Rate::Times(0) }
    }
}

/// The piece of the allowance on the cross-sectional strength of early hulls
/// that holds in `year`: one less a hundredth for each year before 1900.
pub open spec fn spec_early_hull(year: u32) -> Ramp {
    if year < 1900 {
        Ramp::down_over(1_000_000, 1900 - year, 100_000_000)
    } else {
        Ramp::flat(1_000_000)
    }
}

/// The factor on the cross-sectional strength of a hull laid down in `year`.
pub fn early_hull(year: u32) -> (r: Ramp)
    ensures
        r == spec_early_hull(year),
        year >= 1900 ==> r.is_one(),
{
    if year < 1900 {
        Ramp { base: 1_000_000, years: 1900 - year, rising: false, rate: Rate::Over(100_000_000) }
    } else {
        Ramp { base: 1_000_000, years: 0, rising: true, rate: Rate::Times(0) }
    }
}

/// The whole factor on the longitudinal strength of a hull laid down in
/// `year`: one from 1801 on, nothing for the hundred years before.
pub open spec fn spec_early_hull_long(year: u32) -> u32 {
    if year > 1800 {
        1
    } else {
        0
    }
}

/// The whole factor on the longitudinal strength of a hull laid down in
/// `year`. It is one less a whole hundredth of the years before 1900, which
/// leaves whole numbers down to 1701.
pub fn early_hull_long(year: u32) -> (r: u32)
    requires
        year > 1700,
    ensures
        r == spec_early_hull_long(year),
{
    if year < 1900 {
        1 - (1900 - year) / 100
    } else {
        1
    }
}

/// Power of simple reciprocating engines for their weight in `year`: it
/// rises by a twentieth a year through 1860 until 1884, by a fortieth a year
/// until 1949, and stays from 1950 on.
pub open spec fn simple_curve(year: u32) -> Ramp {
    if year < 1860 {
        Ramp::down(1_200_000, 1860 - year, 50_000)
    } else if year <= 1884 {
        Ramp::up(1_200_000, year - 1860, 50_000)
    } else if year <= 1949 {
        Ramp::up(2_450_000, year - 1885, 25_000)
    } else {
        Ramp::flat(4_075_000)
    }
}

/// Power of complex reciprocating engines for their weight in `year`.
pub open spec fn complex_curve(year: u32) -> Ramp {
    if year < 1860 {
        Ramp::down(1_200_000, 1860 - year, 50_000)
    } else if year <= 1905 {
        Ramp::up(1_200_000, year - 1860, 50_000)
    } else if year <= 1910 {
        Ramp::up(3_500_000, year - 1906, 1_000_000)
    } else if year <= 1949 {
        Ramp::up(7_500_000, year - 1910, 25_000)
    } else {
        Ramp::flat(8_500_000)
    }
}

/// Power of turbines, and of engines without boilers, for their weight in
/// `year`.
pub open spec fn turbine_curve(year: u32) -> Ramp {
    if year < 1860 {
        Ramp::down(1_200_000, 1860 - year, 50_000)
    } else if year <= 1897 {
        Ramp::up(1_200_000, year - 1860, 50_000)
    } else if year <= 1902 {
        Ramp::up(1_000_000, year - 1898, 500_000)
    } else if year <= 1909 {
        Ramp::up(4_000_000, year - 1903, 1_000_000)
    } else if year <= 1949 {
        Ramp::up(11_000_000, year - 1910, 200_000)
    } else {
        Ramp::flat(19_000_000)
    }
}

fn simple_ramp(year: u32) -> (r: Ramp)
    ensures
        r == simple_curve(year),
{
    if year < 1860 {
        Ramp { base: 1_200_000, years: 1860 - year, rising: false, rate: Rate::Times(50_000) }
    } else if year <= 1884 {
        Ramp { base: 1_200_000, years: year - 1860, rising: true, rate: Rate::Times(50_000) }
    } else if year <= 1949 {
        Ramp { base: 2_450_000, years: year - 1885, rising: true, rate: Rate::Times(25_000) }
    } else {
        Ramp { base: 4_075_000, years: 0, rising: true, rate: Rate::Times(0) }
    }
}

fn complex_ramp(year: u32) -> (r: Ramp)
    ensures
        r == complex_curve(year),
{
    if year < 1860 {
        Ramp { base: 1_200_000, years: 1860 - year, rising: false, rate: Rate::Times(50_000) }
    } else if year <= 1905 {
        Ramp { base: 1_200_000, years: year - 1860, rising: true, rate: Rate::Times(50_000) }
    } else if year <= 1910 {
        Ramp { base: 3_500_000, years: year - 1906, rising: true, rate: Rate::Times(1_000_000) }
    } else if year <= 1949 {
        Ramp { base: 7_500_000, years: year - 1910, rising: true, rate: Rate::Times(25_000) }
    } else {
        Ramp { base: 8_500_000, years: 0, rising: true, rate: Rate::Times(0) }
    }
}

fn turbine_ramp(year: u32) -> (r: Ramp)
    ensures
        r == turbine_curve(year),
{
    if year < 1860 {
        Ramp { base: 1_200_000, years: 1860 - year, rising: false, rate: Rate::Times(50_000) }
    } else if year <= 1897 {
        Ramp { base: 1_200_000, years: year - 1860, rising: true, rate: Rate::Times(50_000) }
    } else if year <= 1902 {
        Ramp { base: 1_000_000, years: year - 1898, rising: true, rate: Rate::Times(500_000) }
    } else if year <= 1909 {
        Ramp { base: 4_000_000, years: year - 1903, rising: true, rate: Rate::Times(1_000_000) }
    } else if year <= 1949 {
        Ramp { base: 11_000_000, years: year - 1910, rising: true, rate: Rate::Times(200_000) }
    } else {
        Ramp { base: 19_000_000, years: 0, rising: true, rate: Rate::Times(0) }
    }
}

impl BoilerType {
    /// Whether the third term of the engine factor applies: the plant has
    /// turbines, or `fuel` fires no boiler.
    pub open spec fn turbine_term(self, fuel: FuelType) -> bool {
        flag(self.bits, TURBINE) || !fuel.spec_is_steam()
    }

    /// The three terms of the engine factor: the curve of each kind of
    /// engine that the plant has, and nothing for a kind that it lacks. A
    /// plant whose fuel fires no boiler takes the third term as turbines do.
    pub open spec fn spec_d_engine_factor(self, year: u32, fuel: FuelType) -> (Ramp, Ramp, Ramp) {
        (
            if flag(self.bits, SIMPLE) {
                simple_curve(year)
            } else {
                Ramp::flat(0)
            },
            if flag(self.bits, COMPLEX) {
                complex_curve(year)
            } else {
                Ramp::flat(0)
            },
            if self.turbine_term(fuel) {
                turbine_curve(year)
            } else {
                Ramp::flat(0)
            },
        )
    }

    /// The three terms whose sum is the power of the plant for its weight in
    /// `year`.
    pub fn d_engine_factor(&self, year: u32, fuel: FuelType) -> (r: (Ramp, Ramp, Ramp))
        ensures
            r == self.spec_d_engine_factor(year, fuel),
    {
        let none = Ramp { base: 0, years: 0, rising: true, rate: Rate::Times(0) };
        let a = if self.is_simple() {
            simple_ramp(year)
        } else {
            none
        };
        let b = if self.is_complex() {
            complex_ramp(year)
        } else {
            none
        };
        let c = if self.is_turbine() || !fuel.is_steam() {
            turbine_ramp(year)
        } else {
            none
        };
        (a, b, c)
    }

    /// The piece of the curve of fuel economy that holds in `year`.
    /// Reciprocating engines, and all engines before 1898, have one at 1910
    /// and a year in 70 less or more for each year before or after. Other
    /// engines have one at 1910 and a year in 20 less or more for each year
    /// from 1898 until 1919, one and a half and a year in 60 for each year
    /// after 1920 until 1949, and two from 1950 on.
    pub open spec fn spec_bunker_factor(self, year: u32) -> Ramp {
        if self.spec_is_reciprocating() || year < 1898 {
            if year <= 1910 {
                Ramp::down_over(1_000_000, 1910 - year, 70_000_000)
            } else {
                Ramp::up_over(1_000_000, year - 1910, 70_000_000)
            }
        } else if year < 1910 {
            Ramp::down_over(1_000_000, 1910 - year, 20_000_000)
        } else if year < 1920 {
            Ramp::up_over(1_000_000, year - 1910, 20_000_000)
        } else if year < 1950 {
            Ramp::up_over(1_500_000, year - 1920, 60_000_000)
        } else {
            Ramp::flat(2_000_000)
        }
    }

    /// The piece of the curve of fuel economy that holds in `year`.
    pub fn bunker_factor(&self, year: u32) -> (r: Ramp)
        ensures
            r == self.spec_bunker_factor(year),
    {
        if self.is_reciprocating() || year < 1898 {
            if year <= 1910 {
                Ramp {
                    base: 1_000_000,
                    years: 1910 - year,
                    rising: false,
                    rate: Rate::Over(70_000_000),
                }
            } else {
                Ramp {
                    base: 1_000_000,
                    years: year - 1910,
                    rising: true,
                    rate: Rate::Over(70_000_000),
                }
            }
        } else if year < 1910 {
            Ramp { base: 1_000_000, years: 1910 - year, rising: false, rate: Rate::Over(20_000_000) }
        } else if year < 1920 {
            Ramp { base: 1_000_000, years: year - 1910, rising: true, rate: Rate::Over(20_000_000) }
        } else if year < 1950 {
            Ramp { base: 1_500_000, years: year - 1920, rising: true, rate: Rate::Over(60_000_000) }
        } else {
            Ramp { base: 2_000_000, years: 0, rising: true, rate: Rate::Times(0) }
        }
    }
}

/// The fractions of the ramps that rise or fall by one in a span.
proof fn lemma_over(base: u32, years: int, span: u32)
    requires
        0 <= years <= u32::MAX,
        span > 0,
    ensures
        Ramp::up_over(base, years, span).den() == 1_000_000 * span,
        Ramp::up_over(base, years, span).num() == base * span + years * 1_000_000_000_000,
        Ramp::down_over(base, years, span).den() == 1_000_000 * span,
        Ramp::down_over(base, years, span).num() == base * span - years * 1_000_000_000_000,
        Ramp::flat(base).den() == 1_000_000,
        Ramp::flat(base).num() == base,
{
    assert(years as u32 == years);
    assert(0 * 0 == 0);
}

/// The values in millionths of the ramps that rise by a rate.
proof fn lemma_up(base: u32, years: int, rate: u32)
    requires
        0 <= years <= u32::MAX,
    ensures
        Ramp::up(base, years, rate).micro() == base + years * rate,
        Ramp::down(base, years, rate).micro() == base - years * rate,
        Ramp::flat(base).micro() == base,
{
    assert(years as u32 == years);
    assert(0 * 0 == 0);
}

/// The penalty on early steam plants is one and a hundredth for each year
/// before 1890, and exactly one from 1890 on: a plant of 1889 has 101
/// hundredths.
pub proof fn lemma_early_steam_value(year: u32)
    ensures
        year < 1890 ==> spec_early_steam(year).is_value(100 + (1890 - year), 100),
        year >= 1890 ==> spec_early_steam(year).is_value(1, 1),
        spec_early_steam(1889).is_value(101, 100),
{
    lemma_over(1_000_000, 1, 100_000_000);
    if year < 1890 {
        lemma_over(1_000_000, 1890 - year, 100_000_000);
    } else {
        lemma_over(1_000_000, 0, 100_000_000);
    }
}

/// General progress is one from 1890 to 1950 and nothing after 1950; before
/// 1890 it is less than one by a year in 66.666664 for each year, and so
/// never more than one.
pub proof fn lemma_year_adj_value(year: u32)
    ensures
        year <= 1890 ==> spec_year_adj(year).is_value(
            66_666_664 - (1890 - year) * 1_000_000,
            66_666_664,
        ),
        1890 <= year <= 1950 ==> spec_year_adj(year).is_value(1, 1),
        year > 1950 ==> spec_year_adj(year).is_value(0, 1),
        spec_year_adj(year).num() <= spec_year_adj(year).den(),
{
    if year <= 1890 {
        lemma_over(1_000_000, 1890 - year, 66_666_664);
    } else {
        lemma_over(1_000_000, 0, 1);
        lemma_over(0, 0, 1);
    }
}

/// The fuel economy of engines other than reciprocating ones, from 1898 on,
/// written out as fractions: it rises by a twentieth a year through one in
/// 1910, by a sixtieth a year from one and a half in 1920, and stays at two
/// from 1950 on. Each piece starts where the one before it ends.
pub proof fn lemma_bunker_factor_value(b: BoilerType, year: u32)
    requires
        !b.spec_is_reciprocating(),
        year >= 1898,
    ensures
        year < 1920 ==> b.spec_bunker_factor(year).is_value(year - 1890, 20),
        1920 <= year < 1950 ==> b.spec_bunker_factor(year).is_value(90 + (year - 1920), 60),
        year >= 1950 ==> b.spec_bunker_factor(year).is_value(2, 1),
        b.spec_bunker_factor(1920).is_value(1920 - 1890, 20),
        b.spec_bunker_factor(1950).is_value(90 + (1950 - 1920), 60),
{
    lemma_over(1_500_000, 0, 60_000_000);
    lemma_over(2_000_000, 0, 1);
    assert(b.spec_bunker_factor(1920) == Ramp::up_over(1_500_000, 0, 60_000_000));
    assert(b.spec_bunker_factor(1950) == Ramp::flat(2_000_000));
    if year < 1910 {
        lemma_over(1_000_000, 1910 - year, 20_000_000);
    } else if year < 1920 {
        lemma_over(1_000_000, year - 1910, 20_000_000);
    } else if year < 1950 {
        lemma_over(1_500_000, year - 1920, 60_000_000);
    }
}

/// The fuel economy of reciprocating engines, and of all engines before
/// 1898, is the seventieth part of the years since 1840: nothing in 1840 and
/// one in 1910.
pub proof fn lemma_bunker_factor_early_value(b: BoilerType, year: u32)
    requires
        b.spec_is_reciprocating() || year < 1898,
    ensures
        b.spec_bunker_factor(year).is_value(year - 1840, 70),
{
    if year <= 1910 {
        lemma_over(1_000_000, 1910 - year, 70_000_000);
    } else {
        lemma_over(1_000_000, year - 1910, 70_000_000);
    }
}

/// Reciprocating engines never lose power for their weight with the years:
/// on their two curves a later year gives at least the value of an earlier
/// one. The curve of turbines starts anew in 1898, below the value of 1897,
/// and rises before and after.
pub proof fn lemma_engine_curves_rise(y1: u32, y2: u32)
    requires
        y1 <= y2,
    ensures
        simple_curve(y1).micro() <= simple_curve(y2).micro(),
        complex_curve(y1).micro() <= complex_curve(y2).micro(),
        y2 <= 1897 || 1898 <= y1 ==> turbine_curve(y1).micro() <= turbine_curve(y2).micro(),
        turbine_curve(1898).micro() < turbine_curve(1897).micro(),
{
    lemma_curve_values(y1);
    lemma_curve_values(y2);
    lemma_curve_values(1897);
    lemma_curve_values(1898);
}

/// The values of the three curves, in millionths, written out piece by
/// piece.
proof fn lemma_curve_values(y: u32)
    ensures
        simple_curve(y).micro() == (if y <= 1884 {
            1_200_000 + (y - 1860) * 50_000
        } else if y <= 1949 {
            2_450_000 + (y - 1885) * 25_000
        } else {
            4_075_000
        }),
        complex_curve(y).micro() == (if y <= 1905 {
            1_200_000 + (y - 1860) * 50_000
        } else if y <= 1910 {
            3_500_000 + (y - 1906) * 1_000_000
        } else if y <= 1949 {
            7_500_000 + (y - 1910) * 25_000
        } else {
            8_500_000
        }),
        turbine_curve(y).micro() == (if y <= 1897 {
            1_200_000 + (y - 1860) * 50_000
        } else if y <= 1902 {
            1_000_000 + (y - 1898) * 500_000
        } else if y <= 1909 {
            4_000_000 + (y - 1903) * 1_000_000
        } else if y <= 1949 {
            11_000_000 + (y - 1910) * 200_000
        } else {
            19_000_000
        }),
{
    lemma_up(4_075_000, 0, 0);
    lemma_up(8_500_000, 0, 0);
    lemma_up(19_000_000, 0, 0);
    if y < 1860 {
        lemma_up(1_200_000, 1860 - y, 50_000);
    } else if y <= 1949 {
        lemma_up(1_200_000, y - 1860, 50_000);
        if y >= 1885 {
            lemma_up(2_450_000, y - 1885, 25_000);
        }
        if y >= 1898 {
            lemma_up(1_000_000, y - 1898, 500_000);
        }
        if y >= 1903 {
            lemma_up(4_000_000, y - 1903, 1_000_000);
        }
        if y >= 1906 {
            lemma_up(3_500_000, y - 1906, 1_000_000);
        }
        if y >= 1910 {
            lemma_up(7_500_000, y - 1910, 25_000);
            lemma_up(11_000_000, y - 1910, 200_000);
        }
    }
}

} // verus!
