//! Capability sets of the machinery: which fuels are burnt, which kinds of
//! engine are fitted, and how they drive the shafts.
//!
//! Each set is a byte in which every capability has a bit of its own, so
//! that any combination can be held and compared exactly.

use core::ops::BitOr;
use vstd::prelude::*;
use vstd::std_specs::ops::BitOrSpecImpl;
use vstd::string::*;

verus! {

/// Bit of coal firing in a [`FuelType`].
pub const COAL: u8 = 1;

/// Bit of oil firing in a [`FuelType`].
pub const OIL: u8 = 2;

/// Bit of diesel fuel in a [`FuelType`].
pub const DIESEL: u8 = 4;

/// Bit of gasoline in a [`FuelType`].
pub const GASOLINE: u8 = 8;

/// Bit of electric batteries in a [`FuelType`].
pub const BATTERY: u8 = 16;

/// Bit of simple reciprocating engines in a [`BoilerType`].
pub const SIMPLE: u8 = 1;

/// Bit of complex reciprocating engines in a [`BoilerType`].
pub const COMPLEX: u8 = 2;

/// Bit of steam turbines in a [`BoilerType`].
pub const TURBINE: u8 = 4;

/// Bit of direct drive in a [`DriveType`].
pub const DIRECT: u8 = 1;

/// Bit of geared drive in a [`DriveType`].
pub const GEARED: u8 = 2;

/// Bit of electric drive in a [`DriveType`].
pub const ELECTRIC: u8 = 4;

/// Bit of hydraulic drive in a [`DriveType`].
pub const HYDRAULIC: u8 = 8;

/// Whether `mask` is the bit of a single capability.
pub open spec fn single(mask: u8) -> bool {
    mask == 1 || mask == 2 || mask == 4 || mask == 8 || mask == 16 || mask == 32 || mask == 64
        || mask == 128
}

/// Whether the set `bits` holds the capability whose bit is `mask`.
pub open spec fn flag(bits: u8, mask: u8) -> bool
    recommends
        single(mask),
{
    (bits / mask) % 2 == 1
}

/// Whether the set `bits` holds every capability of the set `mask`.
pub open spec fn holds(bits: u8, mask: u8) -> bool {
    bits & mask == mask
}

/// Number of capabilities in the set `b`.
pub open spec fn popcount(b: u8) -> nat {
    ((b / 1) % 2 + (b / 2) % 2 + (b / 4) % 2 + (b / 8) % 2 + (b / 16) % 2 + (b / 32) % 2 + (b / 64)
        % 2 + (b / 128) % 2) as nat
}

/// For a single capability, the set holds it exactly when its bit is set.
pub proof fn lemma_flag_bit(bits: u8, mask: u8)
    requires
        single(mask),
    ensures
        flag(bits, mask) == holds(bits, mask),
        flag(bits, mask) == (bits & mask != 0),
{
    assert(mask == 1 || mask == 2 || mask == 4 || mask == 8 || mask == 16 || mask == 32 || mask
        == 64 || mask == 128 ==> (((bits / mask) % 2 == 1) == (bits & mask == mask)) && (((bits
        / mask) % 2 == 1) == (bits & mask != 0))) by (bit_vector);
}

/// A union holds a capability exactly when one of the two sets holds it.
pub proof fn lemma_union_flag(a: u8, b: u8, mask: u8)
    requires
        single(mask),
    ensures
        flag(a | b, mask) == (flag(a, mask) || flag(b, mask)),
{
    assert(mask == 1 || mask == 2 || mask == 4 || mask == 8 || mask == 16 || mask == 32 || mask
        == 64 || mask == 128 ==> ((((a | b) / mask) % 2 == 1) == ((a / mask) % 2 == 1 || (b / mask)
        % 2 == 1))) by (bit_vector);
}

/// Toggling flips the capabilities of the second set in the first and leaves
/// the others as they were.
pub proof fn lemma_toggle_flag(a: u8, b: u8, mask: u8)
    requires
        single(mask),
    ensures
        flag(a ^ b, mask) == (flag(a, mask) != flag(b, mask)),
{
    assert(mask == 1 || mask == 2 || mask == 4 || mask == 8 || mask == 16 || mask == 32 || mask
        == 64 || mask == 128 ==> ((((a ^ b) / mask) % 2 == 1) == (((a / mask) % 2 == 1) != ((b
        / mask) % 2 == 1)))) by (bit_vector);
}

/// Number of capabilities in the set `b`.
pub fn count_ones(b: u8) -> (r: u32)
    ensures
        r == popcount(b),
        r <= 8,
{
    assert(((b >> 0) & 1) == (b / 1) % 2 && ((b >> 1) & 1) == (b / 2) % 2 && ((b >> 2) & 1) == (b
        / 4) % 2 && ((b >> 3) & 1) == (b / 8) % 2 && ((b >> 4) & 1) == (b / 16) % 2 && ((b >> 5)
        & 1) == (b / 32) % 2 && ((b >> 6) & 1) == (b / 64) % 2 && ((b >> 7) & 1) == (b / 128) % 2)
        by (bit_vector);
    let n: u8 = ((b >> 0) & 1) + ((b >> 1) & 1) + ((b >> 2) & 1) + ((b >> 3) & 1) + ((b >> 4) & 1)
        + ((b >> 5) & 1) + ((b >> 6) & 1) + ((b >> 7) & 1);
    n as u32
}

/// Fuels that the machinery burns. Any combination may be held; the report
/// names the combinations that were built.
#[derive(Clone, Copy, Debug, PartialEq, Eq, Structural)]
pub struct FuelType {
    /// One bit for each fuel: `COAL`, `OIL`, `DIESEL`, `GASOLINE`, `BATTERY`.
    pub bits: u8,
}

/// Kinds of steam engine that are fitted; each kind is one engine unit.
#[derive(Clone, Copy, Debug, PartialEq, Eq, Structural)]
pub struct BoilerType {
    /// One bit for each kind: `SIMPLE`, `COMPLEX`, `TURBINE`.
    pub bits: u8,
}

/// Ways in which the engines drive the shafts.
#[derive(Clone, Copy, Debug, PartialEq, Eq, Structural)]
pub struct DriveType {
    /// One bit for each way: `DIRECT`, `GEARED`, `ELECTRIC`, `HYDRAULIC`.
    pub bits: u8,
}

impl FuelType {
    /// The set without any fuel.
    pub fn empty() -> (r: FuelType)
        ensures
            r.bits == 0,
    {
        FuelType { bits: 0 }
    }

    /// Coal alone.
    pub fn coal() -> (r: FuelType)
        ensures
            r.bits == COAL,
    {
        FuelType { bits: COAL }
    }

    /// Oil alone.
    pub fn oil() -> (r: FuelType)
        ensures
            r.bits == OIL,
    {
        FuelType { bits: OIL }
    }

    /// Diesel alone.
    pub fn diesel() -> (r: FuelType)
        ensures
            r.bits == DIESEL,
    {
        FuelType { bits: DIESEL }
    }

    /// Gasoline alone.
    pub fn gasoline() -> (r: FuelType)
        ensures
            r.bits == GASOLINE,
    {
        FuelType { bits: GASOLINE }
    }

    /// Batteries alone.
    pub fn battery() -> (r: FuelType)
        ensures
            r.bits == BATTERY,
    {
        FuelType { bits: BATTERY }
    }

    /// The byte that holds the set.
    pub fn bits(&self) -> (r: u8)
        ensures
            r == self.bits,
    {
        self.bits
    }

    /// Whether every fuel of `other` is in the set.
    pub fn contains(&self, other: FuelType) -> (r: bool)
        ensures
            r == holds(self.bits, other.bits),
            single(other.bits) ==> r == flag(self.bits, other.bits),
    {
        proof {
            if single(other.bits) {
                lemma_flag_bit(self.bits, other.bits);
            }
        }
        self.bits & other.bits == other.bits
    }

    /// Puts in the fuels of `other` that are missing and takes out those that
    /// are there.
    pub fn toggle(&mut self, other: FuelType)
        ensures
            final(self).bits == old(self).bits ^ other.bits,
            forall|mask: u8|
                single(mask) ==> #[trigger] flag(final(self).bits, mask) == (flag(
                    old(self).bits,
                    mask,
                ) != flag(other.bits, mask)),
    {
        proof {
            assert forall|mask: u8| single(mask) implies #[trigger] flag(
                self.bits ^ other.bits,
                mask,
            ) == (flag(self.bits, mask) != flag(other.bits, mask)) by {
                lemma_toggle_flag(self.bits, other.bits, mask);
            }
        }
        self.bits = self.bits ^ other.bits;
    }

    /// The fuels of either set.
    pub fn union(self, other: FuelType) -> (r: FuelType)
        ensures
            r.bits == self.bits | other.bits,
            forall|mask: u8|
                single(mask) ==> #[trigger] flag(r.bits, mask) == (flag(self.bits, mask) || flag(
                    other.bits,
                    mask,
                )),
    {
        proof {
            assert forall|mask: u8| single(mask) implies #[trigger] flag(
                self.bits | other.bits,
                mask,
            ) == (flag(self.bits, mask) || flag(other.bits, mask)) by {
                lemma_union_flag(self.bits, other.bits, mask);
            }
        }
        FuelType { bits: self.bits | other.bits }
    }

    /// Whether the fuels include one that fires boilers.
    pub open spec fn spec_is_steam(self) -> bool {
        flag(self.bits, COAL) || flag(self.bits, OIL)
    }

    /// Return true if the fuel indicates a steam engine.
    pub fn is_steam(&self) -> (r: bool)
        ensures
            r == self.spec_is_steam(),
    {
        self.contains(FuelType::coal()) || self.contains(FuelType::oil())
    }

    /// Wording of the combination of fuels in the report. A combination that
    /// was never built is reported as an error to revise.
    pub open spec fn name(self) -> Seq<char> {
        if self.bits == COAL {
            "Coal fired boilers"@
        } else if self.bits == OIL {
            "Oil fired boilers"@
        } else if self.bits == COAL + OIL {
            "Coal and oil fired boilers"@
        } else if self.bits == COAL + DIESEL {
            "Coal fired boilers plus diesel motors"@
        } else if self.bits == OIL + DIESEL {
            "Oil fired boilers plus diesel motors"@
        } else if self.bits == COAL + OIL + DIESEL {
            "Coal and oil fired boilers plus diesel motors"@
        } else if self.bits == DIESEL {
            "Diesel internal combustion motors"@
        } else if self.bits == DIESEL + BATTERY {
            "Diesel internal combustion engines plus batteries"@
        } else if self.bits == GASOLINE {
            "Gasoline internal combustion motors"@
        } else if self.bits == GASOLINE + BATTERY {
            "Gasoline internal combustion motors plus batteries"@
        } else if self.bits == BATTERY {
            "Battery powered"@
        } else {
            "ERROR: Revise fuels"@
        }
    }

    /// Wording of the combination of fuels in the report.
    pub fn to_string(&self) -> (s: String)
        ensures
            s@ == self.name(),
    {
        let b = self.bits;
        let s = if b == COAL {
            "Coal fired boilers"
        } else if b == OIL {
            "Oil fired boilers"
        } else if b == COAL + OIL {
            "Coal and oil fired boilers"
        } else if b == COAL + DIESEL {
            "Coal fired boilers plus diesel motors"
        } else if b == OIL + DIESEL {
            "Oil fired boilers plus diesel motors"
        } else if b == COAL + OIL + DIESEL {
            "Coal and oil fired boilers plus diesel motors"
        } else if b == DIESEL {
            "Diesel internal combustion motors"
        } else if b == DIESEL + BATTERY {
            "Diesel internal combustion engines plus batteries"
        } else if b == GASOLINE {
            "Gasoline internal combustion motors"
        } else if b == GASOLINE + BATTERY {
            "Gasoline internal combustion motors plus batteries"
        } else if b == BATTERY {
            "Battery powered"
        } else {
            "ERROR: Revise fuels"
        };
        String::from_str(s)
    }
}

impl BoilerType {
    /// The set without any engine.
    pub fn empty() -> (r: BoilerType)
        ensures
            r.bits == 0,
    {
        BoilerType { bits: 0 }
    }

    /// Simple reciprocating engines alone.
    pub fn simple() -> (r: BoilerType)
        ensures
            r.bits == SIMPLE,
    {
        BoilerType { bits: SIMPLE }
    }

    /// Complex reciprocating engines alone.
    pub fn complex() -> (r: BoilerType)
        ensures
            r.bits == COMPLEX,
    {
        BoilerType { bits: COMPLEX }
    }

    /// Steam turbines alone.
    pub fn turbine() -> (r: BoilerType)
        ensures
            r.bits == TURBINE,
    {
        BoilerType { bits: TURBINE }
    }

    /// The byte that holds the set.
    pub fn bits(&self) -> (r: u8)
        ensures
            r == self.bits,
    {
        self.bits
    }

    /// Whether every kind of `other` is in the set.
    pub fn contains(&self, other: BoilerType) -> (r: bool)
        ensures
            r == holds(self.bits, other.bits),
            single(other.bits) ==> r == flag(self.bits, other.bits),
    {
        proof {
            if single(other.bits) {
                lemma_flag_bit(self.bits, other.bits);
            }
        }
        self.bits & other.bits == other.bits
    }

    /// Puts in the kinds of `other` that are missing and takes out those that
    /// are there.
    pub fn toggle(&mut self, other: BoilerType)
        ensures
            final(self).bits == old(self).bits ^ other.bits,
            forall|mask: u8|
                single(mask) ==> #[trigger] flag(final(self).bits, mask) == (flag(
                    old(self).bits,
                    mask,
                ) != flag(other.bits, mask)),
    {
        proof {
            assert forall|mask: u8| single(mask) implies #[trigger] flag(
                self.bits ^ other.bits,
                mask,
            ) == (flag(self.bits, mask) != flag(other.bits, mask)) by {
                lemma_toggle_flag(self.bits, other.bits, mask);
            }
        }
        self.bits = self.bits ^ other.bits;
    }

    /// The kinds of either set.
    pub fn union(self, other: BoilerType) -> (r: BoilerType)
        ensures
            r.bits == self.bits | other.bits,
            forall|mask: u8|
                single(mask) ==> #[trigger] flag(r.bits, mask) == (flag(self.bits, mask) || flag(
                    other.bits,
                    mask,
                )),
    {
        proof {
            assert forall|mask: u8| single(mask) implies #[trigger] flag(
                self.bits | other.bits,
                mask,
            ) == (flag(self.bits, mask) || flag(other.bits, mask)) by {
                lemma_union_flag(self.bits, other.bits, mask);
            }
        }
        BoilerType { bits: self.bits | other.bits }
    }

    /// Whether the set holds a reciprocating engine, simple or complex.
    pub open spec fn spec_is_reciprocating(self) -> bool {
        flag(self.bits, SIMPLE) || flag(self.bits, COMPLEX)
    }

    /// Unit in which the power of the engines is given: indicated horsepower
    /// for reciprocating engines, shaft horsepower otherwise.
    pub open spec fn hp_type_text(self) -> Seq<char> {
        if self.spec_is_reciprocating() {
            "ihp"@
        } else {
            "shp"@
        }
    }

    /// Unit in which the power of the engines is given.
    pub fn hp_type(&self) -> (s: String)
        ensures
            s@ == self.hp_type_text(),
    {
        if self.is_reciprocating() {
            String::from_str("ihp")
        } else {
            String::from_str("shp")
        }
    }

    /// Number of steam engines.
    ///
    /// Each bit set is one engine.
    pub fn num_engines(&self) -> (r: u32)
        ensures
            r == popcount(self.bits),
            r <= 8,
    {
        count_ones(self.bits)
    }

    /// Return true if the boiler has simple reciprocating engines.
    pub fn is_simple(&self) -> (r: bool)
        ensures
            r == flag(self.bits, SIMPLE),
    {
        self.contains(BoilerType::simple())
    }

    /// Return true if the boiler has complex reciprocating engines.
    pub fn is_complex(&self) -> (r: bool)
        ensures
            r == flag(self.bits, COMPLEX),
    {
        self.contains(BoilerType::complex())
    }

    /// Return true if the boiler has any type of reciprocating engines.
    pub fn is_reciprocating(&self) -> (r: bool)
        ensures
            r == self.spec_is_reciprocating(),
    {
        self.is_simple() || self.is_complex()
    }

    /// Return true if the boiler has steam turbines.
    pub fn is_turbine(&self) -> (r: bool)
        ensures
            r == flag(self.bits, TURBINE),
    {
        self.contains(BoilerType::turbine())
    }

    /// Wording of the combination of engines in the report. All three kinds
    /// together, and any other combination that is not named, are reported as
    /// errors.
    pub open spec fn name(self) -> Seq<char> {
        if self.bits == SIMPLE {
            "simple receiprocating steam engines"@
        } else if self.bits == COMPLEX {
            "complex receiprocating steam engines"@
        } else if self.bits == TURBINE {
            "steam turbines"@
        } else if self.bits == SIMPLE + COMPLEX {
            "reciprocating steam engines"@
        } else if self.bits == SIMPLE + TURBINE {
            "reciprocating cruising steam engines and steam turbines"@
        } else if self.bits == SIMPLE + COMPLEX + TURBINE {
            "ERROR: Too many types of steam engines"@
        } else {
            "ERROR: No steam engines"@
        }
    }

    /// Wording of the combination of engines in the report.
    pub fn to_string(&self) -> (s: String)
        ensures
            s@ == self.name(),
    {
        let b = self.bits;
        let s = if b == SIMPLE {
            "simple receiprocating steam engines"
        } else if b == COMPLEX {
            "complex receiprocating steam engines"
        } else if b == TURBINE {
            "steam turbines"
        } else if b == SIMPLE + COMPLEX {
            "reciprocating steam engines"
        } else if b == SIMPLE + TURBINE {
            "reciprocating cruising steam engines and steam turbines"
        } else if b == SIMPLE + COMPLEX + TURBINE {
            "ERROR: Too many types of steam engines"
        } else {
            "ERROR: No steam engines"
        };
        String::from_str(s)
    }
}

impl DriveType {
    /// The set without any drive.
    pub fn empty() -> (r: DriveType)
        ensures
            r.bits == 0,
    {
        DriveType { bits: 0 }
    }

    /// Direct drive alone.
    pub fn direct() -> (r: DriveType)
        ensures
            r.bits == DIRECT,
    {
        DriveType { bits: DIRECT }
    }

    /// Geared drive alone.
    pub fn geared() -> (r: DriveType)
        ensures
            r.bits == GEARED,
    {
        DriveType { bits: GEARED }
    }

    /// Electric drive alone.
    pub fn electric() -> (r: DriveType)
        ensures
            r.bits == ELECTRIC,
    {
        DriveType { bits: ELECTRIC }
    }

    /// Hydraulic drive alone.
    pub fn hydraulic() -> (r: DriveType)
        ensures
            r.bits == HYDRAULIC,
    {
        DriveType { bits: HYDRAULIC }
    }

    /// The byte that holds the set.
    pub fn bits(&self) -> (r: u8)
        ensures
            r == self.bits,
    {
        self.bits
    }

    /// Whether every way of `other` is in the set.
    pub fn contains(&self, other: DriveType) -> (r: bool)
        ensures
            r == holds(self.bits, other.bits),
            single(other.bits) ==> r == flag(self.bits, other.bits),
    {
        proof {
            if single(other.bits) {
                lemma_flag_bit(self.bits, other.bits);
            }
        }
        self.bits & other.bits == other.bits
    }

    /// Puts in the ways of `other` that are missing and takes out those that
    /// are there.
    pub fn toggle(&mut self, other: DriveType)
        ensures
            final(self).bits == old(self).bits ^ other.bits,
            forall|mask: u8|
                single(mask) ==> #[trigger] flag(final(self).bits, mask) == (flag(
                    old(self).bits,
                    mask,
                ) != flag(other.bits, mask)),
    {
        proof {
            assert forall|mask: u8| single(mask) implies #[trigger] flag(
                self.bits ^ other.bits,
                mask,
            ) == (flag(self.bits, mask) != flag(other.bits, mask)) by {
                lemma_toggle_flag(self.bits, other.bits, mask);
            }
        }
        self.bits = self.bits ^ other.bits;
    }

    /// The ways of either set.
    pub fn union(self, other: DriveType) -> (r: DriveType)
        ensures
            r.bits == self.bits | other.bits,
            forall|mask: u8|
                single(mask) ==> #[trigger] flag(r.bits, mask) == (flag(self.bits, mask) || flag(
                    other.bits,
                    mask,
                )),
    {
        proof {
            assert forall|mask: u8| single(mask) implies #[trigger] flag(
                self.bits | other.bits,
                mask,
            ) == (flag(self.bits, mask) || flag(other.bits, mask)) by {
                lemma_union_flag(self.bits, other.bits, mask);
            }
        }
        DriveType { bits: self.bits | other.bits }
    }

    /// Wording of the drive in the report. A combination that is not named
    /// is reported as an error to revise.
    pub open spec fn name(self) -> Seq<char> {
        if self.bits == DIRECT {
            "Direct drive"@
        } else if self.bits == GEARED {
            "Geared drive"@
        } else if self.bits == ELECTRIC {
            "Electric motors"@
        } else if self.bits == HYDRAULIC {
            "Hydraulic drive"@
        } else if self.bits == GEARED + ELECTRIC {
            "Electric cruising motors plus geared drives"@
        } else {
            "ERROR: Revise drives"@
        }
    }

    /// Wording of the drive in the report.
    pub fn to_string(&self) -> (s: String)
        ensures
            s@ == self.name(),
    {
        let b = self.bits;
        let s = if b == DIRECT {
            "Direct drive"
        } else if b == GEARED {
            "Geared drive"
        } else if b == ELECTRIC {
            "Electric motors"
        } else if b == HYDRAULIC {
            "Hydraulic drive"
        } else if b == GEARED + ELECTRIC {
            "Electric cruising motors plus geared drives"
        } else {
            "ERROR: Revise drives"
        };
        String::from_str(s)
    }
}

impl Default for FuelType {
    fn default() -> (r: FuelType)
        ensures
            r.bits == 0,
    {
        FuelType { bits: 0 }
    }
}

impl Default for BoilerType {
    fn default() -> (r: BoilerType)
        ensures
            r.bits == 0,
    {
        BoilerType { bits: 0 }
    }
}

impl Default for DriveType {
    fn default() -> (r: DriveType)
        ensures
            r.bits == 0,
    {
        DriveType { bits: 0 }
    }
}

impl BitOr for FuelType {
    type Output = FuelType;

    fn bitor(self, rhs: FuelType) -> (r: FuelType) {
        FuelType { bits: self.bits | rhs.bits }
    }
}

impl BitOrSpecImpl for FuelType {
    open spec fn obeys_bitor_spec() -> bool {
        true
    }

    open spec fn bitor_req(self, rhs: FuelType) -> bool {
        true
    }

    open spec fn bitor_spec(self, rhs: FuelType) -> FuelType {
        FuelType { bits: self.bits | rhs.bits }
    }
}

impl BitOr for BoilerType {
    type Output = BoilerType;

    fn bitor(self, rhs: BoilerType) -> (r: BoilerType) {
        BoilerType { bits: self.bits | rhs.bits }
    }
}

impl BitOrSpecImpl for BoilerType {
    open spec fn obeys_bitor_spec() -> bool {
        true
    }

    open spec fn bitor_req(self, rhs: BoilerType) -> bool {
        true
    }

    open spec fn bitor_spec(self, rhs: BoilerType) -> BoilerType {
        BoilerType { bits: self.bits | rhs.bits }
    }
}

impl BitOr for DriveType {
    type Output = DriveType;

    fn bitor(self, rhs: DriveType) -> (r: DriveType) {
        DriveType { bits: self.bits | rhs.bits }
    }
}

impl BitOrSpecImpl for DriveType {
    open spec fn obeys_bitor_spec() -> bool {
        true
    }

    open spec fn bitor_req(self, rhs: DriveType) -> bool {
        true
    }

    open spec fn bitor_spec(self, rhs: DriveType) -> DriveType {
        DriveType { bits: self.bits | rhs.bits }
    }
}

/// Toggling the same capabilities twice restores the set, and toggling them
/// into the empty set gives exactly them.
pub proof fn lemma_toggle_twice(bits: u8, mask: u8)
    ensures
        (bits ^ mask) ^ mask == bits,
        0u8 ^ mask == mask,
{
    assert((bits ^ mask) ^ mask == bits && 0u8 ^ mask == mask) by (bit_vector);
}

/// A set is known by the capabilities that it holds: its byte is the sum of
/// their bits.
pub proof fn lemma_bits_value(b: u8)
    ensures
        b == (if flag(b, 1) {
            1int
        } else {
            0
        }) + (if flag(b, 2) {
            2int
        } else {
            0
        }) + (if flag(b, 4) {
            4int
        } else {
            0
        }) + (if flag(b, 8) {
            8int
        } else {
            0
        }) + (if flag(b, 16) {
            16int
        } else {
            0
        }) + (if flag(b, 32) {
            32int
        } else {
            0
        }) + (if flag(b, 64) {
            64int
        } else {
            0
        }) + (if flag(b, 128) {
            128int
        } else {
            0
        }),
{
    assert(b == (if (b / 1) % 2 == 1 {
        1u8
    } else {
        0u8
    }) + (if (b / 2) % 2 == 1 {
        2u8
    } else {
        0u8
    }) + (if (b / 4) % 2 == 1 {
        4u8
    } else {
        0u8
    }) + (if (b / 8) % 2 == 1 {
        8u8
    } else {
        0u8
    }) + (if (b / 16) % 2 == 1 {
        16u8
    } else {
        0u8
    }) + (if (b / 32) % 2 == 1 {
        32u8
    } else {
        0u8
    }) + (if (b / 64) % 2 == 1 {
        64u8
    } else {
        0u8
    }) + (if (b / 128) % 2 == 1 {
        128u8
    } else {
        0u8
    })) by (bit_vector);
}

/// The number of engines is the number of kinds that the set holds, as long
/// as it holds no bit beyond the three kinds; it is then three at most.
pub proof fn lemma_num_engines(b: BoilerType)
    requires
        b.bits < 8,
    ensures
        popcount(b.bits) == (if flag(b.bits, SIMPLE) {
            1nat
        } else {
            0
        }) + (if flag(b.bits, COMPLEX) {
            1nat
        } else {
            0
        }) + (if flag(b.bits, TURBINE) {
            1nat
        } else {
            0
        }),
        popcount(b.bits) <= 3,
{
}

} // verus!
