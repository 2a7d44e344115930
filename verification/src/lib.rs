//! Discrete core of a warship pre-design calculator: unit systems, machinery
//! capability sets, hull, armour and armament classifications, mount
//! arithmetic, the curves that follow the year of design, and the wording of
//! the design report.
//!
//! Measurements and the weights computed from them are not held here; the
//! coefficients that enter those computations are, as whole numbers of
//! millionths.
//!
//! Every function here is a function of its arguments alone: its contract
//! equates the result with a specification function of the arguments, so
//! that equal designs give equal results.

pub mod armor;
pub mod battery;
pub mod distribution;
pub mod engine;
pub mod flags;
pub mod gun;
pub mod hull;
pub mod ship;
pub mod text;
pub mod units;
pub mod weapons;
pub mod weights;

pub use armor::{BeltType, Deck, DeckType};
pub use battery::{Battery, SubBattery};
pub use distribution::{GunDistributionType, GunPosition, Zone};
pub use engine::{Ramp, Rate};
pub use flags::{BoilerType, DriveType, FuelType};
pub use gun::{Coef, GunLayoutType, GunType, MountType};
pub use hull::{Paired, SternType, Step};
pub use ship::SeaType;
pub use units::{UnitType, Units};
pub use weapons::{ASWType, MineType, TorpedoMountType};
pub use weights::MiscWgts;
