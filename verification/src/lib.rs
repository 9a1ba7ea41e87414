//! A 3D integer coordinate system for a game world.
//!
//! `Coordinate` (an alias for [`coordinate::Coord`]) is a lattice point with
//! checked, fail-fast arithmetic: an operation that would overflow, underflow
//! or divide by zero reports an error instead of wrapping. `Region`
//! enumerates every coordinate of an axis-aligned cube in a fixed scan order.

pub mod coordinate;
pub mod coordinate_trait;
pub mod errors;
pub mod random;
pub mod region;
pub mod signed_coordinate;
pub mod text;
pub mod unsigned_coordinate;

pub use coordinate::Coord;
pub use coordinate::Coordinate;
pub use coordinate::CoordinateOverflowError;
pub use coordinate::CoordinateType;
pub use coordinate_trait::CoordinateTrait;
pub use errors::CoordinateOutOfBoundsError;
pub use region::Region;
pub use region::RegionSizeError;
pub use signed_coordinate::SignedCoordinate;
pub use unsigned_coordinate::UnsignedCoordinate;
