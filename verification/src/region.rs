//! Cube-shaped enumerator of coordinates.

use crate::coordinate::{in_range, Coord, Coordinate, CoordinateOverflowError};
use vstd::arithmetic::div_mod::{
    lemma_div_denominator, lemma_div_pos_is_pos, lemma_fundamental_div_mod,
    lemma_fundamental_div_mod_converse, lemma_mod_bound,
};
use vstd::prelude::*;

verus! {

/// A `Region` was given a size of zero, which has no coordinates to yield.
#[derive(Clone, Copy, Debug, PartialEq, Eq, Structural)]
pub struct RegionSizeError;

/// The `k`-th coordinate (zero-based) of the cube's scan order, with each
/// axis as an unbounded integer: x varies fastest, then y, then z.
pub open spec fn coordinate_at(position: Coordinate, size: u16, k: int) -> (int, int, int) {
    (
        position.x + k % (size as int),
        position.y + (k / (size as int)) % (size as int),
        position.z + k / ((size as int) * (size as int)),
    )
}

/// Cube-shaped enumerator of `Coordinate`s.
///
/// Yields all coordinates from `position` to `position + size - 1` on every
/// axis, one at a time, without materialising the cube.
#[derive(Debug, PartialEq, Eq, Structural)]
pub struct Region {
    position: Coordinate,
    size: u16,
    offset: Coordinate,
    started: bool,
    finished: bool,
}

impl Region {
    /// The anchor coordinate of the cube.
    pub closed spec fn spec_position(self) -> Coordinate {
        self.position
    }

    /// The edge length of the cube.
    pub closed spec fn spec_size(self) -> u16 {
        self.size
    }

    /// The count of coordinates the region yields in all.
    pub open spec fn total(self) -> int {
        self.spec_size() * self.spec_size() * self.spec_size()
    }

    /// Internal sanity of the enumerator state: a strictly positive size and
    /// per-axis counters inside the cube.
    pub closed spec fn wf(self) -> bool {
        &&& self.size >= 1
        &&& 0 <= self.offset.x < self.size
        &&& 0 <= self.offset.y < self.size
        &&& 0 <= self.offset.z < self.size
        &&& (!self.started ==> self.offset.x == 0 && self.offset.y == 0 && self.offset.z == 0)
        &&& (self.finished ==> self.started)
    }

    /// The count of coordinates produced so far.
    pub closed spec fn cursor(self) -> int {
        if self.finished {
            self.total()
        } else if !self.started {
            0
        } else {
            1 + self.offset.x + self.spec_size() * self.offset.y + self.spec_size()
                * self.spec_size() * self.offset.z
        }
    }

    /// Creates a new `Region`.
    ///
    /// - `position` is the anchor: the first coordinate the region yields.
    /// - `size` is the edge length of the cube; it must be larger than `0`,
    ///   and a zero size is rejected here rather than at the first pull.
    pub fn new(position: Coordinate, size: u16) -> (r: Result<Region, RegionSizeError>)
        ensures
            r is Ok <==> size > 0,
            r matches Ok(region) ==> region.wf() && region.spec_position() == position
                && region.spec_size() == size && region.cursor() == 0,
    {
        if size == 0 {
            return Err(RegionSizeError);
        }
        Ok(
            Region {
                position,
                size,
                offset: Coord::new(0, 0, 0),
                started: false,
                finished: false,
            },
        )
    }

    /// Returns the `Region`'s size.
    pub fn size(&self) -> (r: u16)
        ensures
            r == self.spec_size(),
    {
        self.size
    }

    /// Produces the next coordinate of the cube, or `None` once every one of
    /// the `size^3` coordinates has been yielded; an exhausted region stays
    /// exhausted. When the coordinate to yield is not representable, the
    /// addition's overflow error is surfaced and enumeration aborts.
    pub fn next(&mut self) -> (r: Option<Result<Coordinate, CoordinateOverflowError>>)
        requires
            old(self).wf(),
        ensures
            final(self).wf(),
            final(self).spec_position() == old(self).spec_position(),
            final(self).spec_size() == old(self).spec_size(),
            old(self).cursor() == old(self).total() ==> r is None && final(self).cursor()
                == final(self).total(),
            old(self).cursor() < old(self).total() ==> ({
                let k = old(self).cursor();
                let c = coordinate_at(old(self).spec_position(), old(self).spec_size(), k);
                if in_range(c.0) && in_range(c.1) && in_range(c.2) {
                    &&& r matches Some(Ok(p)) && p.x == c.0 && p.y == c.1 && p.z == c.2
                    &&& final(self).cursor() == k + 1
                } else {
                    &&& r matches Some(Err(e)) && e.0 == old(self).spec_position()
                    &&& final(self).cursor() == final(self).total()
                }
            }),
    {
        if self.finished {
            return None;
        }
        let ghost s = self.size as int;
        if !self.started {
            self.started = true;
            proof {
                assert(0int % s == 0 && 0int / s == 0 && 0int / (s * s) == 0 && s * s * s >= 1)
                    by (nonlinear_arith)
                    requires
                        s >= 1,
                ;
            }
            return Some(Ok(self.position));
        }
        let ghost ox0 = self.offset.x as int;
        let ghost oy0 = self.offset.y as int;
        let ghost oz0 = self.offset.z as int;
        let sz = self.size as i32;
        self.offset.x = self.offset.x + 1;
        if self.offset.x == sz {
            self.offset.x = 0;
            self.offset.y = self.offset.y + 1;
            if self.offset.y == sz {
                self.offset.y = 0;
                self.offset.z = self.offset.z + 1;
                if self.offset.z == sz {
                    self.offset.z = 0;
                    self.finished = true;
                    proof {
                        assert(1 + (s - 1) + s * (s - 1) + s * s * (s - 1) == s * s * s)
                            by (nonlinear_arith);
                    }
                    return None;
                }
            }
        }
        proof {
            assert(s * (oy0 + 1) == s * oy0 + s) by (nonlinear_arith);
            assert(s * s * (oz0 + 1) == s * s * oz0 + s * s) by (nonlinear_arith);
            lemma_linear_index_decomposition(
                self.offset.x as int,
                self.offset.y as int,
                self.offset.z as int,
                s,
            );
        }
        match self.position.add(self.offset) {
            Ok(c) => Some(Ok(c)),
            Err(e) => {
                self.finished = true;
                Some(Err(e))
            },
        }
    }
}

/// For per-axis counters inside a cube of edge `s`, the linear index
/// `ox + s*oy + s*s*oz` decomposes back into the counters, and lies below
/// `s^3`.
proof fn lemma_linear_index_decomposition(ox: int, oy: int, oz: int, s: int)
    requires
        0 < s,
        0 <= ox < s,
        0 <= oy < s,
        0 <= oz < s,
    ensures
        (ox + s * oy + s * s * oz) % s == ox,
        ((ox + s * oy + s * s * oz) / s) % s == oy,
        (ox + s * oy + s * s * oz) / (s * s) == oz,
        0 <= ox + s * oy + s * s * oz < s * s * s,
{
    let k = ox + s * oy + s * s * oz;
    assert(ox + s * oy + s * s * oz == (oy + s * oz) * s + ox) by (nonlinear_arith);
    assert(0 <= ox + s * oy + s * s * oz < s * s * s)
        by (nonlinear_arith)
        requires
            0 < s,
            0 <= ox < s,
            0 <= oy < s,
            0 <= oz < s,
    ;
    lemma_fundamental_div_mod_converse(k, s, oy + s * oz, ox);
    assert(oy + s * oz == oz * s + oy) by (nonlinear_arith);
    lemma_fundamental_div_mod_converse(oy + s * oz, s, oz, oy);
    lemma_div_denominator(k, s, s);
}

/// A linear index below `s^3` is reconstructed from its three per-axis
/// counters, each of which lies inside the cube.
proof fn lemma_index_reconstruction(k: int, s: int)
    requires
        0 < s,
        0 <= k < s * s * s,
    ensures
        0 <= k % s < s,
        0 <= (k / s) % s < s,
        0 <= k / (s * s) < s,
        k == k % s + s * ((k / s) % s) + (s * s) * (k / (s * s)),
{
    lemma_mod_bound(k, s);
    lemma_fundamental_div_mod(k, s);
    lemma_div_pos_is_pos(k, s);
    lemma_mod_bound(k / s, s);
    lemma_fundamental_div_mod(k / s, s);
    lemma_div_denominator(k, s, s);
    lemma_div_pos_is_pos(k / s, s);
    let q = k / (s * s);
    let d1 = k / s;
    let r1 = k % s;
    let r2 = (k / s) % s;
    assert(k == (s * s) * q + s * r2 + r1)
        by (nonlinear_arith)
        requires
            k == s * d1 + r1,
            d1 == s * q + r2,
    ;
    assert(q < s)
        by (nonlinear_arith)
        requires
            k < s * s * s,
            k == (s * s) * q + s * r2 + r1,
            0 <= r1,
            0 <= r2,
            0 < s,
    ;
}

/// Law: a cube anchored at the origin yields, for every index below
/// `size^3`, a coordinate whose axes all lie in `[0, size - 1]`, and
/// distinct indices yield distinct coordinates.
pub proof fn lemma_region_enumerates_cube(size: u16, k1: int, k2: int)
    requires
        size > 0,
        0 <= k1 < size * size * size,
        0 <= k2 < size * size * size,
    ensures
        ({
            let c = coordinate_at(Coord::spec_splat(0), size, k1);
            0 <= c.0 < size && 0 <= c.1 < size && 0 <= c.2 < size
        }),
        k1 != k2 ==> coordinate_at(Coord::spec_splat(0), size, k1) != coordinate_at(
            Coord::spec_splat(0),
            size,
            k2,
        ),
{
    let s = size as int;
    lemma_index_reconstruction(k1, s);
    lemma_index_reconstruction(k2, s);
}

} // verus!
