//! Immutable simulation parameters: the logical grid resolution, the compute
//! workgroup shape, and the sizes derived from them.

use vstd::prelude::*;

verus! {

/// Largest accepted grid size: keeps `(grid_size + 2)^2` cells, and the
/// corresponding byte counts, within 32-bit range on every target.
pub const MAX_GRID_SIZE: u32 = 65533;

/// A zero or out-of-range grid size was supplied at construction.
#[derive(Clone, Copy, Debug, PartialEq, Eq, Structural)]
pub enum ConfigError {
    InvalidGridSize,
}

/// Rounded-up division, the number of workgroups needed to cover `a` items
/// `b` at a time.
pub open spec fn spec_ceil_div(a: int, b: int) -> int {
    (a + b - 1) / b
}

/// Immutable simulation parameters, shared read-only by every other component.
#[derive(Clone, Copy, Debug)]
pub struct Config {
    grid_size: u32,
    workgroup_size: (u32, u32, u32),
}

impl Config {
    pub closed spec fn spec_grid_size(&self) -> u32 {
        self.grid_size
    }

    pub closed spec fn spec_workgroup_size(&self) -> (u32, u32, u32) {
        self.workgroup_size
    }

    /// Validity: a positive, bounded grid and a positive workgroup shape.
    pub open spec fn wf(&self) -> bool {
        &&& 0 < self.spec_grid_size() <= MAX_GRID_SIZE
        &&& 0 < self.spec_workgroup_size().0
        &&& 0 < self.spec_workgroup_size().1
        &&& 0 < self.spec_workgroup_size().2
    }

    /// The grid with one ghost cell added on each side of each axis.
    pub open spec fn spec_padded_dimension(&self) -> int {
        self.spec_grid_size() + 2
    }

    /// Elements in one channel buffer: one per padded cell.
    pub open spec fn spec_buffer_size(&self) -> int {
        self.spec_padded_dimension() * self.spec_padded_dimension()
    }

    /// Workgroup counts per axis: enough workgroups to cover the padded
    /// dimension along each axis of the workgroup shape.
    pub open spec fn spec_dispatch_dimensions(&self) -> (int, int, int) {
        (
            spec_ceil_div(self.spec_padded_dimension(), self.spec_workgroup_size().0 as int),
            spec_ceil_div(self.spec_padded_dimension(), self.spec_workgroup_size().1 as int),
            spec_ceil_div(self.spec_padded_dimension(), self.spec_workgroup_size().2 as int),
        )
    }

    /// Builds a configuration with the default workgroup shape; rejects a grid
    /// size of zero or one too large for 32-bit sizing arithmetic.
    pub fn new(grid_size: u32) -> (r: Result<Config, ConfigError>)
        ensures
            r is Ok <==> 0 < grid_size <= MAX_GRID_SIZE,
            r matches Ok(c) ==> c.wf() && c.spec_grid_size() == grid_size
                && c.spec_workgroup_size() == (8u32, 8u32, 1u32),
    {
        if grid_size == 0 || grid_size > MAX_GRID_SIZE {
            Err(ConfigError::InvalidGridSize)
        } else {
            Ok(Config { grid_size, workgroup_size: (8, 8, 1) })
        }
    }

    pub fn grid_size(&self) -> (r: u32)
        ensures
            r == self.spec_grid_size(),
    {
        self.grid_size
    }

    pub fn workgroup_size(&self) -> (r: (u32, u32, u32))
        ensures
            r == self.spec_workgroup_size(),
    {
        self.workgroup_size
    }

    /// Elements in one channel buffer of a field allocated under this
    /// configuration.
    pub fn buffer_size(&self) -> (r: usize)
        requires
            self.wf(),
        ensures
            r == self.spec_buffer_size(),
    {
        proof {
            let p = self.spec_padded_dimension();
            assert(p * p <= 65535 * 65535) by (nonlinear_arith)
                requires 0 <= p <= 65535;
        }
        let padded: usize = (self.grid_size as usize) + 2;
        padded * padded
    }

    /// Workgroup counts per axis for one stage dispatch.
    pub fn dispatch_dimensions(&self) -> (r: (u32, u32, u32))
        requires
            self.wf(),
        ensures
            r.0 == self.spec_dispatch_dimensions().0,
            r.1 == self.spec_dispatch_dimensions().1,
            r.2 == self.spec_dispatch_dimensions().2,
    {
        let padded: u32 = self.grid_size + 2;
        (
            ceil_div(padded, self.workgroup_size.0),
            ceil_div(padded, self.workgroup_size.1),
            ceil_div(padded, self.workgroup_size.2),
        )
    }
}

impl Default for Config {
    /// The default parameters: a 4-cell grid with 8 x 8 x 1 workgroups.
    fn default() -> (c: Self)
        ensures
            c.wf(),
            c.spec_grid_size() == 4,
            c.spec_workgroup_size() == (8u32, 8u32, 1u32),
    {
        Config { grid_size: 4, workgroup_size: (8, 8, 1) }
    }
}

/// The squared padded dimension of any in-range grid stays within 32-bit
/// element counts and, times four bytes per element, within 64-bit byte
/// counts.
pub proof fn lemma_padded_square_bounds(p: int)
    requires
        0 < p <= 65535,
    ensures
        0 <= p * p <= 0xFFFF_FFFF,
        p * p * 4 <= 0xFFFF_FFFF_FFFF_FFFF,
{
    assert(0 <= p * p <= 0xFFFF_FFFF && p * p * 4 <= 0xFFFF_FFFF_FFFF_FFFF)
        by (nonlinear_arith)
        requires 0 < p <= 65535;
}

/// Rounded-up division on machine integers, overflow-free.
pub fn ceil_div(a: u32, b: u32) -> (r: u32)
    requires
        b > 0,
    ensures
        r == spec_ceil_div(a as int, b as int),
{
    let q = a / b;
    let rem = a % b;
    proof {
        assert((a as int + b as int - 1) / (b as int)
            == a as int / (b as int) + if a as int % (b as int) == 0 { 0int } else { 1int })
            by (nonlinear_arith)
            requires a >= 0, b > 0;
    }
    if rem == 0 {
        q
    } else {
        proof {
            assert(0int % (b as int) == 0 && a as int % 1int == 0 && (
                a > 0 && b >= 2 ==> a as int / (b as int) < a)) by (nonlinear_arith)
                requires b > 0;
        }
        q + 1
    }
}

} // verus!
