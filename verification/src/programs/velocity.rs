//! The velocity quantity: a double-buffered pair of 2-channel storage
//! buffers (u and v components in the x and y channels), swapped between the
//! read and write roles each simulation step.

use vstd::prelude::*;

use crate::config::{lemma_padded_square_bounds, Config};
use crate::render::{
    allocate_zero_field, spec_initial_contents, spec_initial_fits, validate_initial_state,
    FieldPair, SizeMismatchError, StorageBuffer2D,
};

verus! {

/// The double-buffered velocity field.
pub struct Velocity {
    pair: FieldPair,
}

impl Velocity {
    pub closed spec fn spec_pair(&self) -> FieldPair {
        self.pair
    }

    pub open spec fn wf(&self) -> bool {
        self.spec_pair().wf()
    }

    /// Both slots sized to `count` elements per channel.
    pub open spec fn sized_to(&self, count: int) -> bool {
        self.spec_pair().sized_to(count)
    }

    pub open spec fn spec_current_index(&self) -> int {
        self.spec_pair().spec_current_index()
    }

    /// Allocates both velocity slots sized by the configuration. Slot 0,
    /// which starts in the "current" role, holds the supplied u and v
    /// components (or zeroes); slot 1 is zero-filled. An initial array whose
    /// length differs from the configured element count is rejected before
    /// any buffer is created.
    pub fn new(
        device: &wgpu::Device,
        config: &Config,
        initial_u: Option<Vec<i32>>,
        initial_v: Option<Vec<i32>>,
    ) -> (r: Result<Velocity, SizeMismatchError>)
        requires
            config.wf(),
        ensures
            r is Ok <==> spec_initial_fits(initial_u, config.spec_buffer_size())
                && spec_initial_fits(initial_v, config.spec_buffer_size()),
            r matches Ok(v) ==> {
                &&& v.wf()
                &&& v.sized_to(config.spec_buffer_size())
                &&& v.spec_current_index() == 0
                &&& v.spec_pair().spec_slot0().spec_init_x() == spec_initial_contents(
                    initial_u,
                    config.spec_buffer_size(),
                )
                &&& v.spec_pair().spec_slot0().spec_init_y() == spec_initial_contents(
                    initial_v,
                    config.spec_buffer_size(),
                )
                &&& v.spec_pair().spec_slot1().spec_init_x() == spec_initial_contents(
                    None,
                    config.spec_buffer_size(),
                )
                &&& v.spec_pair().spec_slot1().spec_init_y() == spec_initial_contents(
                    None,
                    config.spec_buffer_size(),
                )
            },
            r matches Err(e) ==> e.expected == config.spec_buffer_size()
                && e.got == (if !spec_initial_fits(initial_u, config.spec_buffer_size()) {
                    initial_u.unwrap()@.len()
                } else {
                    initial_v.unwrap()@.len()
                }),
    {
        let count = config.buffer_size();
        match validate_initial_state(count, initial_u.as_ref()) {
            Err(e) => {
                return Err(e);
            },
            Ok(()) => {},
        }
        match validate_initial_state(count, initial_v.as_ref()) {
            Err(e) => {
                return Err(e);
            },
            Ok(()) => {},
        }
        let padded: u64 = (config.grid_size() as u64) + 2;
        proof {
            lemma_padded_square_bounds(padded as int);
        }
        let slot0 = match StorageBuffer2D::new(
            device,
            (padded, padded),
            Some("velocity buffer"),
            initial_u,
            initial_v,
        ) {
            Ok(b) => b,
            Err(_) => unreached(),
        };
        let slot1 = allocate_zero_field(device, config, Some("velocity_prvs buffer"));
        Ok(Velocity { pair: FieldPair::new(slot0, slot1) })
    }

    /// The slot with index `index` (false picks slot 0).
    pub fn slot(&self, index: bool) -> (r: &StorageBuffer2D)
        ensures
            *r == if index { self.spec_pair().spec_slot1() } else { self.spec_pair().spec_slot0() },
    {
        self.pair.slot(index)
    }

    /// A pure relabeling of the two slots; the physical buffers are untouched.
    pub fn swap_roles(&mut self)
        ensures
            final(self).spec_pair().spec_slot0() == old(self).spec_pair().spec_slot0(),
            final(self).spec_pair().spec_slot1() == old(self).spec_pair().spec_slot1(),
            final(self).spec_current_index()
                == old(self).spec_pair().spec_roles().spec_previous_index(),
    {
        self.pair.swap_roles();
    }
}

} // verus!
