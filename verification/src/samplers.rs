//! The samplers shared by all passes.

use vstd::prelude::*;
use crate::interfaces::BindGroupLayout;
use crate::interfaces::BindGroupLayoutEntry;
use crate::interfaces::BindingType;
use crate::interfaces::sampler_entries;

verus! {

/// One sampler: whether it interpolates and whether it compares against a
/// reference depth.
#[derive(Clone, Copy, Debug, PartialEq, Eq, Structural)]
pub struct Sampler {
    pub filtering: bool,
    pub comparison: bool,
}

/// The fixed set of samplers: an interpolating one and a nearest-texel one
/// for materials, and a comparing one for shadow maps.
#[derive(Clone, Copy, Debug, PartialEq, Eq, Structural)]
pub struct Samplers {
    pub linear: Sampler,
    pub nearest: Sampler,
    pub shadow: Sampler,
}

impl Samplers {
    /// The set that `new` returns.
    pub open spec fn spec_new() -> Samplers {
        Samplers {
            linear: Sampler { filtering: true, comparison: false },
            nearest: Sampler { filtering: false, comparison: false },
            shadow: Sampler { filtering: true, comparison: true },
        }
    }

    /// Whether the sampler can be bound at a slot of the given type.
    pub open spec fn spec_fits(sampler: Sampler, ty: BindingType) -> bool {
        ty == (BindingType::Sampler {
            filtering: sampler.filtering,
            comparison: sampler.comparison,
        })
    }

    /// Whether the material samplers can be bound to the layout: it has two
    /// slots, the first for the interpolating sampler, the second for the
    /// nearest-texel one.
    pub open spec fn spec_fits_layout(self, entries: Seq<BindGroupLayoutEntry>) -> bool {
        &&& entries.len() == 2
        &&& Self::spec_fits(self.linear, entries[0].ty)
        &&& Self::spec_fits(self.nearest, entries[1].ty)
    }

    /// Describes the samplers.
    pub fn new() -> (s: Samplers)
        ensures
            s == Self::spec_new(),
            s.spec_fits_layout(sampler_entries()),
    {
        Samplers {
            linear: Sampler { filtering: true, comparison: false },
            nearest: Sampler { filtering: false, comparison: false },
            shadow: Sampler { filtering: true, comparison: true },
        }
    }

    /// Whether the sampler can be bound at a slot of the given type.
    pub fn fits(sampler: Sampler, ty: BindingType) -> (r: bool)
        ensures
            r == Self::spec_fits(sampler, ty),
    {
        match ty {
            BindingType::Sampler { filtering, comparison } => filtering == sampler.filtering
                && comparison == sampler.comparison,
            _ => false,
        }
    }

    /// Whether the material samplers can be bound to the layout.
    pub fn fits_layout(&self, layout: &BindGroupLayout) -> (r: bool)
        ensures
            r == self.spec_fits_layout(layout.entries@),
    {
        layout.entries.len() == 2 && Self::fits(self.linear, layout.entries[0].ty) && Self::fits(
            self.nearest,
            layout.entries[1].ty,
        )
    }
}

} // verus!
