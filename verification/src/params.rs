//! User-adjustable simulation parameters and the settings surface.
//!
//! Scalar quantities are carried in thousandths of their unit (milli-kilograms
//! for the masses, milli-units for lengths), so the declared UI ranges become
//! exact integer bounds. The settings surface writes edits through clamping
//! setters; the lifecycle controller only reads.

use vstd::prelude::*;

verus! {

/// Smallest admissible mass, in milli-kilograms.
pub const MASS_MIN: i64 = 5_000;
/// Largest admissible mass, in milli-kilograms.
pub const MASS_MAX: i64 = 100_000;
/// Smallest admissible span length, in milli-units.
pub const SPAN_MIN: i64 = 5_000;
/// Largest admissible span length, in milli-units.
pub const SPAN_MAX: i64 = 20_000;

/// `v` pulled into `[lo, hi]`.
pub open spec fn spec_clamp(v: int, lo: int, hi: int) -> int {
    if v < lo {
        lo
    } else if v > hi {
        hi
    } else {
        v
    }
}

/// The process-wide demonstration settings: three masses, the pulley span,
/// the initial vertical offset of the central body, the tracing flag, and the
/// lazily created handles of the mesh and material that all trace markers
/// share.
#[derive(Clone, Copy, Debug)]
pub struct SimulationParameters {
    pub mass_side_a: i64,
    pub mass_side_b: i64,
    pub mass_central: i64,
    pub span_length: i64,
    pub initial_offset: i64,
    pub tracing_enabled: bool,
    pub trace_mesh: Option<u64>,
    pub trace_material: Option<u64>,
}

impl SimulationParameters {
    /// Every scalar within its declared UI range: masses and span strictly
    /// positive within their sliders, the offset within plus or minus the
    /// span.
    pub open spec fn valid(self) -> bool {
        &&& MASS_MIN <= self.mass_side_a <= MASS_MAX
        &&& MASS_MIN <= self.mass_side_b <= MASS_MAX
        &&& MASS_MIN <= self.mass_central <= MASS_MAX
        &&& SPAN_MIN <= self.span_length <= SPAN_MAX
        &&& -self.span_length <= self.initial_offset <= self.span_length
    }

    /// The settings the demonstration starts with: every mass 10 kg, a 10
    /// unit span, the central body pulled 5 units below equilibrium, tracing
    /// off, no trace assets yet.
    pub open spec fn spec_default() -> SimulationParameters {
        SimulationParameters {
            mass_side_a: 10_000,
            mass_side_b: 10_000,
            mass_central: 10_000,
            span_length: 10_000,
            initial_offset: (-5_000) as i64,
            tracing_enabled: false,
            trace_mesh: None,
            trace_material: None,
        }
    }

    pub fn set_mass_side_a(&mut self, v: i64)
        ensures
            final(self).mass_side_a == spec_clamp(v as int, MASS_MIN as int, MASS_MAX as int),
            *final(self) == (SimulationParameters { mass_side_a: final(self).mass_side_a, ..*old(self) }),
    {
        self.mass_side_a = clamp_i64(v, MASS_MIN, MASS_MAX);
    }

    pub fn set_mass_side_b(&mut self, v: i64)
        ensures
            final(self).mass_side_b == spec_clamp(v as int, MASS_MIN as int, MASS_MAX as int),
            *final(self) == (SimulationParameters { mass_side_b: final(self).mass_side_b, ..*old(self) }),
    {
        self.mass_side_b = clamp_i64(v, MASS_MIN, MASS_MAX);
    }

    pub fn set_mass_central(&mut self, v: i64)
        ensures
            final(self).mass_central == spec_clamp(v as int, MASS_MIN as int, MASS_MAX as int),
            *final(self) == (SimulationParameters { mass_central: final(self).mass_central, ..*old(self) }),
    {
        self.mass_central = clamp_i64(v, MASS_MIN, MASS_MAX);
    }

    pub fn set_span_length(&mut self, v: i64)
        ensures
            final(self).span_length == spec_clamp(v as int, SPAN_MIN as int, SPAN_MAX as int),
            *final(self) == (SimulationParameters { span_length: final(self).span_length, ..*old(self) }),
    {
        self.span_length = clamp_i64(v, SPAN_MIN, SPAN_MAX);
    }

    /// The offset slider spans plus or minus the current span length.
    pub fn set_initial_offset(&mut self, v: i64)
        requires
            0 <= old(self).span_length,
        ensures
            final(self).initial_offset == spec_clamp(
                v as int,
                -old(self).span_length as int,
                old(self).span_length as int,
            ),
            *final(self) == (SimulationParameters { initial_offset: final(self).initial_offset, ..*old(self) }),
    {
        let lo = -self.span_length;
        let hi = self.span_length;
        self.initial_offset = clamp_i64(v, lo, hi);
    }

    /// Whether the current values admit a restart.
    pub fn is_valid(&self) -> (b: bool)
        ensures
            b == self.valid(),
    {
        MASS_MIN <= self.mass_side_a && self.mass_side_a <= MASS_MAX
            && MASS_MIN <= self.mass_side_b && self.mass_side_b <= MASS_MAX
            && MASS_MIN <= self.mass_central && self.mass_central <= MASS_MAX
            && SPAN_MIN <= self.span_length && self.span_length <= SPAN_MAX
            && -self.span_length <= self.initial_offset && self.initial_offset <= self.span_length
    }

    /// Check-then-create for the shared trace assets: the first call keeps the
    /// candidate handles, every later call leaves the stored ones untouched.
    pub fn ensure_trace_assets(&mut self, mesh_candidate: u64, material_candidate: u64)
        ensures
            final(self).trace_mesh == (match old(self).trace_mesh {
                Option::None => Option::Some(mesh_candidate),
                Option::Some(m) => Option::Some(m),
            }),
            final(self).trace_material == (match old(self).trace_material {
                Option::None => Option::Some(material_candidate),
                Option::Some(m) => Option::Some(m),
            }),
            *final(self) == (SimulationParameters {
                trace_mesh: final(self).trace_mesh,
                trace_material: final(self).trace_material,
                ..*old(self)
            }),
    {
        if self.trace_mesh.is_none() {
            self.trace_mesh = Some(mesh_candidate);
        }
        if self.trace_material.is_none() {
            self.trace_material = Some(material_candidate);
        }
    }
}

impl Default for SimulationParameters {
    fn default() -> (r: Self)
        ensures
            r == SimulationParameters::spec_default(),
            r.valid(),
    {
        SimulationParameters {
            mass_side_a: 10_000,
            mass_side_b: 10_000,
            mass_central: 10_000,
            span_length: 10_000,
            initial_offset: -5_000,
            tracing_enabled: false,
            trace_mesh: None,
            trace_material: None,
        }
    }
}

/// `v` pulled into `[lo, hi]`.
pub fn clamp_i64(v: i64, lo: i64, hi: i64) -> (r: i64)
    requires
        lo <= hi,
    ensures
        r == spec_clamp(v as int, lo as int, hi as int),
{
    if v < lo {
        lo
    } else if v > hi {
        hi
    } else {
        v
    }
}

} // verus!
