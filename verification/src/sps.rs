//! The magnetic spectrometer: inputs and stored results of the run-time
//! estimate.

use vstd::prelude::*;
use vstd::arithmetic::power2::{lemma2_to64, lemma2_to64_rest};
use crate::scalar::{lemma_range_by_bits, Scalar};

verus! {

/// Encoding of 12.8, the spectrometer's largest solid angle in msr.
pub const MAX_SLIT_SETTINGS: u64 = 0x4029_9999_9999_999A;

/// Smallest proton number of a beam.
pub const MIN_Z_BEAM: i32 = 1;

/// Largest proton number of a beam.
pub const MAX_Z_BEAM: i32 = 118;

/// Inputs of the run-time estimate, and the three places where a caller
/// keeps its latest result. The library never reads the results.
#[derive(Clone, Copy, Debug, PartialEq, Eq, Structural)]
pub struct SPSRunTimeSettings {
    /// Cross section in µb/sr.
    pub cross_section: Scalar,
    /// Areal density of the target in µg/cm².
    pub target_density: Scalar,
    /// Molar mass of the target in g/mol.
    pub target_molar_mass: Scalar,
    /// Beam current on target in nA.
    pub beam_current: Scalar,
    /// Proton number of the beam.
    pub z_beam: i32,
    /// Solid angle in msr.
    pub slit_settings: Scalar,
    /// Wanted number of counts in the peak of interest.
    pub desired_counts: i64,
    /// Latest estimate in seconds.
    pub time_s: Scalar,
    /// Latest estimate in hours.
    pub time_h: Scalar,
    /// Latest estimate in days.
    pub time_d: Scalar,
}

impl SPSRunTimeSettings {
    /// The built-in inputs: 100 µb/sr, 100 µg/cm², 240 g/mol, 20 nA, a
    /// proton beam, 4.62 msr, 1000 counts; the results are zero.
    pub open spec fn initial() -> SPSRunTimeSettings {
        SPSRunTimeSettings {
            cross_section: Scalar { bits: 0x4059_0000_0000_0000 },
            target_density: Scalar { bits: 0x4059_0000_0000_0000 },
            target_molar_mass: Scalar { bits: 0x406E_0000_0000_0000 },
            beam_current: Scalar { bits: 0x4034_0000_0000_0000 },
            z_beam: 1,
            slit_settings: Scalar { bits: 0x4012_7AE1_47AE_147B },
            desired_counts: 1000,
            time_s: Scalar { bits: 0 },
            time_h: Scalar { bits: 0 },
            time_d: Scalar { bits: 0 },
        }
    }

    /// The state's invariant: no physical input is negative, the proton
    /// number is that of an element, and the solid angle is within the
    /// instrument's reach. The stored results are free.
    pub open spec fn wf(&self) -> bool {
        &&& self.cross_section.spec_is_non_negative()
        &&& self.target_density.spec_is_non_negative()
        &&& self.target_molar_mass.spec_is_non_negative()
        &&& self.beam_current.spec_is_non_negative()
        &&& MIN_Z_BEAM <= self.z_beam <= MAX_Z_BEAM
        &&& self.slit_settings.spec_is_within(Scalar { bits: MAX_SLIT_SETTINGS })
        &&& self.desired_counts >= 0
    }

    /// Whether the state meets its invariant.
    pub fn is_valid(&self) -> (r: bool)
        ensures
            r == self.wf(),
    {
        self.cross_section.is_non_negative() && self.target_density.is_non_negative()
            && self.target_molar_mass.is_non_negative() && self.beam_current.is_non_negative()
            && MIN_Z_BEAM <= self.z_beam && self.z_beam <= MAX_Z_BEAM
            && self.slit_settings.is_within(Scalar::from_bits(MAX_SLIT_SETTINGS))
            && self.desired_counts >= 0
    }

    /// Stores an estimate: the time in seconds, in hours and in days.
    pub fn set_times(&mut self, time_s: Scalar, time_h: Scalar, time_d: Scalar)
        ensures
            *final(self) == (SPSRunTimeSettings { time_s, time_h, time_d, ..*old(self) }),
            old(self).wf() ==> final(self).wf(),
    {
        self.time_s = time_s;
        self.time_h = time_h;
        self.time_d = time_d;
    }
}

impl Default for SPSRunTimeSettings {
    fn default() -> (s: SPSRunTimeSettings)
        ensures
            s == SPSRunTimeSettings::initial(),
            s.wf(),
    {
        let s = SPSRunTimeSettings {
            cross_section: Scalar::from_bits(0x4059_0000_0000_0000),
            target_density: Scalar::from_bits(0x4059_0000_0000_0000),
            target_molar_mass: Scalar::from_bits(0x406E_0000_0000_0000),
            beam_current: Scalar::from_bits(0x4034_0000_0000_0000),
            z_beam: 1,
            slit_settings: Scalar::from_bits(0x4012_7AE1_47AE_147B),
            desired_counts: 1000,
            time_s: Scalar::zero(),
            time_h: Scalar::zero(),
            time_d: Scalar::zero(),
        };
        proof {
            let max = Scalar { bits: MAX_SLIT_SETTINGS };
            lemma_range_by_bits(s.cross_section, max);
            lemma_range_by_bits(s.target_density, max);
            lemma_range_by_bits(s.target_molar_mass, max);
            lemma_range_by_bits(s.beam_current, max);
            lemma_range_by_bits(s.slit_settings, max);
        }
        s
    }
}

/// The decimal values behind the built-in inputs and the largest solid
/// angle: each encoding is the binary64 number nearest to the value named.
pub proof fn lemma_initial_values()
    ensures
        SPSRunTimeSettings::initial().cross_section.is_nearest_to(100, 1),
        SPSRunTimeSettings::initial().target_density.is_nearest_to(100, 1),
        SPSRunTimeSettings::initial().target_molar_mass.is_nearest_to(240, 1),
        SPSRunTimeSettings::initial().beam_current.is_nearest_to(20, 1),
        SPSRunTimeSettings::initial().slit_settings.is_nearest_to(462, 100),
        SPSRunTimeSettings::initial().time_s.is_zero(),
        SPSRunTimeSettings::initial().time_h.is_zero(),
        SPSRunTimeSettings::initial().time_d.is_zero(),
        (Scalar { bits: MAX_SLIT_SETTINGS }).is_nearest_to(128, 10),
{
    lemma2_to64();
    lemma2_to64_rest();
}

} // verus!
