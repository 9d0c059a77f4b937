//! The conversion-electron spectrometer: inputs of the estimate of detected
//! conversion electrons.

use vstd::prelude::*;
use vstd::arithmetic::power2::{lemma2_to64, lemma2_to64_rest};
use crate::scalar::{lemma_range_by_bits, Scalar, HUNDRED};

verus! {

/// Inputs of the conversion-electron estimate
/// `counts * (branching / 100) * alpha * (transmission / 100) * (efficiency / 100)`.
#[derive(Clone, Copy, Debug, PartialEq, Eq, Structural)]
pub struct ICESPICERunTimeSettings {
    /// Number of particles detected in the excited state.
    pub n_particle_counts: i64,
    /// Probability, in percent, that an electron passes through to the
    /// detector.
    pub transmission_prob: Scalar,
    /// Probability, in percent, that the detector records an electron's full
    /// energy.
    pub detector_efficiency: Scalar,
    /// Share of decays, in percent, that go through the transition.
    pub branching_ratio: Scalar,
    /// Internal conversion coefficient: conversion electrons per gamma ray.
    /// Any value is allowed.
    pub conversion_coefficient: Scalar,
}

impl ICESPICERunTimeSettings {
    /// The built-in inputs: 10000 counts, 1.29 % transmission, 30.7 %
    /// detector efficiency, 100 % branching, conversion coefficient 1.
    pub open spec fn initial() -> ICESPICERunTimeSettings {
        ICESPICERunTimeSettings {
            n_particle_counts: 10000,
            transmission_prob: Scalar { bits: 0x3FF4_A3D7_0A3D_70A4 },
            detector_efficiency: Scalar { bits: 0x403E_B333_3333_3333 },
            branching_ratio: Scalar { bits: HUNDRED },
            conversion_coefficient: Scalar { bits: 0x3FF0_0000_0000_0000 },
        }
    }

    /// The state's invariant: the count is not negative and each percentage
    /// lies between 0 and 100.
    pub open spec fn wf(&self) -> bool {
        &&& self.n_particle_counts >= 0
        &&& self.transmission_prob.spec_is_within(Scalar { bits: HUNDRED })
        &&& self.detector_efficiency.spec_is_within(Scalar { bits: HUNDRED })
        &&& self.branching_ratio.spec_is_within(Scalar { bits: HUNDRED })
    }

    /// Whether the state meets its invariant.
    pub fn is_valid(&self) -> (r: bool)
        ensures
            r == self.wf(),
    {
        let hundred = Scalar::from_bits(HUNDRED);
        self.n_particle_counts >= 0 && self.transmission_prob.is_within(hundred)
            && self.detector_efficiency.is_within(hundred) && self.branching_ratio.is_within(
            hundred,
        )
    }
}

impl Default for ICESPICERunTimeSettings {
    fn default() -> (s: ICESPICERunTimeSettings)
        ensures
            s == ICESPICERunTimeSettings::initial(),
            s.wf(),
    {
        let s = ICESPICERunTimeSettings {
            n_particle_counts: 10000,
            transmission_prob: Scalar::from_bits(0x3FF4_A3D7_0A3D_70A4),
            detector_efficiency: Scalar::from_bits(0x403E_B333_3333_3333),
            branching_ratio: Scalar::from_bits(HUNDRED),
            conversion_coefficient: Scalar::from_bits(0x3FF0_0000_0000_0000),
        };
        proof {
            let hundred = Scalar { bits: HUNDRED };
            lemma_range_by_bits(s.transmission_prob, hundred);
            lemma_range_by_bits(s.detector_efficiency, hundred);
            lemma_range_by_bits(s.branching_ratio, hundred);
        }
        s
    }
}

/// The decimal values behind the built-in inputs: each encoding is the
/// binary64 number nearest to the value named.
pub proof fn lemma_initial_values()
    ensures
        ICESPICERunTimeSettings::initial().transmission_prob.is_nearest_to(129, 100),
        ICESPICERunTimeSettings::initial().detector_efficiency.is_nearest_to(307, 10),
        ICESPICERunTimeSettings::initial().branching_ratio.is_nearest_to(100, 1),
        ICESPICERunTimeSettings::initial().conversion_coefficient.is_nearest_to(1, 1),
{
    lemma2_to64();
    lemma2_to64_rest();
}

} // verus!
