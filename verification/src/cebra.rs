//! The gamma-ray detector array: a decay line, a yield, and an editable list
//! of detectors, each with its own efficiency curve.

use vstd::prelude::*;
use vstd::string::*;
use vstd::arithmetic::power2::{lemma2_to64, lemma2_to64_rest};
use crate::scalar::{Scalar, HUNDRED};
use crate::text::{append_decimal, decimal};

verus! {

/// Parameters of the double-exponential efficiency model
/// `a * exp(-E / b) + c * exp(-E / d)`, which gives a detector's response in
/// percent at the gamma-ray energy `E` in keV.
#[derive(Clone, Copy, Debug, PartialEq, Eq, Structural)]
pub struct Efficiency {
    pub a: Scalar,
    pub b: Scalar,
    pub c: Scalar,
    pub d: Scalar,
}

impl Efficiency {
    /// The curve with the given parameters.
    pub fn new(a: Scalar, b: Scalar, c: Scalar, d: Scalar) -> (e: Efficiency)
        ensures
            e == (Efficiency { a, b, c, d }),
    {
        Efficiency { a, b, c, d }
    }

    /// The curve whose parameters have the given encodings.
    pub open spec fn spec_from_bits(a: u64, b: u64, c: u64, d: u64) -> Efficiency {
        Efficiency {
            a: Scalar { bits: a },
            b: Scalar { bits: b },
            c: Scalar { bits: c },
            d: Scalar { bits: d },
        }
    }

    /// The curve whose parameters have the given encodings.
    #[verifier::when_used_as_spec(spec_from_bits)]
    pub fn from_bits(a: u64, b: u64, c: u64, d: u64) -> (e: Efficiency)
        ensures
            e == Efficiency::spec_from_bits(a, b, c, d),
    {
        Efficiency {
            a: Scalar::from_bits(a),
            b: Scalar::from_bits(b),
            c: Scalar::from_bits(c),
            d: Scalar::from_bits(d),
        }
    }

    /// The curve whose four parameters are positive zero.
    pub open spec fn zeroed() -> Efficiency {
        Efficiency {
            a: Scalar { bits: 0 },
            b: Scalar { bits: 0 },
            c: Scalar { bits: 0 },
            d: Scalar { bits: 0 },
        }
    }
}

impl Default for Efficiency {
    fn default() -> (e: Efficiency)
        ensures
            e == Efficiency::zeroed(),
    {
        Efficiency { a: Scalar::zero(), b: Scalar::zero(), c: Scalar::zero(), d: Scalar::zero() }
    }
}

/// A named efficiency curve. The name is a label only: two detectors may
/// share one, and a detector is addressed by its position in the list.
#[derive(Clone, Debug, PartialEq, Eq)]
pub struct Detector {
    pub name: String,
    pub efficiency: Efficiency,
}

/// What a [`Detector`] holds.
pub struct DetectorRow {
    pub name: Seq<char>,
    pub efficiency: Efficiency,
}

impl View for Detector {
    type V = DetectorRow;

    open spec fn view(&self) -> DetectorRow {
        DetectorRow { name: self.name@, efficiency: self.efficiency }
    }
}

impl Default for Detector {
    fn default() -> (d: Detector)
        ensures
            d@ == (DetectorRow { name: Seq::empty(), efficiency: Efficiency::zeroed() }),
    {
        Detector { name: String::new(), efficiency: Efficiency::default() }
    }
}

/// One gamma transition of interest.
#[derive(Clone, Copy, Debug, PartialEq, Eq, Structural)]
pub struct Decay {
    /// Energy in keV.
    pub energy: Scalar,
    /// Absolute intensity in percent.
    pub absolute_intensity: Scalar,
    /// Kept for stored states that carry it; no estimate reads it.
    pub efficiency: Scalar,
    /// Kept for stored states that carry it; no estimate reads it.
    pub efficiency_corrected_counts: Scalar,
}

impl Decay {
    /// A 2000 keV line of 100 % absolute intensity.
    pub open spec fn initial() -> Decay {
        Decay {
            energy: Scalar { bits: 0x409F_4000_0000_0000 },
            absolute_intensity: Scalar { bits: HUNDRED },
            efficiency: Scalar { bits: 0 },
            efficiency_corrected_counts: Scalar { bits: 0 },
        }
    }
}

impl Default for Decay {
    fn default() -> (d: Decay)
        ensures
            d == Decay::initial(),
    {
        Decay {
            energy: Scalar::from_bits(0x409F_4000_0000_0000),
            absolute_intensity: Scalar::from_bits(HUNDRED),
            efficiency: Scalar::zero(),
            efficiency_corrected_counts: Scalar::zero(),
        }
    }
}

/// A built-in set of five measured efficiency curves.
#[derive(Clone, Copy, Debug, PartialEq, Eq, Structural)]
pub enum Preset {
    /// Curves measured for the 52Cr(d,p) and 34S(d,p) runs of summer 2023.
    Reu2023,
    /// Curves measured for the 49Ti(d,p) and 61Ni(d,p) runs of summer 2022,
    /// when the array was commissioned.
    Summer2022,
}

/// Number of detectors in every preset.
pub const PRESET_LEN: usize = 5;

impl Preset {
    /// The preset's label.
    pub open spec fn spec_name(self) -> Seq<char> {
        match self {
            Preset::Reu2023 => "REU-2023"@,
            Preset::Summer2022 => "Summer-2022"@,
        }
    }

    /// The preset's label.
    pub fn name(self) -> (s: &'static str)
        ensures
            s@ == self.spec_name(),
    {
        match self {
            Preset::Reu2023 => "REU-2023",
            Preset::Summer2022 => "Summer-2022",
        }
    }

    /// The curve of the preset's detector at `index`; the last one for any
    /// index past the end. Beside each row stand the decimal values that its
    /// encodings denote.
    pub open spec fn curve(self, index: int) -> Efficiency {
        match self {
            Preset::Reu2023 => {
                if index == 0 {
                    // 1.04342, 313.36388, 0.30550, 2796.19080
                    Efficiency::from_bits(
                        0x3FF0_B1D9_2B7F_E08B,
                        0x4073_95D2_73D5_BAB2,
                        0x3FD3_8D4F_DF3B_645A,
                        0x40A5_D861_B089_A027,
                    )
                } else if index == 1 {
                    // 0.91597, 344.80832, 0.26477, 3074.53024
                    Efficiency::from_bits(
                        0x3FED_4FA0_5143_BF72,
                        0x4075_8CEE_E0F3_CB3E,
                        0x3FD0_F1FD_DEBD_9019,
                        0x40A8_050F_7B9E_0610,
                    )
                } else if index == 2 {
                    // 0.34643, 391.57405, 0.11673, 4392.80188
                    Efficiency::from_bits(
                        0x3FD6_2BE8_BC16_9C24,
                        0x4078_792F_4F0D_844D,
                        0x3FBD_E204_6C76_4AE0,
                        0x40B1_28CD_4801_F751,
                    )
                } else if index == 3 {
                    // 0.95401, 292.86782, 0.30357, 2592.23281
                    Efficiency::from_bits(
                        0x3FEE_873F_FAC1_D29E,
                        0x4072_4DE2_9739_6D09,
                        0x3FD3_6DB0_DD82_FD76,
                        0x40A4_4077_32DF_505D,
                    )
                } else {
                    // 1.69550, 304.59392, 0.93590, 4628.69818
                    Efficiency::from_bits(
                        0x3FFB_20C4_9BA5_E354,
                        0x4073_0980_B242_070C,
                        0x3FED_F2E4_8E8A_71DE,
                        0x40B2_14B2_BBEC_AAB9,
                    )
                }
            },
            Preset::Summer2022 => {
                if index == 0 {
                    // 3.44699544e-01, 2.49383011e+03, 1.00560372e+00, 3.31802347e+02
                    Efficiency::from_bits(
                        0x3FD6_0F8E_AD1B_4570,
                        0x40A3_7BA9_042D_8C2A,
                        0x3FF0_16F3_ED22_2CD1,
                        0x4074_BCD6_69CE_D0B3,
                    )
                } else if index == 1 {
                    // 3.31397563e-01, 2.57096172e+03, 1.01446003e+00, 3.45717989e+02
                    Efficiency::from_bits(
                        0x3FD5_359E_1FC3_C84A,
                        0x40A4_15EC_6690_57D1,
                        0x3FF0_3B3A_70BF_2FD6,
                        0x4075_9B7C_E208_9E34,
                    )
                } else if index == 2 {
                    // 2.99597105e-01, 2.61859263e+03, 8.69973182e-01, 3.60128895e+02
                    Efficiency::from_bits(
                        0x3FD3_2C99_55FC_E1BD,
                        0x40A4_752F_6D33_0942,
                        0x3FEB_D6D1_FFA2_C929,
                        0x4076_820F_F434_19E3,
                    )
                } else if index == 3 {
                    // 3.19707493e-01, 2.37437634e+03, 8.53245327e-01, 3.39245613e+02
                    Efficiency::from_bits(
                        0x3FD4_7616_6AAE_274E,
                        0x40A2_8CC0_AFA2_F05A,
                        0x3FEB_4DC9_24DD_C122,
                        0x4075_33EE_07E5_A78F,
                    )
                } else {
                    // 5.22246571e-01, 3.76416626e+03, 7.08680303e-01, 4.16212259e+02
                    Efficiency::from_bits(
                        0x3FE0_B63E_70DC_949F,
                        0x40AD_6855_2007_DD44,
                        0x3FE6_AD82_5096_8A34,
                        0x407A_0365_69B1_7482,
                    )
                }
            },
        }
    }

    /// The curve of the preset's detector at `index`.
    fn curve_at(self, index: usize) -> (e: Efficiency)
        requires
            index < PRESET_LEN,
        ensures
            e == self.curve(index as int),
    {
        match self {
            Preset::Reu2023 => {
                if index == 0 {
                    // 1.04342, 313.36388, 0.30550, 2796.19080
                    Efficiency::from_bits(
                        0x3FF0_B1D9_2B7F_E08B,
                        0x4073_95D2_73D5_BAB2,
                        0x3FD3_8D4F_DF3B_645A,
                        0x40A5_D861_B089_A027,
                    )
                } else if index == 1 {
                    // 0.91597, 344.80832, 0.26477, 3074.53024
                    Efficiency::from_bits(
                        0x3FED_4FA0_5143_BF72,
                        0x4075_8CEE_E0F3_CB3E,
                        0x3FD0_F1FD_DEBD_9019,
                        0x40A8_050F_7B9E_0610,
                    )
                } else if index == 2 {
                    // 0.34643, 391.57405, 0.11673, 4392.80188
                    Efficiency::from_bits(
                        0x3FD6_2BE8_BC16_9C24,
                        0x4078_792F_4F0D_844D,
                        0x3FBD_E204_6C76_4AE0,
                        0x40B1_28CD_4801_F751,
                    )
                } else if index == 3 {
                    // 0.95401, 292.86782, 0.30357, 2592.23281
                    Efficiency::from_bits(
                        0x3FEE_873F_FAC1_D29E,
                        0x4072_4DE2_9739_6D09,
                        0x3FD3_6DB0_DD82_FD76,
                        0x40A4_4077_32DF_505D,
                    )
                } else {
                    // 1.69550, 304.59392, 0.93590, 4628.69818
                    Efficiency::from_bits(
                        0x3FFB_20C4_9BA5_E354,
                        0x4073_0980_B242_070C,
                        0x3FED_F2E4_8E8A_71DE,
                        0x40B2_14B2_BBEC_AAB9,
                    )
                }
            },
            Preset::Summer2022 => {
                if index == 0 {
                    // 3.44699544e-01, 2.49383011e+03, 1.00560372e+00, 3.31802347e+02
                    Efficiency::from_bits(
                        0x3FD6_0F8E_AD1B_4570,
                        0x40A3_7BA9_042D_8C2A,
                        0x3FF0_16F3_ED22_2CD1,
                        0x4074_BCD6_69CE_D0B3,
                    )
                } else if index == 1 {
                    // 3.31397563e-01, 2.57096172e+03, 1.01446003e+00, 3.45717989e+02
                    Efficiency::from_bits(
                        0x3FD5_359E_1FC3_C84A,
                        0x40A4_15EC_6690_57D1,
                        0x3FF0_3B3A_70BF_2FD6,
                        0x4075_9B7C_E208_9E34,
                    )
                } else if index == 2 {
                    // 2.99597105e-01, 2.61859263e+03, 8.69973182e-01, 3.60128895e+02
                    Efficiency::from_bits(
                        0x3FD3_2C99_55FC_E1BD,
                        0x40A4_752F_6D33_0942,
                        0x3FEB_D6D1_FFA2_C929,
                        0x4076_820F_F434_19E3,
                    )
                } else if index == 3 {
                    // 3.19707493e-01, 2.37437634e+03, 8.53245327e-01, 3.39245613e+02
                    Efficiency::from_bits(
                        0x3FD4_7616_6AAE_274E,
                        0x40A2_8CC0_AFA2_F05A,
                        0x3FEB_4DC9_24DD_C122,
                        0x4075_33EE_07E5_A78F,
                    )
                } else {
                    // 5.22246571e-01, 3.76416626e+03, 7.08680303e-01, 4.16212259e+02
                    Efficiency::from_bits(
                        0x3FE0_B63E_70DC_949F,
                        0x40AD_6855_2007_DD44,
                        0x3FE6_AD82_5096_8A34,
                        0x407A_0365_69B1_7482,
                    )
                }
            },
        }
    }

    /// The detectors of the preset, in order: detector `i` is named
    /// `Detector i` and carries `curve(i)`.
    pub open spec fn rows(self) -> Seq<DetectorRow> {
        Seq::new(
            PRESET_LEN as nat,
            |i: int| DetectorRow { name: numbered_name(i as nat), efficiency: self.curve(i) },
        )
    }

    /// Builds the detectors of the preset.
    pub fn detectors(self) -> (list: Vec<Detector>)
        ensures
            rows_of(list@) == self.rows(),
    {
        let mut list: Vec<Detector> = Vec::new();
        let mut i: usize = 0;
        while i < PRESET_LEN
            invariant
                i <= PRESET_LEN,
                list@.len() == i,
                forall|k: int| 0 <= k < i ==> (#[trigger] list@[k])@ == self.rows()[k],
            decreases PRESET_LEN - i,
        {
            let d = Detector { name: detector_name(i as u128), efficiency: self.curve_at(i) };
            list.push(d);
            i += 1;
        }
        assert(rows_of(list@) =~= self.rows());
        list
    }
}

/// The name `Detector n`, with `n` in decimal.
pub open spec fn numbered_name(n: nat) -> Seq<char> {
    "Detector "@ + decimal(n)
}

/// Every preset holds five detectors, named `Detector 0` to `Detector 4` in
/// this order, and detector `i` carries the preset's curve `i`.
pub proof fn preset_rows_spelled_out(preset: Preset)
    ensures
        preset.rows().len() == 5,
        preset.rows()[0].name == "Detector 0"@,
        preset.rows()[1].name == "Detector 1"@,
        preset.rows()[2].name == "Detector 2"@,
        preset.rows()[3].name == "Detector 3"@,
        preset.rows()[4].name == "Detector 4"@,
        forall|i: int| 0 <= i < 5 ==> (#[trigger] preset.rows()[i]).efficiency == preset.curve(i),
{
    reveal_strlit("Detector ");
    reveal_strlit("Detector 0");
    reveal_strlit("Detector 1");
    reveal_strlit("Detector 2");
    reveal_strlit("Detector 3");
    reveal_strlit("Detector 4");
    assert(numbered_name(0) =~= "Detector 0"@);
    assert(numbered_name(1) =~= "Detector 1"@);
    assert(numbered_name(2) =~= "Detector 2"@);
    assert(numbered_name(3) =~= "Detector 3"@);
    assert(numbered_name(4) =~= "Detector 4"@);
}

/// The decimal values behind the built-in decay line and the zeroed curve:
/// 2000 keV at 100 %, and zero everywhere else.
pub proof fn lemma_initial_values()
    ensures
        Decay::initial().energy.is_nearest_to(2000, 1),
        Decay::initial().absolute_intensity.is_nearest_to(100, 1),
        Decay::initial().efficiency.is_zero(),
        Decay::initial().efficiency_corrected_counts.is_zero(),
        Efficiency::zeroed().a.is_zero(),
        Efficiency::zeroed().b.is_zero(),
        Efficiency::zeroed().c.is_zero(),
        Efficiency::zeroed().d.is_zero(),
{
    lemma2_to64();
    lemma2_to64_rest();
    assert(Decay::initial().energy.exponent_field() == 1033);
    assert(Decay::initial().energy.fraction_field() == 0xF_4000_0000_0000);
}

/// The decimal values behind the REU-2023 curves: each parameter is the
/// binary64 number nearest to the measured value, given here as a fraction
/// with a power of ten below.
pub proof fn lemma_reu_2023_values()
    ensures
        Preset::Reu2023.curve(0).a.is_nearest_to(104342, 100000),
        Preset::Reu2023.curve(0).b.is_nearest_to(31336388, 100000),
        Preset::Reu2023.curve(0).c.is_nearest_to(30550, 100000),
        Preset::Reu2023.curve(0).d.is_nearest_to(279619080, 100000),
        Preset::Reu2023.curve(1).a.is_nearest_to(91597, 100000),
        Preset::Reu2023.curve(1).b.is_nearest_to(34480832, 100000),
        Preset::Reu2023.curve(1).c.is_nearest_to(26477, 100000),
        Preset::Reu2023.curve(1).d.is_nearest_to(307453024, 100000),
        Preset::Reu2023.curve(2).a.is_nearest_to(34643, 100000),
        Preset::Reu2023.curve(2).b.is_nearest_to(39157405, 100000),
        Preset::Reu2023.curve(2).c.is_nearest_to(11673, 100000),
        Preset::Reu2023.curve(2).d.is_nearest_to(439280188, 100000),
        Preset::Reu2023.curve(3).a.is_nearest_to(95401, 100000),
        Preset::Reu2023.curve(3).b.is_nearest_to(29286782, 100000),
        Preset::Reu2023.curve(3).c.is_nearest_to(30357, 100000),
        Preset::Reu2023.curve(3).d.is_nearest_to(259223281, 100000),
        Preset::Reu2023.curve(4).a.is_nearest_to(169550, 100000),
        Preset::Reu2023.curve(4).b.is_nearest_to(30459392, 100000),
        Preset::Reu2023.curve(4).c.is_nearest_to(93590, 100000),
        Preset::Reu2023.curve(4).d.is_nearest_to(462869818, 100000),
{
    lemma2_to64();
    lemma2_to64_rest();
}

/// The decimal values behind the Summer-2022 curves: each parameter is the
/// binary64 number nearest to the measured value, given here as a fraction
/// with a power of ten below.
pub proof fn lemma_summer_2022_values()
    ensures
        Preset::Summer2022.curve(0).a.is_nearest_to(344699544, 1000000000),
        Preset::Summer2022.curve(0).b.is_nearest_to(249383011, 100000),
        Preset::Summer2022.curve(0).c.is_nearest_to(100560372, 100000000),
        Preset::Summer2022.curve(0).d.is_nearest_to(331802347, 1000000),
        Preset::Summer2022.curve(1).a.is_nearest_to(331397563, 1000000000),
        Preset::Summer2022.curve(1).b.is_nearest_to(257096172, 100000),
        Preset::Summer2022.curve(1).c.is_nearest_to(101446003, 100000000),
        Preset::Summer2022.curve(1).d.is_nearest_to(345717989, 1000000),
        Preset::Summer2022.curve(2).a.is_nearest_to(299597105, 1000000000),
        Preset::Summer2022.curve(2).b.is_nearest_to(261859263, 100000),
        Preset::Summer2022.curve(2).c.is_nearest_to(869973182, 1000000000),
        Preset::Summer2022.curve(2).d.is_nearest_to(360128895, 1000000),
        Preset::Summer2022.curve(3).a.is_nearest_to(319707493, 1000000000),
        Preset::Summer2022.curve(3).b.is_nearest_to(237437634, 100000),
        Preset::Summer2022.curve(3).c.is_nearest_to(853245327, 1000000000),
        Preset::Summer2022.curve(3).d.is_nearest_to(339245613, 1000000),
        Preset::Summer2022.curve(4).a.is_nearest_to(522246571, 1000000000),
        Preset::Summer2022.curve(4).b.is_nearest_to(376416626, 100000),
        Preset::Summer2022.curve(4).c.is_nearest_to(708680303, 1000000000),
        Preset::Summer2022.curve(4).d.is_nearest_to(416212259, 1000000),
{
    lemma2_to64();
    lemma2_to64_rest();
}

/// Builds the name `Detector n`.
pub fn detector_name(n: u128) -> (name: String)
    ensures
        name@ == numbered_name(n as nat),
{
    let mut name = String::from_str("Detector ");
    append_decimal(&mut name, n);
    name
}

/// What a list of detectors holds, row by row.
pub open spec fn rows_of(list: Seq<Detector>) -> Seq<DetectorRow> {
    Seq::new(list.len(), |i: int| list[i]@)
}

/// State of the detector-array estimator.
#[derive(Clone, Debug, PartialEq, Eq)]
pub struct CeBrARunTimeSettings {
    /// Number of particles detected in the excited state.
    pub n_particle_counts: i64,
    /// The transition whose gamma rays are counted.
    pub decay: Decay,
    /// The detectors, in display order.
    pub detectors: Vec<Detector>,
}

impl CeBrARunTimeSettings {
    /// The detector list, row by row.
    pub open spec fn rows(&self) -> Seq<DetectorRow> {
        rows_of(self.detectors@)
    }

    /// The state's invariant: the yield is not negative.
    pub open spec fn wf(&self) -> bool {
        self.n_particle_counts >= 0
    }

    /// Whether the state meets its invariant.
    pub fn is_valid(&self) -> (r: bool)
        ensures
            r == self.wf(),
    {
        self.n_particle_counts >= 0
    }

    /// Appends a detector with a zeroed curve, named after its one-based
    /// position in the list.
    pub fn add_detector(&mut self)
        ensures
            final(self).rows() == old(self).rows().push(
                DetectorRow {
                    name: numbered_name(old(self).rows().len() + 1),
                    efficiency: Efficiency::zeroed(),
                },
            ),
            final(self).n_particle_counts == old(self).n_particle_counts,
            final(self).decay == old(self).decay,
            final(self).wf() == old(self).wf(),
    {
        let n: usize = self.detectors.len();
        let d = Detector { name: detector_name(n as u128 + 1), efficiency: Efficiency::default() };
        self.detectors.push(d);
        assert(final(self).rows() =~= old(self).rows().push(d@));
    }

    /// Replaces the whole detector list by the detectors of `preset`. What
    /// the list held before is lost.
    pub fn apply_preset(&mut self, preset: Preset)
        ensures
            final(self).rows() == preset.rows(),
            final(self).n_particle_counts == old(self).n_particle_counts,
            final(self).decay == old(self).decay,
            final(self).wf() == old(self).wf(),
    {
        self.detectors = preset.detectors();
    }

    /// Removes the detector at `index` and hands it back; the detectors
    /// behind it move up by one. An index past the end changes nothing.
    pub fn remove_detector(&mut self, index: usize) -> (removed: Option<Detector>)
        ensures
            index < old(self).rows().len() ==> removed.is_some()
                && removed.unwrap()@ == old(self).rows()[index as int]
                && final(self).rows() == old(self).rows().remove(index as int),
            index >= old(self).rows().len() ==> removed.is_none()
                && final(self).detectors@ == old(self).detectors@,
            final(self).n_particle_counts == old(self).n_particle_counts,
            final(self).decay == old(self).decay,
            final(self).wf() == old(self).wf(),
    {
        if index < self.detectors.len() {
            let d = self.detectors.remove(index);
            assert(final(self).rows() =~= old(self).rows().remove(index as int));
            Some(d)
        } else {
            None
        }
    }
}

impl Default for CeBrARunTimeSettings {
    fn default() -> (s: CeBrARunTimeSettings)
        ensures
            s.n_particle_counts == 10000,
            s.decay == Decay::initial(),
            s.rows() == Seq::<DetectorRow>::empty(),
            s.wf(),
    {
        let s = CeBrARunTimeSettings {
            n_particle_counts: 10000,
            decay: Decay::default(),
            detectors: Vec::new(),
        };
        assert(s.rows() =~= Seq::<DetectorRow>::empty());
        s
    }
}

} // verus!
