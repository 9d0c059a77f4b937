use beam_time::icespice::ICESPICERunTimeSettings;
use beam_time::scalar::Scalar;
use beam_time::sps::{SPSRunTimeSettings, MAX_SLIT_SETTINGS, MAX_Z_BEAM, MIN_Z_BEAM};

fn value(s: Scalar) -> f64 {
    f64::from_bits(s.to_bits())
}

fn scalar(x: f64) -> Scalar {
    Scalar::from_bits(x.to_bits())
}

#[test]
fn spectrometer_defaults() {
    let s = SPSRunTimeSettings::default();
    assert_eq!(value(s.cross_section), 100.0);
    assert_eq!(value(s.target_density), 100.0);
    assert_eq!(value(s.target_molar_mass), 240.0);
    assert_eq!(value(s.beam_current), 20.0);
    assert_eq!(s.z_beam, 1);
    assert_eq!(value(s.slit_settings), 4.62);
    assert_eq!(s.desired_counts, 1000);
    assert_eq!(s.time_s.to_bits(), 0);
    assert_eq!(s.time_h.to_bits(), 0);
    assert_eq!(s.time_d.to_bits(), 0);
    assert!(s.is_valid());
}

#[test]
fn spectrometer_limits() {
    assert_eq!(f64::from_bits(MAX_SLIT_SETTINGS), 12.8);
    assert_eq!((MIN_Z_BEAM, MAX_Z_BEAM), (1, 118));
}

#[test]
fn spectrometer_validity_follows_each_range() {
    let ok = SPSRunTimeSettings::default();
    let cases: Vec<(SPSRunTimeSettings, bool)> = vec![
        (SPSRunTimeSettings { z_beam: 0, ..ok }, false),
        (SPSRunTimeSettings { z_beam: 118, ..ok }, true),
        (SPSRunTimeSettings { z_beam: 119, ..ok }, false),
        (SPSRunTimeSettings { z_beam: -3, ..ok }, false),
        (SPSRunTimeSettings { slit_settings: scalar(12.8), ..ok }, true),
        (SPSRunTimeSettings { slit_settings: scalar(12.9), ..ok }, false),
        (SPSRunTimeSettings { slit_settings: scalar(0.0), ..ok }, true),
        (SPSRunTimeSettings { slit_settings: scalar(-0.1), ..ok }, false),
        (SPSRunTimeSettings { desired_counts: 0, ..ok }, true),
        (SPSRunTimeSettings { desired_counts: -1, ..ok }, false),
        (SPSRunTimeSettings { cross_section: scalar(0.0), ..ok }, true),
        (SPSRunTimeSettings { cross_section: scalar(-1.0), ..ok }, false),
        (SPSRunTimeSettings { cross_section: scalar(f64::INFINITY), ..ok }, true),
        (SPSRunTimeSettings { target_density: scalar(f64::NAN), ..ok }, false),
        (SPSRunTimeSettings { target_molar_mass: scalar(-240.0), ..ok }, false),
        (SPSRunTimeSettings { beam_current: scalar(-1e-9), ..ok }, false),
        (SPSRunTimeSettings { time_s: scalar(f64::NAN), time_h: scalar(-1.0), ..ok }, true),
    ];
    for (s, want) in cases {
        assert_eq!(s.is_valid(), want, "{:?}", s);
    }
}

#[test]
fn set_times_touches_only_the_results() {
    let mut s = SPSRunTimeSettings::default();
    s.z_beam = 6;
    s.set_times(scalar(7200.0), scalar(2.0), scalar(2.0 / 24.0));
    assert_eq!(value(s.time_s), 7200.0);
    assert_eq!(value(s.time_h), 2.0);
    assert_eq!(value(s.time_d), 2.0 / 24.0);
    let d = SPSRunTimeSettings::default();
    assert_eq!(s, SPSRunTimeSettings { z_beam: 6, time_s: s.time_s, time_h: s.time_h, time_d: s.time_d, ..d });
    s.set_times(scalar(f64::INFINITY), scalar(f64::INFINITY), scalar(f64::NAN));
    assert!(value(s.time_d).is_nan());
    assert!(s.is_valid());
}

#[test]
fn conversion_electron_defaults() {
    let s = ICESPICERunTimeSettings::default();
    assert_eq!(s.n_particle_counts, 10000);
    assert_eq!(value(s.transmission_prob), 1.29);
    assert_eq!(value(s.detector_efficiency), 30.7);
    assert_eq!(value(s.branching_ratio), 100.0);
    assert_eq!(value(s.conversion_coefficient), 1.0);
    assert!(s.is_valid());
}

#[test]
fn conversion_electron_validity_follows_each_range() {
    let ok = ICESPICERunTimeSettings::default();
    let cases: Vec<(ICESPICERunTimeSettings, bool)> = vec![
        (ICESPICERunTimeSettings { n_particle_counts: 0, ..ok }, true),
        (ICESPICERunTimeSettings { n_particle_counts: -1, ..ok }, false),
        (ICESPICERunTimeSettings { transmission_prob: scalar(100.0), ..ok }, true),
        (ICESPICERunTimeSettings { transmission_prob: scalar(100.5), ..ok }, false),
        (ICESPICERunTimeSettings { detector_efficiency: scalar(-0.0), ..ok }, true),
        (ICESPICERunTimeSettings { detector_efficiency: scalar(-30.7), ..ok }, false),
        (ICESPICERunTimeSettings { branching_ratio: scalar(0.0), ..ok }, true),
        (ICESPICERunTimeSettings { branching_ratio: scalar(f64::INFINITY), ..ok }, false),
        (ICESPICERunTimeSettings { conversion_coefficient: scalar(-5.0), ..ok }, true),
        (ICESPICERunTimeSettings { conversion_coefficient: scalar(f64::NAN), ..ok }, true),
    ];
    for (s, want) in cases {
        assert_eq!(s.is_valid(), want, "{:?}", s);
    }
}
