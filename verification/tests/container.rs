use beam_time::app::{BeamTimeApp, Restored};
use beam_time::cebra::{CeBrARunTimeSettings, Preset};
use beam_time::icespice::ICESPICERunTimeSettings;
use beam_time::scalar::Scalar;
use beam_time::sps::SPSRunTimeSettings;

#[test]
fn default_container_shows_everything_embedded() {
    let app = BeamTimeApp::default();
    assert_eq!(app.sps_settings, SPSRunTimeSettings::default());
    assert_eq!(app.cebra_settings, CeBrARunTimeSettings::default());
    assert_eq!(app.icespice_settings, ICESPICERunTimeSettings::default());
    assert!(app.show_sps);
    assert!(app.show_cebra);
    assert!(app.show_icespice);
    assert!(!app.window);
    assert!(app.is_valid());
}

#[test]
fn without_storage_the_flag_picks_the_display_mode() {
    let floating = BeamTimeApp::new(Restored::NoStorage, true);
    assert!(floating.window);
    assert_eq!(floating, BeamTimeApp { window: true, ..BeamTimeApp::default() });
    let embedded = BeamTimeApp::new(Restored::NoStorage, false);
    assert_eq!(embedded, BeamTimeApp::default());
}

#[test]
fn unreadable_storage_gives_the_defaults() {
    assert_eq!(BeamTimeApp::new(Restored::Unreadable, false), BeamTimeApp::default());
    let floating = BeamTimeApp::new(Restored::Unreadable, true);
    assert_eq!(floating.sps_settings, SPSRunTimeSettings::default());
    assert_eq!(floating.cebra_settings, CeBrARunTimeSettings::default());
    assert_eq!(floating.icespice_settings, ICESPICERunTimeSettings::default());
    assert!(floating.show_sps && floating.show_cebra && floating.show_icespice);
}

#[test]
fn with_unreadable_storage_the_flag_picks_the_display_mode() {
    assert!(BeamTimeApp::new(Restored::Unreadable, true).window);
    assert!(!BeamTimeApp::new(Restored::Unreadable, false).window);
    assert_eq!(
        BeamTimeApp::new(Restored::Unreadable, true),
        BeamTimeApp::new(Restored::NoStorage, true)
    );
    assert_eq!(
        BeamTimeApp::new(Restored::Unreadable, true),
        BeamTimeApp { window: true, ..BeamTimeApp::default() }
    );
}

#[test]
fn a_saved_state_comes_back_as_it_was() {
    let mut saved = BeamTimeApp::default();
    saved.show_cebra = false;
    saved.window = true;
    saved.sps_settings.z_beam = 82;
    saved.icespice_settings.conversion_coefficient = Scalar::from_bits((-0.25f64).to_bits());
    saved.cebra_settings.apply_preset(Preset::Summer2022);
    saved.cebra_settings.add_detector();
    for flag in [false, true] {
        let app = BeamTimeApp::new(Restored::State(saved.clone()), flag);
        assert_eq!(app, saved);
        assert!(app.window);
        assert_eq!(app.cebra_settings.detectors[5].name, "Detector 6");
    }
}

#[test]
fn container_validity_is_that_of_its_parts() {
    let mut app = BeamTimeApp::default();
    app.sps_settings.z_beam = 0;
    assert!(!app.is_valid());
    app.sps_settings.z_beam = 1;
    app.cebra_settings.n_particle_counts = -1;
    assert!(!app.is_valid());
    app.cebra_settings.n_particle_counts = 1;
    app.icespice_settings.branching_ratio = Scalar::from_bits(101.0f64.to_bits());
    assert!(!app.is_valid());
    app.icespice_settings.branching_ratio = Scalar::from_bits(99.0f64.to_bits());
    assert!(app.is_valid());
}
