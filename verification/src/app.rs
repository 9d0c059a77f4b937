//! The container: one estimator of each kind, what is shown, and how the
//! state is chosen at start-up.

use vstd::prelude::*;
use crate::cebra::{CeBrARunTimeSettings, Decay, DetectorRow};
use crate::icespice::ICESPICERunTimeSettings;
use crate::sps::SPSRunTimeSettings;

verus! {

/// State of the whole estimator.
#[derive(Clone, Debug, PartialEq, Eq)]
pub struct BeamTimeApp {
    pub sps_settings: SPSRunTimeSettings,
    pub cebra_settings: CeBrARunTimeSettings,
    pub icespice_settings: ICESPICERunTimeSettings,
    /// Whether the spectrometer's panel is shown.
    pub show_sps: bool,
    /// Whether the detector array's panel is shown.
    pub show_cebra: bool,
    /// Whether the conversion-electron spectrometer's panel is shown.
    pub show_icespice: bool,
    /// Whether the estimator floats in a window of its own rather than
    /// filling the host's panel. Chosen at construction and never changed.
    pub window: bool,
}

/// What the host's storage gave at start-up.
#[derive(Clone, Debug, PartialEq, Eq)]
pub enum Restored {
    /// The host has no storage.
    NoStorage,
    /// The host has storage, but it holds no state that could be read.
    Unreadable,
    /// The state that was saved last.
    State(BeamTimeApp),
}

impl BeamTimeApp {
    /// Whether this is the built-in state with the given display mode: each
    /// estimator at its defaults, no detector, every panel shown.
    pub open spec fn is_initial(&self, window: bool) -> bool {
        &&& self.sps_settings == SPSRunTimeSettings::initial()
        &&& self.cebra_settings.n_particle_counts == 10000
        &&& self.cebra_settings.decay == Decay::initial()
        &&& self.cebra_settings.rows() == Seq::<DetectorRow>::empty()
        &&& self.icespice_settings == ICESPICERunTimeSettings::initial()
        &&& self.show_sps
        &&& self.show_cebra
        &&& self.show_icespice
        &&& self.window == window
    }

    /// The state's invariant: that of each estimator.
    pub open spec fn wf(&self) -> bool {
        &&& self.sps_settings.wf()
        &&& self.cebra_settings.wf()
        &&& self.icespice_settings.wf()
    }

    /// Whether the state meets its invariant.
    pub fn is_valid(&self) -> (r: bool)
        ensures
            r == self.wf(),
    {
        self.sps_settings.is_valid() && self.cebra_settings.is_valid()
            && self.icespice_settings.is_valid()
    }

    /// The state to start with. A saved state is taken as it is, display
    /// mode included. Whenever no saved state is taken, because the host has
    /// no storage or because nothing readable is in it, the result is the
    /// built-in state and `window` decides its display mode.
    pub fn new(restored: Restored, window: bool) -> (app: BeamTimeApp)
        ensures
            match restored {
                Restored::NoStorage => app.is_initial(window),
                Restored::Unreadable => app.is_initial(window),
                Restored::State(saved) => app == saved,
            },
    {
        match restored {
            Restored::State(saved) => saved,
            Restored::NoStorage | Restored::Unreadable => {
                let mut app = BeamTimeApp::default();
                app.window = window;
                app
            },
        }
    }
}

impl Default for BeamTimeApp {
    fn default() -> (app: BeamTimeApp)
        ensures
            app.is_initial(false),
            app.wf(),
    {
        BeamTimeApp {
            sps_settings: SPSRunTimeSettings::default(),
            cebra_settings: CeBrARunTimeSettings::default(),
            icespice_settings: ICESPICERunTimeSettings::default(),
            show_sps: true,
            show_cebra: true,
            show_icespice: true,
            window: false,
        }
    }
}

} // verus!
