//! Sets of quirks under a name.

use crate::gui::quirks_settings::QuirksSettings;
use vstd::prelude::*;

verus! {

/// A named set of quirks.
#[derive(Copy, Clone, Debug, PartialEq, Eq, Structural)]
pub enum QuirksPreset {
    /// What most programs expect.
    Default,
    /// What programs written with Octo expect.
    Octo,
}

impl QuirksPreset {
    /// The switches of the preset, in the order of `Quirk`.
    pub open spec fn values(self) -> Seq<bool> {
        match self {
            QuirksPreset::Default => seq![true, true, true, true, true, false, false],
            QuirksPreset::Octo => seq![false, false, true, false, true, true, true],
        }
    }
}

/// Applies presets to a `QuirksSettings` and tells which one is set. The
/// handler holds the settings while it works and hands them back.
pub struct QuirksPresetHandler {
    settings: QuirksSettings,
}

impl View for QuirksPresetHandler {
    type V = Seq<bool>;

    /// The switches that the handler holds.
    closed spec fn view(&self) -> Seq<bool> {
        self.settings@
    }
}

impl QuirksPresetHandler {
    /// A handler that holds `settings`.
    pub fn new(settings: QuirksSettings) -> (r: Self)
        ensures
            r@ == settings@,
    {
        Self { settings }
    }

    /// The settings as the handler has made them.
    pub fn into_settings(self) -> (r: QuirksSettings)
        ensures
            r@ == self@,
    {
        self.settings
    }

    /// Whether the switches are as `preset` sets them.
    pub fn is_active(&self, preset: QuirksPreset) -> (r: bool)
        ensures
            r == (self@ == preset.values()),
    {
        proof {
            self.settings.lemma_len();
        }
        let wanted = self.get_preset(preset);
        let mut i: usize = 0;
        while i < 7
            invariant
                i <= 7,
                wanted@ == preset.values(),
                self@.len() == 7,
                forall|j: int| 0 <= j < i ==> self@[j] == wanted@[j],
            decreases 7 - i,
        {
            if self.settings.at(i) != wanted[i] {
                return false;
            }
            i += 1;
        }
        assert(self@ =~= preset.values());
        true
    }

    /// Sets the switches as `preset` asks.
    pub fn set_preset(&mut self, preset: QuirksPreset)
        ensures
            final(self)@ == preset.values(),
    {
        let preset = self.get_preset(preset);
        self.settings.set_all(preset);
    }

    fn get_preset(&self, preset: QuirksPreset) -> (r: [bool; 7])
        ensures
            r@ == preset.values(),
    {
        let r = match preset {
            QuirksPreset::Default => [true, true, true, true, true, false, false],
            QuirksPreset::Octo => [false, false, true, false, true, true, true],
        };
        assert(r@ =~= preset.values());
        r
    }
}

} // verus!
