//! The small pure value types of the interface layer: the station sub-tab
//! selector and the visualizer selector. Rendering them is not the
//! library's business.

use vstd::prelude::*;

verus! {

/// The three sub-tabs of the station panel.
#[derive(Debug, Clone, Copy, PartialEq, Eq, Structural)]
pub enum NtsSubTab {
    Live,
    Picks,
    Search,
}

impl NtsSubTab {
    /// The 0-based position of this sub-tab in the bar.
    pub fn index(self) -> (r: usize)
        ensures
            (match self {
                NtsSubTab::Live => r == 0,
                NtsSubTab::Picks => r == 1,
                NtsSubTab::Search => r == 2,
            }),
    {
        match self {
            NtsSubTab::Live => 0,
            NtsSubTab::Picks => 1,
            NtsSubTab::Search => 2,
        }
    }

    /// The sub-tab at a 0-based position, or nothing when out of range.
    pub fn from_index(index: usize) -> (r: Option<NtsSubTab>)
        ensures
            (match index {
                0 => r == Some(NtsSubTab::Live),
                1 => r == Some(NtsSubTab::Picks),
                2 => r == Some(NtsSubTab::Search),
                _ => r is None,
            }),
    {
        match index {
            0 => Some(NtsSubTab::Live),
            1 => Some(NtsSubTab::Picks),
            2 => Some(NtsSubTab::Search),
            _ => None,
        }
    }

    /// The sub-tab after this one, wrapping at the end.
    pub fn next(self) -> (r: Self)
        ensures
            (match self {
                NtsSubTab::Live => r == NtsSubTab::Picks,
                NtsSubTab::Picks => r == NtsSubTab::Search,
                NtsSubTab::Search => r == NtsSubTab::Live,
            }),
    {
        match self {
            NtsSubTab::Live => NtsSubTab::Picks,
            NtsSubTab::Picks => NtsSubTab::Search,
            NtsSubTab::Search => NtsSubTab::Live,
        }
    }

    /// The sub-tab before this one, wrapping at the start.
    pub fn prev(self) -> (r: Self)
        ensures
            (match self {
                NtsSubTab::Live => r == NtsSubTab::Search,
                NtsSubTab::Picks => r == NtsSubTab::Live,
                NtsSubTab::Search => r == NtsSubTab::Picks,
            }),
    {
        match self {
            NtsSubTab::Live => NtsSubTab::Search,
            NtsSubTab::Picks => NtsSubTab::Live,
            NtsSubTab::Search => NtsSubTab::Picks,
        }
    }

    /// The name shown on the sub-tab.
    pub fn label(self) -> (r: &'static str)
        ensures
            (match self {
                NtsSubTab::Live => r@ == "Live"@,
                NtsSubTab::Picks => r@ == "Picks"@,
                NtsSubTab::Search => r@ == "Search"@,
            }),
    {
        match self {
            NtsSubTab::Live => "Live",
            NtsSubTab::Picks => "Picks",
            NtsSubTab::Search => "Search",
        }
    }
}

impl Default for NtsSubTab {
    /// The live sub-tab is the one shown first.
    fn default() -> (r: Self)
        ensures
            r == NtsSubTab::Live,
    {
        NtsSubTab::Live
    }
}

/// Which visualizer is active.
#[derive(Debug, Clone, Copy, PartialEq, Eq, Structural)]
pub enum VisualizerKind {
    Blob,
    Spectrum,
    Waveform,
    Starfield,
    Rings,
}

impl VisualizerKind {
    /// The visualizer after this one, wrapping at the end of the cycle.
    pub fn next(self) -> (r: Self)
        ensures
            (match self {
                VisualizerKind::Blob => r == VisualizerKind::Spectrum,
                VisualizerKind::Spectrum => r == VisualizerKind::Waveform,
                VisualizerKind::Waveform => r == VisualizerKind::Starfield,
                VisualizerKind::Starfield => r == VisualizerKind::Rings,
                VisualizerKind::Rings => r == VisualizerKind::Blob,
            }),
    {
        match self {
            VisualizerKind::Blob => VisualizerKind::Spectrum,
            VisualizerKind::Spectrum => VisualizerKind::Waveform,
            VisualizerKind::Waveform => VisualizerKind::Starfield,
            VisualizerKind::Starfield => VisualizerKind::Rings,
            VisualizerKind::Rings => VisualizerKind::Blob,
        }
    }

    /// The human-readable name of this visualizer.
    pub fn label(self) -> (r: &'static str)
        ensures
            (match self {
                VisualizerKind::Blob => r@ == "Blob"@,
                VisualizerKind::Spectrum => r@ == "Spectrum"@,
                VisualizerKind::Waveform => r@ == "Waveform"@,
                VisualizerKind::Starfield => r@ == "Starfield"@,
                VisualizerKind::Rings => r@ == "Rings"@,
            }),
    {
        match self {
            VisualizerKind::Blob => "Blob",
            VisualizerKind::Spectrum => "Spectrum",
            VisualizerKind::Waveform => "Waveform",
            VisualizerKind::Starfield => "Starfield",
            VisualizerKind::Rings => "Rings",
        }
    }
}

impl Default for VisualizerKind {
    /// The blob visualizer is the one shown first.
    fn default() -> (r: Self)
        ensures
            r == VisualizerKind::Blob,
    {
        VisualizerKind::Blob
    }
}

} // verus!
