//! Navigation and playback modes of the player, with their stable ids.
use vstd::prelude::*;
use crate::text::str_eq;

verus! {

broadcast use vstd::string::group_string_axioms;

/// How the library is laid out.
#[derive(Debug, Clone, Copy, PartialEq, Eq, Structural)]
pub enum LibraryViewMode {
    Grid,
    List,
}

/// Shuffle behaviour when the queue runs out.
#[derive(Debug, Clone, Copy, PartialEq, Eq, Structural)]
pub enum ShuffleMode {
    Off,
    Shuffle,
    SmartRadio,
}

/// Repeat behaviour at the end of a song or of the library.
#[derive(Debug, Clone, Copy, PartialEq, Eq, Structural)]
pub enum RepeatMode {
    Off,
    One,
    All,
}

/// Loudness normalization mode.
#[derive(Debug, Clone, Copy, PartialEq, Eq, Structural)]
pub enum NormalizationMode {
    Off,
    Track,
    Album,
}

/// Field by which the library can be sorted.
#[derive(Debug, Clone, Copy, PartialEq, Eq, Structural)]
pub enum SortField {
    Title,
    Artist,
    Album,
    Duration,
    DateAdded,
}

/// State of the self-update flow.
#[derive(Debug, Clone)]
pub enum UpdateStatus {
    Idle,
    Checking,
    Available { version: String, url: String },
    Downloading,
    Ready,
    Error(String),
}

/// What an update status denotes.
#[verifier::ext_equal]
pub enum UpdateView {
    Idle,
    Checking,
    Available { version: Seq<char>, url: Seq<char> },
    Downloading,
    Ready,
    Error(Seq<char>),
}

impl vstd::view::View for UpdateStatus {
    type V = UpdateView;

    open spec fn view(&self) -> UpdateView {
        match self {
            UpdateStatus::Idle => UpdateView::Idle,
            UpdateStatus::Checking => UpdateView::Checking,
            UpdateStatus::Available { version, url } => UpdateView::Available { version: version@, url: url@ },
            UpdateStatus::Downloading => UpdateView::Downloading,
            UpdateStatus::Ready => UpdateView::Ready,
            UpdateStatus::Error(m) => UpdateView::Error(m@),
        }
    }
}

/// The other layout.
pub open spec fn other_layout(m: LibraryViewMode) -> LibraryViewMode {
    match m {
        LibraryViewMode::Grid => LibraryViewMode::List,
        LibraryViewMode::List => LibraryViewMode::Grid,
    }
}

/// The id of a layout in the settings file.
pub open spec fn layout_id(m: LibraryViewMode) -> Seq<char> {
    match m {
        LibraryViewMode::Grid => "grid"@,
        LibraryViewMode::List => "list"@,
    }
}

/// The layout a settings id names: `"list"` is the list, anything else the
/// grid.
pub open spec fn layout_from_id(id: Seq<char>) -> LibraryViewMode {
    if id == "list"@ {
        LibraryViewMode::List
    } else {
        LibraryViewMode::Grid
    }
}

/// Toggling the layout twice gives the layout back; a saved layout reads
/// back as itself.
pub proof fn lemma_layout_toggle_and_roundtrip(m: LibraryViewMode)
    ensures
        other_layout(other_layout(m)) == m,
        other_layout(m) != m,
        layout_from_id(layout_id(m)) == m,
{
    reveal_strlit("grid");
    reveal_strlit("list");
    assert("grid"@[0] != "list"@[0]);
}

impl LibraryViewMode {
    /// The other layout.
    pub fn toggled(self) -> (r: Self)
        ensures
            r == other_layout(self),
    {
        match self {
            LibraryViewMode::Grid => LibraryViewMode::List,
            LibraryViewMode::List => LibraryViewMode::Grid,
        }
    }

    /// The id stored in the settings file.
    pub fn config_id(&self) -> (r: &'static str)
        ensures
            r@ == layout_id(*self),
    {
        match self {
            LibraryViewMode::Grid => "grid",
            LibraryViewMode::List => "list",
        }
    }

    /// The layout named in the settings file: `"list"` is the list, anything
    /// else the grid.
    pub fn from_config_id(id: &str) -> (r: Self)
        ensures
            r == layout_from_id(id@),
    {
        if str_eq(id, "list") {
            LibraryViewMode::List
        } else {
            LibraryViewMode::Grid
        }
    }
}

impl ShuffleMode {
    /// The next mode in the cycle Off → Shuffle → Smart Radio → Off.
    pub open spec fn cycled_spec(self) -> ShuffleMode {
        match self {
            ShuffleMode::Off => ShuffleMode::Shuffle,
            ShuffleMode::Shuffle => ShuffleMode::SmartRadio,
            ShuffleMode::SmartRadio => ShuffleMode::Off,
        }
    }

    /// The next mode in the cycle Off → Shuffle → Smart Radio → Off.
    pub fn cycled(self) -> (r: Self)
        ensures
            r == self.cycled_spec(),
    {
        match self {
            ShuffleMode::Off => ShuffleMode::Shuffle,
            ShuffleMode::Shuffle => ShuffleMode::SmartRadio,
            ShuffleMode::SmartRadio => ShuffleMode::Off,
        }
    }
}

impl RepeatMode {
    /// The next mode in the cycle Off → All → One → Off.
    pub open spec fn cycled_spec(self) -> RepeatMode {
        match self {
            RepeatMode::Off => RepeatMode::All,
            RepeatMode::All => RepeatMode::One,
            RepeatMode::One => RepeatMode::Off,
        }
    }

    /// The next mode in the cycle Off → All → One → Off.
    pub fn cycled(self) -> (r: Self)
        ensures
            r == self.cycled_spec(),
    {
        match self {
            RepeatMode::Off => RepeatMode::All,
            RepeatMode::All => RepeatMode::One,
            RepeatMode::One => RepeatMode::Off,
        }
    }
}

/// Three presses of the shuffle button bring back the mode one started
/// from, and every press changes the mode.
pub proof fn lemma_shuffle_cycle(m: ShuffleMode)
    ensures
        m.cycled_spec().cycled_spec().cycled_spec() == m,
        m.cycled_spec() != m,
{
}

/// Three presses of the repeat button bring back the mode one started
/// from, and every press changes the mode.
pub proof fn lemma_repeat_cycle(m: RepeatMode)
    ensures
        m.cycled_spec().cycled_spec().cycled_spec() == m,
        m.cycled_spec() != m,
{
}

/// The id of a normalization mode.
pub open spec fn normalization_id(m: NormalizationMode) -> Seq<char> {
    match m {
        NormalizationMode::Off => "off"@,
        NormalizationMode::Track => "track"@,
        NormalizationMode::Album => "album"@,
    }
}

/// The mode a settings id names; unknown ids mean `Off`.
pub open spec fn normalization_from_id(id: Seq<char>) -> NormalizationMode {
    if id == "track"@ {
        NormalizationMode::Track
    } else if id == "album"@ {
        NormalizationMode::Album
    } else {
        NormalizationMode::Off
    }
}

impl NormalizationMode {
    /// Human-readable name.
    pub fn label(&self) -> (r: &'static str)
        ensures
            r@ == (match *self {
                NormalizationMode::Off => "Off"@,
                NormalizationMode::Track => "Track"@,
                NormalizationMode::Album => "Album"@,
            }),
    {
        match self {
            NormalizationMode::Off => "Off",
            NormalizationMode::Track => "Track",
            NormalizationMode::Album => "Album",
        }
    }

    /// Stable id used in the settings file.
    pub fn id(&self) -> (r: &'static str)
        ensures
            r@ == normalization_id(*self),
    {
        match self {
            NormalizationMode::Off => "off",
            NormalizationMode::Track => "track",
            NormalizationMode::Album => "album",
        }
    }

    /// The mode with the given id; unknown ids mean `Off`.
    pub fn from_id(id: &str) -> (r: Self)
        ensures
            r == normalization_from_id(id@),
    {
        if str_eq(id, "track") {
            NormalizationMode::Track
        } else if str_eq(id, "album") {
            NormalizationMode::Album
        } else {
            NormalizationMode::Off
        }
    }
}

/// Reading back the id of a normalization mode gives the mode again.
pub proof fn lemma_normalization_id_roundtrip(m: NormalizationMode)
    ensures
        normalization_from_id(normalization_id(m)) == m,
{
    reveal_strlit("off");
    reveal_strlit("track");
    reveal_strlit("album");
    assert("off"@.len() != "track"@.len());
    assert("off"@.len() != "album"@.len());
    assert("track"@[0] != "album"@[0]);
}

} // verus!
