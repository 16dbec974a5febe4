//! The built-in equalizer presets, identified by id.
//!
//! The band gains of each preset are applied by the signal path; this module
//! decides which preset an id selects.
use vstd::prelude::*;
use crate::text::str_eq;

verus! {

broadcast use vstd::string::group_string_axioms;

/// Number of built-in presets.
pub const PRESET_COUNT: usize = 12;

/// The ids of the built-in presets, in their fixed order (`flat` first).
pub open spec fn preset_ids() -> Seq<Seq<char>> {
    seq![
        "flat"@, "bass_boost"@, "treble_boost"@, "vocal"@, "acoustic"@, "electronic"@,
        "classical"@, "rock"@, "hip_hop"@, "jazz"@, "late_night"@, "loudness"@,
    ]
}

/// The display names of the built-in presets, in the same order.
pub open spec fn preset_names() -> Seq<Seq<char>> {
    seq![
        "Flat"@, "Bass Boost"@, "Treble Boost"@, "Vocal"@, "Acoustic"@, "Electronic"@,
        "Classical"@, "Rock"@, "Hip Hop"@, "Jazz"@, "Late Night"@, "Loudness"@,
    ]
}

/// The preset an id selects: the first with that id, or `flat` (index 0)
/// when none has it.
pub open spec fn preset_for(id: Seq<char>) -> int {
    if exists|i: int| 0 <= i < 12 && preset_ids()[i] == id {
        choose|i: int| 0 <= i < 12 && preset_ids()[i] == id && forall|j: int| 0 <= j < i ==> preset_ids()[j] != id
    } else {
        0
    }
}

fn preset_id_at(i: usize) -> (r: &'static str)
    requires
        i < 12,
    ensures
        r@ == preset_ids()[i as int],
{
    match i {
        0 => "flat",
        1 => "bass_boost",
        2 => "treble_boost",
        3 => "vocal",
        4 => "acoustic",
        5 => "electronic",
        6 => "classical",
        7 => "rock",
        8 => "hip_hop",
        9 => "jazz",
        10 => "late_night",
        _ => "loudness",
    }
}

/// The display name of preset `i`.
pub fn preset_name(i: usize) -> (r: &'static str)
    requires
        i < 12,
    ensures
        r@ == preset_names()[i as int],
{
    match i {
        0 => "Flat",
        1 => "Bass Boost",
        2 => "Treble Boost",
        3 => "Vocal",
        4 => "Acoustic",
        5 => "Electronic",
        6 => "Classical",
        7 => "Rock",
        8 => "Hip Hop",
        9 => "Jazz",
        10 => "Late Night",
        _ => "Loudness",
    }
}

/// The id of preset `i`.
pub fn preset_id(i: usize) -> (r: &'static str)
    requires
        i < 12,
    ensures
        r@ == preset_ids()[i as int],
{
    preset_id_at(i)
}

/// Finds the preset with the given id; unknown ids select `flat`.
pub fn preset_by_id(id: &str) -> (r: usize)
    ensures
        r < 12,
        r == preset_for(id@),
{
    let mut i: usize = 0;
    while i < 12
        invariant
            i <= 12,
            forall|j: int| 0 <= j < i ==> preset_ids()[j] != id@,
        decreases 12 - i,
    {
        if str_eq(preset_id_at(i), id) {
            proof {
                let k = choose|k: int| 0 <= k < 12 && preset_ids()[k] == id@ && forall|j: int| 0 <= j < k ==> preset_ids()[j] != id@;
                assert(k == i as int);
            }
            return i;
        }
        i = i + 1;
    }
    0
}

/// An equalizer with a preset applied is on unless the preset is `flat`.
pub fn preset_enables(i: usize) -> (r: bool)
    requires
        i < 12,
    ensures
        r == (i != 0),
{
    i != 0
}

} // verus!
