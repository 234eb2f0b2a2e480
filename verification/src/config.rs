//! The static circle-of-fifths table: twelve clock positions, each holding a
//! major key on the outer ring, its relative minor on the inner ring, and the
//! accidental count on the middle ring.
//!
//! Entries at the same clock position share the same angle across all three
//! rings; keeping that alignment is a correctness invariant of the diagram,
//! stated in the contract of `cof_entries`.

use vstd::prelude::*;
use vstd::string::StringExecFns;
use crate::layout::{valid_entry, RadialEntry, Ring};

verus! {

/// The angle of clock position `i`: position 0 sits at 150 degrees and each
/// following position is 30 degrees clockwise, down to -180 degrees.
pub open spec fn clock_angle(i: int) -> int {
    150 - 30 * i
}

/// The major key drawn on the outer ring at clock position `i`.
pub open spec fn major_label(i: int) -> Seq<char> {
    if i == 0 {
        "Bb"@
    } else if i == 1 {
        "F"@
    } else if i == 2 {
        "C"@
    } else if i == 3 {
        "G"@
    } else if i == 4 {
        "D"@
    } else if i == 5 {
        "A"@
    } else if i == 6 {
        "E"@
    } else if i == 7 {
        "B"@
    } else if i == 8 {
        "Gb/F#"@
    } else if i == 9 {
        "Db"@
    } else if i == 10 {
        "Ab"@
    } else {
        "Eb"@
    }
}

/// The minor key drawn on the inner ring at clock position `i`.
pub open spec fn minor_label(i: int) -> Seq<char> {
    if i == 0 {
        "g"@
    } else if i == 1 {
        "d"@
    } else if i == 2 {
        "a"@
    } else if i == 3 {
        "e"@
    } else if i == 4 {
        "b"@
    } else if i == 5 {
        "f#"@
    } else if i == 6 {
        "c#"@
    } else if i == 7 {
        "g#"@
    } else if i == 8 {
        "eb/d#"@
    } else if i == 9 {
        "bb"@
    } else if i == 10 {
        "f"@
    } else {
        "c"@
    }
}

/// The accidental count drawn on the middle ring at clock position `i`.
pub open spec fn accidental_label(i: int) -> Seq<char> {
    if i == 0 {
        "2b"@
    } else if i == 1 {
        "1b"@
    } else if i == 2 {
        "0"@
    } else if i == 3 {
        "1#"@
    } else if i == 4 {
        "2#"@
    } else if i == 5 {
        "3#"@
    } else if i == 6 {
        "4#"@
    } else if i == 7 {
        "5#"@
    } else if i == 8 {
        "6b/6#"@
    } else if i == 9 {
        "5b"@
    } else if i == 10 {
        "4b"@
    } else {
        "3b"@
    }
}

/// The outer ring: the twelve major keys in clock order.
fn major_entries() -> (out: Vec<RadialEntry>)
    ensures
        out@.len() == 12,
        forall|i: int|
            0 <= i < 12 ==> (#[trigger] out@[i]).ring == Ring::Major && out@[i].angle_deg as int
                == clock_angle(i) && out@[i].label@ == major_label(i),
{
    let mut out: Vec<RadialEntry> = Vec::new();
    out.push(RadialEntry { ring: Ring::Major, angle_deg: 150, label: String::from_str("Bb") });
    out.push(RadialEntry { ring: Ring::Major, angle_deg: 120, label: String::from_str("F") });
    out.push(RadialEntry { ring: Ring::Major, angle_deg: 90, label: String::from_str("C") });
    out.push(RadialEntry { ring: Ring::Major, angle_deg: 60, label: String::from_str("G") });
    out.push(RadialEntry { ring: Ring::Major, angle_deg: 30, label: String::from_str("D") });
    out.push(RadialEntry { ring: Ring::Major, angle_deg: 0, label: String::from_str("A") });
    out.push(RadialEntry { ring: Ring::Major, angle_deg: -30, label: String::from_str("E") });
    out.push(RadialEntry { ring: Ring::Major, angle_deg: -60, label: String::from_str("B") });
    out.push(RadialEntry { ring: Ring::Major, angle_deg: -90, label: String::from_str("Gb/F#") });
    out.push(RadialEntry { ring: Ring::Major, angle_deg: -120, label: String::from_str("Db") });
    out.push(RadialEntry { ring: Ring::Major, angle_deg: -150, label: String::from_str("Ab") });
    out.push(RadialEntry { ring: Ring::Major, angle_deg: -180, label: String::from_str("Eb") });
    out
}

/// The inner ring: the twelve relative minor keys in clock order.
fn minor_entries() -> (out: Vec<RadialEntry>)
    ensures
        out@.len() == 12,
        forall|i: int|
            0 <= i < 12 ==> (#[trigger] out@[i]).ring == Ring::Minor && out@[i].angle_deg as int
                == clock_angle(i) && out@[i].label@ == minor_label(i),
{
    let mut out: Vec<RadialEntry> = Vec::new();
    out.push(RadialEntry { ring: Ring::Minor, angle_deg: 150, label: String::from_str("g") });
    out.push(RadialEntry { ring: Ring::Minor, angle_deg: 120, label: String::from_str("d") });
    out.push(RadialEntry { ring: Ring::Minor, angle_deg: 90, label: String::from_str("a") });
    out.push(RadialEntry { ring: Ring::Minor, angle_deg: 60, label: String::from_str("e") });
    out.push(RadialEntry { ring: Ring::Minor, angle_deg: 30, label: String::from_str("b") });
    out.push(RadialEntry { ring: Ring::Minor, angle_deg: 0, label: String::from_str("f#") });
    out.push(RadialEntry { ring: Ring::Minor, angle_deg: -30, label: String::from_str("c#") });
    out.push(RadialEntry { ring: Ring::Minor, angle_deg: -60, label: String::from_str("g#") });
    out.push(RadialEntry { ring: Ring::Minor, angle_deg: -90, label: String::from_str("eb/d#") });
    out.push(RadialEntry { ring: Ring::Minor, angle_deg: -120, label: String::from_str("bb") });
    out.push(RadialEntry { ring: Ring::Minor, angle_deg: -150, label: String::from_str("f") });
    out.push(RadialEntry { ring: Ring::Minor, angle_deg: -180, label: String::from_str("c") });
    out
}

/// The middle ring: the accidental counts in clock order.
fn accidental_entries() -> (out: Vec<RadialEntry>)
    ensures
        out@.len() == 12,
        forall|i: int|
            0 <= i < 12 ==> (#[trigger] out@[i]).ring == Ring::Accidental && out@[
                i
            ].angle_deg as int == clock_angle(i) && out@[i].label@ == accidental_label(i),
{
    let mut out: Vec<RadialEntry> = Vec::new();
    out.push(RadialEntry { ring: Ring::Accidental, angle_deg: 150, label: String::from_str("2b") });
    out.push(RadialEntry { ring: Ring::Accidental, angle_deg: 120, label: String::from_str("1b") });
    out.push(RadialEntry { ring: Ring::Accidental, angle_deg: 90, label: String::from_str("0") });
    out.push(RadialEntry { ring: Ring::Accidental, angle_deg: 60, label: String::from_str("1#") });
    out.push(RadialEntry { ring: Ring::Accidental, angle_deg: 30, label: String::from_str("2#") });
    out.push(RadialEntry { ring: Ring::Accidental, angle_deg: 0, label: String::from_str("3#") });
    out.push(RadialEntry { ring: Ring::Accidental, angle_deg: -30, label: String::from_str("4#") });
    out.push(RadialEntry { ring: Ring::Accidental, angle_deg: -60, label: String::from_str("5#") });
    out.push(
        RadialEntry { ring: Ring::Accidental, angle_deg: -90, label: String::from_str("6b/6#") },
    );
    out.push(RadialEntry { ring: Ring::Accidental, angle_deg: -120, label: String::from_str("5b") });
    out.push(RadialEntry { ring: Ring::Accidental, angle_deg: -150, label: String::from_str("4b") });
    out.push(RadialEntry { ring: Ring::Accidental, angle_deg: -180, label: String::from_str("3b") });
    out
}

/// The full diagram table: majors, then minors, then accidentals, each ring
/// in clock order. Entries at the same clock position carry identical
/// angles across the three rings, and every entry is one the layout engine
/// accepts.
pub fn cof_entries() -> (out: Vec<RadialEntry>)
    ensures
        out@.len() == 36,
        forall|i: int| 0 <= i < 36 ==> valid_entry(#[trigger] out@[i]),
        forall|i: int|
            0 <= i < 12 ==> (#[trigger] out@[i]).ring == Ring::Major && out@[i].angle_deg as int
                == clock_angle(i) && out@[i].label@ == major_label(i),
        forall|i: int|
            12 <= i < 24 ==> (#[trigger] out@[i]).ring == Ring::Minor && out@[i].angle_deg as int
                == clock_angle(i - 12) && out@[i].label@ == minor_label(i - 12),
        forall|i: int|
            24 <= i < 36 ==> (#[trigger] out@[i]).ring == Ring::Accidental && out@[
                i
            ].angle_deg as int == clock_angle(i - 24) && out@[i].label@ == accidental_label(i - 24),
        forall|i: int|
            0 <= i < 12 ==> (#[trigger] out@[i]).angle_deg == out@[i + 12].angle_deg && out@[
                i
            ].angle_deg == out@[i + 24].angle_deg,
{
    let mut out = major_entries();
    let mut minors = minor_entries();
    let mut accidentals = accidental_entries();
    out.append(&mut minors);
    out.append(&mut accidentals);
    proof {
        reveal_strlit("Bb");
        reveal_strlit("F");
        reveal_strlit("C");
        reveal_strlit("G");
        reveal_strlit("D");
        reveal_strlit("A");
        reveal_strlit("E");
        reveal_strlit("B");
        reveal_strlit("Gb/F#");
        reveal_strlit("Db");
        reveal_strlit("Ab");
        reveal_strlit("Eb");
        reveal_strlit("g");
        reveal_strlit("d");
        reveal_strlit("a");
        reveal_strlit("e");
        reveal_strlit("b");
        reveal_strlit("f#");
        reveal_strlit("c#");
        reveal_strlit("g#");
        reveal_strlit("eb/d#");
        reveal_strlit("bb");
        reveal_strlit("f");
        reveal_strlit("c");
        reveal_strlit("2b");
        reveal_strlit("1b");
        reveal_strlit("0");
        reveal_strlit("1#");
        reveal_strlit("2#");
        reveal_strlit("3#");
        reveal_strlit("4#");
        reveal_strlit("5#");
        reveal_strlit("6b/6#");
        reveal_strlit("5b");
        reveal_strlit("4b");
        reveal_strlit("3b");
    }
    out
}

} // verus!
