//! Track-progress arithmetic and rendering helpers.
//!
//! The scheduler periodically converts the stream offset into elapsed and
//! total seconds and pushes a snapshot towards the display.  Everything
//! the display shows is computed here; putting the glyphs on the glass is
//! the display collaborator's business.

use vstd::prelude::*;

verus! {

/// One progress snapshot on its way to the display.
pub struct ProgressUpdate {
    /// Seconds of audio played so far.
    pub elapsed: u32,
    /// Total seconds in the track.
    pub total: u32,
    /// Whether the track is playing (as opposed to paused).
    pub playing: bool,
}

/// Convert a byte offset into whole seconds at the given byte rate.
pub fn elapsed_seconds(offset: u64, bytes_per_second: u32) -> (secs: u32)
    requires
        bytes_per_second > 0,
        offset as int / bytes_per_second as int <= u32::MAX,
    ensures
        secs == offset as int / bytes_per_second as int,
{
    (offset / bytes_per_second as u64) as u32
}

/// How far the track has progressed, in eighths (0 through 8).
pub fn progress_eighths(elapsed: u32, total: u32) -> (p: u32)
    requires
        total > 0,
        elapsed * 8 <= u32::MAX,
    ensures
        p == elapsed as int * 8 / total as int,
{
    elapsed * 8 / total
}

/// The eight-character progress bar: a marker at the given eighth, or a
/// filled bar once the track has run past its end.
pub fn progress_bar(eighths: u32) -> (bar: &'static str)
    ensures
        bar@.len() == 8,
        eighths == 0 ==> bar@ == "*-------"@,
        eighths == 1 ==> bar@ == "-*------"@,
        eighths == 2 ==> bar@ == "--*-----"@,
        eighths == 3 ==> bar@ == "---*----"@,
        eighths == 4 ==> bar@ == "----*---"@,
        eighths == 5 ==> bar@ == "-----*--"@,
        eighths == 6 ==> bar@ == "------*-"@,
        eighths == 7 ==> bar@ == "-------*"@,
        eighths >= 8 ==> bar@ == "********"@,
{
    proof {
        reveal_strlit("*-------");
        reveal_strlit("-*------");
        reveal_strlit("--*-----");
        reveal_strlit("---*----");
        reveal_strlit("----*---");
        reveal_strlit("-----*--");
        reveal_strlit("------*-");
        reveal_strlit("-------*");
        reveal_strlit("********");
    }
    match eighths {
        0 => "*-------",
        1 => "-*------",
        2 => "--*-----",
        3 => "---*----",
        4 => "----*---",
        5 => "-----*--",
        6 => "------*-",
        7 => "-------*",
        _ => "********",
    }
}

/// Render a second count as the five ASCII bytes `mm:ss`.
pub fn format_track_time(secs: u32) -> (text: Vec<u8>)
    requires
        secs < 6000,
    ensures
        text@.len() == 5,
        text@[0] == 0x30 + (secs as int / 60) / 10,
        text@[1] == 0x30 + (secs as int / 60) % 10,
        text@[2] == 0x3au8,
        text@[3] == 0x30 + (secs as int % 60) / 10,
        text@[4] == 0x30 + (secs as int % 60) % 10,
{
    let minutes = secs / 60;
    let seconds = secs % 60;
    let mut text: Vec<u8> = Vec::new();
    text.push(0x30 + (minutes / 10) as u8);
    text.push(0x30 + (minutes % 10) as u8);
    text.push(0x3a);
    text.push(0x30 + (seconds / 10) as u8);
    text.push(0x30 + (seconds % 10) as u8);
    text
}

} // verus!
