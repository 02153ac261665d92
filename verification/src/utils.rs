//! Decimal label formatting: playback timecodes and byte-size labels.

use vstd::prelude::*;

verus! {

/// One kibibyte, the smallest unit with a suffix of its own.
pub const KB: u64 = 1024;

/// One mebibyte.
pub const MB: u64 = 1024 * 1024;

/// One gibibyte.
pub const GB: u64 = 1024 * 1024 * 1024;

/// The character for a single decimal digit.
pub open spec fn digit_char(d: int) -> char {
    if d == 0 {
        '0'
    } else if d == 1 {
        '1'
    } else if d == 2 {
        '2'
    } else if d == 3 {
        '3'
    } else if d == 4 {
        '4'
    } else if d == 5 {
        '5'
    } else if d == 6 {
        '6'
    } else if d == 7 {
        '7'
    } else if d == 8 {
        '8'
    } else {
        '9'
    }
}

/// The decimal rendering of `n`, most significant digit first, no leading
/// zeros (except for `n == 0`, which renders as "0").
pub open spec fn spec_decimal(n: nat) -> Seq<char>
    decreases n,
{
    if n < 10 {
        seq![digit_char(n as int)]
    } else {
        spec_decimal(n / 10).push(digit_char((n % 10) as int))
    }
}

/// The decimal rendering of `n` padded with '0' on the left to at least two
/// characters.
pub open spec fn spec_padded2(n: nat) -> Seq<char> {
    if n < 10 {
        seq!['0'] + spec_decimal(n)
    } else {
        spec_decimal(n)
    }
}

fn digit_str(d: u64) -> (s: &'static str)
    requires
        d < 10,
    ensures
        s@ =~= seq![digit_char(d as int)],
{
    proof {
        reveal_strlit("0");
        reveal_strlit("1");
        reveal_strlit("2");
        reveal_strlit("3");
        reveal_strlit("4");
        reveal_strlit("5");
        reveal_strlit("6");
        reveal_strlit("7");
        reveal_strlit("8");
        reveal_strlit("9");
    }
    if d == 0 {
        "0"
    } else if d == 1 {
        "1"
    } else if d == 2 {
        "2"
    } else if d == 3 {
        "3"
    } else if d == 4 {
        "4"
    } else if d == 5 {
        "5"
    } else if d == 6 {
        "6"
    } else if d == 7 {
        "7"
    } else if d == 8 {
        "8"
    } else {
        "9"
    }
}

/// Renders `n` in decimal.
pub fn format_u64(n: u64) -> (s: String)
    ensures
        s@ == spec_decimal(n as nat),
    decreases n,
{
    if n < 10 {
        let s = digit_str(n);
        s.to_owned()
    } else {
        let mut s = format_u64(n / 10);
        let d = digit_str(n % 10);
        s.append(d);
        proof {
            assert(s@ =~= spec_decimal(n as nat));
        }
        s
    }
}

/// Renders `n` in decimal, left-padded with '0' to at least two characters.
pub fn format_u64_padded2(n: u64) -> (s: String)
    ensures
        s@ == spec_padded2(n as nat),
{
    if n < 10 {
        proof {
            reveal_strlit("0");
        }
        let mut s = String::from_str("0");
        let d = digit_str(n);
        s.append(d);
        proof {
            assert(s@ =~= spec_padded2(n as nat));
        }
        s
    } else {
        format_u64(n)
    }
}

/// The elapsed/total timestamp label shown while media plays.
///
/// Both frame counters are first converted to whole seconds at `fps` frames
/// per second. When the total duration reaches a full hour the label shows
/// `h:mm:ss / h:mm:ss`; otherwise it shows `m:ss / m:ss` (the elapsed hours,
/// if any, are not folded into the minutes in that case).
pub open spec fn spec_timecode(current_frames: nat, total_frames: nat, fps: nat) -> Seq<char>
    recommends
        fps > 0,
{
    let cs = current_frames / fps;
    let ts = total_frames / fps;
    let cur_h = cs / 3600;
    let cur_m = (cs % 3600) / 60;
    let cur_s = cs % 60;
    let tot_h = ts / 3600;
    let tot_m = (ts % 3600) / 60;
    let tot_s = ts % 60;
    if tot_h > 0 {
        spec_decimal(cur_h) + ":"@ + spec_padded2(cur_m) + ":"@ + spec_padded2(cur_s) + " / "@
            + spec_decimal(tot_h) + ":"@ + spec_padded2(tot_m) + ":"@ + spec_padded2(tot_s)
    } else {
        spec_decimal(cur_m) + ":"@ + spec_padded2(cur_s) + " / "@ + spec_decimal(tot_m) + ":"@
            + spec_padded2(tot_s)
    }
}

/// Renders the elapsed/total playback timestamp, e.g. `0:02 / 0:10`.
pub fn format_timecode(current_frames: u64, total_frames: u64, fps: u64) -> (s: String)
    requires
        fps > 0,
    ensures
        s@ == spec_timecode(current_frames as nat, total_frames as nat, fps as nat),
{
    let cs = current_frames / fps;
    let ts = total_frames / fps;
    let cur_h = cs / 3600;
    let cur_m = (cs % 3600) / 60;
    let cur_s = cs % 60;
    let tot_h = ts / 3600;
    let tot_m = (ts % 3600) / 60;
    let tot_s = ts % 60;
    if tot_h > 0 {
        let mut s = format_u64(cur_h);
        s.append(":");
        let part = format_u64_padded2(cur_m);
        s.append(part.as_str());
        s.append(":");
        let part = format_u64_padded2(cur_s);
        s.append(part.as_str());
        s.append(" / ");
        let part = format_u64(tot_h);
        s.append(part.as_str());
        s.append(":");
        let part = format_u64_padded2(tot_m);
        s.append(part.as_str());
        s.append(":");
        let part = format_u64_padded2(tot_s);
        s.append(part.as_str());
        proof {
            assert(s@ =~= spec_timecode(current_frames as nat, total_frames as nat, fps as nat));
        }
        s
    } else {
        let mut s = format_u64(cur_m);
        s.append(":");
        let part = format_u64_padded2(cur_s);
        s.append(part.as_str());
        s.append(" / ");
        let part = format_u64(tot_m);
        s.append(part.as_str());
        s.append(":");
        let part = format_u64_padded2(tot_s);
        s.append(part.as_str());
        proof {
            assert(s@ =~= spec_timecode(current_frames as nat, total_frames as nat, fps as nat));
        }
        s
    }
}

/// The human-readable size label for a byte count: the count divided down to
/// the largest binary unit it reaches, suffixed with that unit's name.
pub open spec fn spec_bytes_label(bytes: nat) -> Seq<char> {
    if bytes >= 1073741824 {
        spec_decimal(bytes / 1073741824) + "GB"@
    } else if bytes >= 1048576 {
        spec_decimal(bytes / 1048576) + "MB"@
    } else if bytes >= 1024 {
        spec_decimal(bytes / 1024) + "KB"@
    } else {
        spec_decimal(bytes) + "B"@
    }
}

/// Renders a byte count with a binary unit suffix, e.g. `3MB`.
pub fn format_bytes(bytes: u64) -> (s: String)
    ensures
        s@ == spec_bytes_label(bytes as nat),
{
    if bytes >= GB {
        let mut s = format_u64(bytes / GB);
        s.append("GB");
        proof {
            assert(s@ =~= spec_bytes_label(bytes as nat));
        }
        s
    } else if bytes >= MB {
        let mut s = format_u64(bytes / MB);
        s.append("MB");
        proof {
            assert(s@ =~= spec_bytes_label(bytes as nat));
        }
        s
    } else if bytes >= KB {
        let mut s = format_u64(bytes / KB);
        s.append("KB");
        proof {
            assert(s@ =~= spec_bytes_label(bytes as nat));
        }
        s
    } else {
        let mut s = format_u64(bytes);
        s.append("B");
        proof {
            assert(s@ =~= spec_bytes_label(bytes as nat));
        }
        s
    }
}

} // verus!
