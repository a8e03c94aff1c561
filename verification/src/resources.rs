//! The warnings about scarce disk space and memory on the host.
use vstd::prelude::*;
use crate::report::{say, Hue, Line, LineView};

verus! {

/// Bytes in a gibibyte.
pub const GIB: u64 = 1073741824;

/// Bytes in 500 mebibytes.
pub const LOW_MEMORY_BYTES: u64 = 524288000;

/// Less than one gibibyte of disk space is free.
pub open spec fn disk_is_low(available_bytes: u64) -> bool {
    available_bytes < GIB
}

/// Less than 500 mebibytes of memory are free.
pub open spec fn memory_is_low(free_bytes: u64) -> bool {
    free_bytes < LOW_MEMORY_BYTES
}

/// The warning printed about the disk whose free space is `available_bytes`.
pub open spec fn disk_warning_for(available_bytes: u64) -> Option<LineView> {
    if disk_is_low(available_bytes) {
        Some(say(Some(Hue::Yellow), "Warning: Low disk space (<1 GB free)"@))
    } else {
        None
    }
}

/// The warning printed when `free_bytes` of memory are available.
pub open spec fn memory_warning_for(free_bytes: u64) -> Option<LineView> {
    if memory_is_low(free_bytes) {
        Some(say(Some(Hue::Yellow), "Warning: Low memory (<500 MB available)"@))
    } else {
        None
    }
}

fn warning_line(label: &str) -> (l: Line)
    ensures
        l@ == say(Some(Hue::Yellow), label@),
{
    Line { hue: Some(Hue::Yellow), label: String::from_str(label), detail: None, to_stderr: false }
}

/// The warning about the disk, if its free space is low.
pub fn disk_warning(available_bytes: u64) -> (r: Option<Line>)
    ensures
        match r {
            Some(l) => disk_warning_for(available_bytes) == Some(l@),
            None => disk_warning_for(available_bytes) is None,
        },
{
    if available_bytes < GIB {
        Some(warning_line("Warning: Low disk space (<1 GB free)"))
    } else {
        None
    }
}

/// The warning about memory, if free memory is low.
pub fn memory_warning(free_bytes: u64) -> (r: Option<Line>)
    ensures
        match r {
            Some(l) => memory_warning_for(free_bytes) == Some(l@),
            None => memory_warning_for(free_bytes) is None,
        },
{
    if free_bytes < LOW_MEMORY_BYTES {
        Some(warning_line("Warning: Low memory (<500 MB available)"))
    } else {
        None
    }
}

/// The disk space in use: the capacity less what is available.
pub fn used_space(total_bytes: u64, available_bytes: u64) -> (r: u64)
    requires
        available_bytes <= total_bytes,
    ensures
        r == total_bytes - available_bytes,
{
    total_bytes - available_bytes
}

} // verus!
