//! Telling a call that comes from the shim itself from one that comes from
//! the traced program, by the return addresses on the stack.
//!
//! A replacement that has no handle on the entry point it stands in for walks
//! the chain of return addresses of its callers. A frame inside the address
//! range that the shim's own image occupies means that the shim called itself;
//! the replacement then goes to the real implementation. The walk is a
//! fallback and costs one capture of the stack for each call.

use vstd::prelude::*;
use crate::text::ends_with;

verus! {

/// What the file name of the shim's image ends with.
pub const SHIM_IMAGE_SUFFIX: &'static str = "libmacaroni_system.dylib";

/// The number of frames that the first capture has room for.
pub const INITIAL_FRAMES: usize = 128;

/// By how much the room grows when a capture has filled it.
pub const EXPANSION_FACTOR: usize = 2;

/// The frames at the top of a capture that belong to the walk itself and to
/// the replacement that asked for it.
pub const SKIPPED_FRAMES: usize = 2;

/// The address range that one segment of the shim's image occupies: from
/// `start_address` up to, and not including, `end_address`.
#[derive(Clone, Copy, Debug, PartialEq, Eq, Structural)]
pub struct SegmentInfo {
    pub start_address: usize,
    pub end_address: usize,
}

impl SegmentInfo {
    /// `address` lies in the range. The end of the range is the first
    /// address behind the segment and lies outside.
    pub open spec fn contains(self, address: usize) -> bool {
        self.start_address <= address < self.end_address
    }

    /// The range of a segment that starts at `start_address` and is `size`
    /// bytes long. A segment of no length holds no address.
    pub fn new(start_address: usize, size: u64) -> (info: SegmentInfo)
        requires
            start_address + size <= usize::MAX,
        ensures
            info.start_address == start_address,
            info.end_address == start_address + size,
    {
        SegmentInfo { start_address, end_address: start_address + size as usize }
    }
}

/// Whether a loaded image with the file name `name` is the shim.
pub fn is_shim_image(name: &str) -> (yes: bool)
    ensures
        yes == SHIM_IMAGE_SUFFIX@.is_suffix_of(name@),
{
    ends_with(name, SHIM_IMAGE_SUFFIX)
}

/// Whether `address` lies in the shim's data segment `info`.
pub fn is_part_of_macaroni_libsystem(info: &SegmentInfo, address: usize) -> (inside: bool)
    ensures
        inside == info.contains(address),
{
    address >= info.start_address && address < info.end_address
}

/// Whether `address` lies in the shim's code segment `info`.
pub fn is_address_part_of_macaroni_libsystem(info: &SegmentInfo, address: usize) -> (inside: bool)
    ensures
        inside == info.contains(address),
{
    address >= info.start_address && address < info.end_address
}

/// Frame `i` of a capture counts as the shim's own: it is past the skipped
/// frames, holds an address, and that address lies in the shim's range.
pub open spec fn is_internal_frame(info: SegmentInfo, frames: Seq<usize>, i: int) -> bool {
    SKIPPED_FRAMES <= i < frames.len() && frames[i] != 0 && info.contains(frames[i])
}

/// One of the first `frame_count` frames is the shim's own.
pub open spec fn has_internal_frame(info: SegmentInfo, frames: Seq<usize>, frame_count: int) -> bool {
    exists|i: int| i < frame_count && is_internal_frame(info, frames, i)
}

/// What the walk does after one capture of the stack.
#[derive(Clone, Copy, Debug, PartialEq, Eq, Structural)]
pub enum WalkStep {
    /// A caller is part of the shim: go to the real implementation.
    Internal,
    /// No caller is part of the shim: dispatch as for any outside call.
    External,
    /// The capture filled its room and may be cut short: capture again with
    /// room for `max_frames` frames.
    Retry { max_frames: usize },
}

/// The step that follows a capture of `frame_count` frames into room for
/// `max_frames`.
pub open spec fn walk_step(
    info: SegmentInfo,
    frames: Seq<usize>,
    frame_count: int,
    max_frames: int,
) -> WalkStep {
    if has_internal_frame(info, frames, frame_count) {
        WalkStep::Internal
    } else if frame_count >= max_frames {
        WalkStep::Retry { max_frames: (max_frames * EXPANSION_FACTOR) as usize }
    } else {
        WalkStep::External
    }
}

/// Decides, after one capture of the stack, whether the caller is part of the
/// shim. `frames` holds the return addresses of the capture, of which the
/// first `frame_count` were filled in; `max_frames` is the room that the
/// capture had.
pub fn is_caller_from_macaroni_libsystem(
    info: &SegmentInfo,
    frames: &[usize],
    frame_count: usize,
    max_frames: usize,
) -> (step: WalkStep)
    requires
        frame_count <= frames@.len(),
        max_frames * EXPANSION_FACTOR <= usize::MAX,
    ensures
        step == walk_step(*info, frames@, frame_count as int, max_frames as int),
{
    let mut i: usize = SKIPPED_FRAMES;
    while i < frame_count
        invariant
            SKIPPED_FRAMES <= i,
            frame_count <= frames@.len(),
            forall|j: int| j < i ==> !is_internal_frame(*info, frames@, j),
        decreases frame_count - i,
    {
        let addr = frames[i];
        if addr != 0 && is_address_part_of_macaroni_libsystem(info, addr) {
            assert(is_internal_frame(*info, frames@, i as int));
            return WalkStep::Internal;
        }
        i += 1;
    }
    if frame_count >= max_frames {
        WalkStep::Retry { max_frames: max_frames * EXPANSION_FACTOR }
    } else {
        WalkStep::External
    }
}

} // verus!
