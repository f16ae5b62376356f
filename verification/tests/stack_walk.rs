use macaroni::stack_walk::{
    is_address_part_of_macaroni_libsystem, is_caller_from_macaroni_libsystem,
    is_part_of_macaroni_libsystem, is_shim_image, SegmentInfo, WalkStep, EXPANSION_FACTOR,
    INITIAL_FRAMES, SHIM_IMAGE_SUFFIX, SKIPPED_FRAMES,
};

fn info() -> SegmentInfo {
    SegmentInfo::new(0x1000, 0x100)
}

#[test]
fn segment_spans_start_to_start_plus_size() {
    let s = info();
    assert_eq!(s.start_address, 0x1000);
    assert_eq!(s.end_address, 0x1100);
    let empty = SegmentInfo::new(0, 0);
    assert_eq!((empty.start_address, empty.end_address), (0, 0));
}

#[test]
fn the_range_ends_before_its_end_address() {
    let s = info();
    for f in [is_address_part_of_macaroni_libsystem, is_part_of_macaroni_libsystem] {
        assert!(f(&s, 0x1000));
        assert!(f(&s, 0x1080));
        assert!(f(&s, 0x10ff));
        assert!(!f(&s, 0x1100));
        assert!(!f(&s, 0x0fff));
        assert!(!f(&s, 0x1101));
        assert!(!f(&s, 0));
        assert!(!f(&s, usize::MAX));
    }
}

#[test]
fn a_segment_of_no_length_holds_no_address() {
    let empty = SegmentInfo::new(0x2000, 0);
    for f in [is_address_part_of_macaroni_libsystem, is_part_of_macaroni_libsystem] {
        assert!(!f(&empty, 0x1fff));
        assert!(!f(&empty, 0x2000));
        assert!(!f(&empty, 0x2001));
    }
}

#[test]
fn a_frame_right_behind_the_shim_is_external() {
    // The image that follows the shim begins at the shim's end address.
    let frames = [0x9000, 0x9000, 0x1100, 0x1100];
    assert_eq!(
        is_caller_from_macaroni_libsystem(&info(), &frames, 4, INITIAL_FRAMES),
        WalkStep::External
    );
    let frames = [0x9000, 0x9000, 0x1100, 0x10ff];
    assert_eq!(
        is_caller_from_macaroni_libsystem(&info(), &frames, 4, INITIAL_FRAMES),
        WalkStep::Internal
    );
}

#[test]
fn a_frame_inside_the_range_means_internal() {
    let frames = [0x9000, 0x9000, 0x9000, 0x1010, 0x9000];
    assert_eq!(
        is_caller_from_macaroni_libsystem(&info(), &frames, 5, INITIAL_FRAMES),
        WalkStep::Internal
    );
}

#[test]
fn the_first_two_frames_are_skipped() {
    let frames = [0x1010, 0x1020, 0x9000, 0x9000];
    assert_eq!(
        is_caller_from_macaroni_libsystem(&info(), &frames, 4, INITIAL_FRAMES),
        WalkStep::External
    );
    let third = [0x9000, 0x9000, 0x1020];
    assert_eq!(
        is_caller_from_macaroni_libsystem(&info(), &third, 3, INITIAL_FRAMES),
        WalkStep::Internal
    );
}

#[test]
fn frames_past_the_count_are_not_looked_at() {
    let frames = [0x9000, 0x9000, 0x9000, 0x1010];
    assert_eq!(
        is_caller_from_macaroni_libsystem(&info(), &frames, 3, INITIAL_FRAMES),
        WalkStep::External
    );
}

#[test]
fn null_frames_are_passed_over() {
    let zero_based = SegmentInfo::new(0, 0x10);
    let frames = [0x9000, 0x9000, 0, 0];
    assert_eq!(
        is_caller_from_macaroni_libsystem(&zero_based, &frames, 4, INITIAL_FRAMES),
        WalkStep::External
    );
    let frames = [0x9000, 0x9000, 0, 0x8];
    assert_eq!(
        is_caller_from_macaroni_libsystem(&zero_based, &frames, 4, INITIAL_FRAMES),
        WalkStep::Internal
    );
}

#[test]
fn a_full_capture_is_taken_again_with_twice_the_room() {
    let frames = vec![0x9000usize; 128];
    assert_eq!(INITIAL_FRAMES, 128);
    assert_eq!(EXPANSION_FACTOR, 2);
    assert_eq!(
        is_caller_from_macaroni_libsystem(&info(), &frames, 128, 128),
        WalkStep::Retry { max_frames: 256 }
    );
    assert_eq!(
        is_caller_from_macaroni_libsystem(&info(), &frames, 127, 128),
        WalkStep::External
    );
    let mut with_hit = frames.clone();
    with_hit[100] = 0x1001;
    assert_eq!(
        is_caller_from_macaroni_libsystem(&info(), &with_hit, 128, 128),
        WalkStep::Internal
    );
}

#[test]
fn short_captures_are_external() {
    assert_eq!(
        is_caller_from_macaroni_libsystem(&info(), &[], 0, INITIAL_FRAMES),
        WalkStep::External
    );
    assert_eq!(
        is_caller_from_macaroni_libsystem(&info(), &[0x1001], 1, INITIAL_FRAMES),
        WalkStep::External
    );
}

#[test]
fn the_shim_is_known_by_the_end_of_its_file_name() {
    assert_eq!(SHIM_IMAGE_SUFFIX, "libmacaroni_system.dylib");
    assert_eq!(SKIPPED_FRAMES, 2);
    assert!(is_shim_image("libmacaroni_system.dylib"));
    assert!(is_shim_image("/usr/local/lib/libmacaroni_system.dylib"));
    assert!(!is_shim_image("/usr/lib/libSystem.B.dylib"));
    assert!(!is_shim_image("/usr/local/lib/libmacaroni_system.dylib.bak"));
    assert!(!is_shim_image("macaroni_system.dylib"));
    assert!(!is_shim_image(""));
}
