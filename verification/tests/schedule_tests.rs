use spectral_stretch::schedule::{count_frames, frame_starts, output_length};

#[test]
fn one_second_with_hop_1470_has_thirty_frames() {
    assert_eq!(count_frames(44100, 1470), 30);
}

#[test]
fn duration_equal_to_hop_does_not_stretch() {
    assert_eq!(output_length(44100, 1470, 1470), Some(44100));
}

#[test]
fn duration_of_one_second_stretches_thirty_times() {
    assert_eq!(output_length(44100, 1470, 44100), Some(30 * 44100));
    assert_eq!(output_length(44100, 1470, 44100), Some(1_323_000));
}

#[test]
fn frame_count_rounds_up() {
    assert_eq!(count_frames(0, 1024), 0);
    assert_eq!(count_frames(1, 1024), 1);
    assert_eq!(count_frames(1024, 1024), 1);
    assert_eq!(count_frames(1025, 1024), 2);
    assert_eq!(count_frames(44100, 1024), 44);
    assert_eq!(count_frames(10, 1), 10);
    assert_eq!(count_frames(usize::MAX, 1), usize::MAX);
    assert_eq!(count_frames(usize::MAX, usize::MAX), 1);
}

#[test]
fn frame_starts_are_the_multiples_of_the_hop() {
    assert_eq!(frame_starts(10, 4), vec![0, 4, 8]);
    assert_eq!(frame_starts(8, 4), vec![0, 4]);
    assert_eq!(frame_starts(3, 4), vec![0]);
    assert_eq!(frame_starts(0, 4), Vec::<usize>::new());
}

#[test]
fn frame_starts_agree_with_the_frame_count() {
    for input_length in [0usize, 1, 7, 1024, 1025, 4096, 44100] {
        for hop in [1usize, 2, 3, 1024, 1470, 50000] {
            let starts = frame_starts(input_length, hop);
            assert_eq!(starts.len(), count_frames(input_length, hop));
            let expected: Vec<usize> = (0..input_length).step_by(hop).collect();
            assert_eq!(starts, expected);
        }
    }
}

#[test]
fn frame_starts_near_the_largest_length_do_not_wrap() {
    let starts = frame_starts(usize::MAX, usize::MAX - 1);
    assert_eq!(starts, vec![0, usize::MAX - 1]);
}

#[test]
fn output_length_is_frames_times_duration() {
    assert_eq!(output_length(44100, 1024, 2048), Some(44 * 2048));
    assert_eq!(output_length(0, 1024, 2048), Some(0));
    assert_eq!(output_length(5, 1, 0), Some(0));
}

#[test]
fn output_length_that_does_not_fit_is_none() {
    assert_eq!(output_length(usize::MAX, 1, 2), None);
    assert_eq!(output_length(usize::MAX, 1, 1), Some(usize::MAX));
    assert_eq!(output_length(3, 1, usize::MAX), None);
}

#[test]
fn stretch_grows_in_proportion_to_the_duration() {
    let base = output_length(44100, 1470, 1470).unwrap();
    for factor in [1usize, 2, 5, 30] {
        assert_eq!(output_length(44100, 1470, factor * 1470), Some(factor * base));
    }
}
