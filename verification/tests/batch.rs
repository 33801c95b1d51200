use pcd_tool::batch::{
    batch_output_name, frame_file_name, is_batch_candidate, tally_results, BatchSummary,
};

#[test]
fn candidate_needs_matching_extension() {
    assert!(is_batch_candidate("cloud.pcd", "pcd"));
    assert!(is_batch_candidate("a.b.pcd", "pcd"));
    assert!(!is_batch_candidate("cloud.bin", "pcd"));
    assert!(!is_batch_candidate("cloud", "pcd"));
    assert!(is_batch_candidate("dump.bin", "bin"));
}

#[test]
fn candidate_hidden_file_has_no_extension() {
    assert!(!is_batch_candidate(".pcd", "pcd"));
}

#[test]
fn output_name_swaps_the_extension() {
    assert_eq!(batch_output_name("cloud.pcd", "bin"), "cloud.bin");
    assert_eq!(batch_output_name("dump.bin", "pcd"), "dump.pcd");
    assert_eq!(batch_output_name("a.b.pcd", "bin"), "a.b.bin");
}

#[test]
fn output_name_keeps_a_stem_without_extension() {
    assert_eq!(batch_output_name("cloud", "bin"), "cloud.bin");
    assert_eq!(batch_output_name(".hidden", "bin"), ".hidden.bin");
}

#[test]
fn frame_names_are_zero_padded_to_six_digits() {
    assert_eq!(frame_file_name(0, "pcd"), "000000.pcd");
    assert_eq!(frame_file_name(7, "bin"), "000007.bin");
    assert_eq!(frame_file_name(123, "pcd"), "000123.pcd");
    assert_eq!(frame_file_name(999999, "pcd"), "999999.pcd");
}

#[test]
fn frame_names_grow_past_six_digits() {
    assert_eq!(frame_file_name(1234567, "pcd"), "1234567.pcd");
}

#[test]
fn tally_counts_successes_and_failures() {
    // Five inputs of which exactly one failed: four outputs, one reported
    // failure, and the failure does not touch its siblings.
    let results = vec![true, true, false, true, true];
    assert_eq!(
        tally_results(&results),
        BatchSummary {
            succeeded: 4,
            failed: 1
        }
    );
}

#[test]
fn tally_of_empty_batch() {
    assert_eq!(
        tally_results(&Vec::new()),
        BatchSummary {
            succeeded: 0,
            failed: 0
        }
    );
}

#[test]
fn tally_of_all_failures() {
    assert_eq!(
        tally_results(&vec![false, false]),
        BatchSummary {
            succeeded: 0,
            failed: 2
        }
    );
}
