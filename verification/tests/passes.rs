use sd_bench::fs::{bytes_equal, FsError, MemDir, PATTERN_BYTE};
use sd_bench::mount::acquire_from_attempts;

#[test]
fn mount_returns_on_first_success_after_k_failures() {
    // fails exactly twice, then succeeds: acquired on attempt 2
    let outcomes = vec![false, false, true];
    assert_eq!(acquire_from_attempts(&outcomes), Some(2));
}

#[test]
fn mount_returns_immediately_on_ready_medium() {
    let outcomes = vec![true, false];
    assert_eq!(acquire_from_attempts(&outcomes), Some(0));
}

#[test]
fn mount_keeps_retrying_while_every_attempt_fails() {
    assert_eq!(acquire_from_attempts(&vec![false, false, false, false]), None);
    assert_eq!(acquire_from_attempts(&Vec::new()), None);
}

#[test]
fn write_then_read_round_trips_every_chunk() {
    let mut dir = MemDir::new();
    let name = b"NonPar".to_vec();
    let total = dir.run_write_pass(&name, 4, 3);
    assert_eq!(total, 12);
    let chunks = dir.run_read_pass(&name, 4, 3).unwrap();
    assert_eq!(chunks.len(), 3);
    for chunk in &chunks {
        assert_eq!(chunk, &vec![PATTERN_BYTE; 4]);
    }
}

#[test]
fn write_pass_twice_succeeds_and_leaves_one_file() {
    let mut dir = MemDir::new();
    let name = b"NonPar".to_vec();
    // the second pass's delete absorbs the file the first pass left behind
    dir.run_write_pass(&name, 8, 2);
    dir.run_write_pass(&name, 8, 2);
    let chunks = dir.run_read_pass(&name, 8, 2).unwrap();
    assert_eq!(chunks.len(), 2);
    for chunk in &chunks {
        assert_eq!(chunk, &vec![PATTERN_BYTE; 8]);
    }
    // exactly one file of that name: deleting once empties the directory
    assert_eq!(dir.delete_file_in_dir(&name), Ok(()));
    assert_eq!(dir.delete_file_in_dir(&name), Err(FsError::NotFound));
}

#[test]
fn write_pass_leaves_other_files_alone() {
    let mut dir = MemDir::new();
    let other = b"KEEP".to_vec();
    let name = b"NonPar".to_vec();
    dir.run_write_pass(&other, 2, 1);
    dir.run_write_pass(&name, 4, 1);
    dir.run_write_pass(&name, 4, 1);
    let kept = dir.run_read_pass(&other, 2, 1).unwrap();
    assert_eq!(kept, vec![vec![PATTERN_BYTE; 2]]);
}

#[test]
fn delete_of_missing_file_reports_not_found() {
    let mut dir = MemDir::new();
    assert_eq!(dir.delete_file_in_dir(&b"NonPar".to_vec()), Err(FsError::NotFound));
}

#[test]
fn read_pass_fails_on_missing_file() {
    let dir = MemDir::new();
    assert_eq!(dir.run_read_pass(&b"NonPar".to_vec(), 4, 1), None);
}

#[test]
fn read_pass_fails_on_short_file() {
    let mut dir = MemDir::new();
    let name = b"NonPar".to_vec();
    dir.run_write_pass(&name, 4, 1);
    // the file holds 4 bytes; a pass of two 4-byte chunks cannot be served
    assert_eq!(dir.run_read_pass(&name, 4, 2), None);
    // a shrunk rewrite leaves no stale tail to read
    dir.run_write_pass(&name, 2, 1);
    assert_eq!(dir.run_read_pass(&name, 4, 1), None);
}

#[test]
fn read_pass_of_zero_chunks_succeeds_trivially() {
    let mut dir = MemDir::new();
    let name = b"NonPar".to_vec();
    dir.run_write_pass(&name, 4, 1);
    assert_eq!(dir.run_read_pass(&name, 4, 0), Some(Vec::new()));
}

#[test]
fn byte_string_comparison_is_exact() {
    assert!(bytes_equal(&b"NonPar".to_vec(), &b"NonPar".to_vec()));
    assert!(!bytes_equal(&b"NonPar".to_vec(), &b"NonPa".to_vec()));
    assert!(!bytes_equal(&b"NonPar".to_vec(), &b"NonPax".to_vec()));
    assert!(bytes_equal(&Vec::new(), &Vec::new()));
}
