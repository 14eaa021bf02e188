use baidupan_sdk::chunk::{chunk_count, chunk_of, compute_block_list};

#[test]
fn chunk_count_ten_mib_in_four_mib_windows() {
    assert_eq!(chunk_count(10 * 1024 * 1024, 4 * 1024 * 1024), 3);
}

#[test]
fn chunk_count_exact_multiple() {
    assert_eq!(chunk_count(8 * 1024 * 1024, 4 * 1024 * 1024), 2);
}

#[test]
fn chunk_count_empty_file() {
    assert_eq!(chunk_count(0, 4 * 1024 * 1024), 0);
}

#[test]
fn chunk_count_small_cases() {
    assert_eq!(chunk_count(1, 1), 1);
    assert_eq!(chunk_count(5, 2), 3);
    assert_eq!(chunk_count(6, 2), 3);
    assert_eq!(chunk_count(7, 2), 4);
}

#[test]
fn chunk_of_splits_bytes_exactly() {
    let data: Vec<u8> = vec![1, 2, 3, 4, 5];
    assert_eq!(chunk_of(&data, 2, 0), vec![1, 2]);
    assert_eq!(chunk_of(&data, 2, 1), vec![3, 4]);
    assert_eq!(chunk_of(&data, 2, 2), vec![5]);
}

#[test]
fn block_list_has_one_digest_per_chunk() {
    let data: Vec<u8> = vec![0u8; 5];
    let digests = compute_block_list(&data, 2);
    assert_eq!(digests.len(), 3);
}

#[test]
fn block_list_digest_matches_known_md5() {
    // md5("abc") is a fixed, well-known value.
    let data: Vec<u8> = b"abc".to_vec();
    let digests = compute_block_list(&data, 16);
    assert_eq!(digests, vec!["900150983cd24fb0d6963f7d28e17f72".to_string()]);
}

#[test]
fn block_list_digests_per_window() {
    // Two equal windows give two equal digests; the digest is of the
    // window, not of the whole file.
    let data: Vec<u8> = b"abcabc".to_vec();
    let digests = compute_block_list(&data, 3);
    assert_eq!(digests.len(), 2);
    assert_eq!(digests[0], digests[1]);
    let whole = compute_block_list(&data, 6);
    assert_ne!(digests[0], whole[0]);
}

#[test]
fn block_list_last_window_short() {
    let data: Vec<u8> = b"abc".to_vec();
    let digests = compute_block_list(&data, 2);
    let ab = compute_block_list(&b"ab".to_vec(), 2);
    let c = compute_block_list(&b"c".to_vec(), 2);
    assert_eq!(digests, vec![ab[0].clone(), c[0].clone()]);
}
