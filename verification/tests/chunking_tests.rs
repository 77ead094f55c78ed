use dataprism_core::BridgeError;
use dataprism_core::chunk_bytes;

#[test]
fn chunk_scenario_ten_bytes_by_three() {
    let data: Vec<u8> = b"abcdefghij".to_vec();
    let chunks = chunk_bytes(&data, 3).unwrap();
    assert_eq!(chunks.len(), 4);
    assert_eq!(chunks[0], b"abc".to_vec());
    assert_eq!(chunks[1], b"def".to_vec());
    assert_eq!(chunks[2], b"ghi".to_vec());
    assert_eq!(chunks[3], b"j".to_vec());
}

#[test]
fn chunk_count_is_ceiling_and_concat_restores_payload() {
    let data: Vec<u8> = (0u8..=99).collect();
    for n in [1usize, 2, 3, 7, 50, 99, 100, 1000] {
        let chunks = chunk_bytes(&data, n).unwrap();
        assert_eq!(chunks.len(), (data.len() + n - 1) / n);
        for (i, c) in chunks.iter().enumerate() {
            if i + 1 < chunks.len() {
                assert_eq!(c.len(), n);
            } else {
                assert!(0 < c.len() && c.len() <= n);
            }
        }
        let mut joined: Vec<u8> = Vec::new();
        for c in &chunks {
            joined.extend_from_slice(c);
        }
        assert_eq!(joined, data);
    }
}

#[test]
fn chunk_exact_multiple_has_full_last_chunk() {
    let data: Vec<u8> = b"abcdef".to_vec();
    let chunks = chunk_bytes(&data, 2).unwrap();
    assert_eq!(chunks.len(), 3);
    assert_eq!(chunks[2], b"ef".to_vec());
}

#[test]
fn chunk_empty_payload_yields_no_chunks() {
    let data: Vec<u8> = Vec::new();
    let chunks = chunk_bytes(&data, 4).unwrap();
    assert_eq!(chunks.len(), 0);
}

#[test]
fn chunk_size_zero_is_invalid_argument() {
    let data: Vec<u8> = b"abc".to_vec();
    let r = chunk_bytes(&data, 0);
    assert!(matches!(r, Err(BridgeError::InvalidArgument(_))));
}
