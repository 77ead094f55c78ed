use dataprism_core::CloudDataBuffer;
use dataprism_core::CloudDataRequest;
use dataprism_core::CloudDataResponse;

fn sample_buffer() -> CloudDataBuffer {
    CloudDataBuffer::new(
        b"abcdefghij".to_vec(),
        String::from("https://bucket.s3.amazonaws.com/key"),
        String::from("aws-s3"),
    )
}

#[test]
fn buffer_getters_round_trip() {
    let buf = sample_buffer();
    assert_eq!(buf.data(), b"abcdefghij".to_vec());
    assert_eq!(buf.length(), 10);
    assert_eq!(buf.source_url(), "https://bucket.s3.amazonaws.com/key");
    assert_eq!(buf.provider(), "aws-s3");
}

#[test]
fn slice_within_bounds() {
    let buf = sample_buffer();
    assert_eq!(buf.slice(2, 5), b"cde".to_vec());
    assert_eq!(buf.slice(0, 10), b"abcdefghij".to_vec());
    assert_eq!(buf.slice(9, 10), b"j".to_vec());
}

#[test]
fn slice_clamps_end_to_length() {
    let buf = sample_buffer();
    assert_eq!(buf.slice(5, 100), b"fghij".to_vec());
    assert_eq!(buf.slice(0, usize::MAX), b"abcdefghij".to_vec());
}

#[test]
fn slice_clamps_start_to_clamped_end() {
    let buf = sample_buffer();
    assert_eq!(buf.slice(7, 3), Vec::<u8>::new());
    assert_eq!(buf.slice(100, 200), Vec::<u8>::new());
    assert_eq!(buf.slice(10, 10), Vec::<u8>::new());
}

#[test]
fn slice_length_formula() {
    let buf = sample_buffer();
    let l: i64 = 10;
    for (start, end) in [(0usize, 0usize), (0, 3), (3, 3), (3, 17), (17, 3), (9, 9), (12, 12)] {
        let e = std::cmp::min(end as i64, l);
        let s = std::cmp::min(start as i64, e);
        let expected = std::cmp::max(0, e - s) as usize;
        assert_eq!(buf.slice(start, end).len(), expected);
    }
}

#[test]
fn release_hands_back_the_source_url() {
    let buf = sample_buffer();
    assert_eq!(buf.release(), "https://bucket.s3.amazonaws.com/key");
}

#[test]
fn request_getters_round_trip() {
    let req = CloudDataRequest::new(String::from("https://x/obj"), String::from("GET"));
    assert_eq!(req.url(), "https://x/obj");
    assert_eq!(req.method(), "GET");
}

#[test]
fn response_getters_round_trip() {
    let resp = CloudDataResponse::new(b"body".to_vec(), 206, String::from("cloudflare-r2"));
    assert_eq!(resp.data(), b"body".to_vec());
    assert_eq!(resp.status(), 206);
    assert_eq!(resp.provider(), "cloudflare-r2");
}
