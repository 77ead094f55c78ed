use dataprism_core::DataPrismError;
use dataprism_core::validate_input_data;

#[test]
fn test_input_validation() {
    assert!(validate_input_data(&[1, 2, 3]).is_ok());
    assert!(validate_input_data(&[]).is_err());

    let large_data = vec![0u8; 200_000_000];
    assert!(validate_input_data(&large_data).is_err());
}

#[test]
fn validation_messages_name_the_reason() {
    let empty = validate_input_data(&[]).err().unwrap();
    assert_eq!(empty.message(), "Input data cannot be empty");

    let large_data = vec![0u8; 100_000_001];
    let oversized = validate_input_data(&large_data).err().unwrap();
    assert_eq!(oversized.message(), "Input data exceeds maximum size limit");
}

#[test]
fn validation_boundary_sizes() {
    assert!(validate_input_data(&[0u8]).is_ok());
    let at_limit = vec![0u8; 100_000_000];
    assert_eq!(validate_input_data(&at_limit).unwrap(), true);
}

#[test]
fn error_value_round_trip() {
    let e = DataPrismError::new("something broke", "TransportError", 502);
    assert_eq!(e.message(), "something broke");
    assert_eq!(e.error_type(), "TransportError");
    assert_eq!(e.code(), 502);
}
