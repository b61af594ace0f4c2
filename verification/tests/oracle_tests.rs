use riscv32im::preimage_oracle::{
    build_preimage_request, parse_length_prefix, validate_response, KECCAK_KEY_TAG,
};
use riscv32im::VmError;

#[test]
fn request_record_is_tag_then_middle_thirty_digest_bytes() {
    let digest: Vec<u8> = (0u8..32).collect();
    let record = build_preimage_request(&digest);
    assert_eq!(record.len(), 31);
    assert_eq!(record[0], KECCAK_KEY_TAG);
    // bytes 1..31 of the digest travel; byte 0 and byte 31 do not
    for i in 1..31 {
        assert_eq!(record[i], digest[i]);
    }
    assert!(!record.contains(&31u8));
}

#[test]
fn length_prefix_is_big_endian() {
    assert_eq!(parse_length_prefix(&vec![0, 0, 0, 0, 0, 0, 1, 2]), 258);
    assert_eq!(parse_length_prefix(&vec![0; 8]), 0);
    assert_eq!(parse_length_prefix(&vec![0xff; 8]), u64::MAX);
    assert_eq!(
        parse_length_prefix(&vec![0x01, 0x02, 0x03, 0x04, 0x05, 0x06, 0x07, 0x08]),
        0x0102_0304_0506_0708
    );
}

#[test]
fn response_with_matching_length_round_trips() {
    let payload = vec![10u8, 20, 30, 40];
    let declared = parse_length_prefix(&vec![0, 0, 0, 0, 0, 0, 0, 4]);
    let preimage = validate_response(declared, payload.clone()).unwrap();
    assert_eq!(preimage.data, payload);
    assert_eq!(preimage.length(), 4);
}

#[test]
fn truncated_response_is_a_length_mismatch_not_a_silent_truncation() {
    let truncated = vec![10u8, 20, 30];
    let e = validate_response(5, truncated).unwrap_err();
    assert_eq!(e, VmError::ProtocolViolation { declared: 5, actual: 3 });
    // an over-long response is rejected the same way
    let e = validate_response(1, vec![1, 2]).unwrap_err();
    assert_eq!(e, VmError::ProtocolViolation { declared: 1, actual: 2 });
}
