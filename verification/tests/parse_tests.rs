use flash_stub::catalog::Chip;
use flash_stub::stub::{FlashStub, StubError};

#[test]
fn parse_accepts_a_plain_record() {
    let rec = "{\"entry\":1,\"text\":\"AAEC\",\"text_start\":4096,\"data\":\"/w==\",\"data_start\":8192}";
    let s = FlashStub::parse(rec).unwrap();
    assert_eq!(s.entry(), 1);
    let (addr, bytes) = s.text().unwrap();
    assert_eq!(addr, 4096);
    assert_eq!(bytes, vec![0u8, 1, 2]);
    let (addr, bytes) = s.data().unwrap();
    assert_eq!(addr, 8192);
    assert_eq!(bytes, vec![255u8]);
}

#[test]
fn parse_accepts_blanks_and_any_field_order() {
    let rec = " {\n\t\"data_start\" : 8192 ,\r\n\"data\":\"\",\"text_start\":4096,\n\"text\" : \"AA==\" , \"entry\" : 0 }\n";
    let s = FlashStub::parse(rec).unwrap();
    assert_eq!(s.entry(), 0);
    assert_eq!(s.text().unwrap().1, vec![0u8]);
    assert_eq!(s.data().unwrap().1, Vec::<u8>::new());
}

#[test]
fn parse_matches_the_embedded_record() {
    let rec = "{\"entry\":1074332672,\"text\":\"NkEAgfj/4AgAHfAA\",\"text_start\":1074331648,\"data\":\"ABAAQKVaWqU=\",\"data_start\":1073610752}";
    assert_eq!(FlashStub::parse(rec).unwrap(), FlashStub::get(Chip::Esp32));
}

#[test]
fn parse_accepts_the_largest_address() {
    let rec = "{\"entry\":4294967295,\"text\":\"AA==\",\"text_start\":4294967295,\"data\":\"AA==\",\"data_start\":4294967295}";
    let s = FlashStub::parse(rec).unwrap();
    assert_eq!(s.entry(), u32::MAX);
}

#[test]
fn parse_rejects_a_missing_field() {
    let rec = "{\"entry\":1,\"text\":\"AA==\",\"text_start\":2,\"data\":\"AA==\"}";
    assert_eq!(FlashStub::parse(rec), Err(StubError::MalformedResource));
}

#[test]
fn parse_rejects_a_duplicate_field() {
    let rec = "{\"entry\":1,\"entry\":2,\"text\":\"\",\"text_start\":3,\"data\":\"\",\"data_start\":4}";
    assert_eq!(FlashStub::parse(rec), Err(StubError::MalformedResource));
}

#[test]
fn parse_rejects_an_unknown_field() {
    let rec = "{\"entry\":1,\"text\":\"\",\"text_start\":2,\"data\":\"\",\"data_start\":3,\"bss\":4}";
    assert_eq!(FlashStub::parse(rec), Err(StubError::MalformedResource));
}

#[test]
fn parse_rejects_an_address_out_of_range() {
    let rec = "{\"entry\":4294967296,\"text\":\"\",\"text_start\":2,\"data\":\"\",\"data_start\":3}";
    assert_eq!(FlashStub::parse(rec), Err(StubError::MalformedResource));
    let rec = "{\"entry\":99999999999999999999,\"text\":\"\",\"text_start\":2,\"data\":\"\",\"data_start\":3}";
    assert_eq!(FlashStub::parse(rec), Err(StubError::MalformedResource));
}

#[test]
fn parse_rejects_a_leading_zero() {
    let rec = "{\"entry\":01,\"text\":\"\",\"text_start\":2,\"data\":\"\",\"data_start\":3}";
    assert_eq!(FlashStub::parse(rec), Err(StubError::MalformedResource));
}

#[test]
fn parse_rejects_a_negative_number() {
    let rec = "{\"entry\":-1,\"text\":\"\",\"text_start\":2,\"data\":\"\",\"data_start\":3}";
    assert_eq!(FlashStub::parse(rec), Err(StubError::MalformedResource));
}

#[test]
fn parse_rejects_a_string_for_an_address() {
    let rec = "{\"entry\":\"1\",\"text\":\"\",\"text_start\":2,\"data\":\"\",\"data_start\":3}";
    assert_eq!(FlashStub::parse(rec), Err(StubError::MalformedResource));
}

#[test]
fn parse_rejects_a_number_for_a_payload() {
    let rec = "{\"entry\":1,\"text\":7,\"text_start\":2,\"data\":\"\",\"data_start\":3}";
    assert_eq!(FlashStub::parse(rec), Err(StubError::MalformedResource));
}

#[test]
fn parse_rejects_broken_containers() {
    assert_eq!(FlashStub::parse(""), Err(StubError::MalformedResource));
    assert_eq!(FlashStub::parse("{}"), Err(StubError::MalformedResource));
    assert_eq!(FlashStub::parse("null"), Err(StubError::MalformedResource));
    let no_close = "{\"entry\":1,\"text\":\"\",\"text_start\":2,\"data\":\"\",\"data_start\":3";
    assert_eq!(FlashStub::parse(no_close), Err(StubError::MalformedResource));
    let trailing_comma = "{\"entry\":1,\"text\":\"\",\"text_start\":2,\"data\":\"\",\"data_start\":3,}";
    assert_eq!(FlashStub::parse(trailing_comma), Err(StubError::MalformedResource));
    let tail = "{\"entry\":1,\"text\":\"\",\"text_start\":2,\"data\":\"\",\"data_start\":3}x";
    assert_eq!(FlashStub::parse(tail), Err(StubError::MalformedResource));
    let escape = "{\"entry\":1,\"text\":\"A\\\\B\",\"text_start\":2,\"data\":\"\",\"data_start\":3}";
    assert_eq!(FlashStub::parse(escape), Err(StubError::MalformedResource));
}

#[test]
fn bad_transport_encoding_is_reported_per_segment() {
    let rec = "{\"entry\":1,\"text\":\"!!\",\"text_start\":2,\"data\":\"AA==\",\"data_start\":3}";
    let s = FlashStub::parse(rec).unwrap();
    assert_eq!(s.text(), Err(StubError::EncodingError));
    assert_eq!(s.data().unwrap().1, vec![0u8]);
}

#[test]
fn non_canonical_base64_is_rejected() {
    // one stray pad
    let rec = "{\"entry\":1,\"text\":\"QQ=\",\"text_start\":2,\"data\":\"QR==\",\"data_start\":3}";
    let s = FlashStub::parse(rec).unwrap();
    assert_eq!(s.text(), Err(StubError::EncodingError));
    // nonzero trailing bits under the pad
    assert_eq!(s.data(), Err(StubError::EncodingError));
}
