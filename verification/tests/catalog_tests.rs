use flash_stub::catalog::Chip;
use flash_stub::stub::FlashStub;

const ALL_CHIPS: [Chip; 8] = [
    Chip::Esp32,
    Chip::Esp32c2,
    Chip::Esp32c3,
    Chip::Esp32c6,
    Chip::Esp32h2,
    Chip::Esp32p4,
    Chip::Esp32s2,
    Chip::Esp32s3,
];

#[test]
fn check_stub_encodings() {
    for c in ALL_CHIPS {
        // Stub must be a valid record:
        let s = FlashStub::get(c);

        // Data decoded from b64
        let _ = s.text().unwrap();
        let _ = s.data().unwrap();
    }
}

#[test]
fn every_variant_has_a_stub() {
    let entries = [
        (Chip::Esp32, 1074332672u32),
        (Chip::Esp32c2, 1077412868u32),
        (Chip::Esp32c3, 1077412872u32),
        (Chip::Esp32c6, 1082131472u32),
        (Chip::Esp32h2, 1082131476u32),
        (Chip::Esp32p4, 1341129760u32),
        (Chip::Esp32s2, 1073906688u32),
        (Chip::Esp32s3, 1077380104u32),
    ];
    for (chip, entry) in entries {
        let s = FlashStub::get(chip);
        assert_eq!(s.entry(), entry);
    }
}

#[test]
fn decode_is_stable() {
    for c in ALL_CHIPS {
        let s = FlashStub::get(c);
        let (ta1, tb1) = s.text().unwrap();
        let (ta2, tb2) = s.text().unwrap();
        assert_eq!(ta1, ta2);
        assert_eq!(tb1, tb2);
        let (da1, db1) = s.data().unwrap();
        let (da2, db2) = s.data().unwrap();
        assert_eq!(da1, da2);
        assert_eq!(db1, db2);
    }
}

#[test]
fn addresses_come_back_verbatim() {
    let addrs = [
        (Chip::Esp32, 1074331648u32, 1073610752u32),
        (Chip::Esp32c2, 1077411840u32, 1070202880u32),
        (Chip::Esp32c3, 1077411840u32, 1070071808u32),
        (Chip::Esp32c6, 1082130432u32, 1082458112u32),
        (Chip::Esp32h2, 1082130432u32, 1082785792u32),
        (Chip::Esp32p4, 1341128704u32, 1341390848u32),
        (Chip::Esp32s2, 1073905664u32, 1073414144u32),
        (Chip::Esp32s3, 1077379072u32, 1070104576u32),
    ];
    for (chip, text_start, data_start) in addrs {
        let s = FlashStub::get(chip);
        assert_eq!(s.text().unwrap().0, text_start);
        assert_eq!(s.data().unwrap().0, data_start);
    }
}

#[test]
fn segments_decode_independently() {
    let s = FlashStub::get(Chip::Esp32);
    let (_, data_before) = s.data().unwrap();
    let (_, mut text_bytes) = s.text().unwrap();
    for b in text_bytes.iter_mut() {
        *b = b.wrapping_add(1);
    }
    drop(text_bytes);
    let (_, data_after) = s.data().unwrap();
    assert_eq!(data_before, data_after);
}

#[test]
fn segment_ranges_do_not_overlap() {
    for c in ALL_CHIPS {
        let s = FlashStub::get(c);
        let (ts, tb) = s.text().unwrap();
        let (ds, db) = s.data().unwrap();
        let text_end = ts as u64 + tb.len() as u64;
        let data_end = ds as u64 + db.len() as u64;
        assert!(text_end <= ds as u64 || data_end <= ts as u64);
    }
}

#[test]
fn known_stub_has_published_entry_and_size() {
    let s = FlashStub::get(Chip::Esp32);
    assert_eq!(s.entry(), 1074332672u32);
    let (addr, bytes) = s.text().unwrap();
    assert_eq!(addr, 1074331648u32);
    assert_eq!(bytes.len(), 12);
}

#[test]
fn decoded_bytes_match_published_stub() {
    let s = FlashStub::get(Chip::Esp32);
    let (_, text) = s.text().unwrap();
    assert_eq!(text, vec![54, 65, 0, 129, 248, 255, 224, 8, 0, 29, 240, 0]);
    let (_, data) = s.data().unwrap();
    assert_eq!(data, vec![0, 16, 0, 64, 165, 90, 90, 165]);
}
