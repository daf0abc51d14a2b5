use eccfs_snapshotter::hexcodec::hex_decode_upper;
use eccfs_snapshotter::imagename::{ro_image_name, rw_image_name};
use eccfs_snapshotter::keyrecord::{parse_key_line, serialize_records, LayerKeyRecord};

#[test]
fn image_names_are_zero_padded_and_ascending() {
    assert_eq!(rw_image_name(), "run.rwimage");
    assert_eq!(ro_image_name(0), "0000.roimage");
    assert_eq!(ro_image_name(1), "0001.roimage");
    assert_eq!(ro_image_name(42), "0042.roimage");
    assert_eq!(ro_image_name(999), "0999.roimage");
    assert_eq!(ro_image_name(9999), "9999.roimage");
    assert_eq!(ro_image_name(10000), "10000.roimage");
}

#[test]
fn serialize_matches_published_format() {
    let records = vec![
        LayerKeyRecord { is_encrypted: true, key: vec![0x00, 0xFF] },
        LayerKeyRecord { is_encrypted: false, key: vec![0xAB] },
    ];
    assert_eq!(serialize_records(&records), "enc-00FF:int-AB");
    // agrees with the hex crate the encoder relies on
    assert_eq!(hex::encode_upper([0x00u8, 0xFF]), "00FF");
}

#[test]
fn serialize_single_record_has_no_separator() {
    let records = vec![LayerKeyRecord { is_encrypted: false, key: vec![0x01, 0x02, 0x03] }];
    assert_eq!(serialize_records(&records), "int-010203");
}

#[test]
fn hex_decoding_inverts_encoding() {
    assert_eq!(hex_decode_upper("00FF").unwrap(), vec![0x00, 0xFF]);
    assert_eq!(hex_decode_upper("").unwrap(), Vec::<u8>::new());
    assert!(hex_decode_upper("0f").is_none(), "lower case digits are not emitted");
    assert!(hex_decode_upper("ABC").is_none(), "odd length cannot be a byte rendering");
    assert!(hex_decode_upper("G0").is_none());
}

#[test]
fn parse_inverts_serialize() {
    let records = vec![
        LayerKeyRecord { is_encrypted: true, key: vec![1, 2, 3, 4] },
        LayerKeyRecord { is_encrypted: false, key: vec![0xDE, 0xAD] },
        LayerKeyRecord { is_encrypted: true, key: vec![] },
    ];
    let line = serialize_records(&records);
    assert_eq!(line, "enc-01020304:int-DEAD:enc-");
    assert_eq!(parse_key_line(&line).unwrap(), records);
}

#[test]
fn parse_rejects_malformed_lines() {
    assert!(parse_key_line("enc").is_none());
    assert!(parse_key_line("foo-00").is_none());
    assert!(parse_key_line("enc-00:").is_none());
    assert!(parse_key_line(":enc-00").is_none());
    assert!(parse_key_line("enc-0g").is_none());
    assert_eq!(parse_key_line("").unwrap(), Vec::<LayerKeyRecord>::new());
}
