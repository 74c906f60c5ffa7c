use base64::Engine;
use doffy_uploader::envelope::{write_envelope, ChunkEnvelope};

#[test]
fn data_is_standard_base64_with_padding() {
    let cases: [(&[u8], &str); 8] = [
        (b"", ""),
        (b"f", "Zg=="),
        (b"fo", "Zm8="),
        (b"foo", "Zm9v"),
        (b"foob", "Zm9vYg=="),
        (b"hello", "aGVsbG8="),
        (&[0xfb, 0xff], "+/8="),
        (&[0x00, 0x10, 0x83], "ABCD"),
    ];
    for (bytes, text) in cases {
        let envelope = ChunkEnvelope::new("f", 0, 1, bytes);
        assert_eq!(envelope.data, text);
    }
}

#[test]
fn data_decodes_to_the_chunk_bytes() {
    let bytes: Vec<u8> = (0..=255u8).collect();
    let envelope = ChunkEnvelope::new("all.bin", 3, 9, &bytes);
    let back = base64::engine::general_purpose::STANDARD
        .decode(envelope.data.as_bytes())
        .unwrap();
    assert_eq!(back, bytes);
}

#[test]
fn envelope_keeps_name_and_place() {
    let envelope = ChunkEnvelope::new("report.pdf", 4, 5, b"xyz");
    assert_eq!(envelope.filename, "report.pdf");
    assert_eq!(envelope.chunk_id, 4);
    assert_eq!(envelope.total_chunks, 5);
    assert!(envelope.chunk_id < envelope.total_chunks);
}

#[test]
fn document_has_the_four_members() {
    let envelope = ChunkEnvelope::new("a.bin", 0, 1, b"hi");
    assert_eq!(
        envelope.to_json().unwrap(),
        "{\"chunk_id\":0,\"data\":\"aGk=\",\"filename\":\"a.bin\",\"total_chunks\":1}"
    );
}

#[test]
fn document_escapes_the_file_name() {
    let envelope = ChunkEnvelope::new("we\"ird\\na\nme.txt", 1, 2, b"");
    assert_eq!(
        envelope.to_json().unwrap(),
        "{\"chunk_id\":1,\"data\":\"\",\"filename\":\"we\\\"ird\\\\na\\nme.txt\",\"total_chunks\":2}"
    );
}

#[test]
fn document_is_what_the_json_encoder_writes_for_the_object() {
    let names = ["plain.txt", "sp ace.bin", "uml\u{e4}ut.dat", "q\"uote", "tab\there", "\u{1}ctl"];
    for (i, name) in names.iter().enumerate() {
        let bytes: Vec<u8> = (0..(i as u8 * 7)).collect();
        let envelope = ChunkEnvelope::new(name, i as u64, 6, &bytes);
        let mut object = serde_json::Map::new();
        object.insert("filename".to_string(), serde_json::Value::from(*name));
        object.insert("chunk_id".to_string(), serde_json::Value::from(i as u64));
        object.insert("total_chunks".to_string(), serde_json::Value::from(6u64));
        object.insert(
            "data".to_string(),
            serde_json::Value::from(base64::engine::general_purpose::STANDARD.encode(&bytes)),
        );
        let expected = serde_json::to_string(&serde_json::Value::Object(object)).unwrap();
        assert_eq!(envelope.to_json().unwrap(), expected);
    }
}

#[test]
fn document_parses_back_to_the_envelope() {
    let envelope = ChunkEnvelope::new("x/y z.bin", 18446744073709551614, u64::MAX, b"\x00\xff");
    let value: serde_json::Value = serde_json::from_str(&envelope.to_json().unwrap()).unwrap();
    assert_eq!(value["filename"], "x/y z.bin");
    assert_eq!(value["chunk_id"], 18446744073709551614u64);
    assert_eq!(value["total_chunks"], u64::MAX);
    assert_eq!(value["data"], "AP8=");
}

#[test]
fn write_envelope_joins_its_parts() {
    assert_eq!(
        write_envelope("\"n\"", 7, 12, "\"d\""),
        "{\"chunk_id\":7,\"data\":\"d\",\"filename\":\"n\",\"total_chunks\":12}"
    );
}
