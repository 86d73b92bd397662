use soap::helper::string_buffer::StringBuffer;

#[test]
fn hello_world_doc_example() {
    let mut buffer = StringBuffer::new();
    buffer.write(b"Hello ");
    buffer.write(b"world!");
    let text: String = buffer.to_string();
    assert_eq!(String::from("Hello world!"), text);
}

#[test]
fn write_reports_whole_length() {
    let mut buffer = StringBuffer::new();
    assert_eq!(buffer.write(b"abc"), 3);
    assert_eq!(buffer.write(b""), 0);
    buffer.flush();
    assert_eq!(buffer.to_string(), "abc");
}

#[test]
fn multibyte_text_round_trips() {
    let mut buffer = StringBuffer::new();
    buffer.write("h\u{e9}llo \u{2603}".as_bytes());
    assert_eq!(buffer.to_string(), "h\u{e9}llo \u{2603}");
}

#[test]
fn new_buffer_is_empty() {
    assert_eq!(StringBuffer::new().to_string(), "");
}

#[test]
fn many_writes_keep_every_byte_in_order() {
    let mut buffer = StringBuffer::new();
    let mut expected = Vec::new();
    for i in 0..50u8 {
        let chunk: Vec<u8> = (0..(i % 7)).map(|k| b'a' + (i + k) % 26).collect();
        assert_eq!(buffer.write(&chunk), chunk.len());
        expected.extend_from_slice(&chunk);
    }
    assert_eq!(buffer.as_slice(), &expected[..]);
    assert_eq!(buffer.to_string(), String::from_utf8(expected).unwrap());
}
