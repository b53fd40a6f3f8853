use fsrewire::codepage::{decode_windows1252, encode_windows1252};
use fsrewire::schema::frame_config_text;
use fsrewire::text::contains_text;

#[test]
fn ascii_round_trips() {
    let text = "<Port>500</Port>\r\n\t&amp;";
    let bytes = encode_windows1252(text);
    assert_eq!(bytes, text.as_bytes());
    assert_eq!(decode_windows1252(&bytes), text);
}

#[test]
fn western_text_round_trips() {
    let text = "Café – “Flugsimulator” € ÿ ß";
    let bytes = encode_windows1252(text);
    assert_eq!(bytes.len(), text.chars().count());
    assert_eq!(decode_windows1252(&bytes), text);
}

#[test]
fn high_bytes_decode_by_the_table() {
    assert_eq!(decode_windows1252(&[0x80, 0x81, 0xE9, 0x93, 0x41]), "€\u{81}é“A");
    assert_eq!(encode_windows1252("€é“"), vec![0x80, 0xE9, 0x93]);
}

#[test]
fn every_byte_decodes_without_replacement() {
    let all: Vec<u8> = (0..=255u8).collect();
    let text = decode_windows1252(&all);
    assert_eq!(text.chars().count(), 256);
    assert!(!text.contains('\u{FFFD}'));
    assert_eq!(encode_windows1252(&text), all);
}

#[test]
fn unrepresentable_characters_become_question_marks() {
    assert_eq!(encode_windows1252("a日b"), vec![b'a', b'?', b'b']);
    assert_eq!(encode_windows1252("\u{1F600}"), vec![b'?']);
    assert_eq!(encode_windows1252(""), Vec::<u8>::new());
    assert_eq!(decode_windows1252(&[]), "");
}

#[test]
fn framed_text_has_header_and_blank_line() {
    assert_eq!(
        frame_config_text("<SimBase.Document/>"),
        "<?xml version=\"1.0\" encoding=\"Windows-1252\"?>\n\n<SimBase.Document/>"
    );
    assert_eq!(frame_config_text(""), "<?xml version=\"1.0\" encoding=\"Windows-1252\"?>\n\n");
}

#[test]
fn substring_search() {
    assert!(contains_text("Dynamic allocation", "Dynamic"));
    assert!(contains_text("Not Dynamic", "Dynamic"));
    assert!(contains_text("abc", ""));
    assert!(contains_text("", ""));
    assert!(!contains_text("Dynami", "Dynamic"));
    assert!(!contains_text("dynamic", "Dynamic"));
    assert!(contains_text("ééDyn", "éDyn"));
}

#[test]
fn encoded_characters_decode_back() {
    let mut text = String::new();
    for code in 0u32..0x1_0000 {
        if let Some(c) = char::from_u32(code) {
            text.push(c);
        }
    }
    let bytes = encode_windows1252(&text);
    let back: Vec<char> = decode_windows1252(&bytes).chars().collect();
    let mut representable = 0;
    for (i, c) in text.chars().enumerate() {
        if bytes[i] != b'?' || c == '?' {
            assert_eq!(back[i], c);
            representable += 1;
        }
    }
    assert_eq!(representable, 256);
}
