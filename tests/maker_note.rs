use libexif_wrapper::{locate_maker_note, maker_note_data, MakerNoteData, MakerNoteError};

fn buffer(text: &str) -> Vec<u8> {
    let mut b = text.as_bytes().to_vec();
    b.push(0);
    b.resize(1024, 0);
    b
}

#[test]
fn lens_maker_note_scenario() {
    let ids = [0x0001u32, 0x0083, 0x0084, 0x0095];
    let pos = locate_maker_note(Some(&ids), 0x0084).unwrap();
    assert_eq!(pos, 2);
    let data =
        maker_note_data(0x0084, Some(b"Lens".to_vec()), Some(buffer("55-300mm 1:4.5 - 5.6")))
            .unwrap();
    assert_eq!(data.tag_id, 0x0084);
    assert_eq!(data.value, "55-300mm 1:4.5 - 5.6");
    assert!(!data.title.is_empty());
}

#[test]
fn first_matching_position_wins() {
    let ids = [0x0010u32, 0x0007, 0x0010];
    assert_eq!(locate_maker_note(Some(&ids), 0x0010), Ok(0));
    assert_eq!(locate_maker_note(Some(&ids), 0x0007), Ok(1));
}

#[test]
fn missing_maker_note_id() {
    let ids = [0x0001u32, 0x0002];
    assert_eq!(locate_maker_note(Some(&ids), 0x0084), Err(MakerNoteError::MNoteTagNotFound));
    assert_eq!(locate_maker_note(Some(&[]), 0x0084), Err(MakerNoteError::MNoteTagNotFound));
}

#[test]
fn missing_maker_note_section() {
    assert_eq!(locate_maker_note(None, 0x0084), Err(MakerNoteError::MakerNoteNotFound));
    assert_eq!(locate_maker_note(None, 0), Err(MakerNoteError::MakerNoteNotFound));
}

#[test]
fn null_title_or_value_fails_whole_entry() {
    assert_eq!(
        maker_note_data(7, None, Some(buffer("x"))),
        Err(MakerNoteError::ExifFailed)
    );
    assert_eq!(
        maker_note_data(7, Some(b"Title".to_vec()), None),
        Err(MakerNoteError::ExifFailed)
    );
}

#[test]
fn malformed_maker_note_text_fails() {
    assert_eq!(
        maker_note_data(7, Some(b"Title".to_vec()), Some(vec![0xc3, 0x28, 0])),
        Err(MakerNoteError::InvalidText)
    );
    assert_eq!(
        maker_note_data(7, Some(vec![0x80]), Some(buffer("ok"))),
        Err(MakerNoteError::InvalidText)
    );
}

#[test]
fn empty_title_and_value_are_kept() {
    assert_eq!(
        maker_note_data(9, Some(Vec::new()), Some(buffer(""))),
        Ok(MakerNoteData { tag_id: 9, title: String::new(), value: String::new() })
    );
}
