use text_output::text::{same_chars, split_chunks, CHUNK_CHARS};

fn text_of(len: usize) -> String {
    (0..len).map(|i| char::from(b'a' + (i % 26) as u8)).collect()
}

fn expected_count(len: usize) -> usize {
    (len + 23) / 24
}

#[test]
fn chunk_size_is_twenty_four() {
    assert_eq!(CHUNK_CHARS, 24);
}

#[test]
fn empty_text_has_no_chunk() {
    assert_eq!(split_chunks(""), Vec::<String>::new());
}

#[test]
fn short_text_is_one_chunk() {
    assert_eq!(split_chunks("hello world"), vec!["hello world".to_string()]);
    assert_eq!(split_chunks("a"), vec!["a".to_string()]);
}

#[test]
fn exactly_one_full_chunk() {
    let text = text_of(24);
    assert_eq!(split_chunks(&text), vec![text.clone()]);
}

#[test]
fn one_character_over_a_chunk() {
    let text = text_of(25);
    assert_eq!(split_chunks(&text), vec![text[..24].to_string(), text[24..].to_string()]);
}

#[test]
fn two_full_chunks() {
    let text = text_of(48);
    assert_eq!(split_chunks(&text), vec![text[..24].to_string(), text[24..].to_string()]);
}

#[test]
fn fifty_characters_make_three_chunks() {
    let text = text_of(50);
    assert_eq!(
        split_chunks(&text),
        vec![text[..24].to_string(), text[24..48].to_string(), text[48..].to_string()]
    );
}

#[test]
fn chunk_count_is_length_over_size_rounded_up() {
    for len in 0..200 {
        let text = text_of(len);
        assert_eq!(split_chunks(&text).len(), expected_count(len));
    }
    assert_eq!(split_chunks(&text_of(1000)).len(), 42);
}

#[test]
fn chunks_joined_are_the_text() {
    for len in 0..200 {
        let text = text_of(len);
        assert_eq!(split_chunks(&text).concat(), text);
    }
}

#[test]
fn every_chunk_but_the_last_is_full() {
    for len in 1..200 {
        let pieces = split_chunks(&text_of(len));
        for piece in &pieces[..pieces.len() - 1] {
            assert_eq!(piece.chars().count(), 24);
        }
        let last = pieces[pieces.len() - 1].chars().count();
        assert!(1 <= last && last <= 24);
    }
}

#[test]
fn chunks_count_characters_not_bytes() {
    let text: String = std::iter::repeat('\u{00e9}').take(30).collect();
    let pieces = split_chunks(&text);
    assert_eq!(pieces.len(), 2);
    assert_eq!(pieces[0].chars().count(), 24);
    assert_eq!(pieces[0].len(), 48);
    assert_eq!(pieces[1].chars().count(), 6);
    assert_eq!(pieces.concat(), text);

    let wide: String = std::iter::repeat('\u{1f600}').take(25).collect();
    let pieces = split_chunks(&wide);
    assert_eq!(pieces.len(), 2);
    assert_eq!(pieces[0].chars().count(), 24);
    assert_eq!(pieces[1], "\u{1f600}");
}

#[test]
fn same_chars_compares_whole_strings() {
    assert!(same_chars("", ""));
    assert!(same_chars("paste", "paste"));
    assert!(!same_chars("paste", "pasta"));
    assert!(!same_chars("paste", "past"));
    assert!(!same_chars("past", "paste"));
    assert!(!same_chars("", "a"));
    assert!(same_chars("na\u{00ef}ve", "na\u{00ef}ve"));
    assert!(!same_chars("na\u{00ef}ve", "naive"));
    assert!(!same_chars("\u{00e9}", "e\u{0301}"));
}
