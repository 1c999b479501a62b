use message_proxy::broker::{get_id, IdSource};
use message_proxy::ident::id_text;

#[test]
fn identifiers_start_at_one_and_count_up() {
    let mut source = IdSource::new();
    assert_eq!(get_id(&mut source), 1);
    assert_eq!(get_id(&mut source), 2);
    assert_eq!(get_id(&mut source), 3);
}

#[test]
fn identifiers_of_one_source_are_distinct() {
    let mut source = IdSource::new();
    let mut seen = Vec::new();
    for _ in 0..1000 {
        let id = get_id(&mut source);
        assert!(!seen.contains(&id));
        seen.push(id);
    }
    assert_eq!(seen.len(), 1000);
    assert_eq!(seen[999], 1000);
}

#[test]
fn sources_count_on_their_own() {
    let mut first = IdSource::new();
    let mut second = IdSource::new();
    assert_eq!(get_id(&mut first), 1);
    assert_eq!(get_id(&mut first), 2);
    assert_eq!(get_id(&mut second), 1);
}

#[test]
fn identifier_text_is_decimal() {
    assert_eq!(id_text(0), "0");
    assert_eq!(id_text(1), "1");
    assert_eq!(id_text(9), "9");
    assert_eq!(id_text(10), "10");
    assert_eq!(id_text(11), "11");
    assert_eq!(id_text(100), "100");
    assert_eq!(id_text(1234), "1234");
    assert_eq!(id_text(9_876_543_210), "9876543210");
    assert_eq!(id_text(usize::MAX), usize::MAX.to_string());
}

#[test]
fn identifier_text_agrees_with_display() {
    for id in 0..2000usize {
        assert_eq!(id_text(id), id.to_string());
    }
    for shift in 0..usize::BITS {
        let id = 1usize << shift;
        assert_eq!(id_text(id), id.to_string());
        assert_eq!(id_text(id - 1), (id - 1).to_string());
    }
}

#[test]
fn identifier_texts_do_not_collide() {
    let texts: Vec<String> = (0..500usize).map(id_text).collect();
    for (i, text) in texts.iter().enumerate() {
        for other in texts.iter().skip(i + 1) {
            assert_ne!(text, other);
        }
    }
}
