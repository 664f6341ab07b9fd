use abby_bot::bottom::{bottomify, byte_to_emoji};

/// Reads encoded text back the way the decoding law describes it: the
/// pieces closed by 👈, each worth the sum of its symbols.
fn decode(s: &str) -> Vec<u32> {
    s.split_terminator('\u{1F448}')
        .map(|piece| {
            piece
                .chars()
                .map(|c| match c {
                    '\u{1FAC2}' => 200,
                    '\u{1F496}' => 50,
                    '\u{2728}' => 10,
                    '\u{1F97A}' => 5,
                    ',' => 1,
                    _ => 0,
                })
                .sum()
        })
        .collect()
}

#[test]
fn zero_byte_is_a_heart() {
    assert_eq!(byte_to_emoji(0), "❤️👉👈");
}

#[test]
fn one_is_a_comma() {
    assert_eq!(byte_to_emoji(1), ",👉👈");
}

#[test]
fn largest_symbols_first() {
    assert_eq!(byte_to_emoji(255), "🫂💖🥺👉👈");
    assert_eq!(byte_to_emoji(68), "💖✨🥺,,,👉👈");
    assert_eq!(byte_to_emoji(200), "🫂👉👈");
    assert_eq!(byte_to_emoji(49), "✨✨✨✨🥺,,,,👉👈");
}

#[test]
fn text_is_encoded_byte_by_byte() {
    assert_eq!(bottomify("Hi"), "💖✨✨,,👉👈💖💖🥺👉👈");
    assert_eq!(bottomify(""), "");
}

#[test]
fn encoding_decodes_to_the_bytes() {
    for text in ["Hello, world!", "héllo ✨", "\0\u{7f}", "bottom"] {
        let expected: Vec<u32> = text.bytes().map(u32::from).collect();
        assert_eq!(decode(&bottomify(text)), expected);
    }
    for b in 0..=255u8 {
        assert_eq!(decode(&byte_to_emoji(b)), vec![u32::from(b)]);
    }
}
