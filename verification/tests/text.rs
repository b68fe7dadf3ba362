use ltr::input::Key;
use ltr::models::test::{copy_texts, QuestionModel, TestModel};
use ltr::text::{is_whitespace, span_text, split_span, to_chars, trim_span, u64_to_string, Span};
use ltr::ui::layout::{get_adaptative_column, get_default_column, Rect};

fn pieces(s: &str, d: &str) -> Vec<String> {
    let v = to_chars(s);
    let whole = Span { lo: 0, hi: v.len() };
    split_span(&v, whole, &to_chars(d))
        .iter()
        .map(|p| span_text(s, *p))
        .collect()
}

fn trimmed(s: &str) -> String {
    let v = to_chars(s);
    span_text(s, trim_span(&v, Span { lo: 0, hi: v.len() }))
}

#[test]
fn numbers_are_written_in_decimal() {
    assert_eq!(u64_to_string(0), "0");
    assert_eq!(u64_to_string(7), "7");
    assert_eq!(u64_to_string(10), "10");
    assert_eq!(u64_to_string(1234567890), "1234567890");
    assert_eq!(u64_to_string(u64::MAX), "18446744073709551615");
}

#[test]
fn splitting_agrees_with_the_standard_library() {
    for (s, d) in [
        ("a====b====c", "===="),
        ("a=====b", "===="),
        ("====", "===="),
        ("", "===="),
        ("========", "===="),
        ("abc", "===="),
        ("a\nb\n\nc\n", "\n"),
        ("\u{e9}--\u{e9}----\u{2003}", "----"),
        ("aaa", "aa"),
    ] {
        let expected: Vec<String> = s.split(d).map(String::from).collect();
        assert_eq!(pieces(s, d), expected);
    }
}

#[test]
fn trimming_agrees_with_the_standard_library() {
    for s in [
        "",
        " ",
        "a",
        "  a b  ",
        "\t\r\n x \u{a0}\u{2003}\u{3000}",
        "\u{85}\u{1680}x\u{2028}\u{2029}\u{202f}\u{205f}",
        "\u{200b}x\u{200b}",
        "\u{e9}t\u{e9} ",
    ] {
        assert_eq!(trimmed(s), s.trim());
    }
}

#[test]
fn white_space_is_what_the_standard_library_says() {
    let mut c = 0u32;
    while c < 0x3100 {
        if let Some(ch) = char::from_u32(c) {
            assert_eq!(is_whitespace(ch), ch.is_whitespace());
        }
        c += 1;
    }
}

#[test]
fn characters_and_spans() {
    assert_eq!(to_chars("h\u{e9}!"), vec!['h', '\u{e9}', '!']);
    assert_eq!(span_text("h\u{e9}llo", Span { lo: 1, hi: 3 }), "\u{e9}l");
    assert_eq!(copy_texts(&vec![String::from("a")]), vec![String::from("a")]);
}

#[test]
fn keys_match_both_cases() {
    assert!(Key::Char('b').letter('b', 'B'));
    assert!(Key::Char('B').letter('b', 'B'));
    assert!(!Key::Char('c').letter('b', 'B'));
    assert!(!Key::Enter.letter('b', 'B'));
}

#[test]
fn models_are_copied_whole() {
    let q = QuestionModel::new(String::from("Q"), vec![String::from("a")], 0);
    assert!(q.is_correct(Some(0)));
    assert!(!q.is_correct(Some(1)));
    assert!(!q.is_correct(None));
    let t = TestModel::new(String::from("1"), String::from("T"), vec![q.clone()]);
    assert_eq!(t.copy(), t);
    assert_eq!(q.copy(), q);
}

#[test]
fn columns_are_centred() {
    assert_eq!(
        get_adaptative_column(Rect::new(3, 4, 80, 20)),
        Rect { x: 0, y: 4, width: 80, height: 20 }
    );
    assert_eq!(
        get_adaptative_column(Rect::new(3, 4, 160, 20)),
        Rect { x: 30, y: 4, width: 100, height: 20 }
    );
    assert_eq!(
        get_default_column(Rect::new(0, 2, 200, 10)),
        Rect { x: 10, y: 2, width: 180, height: 10 }
    );
    assert_eq!(
        get_default_column(Rect::new(0, 2, 150, 10)),
        Rect { x: 0, y: 2, width: 150, height: 10 }
    );
}

#[test]
fn oversized_rectangles_are_clipped() {
    let r = Rect::new(1, 2, 1000, 1000);
    assert_eq!((r.x, r.y), (1, 2));
    assert!((r.width as u32) * (r.height as u32) <= 65535);
    assert_eq!(r.width, r.height);
    assert_eq!(Rect::new(0, 0, 255, 257), Rect { x: 0, y: 0, width: 255, height: 257 });
}
