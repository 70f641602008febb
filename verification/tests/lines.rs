use lambda_runtime_client::lines::split_lines;

fn std_lines(text: &str) -> Vec<String> {
    text.lines().map(str::to_string).collect()
}

fn owned(lines: &[&str]) -> Vec<String> {
    lines.iter().map(|line| line.to_string()).collect()
}

#[test]
fn empty_text_has_no_lines() {
    assert_eq!(split_lines(""), Vec::<String>::new());
}

#[test]
fn text_without_line_feed_is_one_line() {
    assert_eq!(split_lines("stack backtrace:"), owned(&["stack backtrace:"]));
}

#[test]
fn final_line_feed_is_optional() {
    assert_eq!(split_lines("a\nb"), owned(&["a", "b"]));
    assert_eq!(split_lines("a\nb\n"), owned(&["a", "b"]));
}

#[test]
fn empty_lines_are_kept() {
    assert_eq!(split_lines("\n"), owned(&[""]));
    assert_eq!(split_lines("\n\n"), owned(&["", ""]));
    assert_eq!(split_lines("a\n\nb"), owned(&["a", "", "b"]));
    assert_eq!(split_lines("\na"), owned(&["", "a"]));
}

#[test]
fn equal_lines_are_all_kept_in_order() {
    assert_eq!(split_lines("x\ny\nx\nx\n"), owned(&["x", "y", "x", "x"]));
}

#[test]
fn carriage_return_before_line_feed_is_dropped() {
    assert_eq!(split_lines("a\r\nb\r\n"), owned(&["a", "b"]));
    assert_eq!(split_lines("\r\n"), owned(&[""]));
    assert_eq!(split_lines("a\r\r\nb"), owned(&["a\r", "b"]));
}

#[test]
fn lone_carriage_return_stays() {
    assert_eq!(split_lines("a\rb\n"), owned(&["a\rb"]));
    assert_eq!(split_lines("a\r"), owned(&["a\r"]));
    assert_eq!(split_lines("\r"), owned(&["\r"]));
    assert_eq!(split_lines("a\nb\r"), owned(&["a", "b\r"]));
    assert_eq!(split_lines("\r\ra"), owned(&["\r\ra"]));
}

#[test]
fn characters_beyond_ascii_are_kept() {
    assert_eq!(split_lines("één\nžlutý kůň\r\n日本"), owned(&["één", "žlutý kůň", "日本"]));
}

#[test]
fn agrees_with_the_standard_library() {
    let samples = [
        "",
        "a",
        "\n",
        "\r",
        "\r\n",
        "\n\r",
        "a\n",
        "a\r\n",
        "a\r",
        "a\r\r",
        "a\r\r\n",
        "a\n\rb",
        "a\r\nb\rc\nd\r",
        "\n\n\n",
        "\r\n\r\n",
        "stack backtrace:\n   0: main\n             at src/main.rs:3\n   1: start\n",
        "tab\there\n  indented\n",
        "ünï\r\ncødé\n",
    ];
    for text in samples {
        assert_eq!(split_lines(text), std_lines(text), "for {:?}", text);
    }
}

#[test]
fn agrees_with_the_standard_library_on_all_short_texts() {
    let alphabet = ['a', '\n', '\r'];
    let mut texts = vec![String::new()];
    let mut from = 0;
    for _ in 0..6 {
        let upto = texts.len();
        for i in from..upto {
            for c in alphabet {
                let mut longer = texts[i].clone();
                longer.push(c);
                texts.push(longer);
            }
        }
        from = upto;
    }
    assert_eq!(texts.len(), 1093);
    for text in texts {
        assert_eq!(split_lines(&text), std_lines(&text), "for {:?}", text);
    }
}
