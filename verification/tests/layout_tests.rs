use ogimage::layout::{wrap, wrap_capped};

#[test]
fn wrap_simple_words() {
    let lines = wrap("ab cd", 2);
    assert_eq!(lines, vec!["ab".to_string(), "cd".to_string()]);
}

#[test]
fn wrap_joins_words_that_fit() {
    let lines = wrap("one two three", 8);
    assert_eq!(lines, vec!["one two".to_string(), "three".to_string()]);
}

#[test]
fn wrap_empty_input_yields_single_empty_line() {
    assert_eq!(wrap("", 24), vec!["".to_string()]);
    assert_eq!(wrap("   ", 24), vec!["".to_string()]);
}

#[test]
fn wrap_long_word_unbroken() {
    let lines = wrap("supercalifragilistic is long", 5);
    assert_eq!(
        lines,
        vec![
            "supercalifragilistic".to_string(),
            "is".to_string(),
            "long".to_string()
        ]
    );
}

#[test]
fn wrap_collapses_whitespace_runs() {
    let lines = wrap("a \t b\n\nc", 10);
    assert_eq!(lines, vec!["a b c".to_string()]);
}

#[test]
fn wrap_width_bound_sampled() {
    let text = "the quick brown fox jumps over the lazy dog again and again and again";
    for width in 1..=100usize {
        let lines = wrap_capped(text, width, 3);
        assert!(lines.len() <= 3, "width {width}: more than 3 lines");
        for (i, line) in lines.iter().enumerate() {
            let marked = i == lines.len() - 1 && line.ends_with('…');
            let body: String = if marked {
                line.chars().take(line.chars().count() - 1).collect()
            } else {
                line.clone()
            };
            let single_word = !body.contains(' ');
            assert!(
                body.chars().count() <= width || single_word,
                "width {width}: line {line:?} overflows"
            );
        }
    }
}

#[test]
fn truncation_marker_at_width_24() {
    let text = "one two three four five six seven eight nine ten eleven twelve thirteen fourteen";
    let full = wrap(text, 24);
    assert!(full.len() > 3, "test text must wrap into more than 3 lines");
    let capped = wrap_capped(text, 24, 3);
    assert_eq!(capped.len(), 3);
    assert_eq!(capped[0], full[0]);
    assert_eq!(capped[1], full[1]);
    assert_eq!(capped[2], format!("{}…", full[2]));
    assert!(capped[2].ends_with('…'));
    // nothing of the dropped lines shows up in the result
    for dropped in &full[3..] {
        for word in dropped.split(' ') {
            assert!(
                !capped.iter().any(|l| l.contains(word)),
                "dropped word {word:?} present"
            );
        }
    }
}

#[test]
fn wrap_counts_characters_not_bytes() {
    // each word is 5 characters but more than 5 bytes
    let lines = wrap("héllo wörld", 11);
    assert_eq!(lines, vec!["héllo wörld".to_string()]);
    let lines = wrap("héllo wörld", 5);
    assert_eq!(lines, vec!["héllo".to_string(), "wörld".to_string()]);
}

#[test]
fn truncation_keeps_multibyte_boundaries() {
    let text = "ééééé ééééé ééééé ééééé ééééé ééééé ééééé ééééé";
    let capped = wrap_capped(text, 11, 3);
    assert_eq!(capped.len(), 3);
    assert_eq!(capped[2], "ééééé ééééé…");
    // the result is intact character data: round-trips through bytes
    for line in &capped {
        assert_eq!(String::from_utf8(line.as_bytes().to_vec()).unwrap(), *line);
    }
}

#[test]
fn no_truncation_without_overflow() {
    let lines = wrap_capped("short title", 24, 3);
    assert_eq!(lines, vec!["short title".to_string()]);
}
