use rustwatch::{
    contains_error_word, has_text_extension, is_error_text, is_listed_extension, is_text_file,
    sample_looks_textual,
};

#[test]
fn known_extension_is_text_whatever_the_content() {
    let garbage: Vec<u8> = vec![0, 0, 255, 254, 0, 1, 2, 0];
    assert!(is_text_file(Some("log"), Some(&garbage)));
    assert!(is_text_file(Some("LOG"), Some(&garbage)));
    assert!(is_text_file(Some("Json"), None));
    assert!(is_text_file(Some("properties"), Some(&[])));
}

#[test]
fn extension_list_ignores_case_and_rejects_others() {
    assert!(has_text_extension("txt"));
    assert!(has_text_extension("YAML"));
    assert!(has_text_extension("Md"));
    assert!(!has_text_extension("bin"));
    assert!(!has_text_extension("logs"));
    assert!(!has_text_extension(""));
}

#[test]
fn binary_sample_without_known_extension_is_not_text() {
    let mut with_null: Vec<u8> = vec![b'a'; 10];
    with_null[3] = 0;
    assert!(!is_text_file(None, Some(&with_null)));
    assert!(!is_text_file(Some("bin"), Some(&with_null)));
    let mut high: Vec<u8> = vec![b'a'; 10];
    high[0] = 200;
    high[1] = 201;
    high[2] = 202;
    assert!(!is_text_file(None, Some(&high)));
    high[2] = b'a';
    assert!(is_text_file(None, Some(&high)));
}

#[test]
fn null_ratio_threshold_is_strict() {
    let mut hundred: Vec<u8> = vec![b'x'; 100];
    hundred[50] = 0;
    assert!(!sample_looks_textual(&hundred));
    let mut more: Vec<u8> = vec![b'x'; 101];
    more[50] = 0;
    assert!(sample_looks_textual(&more));
}

#[test]
fn empty_or_unreadable_file_is_not_text() {
    assert!(!is_text_file(None, Some(&[])));
    assert!(!is_text_file(Some("bin"), None));
    assert!(!is_text_file(None, None));
}

#[test]
fn sniff_looks_at_the_first_512_bytes_only() {
    let mut bytes: Vec<u8> = vec![b'a'; 600];
    for b in bytes.iter_mut().skip(512) {
        *b = 0;
    }
    assert!(sample_looks_textual(&bytes));
    bytes[0] = 0;
    bytes[1] = 0;
    bytes[2] = 0;
    bytes[3] = 0;
    bytes[4] = 0;
    bytes[5] = 0;
    assert!(!sample_looks_textual(&bytes));
}

#[test]
fn error_word_matches_in_any_case() {
    assert!(is_error_text("ERROR: disk full"));
    assert!(is_error_text("an Error occurred"));
    assert!(is_error_text("xxerrorxx"));
    assert!(is_error_text("TERRORIZED"));
    assert!(!is_error_text("err or"));
    assert!(!is_error_text("ok"));
    assert!(!is_error_text(""));
    assert!(contains_error_word("error"));
    assert!(!contains_error_word("ERROR"));
    assert!(!contains_error_word("erro"));
}

#[test]
fn listed_extension_needs_lowercase() {
    assert!(is_listed_extension("log"));
    assert!(is_listed_extension("info"));
    assert!(!is_listed_extension("LOG"));
    assert!(!is_listed_extension("exe"));
}
