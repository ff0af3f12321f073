use setup_user::error::{id_label_text, kind_word_text};
use setup_user::account::AccountKind;
use setup_user::line::{emit, export_line, log_line, push_word, run_line, write_export, write_run, Line};
use setup_user::text::{decimal_text, digit_text, join_words};

#[test]
fn decimal_numerals() {
    assert_eq!(decimal_text(0), "0");
    assert_eq!(decimal_text(7), "7");
    assert_eq!(decimal_text(10), "10");
    assert_eq!(decimal_text(109), "109");
    assert_eq!(decimal_text(65535), "65535");
    assert_eq!(decimal_text(4294967295), "4294967295");
    for n in 0..2000u32 {
        assert_eq!(decimal_text(n), n.to_string());
    }
    for n in [99_999u32, 100_000, 1_000_000_007, 4_000_000_000] {
        assert_eq!(decimal_text(n), n.to_string());
    }
}

#[test]
fn digits() {
    let all: Vec<&str> = (0..10).map(digit_text).collect();
    assert_eq!(all, vec!["0", "1", "2", "3", "4", "5", "6", "7", "8", "9"]);
}

#[test]
fn words_are_joined_by_single_spaces() {
    assert_eq!(join_words(&Vec::new()), "");
    assert_eq!(join_words(&vec!["one".to_string()]), "one");
    assert_eq!(join_words(&vec!["a".to_string(), "b".to_string(), "c".to_string()]), "a b c");
    assert_eq!(join_words(&vec!["".to_string(), "x".to_string(), "".to_string()]), " x ");
}

#[test]
fn labels() {
    assert_eq!(id_label_text(AccountKind::User), "UID");
    assert_eq!(id_label_text(AccountKind::Group), "GID");
    assert_eq!(kind_word_text(AccountKind::User), "user");
    assert_eq!(kind_word_text(AccountKind::Group), "group");
}

#[test]
fn log_lines_are_echoed() {
    assert_eq!(log_line("UID set to 5".to_string()).render(), "echo UID set to 5");
    assert_eq!(Line::Log(String::new()).render(), "echo ");
}

#[test]
fn exported_values_are_quoted() {
    assert_eq!(export_line("PUSER", &"alice".to_string()).render(), "export PUSER=\"alice\"");
    assert_eq!(
        export_line("HOME", &"/home/a \"b\"\\c".to_string()).render(),
        "export HOME=\"/home/a \\\"b\\\"\\\\c\""
    );
    assert_eq!(export_line("HOME", &"tab\there".to_string()).render(), "export HOME=\"tab\\there\"");
    assert_eq!(export_line("PGROUP", &String::new()).render(), "export PGROUP=\"\"");
    assert_eq!(
        export_line("PUSER", &"alice".to_string()),
        Line::Export { name: "PUSER".to_string(), value: "alice".to_string() }
    );
}

#[test]
fn export_text_takes_the_value_as_written() {
    assert_eq!(write_export("HOME", "\"/root\""), "export HOME=\"/root\"");
    assert_eq!(write_export("X", ""), "export X=");
}

#[test]
fn run_lines_list_program_and_arguments() {
    assert_eq!(run_line("mkdir", vec!["-p".to_string(), "/x y".to_string()]).render(), "mkdir -p /x y");
    assert_eq!(run_line("true", Vec::new()).render(), "true");
    assert_eq!(write_run("id", &vec!["-u".to_string()]), "id -u");
    assert_eq!(
        run_line("id", vec!["-u".to_string()]),
        Line::Run { program: "id".to_string(), args: vec!["-u".to_string()] }
    );
}

#[test]
fn emitting_appends() {
    let mut out = Vec::new();
    emit(&mut out, Line::Log("a".to_string()));
    emit(&mut out, Line::Log("b".to_string()));
    assert_eq!(out, vec![Line::Log("a".to_string()), Line::Log("b".to_string())]);
    let mut words = vec!["x".to_string()];
    push_word(&mut words, "y");
    assert_eq!(words, vec!["x", "y"]);
}
