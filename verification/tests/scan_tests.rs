use todoco::error::AppError;
use todoco::scan::{build_file_from_path, discover, extract_todos_from_content, extract_todos_from_files};
use todoco::sourcefile::SourceFile;
use todoco::todo::Todo;

#[test]
fn extract_todo_from_test_file() {
    let test_file = SourceFile::new(
        String::from("file1.txt"),
        String::from("env_tests/mod_scan/file1.txt"),
    );
    let expected_todo = vec![Todo::new(String::from("Test"), test_file.clone(), 1)];

    let content = vec![String::from("TODO: Test")];
    let todo = extract_todos_from_files(vec![(test_file, Ok(content))]).unwrap();

    assert_eq!(todo, expected_todo)
}

#[test]
fn extract_marker_variants() {
    let file = SourceFile::new(String::from("f.txt"), String::from("f.txt"));
    let lines = vec![
        String::from("no marker here"),
        String::from("ToDoo: drop the o"),
        String::from("TODO"),
        String::from("todo:x"),
        String::from("xx todoo"),
    ];
    let todos = extract_todos_from_content(&lines, file.clone());
    let expected = vec![
        Todo::new(String::from("drop the o"), file.clone(), 2),
        Todo::new(String::from(""), file.clone(), 3),
        Todo::new(String::from("x"), file.clone(), 4),
        Todo::new(String::from(""), file.clone(), 5),
    ];
    assert_eq!(todos, expected);
}

#[test]
fn extract_skips_one_unicode_space_after_the_marker() {
    let file = SourceFile::new(String::from("f.txt"), String::from("f.txt"));
    let lines = vec![String::from("todo:\u{a0}x"), String::from("todo \u{2003}wide")];
    let todos = extract_todos_from_content(&lines, file.clone());
    let expected = vec![
        Todo::new(String::from("x"), file.clone(), 1),
        Todo::new(String::from("\u{2003}wide"), file, 2),
    ];
    assert_eq!(todos, expected);
}

#[test]
fn extract_only_first_marker_of_a_line() {
    let file = SourceFile::new(String::from("f.txt"), String::from("f.txt"));
    let lines = vec![String::from("todo: todo: twice")];
    let todos = extract_todos_from_content(&lines, file.clone());
    let expected = vec![Todo::new(String::from("todo: twice"), file, 1)];
    assert_eq!(todos, expected);
}

#[test]
fn extract_concatenates_files_in_catalog_order() {
    let f1 = SourceFile::new(String::from("a.txt"), String::from("a.txt"));
    let f2 = SourceFile::new(String::from("b.txt"), String::from("b.txt"));
    let todos = extract_todos_from_files(vec![
        (f1.clone(), Ok(vec![String::from("TODO: first")])),
        (f2.clone(), Ok(vec![String::from("plain"), String::from("TODO: second")])),
    ])
    .unwrap();
    let expected = vec![
        Todo::new(String::from("first"), f1, 1),
        Todo::new(String::from("second"), f2, 2),
    ];
    assert_eq!(todos, expected);
}

#[test]
fn extract_short_circuits_on_first_unreadable_file() {
    let f1 = SourceFile::new(String::from("a.txt"), String::from("a.txt"));
    let f2 = SourceFile::new(String::from("b.txt"), String::from("b.txt"));
    let f3 = SourceFile::new(String::from("c.txt"), String::from("c.txt"));
    let r = extract_todos_from_files(vec![
        (f1, Ok(vec![String::from("TODO: ok")])),
        (f2, Err(AppError::NotFound)),
        (f3, Err(AppError::PermissionDenied)),
    ]);
    assert_eq!(r.unwrap_err(), AppError::NotFound);
}

#[test]
fn extract_passes_generic_io_failures_through() {
    let f1 = SourceFile::new(String::from("a.txt"), String::from("a.txt"));
    let r = extract_todos_from_files(vec![(f1, Err(AppError::Io))]);
    assert_eq!(r.unwrap_err(), AppError::Io);
}

#[test]
fn build_files_drops_unresolvable_entries() {
    let entries = vec![
        (Some(String::from("file1.txt")), Some(String::from("env_tests/mod_scan/file1.txt"))),
        (None, Some(String::from("bad/name"))),
        (Some(String::from("orphan")), None),
        (Some(String::from("b.txt")), Some(String::from("d/b.txt"))),
    ];
    let files = build_file_from_path(entries);
    let expected = vec![
        SourceFile::new(String::from("file1.txt"), String::from("env_tests/mod_scan/file1.txt")),
        SourceFile::new(String::from("b.txt"), String::from("d/b.txt")),
    ];
    assert_eq!(files, expected);
}

#[test]
fn discover_rejects_malformed_pattern() {
    let r = discover("a[");
    assert_eq!(r.unwrap_err(), AppError::Pattern);
}

#[test]
fn discover_finds_nothing_for_unmatched_pattern() {
    let r = discover("no_such_dir_zz/*.zz_none").unwrap();
    assert_eq!(r.len(), 0);
}
