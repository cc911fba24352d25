use todoco::error::AppError;
use todoco::filter::{contains_substring, filter_todos};
use todoco::project::get_project;
use todoco::sourcefile::SourceFile;
use todoco::todo::Todo;

fn sample_todos() -> Vec<Todo> {
    let file = SourceFile::new(String::from("f.txt"), String::from("d/f.txt"));
    vec![
        Todo::new(String::from("fix the parser"), file.clone(), 1),
        Todo::new(String::from("extend the tests"), file.clone(), 4),
        Todo::new(String::from("explain the fix"), file, 9),
    ]
}

#[test]
fn filter_without_keyword_flags_nothing() {
    let all = sample_todos();
    let r = filter_todos(all.clone(), None);
    assert_eq!(r.matched, Vec::new());
    assert_eq!(r.unmatched, all);
}

#[test]
fn filter_with_empty_keyword_flags_nothing() {
    let all = sample_todos();
    let r = filter_todos(all.clone(), Some(""));
    assert_eq!(r.matched, Vec::new());
    assert_eq!(r.unmatched, all);
}

#[test]
fn filter_with_keyword_flags_containing_texts_and_keeps_all() {
    let all = sample_todos();
    let r = filter_todos(all.clone(), Some("fix"));
    assert_eq!(r.matched, vec![all[0].clone(), all[2].clone()]);
    assert_eq!(r.unmatched, all);
    for t in &r.matched {
        assert!(t.text.contains("fix"));
        assert!(all.contains(t));
    }
}

#[test]
fn filter_keyword_is_case_sensitive() {
    let all = sample_todos();
    let r = filter_todos(all.clone(), Some("Fix"));
    assert_eq!(r.matched, Vec::new());
    assert_eq!(r.unmatched, all);
}

#[test]
fn substring_test_matches_rust_semantics() {
    assert!(contains_substring("hello world", "lo wo"));
    assert!(contains_substring("hello", ""));
    assert!(contains_substring("abc", "abc"));
    assert!(!contains_substring("abc", "abcd"));
    assert!(!contains_substring("Hello", "hello"));
}

#[test]
fn outside_a_project_filtering_fails() {
    let r = get_project(false, String::from("p"), Vec::new());
    assert_eq!(r.unwrap_err(), AppError::NotAProject);
}

#[test]
fn inside_a_project_the_scan_becomes_the_project() {
    let todos = sample_todos();
    let p = get_project(true, String::from("p"), todos.clone()).unwrap();
    assert_eq!(p.name, "p");
    assert_eq!(p.todos, todos);
}
