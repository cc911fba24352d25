use todoco::dialog::dialog_step;
use todoco::filter::filter_todos;
use todoco::project::Project;
use todoco::screen::{
    list, start, start_keyword_control_term, AllTodosTerm, KeywordSearchTerm, MainTerm, Screen,
    Transition, ESCAPE_KEY,
};
use todoco::sourcefile::SourceFile;
use todoco::todo::Todo;

fn sample_todos() -> Vec<Todo> {
    let file = SourceFile::new(String::from("f.txt"), String::from("d/f.txt"));
    vec![
        Todo::new(String::from("fix the parser"), file.clone(), 1),
        Todo::new(String::from("extend the tests"), file, 4),
    ]
}

fn sample_search_term() -> KeywordSearchTerm {
    let all = sample_todos();
    let matches = filter_todos(all.clone(), Some("fix"));
    let project = Project::new(String::from("p"), all);
    KeywordSearchTerm::new_from_filter_match(matches)
        .set_project(project)
        .set_keyword(String::from("fix"))
}

#[test]
fn escape_transition_carries_the_search_state() {
    let searchterm = sample_search_term();
    let items_before = searchterm.get_items().clone();
    let keyword_before = searchterm.get_keyword().clone();
    let project_before = searchterm.get_project().clone();
    let headline_before = searchterm.headline();

    let control = start_keyword_control_term(searchterm);
    assert_eq!(control.items, items_before);
    assert_eq!(control.keyword, keyword_before);
    assert_eq!(control.project, project_before);
    assert_eq!(control.headline, headline_before);
}

#[test]
fn control_screen_owns_independent_copies() {
    let searchterm = sample_search_term();
    let items_at_transition = searchterm.get_items().clone();
    let mut control = start_keyword_control_term(searchterm);

    control.items.clear();
    control.keyword.clear();

    let fresh = sample_search_term();
    assert_eq!(items_at_transition, *fresh.get_items());
    assert_eq!(*fresh.get_keyword(), "fix");
}

#[test]
fn search_screen_headline_names_the_keyword() {
    let searchterm = sample_search_term();
    assert_eq!(searchterm.headline(), "Found ToDos for keyword: fix");
}

#[test]
fn dialog_step_keeps_the_screen_on_ordinary_input() {
    let screen = Screen::KeywordSearch(sample_search_term());
    let items = sample_search_term().get_items().clone();
    match dialog_step(screen, 'a') {
        Transition::Continue(Screen::KeywordSearch(t)) => {
            assert_eq!(*t.get_items(), items);
        }
        _ => panic!("expected the screen to stay"),
    }
}

#[test]
fn dialog_step_quits_the_search_screen_on_q() {
    let screen = Screen::KeywordSearch(sample_search_term());
    assert!(matches!(dialog_step(screen, 'q'), Transition::Terminate));
}

#[test]
fn dialog_step_hands_over_to_the_control_screen_on_escape() {
    let searchterm = sample_search_term();
    let items = searchterm.get_items().clone();
    let screen = Screen::KeywordSearch(searchterm);
    match dialog_step(screen, ESCAPE_KEY) {
        Transition::Continue(Screen::KeywordControl(ct)) => {
            assert_eq!(ct.items, items);
            assert_eq!(ct.keyword, "fix");
            assert_eq!(ct.headline, "Found ToDos for keyword: fix");
        }
        _ => panic!("expected a transition to the control screen"),
    }
}

#[test]
fn control_screen_quits_on_q() {
    let searchterm = sample_search_term();
    let control = start_keyword_control_term(searchterm);
    let screen = Screen::KeywordControl(control);
    assert!(matches!(dialog_step(screen, 'q'), Transition::Terminate));
}

#[test]
fn welcome_screen_terminates_on_any_key() {
    let screen = Screen::Main(MainTerm::new(vec![String::from("welcome")]));
    assert!(matches!(dialog_step(screen, 'z'), Transition::Terminate));
}

#[test]
fn all_todos_screen_restarts_the_welcome_flow_on_q() {
    let screen = Screen::AllTodos(AllTodosTerm::new(sample_todos()));
    assert!(matches!(dialog_step(screen, 'q'), Transition::Restart));
}

#[test]
fn all_todos_screen_basics() {
    let todos = sample_todos();
    let term = AllTodosTerm::new(todos.clone());
    assert_eq!(*term.get_items(), todos);
    assert!(term.char_match('q'));
    assert!(!term.char_match('x'));
    assert_eq!(term.headline(), "All ToDos");
}

#[test]
fn start_seeds_the_welcome_screen() {
    let lines = vec![String::from("hello"), String::from("press a key")];
    match start(lines.clone()) {
        Screen::Main(m) => assert_eq!(*m.get_items(), lines),
        _ => panic!("expected the welcome screen"),
    }
}

#[test]
fn list_seeds_the_search_screen_with_the_matches() {
    let all = sample_todos();
    let matches = filter_todos(all.clone(), Some("fix"));
    let matched = matches.matched.clone();
    let project = Project::new(String::from("p"), all);
    match list(Some("fix"), matches, project) {
        Screen::KeywordSearch(t) => {
            assert_eq!(*t.get_items(), matched);
            assert_eq!(*t.get_keyword(), "fix");
            assert!(t.get_project().is_some());
        }
        _ => panic!("expected the search screen"),
    }
}

#[test]
fn list_with_no_keyword_shows_everything() {
    let all = sample_todos();
    let matches = filter_todos(all.clone(), None);
    let project = Project::new(String::from("p"), all.clone());
    match list(None, matches, project) {
        Screen::KeywordSearch(t) => {
            assert_eq!(*t.get_items(), all);
            assert_eq!(*t.get_keyword(), "");
        }
        _ => panic!("expected the search screen"),
    }
}
