use todoco::dialog::render_screen;
use todoco::filter::filter_todos;
use todoco::printer::{print_todo, usize_to_string, FooterOption, Printer};
use todoco::project::Project;
use todoco::screen::{list, AllTodosTerm, MainTerm, Screen};
use todoco::sourcefile::SourceFile;
use todoco::todo::Todo;

fn sample_todos() -> Vec<Todo> {
    let file = SourceFile::new(String::from("f.txt"), String::from("d/f.txt"));
    vec![
        Todo::new(String::from("fix the parser"), file.clone(), 1),
        Todo::new(String::from("extend the tests"), file.clone(), 4),
        Todo::new(String::from("ship it"), file, 12),
    ]
}

#[test]
fn decimal_rendering_is_exact() {
    assert_eq!(usize_to_string(0), "0");
    assert_eq!(usize_to_string(7), "7");
    assert_eq!(usize_to_string(10), "10");
    assert_eq!(usize_to_string(90217), "90217");
}

#[test]
fn todo_lines_are_exact() {
    let file = SourceFile::new(String::from("f.txt"), String::from("d/f.txt"));
    let todo = Todo::new(String::from("fix the parser"), file, 1234);
    assert_eq!(print_todo(&todo), "fix the parser (f.txt:1234)");
}

#[test]
fn empty_keyword_search_renders_every_annotation() {
    let all = sample_todos();
    let matches = filter_todos(all.clone(), None);
    assert_eq!(matches.matched.len(), 0);
    let project = Project::new(String::from("p"), all.clone());
    let screen = list(None, matches, project);
    let lines = render_screen(&screen, 24);
    assert_eq!(lines.len(), 2 + all.len());
    assert_eq!(lines[0], "Found ToDos for keyword: ");
    assert_eq!(lines[1], "fix the parser (f.txt:1)");
    assert_eq!(lines[2], "extend the tests (f.txt:4)");
    assert_eq!(lines[3], "ship it (f.txt:12)");
    assert_eq!(lines[4], "[q] Quit | [esc] Filter options");
}

#[test]
fn overflowing_items_are_truncated_not_wrapped() {
    let screen = Screen::AllTodos(AllTodosTerm::new(sample_todos()));
    let lines = render_screen(&screen, 3);
    assert_eq!(
        lines,
        vec![
            String::from("All ToDos"),
            String::from("fix the parser (f.txt:1)"),
            String::from("[q] Quit"),
        ]
    );
}

#[test]
fn tiny_viewports_still_show_headline_and_footer() {
    let screen = Screen::AllTodos(AllTodosTerm::new(sample_todos()));
    let lines = render_screen(&screen, 1);
    assert_eq!(lines, vec![String::from("All ToDos"), String::from("[q] Quit")]);
}

#[test]
fn welcome_screen_renders_its_text_lines_verbatim() {
    let text = vec![String::from("welcome to the search"), String::from("press any key")];
    let screen = Screen::Main(MainTerm::new(text));
    let lines = render_screen(&screen, 10);
    assert_eq!(
        lines,
        vec![
            String::from("ToDoCo"),
            String::from("welcome to the search"),
            String::from("press any key"),
            String::from("[any key] Quit"),
        ]
    );
}

#[test]
fn printers_match_their_screens() {
    let text_screen = Screen::Main(MainTerm::new(Vec::new()));
    let todo_screen = Screen::AllTodos(AllTodosTerm::new(Vec::new()));
    assert_eq!(text_screen.get_printer(), Printer::Text);
    assert_eq!(todo_screen.get_printer(), Printer::Todo);
}

#[test]
fn footer_options_carry_key_and_label() {
    let opt = FooterOption::new("q", "Quit");
    assert_eq!(opt.key, "q");
    assert_eq!(opt.label, "Quit");
}
