use vstd::prelude::*;

use crate::filter::FilterMatch;
use crate::printer::{FooterOption, Printer};
use crate::project::Project;
use crate::todo::{clone_todos, Todo};

verus! {

/// The character the dialog loop hands on for the escape key.
pub const ESCAPE_KEY: char = '\u{1b}';

// ---------------------------------------------------------------------------
// The screen variants.
// ---------------------------------------------------------------------------
/// The welcome screen of the search entry point; its items are the
/// welcome text lines. Any key terminates it, ending the whole dialog.
#[derive(Debug)]
pub struct MainTerm {
    pub items: Vec<String>,
}

/// The all-items screen: every annotation, no keyword. Quitting it
/// re-invokes the welcome flow.
#[derive(Debug)]
pub struct AllTodosTerm {
    pub items: Vec<Todo>,
}

/// The keyword search screen, seeded from a filter result: it shows the
/// flagged annotations, or everything when nothing was flagged. Escape
/// hands over to the keyword control screen; `q` ends the dialog.
#[derive(Debug)]
pub struct KeywordSearchTerm {
    pub items: Vec<Todo>,
    pub keyword: String,
    pub project: Option<Project>,
}

/// The keyword refinement screen, carrying forward the search screen's
/// items, keyword, project and headline as its own copies.
#[derive(Debug)]
pub struct KeywordControlTerm {
    pub items: Vec<Todo>,
    pub keyword: String,
    pub project: Option<Project>,
    pub headline: String,
}

/// One interactive state of the terminal navigation machine.
#[derive(Debug)]
pub enum Screen {
    Main(MainTerm),
    AllTodos(AllTodosTerm),
    KeywordSearch(KeywordSearchTerm),
    KeywordControl(KeywordControlTerm),
}

/// The outcome of a screen's quit action: hand the dialog a replacement
/// screen, restart the welcome flow, or end the whole dialog.
#[derive(Debug)]
pub enum Transition {
    Continue(Screen),
    Restart,
    Terminate,
}

// ---------------------------------------------------------------------------
// Headlines and footers.
// ---------------------------------------------------------------------------
pub open spec fn main_headline() -> Seq<char> {
    "ToDoCo"@
}

pub open spec fn all_todos_headline() -> Seq<char> {
    "All ToDos"@
}

pub open spec fn search_headline(keyword: Seq<char>) -> Seq<char> {
    "Found ToDos for keyword: "@ + keyword
}

pub open spec fn main_footer() -> Seq<(Seq<char>, Seq<char>)> {
    seq![("any key"@, "Quit"@)]
}

pub open spec fn quit_footer() -> Seq<(Seq<char>, Seq<char>)> {
    seq![("q"@, "Quit"@)]
}

pub open spec fn search_footer() -> Seq<(Seq<char>, Seq<char>)> {
    seq![("q"@, "Quit"@), ("esc"@, "Filter options"@)]
}

// ---------------------------------------------------------------------------
// The screen capability set, dispatched over the closed variant union.
// ---------------------------------------------------------------------------
/// Does the character terminate the screen?
pub open spec fn screen_quits(s: Screen, c: char) -> bool {
    match s {
        Screen::Main(_) => true,
        Screen::AllTodos(_) => c == 'q',
        Screen::KeywordSearch(_) => c == 'q' || c == ESCAPE_KEY,
        Screen::KeywordControl(_) => c == 'q',
    }
}

/// Each screen's headline text.
pub open spec fn screen_headline_spec(s: Screen) -> Seq<char> {
    match s {
        Screen::Main(_) => main_headline(),
        Screen::AllTodos(_) => all_todos_headline(),
        Screen::KeywordSearch(t) => search_headline(t.keyword@),
        Screen::KeywordControl(k) => k.headline@,
    }
}

/// Each screen's footer actions.
pub open spec fn screen_footer_spec(s: Screen) -> Seq<(Seq<char>, Seq<char>)> {
    match s {
        Screen::Main(_) => main_footer(),
        Screen::AllTodos(_) => quit_footer(),
        Screen::KeywordSearch(_) => search_footer(),
        Screen::KeywordControl(_) => quit_footer(),
    }
}

/// Each screen's rendering strategy.
pub open spec fn screen_printer_spec(s: Screen) -> Printer {
    match s {
        Screen::Main(_) => Printer::Text,
        Screen::AllTodos(_) => Printer::Todo,
        Screen::KeywordSearch(_) => Printer::Todo,
        Screen::KeywordControl(_) => Printer::Todo,
    }
}

/// The control screen carries exactly the search screen's state at
/// transition time: its items, keyword and project as equal copies, and
/// the search screen's computed headline as its stored one.
pub open spec fn control_matches_search(ct: KeywordControlTerm, t: KeywordSearchTerm) -> bool {
    &&& ct.items.deep_view() == t.items.deep_view()
    &&& ct.keyword@ == t.keyword@
    &&& ct.project.deep_view() == t.project.deep_view()
    &&& ct.headline@ == search_headline(t.keyword@)
}

fn clone_opt_project(p: &Option<Project>) -> (r: Option<Project>)
    ensures
        r.deep_view() == p.deep_view(),
{
    match p {
        Some(pr) => Some(pr.clone()),
        None => None,
    }
}

impl MainTerm {
    pub fn new(items: Vec<String>) -> (r: MainTerm)
        ensures
            r.items == items,
    {
        MainTerm { items }
    }

    pub fn get_items(&self) -> (r: &Vec<String>)
        ensures
            *r == self.items,
    {
        &self.items
    }

    pub fn get_printer(&self) -> (r: Printer)
        ensures
            r == Printer::Text,
    {
        Printer::Text
    }

    pub fn char_match(&self, c: char) -> (r: bool)
        ensures
            r,
    {
        true
    }

    pub fn on_quit(&self) -> (r: Transition)
        ensures
            r is Terminate,
    {
        Transition::Terminate
    }

    pub fn get_footer_options(&self) -> (r: Vec<FooterOption>)
        ensures
            r.deep_view() == main_footer(),
    {
        let mut opts: Vec<FooterOption> = Vec::new();
        opts.push(FooterOption::new("any key", "Quit"));
        proof {
            assert(opts.deep_view() =~= main_footer());
        }
        opts
    }

    pub fn headline(&self) -> (r: String)
        ensures
            r@ == main_headline(),
    {
        String::from_str("ToDoCo")
    }
}

impl AllTodosTerm {
    pub fn new(items: Vec<Todo>) -> (r: AllTodosTerm)
        ensures
            r.items == items,
    {
        AllTodosTerm { items }
    }

    pub fn get_items(&self) -> (r: &Vec<Todo>)
        ensures
            *r == self.items,
    {
        &self.items
    }

    pub fn get_printer(&self) -> (r: Printer)
        ensures
            r == Printer::Todo,
    {
        Printer::Todo
    }

    pub fn char_match(&self, c: char) -> (r: bool)
        ensures
            r == (c == 'q'),
    {
        c == 'q'
    }

    /// Quitting the all-items screen re-invokes the welcome flow.
    pub fn on_quit(&self) -> (r: Transition)
        ensures
            r is Restart,
    {
        Transition::Restart
    }

    pub fn get_footer_options(&self) -> (r: Vec<FooterOption>)
        ensures
            r.deep_view() == quit_footer(),
    {
        let mut opts: Vec<FooterOption> = Vec::new();
        opts.push(FooterOption::new("q", "Quit"));
        proof {
            assert(opts.deep_view() =~= quit_footer());
        }
        opts
    }

    pub fn headline(&self) -> (r: String)
        ensures
            r@ == all_todos_headline(),
    {
        String::from_str("All ToDos")
    }
}

/// The items a search screen is seeded with: the flagged annotations,
/// or — when nothing was flagged — the full list.
pub open spec fn seed_items(m: FilterMatch) -> Seq<Todo> {
    if m.matched@.len() > 0 {
        m.matched@
    } else {
        m.unmatched@
    }
}

impl KeywordSearchTerm {
    pub fn new_from_filter_match(m: FilterMatch) -> (r: KeywordSearchTerm)
        ensures
            r.items@ == seed_items(m),
            r.keyword@ == Seq::<char>::empty(),
            r.project is None,
    {
        let items = if m.matched.len() > 0 {
            m.matched
        } else {
            m.unmatched
        };
        KeywordSearchTerm { items, keyword: String::new(), project: None }
    }

    pub fn set_project(self, project: Project) -> (r: KeywordSearchTerm)
        ensures
            r.items == self.items,
            r.keyword == self.keyword,
            r.project == Some(project),
    {
        KeywordSearchTerm { project: Some(project), ..self }
    }

    pub fn set_keyword(self, keyword: String) -> (r: KeywordSearchTerm)
        ensures
            r.items == self.items,
            r.keyword == keyword,
            r.project == self.project,
    {
        KeywordSearchTerm { keyword, ..self }
    }

    pub fn get_items(&self) -> (r: &Vec<Todo>)
        ensures
            *r == self.items,
    {
        &self.items
    }

    pub fn get_keyword(&self) -> (r: &String)
        ensures
            *r == self.keyword,
    {
        &self.keyword
    }

    pub fn get_project(&self) -> (r: &Option<Project>)
        ensures
            *r == self.project,
    {
        &self.project
    }

    pub fn get_printer(&self) -> (r: Printer)
        ensures
            r == Printer::Todo,
    {
        Printer::Todo
    }

    pub fn char_match(&self, c: char) -> (r: bool)
        ensures
            r == (c == 'q' || c == ESCAPE_KEY),
    {
        c == 'q' || c == ESCAPE_KEY
    }

    /// Quitting by escape hands over to the control screen, carrying the
    /// state forward; quitting any other way ends the dialog.
    pub fn on_quit(self, c: char) -> (r: Transition)
        ensures
            c == ESCAPE_KEY ==> (r matches Transition::Continue(s) && s matches Screen::KeywordControl(ct)
                && control_matches_search(ct, self)),
            c != ESCAPE_KEY ==> r is Terminate,
    {
        if c == ESCAPE_KEY {
            let control = start_keyword_control_term(self);
            Transition::Continue(Screen::KeywordControl(control))
        } else {
            Transition::Terminate
        }
    }

    pub fn get_footer_options(&self) -> (r: Vec<FooterOption>)
        ensures
            r.deep_view() == search_footer(),
    {
        let mut opts: Vec<FooterOption> = Vec::new();
        opts.push(FooterOption::new("q", "Quit"));
        opts.push(FooterOption::new("esc", "Filter options"));
        proof {
            assert(opts.deep_view() =~= search_footer());
        }
        opts
    }

    pub fn headline(&self) -> (r: String)
        ensures
            r@ == search_headline(self.keyword@),
    {
        let mut s = String::from_str("Found ToDos for keyword: ");
        s.append(self.keyword.as_str());
        s
    }
}

impl KeywordControlTerm {
    pub fn new(items: Vec<Todo>) -> (r: KeywordControlTerm)
        ensures
            r.items == items,
            r.keyword@ == Seq::<char>::empty(),
            r.project is None,
            r.headline@ == Seq::<char>::empty(),
    {
        KeywordControlTerm {
            items,
            keyword: String::new(),
            project: None,
            headline: String::new(),
        }
    }

    pub fn set_project(self, project: Option<Project>) -> (r: KeywordControlTerm)
        ensures
            r.items == self.items,
            r.keyword == self.keyword,
            r.project == project,
            r.headline == self.headline,
    {
        KeywordControlTerm { project, ..self }
    }

    pub fn set_keyword(self, keyword: String) -> (r: KeywordControlTerm)
        ensures
            r.items == self.items,
            r.keyword == keyword,
            r.project == self.project,
            r.headline == self.headline,
    {
        KeywordControlTerm { keyword, ..self }
    }

    pub fn set_headline(self, headline: String) -> (r: KeywordControlTerm)
        ensures
            r.items == self.items,
            r.keyword == self.keyword,
            r.project == self.project,
            r.headline == headline,
    {
        KeywordControlTerm { headline, ..self }
    }

    pub fn get_items(&self) -> (r: &Vec<Todo>)
        ensures
            *r == self.items,
    {
        &self.items
    }

    pub fn get_printer(&self) -> (r: Printer)
        ensures
            r == Printer::Todo,
    {
        Printer::Todo
    }

    pub fn char_match(&self, c: char) -> (r: bool)
        ensures
            r == (c == 'q'),
    {
        c == 'q'
    }

    pub fn on_quit(&self) -> (r: Transition)
        ensures
            r is Terminate,
    {
        Transition::Terminate
    }

    pub fn get_footer_options(&self) -> (r: Vec<FooterOption>)
        ensures
            r.deep_view() == quit_footer(),
    {
        let mut opts: Vec<FooterOption> = Vec::new();
        opts.push(FooterOption::new("q", "Quit"));
        proof {
            assert(opts.deep_view() =~= quit_footer());
        }
        opts
    }

    pub fn headline(&self) -> (r: String)
        ensures
            r@ == self.headline@,
    {
        self.headline.clone()
    }
}

impl Screen {
    pub fn char_match(&self, c: char) -> (r: bool)
        ensures
            r == screen_quits(*self, c),
    {
        match self {
            Screen::Main(m) => m.char_match(c),
            Screen::AllTodos(a) => a.char_match(c),
            Screen::KeywordSearch(t) => t.char_match(c),
            Screen::KeywordControl(k) => k.char_match(c),
        }
    }

    pub fn headline(&self) -> (r: String)
        ensures
            r@ == screen_headline_spec(*self),
    {
        match self {
            Screen::Main(m) => m.headline(),
            Screen::AllTodos(a) => a.headline(),
            Screen::KeywordSearch(t) => t.headline(),
            Screen::KeywordControl(k) => k.headline(),
        }
    }

    pub fn get_footer_options(&self) -> (r: Vec<FooterOption>)
        ensures
            r.deep_view() == screen_footer_spec(*self),
    {
        match self {
            Screen::Main(m) => m.get_footer_options(),
            Screen::AllTodos(a) => a.get_footer_options(),
            Screen::KeywordSearch(t) => t.get_footer_options(),
            Screen::KeywordControl(k) => k.get_footer_options(),
        }
    }

    pub fn get_printer(&self) -> (r: Printer)
        ensures
            r == screen_printer_spec(*self),
    {
        match self {
            Screen::Main(m) => m.get_printer(),
            Screen::AllTodos(a) => a.get_printer(),
            Screen::KeywordSearch(t) => t.get_printer(),
            Screen::KeywordControl(k) => k.get_printer(),
        }
    }
}

// ---------------------------------------------------------------------------
// Entry points.
// ---------------------------------------------------------------------------
/// Seeds the welcome dialog of the search entry point with the given
/// welcome text lines.
pub fn start(welcome_text: Vec<String>) -> (s: Screen)
    ensures
        s == Screen::Main((MainTerm { items: welcome_text })),
{
    Screen::Main(MainTerm::new(welcome_text))
}

/// The keyword as it seeds a screen: the given word, or empty.
pub open spec fn keyword_or_empty(keyword: Option<&str>) -> Seq<char> {
    match keyword {
        Some(k) => k@,
        None => Seq::<char>::empty(),
    }
}

/// Seeds the keyword search dialog from a filter result, the keyword it
/// came from, and the project it belongs to.
pub fn list(keyword: Option<&str>, matches: FilterMatch, project: Project) -> (s: Screen)
    ensures
        s matches Screen::KeywordSearch(t) && t.items@ == seed_items(matches) && t.keyword@
            == keyword_or_empty(keyword) && t.project.deep_view() == Some(project@),
{
    let keyword_string = match keyword {
        Some(k) => String::from_str(k),
        None => String::new(),
    };
    let term = KeywordSearchTerm::new_from_filter_match(matches).set_project(project).set_keyword(
        keyword_string,
    );
    Screen::KeywordSearch(term)
}

/// Builds the keyword control screen out of a search screen.
///
/// LAW (screen transition): the control screen's items, project and
/// keyword equal the search screen's values at transition time, and its
/// stored headline is the search screen's computed one
/// (`control_matches_search`). The copies are owned by the new screen
/// alone — state is copied, never shared.
pub fn start_keyword_control_term(searchterm: KeywordSearchTerm) -> (r: KeywordControlTerm)
    ensures
        control_matches_search(r, searchterm),
{
    let headline = searchterm.headline();
    let items = clone_todos(searchterm.get_items());
    let project = clone_opt_project(searchterm.get_project());
    let keyword = searchterm.get_keyword().clone();
    KeywordControlTerm::new(items).set_project(project).set_keyword(keyword).set_headline(headline)
}

} // verus!
