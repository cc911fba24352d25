use vstd::prelude::*;

use crate::filter::{matched_spec, FilterMatch};
use crate::printer::{footer_line, footer_line_spec, print_todo, todo_line};
use crate::screen::{
    control_matches_search, screen_footer_spec, screen_headline_spec, screen_quits, seed_items,
    KeywordSearchTerm, Screen, Transition, ESCAPE_KEY,
};
use crate::todo::{Todo, TodoV};

verus! {

// ---------------------------------------------------------------------------
// Rendering: a pure function of the screen and the viewport height.
// ---------------------------------------------------------------------------
/// How many item lines fit a viewport of `height` lines, once headline
/// and footer have taken theirs.
pub open spec fn body_capacity(height: int) -> int {
    if height >= 2 {
        height - 2
    } else {
        0
    }
}

/// A sequence clipped to its first `cap` elements: overflow is
/// truncated, never wrapped.
pub open spec fn clipped<A>(s: Seq<A>, cap: int) -> Seq<A> {
    if s.len() <= cap {
        s
    } else {
        s.subrange(0, cap)
    }
}

/// The item lines of a screen's body, clipped to the viewport.
pub open spec fn body_spec(s: Screen, height: int) -> Seq<Seq<char>> {
    match s {
        Screen::Main(m) => clipped(m.items.deep_view(), body_capacity(height)),
        Screen::AllTodos(a) => clipped(
            a.items.deep_view().map_values(|t: TodoV| todo_line(t)),
            body_capacity(height),
        ),
        Screen::KeywordSearch(t) => clipped(
            t.items.deep_view().map_values(|t: TodoV| todo_line(t)),
            body_capacity(height),
        ),
        Screen::KeywordControl(k) => clipped(
            k.items.deep_view().map_values(|t: TodoV| todo_line(t)),
            body_capacity(height),
        ),
    }
}

/// The full rendering of a screen: headline, height-bounded body, footer.
/// Finite, and recomputed from scratch on every render.
pub open spec fn render_spec(s: Screen, height: int) -> Seq<Seq<char>> {
    seq![screen_headline_spec(s)] + body_spec(s, height) + seq![
        footer_line_spec(screen_footer_spec(s)),
    ]
}

fn take_text_lines(items: &Vec<String>, cap: usize) -> (r: Vec<String>)
    ensures
        r.deep_view() == clipped(items.deep_view(), cap as int),
{
    let n = if items.len() <= cap {
        items.len()
    } else {
        cap
    };
    let mut r: Vec<String> = Vec::new();
    let mut i: usize = 0;
    while i < n
        invariant
            n <= items@.len(),
            i <= n,
            r@.len() == i,
            forall|k: int| 0 <= k < i ==> r@[k] == items@[k],
        decreases n - i,
    {
        r.push(items[i].clone());
        i = i + 1;
    }
    proof {
        assert forall|k: int| 0 <= k < n implies r.deep_view()[k] == items.deep_view()[k] by {
            assert(r@[k] == items@[k]);
        }
        assert(r.deep_view() =~= clipped(items.deep_view(), cap as int));
    }
    r
}

fn take_todo_lines(items: &Vec<Todo>, cap: usize) -> (r: Vec<String>)
    ensures
        r.deep_view() == clipped(
            items.deep_view().map_values(|t: TodoV| todo_line(t)),
            cap as int,
        ),
{
    let n = if items.len() <= cap {
        items.len()
    } else {
        cap
    };
    let mut r: Vec<String> = Vec::new();
    let mut i: usize = 0;
    while i < n
        invariant
            n <= items@.len(),
            i <= n,
            r@.len() == i,
            forall|k: int| 0 <= k < i ==> (#[trigger] r@[k])@ == todo_line(items@[k]@),
        decreases n - i,
    {
        let line = print_todo(&items[i]);
        r.push(line);
        i = i + 1;
    }
    proof {
        let mapped = items.deep_view().map_values(|t: TodoV| todo_line(t));
        assert forall|k: int| 0 <= k < n implies r.deep_view()[k] == clipped(
            mapped,
            cap as int,
        )[k] by {
            assert(r@[k]@ == todo_line(items@[k]@));
            assert(items.deep_view()[k] == items@[k]@);
            assert(mapped[k] == todo_line(items.deep_view()[k]));
        }
        assert(r.deep_view() =~= clipped(mapped, cap as int));
    }
    r
}

/// Renders the active screen for a viewport of `height` lines: the
/// headline, as many items as fit, and the footer line. Pure: no
/// terminal state is touched; the dialog loop writes the lines out.
pub fn render_screen(screen: &Screen, height: usize) -> (r: Vec<String>)
    ensures
        r.deep_view() == render_spec(*screen, height as int),
{
    let cap: usize = if height >= 2 {
        height - 2
    } else {
        0
    };
    let mut out: Vec<String> = Vec::new();
    out.push(screen.headline());
    let mut body = match screen {
        Screen::Main(m) => take_text_lines(&m.items, cap),
        Screen::AllTodos(a) => take_todo_lines(&a.items, cap),
        Screen::KeywordSearch(t) => take_todo_lines(&t.items, cap),
        Screen::KeywordControl(k) => take_todo_lines(&k.items, cap),
    };
    out.append(&mut body);
    let opts = screen.get_footer_options();
    out.push(footer_line(&opts));
    proof {
        assert(out.deep_view() =~= render_spec(*screen, height as int));
    }
    out
}

// ---------------------------------------------------------------------------
// The dialog loop's decision step.
// ---------------------------------------------------------------------------
/// One step of the dialog loop: dispatch one keypress to the active
/// screen. A character that does not terminate the screen keeps it; one
/// that does invokes the screen's quit action, which may replace the
/// screen, restart the welcome flow, or end the dialog.
pub fn dialog_step(screen: Screen, c: char) -> (r: Transition)
    ensures
        !screen_quits(screen, c) ==> (r matches Transition::Continue(s2) && s2 == screen),
        screen_quits(screen, c) ==> match screen {
            Screen::Main(_) => r is Terminate,
            Screen::AllTodos(_) => r is Restart,
            Screen::KeywordSearch(t) => if c == ESCAPE_KEY {
                r matches Transition::Continue(s2) && s2 matches Screen::KeywordControl(ct)
                    && control_matches_search(ct, t)
            } else {
                r is Terminate
            },
            Screen::KeywordControl(_) => r is Terminate,
        },
{
    let quits = screen.char_match(c);
    if !quits {
        return Transition::Continue(screen);
    }
    match screen {
        Screen::Main(m) => m.on_quit(),
        Screen::AllTodos(a) => a.on_quit(),
        Screen::KeywordSearch(t) => t.on_quit(c),
        Screen::KeywordControl(k) => k.on_quit(),
    }
}

// ---------------------------------------------------------------------------
// Law of the end-to-end empty search.
// ---------------------------------------------------------------------------
/// LAW: an empty-keyword search over a project's annotations shows them
/// all, bounded only by the viewport: the filter flags nothing, the
/// search screen is seeded with the full list, and the rendered body
/// lists its annotations in order, one line each, up to the viewport's
/// body capacity.
pub proof fn lemma_empty_search_renders_all(
    all: Seq<Todo>,
    fm: FilterMatch,
    t: KeywordSearchTerm,
    height: int,
)
    requires
        fm.matched@ == matched_spec(all, None::<Seq<char>>),
        fm.unmatched@ == all,
        t.items@ == seed_items(fm),
    ensures
        t.items@ == all,
        render_spec(Screen::KeywordSearch(t), height).len() == 2 + body_spec(
            Screen::KeywordSearch(t),
            height,
        ).len(),
        body_spec(Screen::KeywordSearch(t), height).len() == if all.len() <= body_capacity(height) {
            all.len() as int
        } else {
            body_capacity(height)
        },
        forall|i: int| 0 <= i < body_spec(Screen::KeywordSearch(t), height).len() ==> render_spec(
            Screen::KeywordSearch(t),
            height,
        )[1 + i] == todo_line(all[i]@),
{
    assert(t.items@ == all);
    let mapped = t.items.deep_view().map_values(|td: TodoV| todo_line(td));
    assert(mapped.len() == all.len());
    assert forall|i: int|
        0 <= i < body_spec(Screen::KeywordSearch(t), height).len() implies render_spec(
        Screen::KeywordSearch(t),
        height,
    )[1 + i] == todo_line(all[i]@) by {
        assert(t.items.deep_view()[i] == t.items@[i]@);
        assert(mapped[i] == todo_line(t.items.deep_view()[i]));
    }
}

} // verus!
