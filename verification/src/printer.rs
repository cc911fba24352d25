use vstd::prelude::*;

use crate::todo::{Todo, TodoV};

verus! {

/// The rendering strategies of the pagination printer: plain text lines,
/// or annotation records formatted one per line.
#[derive(Clone, Copy, Debug, PartialEq, Eq, Structural)]
pub enum Printer {
    Text,
    Todo,
}

/// A footer action affordance: the key to press and its label.
#[derive(Debug)]
pub struct FooterOption {
    pub key: String,
    pub label: String,
}

impl View for FooterOption {
    type V = (Seq<char>, Seq<char>);

    open spec fn view(&self) -> (Seq<char>, Seq<char>) {
        (self.key@, self.label@)
    }
}

impl DeepView for FooterOption {
    type V = (Seq<char>, Seq<char>);

    open spec fn deep_view(&self) -> (Seq<char>, Seq<char>) {
        self@
    }
}

impl FooterOption {
    pub fn new(key: &str, label: &str) -> (r: FooterOption)
        ensures
            r@ == (key@, label@),
    {
        FooterOption { key: String::from_str(key), label: String::from_str(label) }
    }
}

impl Clone for FooterOption {
    fn clone(&self) -> (r: FooterOption)
        ensures
            r@ == self@,
    {
        FooterOption { key: self.key.clone(), label: self.label.clone() }
    }
}

// ---------------------------------------------------------------------------
// Decimal numerals.
// ---------------------------------------------------------------------------
/// The decimal digit character of `d`.
pub open spec fn dec_digit(d: int) -> char {
    if d == 0 {
        '0'
    } else if d == 1 {
        '1'
    } else if d == 2 {
        '2'
    } else if d == 3 {
        '3'
    } else if d == 4 {
        '4'
    } else if d == 5 {
        '5'
    } else if d == 6 {
        '6'
    } else if d == 7 {
        '7'
    } else if d == 8 {
        '8'
    } else {
        '9'
    }
}

/// The decimal numeral of a non-negative integer.
pub open spec fn dec_str(n: int) -> Seq<char>
    decreases n,
{
    if n < 10 {
        seq![dec_digit(n)]
    } else {
        dec_str(n / 10) + seq![dec_digit(n % 10)]
    }
}

fn digit_str(d: usize) -> (r: &'static str)
    requires
        d < 10,
    ensures
        r@ == seq![dec_digit(d as int)],
{
    match d {
        0 => {
            proof {
                reveal_strlit("0");
                assert("0"@ =~= seq![dec_digit(0)]);
            }
            "0"
        },
        1 => {
            proof {
                reveal_strlit("1");
                assert("1"@ =~= seq![dec_digit(1)]);
            }
            "1"
        },
        2 => {
            proof {
                reveal_strlit("2");
                assert("2"@ =~= seq![dec_digit(2)]);
            }
            "2"
        },
        3 => {
            proof {
                reveal_strlit("3");
                assert("3"@ =~= seq![dec_digit(3)]);
            }
            "3"
        },
        4 => {
            proof {
                reveal_strlit("4");
                assert("4"@ =~= seq![dec_digit(4)]);
            }
            "4"
        },
        5 => {
            proof {
                reveal_strlit("5");
                assert("5"@ =~= seq![dec_digit(5)]);
            }
            "5"
        },
        6 => {
            proof {
                reveal_strlit("6");
                assert("6"@ =~= seq![dec_digit(6)]);
            }
            "6"
        },
        7 => {
            proof {
                reveal_strlit("7");
                assert("7"@ =~= seq![dec_digit(7)]);
            }
            "7"
        },
        8 => {
            proof {
                reveal_strlit("8");
                assert("8"@ =~= seq![dec_digit(8)]);
            }
            "8"
        },
        _ => {
            proof {
                reveal_strlit("9");
                assert("9"@ =~= seq![dec_digit(9)]);
            }
            "9"
        },
    }
}

/// Renders a number as its decimal numeral.
pub fn usize_to_string(n: usize) -> (r: String)
    ensures
        r@ == dec_str(n as int),
    decreases n,
{
    let d = n % 10;
    let q = n / 10;
    let ds = digit_str(d);
    if q == 0 {
        String::from_str(ds)
    } else {
        let front = usize_to_string(q);
        front.concat(ds)
    }
}

// ---------------------------------------------------------------------------
// Line rendering.
// ---------------------------------------------------------------------------
/// One annotation as a display line: the text, then the source name and
/// 1-based line number in parentheses.
pub open spec fn todo_line(t: TodoV) -> Seq<char> {
    t.text + seq![' ', '('] + t.source.name + seq![':'] + dec_str(t.line_number) + seq![')']
}

/// Formats one annotation for display.
pub fn print_todo(t: &Todo) -> (r: String)
    ensures
        r@ == todo_line(t@),
{
    let mut s = t.text.clone();
    s.append(" (");
    s.append(t.source.name.as_str());
    s.append(":");
    let num = usize_to_string(t.line_number);
    s.append(num.as_str());
    s.append(")");
    proof {
        reveal_strlit(" (");
        reveal_strlit(":");
        reveal_strlit(")");
        assert(s@ =~= todo_line(t@));
    }
    s
}

/// A footer option as display text: the bracketed key, then the label.
pub open spec fn footer_entry(key: Seq<char>, label: Seq<char>) -> Seq<char> {
    seq!['['] + key + seq![']', ' '] + label
}

/// The footer line: the options' display texts joined with ` | `.
pub open spec fn footer_line_spec(opts: Seq<(Seq<char>, Seq<char>)>) -> Seq<char>
    decreases opts.len(),
{
    if opts.len() == 0 {
        Seq::empty()
    } else if opts.len() == 1 {
        footer_entry(opts[0].0, opts[0].1)
    } else {
        footer_line_spec(opts.drop_last()) + seq![' ', '|', ' '] + footer_entry(
            opts.last().0,
            opts.last().1,
        )
    }
}

/// Builds the footer line from the screen's footer options.
pub fn footer_line(opts: &Vec<FooterOption>) -> (r: String)
    ensures
        r@ == footer_line_spec(opts.deep_view()),
{
    let mut s = String::new();
    let mut i: usize = 0;
    while i < opts.len()
        invariant
            i <= opts@.len(),
            s@ == footer_line_spec(opts.deep_view().take(i as int)),
        decreases opts@.len() - i,
    {
        if i > 0 {
            s.append(" | ");
        }
        s.append("[");
        s.append(opts[i].key.as_str());
        s.append("] ");
        s.append(opts[i].label.as_str());
        proof {
            reveal_strlit(" | ");
            reveal_strlit("[");
            reveal_strlit("] ");
            let ov = opts.deep_view();
            assert(ov.take(i + 1).drop_last() =~= ov.take(i as int));
            assert(ov.take(i + 1).last() == ov[i as int]);
            assert(s@ =~= footer_line_spec(ov.take(i + 1)));
        }
        i = i + 1;
    }
    proof {
        assert(opts.deep_view().take(opts.deep_view().len() as int) =~= opts.deep_view());
    }
    s
}

} // verus!
