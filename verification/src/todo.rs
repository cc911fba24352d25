use vstd::prelude::*;

use crate::sourcefile::{SourceFile, SourceFileV};

verus! {

/// One extracted marker annotation: the captured text, the file it came
/// from (a back-reference by value, never shared), and its 1-based line
/// number. Immutable once created; equality is structural.
#[derive(Debug)]
pub struct Todo {
    pub text: String,
    pub source: SourceFile,
    pub line_number: usize,
}

/// Mathematical image of a [`Todo`].
#[verifier::ext_equal]
pub ghost struct TodoV {
    pub text: Seq<char>,
    pub source: SourceFileV,
    pub line_number: int,
}

impl View for Todo {
    type V = TodoV;

    open spec fn view(&self) -> TodoV {
        TodoV { text: self.text@, source: self.source@, line_number: self.line_number as int }
    }
}

impl DeepView for Todo {
    type V = TodoV;

    open spec fn deep_view(&self) -> TodoV {
        self@
    }
}

impl Todo {
    pub fn new(text: String, source: SourceFile, line_number: usize) -> (r: Todo)
        ensures
            r@ == (TodoV { text: text@, source: source@, line_number: line_number as int }),
    {
        Todo { text, source, line_number }
    }
}

impl Clone for Todo {
    fn clone(&self) -> (r: Todo)
        ensures
            r == *self,
    {
        Todo {
            text: self.text.clone(),
            source: self.source.clone(),
            line_number: self.line_number,
        }
    }
}

impl PartialEq for Todo {
    fn eq(&self, other: &Todo) -> (r: bool) {
        self.text == other.text && self.source == other.source && self.line_number
            == other.line_number
    }
}

impl Eq for Todo {
}

impl vstd::std_specs::cmp::PartialEqSpecImpl for Todo {
    open spec fn obeys_eq_spec() -> bool {
        true
    }

    open spec fn eq_spec(&self, other: &Todo) -> bool {
        self@ == other@
    }
}

/// Clones a list of annotations element by element; the copy's contents
/// equal the source list's.
pub fn clone_todos(v: &Vec<Todo>) -> (r: Vec<Todo>)
    ensures
        r@ == v@,
{
    let mut r: Vec<Todo> = Vec::new();
    let mut i: usize = 0;
    while i < v.len()
        invariant
            i <= v.len(),
            r@ == v@.take(i as int),
        decreases v.len() - i,
    {
        r.push(v[i].clone());
        proof {
            assert(r@ =~= v@.take(i + 1 as int));
        }
        i = i + 1;
    }
    proof {
        assert(v@.take(v@.len() as int) =~= v@);
    }
    r
}

} // verus!
