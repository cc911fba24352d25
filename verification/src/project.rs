use vstd::prelude::*;

use crate::error::AppError;
use crate::todo::{clone_todos, Todo, TodoV};

verus! {

/// A project: a name and the full annotation collection of one scan of
/// its root directory. Staleness is only resolved by an explicit rescan.
#[derive(Debug)]
pub struct Project {
    pub name: String,
    pub todos: Vec<Todo>,
}

/// Mathematical image of a [`Project`].
#[verifier::ext_equal]
pub ghost struct ProjectV {
    pub name: Seq<char>,
    pub todos: Seq<TodoV>,
}

impl View for Project {
    type V = ProjectV;

    open spec fn view(&self) -> ProjectV {
        ProjectV { name: self.name@, todos: self.todos.deep_view() }
    }
}

impl DeepView for Project {
    type V = ProjectV;

    open spec fn deep_view(&self) -> ProjectV {
        self@
    }
}

impl Project {
    pub fn new(name: String, todos: Vec<Todo>) -> (r: Project)
        ensures
            r@ == (ProjectV { name: name@, todos: todos.deep_view() }),
    {
        Project { name, todos }
    }
}

impl Clone for Project {
    fn clone(&self) -> (r: Project)
        ensures
            r@ == self@,
    {
        Project { name: self.name.clone(), todos: clone_todos(&self.todos) }
    }
}

/// Compares two annotation lists by contents.
pub fn todos_eq(a: &Vec<Todo>, b: &Vec<Todo>) -> (r: bool)
    ensures
        r == (a.deep_view() == b.deep_view()),
{
    if a.len() != b.len() {
        assert(a.deep_view().len() != b.deep_view().len());
        return false;
    }
    let mut i: usize = 0;
    while i < a.len()
        invariant
            a@.len() == b@.len(),
            i <= a@.len(),
            forall|k: int| 0 <= k < i ==> a.deep_view()[k] == b.deep_view()[k],
        decreases a@.len() - i,
    {
        if !(a[i] == b[i]) {
            proof {
                assert(a.deep_view()[i as int] == a@[i as int]@);
                assert(b.deep_view()[i as int] == b@[i as int]@);
            }
            return false;
        }
        i = i + 1;
    }
    proof {
        assert(a.deep_view() =~= b.deep_view());
    }
    true
}

impl PartialEq for Project {
    fn eq(&self, other: &Project) -> (r: bool) {
        let names_eq = self.name == other.name;
        let todos_equal = todos_eq(&self.todos, &other.todos);
        names_eq && todos_equal
    }
}

impl Eq for Project {
}

impl vstd::std_specs::cmp::PartialEqSpecImpl for Project {
    open spec fn obeys_eq_spec() -> bool {
        true
    }

    open spec fn eq_spec(&self, other: &Project) -> bool {
        self@ == other@
    }
}

/// Yields the project for a directory, or `NotAProject` where the
/// directory is not a recognized project. Whether it is one (the project
/// file exists on disk) is the caller's finding; the scan data becomes
/// the project's annotation collection.
pub fn get_project(is_project: bool, name: String, todos: Vec<Todo>) -> (r: Result<
    Project,
    AppError,
>)
    ensures
        is_project <==> r is Ok,
        r matches Ok(p) ==> p@ == (ProjectV { name: name@, todos: todos.deep_view() }),
        r matches Err(e) ==> e == AppError::NotAProject,
{
    if is_project {
        Ok(Project::new(name, todos))
    } else {
        Err(AppError::NotAProject)
    }
}

} // verus!
