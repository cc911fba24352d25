use vstd::prelude::*;

verus! {

/// A file discovered under the scan root. Identity is the path; a value is
/// immutable once constructed and is cloned into every annotation that the
/// extractor produces from it.
#[derive(Debug)]
pub struct SourceFile {
    pub name: String,
    pub path: String,
}

/// Mathematical image of a [`SourceFile`]: both fields as character sequences.
#[verifier::ext_equal]
pub ghost struct SourceFileV {
    pub name: Seq<char>,
    pub path: Seq<char>,
}

impl View for SourceFile {
    type V = SourceFileV;

    open spec fn view(&self) -> SourceFileV {
        SourceFileV { name: self.name@, path: self.path@ }
    }
}

impl DeepView for SourceFile {
    type V = SourceFileV;

    open spec fn deep_view(&self) -> SourceFileV {
        self@
    }
}

impl SourceFile {
    pub fn new(name: String, path: String) -> (r: SourceFile)
        ensures
            r@ == (SourceFileV { name: name@, path: path@ }),
    {
        SourceFile { name, path }
    }
}

impl Clone for SourceFile {
    fn clone(&self) -> (r: SourceFile)
        ensures
            r == *self,
    {
        SourceFile { name: self.name.clone(), path: self.path.clone() }
    }
}

impl PartialEq for SourceFile {
    fn eq(&self, other: &SourceFile) -> (r: bool) {
        self.name == other.name && self.path == other.path
    }
}

impl Eq for SourceFile {
}

impl vstd::std_specs::cmp::PartialEqSpecImpl for SourceFile {
    open spec fn obeys_eq_spec() -> bool {
        true
    }

    open spec fn eq_spec(&self, other: &SourceFile) -> bool {
        self@ == other@
    }
}

} // verus!
