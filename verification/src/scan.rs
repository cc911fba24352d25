use vstd::prelude::*;

use crate::error::AppError;
use crate::sourcefile::{SourceFile, SourceFileV};
use crate::todo::{Todo, TodoV};

verus! {

// ---------------------------------------------------------------------------
// The marker grammar.
//
// A marker is the keyword `todo` in any letter case, with the run of `o`s
// allowed to repeat (`todoo`, `TODOOO`), followed by an optional colon and
// one optional whitespace character; the rest of the line is the
// annotation text. Only the first marker of a line counts, since the text
// runs to the end of the line.
// ---------------------------------------------------------------------------
/// Case-insensitive comparison of `c` against a lower-case ASCII letter.
pub open spec fn ci_matches(c: char, lower: char) -> bool {
    c == lower || c as int + 32 == lower as int
}

/// The whitespace characters that may follow the marker keyword: the
/// Unicode white-space set.
pub open spec fn is_marker_space(c: char) -> bool {
    let x = c as int;
    (9 <= x && x <= 13) || x == 32 || x == 0x85 || x == 0xA0 || x == 0x1680 || (0x2000 <= x && x
        <= 0x200A) || x == 0x2028 || x == 0x2029 || x == 0x202F || x == 0x205F || x == 0x3000
}

/// The marker keyword starts at index `i`: case-insensitive `t`, `o`, `d`, `o`.
pub open spec fn marker_at(s: Seq<char>, i: int) -> bool {
    &&& 0 <= i
    &&& i + 4 <= s.len()
    &&& ci_matches(s[i], 't')
    &&& ci_matches(s[i + 1], 'o')
    &&& ci_matches(s[i + 2], 'd')
    &&& ci_matches(s[i + 3], 'o')
}

/// Index of the first marker occurrence at or after `i`, if any.
pub open spec fn first_marker_from(s: Seq<char>, i: int) -> Option<int>
    decreases s.len() - i,
{
    if i + 4 > s.len() {
        None::<int>
    } else if marker_at(s, i) {
        Some(i)
    } else {
        first_marker_from(s, i + 1)
    }
}

/// Index of the line's first marker occurrence, if any.
pub open spec fn first_marker(s: Seq<char>) -> Option<int> {
    first_marker_from(s, 0)
}

/// First index at or after `j` that does not continue a run of `o`s.
pub open spec fn skip_o_from(s: Seq<char>, j: int) -> int
    decreases s.len() - j,
{
    if 0 <= j < s.len() && (s[j] == 'o' || s[j] == 'O') {
        skip_o_from(s, j + 1)
    } else {
        j
    }
}

/// Where the annotation text begins for a marker starting at `i`: after
/// the greedy run of `o`s, one optional colon, and one optional
/// whitespace character.
pub open spec fn capture_start(s: Seq<char>, i: int) -> int {
    let j = skip_o_from(s, i + 4);
    let k = if j < s.len() && s[j] == ':' {
        j + 1
    } else {
        j
    };
    if k < s.len() && is_marker_space(s[k]) {
        k + 1
    } else {
        k
    }
}

/// The annotation text of a line: the remainder after its first marker,
/// or `None` when the line holds no marker. The remainder may be empty.
pub open spec fn line_capture(s: Seq<char>) -> Option<Seq<char>> {
    match first_marker(s) {
        Some(i) => Some(s.subrange(capture_start(s, i), s.len() as int)),
        None => None,
    }
}

// ---------------------------------------------------------------------------
// The per-line matcher.
// ---------------------------------------------------------------------------
fn is_o_char_at(line: &str, j: usize) -> (r: bool)
    requires
        j < line@.len(),
    ensures
        r == (line@[j as int] == 'o' || line@[j as int] == 'O'),
{
    let c = line.get_char(j);
    c == 'o' || c == 'O'
}

fn is_marker_space_exec(c: char) -> (r: bool)
    ensures
        r == is_marker_space(c),
{
    let x = c as u32;
    (9 <= x && x <= 13) || x == 32 || x == 0x85 || x == 0xA0 || x == 0x1680 || (0x2000 <= x && x
        <= 0x200A) || x == 0x2028 || x == 0x2029 || x == 0x202F || x == 0x205F || x == 0x3000
}

fn marker_at_exec(line: &str, n: usize, i: usize) -> (r: bool)
    requires
        n == line@.len(),
        i + 4 <= n,
    ensures
        r == marker_at(line@, i as int),
{
    let c0 = line.get_char(i);
    let c1 = line.get_char(i + 1);
    let c2 = line.get_char(i + 2);
    let c3 = line.get_char(i + 3);
    (c0 == 't' || c0 == 'T') && (c1 == 'o' || c1 == 'O') && (c2 == 'd' || c2 == 'D') && (c3 == 'o'
        || c3 == 'O')
}

/// Scans one line for the marker pattern and returns the annotation text
/// of its first marker, or `None` when the line holds no marker.
pub fn find_marker(line: &str) -> (r: Option<String>)
    ensures
        match r {
            Some(t) => line_capture(line@) == Some(t@),
            None => line_capture(line@) is None,
        },
{
    let n = line.unicode_len();
    if n < 4 {
        return None;
    }
    let mut i: usize = 0;
    while i <= n - 4
        invariant
            n == line@.len(),
            4 <= n,
            i <= n - 3,
            first_marker(line@) == first_marker_from(line@, i as int),
        decreases n - i,
    {
        if marker_at_exec(line, n, i) {
            let mut j: usize = i + 4;
            while j < n && is_o_char_at(line, j)
                invariant
                    n == line@.len(),
                    i + 4 <= j <= n,
                    skip_o_from(line@, (i + 4) as int) == skip_o_from(line@, j as int),
                decreases n - j,
            {
                j = j + 1;
            }
            let mut start = j;
            if start < n && line.get_char(start) == ':' {
                start = start + 1;
            }
            if start < n {
                let c = line.get_char(start);
                if is_marker_space_exec(c) {
                    start = start + 1;
                }
            }
            proof {
                assert(first_marker(line@) == Some(i as int));
                assert(capture_start(line@, i as int) == start as int);
            }
            let sub = line.substring_char(start, n);
            let text = String::from_str(sub);
            return Some(text);
        }
        i = i + 1;
    }
    None
}

// ---------------------------------------------------------------------------
// Extraction over file contents.
// ---------------------------------------------------------------------------
/// All annotations of one file's lines, first line first; a line with a
/// marker contributes one annotation carrying its 1-based line number.
pub open spec fn todos_of_content(lines: Seq<Seq<char>>, file: SourceFileV) -> Seq<TodoV>
    decreases lines.len(),
{
    if lines.len() == 0 {
        Seq::empty()
    } else {
        todos_of_content(lines.drop_last(), file) + match line_capture(lines.last()) {
            Some(t) => seq![
                (TodoV { text: t, source: file, line_number: lines.len() as int }),
            ],
            None => Seq::empty(),
        }
    }
}

/// Extracts every annotation from one file's lines, in line order.
pub fn extract_todos_from_content(lines: &Vec<String>, file: SourceFile) -> (r: Vec<Todo>)
    ensures
        r.deep_view() == todos_of_content(lines.deep_view(), file@),
{
    let mut todos: Vec<Todo> = Vec::new();
    let mut lnr: usize = 0;
    while lnr < lines.len()
        invariant
            lnr <= lines.len(),
            todos.deep_view() == todos_of_content(lines.deep_view().take(lnr as int), file@),
        decreases lines.len() - lnr,
    {
        match find_marker(lines[lnr].as_str()) {
            Some(text) => {
                let found_todo = Todo::new(text, file.clone(), lnr + 1);
                todos.push(found_todo);
            },
            None => {},
        }
        proof {
            let lv = lines.deep_view();
            assert(lv.take(lnr + 1).drop_last() =~= lv.take(lnr as int));
            assert(lv.take(lnr + 1).last() == lv[lnr as int]);
            assert(todos.deep_view() =~= todos_of_content(lv.take(lnr + 1), file@));
        }
        lnr = lnr + 1;
    }
    proof {
        assert(lines.deep_view().take(lines.deep_view().len() as int) =~= lines.deep_view());
    }
    todos
}

/// Is every file's content readable?
pub open spec fn all_readable(files: Seq<(SourceFile, Result<Vec<String>, AppError>)>) -> bool {
    forall|k: int| 0 <= k < files.len() ==> (#[trigger] files[k].1) is Ok
}

/// The concatenated annotations of the readable files, in catalog order.
pub open spec fn todos_of_files(files: Seq<(SourceFile, Result<Vec<String>, AppError>)>) -> Seq<
    TodoV,
>
    decreases files.len(),
{
    if files.len() == 0 {
        Seq::empty()
    } else {
        todos_of_files(files.drop_last()) + match files.last().1 {
            Ok(content) => todos_of_content(content.deep_view(), files.last().0@),
            Err(_) => Seq::empty(),
        }
    }
}

/// Global extraction: a left-to-right fold over the catalog, concatenating
/// each file's annotations, that short-circuits on the first unreadable
/// file. Each entry pairs a file with its content as read, or with the
/// error that reading it produced.
pub fn extract_todos_from_files(files: Vec<(SourceFile, Result<Vec<String>, AppError>)>) -> (r:
    Result<Vec<Todo>, AppError>)
    ensures
        r is Ok <==> all_readable(files@),
        r matches Ok(todos) ==> todos.deep_view() == todos_of_files(files@),
        r matches Err(e) ==> exists|k: int|
            0 <= k < files@.len() && #[trigger] files@[k].1 == Err::<Vec<String>, AppError>(e)
                && forall|j: int| 0 <= j < k ==> (#[trigger] files@[j].1) is Ok,
{
    let mut todos: Vec<Todo> = Vec::new();
    let mut idx: usize = 0;
    while idx < files.len()
        invariant
            idx <= files@.len(),
            forall|j: int| 0 <= j < idx ==> (#[trigger] files@[j].1) is Ok,
            todos.deep_view() == todos_of_files(files@.take(idx as int)),
        decreases files@.len() - idx,
    {
        let pair = &files[idx];
        match &pair.1 {
            Ok(content) => {
                let file = pair.0.clone();
                let mut file_todos = extract_todos_from_content(content, file);
                todos.append(&mut file_todos);
            },
            Err(e) => {
                let err = *e;
                proof {
                    assert(files@[idx as int].1 == Err::<Vec<String>, AppError>(err));
                }
                return Err(err);
            },
        }
        proof {
            let fv = files@;
            assert(fv.take(idx + 1).drop_last() =~= fv.take(idx as int));
            assert(fv.take(idx + 1).last() == fv[idx as int]);
            assert(todos.deep_view() =~= todos_of_files(fv.take(idx + 1)));
        }
        idx = idx + 1;
    }
    proof {
        assert(files@.take(files@.len() as int) =~= files@);
    }
    Ok(todos)
}

// ---------------------------------------------------------------------------
// Laws of extraction.
// ---------------------------------------------------------------------------
/// LAW: a content none of whose lines holds a marker yields no annotations.
pub proof fn lemma_no_match(lines: Seq<Seq<char>>, file: SourceFileV)
    requires
        forall|j: int| 0 <= j < lines.len() ==> line_capture(#[trigger] lines[j]) is None,
    ensures
        todos_of_content(lines, file) =~= Seq::<TodoV>::empty(),
    decreases lines.len(),
{
    if lines.len() > 0 {
        assert(forall|j: int|
            0 <= j < lines.drop_last().len() ==> line_capture(
                #[trigger] lines.drop_last()[j],
            ) is None);
        lemma_no_match(lines.drop_last(), file);
    }
}

/// LAW: a content with exactly one marker-matching line, at index `m`,
/// yields exactly one annotation, whose text is that line's captured
/// remainder and whose line number is the 1-based `m + 1`. In particular
/// a one-line file whose line matches yields one annotation at line 1.
pub proof fn lemma_single_match(lines: Seq<Seq<char>>, file: SourceFileV, m: int)
    requires
        0 <= m < lines.len(),
        line_capture(lines[m]) is Some,
        forall|j: int| 0 <= j < lines.len() && j != m ==> line_capture(#[trigger] lines[j]) is None,
    ensures
        todos_of_content(lines, file) =~= seq![
            (TodoV { text: line_capture(lines[m])->0, source: file, line_number: m + 1 }),
        ],
    decreases lines.len(),
{
    if m + 1 == lines.len() {
        assert(forall|j: int|
            0 <= j < lines.drop_last().len() ==> line_capture(
                #[trigger] lines.drop_last()[j],
            ) is None);
        lemma_no_match(lines.drop_last(), file);
        assert(lines.last() == lines[m]);
    } else {
        assert(forall|j: int|
            0 <= j < lines.drop_last().len() && j != m ==> line_capture(
                #[trigger] lines.drop_last()[j],
            ) is None);
        assert(lines.drop_last()[m] == lines[m]);
        lemma_single_match(lines.drop_last(), file, m);
        assert(line_capture(lines.last()) is None);
    }
}

/// LAW: a one-line content whose line matches yields exactly one
/// annotation, at line number 1, with the captured remainder as text.
pub proof fn lemma_single_line_extraction(line: Seq<char>, file: SourceFileV)
    requires
        line_capture(line) is Some,
    ensures
        todos_of_content(seq![line], file) =~= seq![
            (TodoV { text: line_capture(line)->0, source: file, line_number: 1 }),
        ],
{
    lemma_single_match(seq![line], file, 0);
}

// ---------------------------------------------------------------------------
// Source catalog discovery.
// ---------------------------------------------------------------------------
/// glob's pattern-parse error, carried opaquely so that the discovery
/// wrapper can surface it; verified code only maps it to `AppError`.
#[verifier::external_type_specification]
#[verifier::external_body]
pub struct ExPatternError(glob::PatternError);

/// Whether the glob pattern's syntax is accepted: a function of the
/// pattern text alone — the walk's entries depend on the disk, but its
/// success does not.
pub uninterp spec fn glob_pattern_ok(pat: Seq<char>) -> bool;

/// Relies on glob::glob_with: walks the filesystem for the paths matching
/// `dir` (matching case-insensitively, without requiring a literal leading
/// dot), yielding for each match its file name and its full path as UTF-8
/// strings where those exist, and `None` where they do not. Whether the
/// pattern parses — and so whether the walk starts at all — depends on
/// the pattern text alone; what the walk then yields depends on the
/// disk, so nothing is promised of the entries.
#[verifier::external_body]
fn get_paths_from_dir(dir: &str) -> (r: Result<Vec<(Option<String>, Option<String>)>, glob::PatternError>)
    ensures
        r is Ok <==> glob_pattern_ok(dir@),
{
    let options = glob::MatchOptions {
        case_sensitive: false, require_literal_separator: false, require_literal_leading_dot: false,
    };
    match glob::glob_with(dir, options) {
        Ok(paths) => Ok(paths.map(|g| match g {
            Ok(p) => (p.file_name().and_then(|s| s.to_str()).map(String::from), p.to_str().map(String::from)),
            Err(_) => (None, None),
        }).collect()),
        Err(e) => Err(e),
    }
}

/// The file records among the walk entries: exactly those entries that
/// carry both a name and a path, in walk order; the rest are dropped.
pub open spec fn files_of_entries(es: Seq<(Option<Seq<char>>, Option<Seq<char>>)>) -> Seq<
    SourceFileV,
>
    decreases es.len(),
{
    if es.len() == 0 {
        Seq::empty()
    } else {
        files_of_entries(es.drop_last()) + if es.last().0 is Some && es.last().1 is Some {
            seq![(SourceFileV { name: es.last().0->0, path: es.last().1->0 })]
        } else {
            Seq::empty()
        }
    }
}

/// Builds the source file records from the walk entries: exactly the
/// entries with both a resolvable name and a UTF-8 path survive, in
/// order; the others are silently dropped, as documented.
pub fn build_file_from_path(paths: Vec<(Option<String>, Option<String>)>) -> (r: Vec<SourceFile>)
    ensures
        r.deep_view() == files_of_entries(paths.deep_view()),
{
    let mut files: Vec<SourceFile> = Vec::new();
    let mut idx: usize = 0;
    while idx < paths.len()
        invariant
            idx <= paths@.len(),
            files.deep_view() == files_of_entries(paths.deep_view().take(idx as int)),
        decreases paths@.len() - idx,
    {
        let entry = &paths[idx];
        match (&entry.0, &entry.1) {
            (Some(name), Some(full_path)) => {
                files.push(SourceFile::new(name.clone(), full_path.clone()));
            },
            _ => {},
        }
        proof {
            let pv = paths.deep_view();
            assert(pv.take(idx + 1).drop_last() =~= pv.take(idx as int));
            assert(pv.take(idx + 1).last() == pv[idx as int]);
            assert(files.deep_view() =~= files_of_entries(pv.take(idx + 1)));
        }
        idx = idx + 1;
    }
    proof {
        assert(paths.deep_view().take(paths.deep_view().len() as int) =~= paths.deep_view());
    }
    files
}

/// Source catalog discovery: walks the glob and builds the file records.
/// It succeeds exactly on well-formed patterns; a malformed one is
/// surfaced as `AppError::Pattern`. Which paths the walk yields is the
/// disk's answer, and what becomes of every entry is pinned by
/// `build_file_from_path`.
pub fn discover(dir: &str) -> (r: Result<Vec<SourceFile>, AppError>)
    ensures
        r is Ok <==> glob_pattern_ok(dir@),
        r matches Err(e) ==> e == AppError::Pattern,
{
    match get_paths_from_dir(dir) {
        Ok(entries) => Ok(build_file_from_path(entries)),
        Err(_) => Err(AppError::Pattern),
    }
}

} // verus!
