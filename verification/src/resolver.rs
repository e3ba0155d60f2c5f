//! Where an executable is looked for.

use vstd::prelude::*;
use vstd::string::*;

verus! {

/// Whether `c` parts two entries of a search path. Both the POSIX and the
/// Windows separator are taken, whatever the platform.
pub open spec fn is_separator(c: char) -> bool {
    c == ':' || c == ';'
}

/// The index of the first separator in `text`, or its length if it has none.
pub open spec fn first_separator(text: Seq<char>) -> int
    decreases text.len(),
{
    if text.len() == 0 || is_separator(text[0]) {
        0
    } else {
        1 + first_separator(text.drop_first())
    }
}

/// The entries of a search path: the stretches between its separators, empty
/// ones included, in order.
pub open spec fn path_entries(text: Seq<char>) -> Seq<Seq<char>>
    decreases text.len(),
{
    let cut = first_separator(text);
    if 0 <= cut < text.len() {
        seq![text.subrange(0, cut)] + path_entries(text.subrange(cut + 1, text.len() as int))
    } else {
        seq![text]
    }
}

/// The first separator is where the text before it has none.
proof fn lemma_first_separator(text: Seq<char>, cut: int)
    requires
        0 <= cut <= text.len(),
        forall|i: int| 0 <= i < cut ==> !is_separator(#[trigger] text[i]),
        cut < text.len() ==> is_separator(text[cut]),
    ensures
        first_separator(text) == cut,
    decreases text.len(),
{
    if cut > 0 {
        let rest = text.drop_first();
        assert forall|i: int| 0 <= i < cut - 1 implies !is_separator(#[trigger] rest[i]) by {
            assert(rest[i] == text[i + 1]);
        }
        lemma_first_separator(rest, cut - 1);
    }
}

/// Splits a search path into its entries.
pub fn split_search_path(search_path: &str) -> (entries: Vec<String>)
    ensures
        entries.deep_view() == path_entries(search_path@),
{
    let mut entries: Vec<String> = Vec::new();
    let mut start: usize = 0;
    let mut at: usize = 0;
    let length = search_path.unicode_len();
    let ghost text = search_path@;
    assert(text.subrange(0, text.len() as int) == text);
    for c in it: search_path.chars()
        invariant
            it.seq() == text,
            text == search_path@,
            length == text.len(),
            at == it.index(),
            start <= at <= length,
            forall|i: int| start <= i < at ==> !is_separator(#[trigger] text[i]),
            path_entries(text) == entries.deep_view() + path_entries(text.subrange(start as int, length as int)),
    {
        if c == ':' || c == ';' {
            let entry = search_path.substring_char(start, at).to_owned();
            proof {
                let tail = text.subrange(start as int, length as int);
                assert forall|i: int| 0 <= i < at - start implies !is_separator(#[trigger] tail[i]) by {
                    assert(tail[i] == text[start + i]);
                }
                lemma_first_separator(tail, at - start);
                assert(tail.subrange(0, at - start) == entry@);
                assert(tail.subrange(at - start + 1, tail.len() as int) == text.subrange(at + 1, length as int));
                assert(entries.deep_view().push(entry@) + path_entries(text.subrange(at + 1, length as int))
                    == entries.deep_view() + path_entries(tail));
            }
            let ghost before = entries.deep_view();
            entries.push(entry);
            assert(entries.deep_view() == before.push(entry@));
            start = at + 1;
        }
        at = at + 1;
    }
    let entry = search_path.substring_char(start, length).to_owned();
    proof {
        let tail = text.subrange(start as int, length as int);
        assert forall|i: int| 0 <= i < tail.len() implies !is_separator(#[trigger] tail[i]) by {
            assert(tail[i] == text[start + i]);
        }
        lemma_first_separator(tail, tail.len() as int);
    }
    let ghost before = entries.deep_view();
    entries.push(entry);
    assert(entries.deep_view() == before.push(entry@));
    entries
}

/// The directories in which an executable is looked for, in order: the
/// entries of the search path, then the current directory.
pub open spec fn candidate_entries(search_path: Seq<char>, current_dir: Seq<char>) -> Seq<Seq<char>> {
    path_entries(search_path).push(current_dir)
}

/// Lists the directories to search. The list is never empty.
pub fn candidate_directories(search_path: &str, current_dir: &str) -> (directories: Vec<String>)
    ensures
        directories.deep_view() == candidate_entries(search_path@, current_dir@),
{
    let mut directories = split_search_path(search_path);
    let ghost before = directories.deep_view();
    directories.push(current_dir.to_owned());
    assert(directories.deep_view() == before.push(current_dir@));
    directories
}

/// The file that holds the executable `name`: on Windows the name with the
/// suffix `.exe`, elsewhere the name itself.
pub open spec fn file_name_of(name: Seq<char>, windows: bool) -> Seq<char> {
    if windows {
        name + ".exe"@
    } else {
        name
    }
}

/// Names the file that holds the executable `name`.
pub fn executable_file_name(name: &str, windows: bool) -> (file_name: String)
    ensures
        file_name@ == file_name_of(name@, windows),
{
    if windows {
        name.to_owned().concat(".exe")
    } else {
        name.to_owned()
    }
}

/// A place where an executable may be: a directory and a file name in it.
#[derive(Clone, Debug, PartialEq, Eq)]
pub struct ExecutableRef {
    pub directory: String,
    pub file_name: String,
}

/// An executable reference, as the text it holds.
pub struct ExecutableRefView {
    pub directory: Seq<char>,
    pub file_name: Seq<char>,
}

impl View for ExecutableRef {
    type V = ExecutableRefView;

    open spec fn view(&self) -> ExecutableRefView {
        ExecutableRefView { directory: self.directory@, file_name: self.file_name@ }
    }
}

/// A search for one file through a list of directories. The directories
/// before the cursor are known not to hold the file.
#[derive(Clone, Debug, PartialEq, Eq)]
pub struct Search {
    pub directories: Vec<String>,
    pub file_name: String,
    pub cursor: usize,
}

/// A search, as the text it holds.
pub struct SearchView {
    pub directories: Seq<Seq<char>>,
    pub file_name: Seq<char>,
    pub cursor: nat,
}

impl SearchView {
    /// Whether every directory has been tried.
    pub open spec fn is_exhausted(self) -> bool {
        self.cursor >= self.directories.len()
    }

    /// How many directories are still to be tried.
    pub open spec fn untried(self) -> nat {
        (self.directories.len() - self.cursor) as nat
    }

    /// The place in the directory at `index`.
    pub open spec fn place(self, index: int) -> ExecutableRefView {
        ExecutableRefView { directory: self.directories[index], file_name: self.file_name }
    }

    /// The place to try next.
    pub open spec fn candidate(self) -> ExecutableRefView
        recommends
            !self.is_exhausted(),
    {
        self.place(self.cursor as int)
    }

    /// The search after the candidate was found missing.
    pub open spec fn advanced(self) -> SearchView
        recommends
            !self.is_exhausted(),
    {
        SearchView { cursor: self.cursor + 1, ..self }
    }

    /// A fresh search for another file through the same directories.
    pub open spec fn retargeted(self, file_name: Seq<char>) -> SearchView {
        SearchView { directories: self.directories, file_name, cursor: 0 }
    }
}

/// Where a search ends when `present` tells which places hold the file: at
/// the first candidate that exists, or nowhere.
pub open spec fn resolution(search: SearchView, present: spec_fn(ExecutableRefView) -> bool) -> Option<
    ExecutableRefView,
>
    decreases search.untried(),
{
    if search.is_exhausted() {
        None
    } else if present(search.candidate()) {
        Some(search.candidate())
    } else {
        resolution(search.advanced(), present)
    }
}

/// A search resolves to the place in the first directory, in list order,
/// whose place exists, and to nothing if no directory has one.
pub proof fn lemma_resolution_is_first_match(
    search: SearchView,
    present: spec_fn(ExecutableRefView) -> bool,
)
    ensures
        match resolution(search, present) {
            Some(found) => exists|i: int|
                {
                    &&& search.cursor <= i < search.directories.len()
                    &&& found == #[trigger] search.place(i)
                    &&& present(found)
                    &&& forall|j: int| search.cursor <= j < i ==> !present(#[trigger] search.place(j))
                },
            None => forall|j: int|
                search.cursor <= j < search.directories.len() ==> !present(#[trigger] search.place(j)),
        },
    decreases search.untried(),
{
    if !search.is_exhausted() && !present(search.candidate()) {
        let rest = search.advanced();
        lemma_resolution_is_first_match(rest, present);
        assert forall|j: int| #![trigger search.place(j)] true implies search.place(j) == rest.place(j) by {}
        match resolution(rest, present) {
            Some(found) => {
                let i = choose|i: int|
                    {
                        &&& rest.cursor <= i < rest.directories.len()
                        &&& found == #[trigger] rest.place(i)
                        &&& present(found)
                        &&& forall|j: int| rest.cursor <= j < i ==> !present(#[trigger] rest.place(j))
                    };
                assert(found == search.place(i));
                assert forall|j: int| search.cursor <= j < i implies !present(#[trigger] search.place(j)) by {
                    if j > search.cursor {
                        assert(!present(rest.place(j)));
                    }
                }
            },
            None => {
                assert forall|j: int| search.cursor <= j < search.directories.len() implies !present(
                    #[trigger] search.place(j),
                ) by {
                    if j > search.cursor {
                        assert(!present(rest.place(j)));
                    }
                }
            },
        }
    } else if !search.is_exhausted() {
        assert(search.candidate() == search.place(search.cursor as int));
    }
}

impl View for Search {
    type V = SearchView;

    open spec fn view(&self) -> SearchView {
        SearchView {
            directories: self.directories.deep_view(),
            file_name: self.file_name@,
            cursor: self.cursor as nat,
        }
    }
}

impl Search {
    /// Starts a search at the first directory.
    pub fn new(directories: Vec<String>, file_name: String) -> (search: Search)
        ensures
            search@ == (SearchView {
                directories: directories.deep_view(),
                file_name: file_name@,
                cursor: 0,
            }),
    {
        Search { directories, file_name, cursor: 0 }
    }

    /// Tells whether every directory has been tried.
    pub fn is_exhausted(&self) -> (exhausted: bool)
        ensures
            exhausted == self@.is_exhausted(),
    {
        self.cursor >= self.directories.len()
    }

    /// The place to try next.
    pub fn candidate(&self) -> (place: ExecutableRef)
        requires
            !self@.is_exhausted(),
        ensures
            place@ == self@.candidate(),
    {
        ExecutableRef {
            directory: self.directories[self.cursor].clone(),
            file_name: self.file_name.clone(),
        }
    }

    /// Moves past a candidate that was found missing.
    pub fn advance(self) -> (search: Search)
        requires
            !self@.is_exhausted(),
        ensures
            search@ == self@.advanced(),
    {
        assert(self.cursor < self.directories.len());
        Search { directories: self.directories, file_name: self.file_name, cursor: self.cursor + 1 }
    }

    /// Starts over, looking for another file in the same directories.
    pub fn retarget(self, file_name: String) -> (search: Search)
        ensures
            search@ == self@.retargeted(file_name@),
    {
        Search { directories: self.directories, file_name, cursor: 0 }
    }
}

} // verus!
