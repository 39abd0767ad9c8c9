use crate::listing::{copy_chars, entries_view, Entry, EntryKind, EntryView};
use crate::paths::{dir_prefix, join, join_spec, sibling};
use vstd::prelude::*;

verus! {

/// The kind of a failed filesystem operation.
#[derive(Clone, Copy, Debug, PartialEq, Eq, Structural)]
pub enum ErrorKind {
    NotFound,
    PermissionDenied,
    AlreadyExists,
    IsADirectory,
    Unsupported,
    InvalidInput,
    DecryptionFailed,
    Other,
}

/// A failed operation, as shown in the status area.
#[derive(Debug)]
pub struct FsError {
    pub kind: ErrorKind,
    pub message: Vec<char>,
}

/// What the caller reads from the filesystem to fill the preview pane.
#[derive(Debug)]
pub enum Load {
    Nothing,
    /// List this directory and hand the listing to `next_dir_fn`.
    Listing(Vec<char>),
    /// Read this file and hand its text to `read_file`.
    Content(Vec<char>),
    /// Compute this entry's badge and hand it to `set_permission`.
    Badge(Vec<char>),
}

/// Whether `r` asks for the preview of entry `e`, or for nothing where there is
/// no entry.
pub open spec fn load_for(r: Load, e: Option<EntryView>) -> bool {
    match e {
        None => r is Nothing,
        Some(e) => match e.kind {
            EntryKind::Dir => r matches Load::Listing(p) && p@ == e.path,
            EntryKind::File => r matches Load::Content(p) && p@ == e.path,
            EntryKind::Other => r matches Load::Badge(p) && p@ == e.path,
        },
    }
}

/// The selection after entering a directory of `len` entries at `index`
/// (the first entry by default), clamped to the last entry; none in an empty
/// directory.
pub open spec fn selection_after(len: nat, index: Option<usize>) -> Option<nat> {
    if len == 0 {
        None
    } else {
        let i: nat = match index {
            Some(i) => i as nat,
            None => 0,
        };
        if i < len {
            Some(i)
        } else {
            Some((len - 1) as nat)
        }
    }
}

pub open spec fn as_nat(o: Option<usize>) -> Option<nat> {
    match o {
        Some(i) => Some(i as nat),
        None => None,
    }
}

/// Where the selection goes on one step.
#[derive(Clone, Copy, Debug, PartialEq, Eq, Structural)]
pub enum Step {
    Next,
    Previous,
}

/// The selected index after one step in a listing of `len` entries: clamped at
/// both ends, no wrap.
pub open spec fn step_spec(i: nat, len: nat, s: Step) -> nat {
    match s {
        Step::Next => if i + 1 < len {
            i + 1
        } else {
            i
        },
        Step::Previous => if i > 0 {
            (i - 1) as nat
        } else {
            i
        },
    }
}

/// The index to re-enter at after deleting the entry at `i`.
pub open spec fn after_delete(i: nat) -> nat {
    if i == 0 {
        0
    } else {
        (i - 1) as nat
    }
}

/// The number of lines of a text, as `str::lines` counts them: a final line
/// break ends the last line and does not open another.
pub open spec fn count_lines(s: Seq<char>) -> nat
    decreases s.len(),
{
    if s.len() == 0 {
        0
    } else {
        count_lines(s.drop_last()) + if s.len() >= 2 && s[s.len() - 2] != '\n' {
            0nat
        } else {
            1nat
        }
    }
}

/// The number of lines of a text.
pub fn line_total(s: &Vec<char>) -> (r: usize)
    ensures
        r == count_lines(s@),
{
    let mut n: usize = 0;
    let mut i: usize = 0;
    assert(s@.subrange(0, 0) =~= Seq::<char>::empty());
    while i < s.len()
        invariant
            i <= s@.len(),
            n == count_lines(s@.subrange(0, i as int)),
            n <= i,
        decreases s@.len() - i,
    {
        let ghost pre = s@.subrange(0, i + 1);
        assert(pre.drop_last() =~= s@.subrange(0, i as int));
        if !(i >= 1 && s[i - 1] != '\n') {
            n = n + 1;
        }
        i += 1;
    }
    assert(s@.subrange(0, s@.len() as int) =~= s@);
    n
}

/// The browser's view of the filesystem: the current directory and its
/// listing, the selection, the parent and preview panes, and the last error.
#[derive(Debug)]
pub struct FileStruct {
    pub pwd: Vec<char>,
    pub parent: Option<Vec<char>>,
    pub next: Vec<char>,
    pub current_path: Option<Vec<char>>,
    pub line_count: usize,
    pub current_dir: Vec<Entry>,
    pub current_state: Option<usize>,
    pub parent_dir: Vec<Entry>,
    pub parent_state: Option<usize>,
    pub next_dir: Vec<Entry>,
    pub error: Option<FsError>,
    pub content: Vec<char>,
    pub permission: Vec<char>,
}

/// How one step of the selection changes the state: the selection moves one
/// entry, clamped at both ends, and the last error is cleared. Where the
/// selection moved, the preview is cleared and `r` asks for the new one;
/// otherwise `r` asks for nothing.
pub open spec fn move_post(o: FileStruct, n: FileStruct, step: Step, r: Load) -> bool {
    &&& n.error is None
    &&& n.current_dir == o.current_dir
    &&& n.pwd == o.pwd
    &&& n.parent == o.parent
    &&& n.parent_state == o.parent_state
    &&& n.parent_dir == o.parent_dir
    &&& (n.current_state is Some == o.current_state is Some)
    &&& (o.current_state matches Some(i) ==> n.current_state == Some(
        step_spec(i as nat, o.current_dir@.len(), step) as usize,
    ))
    &&& (n.current_state == o.current_state ==> r is Nothing)
    &&& (n.current_state != o.current_state ==> load_for(r, n.selected_spec())
        && n.content@.len() == 0 && n.next_dir@.len() == 0)
}

impl FileStruct {
    /// The selected entry, if any.
    pub open spec fn selected_spec(&self) -> Option<EntryView> {
        match self.current_state {
            Some(i) => Some(self.current_dir@[i as int]@),
            None => None,
        }
    }

    pub open spec fn wf(&self) -> bool {
        &&& (self.current_state is None <==> self.current_dir@.len() == 0)
        &&& (self.current_state matches Some(i) ==> (i < self.current_dir@.len() && (
        self.current_path matches Some(p) && p@ == self.current_dir@[i as int].path@)))
        &&& (self.current_state is None ==> self.current_path is None)
        &&& (self.parent_state matches Some(j) ==> j < self.parent_dir@.len()
            && self.parent_dir@[j as int].path@ == self.pwd@)
        &&& !(self.next_dir@.len() > 0 && self.content@.len() > 0)
    }

    /// A state with nothing entered yet.
    pub fn new() -> (r: FileStruct)
        ensures
            r.wf(),
            r.current_dir@.len() == 0,
            r.error is None,
    {
        FileStruct {
            pwd: Vec::new(),
            parent: None,
            next: Vec::new(),
            current_path: None,
            line_count: 0,
            current_dir: Vec::new(),
            current_state: None,
            parent_dir: Vec::new(),
            parent_state: None,
            next_dir: Vec::new(),
            error: None,
            content: Vec::new(),
            permission: Vec::new(),
        }
    }

    /// The first index of `pwd` in the parent listing.
    fn position_in(list: &Vec<Entry>, pwd: &Vec<char>) -> (r: Option<usize>)
        ensures
            r matches Some(j) ==> (j < list@.len() && list@[j as int].path@ == pwd@ && forall|k: int|
                0 <= k < j ==> list@[k].path@ != pwd@),
            r is None ==> forall|k: int| 0 <= k < list@.len() ==> list@[k].path@ != pwd@,
    {
        let mut k: usize = 0;
        while k < list.len()
            invariant
                k <= list@.len(),
                forall|m: int| 0 <= m < k ==> list@[m].path@ != pwd@,
            decreases list@.len() - k,
        {
            if crate::paths::same_chars(&list[k].path, pwd) {
                return Some(k);
            }
            k += 1;
        }
        None
    }

    /// Enters directory `pwd` (already made absolute), whose listing is `files`
    /// and whose parent `parent` lists as `parent_files`. Selects `index`, the
    /// first entry by default, clamped to the last, or nothing in an empty
    /// directory; points the parent pane at `pwd`; clears the preview and
    /// returns what to read to fill it.
    pub fn present_dir_fn(
        &mut self,
        pwd: Vec<char>,
        parent: Option<Vec<char>>,
        files: Vec<Entry>,
        parent_files: Vec<Entry>,
        index: Option<usize>,
    ) -> (r: Load)
        ensures
            final(self).wf(),
            final(self).pwd@ == pwd@,
            final(self).parent == parent,
            final(self).current_dir == files,
            final(self).parent_dir == parent_files,
            as_nat(final(self).current_state) == selection_after(
                files@.len(),
                index,
            ),
            final(self).parent_state matches Some(j) ==> forall|k: int|
                0 <= k < j ==> parent_files@[k].path@ != pwd@,
            final(self).parent_state is None ==> forall|k: int|
                0 <= k < parent_files@.len() ==> parent_files@[k].path@ != pwd@,
            final(self).error == old(self).error,
            final(self).next_dir@.len() == 0,
            final(self).content@.len() == 0,
            final(self).line_count == 0,
            load_for(r, final(self).selected_spec()),
    {
        let parent_state = FileStruct::position_in(&parent_files, &pwd);
        self.pwd = pwd;
        self.parent = parent;
        self.parent_dir = parent_files;
        self.parent_state = parent_state;
        self.next_dir = Vec::new();
        self.content = Vec::new();
        self.line_count = 0;
        let n = files.len();
        if n == 0 {
            self.current_state = None;
            self.current_path = None;
            self.current_dir = files;
            return Load::Nothing;
        }
        let mut i: usize = match index {
            Some(i) => i,
            None => 0,
        };
        if i >= n {
            i = n - 1;
        }
        let path = copy_chars(&files[i].path);
        let load_path = copy_chars(&files[i].path);
        let kind = files[i].kind;
        self.current_state = Some(i);
        self.current_path = Some(path);
        self.current_dir = files;
        match kind {
            EntryKind::Dir => Load::Listing(load_path),
            EntryKind::File => Load::Content(load_path),
            EntryKind::Other => Load::Badge(load_path),
        }
    }

    /// Moves the selection one step, clamped at both ends; clears the last
    /// error. Where the selection moved, clears the preview and returns what to
    /// read to fill it; otherwise returns `Load::Nothing`.
    pub fn move_selection(&mut self, step: Step) -> (r: Load)
        requires
            old(self).wf(),
        ensures
            final(self).wf(),
            move_post(*old(self), *final(self), step, r),
    {
        self.error = None;
        match self.current_state {
            None => Load::Nothing,
            Some(i) => {
                let n = self.current_dir.len();
                let j: usize = match step {
                    Step::Next => if i + 1 < n {
                        i + 1
                    } else {
                        i
                    },
                    Step::Previous => if i > 0 {
                        i - 1
                    } else {
                        i
                    },
                };
                if j == i {
                    return Load::Nothing;
                }
                self.current_state = Some(j);
                self.current_path = Some(copy_chars(&self.current_dir[j].path));
                self.content = Vec::new();
                self.next_dir = Vec::new();
                self.line_count = 0;
                let p = copy_chars(&self.current_dir[j].path);
                match self.current_dir[j].kind {
                    EntryKind::Dir => Load::Listing(p),
                    EntryKind::File => Load::Content(p),
                    EntryKind::Other => Load::Badge(p),
                }
            },
        }
    }

    /// Fills the preview pane with the listing of directory `path`.
    pub fn next_dir_fn(&mut self, path: Vec<char>, files: Vec<Entry>)
        requires
            old(self).wf(),
        ensures
            final(self).wf(),
            final(self).next == path,
            final(self).next_dir == files,
            final(self).content@.len() == 0,
            final(self).line_count == 0,
            final(self).current_dir == old(self).current_dir,
            final(self).current_state == old(self).current_state,
            final(self).error == old(self).error,
    {
        self.next = path;
        self.next_dir = files;
        self.content = Vec::new();
        self.line_count = 0;
    }

    /// Fills the preview pane with a file's text, or where reading it failed,
    /// records the error and leaves the preview empty.
    pub fn read_file(&mut self, text: Result<Vec<char>, FsError>)
        requires
            old(self).wf(),
        ensures
            final(self).wf(),
            final(self).next_dir@.len() == 0,
            final(self).current_dir == old(self).current_dir,
            final(self).current_state == old(self).current_state,
            match text {
                Ok(t) => final(self).content == t && final(self).line_count == count_lines(t@)
                    && final(self).error == old(self).error,
                Err(e) => final(self).content@.len() == 0 && final(self).line_count == 0
                    && final(self).error == Some(e),
            },
    {
        self.next_dir = Vec::new();
        match text {
            Ok(t) => {
                self.line_count = line_total(&t);
                self.content = t;
            },
            Err(e) => {
                self.content = Vec::new();
                self.line_count = 0;
                self.error = Some(e);
            },
        }
    }

    /// Sets the badge of the selected entry.
    pub fn set_permission(&mut self, badge: Vec<char>)
        requires
            old(self).wf(),
        ensures
            final(self).wf(),
            final(self).permission == badge,
            final(self).current_dir == old(self).current_dir,
            final(self).current_state == old(self).current_state,
            final(self).error == old(self).error,
    {
        self.permission = badge;
    }

    /// Records a failure as the last error.
    pub fn set_error(&mut self, e: FsError)
        requires
            old(self).wf(),
        ensures
            final(self).wf(),
            *final(self) == (FileStruct { error: Some(e), ..*old(self) }),
    {
        self.error = Some(e);
    }

    /// The selected entry's path and kind, if there is a selection.
    pub fn selected(&self) -> (r: Option<&Entry>)
        requires
            self.wf(),
        ensures
            r matches Some(e) ==> self.selected_spec() == Some(e@),
            r is None ==> self.selected_spec() is None,
    {
        match self.current_state {
            Some(i) => Some(&self.current_dir[i]),
            None => None,
        }
    }

    /// The directory to enter on descending: the selection, where it is a
    /// directory.
    pub fn descend(&self) -> (r: Option<Vec<char>>)
        requires
            self.wf(),
        ensures
            r is Some <==> (self.selected_spec() matches Some(e) && (e.kind == EntryKind::Dir)),
            r matches Some(p) ==> self.selected_spec().unwrap().path == p@,
    {
        match self.current_state {
            Some(i) => if self.current_dir[i].kind == EntryKind::Dir {
                Some(copy_chars(&self.current_dir[i].path))
            } else {
                None
            },
            None => None,
        }
    }

    /// The directory to enter on ascending and the index to select there (the
    /// entry of the directory left), where there is a parent.
    pub fn ascend(&self) -> (r: Option<(Vec<char>, usize)>)
        ensures
            r is Some <==> (self.parent is Some && self.parent_state is Some),
            r matches Some((p, j)) ==> p@ == self.parent.unwrap()@ && Some(j)
                == self.parent_state,
    {
        match (&self.parent, self.parent_state) {
            (Some(p), Some(j)) => Some((copy_chars(p), j)),
            _ => None,
        }
    }

    /// The index to re-enter the current directory at after a change to it:
    /// the selection, or the first entry.
    pub fn refresh_index(&self) -> (r: usize)
        ensures
            self.current_state matches Some(i) ==> r == i,
            self.current_state is None ==> r == 0,
    {
        match self.current_state {
            Some(i) => i,
            None => 0,
        }
    }

    /// The old and new paths for renaming the selection to `new_name` in its
    /// own directory.
    pub fn rename(&self, new_name: &Vec<char>) -> (r: Option<(Vec<char>, Vec<char>)>)
        ensures
            r is Some <==> self.current_path is Some,
            r matches Some((from, to)) ==> from@ == self.current_path.unwrap()@ && to@
                == dir_prefix(from@) + new_name@,
    {
        match &self.current_path {
            Some(p) => Some((copy_chars(p), sibling(p, new_name))),
            None => None,
        }
    }

    /// The path of a new file `name` in the current directory.
    pub fn create_file(&self, name: &Vec<char>) -> (r: Vec<char>)
        ensures
            r@ == join_spec(self.pwd@, name@),
    {
        join(&self.pwd, name)
    }

    /// The selected entry to delete and the index to re-enter the current
    /// directory at once it is gone: the one before it, or the first.
    pub fn delete(&self) -> (r: Option<(Entry, usize)>)
        requires
            self.wf(),
        ensures
            r is Some <==> self.current_state is Some,
            r matches Some((e, k)) ==> Some(e@) == self.selected_spec() && k as nat
                == after_delete(self.current_state.unwrap() as nat),
    {
        match self.current_state {
            Some(i) => {
                let k = if i == 0 {
                    0
                } else {
                    i - 1
                };
                Some((self.current_dir[i].duplicate(), k))
            },
            None => None,
        }
    }

    /// The path of the selected entry, to read or write, or an error where
    /// nothing is selected.
    pub fn file_read(&self) -> (r: Result<Vec<char>, FsError>)
        ensures
            r is Ok <==> self.current_path is Some,
            r matches Ok(p) ==> p@ == self.current_path.unwrap()@,
            r matches Err(e) ==> e.kind == ErrorKind::Unsupported,
    {
        match &self.current_path {
            Some(p) => Ok(copy_chars(p)),
            None => Err(FsError { kind: ErrorKind::Unsupported, message: Vec::new() }),
        }
    }
}

/// Entering a directory with no index selects its first entry, or nothing
/// where it is empty.
pub proof fn lemma_enter_selects_first(len: nat)
    ensures
        selection_after(len, None) == (if len == 0 {
            None::<nat>
        } else {
            Some(0nat)
        }),
{
}

/// A step never leaves the listing; at the last entry a step forward, and at
/// the first a step back, leaves the selection where it was.
pub proof fn lemma_step_in_range(i: nat, len: nat, s: Step)
    requires
        i < len,
    ensures
        step_spec(i, len, s) < len,
        i + 1 == len && s == Step::Next ==> step_spec(i, len, s) == i,
        i == 0 && s == Step::Previous ==> step_spec(i, len, s) == i,
{
}

/// Deleting the selected entry at `i` and re-entering the directory, now one
/// entry shorter, selects the entry before it (the first where `i` was 0), or
/// nothing where the directory is now empty.
pub proof fn lemma_delete_then_refresh(i: usize, old_len: nat)
    requires
        i < old_len,
    ensures
        selection_after((old_len - 1) as nat, Some(after_delete(i as nat) as usize)) == (if old_len
            == 1 {
            None::<nat>
        } else {
            Some(after_delete(i as nat))
        }),
{
}

} // verus!
