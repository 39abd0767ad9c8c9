use vstd::prelude::*;

verus! {

/// What an entry of a directory is, as classified when the directory was read.
#[derive(Clone, Copy, Debug, PartialEq, Eq, Structural)]
pub enum EntryKind {
    Dir,
    File,
    Other,
}

/// One entry of a directory listing: its absolute path and its kind.
#[derive(Debug)]
pub struct Entry {
    pub path: Vec<char>,
    pub kind: EntryKind,
}

/// A copy of a character sequence.
pub fn copy_chars(s: &Vec<char>) -> (r: Vec<char>)
    ensures
        r@ == s@,
{
    let mut r: Vec<char> = Vec::new();
    let mut i: usize = 0;
    while i < s.len()
        invariant
            i <= s@.len(),
            r@ == s@.subrange(0, i as int),
        decreases s@.len() - i,
    {
        r.push(s[i]);
        i += 1;
        assert(r@ =~= s@.subrange(0, i as int));
    }
    assert(r@ =~= s@);
    r
}

impl Entry {
    /// A copy of this entry.
    pub fn duplicate(&self) -> (r: Entry)
        ensures
            r@ == self@,
    {
        Entry { path: copy_chars(&self.path), kind: self.kind }
    }

    pub open spec fn is_dir(&self) -> bool {
        self.kind == EntryKind::Dir
    }
}

/// An entry seen as its path and kind.
pub struct EntryView {
    pub path: Seq<char>,
    pub kind: EntryKind,
}

impl View for Entry {
    type V = EntryView;

    open spec fn view(&self) -> EntryView {
        EntryView { path: self.path@, kind: self.kind }
    }
}

pub open spec fn entries_view(s: Seq<Entry>) -> Seq<EntryView> {
    s.map_values(|e: Entry| e@)
}

/// The readable directory entries of an enumeration, in enumeration order.
pub open spec fn dirs_of(raw: Seq<Option<EntryView>>) -> Seq<EntryView>
    decreases raw.len(),
{
    if raw.len() == 0 {
        Seq::empty()
    } else {
        let rest = dirs_of(raw.drop_last());
        match raw.last() {
            Some(e) => if e.kind == EntryKind::Dir { rest.push(e) } else { rest },
            None => rest,
        }
    }
}

/// The readable entries of an enumeration that are not directories, in
/// enumeration order.
pub open spec fn files_of(raw: Seq<Option<EntryView>>) -> Seq<EntryView>
    decreases raw.len(),
{
    if raw.len() == 0 {
        Seq::empty()
    } else {
        let rest = files_of(raw.drop_last());
        match raw.last() {
            Some(e) => if e.kind != EntryKind::Dir { rest.push(e) } else { rest },
            None => rest,
        }
    }
}

pub open spec fn raw_view(raw: Seq<Option<Entry>>) -> Seq<Option<EntryView>> {
    raw.map_values(|o: Option<Entry>|
        match o {
            Some(e) => Some(e@),
            None => None,
        })
}

proof fn lemma_kinds(raw: Seq<Option<EntryView>>)
    ensures
        forall|i: int| 0 <= i < dirs_of(raw).len() ==> (#[trigger] dirs_of(raw)[i]).kind
            == EntryKind::Dir,
        forall|i: int| 0 <= i < files_of(raw).len() ==> (#[trigger] files_of(raw)[i]).kind
            != EntryKind::Dir,
    decreases raw.len(),
{
    if raw.len() > 0 {
        lemma_kinds(raw.drop_last());
    }
}

/// In a listing, every directory comes before every entry that is not one.
pub proof fn lemma_dirs_before_files(raw: Seq<Option<EntryView>>)
    ensures
        forall|i: int, j: int|
            0 <= i < j < (dirs_of(raw) + files_of(raw)).len() && (#[trigger] (dirs_of(raw)
                + files_of(raw))[j]).kind == EntryKind::Dir ==> (#[trigger] (dirs_of(raw)
                + files_of(raw))[i]).kind == EntryKind::Dir,
{
    lemma_kinds(raw);
    let d = dirs_of(raw);
    let f = files_of(raw);
    assert forall|i: int, j: int|
        0 <= i < j < (d + f).len() && (#[trigger] (d + f)[j]).kind == EntryKind::Dir implies (
        #[trigger] (d + f)[i]).kind == EntryKind::Dir by {
        if j >= d.len() {
            assert((d + f)[j] == f[j - d.len()]);
        }
        assert((d + f)[i] == d[i]);
    }
}

/// The listing of one directory level: the readable directories first, then the
/// other readable entries, each group in enumeration order. `None` stands for an
/// entry that failed during enumeration; it is left out.
pub fn get_dirs_and_files(raw: Vec<Option<Entry>>) -> (r: Vec<Entry>)
    ensures
        entries_view(r@) == dirs_of(raw_view(raw@)) + files_of(raw_view(raw@)),
{
    let ghost rv = raw_view(raw@);
    let mut dirs: Vec<Entry> = Vec::new();
    let mut files: Vec<Entry> = Vec::new();
    let mut i: usize = 0;
    while i < raw.len()
        invariant
            i <= raw@.len(),
            rv == raw_view(raw@),
            entries_view(dirs@) == dirs_of(rv.subrange(0, i as int)),
            entries_view(files@) == files_of(rv.subrange(0, i as int)),
        decreases raw@.len() - i,
    {
        assert(rv.subrange(0, i + 1).drop_last() =~= rv.subrange(0, i as int));
        match &raw[i] {
            Some(e) => {
                if e.kind == EntryKind::Dir {
                    dirs.push(e.duplicate());
                } else {
                    files.push(e.duplicate());
                }
            },
            None => {},
        }
        i += 1;
        assert(entries_view(dirs@) =~= dirs_of(rv.subrange(0, i as int)));
        assert(entries_view(files@) =~= files_of(rv.subrange(0, i as int)));
    }
    assert(rv.subrange(0, raw@.len() as int) =~= rv);
    let ghost d = dirs@;
    dirs.append(&mut files);
    assert(entries_view(dirs@) =~= entries_view(d) + files_of(rv));
    dirs
}

} // verus!
