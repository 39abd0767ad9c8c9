use crate::editor::{delete_spec, insert_spec, join_lines, move_spec, BufView, Direction, EditBuffer};
use crate::explorer::{after_delete, move_post, ErrorKind, FileStruct, FsError, Load, Step};
use crate::listing::{copy_chars, EntryKind};
use crate::paths::{
    dir_prefix,
    enc_suffix,
    file_name,
    join,
    join_spec,
    name_of,
    strip_enc_suffix,
    with_enc_suffix,
};
use crate::ui::{FileScout, ViewMode, COLOR_COUNT};
use vstd::prelude::*;

verus! {

/// A key press, as the dispatcher sees it.
#[derive(Clone, Copy, Debug, PartialEq, Eq, Structural)]
pub enum Key {
    Char(char),
    /// A character typed with the control modifier held.
    Ctrl(char),
    Enter,
    Backspace,
    Tab,
    Esc,
    Delete,
    Up,
    Down,
    Left,
    Right,
    Other,
}

/// The two transforms a background job runs.
#[derive(Clone, Copy, Debug, PartialEq, Eq, Structural)]
pub enum JobKind {
    Seal,
    Open,
}

/// The filesystem work a key asks of the caller, after the dispatcher has
/// updated the state. `refresh` is the index at which to re-enter the current
/// directory once the work is done.
#[derive(Debug)]
pub enum Effect {
    Nothing,
    /// Fill the preview pane; a file's text is read off the interactive loop.
    Preview(Load),
    /// List `path` and enter it at `index`.
    Enter { path: Vec<char>, index: Option<usize> },
    /// Read the file at `path` and open it with `FileScout::begin_edit`.
    OpenForEdit { path: Vec<char> },
    /// Overwrite the file at `path` with `text`.
    Save { path: Vec<char>, text: Vec<char>, refresh: usize },
    /// Create an empty file at `path`, failing where something is there.
    Create { path: Vec<char>, refresh: usize },
    /// Rename `from` to `to`.
    Rename { from: Vec<char>, to: Vec<char>, refresh: usize },
    /// Remove `path`, recursively where it is a directory.
    Delete { path: Vec<char>, is_dir: bool, refresh: usize },
    /// Run a transform from `source` to `dest` off the interactive loop.
    Job { kind: JobKind, source: Vec<char>, dest: Vec<char> },
}

/// The index at which the current directory is re-entered after a change.
pub open spec fn refresh_of(fs: FileStruct) -> usize {
    match fs.current_state {
        Some(i) => i,
        None => 0,
    }
}

/// Whether `key` is the letter `c`, with or without the control modifier.
pub open spec fn letter(key: Key, c: char) -> bool {
    key == Key::Char(c) || key == Key::Ctrl(c)
}

/// `n` is `o` with only the prompt and the mode changed.
pub open spec fn same_but_prompt(o: FileScout, n: FileScout) -> bool {
    n == FileScout { input: n.input, mode: n.mode, ..o }
}

/// `n` is `o` with only the last error changed.
pub open spec fn same_but_error(o: FileStruct, n: FileStruct) -> bool {
    n == FileStruct { error: n.error, ..o }
}

/// The error recorded is of kind `k`.
pub open spec fn error_is(fs: FileStruct, k: ErrorKind) -> bool {
    fs.error matches Some(e) && e.kind == k
}

/// How a key changes the state in the rename and create modes.
pub open spec fn name_post(o: FileScout, n: FileScout, fs: FileStruct, key: Key, r: Effect) -> bool {
    match key {
        Key::Char(c) => same_but_prompt(o, n) && n.mode == o.mode && n.input.content@
            == o.input.content@.push(c) && r is Nothing,
        Key::Ctrl(c) => same_but_prompt(o, n) && n.mode == o.mode && n.input.content@
            == o.input.content@.push(c) && r is Nothing,
        Key::Backspace => same_but_prompt(o, n) && n.mode == o.mode && n.input.content@ == (
        if o.input.content@.len() > 0 {
            o.input.content@.drop_last()
        } else {
            o.input.content@
        }) && r is Nothing,
        Key::Enter => same_but_prompt(o, n) && n.mode == ViewMode::ListView
            && n.input.content@.len() == 0 && (if o.mode == ViewMode::Create {
            r matches Effect::Create { path, refresh } && path@ == join_spec(
                fs.pwd@,
                o.input.content@,
            ) && refresh == refresh_of(fs)
        } else {
            match fs.current_path {
                Some(p) => r matches Effect::Rename { from, to, refresh } && from@ == p@ && to@
                    == dir_prefix(p@) + o.input.content@ && refresh == refresh_of(fs),
                None => r is Nothing,
            }
        }),
        Key::Esc => same_but_prompt(o, n) && n.mode == ViewMode::ListView
            && n.input.content@.len() == 0 && r is Nothing,
        _ => n == o && r is Nothing,
    }
}

/// Handles a key in the rename and create modes: characters go to the prompt,
/// Backspace takes the last one off, Enter commits and Esc discards.
pub fn handle_file_name(file: &mut FileScout, files: &FileStruct, key: Key) -> (r: Effect)
    requires
        old(file).wf(),
        old(file).mode == ViewMode::Rename || old(file).mode == ViewMode::Create,
        files.wf(),
    ensures
        final(file).wf(),
        name_post(*old(file), *final(file), *files, key, r),
{
    match key {
        Key::Char(c) | Key::Ctrl(c) => {
            file.input.content.push(c);
            Effect::Nothing
        },
        Key::Backspace => {
            file.input.content.pop();
            Effect::Nothing
        },
        Key::Enter => {
            let refresh = files.refresh_index();
            let r = if file.mode == ViewMode::Create {
                Effect::Create { path: files.create_file(&file.input.content), refresh }
            } else {
                match files.rename(&file.input.content) {
                    Some((from, to)) => Effect::Rename { from, to, refresh },
                    None => Effect::Nothing,
                }
            };
            file.reset_mode();
            r
        },
        Key::Esc => {
            file.reset_mode();
            Effect::Nothing
        },
        _ => Effect::Nothing,
    }
}

/// Whether the edit buffer has room for one more character on the cursor's
/// line and one more line.
pub open spec fn has_room(b: BufView) -> bool {
    b.lines.len() < usize::MAX && b.lines[b.row as int].len() < usize::MAX
}

/// The edit buffer after typing `c`, where it has room.
pub open spec fn typed(o: FileScout, n: FileScout, c: char) -> bool {
    &&& n == FileScout { editor: n.editor, ..o }
    &&& has_room(o.editor@) ==> n.editor@ == insert_spec(o.editor@, c)
    &&& !has_room(o.editor@) ==> n.editor@ == o.editor@
}

/// The state after leaving the edit mode: browsing, an empty buffer, the
/// content view scrolled back to its origin.
pub open spec fn left_edit(o: FileScout, n: FileScout) -> bool {
    &&& n.mode == ViewMode::ListView
    &&& n.input.content@.len() == 0
    &&& n.text_scroll_x == 0
    &&& n.text_scroll_y == 0
    &&& n.editor@ == BufView { lines: seq![Seq::<char>::empty()], row: 0, col: 0 }
    &&& n.color_index == o.color_index
    &&& n.exit == o.exit
}

/// How a key changes the state in the edit mode.
pub open spec fn edit_post(o: FileScout, n: FileScout, fs: FileStruct, key: Key, r: Effect) -> bool {
    match key {
        Key::Ctrl(c) => if c == 's' {
            left_edit(o, n) && match fs.current_path {
                Some(p) => r matches Effect::Save { path, text, refresh } && path@ == p@ && text@
                    == join_lines(o.editor@.lines) && refresh == refresh_of(fs),
                None => r is Nothing,
            }
        } else if c == 'c' {
            left_edit(o, n) && r is Nothing
        } else {
            typed(o, n, c) && r is Nothing
        },
        Key::Char(c) => typed(o, n, c) && r is Nothing,
        Key::Tab => typed(o, n, ' ') && r is Nothing,
        Key::Enter => typed(o, n, '\n') && r is Nothing,
        Key::Backspace => n == FileScout { editor: n.editor, ..o } && n.editor@ == delete_spec(
            o.editor@,
        ) && r is Nothing,
        Key::Up => n == FileScout { editor: n.editor, ..o } && n.editor@ == move_spec(
            o.editor@,
            Direction::Up,
        ) && r is Nothing,
        Key::Down => n == FileScout { editor: n.editor, ..o } && n.editor@ == move_spec(
            o.editor@,
            Direction::Down,
        ) && r is Nothing,
        Key::Left => n == FileScout { editor: n.editor, ..o } && n.editor@ == move_spec(
            o.editor@,
            Direction::Left,
        ) && r is Nothing,
        Key::Right => n == FileScout { editor: n.editor, ..o } && n.editor@ == move_spec(
            o.editor@,
            Direction::Right,
        ) && r is Nothing,
        _ => n == o && r is Nothing,
    }
}

fn type_char(file: &mut FileScout, c: char)
    requires
        old(file).wf(),
    ensures
        final(file).wf(),
        typed(*old(file), *final(file), c),
{
    if file.editor.line_count() < usize::MAX && file.editor.current_len() < usize::MAX {
        file.editor.insert(c);
    }
}

fn leave_edit(file: &mut FileScout)
    requires
        old(file).wf(),
    ensures
        final(file).wf(),
        left_edit(*old(file), *final(file)),
{
    file.reset_mode();
    file.editor = EditBuffer::new();
    file.text_scroll_x = 0;
    file.text_scroll_y = 0;
}

/// Handles a key in the edit mode: characters, Tab (a space) and Enter are
/// typed, Backspace deletes before the cursor, the arrows move it; Ctrl+S
/// saves and Ctrl+C discards, and both return to browsing.
pub fn handle_file_edit(file: &mut FileScout, files: &FileStruct, key: Key) -> (r: Effect)
    requires
        old(file).wf(),
        old(file).mode == ViewMode::FileEdit,
        files.wf(),
    ensures
        final(file).wf(),
        edit_post(*old(file), *final(file), *files, key, r),
{
    match key {
        Key::Ctrl(c) => {
            if c == 's' {
                let text = file.editor.to_text();
                leave_edit(file);
                match &files.current_path {
                    Some(p) => Effect::Save {
                        path: copy_chars(p),
                        text,
                        refresh: files.refresh_index(),
                    },
                    None => Effect::Nothing,
                }
            } else if c == 'c' {
                leave_edit(file);
                Effect::Nothing
            } else {
                type_char(file, c);
                Effect::Nothing
            }
        },
        Key::Char(c) => {
            type_char(file, c);
            Effect::Nothing
        },
        Key::Tab => {
            type_char(file, ' ');
            Effect::Nothing
        },
        Key::Enter => {
            type_char(file, '\n');
            Effect::Nothing
        },
        Key::Backspace => {
            file.editor.delete_before_cursor();
            Effect::Nothing
        },
        Key::Up => {
            file.editor.move_cursor(Direction::Up);
            Effect::Nothing
        },
        Key::Down => {
            file.editor.move_cursor(Direction::Down);
            Effect::Nothing
        },
        Key::Left => {
            file.editor.move_cursor(Direction::Left);
            Effect::Nothing
        },
        Key::Right => {
            file.editor.move_cursor(Direction::Right);
            Effect::Nothing
        },
        _ => Effect::Nothing,
    }
}

/// How the encrypt key acts on the selection: a file is sealed into the
/// current directory, under its name with the encrypted-file suffix; anything
/// else is refused.
pub open spec fn seal_post(ofs: FileStruct, nfs: FileStruct, r: Effect) -> bool {
    match ofs.selected_spec() {
        None => nfs == ofs && r is Nothing,
        Some(e) => if e.kind == EntryKind::File {
            nfs == ofs && (r matches Effect::Job { kind, source, dest } && kind == JobKind::Seal
                && source@ == e.path && dest@ == join_spec(ofs.pwd@, name_of(e.path) + enc_suffix()))
        } else {
            r is Nothing && same_but_error(ofs, nfs) && error_is(nfs, ErrorKind::IsADirectory)
        },
    }
}

/// How the decrypt key acts on the selection: a file is opened into the
/// current directory, under its name without the encrypted-file suffix; a
/// directory, or a file whose name lacks the suffix, is refused.
pub open spec fn open_post(ofs: FileStruct, nfs: FileStruct, r: Effect) -> bool {
    match ofs.selected_spec() {
        None => nfs == ofs && r is Nothing,
        Some(e) => if e.kind != EntryKind::File {
            r is Nothing && same_but_error(ofs, nfs) && error_is(nfs, ErrorKind::IsADirectory)
        } else if exists|s: Seq<char>| s + enc_suffix() == name_of(e.path) {
            nfs == ofs && (r matches Effect::Job { kind, source, dest } && kind == JobKind::Open
                && source@ == e.path && exists|s: Seq<char>|
                s + enc_suffix() == name_of(e.path) && dest@ == join_spec(ofs.pwd@, s))
        } else {
            r is Nothing && same_but_error(ofs, nfs) && error_is(nfs, ErrorKind::InvalidInput)
        },
    }
}

/// How a key changes the state while browsing (`ListView`) or reading a file
/// (`ContentView`).
pub open spec fn list_post(
    o: FileScout,
    n: FileScout,
    ofs: FileStruct,
    nfs: FileStruct,
    key: Key,
    r: Effect,
) -> bool {
    if letter(key, 'q') || letter(key, 'Q') {
        n == FileScout { exit: true, ..o } && nfs == ofs && r is Nothing
    } else if letter(key, 'r') || letter(key, 'R') {
        nfs == ofs && r is Nothing && match ofs.current_path {
            Some(p) => same_but_prompt(o, n) && n.mode == ViewMode::Rename && n.input.content@
                == name_of(p@),
            None => n == o,
        }
    } else if letter(key, 'n') || letter(key, 'N') {
        nfs == ofs && r is Nothing && same_but_prompt(o, n) && n.mode == ViewMode::Create
            && n.input.content@.len() == 0
    } else if letter(key, 'o') || letter(key, 'O') {
        n == o && match ofs.current_path {
            Some(p) => nfs == ofs && (r matches Effect::OpenForEdit { path } && path@ == p@),
            None => r is Nothing && same_but_error(ofs, nfs) && error_is(nfs, ErrorKind::Unsupported),
        }
    } else if letter(key, 'e') || letter(key, 'E') {
        n == o && seal_post(ofs, nfs, r)
    } else if letter(key, 'd') || letter(key, 'D') {
        n == o && open_post(ofs, nfs, r)
    } else if letter(key, 'c') || letter(key, 'C') {
        n == FileScout { color_index: ((o.color_index + 1) % (COLOR_COUNT as int)) as usize, ..o }
            && nfs == ofs && r is Nothing
    } else {
        match key {
            Key::Delete => n == o && nfs == ofs && match ofs.current_state {
                Some(i) => r matches Effect::Delete { path, is_dir, refresh } && path@
                    == ofs.current_dir@[i as int].path@ && is_dir == (ofs.current_dir@[i as int].kind
                    == EntryKind::Dir) && refresh as nat == after_delete(i as nat),
                None => r is Nothing,
            },
            Key::Tab => nfs == ofs && r is Nothing && if o.mode == ViewMode::ContentView {
                n == FileScout { mode: ViewMode::ListView, text_scroll_x: 0, text_scroll_y: 0, ..o }
            } else if ofs.selected_spec() matches Some(e) && e.kind == EntryKind::File {
                n == FileScout { mode: ViewMode::ContentView, ..o }
            } else {
                n == o
            },
            Key::Down => if o.mode == ViewMode::ListView {
                n == o && (r matches Effect::Preview(l) && move_post(ofs, nfs, Step::Next, l))
            } else {
                nfs == ofs && r is Nothing && n == FileScout {
                    text_scroll_y: if o.text_scroll_y + 1 < ofs.line_count {
                        (o.text_scroll_y + 1) as usize
                    } else {
                        o.text_scroll_y
                    },
                    ..o
                }
            },
            Key::Up => if o.mode == ViewMode::ListView {
                n == o && (r matches Effect::Preview(l) && move_post(ofs, nfs, Step::Previous, l))
            } else {
                nfs == ofs && r is Nothing && n == FileScout {
                    text_scroll_y: if o.text_scroll_y > 0 {
                        (o.text_scroll_y - 1) as usize
                    } else {
                        0
                    },
                    ..o
                }
            },
            Key::Right => if o.mode == ViewMode::ListView {
                n == o && nfs == ofs && match ofs.selected_spec() {
                    Some(e) => if e.kind == EntryKind::Dir {
                        r matches Effect::Enter { path, index } && path@ == e.path && index is None
                    } else {
                        r is Nothing
                    },
                    None => r is Nothing,
                }
            } else {
                nfs == ofs && r is Nothing && n == FileScout {
                    text_scroll_x: if o.text_scroll_x < usize::MAX {
                        (o.text_scroll_x + 1) as usize
                    } else {
                        o.text_scroll_x
                    },
                    ..o
                }
            },
            Key::Left => if o.mode == ViewMode::ListView {
                n == o && nfs == ofs && match (ofs.parent, ofs.parent_state) {
                    (Some(p), Some(j)) => r matches Effect::Enter { path, index } && path@ == p@
                        && index == Some(j),
                    _ => r is Nothing,
                }
            } else {
                nfs == ofs && r is Nothing && n == FileScout {
                    text_scroll_x: if o.text_scroll_x > 0 {
                        (o.text_scroll_x - 1) as usize
                    } else {
                        0
                    },
                    ..o
                }
            },
            _ => n == o && nfs == ofs && r is Nothing,
        }
    }
}

fn refusal(kind: ErrorKind) -> (r: FsError)
    ensures
        r.kind == kind,
{
    FsError { kind, message: Vec::new() }
}

fn handle_seal(files: &mut FileStruct) -> (r: Effect)
    requires
        old(files).wf(),
    ensures
        final(files).wf(),
        seal_post(*old(files), *final(files), r),
{
    match files.current_state {
        None => Effect::Nothing,
        Some(i) => {
            if files.current_dir[i].kind == EntryKind::File {
                let name = file_name(&files.current_dir[i].path);
                let dest = join(&files.pwd, &with_enc_suffix(&name));
                Effect::Job { kind: JobKind::Seal, source: copy_chars(&files.current_dir[i].path), dest }
            } else {
                files.set_error(refusal(ErrorKind::IsADirectory));
                Effect::Nothing
            }
        },
    }
}

fn handle_open(files: &mut FileStruct) -> (r: Effect)
    requires
        old(files).wf(),
    ensures
        final(files).wf(),
        open_post(*old(files), *final(files), r),
{
    match files.current_state {
        None => Effect::Nothing,
        Some(i) => {
            if files.current_dir[i].kind != EntryKind::File {
                files.set_error(refusal(ErrorKind::IsADirectory));
                return Effect::Nothing;
            }
            let name = file_name(&files.current_dir[i].path);
            match strip_enc_suffix(&name) {
                Some(s) => {
                    let dest = join(&files.pwd, &s);
                    Effect::Job {
                        kind: JobKind::Open,
                        source: copy_chars(&files.current_dir[i].path),
                        dest,
                    }
                },
                None => {
                    proof {
                        assert forall|s: Seq<char>| s + enc_suffix() != name@ by {
                            if s + enc_suffix() == name@ {
                                assert((s + enc_suffix()).subrange(
                                    name@.len() - 4,
                                    name@.len() as int,
                                ) =~= enc_suffix());
                            }
                        }
                    }
                    files.set_error(refusal(ErrorKind::InvalidInput));
                    Effect::Nothing
                },
            }
        },
    }
}

/// Handles a key while browsing or reading a file: the letter commands (quit,
/// rename, new file, open for editing, encrypt, decrypt, next colour), Delete,
/// Tab between the two views, and the arrows, which move the selection or the
/// tree while browsing and scroll while reading.
pub fn handle_list_keys(file: &mut FileScout, files: &mut FileStruct, key: Key) -> (r: Effect)
    requires
        old(file).wf(),
        old(file).mode == ViewMode::ListView || old(file).mode == ViewMode::ContentView,
        old(files).wf(),
    ensures
        final(file).wf(),
        final(files).wf(),
        list_post(*old(file), *final(file), *old(files), *final(files), key, r),
{
    let c: char = match key {
        Key::Char(c) | Key::Ctrl(c) => c,
        _ => '\0',
    };
    let is_letter = match key {
        Key::Char(_) | Key::Ctrl(_) => true,
        _ => false,
    };
    if is_letter && (c == 'q' || c == 'Q') {
        file.exit = true;
        return Effect::Nothing;
    }
    if is_letter && (c == 'r' || c == 'R') {
        if let Some(p) = &files.current_path {
            file.input.content = file_name(p);
            file.mode = ViewMode::Rename;
        }
        return Effect::Nothing;
    }
    if is_letter && (c == 'n' || c == 'N') {
        file.input.content = Vec::new();
        file.mode = ViewMode::Create;
        return Effect::Nothing;
    }
    if is_letter && (c == 'o' || c == 'O') {
        return match files.file_read() {
            Ok(path) => Effect::OpenForEdit { path },
            Err(e) => {
                files.set_error(e);
                Effect::Nothing
            },
        };
    }
    if is_letter && (c == 'e' || c == 'E') {
        return handle_seal(files);
    }
    if is_letter && (c == 'd' || c == 'D') {
        return handle_open(files);
    }
    if is_letter && (c == 'c' || c == 'C') {
        file.color_index = (file.color_index + 1) % COLOR_COUNT;
        return Effect::Nothing;
    }
    match key {
        Key::Delete => match files.delete() {
            Some((e, refresh)) => Effect::Delete {
                is_dir: e.kind == EntryKind::Dir,
                path: e.path,
                refresh,
            },
            None => Effect::Nothing,
        },
        Key::Tab => {
            if file.mode == ViewMode::ContentView {
                file.mode = ViewMode::ListView;
                file.text_scroll_x = 0;
                file.text_scroll_y = 0;
            } else {
                match files.selected() {
                    Some(e) => if e.kind == EntryKind::File {
                        file.mode = ViewMode::ContentView;
                    },
                    None => {},
                }
            }
            Effect::Nothing
        },
        Key::Down => {
            if file.mode == ViewMode::ListView {
                Effect::Preview(files.move_selection(Step::Next))
            } else {
                if file.text_scroll_y < files.line_count && files.line_count - file.text_scroll_y
                    > 1 {
                    file.text_scroll_y = file.text_scroll_y + 1;
                }
                Effect::Nothing
            }
        },
        Key::Up => {
            if file.mode == ViewMode::ListView {
                Effect::Preview(files.move_selection(Step::Previous))
            } else {
                if file.text_scroll_y > 0 {
                    file.text_scroll_y = file.text_scroll_y - 1;
                }
                Effect::Nothing
            }
        },
        Key::Right => {
            if file.mode == ViewMode::ListView {
                match files.descend() {
                    Some(path) => Effect::Enter { path, index: None },
                    None => Effect::Nothing,
                }
            } else {
                if file.text_scroll_x < usize::MAX {
                    file.text_scroll_x = file.text_scroll_x + 1;
                }
                Effect::Nothing
            }
        },
        Key::Left => {
            if file.mode == ViewMode::ListView {
                match files.ascend() {
                    Some((path, j)) => Effect::Enter { path, index: Some(j) },
                    None => Effect::Nothing,
                }
            } else {
                if file.text_scroll_x > 0 {
                    file.text_scroll_x = file.text_scroll_x - 1;
                }
                Effect::Nothing
            }
        },
        _ => Effect::Nothing,
    }
}

/// Routes a key to the handler of the current mode.
pub fn handle_events(file: &mut FileScout, files: &mut FileStruct, key: Key) -> (r: Effect)
    requires
        old(file).wf(),
        old(files).wf(),
    ensures
        final(file).wf(),
        final(files).wf(),
        old(file).mode == ViewMode::FileEdit ==> (*final(files) == *old(files) && edit_post(
            *old(file),
            *final(file),
            *old(files),
            key,
            r,
        )),
        (old(file).mode == ViewMode::Rename || old(file).mode == ViewMode::Create) ==> (
        *final(files) == *old(files) && name_post(*old(file), *final(file), *old(files), key, r)),
        (old(file).mode == ViewMode::ListView || old(file).mode == ViewMode::ContentView)
            ==> list_post(*old(file), *final(file), *old(files), *final(files), key, r),
{
    match file.mode {
        ViewMode::FileEdit => handle_file_edit(file, files, key),
        ViewMode::Rename | ViewMode::Create => handle_file_name(file, files, key),
        _ => handle_list_keys(file, files, key),
    }
}

/// Settles the shared state once a background job has ended: on success,
/// returns the index at which to re-enter the current directory (the selection,
/// kept); on failure, records the error and returns `None`.
pub fn job_finished(files: &mut FileStruct, outcome: Result<(), FsError>) -> (r: Option<usize>)
    requires
        old(files).wf(),
    ensures
        final(files).wf(),
        match outcome {
            Ok(()) => r == Some(refresh_of(*old(files))) && *final(files) == *old(files),
            Err(e) => r is None && *final(files) == FileStruct { error: Some(e), ..*old(files) },
        },
{
    match outcome {
        Ok(()) => Some(files.refresh_index()),
        Err(e) => {
            files.set_error(e);
            None
        },
    }
}

} // verus!
