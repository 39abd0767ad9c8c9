use file_scout::crypto_handler::{AesEncryptor, CryptoError, NONCE_LEN};
use file_scout::editor::{Direction, EditBuffer};
use file_scout::explorer::{line_total, ErrorKind, FileStruct, FsError, Load, Step};
use file_scout::key_events::{handle_events, job_finished, Effect, JobKind, Key};
use file_scout::listing::{get_dirs_and_files, Entry, EntryKind};
use file_scout::paths::{file_name, join, strip_enc_suffix, with_enc_suffix};
use file_scout::permissions::{file_permission, format_permissions};
use file_scout::ui::{FileScout, ViewMode};

fn chars(s: &str) -> Vec<char> {
    s.chars().collect()
}

fn text(v: &[char]) -> String {
    v.iter().collect()
}

fn entry(p: &str, kind: EntryKind) -> Entry {
    Entry { path: chars(p), kind }
}

fn key() -> [u8; 32] {
    let mut k = [0u8; 32];
    for (i, b) in k.iter_mut().enumerate() {
        *b = (i * 7 + 3) as u8;
    }
    k
}

/// A state entered at `/a`, holding `/a/b` and `/a/c.txt`.
fn at_a(index: Option<usize>) -> (FileStruct, Load) {
    let mut fs = FileStruct::new();
    let listing = get_dirs_and_files(vec![
        Some(entry("/a/c.txt", EntryKind::File)),
        Some(entry("/a/b", EntryKind::Dir)),
    ]);
    let parent = vec![entry("/a", EntryKind::Dir), entry("/z", EntryKind::File)];
    let load = fs.present_dir_fn(chars("/a"), Some(chars("/")), listing, parent, index);
    (fs, load)
}

#[test]
fn listing_puts_directories_first_and_skips_unreadable() {
    let raw = vec![
        Some(entry("/d/x", EntryKind::File)),
        None,
        Some(entry("/d/p", EntryKind::Dir)),
        Some(entry("/d/y", EntryKind::Other)),
        Some(entry("/d/q", EntryKind::Dir)),
        None,
    ];
    let r = get_dirs_and_files(raw);
    let paths: Vec<String> = r.iter().map(|e| text(&e.path)).collect();
    assert_eq!(paths, vec!["/d/p", "/d/q", "/d/x", "/d/y"]);
}

#[test]
fn listing_of_nothing_is_empty() {
    assert!(get_dirs_and_files(vec![None, None]).is_empty());
}

#[test]
fn permissions_follow_mode_bits() {
    assert_eq!(text(&format_permissions(0o755)), "rwxr-xr-x");
    assert_eq!(text(&format_permissions(0o640)), "rw-r-----");
    assert_eq!(text(&format_permissions(0)), "---------");
    assert_eq!(text(&file_permission(true, false, 0o644)), "drw-r--r--");
    assert_eq!(text(&file_permission(false, true, 0o777)), "lrwxrwxrwx");
    assert_eq!(text(&file_permission(false, false, 0o100600)), "-rw-------");
}

#[test]
fn path_helpers() {
    assert_eq!(text(&file_name(&chars("/a/c.txt"))), "c.txt");
    assert_eq!(text(&join(&chars("/a"), &chars("n.txt"))), "/a/n.txt");
    assert_eq!(text(&join(&chars("/"), &chars("n.txt"))), "/n.txt");
    assert_eq!(text(&with_enc_suffix(&chars("c.txt"))), "c.txt.enc");
    assert_eq!(strip_enc_suffix(&chars("c.txt.enc")).map(|s| text(&s)), Some("c.txt".to_string()));
    assert_eq!(strip_enc_suffix(&chars("c.txt")), None);
}

#[test]
fn line_counts_match_std_lines() {
    for s in ["", "a", "a\n", "a\nb", "a\n\nb\n", "\n", "\n\n"] {
        assert_eq!(line_total(&chars(s)), s.lines().count(), "{:?}", s);
    }
}

#[test]
fn enter_without_index_selects_first() {
    let (fs, load) = at_a(None);
    assert_eq!(fs.current_state, Some(0));
    assert_eq!(fs.current_path.as_deref().map(text), Some("/a/b".to_string()));
    assert!(matches!(load, Load::Listing(p) if text(&p) == "/a/b"));
    assert_eq!(fs.parent_state, Some(0));

    let mut empty = FileStruct::new();
    let load = empty.present_dir_fn(chars("/e"), None, Vec::new(), Vec::new(), None);
    assert_eq!(empty.current_state, None);
    assert_eq!(empty.current_path, None);
    assert!(matches!(load, Load::Nothing));
}

#[test]
fn enter_clamps_index_to_last_entry() {
    let (fs, load) = at_a(Some(7));
    assert_eq!(fs.current_state, Some(1));
    assert!(matches!(load, Load::Content(p) if text(&p) == "/a/c.txt"));
}

#[test]
fn scenario_next_selects_the_file() {
    let (mut fs, _) = at_a(None);
    let load = fs.move_selection(Step::Next);
    assert_eq!(fs.current_state, Some(1));
    assert_eq!(fs.current_path.as_deref().map(text), Some("/a/c.txt".to_string()));
    assert!(matches!(load, Load::Content(p) if text(&p) == "/a/c.txt"));
    fs.read_file(Ok(chars("hello\nworld\n")));
    assert_eq!(text(&fs.content), "hello\nworld\n");
    assert_eq!(fs.line_count, 2);
}

#[test]
fn move_selection_is_clamped_at_both_ends() {
    let (mut fs, _) = at_a(None);
    assert!(matches!(fs.move_selection(Step::Previous), Load::Nothing));
    assert_eq!(fs.current_state, Some(0));
    fs.move_selection(Step::Next);
    assert!(matches!(fs.move_selection(Step::Next), Load::Nothing));
    assert_eq!(fs.current_state, Some(1));
}

#[test]
fn move_selection_clears_the_error() {
    let (mut fs, _) = at_a(None);
    fs.set_error(FsError { kind: ErrorKind::NotFound, message: Vec::new() });
    fs.move_selection(Step::Next);
    assert!(fs.error.is_none());
}

#[test]
fn read_failure_is_recorded() {
    let (mut fs, _) = at_a(Some(1));
    fs.read_file(Err(FsError { kind: ErrorKind::PermissionDenied, message: chars("denied") }));
    assert_eq!(fs.error.as_ref().map(|e| e.kind), Some(ErrorKind::PermissionDenied));
    assert!(fs.content.is_empty());
}

#[test]
fn delete_then_refresh_selects_previous_entry() {
    let (fs, _) = at_a(Some(1));
    let (gone, refresh) = fs.delete().unwrap();
    assert_eq!(text(&gone.path), "/a/c.txt");
    assert_eq!(refresh, 0);
    let mut fs = fs;
    fs.present_dir_fn(chars("/a"), None, vec![entry("/a/b", EntryKind::Dir)], Vec::new(), Some(refresh));
    assert_eq!(fs.current_state, Some(0));

    let (first, refresh) = fs.delete().unwrap();
    assert_eq!(text(&first.path), "/a/b");
    fs.present_dir_fn(chars("/a"), None, Vec::new(), Vec::new(), Some(refresh));
    assert_eq!(fs.current_state, None);
}

#[test]
fn scenario_rename_lists_new_name() {
    let (fs, _) = at_a(Some(1));
    let (from, to) = fs.rename(&chars("old.txt")).unwrap();
    assert_eq!(text(&from), "/a/c.txt");
    assert_eq!(text(&to), "/a/old.txt");
    let mut fs = fs;
    let listing = get_dirs_and_files(vec![
        Some(entry("/a/old.txt", EntryKind::File)),
        Some(entry("/a/b", EntryKind::Dir)),
    ]);
    fs.present_dir_fn(chars("/a"), None, listing, Vec::new(), None);
    let names: Vec<String> = fs.current_dir.iter().map(|e| text(&file_name(&e.path))).collect();
    assert_eq!(names, vec!["b", "old.txt"]);
}

#[test]
fn create_targets_current_directory() {
    let (fs, _) = at_a(None);
    assert_eq!(text(&fs.create_file(&chars("new.txt"))), "/a/new.txt");
}

#[test]
fn file_read_without_selection_is_an_error() {
    let fs = FileStruct::new();
    assert_eq!(fs.file_read().unwrap_err().kind, ErrorKind::Unsupported);
}

#[test]
fn seal_then_open_round_trips() {
    let enc = AesEncryptor::new(key());
    for content in [Vec::new(), b"hello".to_vec(), (0..=255u8).collect::<Vec<u8>>()] {
        let blob = enc.encrypt_data(&content).unwrap();
        assert_eq!(blob.len(), NONCE_LEN + content.len() + 16);
        assert_eq!(enc.decrypt_data(&blob).unwrap(), content);
    }
}

#[test]
fn seal_with_given_nonce_lays_out_nonce_first() {
    let enc = AesEncryptor::new(key());
    let nonce = vec![9u8; 12];
    let blob = enc.seal_with_nonce(&nonce, &b"abc".to_vec()).unwrap();
    assert_eq!(&blob[..12], &nonce[..]);
    assert_eq!(blob.len(), 12 + 3 + 16);
    assert_ne!(&blob[12..15], b"abc");
    assert_eq!(enc.decrypt_data(&blob).unwrap(), b"abc".to_vec());
}

#[test]
fn fresh_nonces_differ() {
    let enc = AesEncryptor::new(key());
    let a = enc.encrypt_data(&b"same".to_vec()).unwrap();
    let b = enc.encrypt_data(&b"same".to_vec()).unwrap();
    assert_ne!(a, b);
}

#[test]
fn tampering_fails_authentication() {
    let enc = AesEncryptor::new(key());
    let blob = enc.encrypt_data(&b"secret text".to_vec()).unwrap();
    for i in NONCE_LEN..blob.len() {
        for bit in 0..8 {
            let mut t = blob.clone();
            t[i] ^= 1 << bit;
            assert_eq!(enc.decrypt_data(&t), Err(CryptoError::Authentication));
        }
    }
}

#[test]
fn wrong_key_fails_authentication() {
    let blob = AesEncryptor::new(key()).encrypt_data(&b"x".to_vec()).unwrap();
    let other = AesEncryptor::new([1u8; 32]);
    assert_eq!(other.decrypt_data(&blob), Err(CryptoError::Authentication));
}

#[test]
fn short_data_is_malformed() {
    let enc = AesEncryptor::new(key());
    assert_eq!(enc.decrypt_data(&vec![0u8; 11]), Err(CryptoError::Malformed));
    assert_eq!(enc.decrypt_data(&vec![0u8; 12]), Err(CryptoError::Authentication));
}

fn buffer(s: &str) -> EditBuffer {
    EditBuffer::from_text(&chars(s))
}

#[test]
fn edit_buffer_splits_and_joins() {
    for s in ["", "a", "ab\ncd", "x\n", "\n\n"] {
        let b = buffer(s);
        assert_eq!(b.lines.len(), s.split('\n').count());
        assert_eq!(text(&b.to_text()), s);
    }
}

#[test]
fn insert_then_delete_restores_buffer() {
    for c in ['z', '\n', ' '] {
        let mut b = buffer("ab\ncd");
        b.move_cursor(Direction::Down);
        b.move_cursor(Direction::Right);
        let (row, col) = (b.row, b.col);
        b.insert(c);
        assert_ne!(text(&b.to_text()), "ab\ncd");
        b.delete_before_cursor();
        assert_eq!(text(&b.to_text()), "ab\ncd");
        assert_eq!((b.row, b.col), (row, col));
    }
}

#[test]
fn typing_into_empty_buffer() {
    let mut b = EditBuffer::new();
    b.insert('h');
    b.insert('i');
    b.insert_newline();
    b.insert('!');
    assert_eq!(text(&b.to_text()), "hi\n!");
    assert_eq!((b.row, b.col), (1, 1));
}

#[test]
fn backspace_at_line_start_joins_lines() {
    let mut b = buffer("ab\ncd");
    b.move_cursor(Direction::Down);
    b.move_cursor(Direction::Left);
    b.move_cursor(Direction::Right);
    assert_eq!((b.row, b.col), (1, 0));
    b.delete_before_cursor();
    assert_eq!(text(&b.to_text()), "abcd");
    assert_eq!((b.row, b.col), (0, 2));
    let mut start = buffer("ab");
    start.delete_before_cursor();
    assert_eq!(text(&start.to_text()), "ab");
}

#[test]
fn cursor_wraps_and_clamps() {
    let mut b = buffer("abc\nd");
    b.move_cursor(Direction::Left);
    assert_eq!((b.row, b.col), (0, 0));
    for _ in 0..3 {
        b.move_cursor(Direction::Right);
    }
    assert_eq!((b.row, b.col), (0, 3));
    b.move_cursor(Direction::Right);
    assert_eq!((b.row, b.col), (1, 0));
    b.move_cursor(Direction::Left);
    assert_eq!((b.row, b.col), (0, 3));
    b.move_cursor(Direction::Down);
    assert_eq!((b.row, b.col), (1, 1));
    b.move_cursor(Direction::Right);
    assert_eq!((b.row, b.col), (1, 1));
}

#[test]
fn quit_and_colour_keys() {
    let (mut fs, _) = at_a(None);
    let mut ui = FileScout::new();
    for _ in 0..9 {
        handle_events(&mut ui, &mut fs, Key::Char('c'));
    }
    assert_eq!(ui.color_index, 0);
    handle_events(&mut ui, &mut fs, Key::Char('C'));
    assert_eq!(ui.color_index, 1);
    handle_events(&mut ui, &mut fs, Key::Char('q'));
    assert!(ui.exit);
}

#[test]
fn tab_enters_content_view_only_on_a_file() {
    let (mut fs, _) = at_a(None);
    let mut ui = FileScout::new();
    handle_events(&mut ui, &mut fs, Key::Tab);
    assert_eq!(ui.mode, ViewMode::ListView);
    handle_events(&mut ui, &mut fs, Key::Down);
    fs.read_file(Ok(chars("1\n2\n3")));
    handle_events(&mut ui, &mut fs, Key::Tab);
    assert_eq!(ui.mode, ViewMode::ContentView);
    for _ in 0..5 {
        handle_events(&mut ui, &mut fs, Key::Down);
    }
    assert_eq!(ui.text_scroll_y, 2);
    handle_events(&mut ui, &mut fs, Key::Right);
    assert_eq!(ui.text_scroll_x, 1);
    handle_events(&mut ui, &mut fs, Key::Left);
    handle_events(&mut ui, &mut fs, Key::Left);
    assert_eq!(ui.text_scroll_x, 0);
    handle_events(&mut ui, &mut fs, Key::Tab);
    assert_eq!(ui.mode, ViewMode::ListView);
    assert_eq!((ui.text_scroll_x, ui.text_scroll_y), (0, 0));
}

#[test]
fn arrows_navigate_the_tree() {
    let (mut fs, _) = at_a(None);
    let mut ui = FileScout::new();
    match handle_events(&mut ui, &mut fs, Key::Right) {
        Effect::Enter { path, index } => {
            assert_eq!(text(&path), "/a/b");
            assert_eq!(index, None);
        }
        other => panic!("{:?}", other),
    }
    match handle_events(&mut ui, &mut fs, Key::Left) {
        Effect::Enter { path, index } => {
            assert_eq!(text(&path), "/");
            assert_eq!(index, Some(0));
        }
        other => panic!("{:?}", other),
    }
    match handle_events(&mut ui, &mut fs, Key::Down) {
        Effect::Preview(Load::Content(p)) => assert_eq!(text(&p), "/a/c.txt"),
        other => panic!("{:?}", other),
    }
}

#[test]
fn scenario_encrypt_and_decrypt_targets() {
    let (mut fs, _) = at_a(None);
    let mut ui = FileScout::new();
    handle_events(&mut ui, &mut fs, Key::Char('e'));
    assert_eq!(fs.error.as_ref().map(|e| e.kind), Some(ErrorKind::IsADirectory));
    handle_events(&mut ui, &mut fs, Key::Down);
    match handle_events(&mut ui, &mut fs, Key::Char('e')) {
        Effect::Job { kind, source, dest } => {
            assert_eq!(kind, JobKind::Seal);
            assert_eq!(text(&source), "/a/c.txt");
            assert_eq!(text(&dest), "/a/c.txt.enc");
        }
        other => panic!("{:?}", other),
    }
    handle_events(&mut ui, &mut fs, Key::Char('d'));
    assert_eq!(fs.error.as_ref().map(|e| e.kind), Some(ErrorKind::InvalidInput));

    let listing = vec![entry("/a/c.txt.enc", EntryKind::File)];
    fs.present_dir_fn(chars("/a"), None, listing, Vec::new(), None);
    match handle_events(&mut ui, &mut fs, Key::Char('D')) {
        Effect::Job { kind, source, dest } => {
            assert_eq!(kind, JobKind::Open);
            assert_eq!(text(&source), "/a/c.txt.enc");
            assert_eq!(text(&dest), "/a/c.txt");
        }
        other => panic!("{:?}", other),
    }

    let enc = AesEncryptor::new(key());
    let original = b"contents of c.txt\n".to_vec();
    let sealed = enc.encrypt_data(&original).unwrap();
    assert_eq!(enc.decrypt_data(&sealed).unwrap(), original);
}

#[test]
fn rename_mode_commits_on_enter() {
    let (mut fs, _) = at_a(Some(1));
    let mut ui = FileScout::new();
    handle_events(&mut ui, &mut fs, Key::Char('r'));
    assert_eq!(ui.mode, ViewMode::Rename);
    assert_eq!(text(&ui.input.content), "c.txt");
    for _ in 0..5 {
        handle_events(&mut ui, &mut fs, Key::Backspace);
    }
    for c in "old.txt".chars() {
        handle_events(&mut ui, &mut fs, Key::Char(c));
    }
    match handle_events(&mut ui, &mut fs, Key::Enter) {
        Effect::Rename { from, to, refresh } => {
            assert_eq!(text(&from), "/a/c.txt");
            assert_eq!(text(&to), "/a/old.txt");
            assert_eq!(refresh, 1);
        }
        other => panic!("{:?}", other),
    }
    assert_eq!(ui.mode, ViewMode::ListView);
    assert!(ui.input.content.is_empty());
}

#[test]
fn create_mode_and_escape() {
    let (mut fs, _) = at_a(None);
    let mut ui = FileScout::new();
    handle_events(&mut ui, &mut fs, Key::Char('n'));
    assert_eq!(ui.mode, ViewMode::Create);
    handle_events(&mut ui, &mut fs, Key::Char('q'));
    assert!(!ui.exit);
    handle_events(&mut ui, &mut fs, Key::Esc);
    assert_eq!(ui.mode, ViewMode::ListView);
    assert!(ui.input.content.is_empty());
    handle_events(&mut ui, &mut fs, Key::Char('N'));
    handle_events(&mut ui, &mut fs, Key::Char('x'));
    match handle_events(&mut ui, &mut fs, Key::Enter) {
        Effect::Create { path, refresh } => {
            assert_eq!(text(&path), "/a/x");
            assert_eq!(refresh, 0);
        }
        other => panic!("{:?}", other),
    }
}

#[test]
fn edit_mode_saves_and_cancels() {
    let (mut fs, _) = at_a(Some(1));
    let mut ui = FileScout::new();
    match handle_events(&mut ui, &mut fs, Key::Char('o')) {
        Effect::OpenForEdit { path } => assert_eq!(text(&path), "/a/c.txt"),
        other => panic!("{:?}", other),
    }
    ui.begin_edit(&chars("ab"));
    assert_eq!(ui.mode, ViewMode::FileEdit);
    handle_events(&mut ui, &mut fs, Key::Right);
    handle_events(&mut ui, &mut fs, Key::Char('X'));
    handle_events(&mut ui, &mut fs, Key::Tab);
    handle_events(&mut ui, &mut fs, Key::Enter);
    handle_events(&mut ui, &mut fs, Key::Char('q'));
    assert!(!ui.exit);
    match handle_events(&mut ui, &mut fs, Key::Ctrl('s')) {
        Effect::Save { path, text: t, refresh } => {
            assert_eq!(text(&path), "/a/c.txt");
            assert_eq!(text(&t), "aX \nqb");
            assert_eq!(refresh, 1);
        }
        other => panic!("{:?}", other),
    }
    assert_eq!(ui.mode, ViewMode::ListView);

    ui.begin_edit(&chars("zz"));
    handle_events(&mut ui, &mut fs, Key::Backspace);
    assert!(matches!(handle_events(&mut ui, &mut fs, Key::Ctrl('c')), Effect::Nothing));
    assert_eq!(ui.mode, ViewMode::ListView);
}

#[test]
fn delete_key_asks_for_removal() {
    let (mut fs, _) = at_a(Some(1));
    let mut ui = FileScout::new();
    match handle_events(&mut ui, &mut fs, Key::Delete) {
        Effect::Delete { path, is_dir, refresh } => {
            assert_eq!(text(&path), "/a/c.txt");
            assert!(!is_dir);
            assert_eq!(refresh, 0);
        }
        other => panic!("{:?}", other),
    }
}

#[test]
fn job_outcomes_update_shared_state() {
    let (mut fs, _) = at_a(Some(1));
    assert_eq!(job_finished(&mut fs, Ok(())), Some(1));
    assert!(fs.error.is_none());
    let failed = FsError { kind: ErrorKind::DecryptionFailed, message: Vec::new() };
    assert_eq!(job_finished(&mut fs, Err(failed)), None);
    assert_eq!(fs.error.as_ref().map(|e| e.kind), Some(ErrorKind::DecryptionFailed));
}
