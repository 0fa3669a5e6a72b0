use safm::commands::dispatch;
use safm::commands::is_fatal;
use safm::commands::request;
use safm::commands::Command;
use safm::commands::EnterToDirCommand;
use safm::commands::GoToParentDirCommand;
use safm::commands::MoveCursorDownCommand;
use safm::commands::MoveCursorUpCommand;
use safm::commands::Operation;
use safm::commands::QuitCommand;
use safm::commands::Reply;
use safm::commands::Request;
use safm::commands::ShowFileCommand;
use safm::entry::Entry;
use safm::entry::EntryKind;
use safm::fm::FileManager;
use safm::model::NavError;

fn entry(name: &str, kind: EntryKind, size: u64) -> Entry {
    Entry { name: name.to_string(), kind, size, permission_bits: 0o644 }
}

fn listing_of_a() -> Vec<Entry> {
    vec![entry("sub", EntryKind::Directory, 0), entry("file.txt", EntryKind::RegularFile, 12)]
}

fn files(count: usize) -> Vec<Entry> {
    let mut rows = Vec::new();
    for i in 0..count {
        rows.push(entry(&format!("f{}", i), EntryKind::RegularFile, 1));
    }
    rows
}

fn browser_on_a() -> FileManager {
    let mut fm = FileManager::new("/a".to_string(), 24);
    fm.update_entries(listing_of_a());
    fm
}

#[test]
fn new_browser_is_empty_listing() {
    let fm = FileManager::new("/a".to_string(), 24);
    assert_eq!(fm.position(), 0);
    assert!(fm.entries().is_empty());
    assert!(fm.position_history().is_empty());
    assert!(fm.buffer().is_empty());
    assert_eq!(fm.current_path(), "/a");
    assert!(!fm.is_viewing_file());
    assert_eq!(fm.preview(), "");
    assert_eq!(fm.term_height(), 24);
}

#[test]
fn move_down_n_times_returns_to_start() {
    for n in 1..6usize {
        for c in 0..n {
            let mut fm = FileManager::new("/a".to_string(), 24);
            fm.update_entries(files(n));
            fm.set_position(c);
            for _ in 0..n {
                fm.move_down();
            }
            assert_eq!(fm.position(), c);
        }
    }
}

#[test]
fn move_up_n_times_returns_to_start() {
    for n in 1..6usize {
        for c in 0..n {
            let mut fm = FileManager::new("/a".to_string(), 24);
            fm.update_entries(files(n));
            fm.set_position(c);
            for _ in 0..n {
                fm.move_up();
            }
            assert_eq!(fm.position(), c);
        }
    }
}

#[test]
fn move_up_from_first_row_wraps_to_last() {
    let mut fm = FileManager::new("/a".to_string(), 24);
    fm.update_entries(files(5));
    fm.move_up();
    assert_eq!(fm.position(), 4);
    fm.move_up();
    assert_eq!(fm.position(), 3);
}

#[test]
fn move_down_from_last_row_wraps_to_first() {
    let mut fm = FileManager::new("/a".to_string(), 24);
    fm.update_entries(files(5));
    fm.set_position(3);
    fm.move_down();
    assert_eq!(fm.position(), 4);
    fm.move_down();
    assert_eq!(fm.position(), 0);
}

#[test]
fn single_entry_wraps_to_itself() {
    let mut fm = FileManager::new("/a".to_string(), 24);
    fm.update_entries(files(1));
    fm.move_down();
    assert_eq!(fm.position(), 0);
    fm.move_up();
    assert_eq!(fm.position(), 0);
}

#[test]
fn empty_list_makes_every_operation_a_no_op() {
    let mut fm = FileManager::new("/a".to_string(), 24);
    fm.move_up();
    assert_eq!(fm.position(), 0);
    fm.move_down();
    assert_eq!(fm.position(), 0);
    assert_eq!(fm.descend_target(), None);
    assert_eq!(fm.enter_directory(Some(files(2))), Ok(()));
    assert_eq!(fm.current_path(), "/a");
    assert!(fm.entries().is_empty());
    assert!(fm.position_history().is_empty());
    assert_eq!(fm.file_target(), None);
    assert_eq!(fm.open_file(Some("x".to_string())), Ok(()));
    assert!(!fm.is_viewing_file());
}

#[test]
fn cursor_keys_do_nothing_in_preview() {
    let mut fm = browser_on_a();
    fm.set_position(1);
    assert_eq!(fm.open_file(Some("hello".to_string())), Ok(()));
    fm.move_up();
    assert_eq!(fm.position(), 1);
    fm.move_down();
    assert_eq!(fm.position(), 1);
}

#[test]
fn enter_on_file_is_refused_and_changes_nothing() {
    let mut fm = browser_on_a();
    fm.set_position(1);
    assert_eq!(fm.descend_target(), None);
    assert_eq!(fm.enter_directory(Some(files(3))), Err(NavError::NotADirectory));
    assert_eq!(fm.current_path(), "/a");
    assert_eq!(fm.entries(), &listing_of_a());
    assert_eq!(fm.position(), 1);
    assert!(fm.position_history().is_empty());
}

#[test]
fn enter_on_symlink_is_refused() {
    let mut fm = FileManager::new("/a".to_string(), 24);
    fm.update_entries(vec![entry("link", EntryKind::Symlink, 3)]);
    assert_eq!(fm.enter_directory(Some(files(1))), Err(NavError::NotADirectory));
    assert_eq!(fm.current_path(), "/a");
    assert!(fm.position_history().is_empty());
}

#[test]
fn scenario_move_open_close() {
    let mut fm = browser_on_a();
    assert_eq!(fm.position(), 0);
    fm.move_down();
    assert_eq!(fm.position(), 1);
    assert_eq!(fm.file_target(), Some("/a/file.txt".to_string()));
    assert_eq!(fm.open_file(Some("hello\nworld\n".to_string())), Ok(()));
    assert!(fm.is_viewing_file());
    assert_eq!(fm.preview(), "hello\r\nworld\r\n");
    fm.close_preview();
    assert!(!fm.is_viewing_file());
    assert_eq!(fm.position(), 1);
}

#[test]
fn scenario_enter_then_parent() {
    let mut fm = FileManager::new("/a".to_string(), 24);
    fm.update_entries(vec![
        entry("file.txt", EntryKind::RegularFile, 12),
        entry("sub", EntryKind::Directory, 0),
    ]);
    fm.set_position(1);
    assert_eq!(fm.descend_target(), Some("/a/sub".to_string()));
    assert_eq!(fm.enter_directory(Some(files(3))), Ok(()));
    assert_eq!(fm.current_path(), "/a/sub");
    assert_eq!(fm.position(), 0);
    assert_eq!(fm.position_history(), &vec![1usize]);
    assert_eq!(fm.entries(), &files(3));

    assert_eq!(fm.ascend_target(), "/a");
    let back = vec![
        entry("file.txt", EntryKind::RegularFile, 12),
        entry("sub", EntryKind::Directory, 0),
    ];
    assert_eq!(fm.go_to_parent(Some(back.clone())), Ok(()));
    assert_eq!(fm.current_path(), "/a");
    assert_eq!(fm.position(), 1);
    assert!(fm.position_history().is_empty());
    assert_eq!(fm.entries(), &back);
}

#[test]
fn scenario_unreadable_directory() {
    let mut fm = browser_on_a();
    assert_eq!(fm.descend_target(), Some("/a/sub".to_string()));
    assert_eq!(fm.enter_directory(None), Err(NavError::DirectoryReadFailure));
    assert_eq!(fm.current_path(), "/a");
    assert_eq!(fm.position(), 0);
    assert_eq!(fm.entries(), &listing_of_a());
    assert!(fm.position_history().is_empty());
}

#[test]
fn failed_descent_leaves_no_row_for_a_later_ascent() {
    let mut fm = FileManager::new("/top/a".to_string(), 24);
    fm.update_entries(vec![
        entry("open", EntryKind::Directory, 0),
        entry("locked", EntryKind::Directory, 0),
    ]);
    fm.set_position(1);
    assert_eq!(fm.enter_directory(None), Err(NavError::DirectoryReadFailure));
    assert_eq!(fm.position(), 1);
    assert!(fm.position_history().is_empty());
    fm.set_position(0);
    assert_eq!(fm.enter_directory(Some(files(2))), Ok(()));
    assert_eq!(fm.position_history(), &vec![0usize]);
    assert_eq!(fm.go_to_parent(Some(files(2))), Ok(()));
    assert_eq!(fm.position(), 0);
    assert!(fm.position_history().is_empty());
    assert_eq!(fm.go_to_parent(Some(files(4))), Ok(()));
    assert_eq!(fm.current_path(), "/top");
    assert_eq!(fm.position(), 0);
}

#[test]
fn nested_descents_restore_each_cursor() {
    let dirs = |n: usize| -> Vec<Entry> {
        let mut rows = Vec::new();
        for i in 0..n {
            rows.push(entry(&format!("d{}", i), EntryKind::Directory, 0));
        }
        rows
    };
    let mut fm = FileManager::new("/r".to_string(), 24);
    fm.update_entries(dirs(4));
    fm.set_position(2);
    assert_eq!(fm.enter_directory(Some(dirs(5))), Ok(()));
    fm.set_position(4);
    assert_eq!(fm.enter_directory(Some(dirs(3))), Ok(()));
    fm.move_down();
    assert_eq!(fm.enter_directory(Some(dirs(2))), Ok(()));
    assert_eq!(fm.current_path(), "/r/d2/d4/d1");
    assert_eq!(fm.position_history(), &vec![2usize, 4, 1]);

    assert_eq!(fm.go_to_parent(Some(dirs(3))), Ok(()));
    assert_eq!((fm.current_path().as_str(), fm.position()), ("/r/d2/d4", 1));
    assert_eq!(fm.go_to_parent(Some(dirs(5))), Ok(()));
    assert_eq!((fm.current_path().as_str(), fm.position()), ("/r/d2", 4));
    assert_eq!(fm.go_to_parent(Some(dirs(4))), Ok(()));
    assert_eq!((fm.current_path().as_str(), fm.position()), ("/r", 2));
    assert!(fm.position_history().is_empty());
}

#[test]
fn parent_without_history_puts_cursor_on_first_row() {
    let mut fm = FileManager::new("/a/sub".to_string(), 24);
    fm.update_entries(files(3));
    fm.set_position(2);
    assert_eq!(fm.go_to_parent(Some(listing_of_a())), Ok(()));
    assert_eq!(fm.current_path(), "/a");
    assert_eq!(fm.position(), 0);
}

#[test]
fn parent_of_root_stays_at_root() {
    let mut fm = FileManager::new("/".to_string(), 24);
    fm.update_entries(files(3));
    assert_eq!(fm.ascend_target(), "/");
    assert_eq!(fm.go_to_parent(Some(files(2))), Ok(()));
    assert_eq!(fm.current_path(), "/");
    assert_eq!(fm.entries(), &files(2));
}

#[test]
fn remembered_row_that_is_gone_gives_first_row() {
    let mut fm = FileManager::new("/a".to_string(), 24);
    fm.update_entries(vec![
        entry("x", EntryKind::RegularFile, 1),
        entry("y", EntryKind::RegularFile, 1),
        entry("sub", EntryKind::Directory, 0),
    ]);
    fm.set_position(2);
    assert_eq!(fm.enter_directory(Some(files(1))), Ok(()));
    assert_eq!(fm.go_to_parent(Some(files(2))), Ok(()));
    assert_eq!(fm.position(), 0);
}

#[test]
fn failed_read_of_parent_is_reported() {
    let mut fm = FileManager::new("/a/sub".to_string(), 24);
    fm.update_entries(files(3));
    assert_eq!(fm.go_to_parent(None), Err(NavError::DirectoryReadFailure));
    assert_eq!(fm.current_path(), "/a");
    assert_eq!(fm.entries(), &files(3));
}

#[test]
fn open_on_directory_is_refused() {
    let mut fm = browser_on_a();
    assert_eq!(fm.file_target(), None);
    assert_eq!(fm.open_file(Some("text".to_string())), Err(NavError::NotAFile));
    assert!(!fm.is_viewing_file());
}

#[test]
fn failed_file_read_keeps_the_listing() {
    let mut fm = browser_on_a();
    fm.set_position(1);
    assert_eq!(fm.open_file(None), Err(NavError::FileReadFailure));
    assert!(!fm.is_viewing_file());
    assert_eq!(fm.preview(), "");
}

#[test]
fn update_entries_keeps_cursor_where_the_row_remains() {
    let mut fm = FileManager::new("/a".to_string(), 24);
    fm.update_entries(files(5));
    fm.set_position(3);
    fm.update_entries(files(4));
    assert_eq!(fm.position(), 3);
    fm.update_entries(files(2));
    assert_eq!(fm.position(), 0);
    fm.update_entries(Vec::new());
    assert_eq!(fm.position(), 0);
}

#[test]
fn setters_and_borrowed_fields() {
    let mut fm = browser_on_a();
    fm.set_current_path("/b".to_string());
    assert_eq!(fm.current_path(), "/b");
    fm.current_path_mut().push_str("/c");
    assert_eq!(fm.current_path(), "/b/c");
    fm.position_history_mut().push(7);
    assert_eq!(fm.position_history(), &vec![7usize]);
    fm.entries_mut().pop();
    assert_eq!(fm.entries().len(), 1);
    assert_eq!(fm.current_entry().name, "sub");
    fm.buffer_mut().clear();
    assert!(fm.buffer().is_empty());
    fm.toggle_file_view();
    assert!(fm.is_viewing_file());
    fm.toggle_file_view();
    assert!(!fm.is_viewing_file());
}

#[test]
fn requests_name_what_to_read() {
    let mut fm = browser_on_a();
    assert_eq!(request(Operation::Quit, &fm), Request::Quit);
    assert_eq!(request(Operation::MoveUp, &fm), Request::Nothing);
    assert_eq!(request(Operation::MoveDown, &fm), Request::Nothing);
    assert_eq!(
        request(Operation::EnterDirectory, &fm),
        Request::ReadDirectory("/a/sub".to_string())
    );
    assert_eq!(request(Operation::GoToParent, &fm), Request::ReadDirectory("/".to_string()));
    assert_eq!(request(Operation::OpenFile, &fm), Request::Nothing);
    fm.set_position(1);
    assert_eq!(request(Operation::EnterDirectory, &fm), Request::Nothing);
    assert_eq!(request(Operation::OpenFile, &fm), Request::ReadFile("/a/file.txt".to_string()));
}

#[test]
fn dispatch_runs_the_operation() {
    let mut fm = browser_on_a();
    assert_eq!(dispatch(Operation::MoveDown, &mut fm, Reply::Nothing), Ok(()));
    assert_eq!(fm.position(), 1);
    assert_eq!(dispatch(Operation::EnterDirectory, &mut fm, Reply::Nothing), Err(NavError::NotADirectory));
    assert_eq!(dispatch(Operation::OpenFile, &mut fm, Reply::Failed), Err(NavError::FileReadFailure));
    assert_eq!(dispatch(Operation::OpenFile, &mut fm, Reply::Text("a\nb".to_string())), Ok(()));
    assert!(fm.is_viewing_file());
    assert_eq!(fm.preview(), "a\r\nb");
    assert_eq!(request(Operation::OpenFile, &fm), Request::Nothing);
    assert_eq!(dispatch(Operation::OpenFile, &mut fm, Reply::Nothing), Ok(()));
    assert!(!fm.is_viewing_file());
    assert_eq!(dispatch(Operation::MoveUp, &mut fm, Reply::Nothing), Ok(()));
    assert_eq!(fm.position(), 0);
    assert_eq!(dispatch(Operation::EnterDirectory, &mut fm, Reply::Failed), Err(NavError::DirectoryReadFailure));
    assert_eq!(fm.current_path(), "/a");
    assert_eq!(dispatch(Operation::EnterDirectory, &mut fm, Reply::Listing(files(2))), Ok(()));
    assert_eq!(fm.current_path(), "/a/sub");
    assert_eq!(dispatch(Operation::GoToParent, &mut fm, Reply::Listing(listing_of_a())), Ok(()));
    assert_eq!(fm.current_path(), "/a");
    assert_eq!(dispatch(Operation::GoToParent, &mut fm, Reply::Failed), Err(NavError::DirectoryReadFailure));
    assert_eq!(dispatch(Operation::Quit, &mut fm, Reply::Nothing), Ok(()));
}

#[test]
fn commands_run_through_the_trait() {
    let mut fm = browser_on_a();
    assert_eq!(MoveCursorDownCommand.execute(&mut fm, Reply::Nothing), Ok(()));
    assert_eq!(fm.position(), 1);
    assert_eq!(ShowFileCommand.execute(&mut fm, Reply::Text("x\n".to_string())), Ok(()));
    assert_eq!(fm.preview(), "x\r\n");
    assert_eq!(ShowFileCommand.execute(&mut fm, Reply::Nothing), Ok(()));
    assert!(!fm.is_viewing_file());
    assert_eq!(MoveCursorUpCommand.execute(&mut fm, Reply::Nothing), Ok(()));
    assert_eq!(fm.position(), 0);
    assert_eq!(EnterToDirCommand.execute(&mut fm, Reply::Listing(files(1))), Ok(()));
    assert_eq!(fm.current_path(), "/a/sub");
    assert_eq!(GoToParentDirCommand.execute(&mut fm, Reply::Listing(listing_of_a())), Ok(()));
    assert_eq!(fm.current_path(), "/a");
    assert_eq!(QuitCommand.execute(&mut fm, Reply::Nothing), Ok(()));
    assert_eq!(fm.position(), 0);
    assert_eq!(fm.entries(), &listing_of_a());
}

#[test]
fn only_a_lost_parent_or_terminal_is_fatal() {
    assert!(is_fatal(Operation::GoToParent, NavError::DirectoryReadFailure));
    assert!(!is_fatal(Operation::EnterDirectory, NavError::DirectoryReadFailure));
    assert!(!is_fatal(Operation::EnterDirectory, NavError::NotADirectory));
    assert!(!is_fatal(Operation::OpenFile, NavError::NotAFile));
    assert!(!is_fatal(Operation::OpenFile, NavError::FileReadFailure));
    assert!(is_fatal(Operation::MoveUp, NavError::TerminalIOFailure));
    assert!(is_fatal(Operation::Quit, NavError::TerminalIOFailure));
}
