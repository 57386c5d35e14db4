use fx::config::{getDirectory, Args, Config, Show, SortOrder, StartError};
use fx::nav::{exitDir, handleAction, loadEntries, openDir, Action, DirItem, DirList, EntryInfo, Step};

fn info(name: &str, path: &str, isDir: bool, mode: Option<u32>) -> EntryInfo {
    EntryInfo { fileName: name.to_string(), path: path.to_string(), isDir, mode }
}

fn item(name: &str, path: &str, perm: &str) -> DirItem {
    DirItem { name: name.to_string(), path: path.to_string(), perm: perm.to_string() }
}

fn names(d: &DirList) -> Vec<String> {
    d.items.items.iter().map(|i| i.name.clone()).collect()
}

fn paths(d: &DirList) -> Vec<String> {
    d.items.items.iter().map(|i| i.path.clone()).collect()
}

fn home() -> DirList {
    DirList::new(
        "/home".to_string(),
        vec![item("docs/", "/home/me/docs", "rwxr-xr-x"), item("a.txt", "/home/me/a.txt", "rw-r--r--")],
    )
}

#[test]
fn entries_keep_failing_child_with_err() {
    let items = loadEntries(vec![
        info("a.txt", "/d/a.txt", false, Some(0o644)),
        info("secret", "/d/secret", true, None),
        info("bin", "/d/bin", true, Some(0o755)),
    ]);
    assert_eq!(items.len(), 3);
    assert_eq!(items[0].name, "a.txt");
    assert_eq!(items[0].perm, "rw-r--r--");
    assert_eq!(items[1].name, "secret/");
    assert_eq!(items[1].path, "/d/secret");
    assert_eq!(items[1].perm, "ERR");
    assert_eq!(items[2].name, "bin/");
    assert_eq!(items[2].perm, "rwxr-xr-x");
}

#[test]
fn entries_of_empty_directory() {
    assert!(loadEntries(vec![]).is_empty());
}

#[test]
fn descend_without_selection_is_noop() {
    let mut d = home();
    openDir(&mut d, true, Some(vec![item("x", "/home/me/docs/x", "---------")]));
    assert_eq!(d.parent, "/home");
    assert_eq!(names(&d), vec!["docs/", "a.txt"]);
    assert_eq!(d.items.selected, None);
}

#[test]
fn descend_into_file_is_noop() {
    let mut d = home();
    d.items.next();
    d.items.next();
    assert_eq!(d.selectedPath().as_deref(), Some("/home/me/a.txt"));
    openDir(&mut d, false, Some(vec![]));
    assert_eq!(d.parent, "/home");
    assert_eq!(names(&d), vec!["docs/", "a.txt"]);
    assert_eq!(d.items.selected, Some(1));
}

#[test]
fn descend_with_failed_load_is_noop() {
    let mut d = home();
    d.items.next();
    openDir(&mut d, true, None);
    assert_eq!(d.parent, "/home");
    assert_eq!(d.items.selected, Some(0));
}

#[test]
fn descend_then_ascend_round_trip() {
    let mut d = home();
    let before = paths(&d);
    d.items.next();
    openDir(&mut d, true, Some(vec![item("notes.md", "/home/me/docs/notes.md", "rw-------")]));
    assert_eq!(d.parent, "/home/me");
    assert_eq!(names(&d), vec!["notes.md"]);
    assert_eq!(d.items.selected, None);
    exitDir(&mut d, Some(vec![item("docs/", "/home/me/docs", "rwxr-xr-x"), item("a.txt", "/home/me/a.txt", "rw-r--r--")]));
    assert_eq!(d.parent, "/home");
    assert_eq!(paths(&d), before);
    assert_eq!(d.items.selected, None);
}

#[test]
fn ascend_with_failed_load_is_noop() {
    let mut d = home();
    d.items.next();
    exitDir(&mut d, None);
    assert_eq!(d.parent, "/home");
    assert_eq!(d.items.selected, Some(0));
}

#[test]
fn ascend_to_root_shows_root() {
    let mut d = DirList::new("/".to_string(), vec![item("me/", "/home/me", "rwxr-xr-x")]);
    d.items.next();
    exitDir(&mut d, Some(vec![item("etc/", "/etc", "rwxr-xr-x"), item("home/", "/home", "rwxr-xr-x")]));
    assert_eq!(d.parent, "/");
    assert_eq!(names(&d), vec!["etc/", "home/"]);
    assert_eq!(d.items.selected, None);
}

#[test]
fn ascend_at_root_reloads_root() {
    let mut d = DirList::opening("/".to_string(), vec![item("etc/", "/etc", "rwxr-xr-x")]);
    assert_eq!(d.parent, "/");
    exitDir(&mut d, Some(vec![item("etc/", "/etc", "rwxr-xr-x"), item("tmp/", "/tmp", "rwxrwxrwx")]));
    assert_eq!(d.parent, "/");
    assert_eq!(names(&d), vec!["etc/", "tmp/"]);
}

#[test]
fn opening_uses_parent_of_start_directory() {
    let d = DirList::opening("/home/me".to_string(), vec![]);
    assert_eq!(d.parent, "/home");
    assert_eq!(d.selectedPath(), None);
}

#[test]
fn start_directory_named_and_present() {
    let args = Args { dir: Some("/tmp".to_string()) };
    assert!(matches!(getDirectory(&args, true, "/cwd".to_string()), Ok(d) if d == "/tmp"));
}

#[test]
fn start_directory_named_and_missing() {
    let args = Args { dir: Some("/nope".to_string()) };
    assert!(matches!(getDirectory(&args, false, "/cwd".to_string()), Err(StartError::NotFound(p)) if p == "/nope"));
}

#[test]
fn start_directory_defaults_to_current() {
    let args = Args { dir: None };
    assert!(matches!(getDirectory(&args, false, "/cwd".to_string()), Ok(d) if d == "/cwd"));
}

#[test]
fn show_cycles_both_ways() {
    let mut c = Config { show: Show::All, sortOrder: SortOrder::ZToA };
    c.showNext();
    assert_eq!(c.show, Show::FilesAndDirs);
    c.showNext();
    c.showNext();
    assert_eq!(c.show, Show::DirsOnly);
    c.showNext();
    assert_eq!(c.show, Show::All);
    c.showPrev();
    assert_eq!(c.show, Show::DirsOnly);
    c.showPrev();
    assert_eq!(c.show, Show::FilesOnly);
    assert_eq!(c.sortOrder, SortOrder::ZToA);
}

#[test]
fn actions_move_cursor_and_ask_for_loads() {
    let mut d = home();
    assert_eq!(handleAction(&mut d, Action::MoveNext), Step::Continue);
    assert_eq!(d.items.selected, Some(0));
    assert_eq!(handleAction(&mut d, Action::MovePrevious), Step::Continue);
    assert_eq!(d.items.selected, Some(1));
    assert_eq!(handleAction(&mut d, Action::Descend), Step::Descend);
    assert_eq!(handleAction(&mut d, Action::Ascend), Step::Ascend);
    assert_eq!(d.items.selected, Some(1));
    assert_eq!(d.parent, "/home");
    assert_eq!(handleAction(&mut d, Action::Unselect), Step::Continue);
    assert_eq!(d.items.selected, None);
    assert_eq!(handleAction(&mut d, Action::Quit), Step::Quit);
}
