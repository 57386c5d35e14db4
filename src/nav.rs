//! Directory entries and the navigation state machine: descending into a
//! selected directory and ascending to the parent.
use vstd::prelude::*;

use crate::format::{getPerm, perm_text};
use crate::list::{next_selection, previous_selection, StatefulList};

verus! {

/// One child of the displayed directory.
pub struct DirItem {
    /// The file name, with a trailing `/` for a directory.
    pub name: String,
    pub path: String,
    /// The nine-character permission rendering, or `ERR` where the entry's
    /// metadata could not be read.
    pub perm: String,
}

/// What a directory listing read of one child.
pub struct EntryInfo {
    pub fileName: String,
    pub path: String,
    pub isDir: bool,
    /// The entry's mode bits, or `None` where its metadata could not be read.
    pub mode: Option<u32>,
}

/// The entry built from what was read of one child.
pub open spec fn item_of(fileName: Seq<char>, path: Seq<char>, isDir: bool, mode: Option<u32>) -> (Seq<char>, Seq<char>, Seq<char>) {
    (
        if isDir { fileName + "/"@ } else { fileName },
        path,
        match mode {
            Some(m) => perm_text(m),
            None => "ERR"@,
        },
    )
}

impl DirItem {
    pub open spec fn view(&self) -> (Seq<char>, Seq<char>, Seq<char>) {
        (self.name@, self.path@, self.perm@)
    }

    /// The entry of one child, from its file name, path, whether it is a
    /// directory and its mode bits, if they could be read.
    pub fn fromEntry(fileName: String, path: String, isDir: bool, mode: Option<u32>) -> (r: DirItem)
        ensures
            r.view() == item_of(fileName@, path@, isDir, mode),
    {
        let mut name = fileName;
        if isDir {
            name.append("/");
        }
        let perm = match mode {
            Some(m) => getPerm(m),
            None => String::from_str("ERR"),
        };
        DirItem { name, path, perm }
    }
}

/// Builds the entries of a directory from what was read of each child, in
/// the order given; a child whose metadata could not be read keeps its place
/// and gets the permission text `ERR`.
pub fn loadEntries(infos: Vec<EntryInfo>) -> (r: Vec<DirItem>)
    ensures
        r@.len() == infos@.len(),
        forall|i: int| 0 <= i < r@.len() ==> (#[trigger] r@[i]).view() == item_of(
            infos@[i].fileName@,
            infos@[i].path@,
            infos@[i].isDir,
            infos@[i].mode,
        ),
{
    let mut out: Vec<DirItem> = Vec::new();
    let mut rest = infos;
    let ghost all = rest@;
    while rest.len() > 0
        invariant
            out@.len() + rest@.len() == all.len(),
            rest@ == all.subrange(out@.len() as int, all.len() as int),
            forall|i: int| 0 <= i < out@.len() ==> (#[trigger] out@[i]).view() == item_of(
                all[i].fileName@,
                all[i].path@,
                all[i].isDir,
                all[i].mode,
            ),
        decreases rest@.len(),
    {
        let info = rest.remove(0);
        let item = DirItem::fromEntry(info.fileName, info.path, info.isDir, info.mode);
        out.push(item);
    }
    out
}

// ---------------------------------------------------------------------------
// Paths

/// The parent of a path as `std::path::Path::parent` gives it.
pub uninterp spec fn path_parent(p: Seq<char>) -> Option<Seq<char>>;

/// Relies on `std::path::Path::parent`: the path without its last component,
/// or `None` for a root or an empty path.
#[verifier::external_body]
fn parent_of(p: &String) -> (r: Option<String>)
    ensures
        match r {
            Some(q) => path_parent(p@) == Some(q@),
            None => path_parent(p@) is None,
        },
{
    std::path::Path::new(p.as_str()).parent().map(|q| q.to_string_lossy().into_owned())
}

// ---------------------------------------------------------------------------
// Navigation

/// The navigation state as values: the parent of the displayed directory,
/// the displayed directory's entries and the cursor.
pub struct NavView {
    pub parent: Seq<char>,
    pub items: Seq<DirItem>,
    pub selected: Option<nat>,
}

/// The displayed directory's children and the directory one level above it.
pub struct DirList {
    pub parent: String,
    pub items: StatefulList<DirItem>,
}

/// The state that shows the entries `items` with nothing selected.
pub open spec fn fresh_view(parent: Seq<char>, items: Seq<DirItem>) -> NavView {
    NavView { parent, items, selected: None }
}

/// The state after a descend: where an entry is selected, it is a directory,
/// its children were loaded and it has a parent, the new state shows those
/// children beneath that parent; otherwise nothing changes.
pub open spec fn descend_view(s: NavView, isDir: bool, loaded: Option<Seq<DirItem>>) -> NavView {
    match s.selected {
        None => s,
        Some(i) => if !isDir {
            s
        } else {
            match loaded {
                None => s,
                Some(c) => match path_parent(s.items[i as int].path@) {
                    None => s,
                    Some(p) => fresh_view(p, c),
                },
            }
        },
    }
}

/// The state after an ascend: where the children of the current parent were
/// loaded, the new state shows them beneath that parent's own parent; a root,
/// which has no parent, stands as its own. On a failed load nothing changes.
pub open spec fn ascend_view(s: NavView, loaded: Option<Seq<DirItem>>) -> NavView {
    match loaded {
        None => s,
        Some(c) => match path_parent(s.parent) {
            None => fresh_view(s.parent, c),
            Some(p) => fresh_view(p, c),
        },
    }
}

pub open spec fn loaded_view(loaded: Option<Vec<DirItem>>) -> Option<Seq<DirItem>> {
    match loaded {
        Some(v) => Some(v@),
        None => None,
    }
}

impl DirList {
    pub open spec fn view(&self) -> NavView {
        NavView { parent: self.parent@, items: self.items.items@, selected: self.items.cursor() }
    }

    pub open spec fn wf(&self) -> bool {
        self.items.wf()
    }

    /// The state that shows `items` beneath `parent`, with nothing selected.
    pub fn new(parent: String, items: Vec<DirItem>) -> (r: DirList)
        ensures
            r.wf(),
            r.view() == fresh_view(parent@, items@),
    {
        DirList { parent, items: StatefulList::with_items(items) }
    }

    /// The state at start-up, showing `items`, the children of `dir`; at a
    /// root, which has no parent, `dir` stands as its own parent.
    pub fn opening(dir: String, items: Vec<DirItem>) -> (r: DirList)
        ensures
            r.wf(),
            r.view() == fresh_view(
                match path_parent(dir@) {
                    Some(p) => p,
                    None => dir@,
                },
                items@,
            ),
    {
        match parent_of(&dir) {
            Some(p) => DirList::new(p, items),
            None => DirList::new(dir, items),
        }
    }

    /// The path of the selected entry, if any.
    pub fn selectedPath(&self) -> (r: Option<String>)
        requires
            self.wf(),
        ensures
            match self.view().selected {
                Some(i) => r matches Some(p) && p@ == self.view().items[i as int].path@,
                None => r is None,
            },
    {
        match self.items.selected {
            Some(i) => Some(self.items.items[i].path.clone()),
            None => None,
        }
    }
}

/// Descends into the selected entry. `isDir` tells whether the selected
/// entry's path is a directory, and `contents` holds its children, or `None`
/// where they could not be loaded. The whole state is replaced at once, or
/// left as it was.
pub fn openDir(dirList: &mut DirList, isDir: bool, contents: Option<Vec<DirItem>>)
    requires
        old(dirList).wf(),
    ensures
        final(dirList).wf(),
        final(dirList).view() == descend_view(old(dirList).view(), isDir, loaded_view(contents)),
        old(dirList).view().selected is None || !isDir ==> final(dirList).view() == old(dirList).view(),
{
    if let Some(i) = dirList.items.selected {
        if !isDir {
            return;
        }
        if let Some(c) = contents {
            if let Some(p) = parent_of(&dirList.items.items[i].path) {
                *dirList = DirList::new(p, c);
            }
        }
    }
}

/// Ascends to the parent. `contents` holds the children of the current
/// parent, or `None` where they could not be loaded, in which case nothing
/// changes. A root, which has no parent, stands as its own parent.
pub fn exitDir(dirList: &mut DirList, contents: Option<Vec<DirItem>>)
    requires
        old(dirList).wf(),
    ensures
        final(dirList).wf(),
        final(dirList).view() == ascend_view(old(dirList).view(), loaded_view(contents)),
{
    if let Some(c) = contents {
        *dirList = match parent_of(&dirList.parent) {
            Some(p) => DirList::new(p, c),
            None => DirList::new(dirList.parent.clone(), c),
        };
    }
}

// ---------------------------------------------------------------------------
// Input

/// The logical actions that the input layer hands over.
#[derive(Clone, Copy, Debug, PartialEq, Eq, Structural)]
pub enum Action {
    MoveNext,
    MovePrevious,
    Unselect,
    Descend,
    Ascend,
    Quit,
}

/// What the loop does after an action: go on, load the selected directory
/// and descend, load the parent and ascend, or stop.
#[derive(Clone, Copy, Debug, PartialEq, Eq, Structural)]
pub enum Step {
    Continue,
    Descend,
    Ascend,
    Quit,
}

/// Applies a cursor action to the list and tells the loop what is left to do;
/// a descend or an ascend needs a directory load, which the caller makes
/// before calling `openDir` or `exitDir`.
pub fn handleAction(dirList: &mut DirList, action: Action) -> (r: Step)
    requires
        old(dirList).wf(),
    ensures
        final(dirList).wf(),
        final(dirList).view().parent == old(dirList).view().parent,
        final(dirList).view().items == old(dirList).view().items,
        final(dirList).view().selected == match action {
            Action::MoveNext => next_selection(old(dirList).view().items.len(), old(dirList).view().selected),
            Action::MovePrevious => previous_selection(old(dirList).view().items.len(), old(dirList).view().selected),
            Action::Unselect => None,
            _ => old(dirList).view().selected,
        },
        r == match action {
            Action::Descend => Step::Descend,
            Action::Ascend => Step::Ascend,
            Action::Quit => Step::Quit,
            _ => Step::Continue,
        },
{
    match action {
        Action::MoveNext => {
            dirList.items.next();
            Step::Continue
        },
        Action::MovePrevious => {
            dirList.items.previous();
            Step::Continue
        },
        Action::Unselect => {
            dirList.items.unselect();
            Step::Continue
        },
        Action::Descend => Step::Descend,
        Action::Ascend => Step::Ascend,
        Action::Quit => Step::Quit,
    }
}

/// Descending into a child directory `dir` of the displayed directory and
/// then ascending again returns to the displayed directory: the parent is
/// the one before, and the entries are what the reload of `dir` gave, which
/// are the entries shown at first when the directory did not change in between.
pub proof fn lemma_descend_then_ascend(
    s: NavView,
    dir: Seq<char>,
    children: Seq<DirItem>,
    reloaded: Seq<DirItem>,
)
    requires
        s.selected matches Some(i) && i < s.items.len() && path_parent(s.items[i as int].path@) == Some(dir),
        path_parent(dir) == Some(s.parent),
    ensures
        descend_view(s, true, Some(children)).parent == dir,
        ascend_view(descend_view(s, true, Some(children)), Some(reloaded)) == fresh_view(s.parent, reloaded),
        reloaded == s.items ==> ascend_view(descend_view(s, true, Some(children)), Some(reloaded)) == (NavView { selected: None, ..s }),
{
}

} // verus!
