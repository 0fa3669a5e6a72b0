//! The browser's state as plain values, and its transitions as functions on
//! them.

use crate::entry::entry_line;
use crate::entry::EntryKind;
use crate::entry::EntryView;
use crate::entry::FragmentView;
use crate::paths::path_join;
use crate::paths::path_parent;
use crossterm::style::Color;
use vstd::prelude::*;

verus! {

/// Why an operation was refused or failed.
#[derive(Clone, Copy, Debug, PartialEq, Eq, Structural)]
pub enum NavError {
    /// The selected entry cannot be entered.
    NotADirectory,
    /// The selected entry cannot be previewed.
    NotAFile,
    /// A directory could not be listed.
    DirectoryReadFailure,
    /// A file could not be read as text.
    FileReadFailure,
    /// The terminal refused output.
    TerminalIOFailure,
}

/// What the screen shows.
pub enum ViewMode {
    Listing,
    /// The text of the file opened last.
    FilePreview(Seq<char>),
}

/// The cursor after one step up in a list of `count` rows: the row above, or
/// the last row from the first. An empty list leaves it alone.
pub open spec fn wrap_up(cursor: nat, count: nat) -> nat {
    if count == 0 {
        cursor
    } else if cursor == 0 {
        (count - 1) as nat
    } else {
        (cursor - 1) as nat
    }
}

/// The cursor after one step down in a list of `count` rows: the row below,
/// or the first row from the last. An empty list leaves it alone.
pub open spec fn wrap_down(cursor: nat, count: nat) -> nat {
    if count == 0 {
        cursor
    } else if cursor + 1 >= count {
        0
    } else {
        cursor + 1
    }
}

/// The cursor that a remembered row gives in a list of `count` rows: the row
/// itself if the list still has it, the first row otherwise.
pub open spec fn restored(row: nat, count: nat) -> nat {
    if row < count {
        row
    } else {
        0
    }
}

/// Rows left for the listing on a terminal of `term_height` rows: all but the
/// header's two, and none on a terminal that has no more than those.
pub open spec fn display_height(term_height: nat) -> nat {
    if term_height >= 2 {
        (term_height - 2) as nat
    } else {
        0
    }
}

/// First row of the window: half a window above the cursor, or the top of the
/// list where that would lie before it.
pub open spec fn window_start(cursor: nat, height: nat) -> nat {
    if cursor >= height / 2 {
        (cursor - height / 2) as nat
    } else {
        0
    }
}

/// Number of rows in the window: `height`, or what the list has left from
/// `start` on.
pub open spec fn window_len(count: nat, start: nat, height: nat) -> nat {
    if start >= count {
        0
    } else if height <= count - start {
        height
    } else {
        (count - start) as nat
    }
}

/// The lines of the rows `from..to`, the row under the cursor highlighted.
pub open spec fn lines(entries: Seq<EntryView>, cursor: nat, from: nat, to: nat) -> Seq<FragmentView>
    decreases to,
{
    if to <= from || to > entries.len() {
        Seq::empty()
    } else {
        lines(entries, cursor, from, (to - 1) as nat) + entry_line(
            entries[to - 1],
            to - 1 == cursor,
        )
    }
}

/// What erases the screen and shows `content` alone.
pub open spec fn text_screen(content: Seq<char>) -> Seq<FragmentView> {
    seq![FragmentView::ClearScreen, FragmentView::MoveHome, FragmentView::Text(content)]
}

/// The top of a listing frame: a fresh screen, then the path in bold cyan on
/// a line of its own.
pub open spec fn header(path: Seq<char>) -> Seq<FragmentView> {
    seq![
        FragmentView::ClearScreen,
        FragmentView::MoveHome,
        FragmentView::Bold,
        FragmentView::Foreground(Color::Cyan),
        FragmentView::Text(path + seq![':', '\r', '\n']),
        FragmentView::ResetAttributes,
        FragmentView::ResetColor,
    ]
}

/// One descent of a walk down the tree: the row that the cursor was put on,
/// the path of the directory entered from it, and what that directory lists.
pub struct Descent {
    pub row: nat,
    pub target: Seq<char>,
    pub rows: Seq<EntryView>,
}

/// One ascent of a walk up the tree: the parent's path, `None` where there
/// is no parent, and what that directory lists.
pub struct Ascent {
    pub parent: Option<Seq<char>>,
    pub rows: Seq<EntryView>,
}

/// The rows from which the descents of a walk were made, in order.
pub open spec fn rows_left(walk: Seq<Descent>) -> Seq<usize> {
    Seq::new(walk.len(), |i: int| walk[i].row as usize)
}

/// The state of the browser.
pub struct NavState {
    /// The directory that `entries` lists.
    pub path: Seq<char>,
    pub entries: Seq<EntryView>,
    /// The selected row.
    pub cursor: nat,
    /// The row left behind in each directory that was entered, the latest last.
    pub history: Seq<usize>,
    /// Whether a file's text is shown in place of the listing.
    pub viewing: bool,
    /// The text of the file opened last.
    pub preview: Seq<char>,
    /// Rows of the terminal.
    pub term_height: nat,
    /// The frame drawn last.
    pub frame: Seq<FragmentView>,
}

impl NavState {
    /// The cursor selects a row of the list, and is 0 where the list is empty.
    pub open spec fn wf(self) -> bool {
        self.cursor == 0 || self.cursor < self.entries.len()
    }

    pub open spec fn mode(self) -> ViewMode {
        if self.viewing {
            ViewMode::FilePreview(self.preview)
        } else {
            ViewMode::Listing
        }
    }

    /// Whether the cursor stands on an entry of the given kind.
    pub open spec fn selects(self, kind: EntryKind) -> bool {
        self.cursor < self.entries.len() && self.entries[self.cursor as int].kind == kind
    }

    /// The path of the selected entry.
    pub open spec fn selected_path(self) -> Seq<char> {
        path_join(self.path, self.entries[self.cursor as int].name)
    }

    /// The directory that going up lists: the parent, or the current
    /// directory where the path has no parent.
    pub open spec fn parent_path(self) -> Seq<char> {
        match path_parent(self.path) {
            Some(p) => p,
            None => self.path,
        }
    }

    /// Whether the cursor keys do anything: only in a listing that has rows.
    pub open spec fn can_move(self) -> bool {
        !self.viewing && self.entries.len() > 0
    }

    pub open spec fn move_up(self) -> NavState {
        if self.can_move() {
            NavState { cursor: wrap_up(self.cursor, self.entries.len()), ..self }
        } else {
            self
        }
    }

    pub open spec fn move_down(self) -> NavState {
        if self.can_move() {
            NavState { cursor: wrap_down(self.cursor, self.entries.len()), ..self }
        } else {
            self
        }
    }

    /// The state after `times` steps down.
    pub open spec fn moved_down(self, times: nat) -> NavState
        decreases times,
    {
        if times == 0 {
            self
        } else {
            self.move_down().moved_down((times - 1) as nat)
        }
    }

    /// The state after `times` steps up.
    pub open spec fn moved_up(self, times: nat) -> NavState
        decreases times,
    {
        if times == 0 {
            self
        } else {
            self.move_up().moved_up((times - 1) as nat)
        }
    }

    /// A fresh listing of the same directory: the cursor stays where the list
    /// still has its row.
    pub open spec fn relisted(self, listing: Seq<EntryView>) -> NavState {
        NavState { entries: listing, cursor: restored(self.cursor, listing.len()), ..self }
    }

    /// What entering the selected entry gives, `target` being its path and
    /// `listing` what reading it gave, `None` for a failed read.
    ///
    /// An empty list and an entry that is no directory leave the state alone.
    /// So does a failed read. A successful read remembers the cursor's row
    /// and moves to `target` with the cursor on the first row.
    pub open spec fn enter(self, target: Seq<char>, listing: Option<Seq<EntryView>>) -> NavState {
        if !self.selects(EntryKind::Directory) {
            self
        } else {
            match listing {
                Some(rows) => NavState {
                    path: target,
                    entries: rows,
                    cursor: 0,
                    history: self.history.push(self.cursor as usize),
                    ..self
                },
                None => self,
            }
        }
    }

    /// What entering reports: nothing on an empty list, `NotADirectory` for
    /// an entry of another kind, `DirectoryReadFailure` for a failed read.
    pub open spec fn enter_result(self, listing: Option<Seq<EntryView>>) -> Result<(), NavError> {
        if self.entries.len() == 0 {
            Ok(())
        } else if !self.selects(EntryKind::Directory) {
            Err(NavError::NotADirectory)
        } else if listing is None {
            Err(NavError::DirectoryReadFailure)
        } else {
            Ok(())
        }
    }

    /// The same state with the cursor on `row`.
    pub open spec fn at(self, row: nat) -> NavState {
        NavState { cursor: row, ..self }
    }

    /// Whether every descent of `walk` starts on a directory of the list
    /// that the descent before it found.
    pub open spec fn can_walk_down(self, walk: Seq<Descent>) -> bool
        decreases walk.len(),
    {
        walk.len() == 0 || {
            &&& walk[0].row <= usize::MAX
            &&& self.at(walk[0].row).selects(EntryKind::Directory)
            &&& self.at(walk[0].row).enter(walk[0].target, Some(walk[0].rows)).can_walk_down(
                walk.skip(1),
            )
        }
    }

    /// The state after the descents of `walk`, each read with success.
    pub open spec fn walked_down(self, walk: Seq<Descent>) -> NavState
        decreases walk.len(),
    {
        if walk.len() == 0 {
            self
        } else {
            self.at(walk[0].row).enter(walk[0].target, Some(walk[0].rows)).walked_down(
                walk.skip(1),
            )
        }
    }

    /// The state after the ascents of `walk`, each read with success.
    pub open spec fn walked_up(self, walk: Seq<Ascent>) -> NavState
        decreases walk.len(),
    {
        if walk.len() == 0 {
            self
        } else {
            self.ascend(walk[0].parent, Some(walk[0].rows)).walked_up(walk.skip(1))
        }
    }

    /// The row remembered last, or the first row where none is.
    pub open spec fn remembered(self) -> nat {
        if self.history.len() > 0 {
            self.history.last() as nat
        } else {
            0
        }
    }

    /// The history without the row remembered last.
    pub open spec fn forgotten(self) -> Seq<usize> {
        if self.history.len() > 0 {
            self.history.drop_last()
        } else {
            self.history
        }
    }

    /// What going up gives, `parent` being the parent's path, `None` where
    /// the path has none, and `listing` what reading that directory gave.
    ///
    /// The path becomes the parent where there is one, the row remembered
    /// last leaves the history and becomes the cursor, and a successful read
    /// replaces the list. After a failed read the old list stays.
    pub open spec fn ascend(self, parent: Option<Seq<char>>, listing: Option<Seq<EntryView>>) -> NavState {
        let rows = match listing {
            Some(rows) => rows,
            None => self.entries,
        };
        NavState {
            path: match parent {
                Some(p) => p,
                None => self.path,
            },
            entries: rows,
            cursor: restored(self.remembered(), rows.len()),
            history: self.forgotten(),
            ..self
        }
    }

    /// What going up reports: `DirectoryReadFailure` for a failed read.
    pub open spec fn ascend_result(self, listing: Option<Seq<EntryView>>) -> Result<(), NavError> {
        if listing is Some {
            Ok(())
        } else {
            Err(NavError::DirectoryReadFailure)
        }
    }

    /// Whether the preview can be opened: in a listing, on a regular file.
    pub open spec fn can_open(self) -> bool {
        !self.viewing && self.selects(EntryKind::RegularFile)
    }

    /// What opening the selected file gives, `content` being its text as the
    /// terminal is to show it, `None` for a failed read.
    pub open spec fn open(self, content: Option<Seq<char>>) -> NavState {
        match content {
            Some(text) => if self.can_open() {
                NavState { viewing: true, preview: text, ..self }
            } else {
                self
            },
            None => self,
        }
    }

    /// What opening reports: nothing in a preview or on an empty list,
    /// `NotAFile` for an entry of another kind, `FileReadFailure` for a
    /// failed read.
    pub open spec fn open_result(self, content: Option<Seq<char>>) -> Result<(), NavError> {
        if self.viewing || self.entries.len() == 0 {
            Ok(())
        } else if !self.selects(EntryKind::RegularFile) {
            Err(NavError::NotAFile)
        } else if content is None {
            Err(NavError::FileReadFailure)
        } else {
            Ok(())
        }
    }

    pub open spec fn close_preview(self) -> NavState {
        NavState { viewing: false, ..self }
    }

    /// First row of the listing's window.
    pub open spec fn first_row(self) -> nat {
        window_start(self.cursor, display_height(self.term_height))
    }

    /// Number of rows in the listing's window.
    pub open spec fn row_count(self) -> nat {
        window_len(self.entries.len(), self.first_row(), display_height(self.term_height))
    }

    /// What stands below the header: the text of the preview, or the window
    /// of the listing.
    pub open spec fn body(self) -> Seq<FragmentView> {
        if self.viewing {
            seq![FragmentView::Text(self.preview)]
        } else {
            lines(
                self.entries,
                self.cursor,
                self.first_row(),
                self.first_row() + self.row_count(),
            )
        }
    }

    /// The frame that shows this state: the header with the current path,
    /// in a preview as in a listing, and the body below it.
    pub open spec fn rendered(self) -> Seq<FragmentView> {
        header(self.path) + self.body()
    }
}

} // verus!
