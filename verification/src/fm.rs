//! The browser's state and its operations.
//!
//! Nothing here touches the filesystem or the terminal. An operation that
//! needs a directory listed or a file read takes what the read gave as an
//! argument, `None` standing for a read that failed, and a frame is a value
//! that the caller sends to the terminal.

use crate::entry::frame_view;
use crate::entry::Entry;
use crate::entry::EntryKind;
use crate::entry::EntryView;
use crate::entry::Fragment;
use crate::entry::FragmentView;
use crate::model::header;
use crate::model::lines;
use crate::model::text_screen;
use crate::model::window_len;
use crate::model::window_start;
use crate::model::NavError;
use crate::model::NavState;
use crate::paths::join;
use crate::paths::parent;
use crate::paths::path_parent;
use crate::text::normalize_line_endings;
use crate::text::push_char;
use crate::text::normalized;
use crossterm::style::Color;
use vstd::prelude::*;

verus! {

/// The entries of a listing as plain values, in order.
pub open spec fn entries_view(entries: Seq<Entry>) -> Seq<EntryView> {
    Seq::new(entries.len(), |i: int| entries[i]@)
}

/// What reading a directory gave, as plain values.
pub open spec fn listing_view(listing: Option<Vec<Entry>>) -> Option<Seq<EntryView>> {
    match listing {
        Some(rows) => Some(entries_view(rows@)),
        None => None,
    }
}

/// What an optional text holds.
pub open spec fn text_view(text: Option<String>) -> Option<Seq<char>> {
    match text {
        Some(t) => Some(t@),
        None => None,
    }
}

/// A file's text as the terminal is to show it, where the read gave one.
pub open spec fn shown(content: Option<String>) -> Option<Seq<char>> {
    match content {
        Some(t) => Some(normalized(t@)),
        None => None,
    }
}

/// The window of a list of `count` rows on `height` lines with the cursor on
/// row `cursor`: its first row and the row after its last.
pub fn viewport(cursor: usize, count: usize, height: usize) -> (window: (usize, usize))
    ensures
        window.0 == window_start(cursor as nat, height as nat),
        window.1 == window.0 + window_len(count as nat, window.0 as nat, height as nat),
        window.0 <= window.1,
        window.1 <= count || window.1 == window.0,
{
    let half: usize = height / 2;
    let start: usize = if cursor >= half {
        cursor - half
    } else {
        0
    };
    let end: usize = if start >= count {
        start
    } else if height <= count - start {
        start + height
    } else {
        count
    };
    (start, end)
}

pub struct FileManager {
    position: usize,
    position_history: Vec<usize>,
    term_height: u16,
    entries: Vec<Entry>,
    buffer: Vec<Fragment>,
    current_path: String,
    is_viewing_file: bool,
    preview: String,
}

impl View for FileManager {
    type V = NavState;

    closed spec fn view(&self) -> NavState {
        NavState {
            path: self.current_path@,
            entries: entries_view(self.entries@),
            cursor: self.position as nat,
            history: self.position_history@,
            viewing: self.is_viewing_file,
            preview: self.preview@,
            term_height: self.term_height as nat,
            frame: frame_view(self.buffer@),
        }
    }
}

impl FileManager {
    /// The cursor selects a row of the list, and is 0 where the list is empty.
    pub open spec fn wf(&self) -> bool {
        self@.wf()
    }

    /// A browser on `directory` that has listed nothing yet, for a terminal
    /// of `term_height` rows.
    pub fn new(directory: String, term_height: u16) -> (fm: FileManager)
        ensures
            fm.wf(),
            fm@ == (NavState {
                path: directory@,
                entries: Seq::empty(),
                cursor: 0,
                history: Seq::empty(),
                viewing: false,
                preview: Seq::empty(),
                term_height: term_height as nat,
                frame: Seq::empty(),
            }),
    {
        let fm = FileManager {
            position: 0,
            position_history: Vec::new(),
            term_height,
            entries: Vec::new(),
            buffer: Vec::new(),
            current_path: directory,
            is_viewing_file: false,
            preview: String::new(),
        };
        assert(fm@.entries =~= Seq::empty());
        assert(fm@.frame =~= Seq::empty());
        fm
    }

    /// Moves the cursor one row up, from the first row to the last.
    pub fn move_up(&mut self)
        requires
            old(self).wf(),
        ensures
            final(self).wf(),
            final(self)@ == old(self)@.move_up(),
    {
        let count: usize = self.entries.len();
        if !self.is_viewing_file && count > 0 {
            if self.position == 0 {
                self.position = count - 1;
            } else {
                self.position = self.position - 1;
            }
        }
    }

    /// Moves the cursor one row down, from the last row to the first.
    pub fn move_down(&mut self)
        requires
            old(self).wf(),
        ensures
            final(self).wf(),
            final(self)@ == old(self)@.move_down(),
    {
        let count: usize = self.entries.len();
        if !self.is_viewing_file && count > 0 {
            if self.position == count - 1 {
                self.position = 0;
            } else {
                self.position = self.position + 1;
            }
        }
    }

    /// Replaces the list by a fresh listing of the current directory.
    pub fn update_entries(&mut self, listing: Vec<Entry>)
        requires
            old(self).wf(),
        ensures
            final(self).wf(),
            final(self)@ == old(self)@.relisted(entries_view(listing@)),
    {
        if self.position >= listing.len() {
            self.position = 0;
        }
        self.entries = listing;
    }

    /// Enters the selected directory, whose path is `target`; `listing` is
    /// what reading `target` gave.
    pub fn descend(&mut self, target: String, listing: Option<Vec<Entry>>) -> (res: Result<(), NavError>)
        requires
            old(self).wf(),
        ensures
            final(self).wf(),
            final(self)@ == old(self)@.enter(target@, listing_view(listing)),
            res == old(self)@.enter_result(listing_view(listing)),
    {
        if self.entries.len() == 0 {
            return Ok(());
        }
        match self.entries[self.position].kind {
            EntryKind::Directory => {},
            _ => {
                return Err(NavError::NotADirectory);
            },
        }
        match listing {
            Some(rows) => {
                self.position_history.push(self.position);
                self.current_path = target;
                self.entries = rows;
                self.position = 0;
                Ok(())
            },
            None => Err(NavError::DirectoryReadFailure),
        }
    }

    /// Leaves the current directory for `parent`, or stays where the path has
    /// no parent; `listing` is what reading that directory gave.
    pub fn ascend(&mut self, parent: Option<String>, listing: Option<Vec<Entry>>) -> (res: Result<(), NavError>)
        requires
            old(self).wf(),
        ensures
            final(self).wf(),
            final(self)@ == old(self)@.ascend(text_view(parent), listing_view(listing)),
            res == old(self)@.ascend_result(listing_view(listing)),
    {
        if let Some(p) = parent {
            self.current_path = p;
        }
        let row: usize = match self.position_history.pop() {
            Some(r) => r,
            None => 0,
        };
        match listing {
            Some(rows) => {
                self.position = if row < rows.len() {
                    row
                } else {
                    0
                };
                self.entries = rows;
                Ok(())
            },
            None => {
                self.position = if row < self.entries.len() {
                    row
                } else {
                    0
                };
                Err(NavError::DirectoryReadFailure)
            },
        }
    }

    /// Shows the text of the selected file, `content` being what reading it
    /// gave, with every line break made a carriage return and a line feed.
    pub fn open_file(&mut self, content: Option<String>) -> (res: Result<(), NavError>)
        requires
            old(self).wf(),
        ensures
            final(self).wf(),
            final(self)@ == old(self)@.open(shown(content)),
            res == old(self)@.open_result(shown(content)),
    {
        if self.is_viewing_file || self.entries.len() == 0 {
            return Ok(());
        }
        match self.entries[self.position].kind {
            EntryKind::RegularFile => {},
            _ => {
                return Err(NavError::NotAFile);
            },
        }
        match content {
            Some(text) => {
                self.preview = normalize_line_endings(text.as_str());
                self.is_viewing_file = true;
                Ok(())
            },
            None => Err(NavError::FileReadFailure),
        }
    }

    /// Whether a file's text is shown in place of the listing.
    pub fn is_viewing_file(&self) -> (viewing: bool)
        ensures
            viewing == self@.viewing,
    {
        self.is_viewing_file
    }

    /// Returns from the preview to the listing.
    pub fn close_preview(&mut self)
        ensures
            final(self)@ == old(self)@.close_preview(),
    {
        self.is_viewing_file = false;
    }

    /// The directory to list before `enter_directory`: the selected entry's
    /// path where it is a directory, `None` where nothing can be entered.
    pub fn descend_target(&self) -> (target: Option<String>)
        requires
            self.wf(),
        ensures
            target is Some <==> self@.selects(EntryKind::Directory),
            target matches Some(t) ==> t@ == self@.selected_path(),
    {
        if self.entries.len() == 0 {
            return None;
        }
        let entry = &self.entries[self.position];
        match entry.kind {
            EntryKind::Directory => Some(join(self.current_path.as_str(), entry.name.as_str())),
            _ => None,
        }
    }

    /// Enters the selected directory; `listing` is what reading
    /// `descend_target` gave.
    pub fn enter_directory(&mut self, listing: Option<Vec<Entry>>) -> (res: Result<(), NavError>)
        requires
            old(self).wf(),
        ensures
            final(self).wf(),
            final(self)@ == old(self)@.enter(old(self)@.selected_path(), listing_view(listing)),
            res == old(self)@.enter_result(listing_view(listing)),
    {
        match self.descend_target() {
            Some(target) => self.descend(target, listing),
            None => self.descend(String::new(), listing),
        }
    }

    /// The directory to list before `go_to_parent`.
    pub fn ascend_target(&self) -> (target: String)
        ensures
            target@ == self@.parent_path(),
    {
        match parent(self.current_path.as_str()) {
            Some(p) => p,
            None => self.current_path.clone(),
        }
    }

    /// Goes up one directory; `listing` is what reading `ascend_target` gave.
    pub fn go_to_parent(&mut self, listing: Option<Vec<Entry>>) -> (res: Result<(), NavError>)
        requires
            old(self).wf(),
        ensures
            final(self).wf(),
            final(self)@ == old(self)@.ascend(path_parent(old(self)@.path), listing_view(listing)),
            res == old(self)@.ascend_result(listing_view(listing)),
    {
        let up = parent(self.current_path.as_str());
        self.ascend(up, listing)
    }

    /// The file to read before `open_file`: the selected entry's path where
    /// a preview can be opened, `None` where it cannot.
    pub fn file_target(&self) -> (target: Option<String>)
        requires
            self.wf(),
        ensures
            target is Some <==> self@.can_open(),
            target matches Some(t) ==> t@ == self@.selected_path(),
    {
        if self.is_viewing_file || self.entries.len() == 0 {
            return None;
        }
        let entry = &self.entries[self.position];
        match entry.kind {
            EntryKind::RegularFile => Some(join(self.current_path.as_str(), entry.name.as_str())),
            _ => None,
        }
    }

    /// Appends the lines of the listing's window to the frame.
    fn update_buffer(&mut self)
        requires
            old(self).wf(),
        ensures
            final(self)@ == (NavState {
                frame: old(self)@.frame + lines(
                    old(self)@.entries,
                    old(self)@.cursor,
                    old(self)@.first_row(),
                    old(self)@.first_row() + old(self)@.row_count(),
                ),
                ..old(self)@
            }),
    {
        let height: usize = if self.term_height >= 2 {
            (self.term_height - 2) as usize
        } else {
            0
        };
        let (start, end) = viewport(self.position, self.entries.len(), height);
        let ghost before = self@;
        let mut i: usize = start;
        while i < end
            invariant
                start <= i <= end,
                end <= self.entries.len() || end == start,
                self@ == (NavState {
                    frame: before.frame + lines(before.entries, before.cursor, start as nat, i as nat),
                    ..before
                }),
            decreases end - i,
        {
            self.entries[i].write(i == self.position, &mut self.buffer);
            i = i + 1;
            assert(self@.frame =~= before.frame + lines(
                before.entries,
                before.cursor,
                start as nat,
                i as nat,
            ));
        }
    }

    /// Builds the frame that shows the current state, in place of the frame
    /// drawn last.
    pub fn draw_ui(&mut self)
        requires
            old(self).wf(),
        ensures
            final(self)@ == (NavState { frame: old(self)@.rendered(), ..old(self)@ }),
    {
        self.buffer.clear();
        let mut title = self.current_path.clone();
        push_char(&mut title, ':');
        push_char(&mut title, '\r');
        push_char(&mut title, '\n');
        assert(title@ =~= self@.path + seq![':', '\r', '\n']);
        self.buffer.push(Fragment::ClearScreen);
        self.buffer.push(Fragment::MoveHome);
        self.buffer.push(Fragment::Bold);
        self.buffer.push(Fragment::Foreground(Color::Cyan));
        self.buffer.push(Fragment::Text(title));
        self.buffer.push(Fragment::ResetAttributes);
        self.buffer.push(Fragment::ResetColor);
        assert(self@.frame =~= header(self@.path));
        if self.is_viewing_file {
            self.buffer.push(Fragment::Text(self.preview.clone()));
            assert(self@.frame =~= header(self@.path) + seq![FragmentView::Text(self@.preview)]);
        } else {
            self.update_buffer();
        }
    }

    /// Appends to the frame what erases the screen and shows `content` alone.
    pub fn write_to_buffer(&mut self, content: String)
        ensures
            final(self)@ == (NavState {
                frame: old(self)@.frame + text_screen(content@),
                ..old(self)@
            }),
    {
        self.buffer.push(Fragment::ClearScreen);
        self.buffer.push(Fragment::MoveHome);
        self.buffer.push(Fragment::Text(content));
        assert(self@.frame =~= old(self)@.frame + text_screen(content@));
    }

    /// The selected row.
    pub fn position(&self) -> (row: usize)
        ensures
            row == self@.cursor,
    {
        self.position
    }

    /// Puts the cursor on a row of the list.
    pub fn set_position(&mut self, position: usize)
        requires
            position == 0 || position < old(self)@.entries.len(),
        ensures
            final(self).wf(),
            final(self)@ == (NavState { cursor: position as nat, ..old(self)@ }),
    {
        self.position = position;
    }

    pub fn entries(&self) -> (rows: &Vec<Entry>)
        ensures
            entries_view(rows@) == self@.entries,
    {
        &self.entries
    }

    /// The list itself, for the caller to change. Nothing keeps the cursor
    /// on a row of what the caller leaves there.
    pub fn entries_mut(&mut self) -> (rows: &mut Vec<Entry>)
        ensures
            entries_view(rows@) == old(self)@.entries,
            final(self)@ == (NavState { entries: entries_view(final(rows)@), ..old(self)@ }),
    {
        &mut self.entries
    }

    pub fn current_path(&self) -> (path: &String)
        ensures
            path@ == self@.path,
    {
        &self.current_path
    }

    pub fn current_path_mut(&mut self) -> (path: &mut String)
        ensures
            path@ == old(self)@.path,
            final(self)@ == (NavState { path: final(path)@, ..old(self)@ }),
    {
        &mut self.current_path
    }

    pub fn set_current_path(&mut self, path: String)
        ensures
            final(self)@ == (NavState { path: path@, ..old(self)@ }),
    {
        self.current_path = path;
    }

    /// The rows left behind in the directories entered, the latest last.
    pub fn position_history(&self) -> (rows: &Vec<usize>)
        ensures
            rows@ == self@.history,
    {
        &self.position_history
    }

    pub fn position_history_mut(&mut self) -> (rows: &mut Vec<usize>)
        ensures
            rows@ == old(self)@.history,
            final(self)@ == (NavState { history: final(rows)@, ..old(self)@ }),
    {
        &mut self.position_history
    }

    /// The frame drawn last.
    pub fn buffer(&self) -> (frame: &Vec<Fragment>)
        ensures
            frame_view(frame@) == self@.frame,
    {
        &self.buffer
    }

    pub fn buffer_mut(&mut self) -> (frame: &mut Vec<Fragment>)
        ensures
            frame_view(frame@) == old(self)@.frame,
            final(self)@ == (NavState { frame: frame_view(final(frame)@), ..old(self)@ }),
    {
        &mut self.buffer
    }

    /// The entry under the cursor.
    pub fn current_entry(&self) -> (entry: &Entry)
        requires
            self@.cursor < self@.entries.len(),
        ensures
            entry@ == self@.entries[self@.cursor as int],
    {
        &self.entries[self.position]
    }

    /// Switches between the listing and the preview of the file opened last.
    pub fn toggle_file_view(&mut self)
        ensures
            final(self)@ == (NavState { viewing: !old(self)@.viewing, ..old(self)@ }),
    {
        self.is_viewing_file = !self.is_viewing_file
    }

    /// The text of the file opened last.
    pub fn preview(&self) -> (text: &String)
        ensures
            text@ == self@.preview,
    {
        &self.preview
    }

    /// Rows of the terminal.
    pub fn term_height(&self) -> (rows: u16)
        ensures
            rows == self@.term_height,
    {
        self.term_height
    }
}

} // verus!
