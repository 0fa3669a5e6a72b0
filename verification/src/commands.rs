//! The operations as commands: what each asks of the outside world, and what
//! it does to the state once that has answered.

use crate::entry::Entry;
use crate::entry::EntryKind;
use crate::entry::EntryView;
use crate::fm::entries_view;
use crate::fm::FileManager;
use crate::model::NavError;
use crate::model::NavState;
use crate::paths::path_parent;
use crate::text::normalized;
use vstd::prelude::*;

verus! {

/// The operations a key can ask for.
#[derive(Clone, Copy, Debug, PartialEq, Eq, Structural)]
pub enum Operation {
    Quit,
    MoveUp,
    MoveDown,
    EnterDirectory,
    GoToParent,
    /// Opens the preview of the selected file, or closes the open preview.
    OpenFile,
}

/// What an operation needs from outside before it can run.
#[derive(Debug, PartialEq, Eq)]
pub enum Request {
    Nothing,
    /// List the directory at this path.
    ReadDirectory(String),
    /// Read the file at this path as text.
    ReadFile(String),
    /// Restore the terminal and end the program.
    Quit,
}

/// A request as plain values.
pub enum RequestView {
    Nothing,
    ReadDirectory(Seq<char>),
    ReadFile(Seq<char>),
    Quit,
}

impl View for Request {
    type V = RequestView;

    open spec fn view(&self) -> RequestView {
        match *self {
            Request::Nothing => RequestView::Nothing,
            Request::ReadDirectory(p) => RequestView::ReadDirectory(p@),
            Request::ReadFile(p) => RequestView::ReadFile(p@),
            Request::Quit => RequestView::Quit,
        }
    }
}

/// What came back for a request.
#[derive(Debug, PartialEq, Eq)]
pub enum Reply {
    /// Nothing was asked for.
    Nothing,
    Listing(Vec<Entry>),
    Text(String),
    /// The read failed.
    Failed,
}

/// A reply as plain values.
pub enum ReplyView {
    Nothing,
    Listing(Seq<EntryView>),
    Text(Seq<char>),
    Failed,
}

impl View for Reply {
    type V = ReplyView;

    open spec fn view(&self) -> ReplyView {
        match *self {
            Reply::Nothing => ReplyView::Nothing,
            Reply::Listing(rows) => ReplyView::Listing(entries_view(rows@)),
            Reply::Text(t) => ReplyView::Text(t@),
            Reply::Failed => ReplyView::Failed,
        }
    }
}

impl ReplyView {
    /// The listing that a reply carries; any other reply is a failed read.
    pub open spec fn listing(self) -> Option<Seq<EntryView>> {
        match self {
            ReplyView::Listing(rows) => Some(rows),
            _ => None,
        }
    }

    /// The text that a reply carries, as the terminal is to show it; any
    /// other reply is a failed read.
    pub open spec fn shown(self) -> Option<Seq<char>> {
        match self {
            ReplyView::Text(t) => Some(normalized(t)),
            _ => None,
        }
    }
}

/// What `op` needs from outside in state `s`.
pub open spec fn requested(op: Operation, s: NavState) -> RequestView {
    match op {
        Operation::Quit => RequestView::Quit,
        Operation::MoveUp => RequestView::Nothing,
        Operation::MoveDown => RequestView::Nothing,
        Operation::EnterDirectory => if s.selects(EntryKind::Directory) {
            RequestView::ReadDirectory(s.selected_path())
        } else {
            RequestView::Nothing
        },
        Operation::GoToParent => RequestView::ReadDirectory(s.parent_path()),
        Operation::OpenFile => if s.can_open() {
            RequestView::ReadFile(s.selected_path())
        } else {
            RequestView::Nothing
        },
    }
}

/// The state after `op` has run in state `s` with `reply` for its request.
pub open spec fn step(op: Operation, s: NavState, reply: ReplyView) -> NavState {
    match op {
        Operation::Quit => s,
        Operation::MoveUp => s.move_up(),
        Operation::MoveDown => s.move_down(),
        Operation::EnterDirectory => s.enter(s.selected_path(), reply.listing()),
        Operation::GoToParent => s.ascend(path_parent(s.path), reply.listing()),
        Operation::OpenFile => if s.viewing {
            s.close_preview()
        } else {
            s.open(reply.shown())
        },
    }
}

/// What `op` reports when it has run in state `s` with `reply` for its request.
pub open spec fn step_result(op: Operation, s: NavState, reply: ReplyView) -> Result<(), NavError> {
    match op {
        Operation::Quit => Ok(()),
        Operation::MoveUp => Ok(()),
        Operation::MoveDown => Ok(()),
        Operation::EnterDirectory => s.enter_result(reply.listing()),
        Operation::GoToParent => s.ascend_result(reply.listing()),
        Operation::OpenFile => s.open_result(reply.shown()),
    }
}

/// Whether an error of `op` ends the program: a broken terminal always does,
/// and so does a parent directory that cannot be listed, for there is
/// nowhere left to retreat to. Every other error is shown and passed over.
pub open spec fn fatal(op: Operation, error: NavError) -> bool {
    error == NavError::TerminalIOFailure || (op == Operation::GoToParent && error
        == NavError::DirectoryReadFailure)
}

/// Decides whether an error of `op` ends the program.
pub fn is_fatal(op: Operation, error: NavError) -> (end: bool)
    ensures
        end == fatal(op, error),
{
    match error {
        NavError::TerminalIOFailure => true,
        NavError::DirectoryReadFailure => match op {
            Operation::GoToParent => true,
            _ => false,
        },
        _ => false,
    }
}

fn listing_of(reply: Reply) -> (listing: Option<Vec<Entry>>)
    ensures
        crate::fm::listing_view(listing) == reply@.listing(),
{
    match reply {
        Reply::Listing(rows) => Some(rows),
        _ => None,
    }
}

fn text_of(reply: Reply) -> (text: Option<String>)
    ensures
        crate::fm::shown(text) == reply@.shown(),
{
    match reply {
        Reply::Text(t) => Some(t),
        _ => None,
    }
}

/// An operation on the browser's state.
pub trait Command {
    /// Which operation this command is.
    spec fn operation(&self) -> Operation;

    /// Runs the operation, `reply` being the answer to what it requested.
    fn execute(&self, fm: &mut FileManager, reply: Reply) -> (res: Result<(), NavError>)
        requires
            old(fm).wf(),
        ensures
            final(fm).wf(),
            final(fm)@ == step(self.operation(), old(fm)@, reply@),
            res == step_result(self.operation(), old(fm)@, reply@),
    ;
}

/// Ends the program. The state is left alone: the terminal is the caller's.
pub struct QuitCommand;

/// Moves the cursor one row up.
pub struct MoveCursorUpCommand;

/// Moves the cursor one row down.
pub struct MoveCursorDownCommand;

/// Enters the selected directory.
pub struct EnterToDirCommand;

/// Goes up to the parent directory.
pub struct GoToParentDirCommand;

/// Opens the preview of the selected file, or closes the open preview.
pub struct ShowFileCommand;

impl Command for QuitCommand {
    open spec fn operation(&self) -> Operation {
        Operation::Quit
    }

    fn execute(&self, fm: &mut FileManager, reply: Reply) -> (res: Result<(), NavError>) {
        Ok(())
    }
}

impl Command for MoveCursorUpCommand {
    open spec fn operation(&self) -> Operation {
        Operation::MoveUp
    }

    fn execute(&self, fm: &mut FileManager, reply: Reply) -> (res: Result<(), NavError>) {
        fm.move_up();
        Ok(())
    }
}

impl Command for MoveCursorDownCommand {
    open spec fn operation(&self) -> Operation {
        Operation::MoveDown
    }

    fn execute(&self, fm: &mut FileManager, reply: Reply) -> (res: Result<(), NavError>) {
        fm.move_down();
        Ok(())
    }
}

impl Command for EnterToDirCommand {
    open spec fn operation(&self) -> Operation {
        Operation::EnterDirectory
    }

    fn execute(&self, fm: &mut FileManager, reply: Reply) -> (res: Result<(), NavError>) {
        fm.enter_directory(listing_of(reply))
    }
}

impl Command for GoToParentDirCommand {
    open spec fn operation(&self) -> Operation {
        Operation::GoToParent
    }

    fn execute(&self, fm: &mut FileManager, reply: Reply) -> (res: Result<(), NavError>) {
        fm.go_to_parent(listing_of(reply))
    }
}

impl Command for ShowFileCommand {
    open spec fn operation(&self) -> Operation {
        Operation::OpenFile
    }

    fn execute(&self, fm: &mut FileManager, reply: Reply) -> (res: Result<(), NavError>) {
        if fm.is_viewing_file() {
            fm.close_preview();
            Ok(())
        } else {
            fm.open_file(text_of(reply))
        }
    }
}

/// What `op` needs from outside before `dispatch` can run it.
pub fn request(op: Operation, fm: &FileManager) -> (req: Request)
    requires
        fm.wf(),
    ensures
        req@ == requested(op, fm@),
{
    match op {
        Operation::Quit => Request::Quit,
        Operation::MoveUp => Request::Nothing,
        Operation::MoveDown => Request::Nothing,
        Operation::EnterDirectory => match fm.descend_target() {
            Some(path) => Request::ReadDirectory(path),
            None => Request::Nothing,
        },
        Operation::GoToParent => Request::ReadDirectory(fm.ascend_target()),
        Operation::OpenFile => match fm.file_target() {
            Some(path) => Request::ReadFile(path),
            None => Request::Nothing,
        },
    }
}

/// Runs `op` on the state, `reply` being the answer to its request.
pub fn dispatch(op: Operation, fm: &mut FileManager, reply: Reply) -> (res: Result<(), NavError>)
    requires
        old(fm).wf(),
    ensures
        final(fm).wf(),
        final(fm)@ == step(op, old(fm)@, reply@),
        res == step_result(op, old(fm)@, reply@),
{
    match op {
        Operation::Quit => QuitCommand.execute(fm, reply),
        Operation::MoveUp => MoveCursorUpCommand.execute(fm, reply),
        Operation::MoveDown => MoveCursorDownCommand.execute(fm, reply),
        Operation::EnterDirectory => EnterToDirCommand.execute(fm, reply),
        Operation::GoToParent => GoToParentDirCommand.execute(fm, reply),
        Operation::OpenFile => ShowFileCommand.execute(fm, reply),
    }
}

} // verus!
