//! What holds of the operations taken together.

use crate::entry::EntryKind;
use crate::entry::EntryView;
use crate::entry::FragmentView;
use crate::model::header;
use crate::model::restored;
use crate::model::rows_left;
use crate::model::Ascent;
use crate::model::Descent;
use crate::model::window_len;
use crate::model::window_start;
use crate::model::NavError;
use crate::model::NavState;
use crate::model::ViewMode;
use crate::text::normalized;
use vstd::prelude::*;

verus! {

/// Where the cursor keys do something, `times` steps down, no more than the
/// list has rows, move the cursor that many rows on, past the last row to
/// the first, and change nothing else.
pub proof fn lemma_steps_down(s: NavState, times: nat)
    requires
        s.wf(),
        s.can_move(),
        times <= s.entries.len(),
    ensures
        s.moved_down(times) == (NavState {
            cursor: if s.cursor + times < s.entries.len() {
                s.cursor + times
            } else {
                (s.cursor + times - s.entries.len()) as nat
            },
            ..s
        }),
    decreases times,
{
    if times > 0 {
        lemma_steps_down(s.move_down(), (times - 1) as nat);
    }
}

/// Where the cursor keys do something, `times` steps up, no more than the
/// list has rows, move the cursor that many rows back, past the first row to
/// the last, and change nothing else.
pub proof fn lemma_steps_up(s: NavState, times: nat)
    requires
        s.wf(),
        s.can_move(),
        times <= s.entries.len(),
    ensures
        s.moved_up(times) == (NavState {
            cursor: if times <= s.cursor {
                (s.cursor - times) as nat
            } else {
                (s.cursor + s.entries.len() - times) as nat
            },
            ..s
        }),
    decreases times,
{
    if times > 0 {
        lemma_steps_up(s.move_up(), (times - 1) as nat);
    }
}

/// Where the cursor keys do nothing, no number of steps changes the state.
pub proof fn lemma_steps_without_effect(s: NavState, times: nat)
    requires
        !s.can_move(),
    ensures
        s.moved_down(times) == s,
        s.moved_up(times) == s,
    decreases times,
{
    if times > 0 {
        lemma_steps_without_effect(s, (times - 1) as nat);
    }
}

/// As many steps down as the list has rows bring the cursor back to where
/// it was.
pub proof fn lemma_move_down_cycles(s: NavState)
    requires
        s.wf(),
    ensures
        s.moved_down(s.entries.len()) == s,
{
    if s.can_move() {
        lemma_steps_down(s, s.entries.len());
    } else {
        lemma_steps_without_effect(s, s.entries.len());
    }
}

/// As many steps up as the list has rows bring the cursor back to where it
/// was.
pub proof fn lemma_move_up_cycles(s: NavState)
    requires
        s.wf(),
    ensures
        s.moved_up(s.entries.len()) == s,
{
    if s.can_move() {
        lemma_steps_up(s, s.entries.len());
    } else {
        lemma_steps_without_effect(s, s.entries.len());
    }
}

/// In a listing that has rows, a step up from the first row ends on the last
/// row, and a step down from the last row ends on the first.
pub proof fn lemma_wrap_around(s: NavState)
    requires
        s.wf(),
        s.can_move(),
    ensures
        s.cursor == 0 ==> s.move_up().cursor == s.entries.len() - 1,
        s.cursor == s.entries.len() - 1 ==> s.move_down().cursor == 0,
{
}

/// Entering an entry that is no directory changes nothing, whatever a read
/// would have given, and reports `NotADirectory`.
pub proof fn lemma_enter_refused(s: NavState, target: Seq<char>, listing: Option<Seq<EntryView>>)
    requires
        s.wf(),
        s.entries.len() > 0,
        !s.selects(EntryKind::Directory),
    ensures
        s.enter(target, listing) == s,
        s.enter_result(listing) == Err::<(), NavError>(NavError::NotADirectory),
{
}

/// Going up right after a directory was entered takes the remembered row
/// off the history again, and puts the cursor back on it where the parent
/// still has that row.
pub proof fn lemma_enter_then_parent(
    s: NavState,
    target: Seq<char>,
    rows: Seq<EntryView>,
    parent: Option<Seq<char>>,
    back: Seq<EntryView>,
)
    requires
        s.wf(),
        s.cursor <= usize::MAX,
        s.selects(EntryKind::Directory),
    ensures
        s.enter(target, Some(rows)).ascend(parent, Some(back)).history == s.history,
        s.enter(target, Some(rows)).ascend(parent, Some(back)).cursor == restored(
            s.cursor,
            back.len(),
        ),
        s.cursor < back.len() ==> s.enter(target, Some(rows)).ascend(parent, Some(back)).cursor
            == s.cursor,
{
    let inside = s.enter(target, Some(rows));
    assert(inside.history.drop_last() =~= s.history);
}

/// Descents add the rows they were made from to the history, in order, and
/// nothing else.
pub proof fn lemma_walk_down_remembers(s: NavState, walk: Seq<Descent>)
    requires
        s.can_walk_down(walk),
    ensures
        s.walked_down(walk).history == s.history + rows_left(walk),
    decreases walk.len(),
{
    if walk.len() == 0 {
        assert(s.history + rows_left(walk) =~= s.history);
    } else {
        let next = s.at(walk[0].row).enter(walk[0].target, Some(walk[0].rows));
        lemma_walk_down_remembers(next, walk.skip(1));
        assert(next.history + rows_left(walk.skip(1)) =~= s.history + rows_left(walk));
    }
}

/// As many ascents as the history has rows at its end take those rows off
/// again, and leave the cursor on the earliest of them where the directory
/// reached last still has that row.
pub proof fn lemma_walk_up_forgets(s: NavState, kept: Seq<usize>, left: Seq<usize>, walk: Seq<Ascent>)
    requires
        s.history == kept + left,
        left.len() == walk.len(),
        walk.len() > 0,
    ensures
        s.walked_up(walk).history == kept,
        s.walked_up(walk).cursor == restored(left[0] as nat, walk.last().rows.len()),
    decreases walk.len(),
{
    let next = s.ascend(walk[0].parent, Some(walk[0].rows));
    assert(s.history.last() == left.last());
    assert(next.history =~= kept + left.drop_last());
    if walk.len() == 1 {
        assert(next.walked_up(walk.skip(1)) == next);
        assert(kept + left.drop_last() =~= kept);
    } else {
        lemma_walk_up_forgets(next, kept, left.drop_last(), walk.skip(1));
        assert(walk.skip(1).last() == walk.last());
    }
}

/// After any number of nested descents, as many ascents give the history
/// back as it was before the first, and put the cursor on the row from which
/// the first descent was made, where the directory reached last still has
/// that row.
pub proof fn lemma_nested_round_trip(s: NavState, down: Seq<Descent>, up: Seq<Ascent>)
    requires
        s.can_walk_down(down),
        down.len() == up.len(),
        down.len() > 0,
    ensures
        s.walked_down(down).walked_up(up).history == s.history,
        s.walked_down(down).walked_up(up).cursor == restored(down[0].row, up.last().rows.len()),
        down[0].row < up.last().rows.len() ==> s.walked_down(down).walked_up(up).cursor
            == down[0].row,
{
    lemma_walk_down_remembers(s, down);
    lemma_walk_up_forgets(s.walked_down(down), s.history, rows_left(down), up);
}

/// A failed read on the way into a directory undoes the attempt: path,
/// list, cursor and history are as they were, nothing else has changed
/// either, and `DirectoryReadFailure` is reported.
pub proof fn lemma_failed_enter_rolls_back(s: NavState, target: Seq<char>)
    requires
        s.wf(),
        s.selects(EntryKind::Directory),
    ensures
        s.enter(target, None).path == s.path,
        s.enter(target, None).entries == s.entries,
        s.enter(target, None).cursor == s.cursor,
        s.enter(target, None).history == s.history,
        s.enter(target, None) == s,
        s.enter_result(None) == Err::<(), NavError>(NavError::DirectoryReadFailure),
{
}

/// The header with the current path is the top of every frame, in a preview
/// as in a listing, and in a preview the file's text alone follows it.
pub proof fn lemma_header_always_shown(s: NavState)
    ensures
        s.rendered().len() >= header(s.path).len(),
        s.rendered().subrange(0, header(s.path).len() as int) == header(s.path),
        s.viewing ==> s.rendered() == header(s.path) + seq![FragmentView::Text(s.preview)],
{
    assert(s.rendered().subrange(0, header(s.path).len() as int) =~= header(s.path));
}

/// Normalizing line endings changes nothing in text that is normal already.
pub proof fn lemma_normalized_is_stable(text: Seq<char>)
    ensures
        normalized(normalized(text)) == normalized(text),
    decreases text.len(),
{
    let crlf = seq!['\r', '\n'];
    if text.len() == 0 {
    } else if text.len() >= 2 && text[0] == '\r' && text[1] == '\n' {
        let rest = normalized(text.skip(2));
        lemma_normalized_is_stable(text.skip(2));
        assert((crlf + rest).skip(2) =~= rest);
    } else if text[0] == '\n' {
        let rest = normalized(text.skip(1));
        lemma_normalized_is_stable(text.skip(1));
        assert((crlf + rest).skip(2) =~= rest);
    } else {
        let rest = normalized(text.skip(1));
        lemma_normalized_is_stable(text.skip(1));
        assert((seq![text[0]] + rest).skip(1) =~= rest);
        lemma_normalized_starts(text.skip(1));
    }
}

/// Normalized text never starts with a line feed, and is empty only where
/// the text it was made from is.
pub proof fn lemma_normalized_starts(text: Seq<char>)
    ensures
        normalized(text).len() > 0 ==> normalized(text)[0] != '\n',
        (normalized(text).len() > 0) == (text.len() > 0),
{
}

/// Opening the preview of a file shows its text, and closing it shows the
/// listing again, with path, list, cursor and history as they were.
pub proof fn lemma_preview_round_trip(s: NavState, text: Seq<char>)
    requires
        s.wf(),
        s.can_open(),
    ensures
        s.open(Some(text)).mode() == ViewMode::FilePreview(text),
        s.open(Some(text)).close_preview().mode() == ViewMode::Listing,
        s.open(Some(text)).close_preview() == (NavState { preview: text, ..s }),
        s.open_result(Some(text)) == Ok::<(), NavError>(()),
{
}

/// The window starts half its height above the cursor, or at the top of the
/// list; it holds no more rows than the height and ends within the list. It
/// holds as many rows as the height and the list allow exactly where it
/// starts at the top or the list reaches its last line.
pub proof fn lemma_window(cursor: nat, count: nat, height: nat)
    requires
        cursor == 0 || cursor < count,
    ensures
        window_start(cursor, height) == if cursor >= height / 2 {
            cursor - height / 2
        } else {
            0
        },
        window_start(cursor, height) <= cursor,
        window_len(count, window_start(cursor, height), height) <= height,
        window_start(cursor, height) + window_len(count, window_start(cursor, height), height)
            <= count,
        count > 0 && height > 0 ==> window_start(cursor, height) <= cursor < window_start(
            cursor,
            height,
        ) + window_len(count, window_start(cursor, height), height),
        (window_len(count, window_start(cursor, height), height) == if height <= count {
            height
        } else {
            count
        }) <==> (window_start(cursor, height) == 0 || window_start(cursor, height) + height
            <= count),
{
}

/// Every operation keeps the cursor on a row of the list.
pub proof fn lemma_cursor_stays_in_bounds(
    s: NavState,
    target: Seq<char>,
    parent: Option<Seq<char>>,
    listing: Option<Seq<EntryView>>,
    content: Option<Seq<char>>,
)
    requires
        s.wf(),
    ensures
        s.move_up().wf(),
        s.move_down().wf(),
        s.enter(target, listing).wf(),
        s.ascend(parent, listing).wf(),
        s.open(content).wf(),
        s.close_preview().wf(),
        listing matches Some(rows) ==> s.relisted(rows).wf(),
{
}

} // verus!
