//! One directory entry, and the styled line that shows it.

use crate::text::pad_right;
use crate::text::padded;
use crate::text::push_char;
use crossterm::style::Color;
use vstd::prelude::*;

verus! {

/// `crossterm::style::Color`, with its variants open to the verifier.
#[verifier::external_type_specification]
pub struct ExColor(Color);

/// `Clone::clone` of `crossterm::style::Color`, a `Copy` type whose `Clone` is
/// derived: the clone is the colour itself.
pub assume_specification[ <Color as Clone>::clone ](color: &Color) -> (copy: Color)
    ensures
        copy == *color,
;

/// What kind of filesystem object an entry is, fixed when the directory is read.
#[derive(Clone, Copy, Debug, PartialEq, Eq, Structural)]
pub enum EntryKind {
    Directory,
    RegularFile,
    Symlink,
}

/// A snapshot of one entry of a directory.
#[derive(Clone, Debug, PartialEq, Eq)]
pub struct Entry {
    /// The file name, without any directory.
    pub name: String,
    pub kind: EntryKind,
    /// Size in bytes.
    pub size: u64,
    /// The mode word; only its nine lowest bits, `rwxrwxrwx`, are read.
    pub permission_bits: u32,
}

/// An entry as plain values.
pub struct EntryView {
    pub name: Seq<char>,
    pub kind: EntryKind,
    pub size: nat,
    pub permission_bits: u32,
}

impl View for Entry {
    type V = EntryView;

    open spec fn view(&self) -> EntryView {
        EntryView {
            name: self.name@,
            kind: self.kind,
            size: self.size as nat,
            permission_bits: self.permission_bits,
        }
    }
}

/// The unit in which a size is shown.
#[derive(Clone, Copy, Debug, PartialEq, Eq, Structural)]
pub enum SizeUnit {
    Bytes,
    Kilo,
    Mega,
    Giga,
}

/// The largest decimal unit that does not exceed `size`, up to giga.
pub open spec fn unit_of(size: nat) -> SizeUnit {
    if size < 1_000 {
        SizeUnit::Bytes
    } else if size < 1_000_000 {
        SizeUnit::Kilo
    } else if size < 1_000_000_000 {
        SizeUnit::Mega
    } else {
        SizeUnit::Giga
    }
}

impl SizeUnit {
    /// How many bytes one of this unit holds.
    pub open spec fn spec_divisor(self) -> nat {
        match self {
            SizeUnit::Bytes => 1,
            SizeUnit::Kilo => 1_000,
            SizeUnit::Mega => 1_000_000,
            SizeUnit::Giga => 1_000_000_000,
        }
    }

    /// The suffix written after a size in this unit.
    pub open spec fn spec_symbol(self) -> Seq<char> {
        match self {
            SizeUnit::Bytes => Seq::empty(),
            SizeUnit::Kilo => seq!['K'],
            SizeUnit::Mega => seq!['M'],
            SizeUnit::Giga => seq!['G'],
        }
    }

    /// Picks the unit for a size in bytes.
    pub fn for_size(size: u64) -> (unit: SizeUnit)
        ensures
            unit == unit_of(size as nat),
    {
        if size < 1_000 {
            SizeUnit::Bytes
        } else if size < 1_000_000 {
            SizeUnit::Kilo
        } else if size < 1_000_000_000 {
            SizeUnit::Mega
        } else {
            SizeUnit::Giga
        }
    }

    pub fn divisor(self) -> (d: u64)
        ensures
            d == self.spec_divisor(),
    {
        match self {
            SizeUnit::Bytes => 1,
            SizeUnit::Kilo => 1_000,
            SizeUnit::Mega => 1_000_000,
            SizeUnit::Giga => 1_000_000_000,
        }
    }

    pub fn symbol(self) -> (s: &'static str)
        ensures
            s@ == self.spec_symbol(),
    {
        proof {
            reveal_strlit("");
            reveal_strlit("K");
            reveal_strlit("M");
            reveal_strlit("G");
        }
        let s = match self {
            SizeUnit::Bytes => "",
            SizeUnit::Kilo => "K",
            SizeUnit::Mega => "M",
            SizeUnit::Giga => "G",
        };
        assert(s@ =~= self.spec_symbol());
        s
    }
}

/// One piece of a frame: a change of style, or text to show in the style set
/// before it.
#[derive(Clone, Debug, PartialEq, Eq)]
pub enum Fragment {
    /// Erase the whole screen.
    ClearScreen,
    /// Put the terminal's cursor in the top left corner.
    MoveHome,
    Bold,
    /// Drop every text attribute.
    ResetAttributes,
    Background(Color),
    Foreground(Color),
    /// Back to the terminal's own colours.
    ResetColor,
    Text(String),
    /// The eight-character size column of an entry that is no directory: the
    /// size divided by the unit, with one decimal, followed by the unit's
    /// symbol.
    SizeColumn { bytes: u64, unit: SizeUnit },
}

/// A fragment as plain values.
pub enum FragmentView {
    ClearScreen,
    MoveHome,
    Bold,
    ResetAttributes,
    Background(Color),
    Foreground(Color),
    ResetColor,
    Text(Seq<char>),
    SizeColumn { bytes: nat, unit: SizeUnit },
}

impl View for Fragment {
    type V = FragmentView;

    open spec fn view(&self) -> FragmentView {
        match *self {
            Fragment::ClearScreen => FragmentView::ClearScreen,
            Fragment::MoveHome => FragmentView::MoveHome,
            Fragment::Bold => FragmentView::Bold,
            Fragment::ResetAttributes => FragmentView::ResetAttributes,
            Fragment::Background(c) => FragmentView::Background(c),
            Fragment::Foreground(c) => FragmentView::Foreground(c),
            Fragment::ResetColor => FragmentView::ResetColor,
            Fragment::Text(s) => FragmentView::Text(s@),
            Fragment::SizeColumn { bytes, unit } => FragmentView::SizeColumn {
                bytes: bytes as nat,
                unit,
            },
        }
    }
}

/// The fragments of a frame as plain values, in order.
pub open spec fn frame_view(frame: Seq<Fragment>) -> Seq<FragmentView> {
    Seq::new(frame.len(), |i: int| frame[i]@)
}

/// Background of the row under the cursor.
pub open spec fn highlight_color() -> Color {
    Color::Rgb { r: 80, g: 73, b: 69 }
}

/// Colour of the permission column.
pub open spec fn permission_color() -> Color {
    Color::Rgb { r: 204, g: 36, b: 29 }
}

/// Colour of the name of a regular file.
pub open spec fn file_color() -> Color {
    Color::Rgb { r: 235, g: 219, b: 178 }
}

/// Colour of an entry's name: directories stand out from files and links.
pub open spec fn name_color(kind: EntryKind) -> Color {
    match kind {
        EntryKind::Directory => Color::Blue,
        EntryKind::Symlink => Color::Yellow,
        EntryKind::RegularFile => file_color(),
    }
}

/// First character of the permission column.
pub open spec fn kind_letter(kind: EntryKind) -> char {
    match kind {
        EntryKind::Symlink => 'l',
        EntryKind::Directory => 'd',
        EntryKind::RegularFile => '-',
    }
}

/// `letter` where one of the bits of `mask` is set in `bits`, a dash where none is.
pub open spec fn flag(bits: u32, mask: u32, letter: char) -> char {
    if bits & mask != 0 {
        letter
    } else {
        '-'
    }
}

/// The permission column: the kind's letter, then read, write and execute for
/// owner, group and others, then one space.
pub open spec fn permissions(kind: EntryKind, bits: u32) -> Seq<char> {
    seq![
        kind_letter(kind),
        flag(bits, 0o400, 'r'),
        flag(bits, 0o200, 'w'),
        flag(bits, 0o100, 'x'),
        flag(bits, 0o040, 'r'),
        flag(bits, 0o020, 'w'),
        flag(bits, 0o010, 'x'),
        flag(bits, 0o004, 'r'),
        flag(bits, 0o002, 'w'),
        flag(bits, 0o001, 'x'),
        ' ',
    ]
}

/// The size column of an entry: a tilde for a directory, the size in its unit
/// for anything else.
pub open spec fn size_column(entry: EntryView) -> FragmentView {
    if entry.kind == EntryKind::Directory {
        FragmentView::Text(padded(seq!['~'], 8))
    } else {
        FragmentView::SizeColumn { bytes: entry.size, unit: unit_of(entry.size) }
    }
}

/// The mark before the name: an at sign for a symbolic link, a space otherwise.
pub open spec fn link_mark(kind: EntryKind) -> Seq<char> {
    if kind == EntryKind::Symlink {
        seq!['@']
    } else {
        seq![' ']
    }
}

/// The styled line of one entry. Only the row under the cursor has a
/// background; the name fills a column of 32 characters and ends the line.
pub open spec fn entry_line(entry: EntryView, highlight: bool) -> Seq<FragmentView> {
    seq![
        FragmentView::Background(
            if highlight {
                highlight_color()
            } else {
                Color::Reset
            },
        ),
        FragmentView::Foreground(permission_color()),
        FragmentView::Text(permissions(entry.kind, entry.permission_bits)),
        FragmentView::Foreground(Color::Yellow),
        size_column(entry),
        FragmentView::Foreground(name_color(entry.kind)),
        FragmentView::Text(link_mark(entry.kind)),
        FragmentView::Text(padded(entry.name, 32) + seq!['\r', '\n']),
        FragmentView::ResetColor,
    ]
}

fn flag_letter(bits: u32, mask: u32, letter: char) -> (c: char)
    ensures
        c == flag(bits, mask, letter),
{
    if bits & mask != 0 {
        letter
    } else {
        '-'
    }
}

/// Writes the permission column of an entry.
pub fn permission_text(kind: EntryKind, bits: u32) -> (out: String)
    ensures
        out@ == permissions(kind, bits),
{
    let mut out = String::new();
    let first = match kind {
        EntryKind::Symlink => 'l',
        EntryKind::Directory => 'd',
        EntryKind::RegularFile => '-',
    };
    push_char(&mut out, first);
    push_char(&mut out, flag_letter(bits, 0o400, 'r'));
    push_char(&mut out, flag_letter(bits, 0o200, 'w'));
    push_char(&mut out, flag_letter(bits, 0o100, 'x'));
    push_char(&mut out, flag_letter(bits, 0o040, 'r'));
    push_char(&mut out, flag_letter(bits, 0o020, 'w'));
    push_char(&mut out, flag_letter(bits, 0o010, 'x'));
    push_char(&mut out, flag_letter(bits, 0o004, 'r'));
    push_char(&mut out, flag_letter(bits, 0o002, 'w'));
    push_char(&mut out, flag_letter(bits, 0o001, 'x'));
    push_char(&mut out, ' ');
    assert(out@ =~= permissions(kind, bits));
    out
}

impl Entry {
    /// Appends this entry's line to `buffer`.
    pub fn write(&self, highlight: bool, buffer: &mut Vec<Fragment>)
        ensures
            frame_view(final(buffer)@) == frame_view(old(buffer)@) + entry_line(self@, highlight),
    {
        let is_dir = match self.kind {
            EntryKind::Directory => true,
            _ => false,
        };
        let is_link = match self.kind {
            EntryKind::Symlink => true,
            _ => false,
        };
        buffer.push(
            Fragment::Background(
                if highlight {
                    Color::Rgb { r: 80, g: 73, b: 69 }
                } else {
                    Color::Reset
                },
            ),
        );
        buffer.push(Fragment::Foreground(Color::Rgb { r: 204, g: 36, b: 29 }));
        buffer.push(Fragment::Text(permission_text(self.kind, self.permission_bits)));
        buffer.push(Fragment::Foreground(Color::Yellow));
        if is_dir {
            proof {
                reveal_strlit("~");
                assert("~"@ =~= seq!['~']);
            }
            buffer.push(Fragment::Text(pad_right("~", 8)));
        } else {
            buffer.push(
                Fragment::SizeColumn { bytes: self.size, unit: SizeUnit::for_size(self.size) },
            );
        }
        buffer.push(
            Fragment::Foreground(
                if is_dir {
                    Color::Blue
                } else if is_link {
                    Color::Yellow
                } else {
                    Color::Rgb { r: 235, g: 219, b: 178 }
                },
            ),
        );
        let mut mark = String::new();
        push_char(&mut mark, if is_link { '@' } else { ' ' });
        assert(mark@ =~= link_mark(self.kind));
        buffer.push(Fragment::Text(mark));
        let mut name = pad_right(self.name.as_str(), 32);
        push_char(&mut name, '\r');
        push_char(&mut name, '\n');
        assert(name@ =~= padded(self.name@, 32) + seq!['\r', '\n']);
        buffer.push(Fragment::Text(name));
        buffer.push(Fragment::ResetColor);
        assert(frame_view(buffer@) =~= frame_view(old(buffer)@) + entry_line(self@, highlight));
    }
}

} // verus!
