//! The arithmetic of the screen: how a row of the file list is made up, and
//! how much room a centred popup leaves around it.
//!
//! A row holds a glyph, two blanks, the name, padding, and for a file its
//! size, right-aligned in the last ten columns. The drawing itself is the
//! shell's.

use crate::listing::{Entry, EntryView};
use crate::preview::{cut_marker, format_size, size_text};
use crate::text::{append_chars, sub_chars, to_chars, to_text};
use vstd::prelude::*;

verus! {

/// The columns at the end of a row that hold the size.
pub const SIZE_COLUMNS: usize = 10;

/// The columns of a row that are neither for the name nor for its padding:
/// the size and the frame of the list.
pub const RESERVED_COLUMNS: usize = 14;

/// The blanks between the glyph and the name.
pub const GLYPH_GAP: usize = 2;

/// One row of the file list.
#[derive(Debug, PartialEq, Eq)]
pub struct FileRow {
    /// The name as it is shown.
    pub name: String,
    /// The number of blanks behind the name.
    pub padding: usize,
    /// The size column of a file; a directory has none.
    pub size: Option<String>,
}

/// A row as contracts see it.
pub struct FileRowView {
    pub name: Seq<char>,
    pub padding: nat,
    pub size: Option<Seq<char>>,
}

impl DeepView for FileRow {
    type V = FileRowView;

    open spec fn deep_view(&self) -> FileRowView {
        FileRowView { name: self.name@, padding: self.padding as nat, size: self.size.deep_view() }
    }
}

impl View for FileRow {
    type V = FileRowView;

    open spec fn view(&self) -> FileRowView {
        self.deep_view()
    }
}

/// `a - b`, or 0 where `b` is the larger.
pub open spec fn minus(a: nat, b: nat) -> nat {
    if a >= b {
        (a - b) as nat
    } else {
        0
    }
}

/// The columns that a list of `width` columns has for the name and its
/// padding.
pub open spec fn name_columns(width: nat) -> nat {
    minus(width, RESERVED_COLUMNS as nat)
}

/// A name as it is shown in `columns` columns: a longer name is cut to its
/// first `columns - 3` characters and gets the marker of a cut.
pub open spec fn shown_name(name: Seq<char>, columns: nat) -> Seq<char> {
    if name.len() > columns {
        name.take(minus(columns, 3) as int) + cut_marker()
    } else {
        name
    }
}

/// `n` blanks.
pub open spec fn blanks(n: nat) -> Seq<char> {
    Seq::new(n, |i: int| ' ')
}

/// `text` moved to the right end of `columns` columns; a longer text is
/// left as it is.
pub open spec fn right_aligned(text: Seq<char>, columns: nat) -> Seq<char> {
    blanks(minus(columns, text.len())) + text
}

/// The row of `e` in a list of `width` columns, behind a glyph of
/// `glyph_width` characters.
pub open spec fn row_for(e: EntryView, width: nat, glyph_width: nat) -> FileRowView {
    let columns = name_columns(width);
    let name = shown_name(e.name, columns);
    FileRowView {
        name,
        padding: minus(columns, (glyph_width + GLYPH_GAP + name.len()) as nat),
        size: if e.is_dir {
            None
        } else {
            Some(right_aligned(size_text(e.size), SIZE_COLUMNS as nat))
        },
    }
}

/// The share of a length, in percent, that a popup of `percent` percent
/// leaves on either side of it.
pub open spec fn margin_percent(percent: nat) -> nat {
    minus(100, percent) / 2
}

/// A name that was cut fits its columns exactly, where there is room for
/// the dots at all; no shown name is longer than the name.
pub proof fn lemma_shown_name_fits(name: Seq<char>, columns: nat)
    ensures
        name.len() <= columns ==> shown_name(name, columns) == name,
        name.len() > columns && columns >= 3 ==> shown_name(name, columns).len() == columns,
        name.len() > columns && columns < 3 ==> shown_name(name, columns) == cut_marker(),
{
    reveal_strlit("...");
    if name.len() > columns && columns < 3 {
        assert(name.take(0) + cut_marker() =~= cut_marker());
    }
}

/// The margins and the popup never take more than the whole, and miss it
/// by one percent at most.
pub proof fn lemma_margins_fit(percent: nat)
    requires
        percent <= 100,
    ensures
        99 <= 2 * margin_percent(percent) + percent <= 100,
{
}

/// `a - b`, or 0 where `b` is the larger.
fn saturating_minus(a: usize, b: usize) -> (r: usize)
    ensures
        r == minus(a as nat, b as nat),
{
    if a >= b {
        a - b
    } else {
        0
    }
}

/// A name as it is shown in `columns` columns.
pub fn display_name(name: &str, columns: usize) -> (r: String)
    ensures
        r@ == shown_name(name@, columns as nat),
{
    let chars = to_chars(name);
    if chars.len() > columns {
        let keep = saturating_minus(columns, 3);
        let mut out = sub_chars(&chars, 0, keep);
        append_chars(&mut out, &to_chars("..."));
        assert(out@ =~= chars@.take(keep as int) + cut_marker());
        to_text(&out)
    } else {
        to_text(&chars)
    }
}

/// `text` moved to the right end of `columns` columns.
pub fn align_right(text: &str, columns: usize) -> (r: String)
    ensures
        r@ == right_aligned(text@, columns as nat),
{
    let chars = to_chars(text);
    let pad = saturating_minus(columns, chars.len());
    let mut out: Vec<char> = Vec::new();
    let mut i: usize = 0;
    while i < pad
        invariant
            i <= pad,
            out@ == blanks(i as nat),
        decreases pad - i,
    {
        out.push(' ');
        i += 1;
        assert(out@ =~= blanks(i as nat));
    }
    let mut k: usize = 0;
    assert(out@ + chars@.take(0) =~= out@);
    while k < chars.len()
        invariant
            k <= chars.len(),
            out@ == blanks(pad as nat) + chars@.take(k as int),
        decreases chars.len() - k,
    {
        out.push(chars[k]);
        k += 1;
        assert(out@ =~= blanks(pad as nat) + chars@.take(k as int));
    }
    assert(chars@.take(chars.len() as int) =~= chars@);
    to_text(&out)
}

/// The row of `entry` in a list of `width` columns, behind a glyph of
/// `glyph_width` characters.
pub fn file_row(entry: &Entry, width: usize, glyph_width: usize) -> (row: FileRow)
    ensures
        row@ == row_for(entry@, width as nat, glyph_width as nat),
{
    let columns = saturating_minus(width, RESERVED_COLUMNS);
    let name = display_name(entry.name.as_str(), columns);
    let shown = to_chars(name.as_str()).len();
    let used: usize = if glyph_width <= usize::MAX - GLYPH_GAP && shown <= usize::MAX - GLYPH_GAP
        - glyph_width {
        glyph_width + GLYPH_GAP + shown
    } else {
        usize::MAX
    };
    let padding = if used == usize::MAX {
        0
    } else {
        saturating_minus(columns, used)
    };
    let size = if entry.is_dir {
        None
    } else {
        Some(align_right(format_size(entry.size).as_str(), SIZE_COLUMNS))
    };
    FileRow { name, padding, size }
}

/// The percentages that split a length into a margin, a popup of `percent`
/// percent, and a second margin.
pub fn centered_percentages(percent: u16) -> (r: (u16, u16, u16))
    requires
        percent <= 100,
    ensures
        r.0 == margin_percent(percent as nat),
        r.1 == percent,
        r.2 == margin_percent(percent as nat),
{
    let margin = (100 - percent) / 2;
    (margin, percent, margin)
}

} // verus!
