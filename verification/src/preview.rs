//! What the preview panel shows for the selected entry.
//!
//! The kind of preview is decided in a fixed order: a blocked name, a
//! directory, a file that is too large, a picture by its extension, a binary
//! file by a NUL byte among its first 1024 bytes, and text otherwise. The
//! first three are decided without reading the file.

use crate::path::{extension_chars, extension_of, file_name_chars, file_name_of};
use crate::text::{
    append_chars, decimal, decimal_chars, lower, same_chars, to_chars, to_lower_char, to_text,
};
use vstd::prelude::*;

verus! {

/// The number of bytes at the start of a file that are searched for a NUL
/// byte.
pub const HEAD_BYTES: usize = 1024;

/// The largest size in bytes of a file that is previewed: 300 MiB.
pub const MAX_PREVIEW_BYTES: u64 = 314_572_800;

/// The same limit in MiB, for messages.
pub const MAX_PREVIEW_MIB: u64 = 300;

/// 1024 bytes.
pub const KIB: u64 = 1024;

/// 1024 KiB.
pub const MIB: u64 = 1_048_576;

/// 1024 MiB.
pub const GIB: u64 = 1_073_741_824;

/// The kind of preview.
#[derive(Debug, Clone, Copy, PartialEq, Eq, Structural)]
pub enum Preview {
    /// The name is on the list of names that are never previewed.
    Blocked,
    /// The entry is a directory.
    Directory,
    /// The file is larger than `MAX_PREVIEW_BYTES`.
    TooLarge { size: u64 },
    /// The file is a picture by its extension: the shell tries to decode
    /// and draw it.
    Image,
    /// The file holds a NUL byte among its first bytes.
    Binary,
    /// The file is read and shown as text.
    Text,
}

/// The name that is never previewed.
pub open spec fn blocked_name() -> Seq<char> {
    ".wget-hsts"@
}

/// Whether `e`, in lower case, is the extension of a picture.
pub open spec fn is_image_extension(e: Seq<char>) -> bool {
    ||| e == "png"@
    ||| e == "jpg"@
    ||| e == "jpeg"@
    ||| e == "gif"@
    ||| e == "bmp"@
    ||| e == "ico"@
    ||| e == "tiff"@
    ||| e == "webp"@
}

/// Whether the entry that `path` leads to is a picture by its extension,
/// whatever the case of the extension.
pub open spec fn is_image_path(path: Seq<char>) -> bool {
    match file_name_of(path) {
        Some(name) => match extension_of(name) {
            Some(e) => is_image_extension(lower(e)),
            None => false,
        },
        None => false,
    }
}

/// Whether there is a NUL byte among the first `HEAD_BYTES` bytes of
/// `bytes`.
pub open spec fn has_nul_in_head(bytes: Seq<u8>) -> bool {
    exists|i: int| 0 <= i < bytes.len() && i < HEAD_BYTES && bytes[i] == 0
}

/// The kind of preview that can be decided without reading the file, if it
/// can.
pub open spec fn early_preview_of(path: Seq<char>, is_dir: bool, size: u64) -> Option<Preview> {
    if file_name_of(path) == Some(blocked_name()) {
        Some(Preview::Blocked)
    } else if is_dir {
        Some(Preview::Directory)
    } else if size > MAX_PREVIEW_BYTES {
        Some(Preview::TooLarge { size })
    } else if is_image_path(path) {
        Some(Preview::Image)
    } else {
        None
    }
}

/// The kind of preview of a file by its first bytes.
pub open spec fn content_preview_of(head: Seq<u8>) -> Preview {
    if has_nul_in_head(head) {
        Preview::Binary
    } else {
        Preview::Text
    }
}

/// The kind of preview of the entry at `path`, a directory or a file of
/// `size` bytes that starts with `head`.
pub open spec fn preview_of(path: Seq<char>, is_dir: bool, size: u64, head: Seq<u8>) -> Preview {
    match early_preview_of(path, is_dir, size) {
        Some(p) => p,
        None => content_preview_of(head),
    }
}

/// `size` in units of `unit` bytes, in tenths, rounded to the nearest
/// tenth; a value just between two tenths goes to the even one.
pub open spec fn tenths_of(size: nat, unit: nat) -> nat {
    let q = size * 10 / unit;
    let r = size * 10 % unit;
    if 2 * r > unit || (2 * r == unit && q % 2 == 1) {
        q + 1
    } else {
        q
    }
}

/// A number of tenths with one decimal place.
pub open spec fn one_decimal(tenths: nat) -> Seq<char> {
    decimal(tenths / 10) + seq!['.'] + decimal(tenths % 10)
}

/// A size for display: whole bytes below 1024 B, and with one decimal place
/// in KB below 1 MiB, in MB below 1 GiB, in GB from there.
pub open spec fn size_text(size: u64) -> Seq<char> {
    if size >= GIB {
        one_decimal(tenths_of(size as nat, GIB as nat)) + " GB"@
    } else if size >= MIB {
        one_decimal(tenths_of(size as nat, MIB as nat)) + " MB"@
    } else if size >= KIB {
        one_decimal(tenths_of(size as nat, KIB as nat)) + " KB"@
    } else {
        decimal(size as nat) + " B"@
    }
}

/// The message for a file that is too large.
pub open spec fn too_large_message(size: u64) -> Seq<char> {
    "File is too large for preview ("@ + size_text(size) + ") Max size is "@ + decimal(
        MAX_PREVIEW_MIB as nat,
    ) + " MB."@
}

/// The message that stands in for the contents, for every kind of preview
/// but text and pictures.
pub open spec fn message_of(p: Preview) -> Option<Seq<char>> {
    match p {
        Preview::Blocked => Some("'.wget-hsts' file is blocked from preview."@),
        Preview::Directory => Some("Directory"@),
        Preview::TooLarge { size } => Some(too_large_message(size)),
        Preview::Binary => Some("Binary file, no preview available."@),
        Preview::Image => None,
        Preview::Text => None,
    }
}

/// The message for a picture that could not be decoded.
pub open spec fn image_failure_message() -> Seq<char> {
    "Could not load image"@
}

/// What is put at the end of a line that was cut: three dots.
pub open spec fn cut_marker() -> Seq<char> {
    "..."@
}

/// A line as the preview shows it in `width` columns: a line of more than
/// `width` characters is cut to its first `width - 3` and gets the marker,
/// so that it fills the columns exactly.
pub open spec fn shown_line(line: Seq<char>, width: nat) -> Seq<char> {
    if line.len() > width {
        line.take(
            if width >= 3 {
                width - 3
            } else {
                0
            },
        ) + cut_marker()
    } else {
        line
    }
}

/// The index of the first line feed in `s`, or the length of `s` where it
/// has none.
pub open spec fn first_line_feed(s: Seq<char>) -> int
    decreases s.len(),
{
    if s.len() == 0 || s[0] == '\n' {
        0
    } else {
        1 + first_line_feed(s.skip(1))
    }
}

/// A line without the carriage return in front of its line feed.
pub open spec fn without_carriage_return(line: Seq<char>) -> Seq<char> {
    if line.len() > 0 && line.last() == '\r' {
        line.drop_last()
    } else {
        line
    }
}

/// The lines of a text. A line ends with a line feed, or with a carriage
/// return and a line feed; the last line need not end at all. The line
/// endings are not part of the lines.
pub open spec fn lines_of(s: Seq<char>) -> Seq<Seq<char>>
    decreases s.len(),
{
    let n = first_line_feed(s);
    if s.len() == 0 {
        Seq::empty()
    } else if 0 <= n < s.len() {
        seq![without_carriage_return(s.take(n))] + lines_of(s.skip(n + 1))
    } else {
        seq![s]
    }
}

/// The lines joined by line feeds.
pub open spec fn joined_lines(lines: Seq<Seq<char>>) -> Seq<char>
    decreases lines.len(),
{
    if lines.len() == 0 {
        Seq::empty()
    } else if lines.len() == 1 {
        lines[0]
    } else {
        joined_lines(lines.drop_last()) + seq!['\n'] + lines.last()
    }
}

/// The text of a file as the preview shows it in `width` columns.
pub open spec fn shown_text(content: Seq<char>, width: nat) -> Seq<char> {
    joined_lines(lines_of(content).map_values(|l: Seq<char>| shown_line(l, width)))
}

/// A line of at most `width` characters is shown as it is. A longer one is
/// shown as a beginning of itself with the marker behind it, and where there
/// is room for the marker at all it takes exactly `width` columns. No shown
/// line is wider than `width`, then.
pub proof fn lemma_shown_line_fits(line: Seq<char>, width: nat)
    ensures
        line.len() <= width ==> shown_line(line, width) == line,
        line.len() > width ==> ({
            let shown = shown_line(line, width);
            let kept = shown.len() - cut_marker().len();
            &&& 0 <= kept <= line.len()
            &&& shown.take(kept) == line.take(kept)
            &&& shown.skip(kept) == cut_marker()
        }),
        line.len() > width && width >= 3 ==> shown_line(line, width).len() == width,
        width >= 3 ==> shown_line(line, width).len() <= width,
{
    reveal_strlit("...");
    if line.len() > width {
        let keep: int = if width >= 3 {
            width - 3
        } else {
            0
        };
        let shown = shown_line(line, width);
        assert(shown.take(keep) =~= line.take(keep));
        assert(shown.skip(keep) =~= cut_marker());
    }
}

/// A file with a NUL byte among its first bytes is never shown as text,
/// whatever its name; and it is shown as binary unless its name is blocked,
/// it is too large, or its extension is that of a picture.
pub proof fn lemma_nul_byte_means_binary(path: Seq<char>, size: u64, head: Seq<u8>)
    requires
        has_nul_in_head(head),
    ensures
        preview_of(path, false, size, head) != Preview::Text,
        early_preview_of(path, false, size) is None ==> preview_of(path, false, size, head)
            == Preview::Binary,
        early_preview_of(path, false, size) is None <==> file_name_of(path) != Some(blocked_name())
            && size <= MAX_PREVIEW_BYTES && !is_image_path(path),
{
}

/// Whether `e`, in lower case, is the extension of a picture.
fn is_image_extension_chars(e: &Vec<char>) -> (r: bool)
    ensures
        r == is_image_extension(e@),
{
    same_chars(e, &to_chars("png")) || same_chars(e, &to_chars("jpg")) || same_chars(
        e,
        &to_chars("jpeg"),
    ) || same_chars(e, &to_chars("gif")) || same_chars(e, &to_chars("bmp")) || same_chars(
        e,
        &to_chars("ico"),
    ) || same_chars(e, &to_chars("tiff")) || same_chars(e, &to_chars("webp"))
}

/// The characters of `v`, lower-cased.
fn lowered(v: &Vec<char>) -> (r: Vec<char>)
    ensures
        r@ == lower(v@),
{
    let mut r: Vec<char> = Vec::new();
    let mut i: usize = 0;
    while i < v.len()
        invariant
            i <= v.len(),
            r@ == lower(v@.take(i as int)),
        decreases v.len() - i,
    {
        r.push(to_lower_char(v[i]));
        i += 1;
        assert(r@ =~= lower(v@.take(i as int)));
    }
    assert(v@.take(v.len() as int) =~= v@);
    r
}

/// Whether the entry that `path` leads to is a picture by its extension.
pub fn is_image(path: &str) -> (r: bool)
    ensures
        r == is_image_path(path@),
{
    match file_name_chars(&to_chars(path)) {
        Some(name) => match extension_chars(&name) {
            Some(e) => is_image_extension_chars(&lowered(&e)),
            None => false,
        },
        None => false,
    }
}

/// Whether there is a NUL byte among the first `HEAD_BYTES` bytes of
/// `bytes`. The shell hands in what it could read of the start of the file,
/// and nothing for a file that it could not read.
pub fn is_likely_binary(bytes: &Vec<u8>) -> (r: bool)
    ensures
        r == has_nul_in_head(bytes@),
{
    let mut i: usize = 0;
    while i < bytes.len() && i < HEAD_BYTES
        invariant
            i <= bytes.len(),
            i <= HEAD_BYTES,
            forall|j: int| 0 <= j < i ==> bytes@[j] != 0,
        decreases bytes.len() - i,
    {
        if bytes[i] == 0 {
            return true;
        }
        i += 1;
    }
    false
}

/// The kind of preview that can be decided without reading the file:
/// `None` says that the start of the file has to be read.
pub fn early_preview(path: &str, is_dir: bool, size: u64) -> (r: Option<Preview>)
    ensures
        r == early_preview_of(path@, is_dir, size),
{
    let blocked = match file_name_chars(&to_chars(path)) {
        Some(name) => same_chars(&name, &to_chars(".wget-hsts")),
        None => false,
    };
    if blocked {
        Some(Preview::Blocked)
    } else if is_dir {
        Some(Preview::Directory)
    } else if size > MAX_PREVIEW_BYTES {
        Some(Preview::TooLarge { size })
    } else if is_image(path) {
        Some(Preview::Image)
    } else {
        None
    }
}

/// The kind of preview of a file by its first bytes.
pub fn content_preview(head: &Vec<u8>) -> (r: Preview)
    ensures
        r == content_preview_of(head@),
{
    if is_likely_binary(head) {
        Preview::Binary
    } else {
        Preview::Text
    }
}

/// The kind of preview of the entry at `path`, a directory or a file of
/// `size` bytes that starts with `head`.
pub fn classify(path: &str, is_dir: bool, size: u64, head: &Vec<u8>) -> (r: Preview)
    ensures
        r == preview_of(path@, is_dir, size, head@),
        !is_dir && has_nul_in_head(head@) ==> r != Preview::Text,
{
    match early_preview(path, is_dir, size) {
        Some(p) => p,
        None => content_preview(head),
    }
}

/// `size` in units of `unit` bytes, in tenths.
fn tenths(size: u64, unit: u64) -> (t: u64)
    requires
        unit == KIB || unit == MIB || unit == GIB,
    ensures
        t == tenths_of(size as nat, unit as nat),
{
    let scaled: u128 = (size as u128) * 10;
    let wide: u128 = unit as u128;
    let q: u128 = scaled / wide;
    let r: u128 = scaled % wide;
    assert(q <= scaled / 1024) by (nonlinear_arith)
        requires
            q == scaled / wide,
            wide >= 1024,
            scaled >= 0,
    ;
    if 2 * r > wide || (2 * r == wide && q % 2 == 1) {
        (q + 1) as u64
    } else {
        q as u64
    }
}

/// A number of tenths with one decimal place.
fn one_decimal_chars(t: u64) -> (v: Vec<char>)
    ensures
        v@ == one_decimal(t as nat),
{
    let mut v = decimal_chars(t / 10);
    v.push('.');
    let ghost head = v@;
    append_chars(&mut v, &decimal_chars(t % 10));
    assert(head =~= decimal((t / 10) as nat) + seq!['.']);
    v
}

/// `size_text`, on characters.
fn size_chars(size: u64) -> (v: Vec<char>)
    ensures
        v@ == size_text(size),
{
    if size >= GIB {
        let mut v = one_decimal_chars(tenths(size, GIB));
        append_chars(&mut v, &to_chars(" GB"));
        v
    } else if size >= MIB {
        let mut v = one_decimal_chars(tenths(size, MIB));
        append_chars(&mut v, &to_chars(" MB"));
        v
    } else if size >= KIB {
        let mut v = one_decimal_chars(tenths(size, KIB));
        append_chars(&mut v, &to_chars(" KB"));
        v
    } else {
        let mut v = decimal_chars(size);
        append_chars(&mut v, &to_chars(" B"));
        v
    }
}

/// A size for display.
pub fn format_size(size: u64) -> (r: String)
    ensures
        r@ == size_text(size),
{
    to_text(&size_chars(size))
}

/// The message that stands in for the contents, for every kind of preview
/// but text and pictures.
pub fn preview_message(p: Preview) -> (r: Option<String>)
    ensures
        r.deep_view() == message_of(p),
{
    match p {
        Preview::Blocked => Some(String::from_str("'.wget-hsts' file is blocked from preview.")),
        Preview::Directory => Some(String::from_str("Directory")),
        Preview::TooLarge { size } => {
            let mut v = to_chars("File is too large for preview (");
            append_chars(&mut v, &size_chars(size));
            append_chars(&mut v, &to_chars(") Max size is "));
            append_chars(&mut v, &decimal_chars(MAX_PREVIEW_MIB));
            append_chars(&mut v, &to_chars(" MB."));
            Some(to_text(&v))
        },
        Preview::Binary => Some(String::from_str("Binary file, no preview available.")),
        Preview::Image => None,
        Preview::Text => None,
    }
}

/// The message for a picture that could not be decoded.
pub fn image_failure() -> (r: String)
    ensures
        r@ == image_failure_message(),
{
    String::from_str("Could not load image")
}

/// `shown_line`, appended to `out`.
fn push_shown_line(out: &mut Vec<char>, content: &Vec<char>, from: usize, to: usize, width: usize)
    requires
        from <= to <= content.len(),
    ensures
        final(out)@ == old(out)@ + shown_line(
            content@.subrange(from as int, to as int),
            width as nat,
        ),
{
    let ghost line = content@.subrange(from as int, to as int);
    let len = to - from;
    let keep = if len > width {
        if width >= 3 {
            width - 3
        } else {
            0
        }
    } else {
        len
    };
    let mut i: usize = 0;
    assert(out@ + line.take(0) =~= out@);
    while i < keep
        invariant
            i <= keep <= len,
            len == to - from,
            to <= content.len(),
            line == content@.subrange(from as int, to as int),
            out@ == old(out)@ + line.take(i as int),
        decreases keep - i,
    {
        out.push(content[from + i]);
        i += 1;
        assert(out@ =~= old(out)@ + line.take(i as int));
    }
    if len > width {
        append_chars(out, &to_chars("..."));
        assert(out@ =~= old(out)@ + (line.take(keep as int) + cut_marker()));
    } else {
        assert(line.take(len as int) =~= line);
    }
}

/// The lines and the line feeds between them grow together: a further line
/// adds a line feed and the line, except for the first.
proof fn lemma_joined_lines_push(lines: Seq<Seq<char>>, line: Seq<char>)
    ensures
        joined_lines(lines.push(line)) == if lines.len() == 0 {
            line
        } else {
            joined_lines(lines) + seq!['\n'] + line
        },
{
    assert(lines.push(line).drop_last() =~= lines);
}

/// The text of a file as the preview shows it in `width` columns: every
/// line that is longer than that is cut, and the lines are joined by line
/// feeds.
pub fn preview_text(content: &str, width: usize) -> (r: String)
    ensures
        r@ == shown_text(content@, width as nat),
{
    let chars = to_chars(content);
    let ghost show = |l: Seq<char>| shown_line(l, width as nat);
    let mut out: Vec<char> = Vec::new();
    let mut start: usize = 0;
    let ghost mut done: Seq<Seq<char>> = Seq::empty();
    proof {
        assert(chars@.skip(0) =~= chars@);
        assert(done + lines_of(chars@.skip(0)) =~= lines_of(chars@));
    }
    while start < chars.len()
        invariant
            start <= chars.len(),
            chars@ == content@,
            show == (|l: Seq<char>| shown_line(l, width as nat)),
            lines_of(chars@) == done + lines_of(chars@.skip(start as int)),
            (start == 0) == (done.len() == 0),
            out@ == joined_lines(done.map_values(show)),
        decreases chars.len() - start,
    {
        let ghost rest = chars@.skip(start as int);
        let mut end: usize = start;
        proof {
            assert(rest.skip(0) =~= rest);
        }
        while end < chars.len() && chars[end] != '\n'
            invariant
                start <= end <= chars.len(),
                rest == chars@.skip(start as int),
                first_line_feed(rest) == (end - start) + first_line_feed(
                    rest.skip(end - start),
                ),
            decreases chars.len() - end,
        {
            assert(rest.skip(end - start).skip(1) =~= rest.skip(end - start + 1));
            assert(rest.skip(end - start)[0] == chars@[end as int]);
            end += 1;
        }
        proof {
            if end < chars.len() {
                assert(rest.skip(end - start)[0] == chars@[end as int]);
            }
            assert(first_line_feed(rest) == end - start);
        }
        let has_feed = end < chars.len();
        let stop = if has_feed && end > start && chars[end - 1] == '\r' {
            end - 1
        } else {
            end
        };
        let ghost line = chars@.subrange(start as int, stop as int);
        proof {
            assert(rest.take(end - start) =~= chars@.subrange(start as int, end as int));
            if has_feed {
                assert(line =~= without_carriage_return(rest.take(end - start)));
                assert(rest.skip(end - start + 1) =~= chars@.skip(end + 1));
                assert(lines_of(rest) == seq![line] + lines_of(chars@.skip(end + 1)));
            } else {
                assert(line =~= rest);
                assert(lines_of(rest) == seq![line]);
                assert(chars@.skip(chars.len() as int) =~= Seq::<char>::empty());
            }
        }
        if start > 0 {
            out.push('\n');
        }
        push_shown_line(&mut out, &chars, start, stop, width);
        proof {
            lemma_joined_lines_push(done.map_values(show), show(line));
            assert(done.push(line).map_values(show) =~= done.map_values(show).push(show(line)));
            let next: int = if has_feed {
                end + 1
            } else {
                chars.len() as int
            };
            assert(lines_of(chars@) =~= done.push(line) + lines_of(chars@.skip(next))) by {
                if !has_feed {
                    assert(lines_of(Seq::<char>::empty()) =~= Seq::<Seq<char>>::empty());
                }
            }
            done = done.push(line);
        }
        start = if has_feed {
            end + 1
        } else {
            chars.len()
        };
    }
    proof {
        assert(chars@.skip(chars.len() as int) =~= Seq::<char>::empty());
        assert(lines_of(chars@) =~= done);
    }
    to_text(&out)
}

} // verus!
