//! The frog and its speech: a text, wrapped to the width of the terminal and
//! set above a drawing of the frog that utters it.

use vstd::prelude::*;
use vstd::string::*;
use itertools::Itertools;
use textwrap::Wrapper;
use unicode_width::{UnicodeWidthChar, UnicodeWidthStr};

verus! {

/// The margin to the left of every line of speech.
pub const INDENT: &'static str = "        ";

/// The frog, from the line that leaves its mouth down to its feet. The first
/// line follows the margin.
pub const FROG: &'static str = "/\n  @..@\n (----)\n( >__< )\n^^ ~~ ^^";

/// The widest terminal that speech is wrapped for. The wrapper sets aside as
/// many bytes as the terminal is wide for every line that it makes.
pub const MAX_WIDTH: usize = 0xFFFF;

/// Whether `char::is_whitespace` holds of `c`.
pub uninterp spec fn white_space(c: char) -> bool;

/// What `unicode_width::UnicodeWidthChar::width` gives for `c`: the columns
/// that `c` takes by itself, and `None` for a control character.
pub uninterp spec fn char_columns(c: char) -> Option<usize>;

/// What `unicode_width::UnicodeWidthStr::width` gives for `text`: the columns
/// that `text` takes as a whole.
pub uninterp spec fn str_columns(text: Seq<char>) -> usize;

/// Whether words are parted at `c`: at white space other than the no-break
/// space.
pub open spec fn is_gap(c: char) -> bool {
    white_space(c) && c != '\u{a0}'
}

/// The columns that `c` takes by itself, a control character taking none.
pub open spec fn columns(c: char) -> nat {
    match char_columns(c) {
        Some(n) => n as nat,
        None => 0,
    }
}

/// The columns that the characters of `text` take, each by itself.
pub open spec fn char_sum(text: Seq<char>) -> nat
    decreases text.len(),
{
    if text.len() == 0 {
        0
    } else {
        columns(text.first()) + char_sum(text.drop_first())
    }
}

/// Whether no words are parted anywhere from `from` up to `to` in `line`.
pub open spec fn no_gap(line: Seq<char>, from: int, to: int) -> bool {
    forall|k: int| from <= k < to ==> !is_gap(#[trigger] line[k])
}

/// Whether the characters of `line` from `from` up to `to` are the end of a
/// word: none of them parts words, and the word ends at `to`.
pub open spec fn is_word_tail(line: Seq<char>, from: int, to: int) -> bool {
    &&& 0 <= from < to <= line.len()
    &&& to == line.len() || is_gap(line[to])
    &&& no_gap(line, from, to)
}

/// Whether `piece` can be begun on a line with `room` columns: its first
/// character fits there, and if the piece as a whole does not, then that shows
/// in the widths of its characters too, so that it can be broken.
pub open spec fn breaks(piece: Seq<char>, room: int) -> bool {
    columns(piece.first()) <= room && (str_columns(piece) <= room || char_sum(piece) > room)
}

/// Whether `line` can be filled at `width` columns behind `indent`: the indent
/// is no wider than that, the width is no more than `MAX_WIDTH`, and every end
/// of every word of the line can be begun on what the indent leaves of a line.
pub open spec fn fillable(line: Seq<char>, width: usize, indent: Seq<char>) -> bool {
    &&& str_columns(indent) <= width <= MAX_WIDTH
    &&& forall|from: int, to: int| #[trigger]
        is_word_tail(line, from, to) ==> breaks(
            line.subrange(from, to),
            width - str_columns(indent),
        )
}

/// The index of the first character of `line` at or after `from` that is no
/// white space, and the length of `line` where there is none.
pub open spec fn lead(line: Seq<char>, from: int) -> int
    decreases line.len() - from,
{
    if from < 0 || from >= line.len() {
        line.len() as int
    } else if !white_space(line[from]) {
        from
    } else {
        lead(line, from + 1)
    }
}

/// The index behind the last character of `line` before `to` that is no white
/// space, and 0 where there is none.
pub open spec fn trail(line: Seq<char>, to: int) -> int
    decreases to,
{
    if to <= 0 || to > line.len() {
        0
    } else if !white_space(line[to - 1]) {
        to
    } else {
        trail(line, to - 1)
    }
}

/// `line` without the white space at its start and at its end.
pub open spec fn trimmed(line: Seq<char>) -> Seq<char> {
    if lead(line, 0) < trail(line, line.len() as int) {
        line.subrange(lead(line, 0), trail(line, line.len() as int))
    } else {
        Seq::empty()
    }
}

/// The index of the first line feed of `text` at or after `from`, and the
/// length of `text` where there is none.
pub open spec fn line_end(text: Seq<char>, from: int) -> int
    decreases text.len() - from,
{
    if from < 0 || from >= text.len() {
        text.len() as int
    } else if text[from] == '\n' {
        from
    } else {
        line_end(text, from + 1)
    }
}

/// The line of `text` that starts at `from` and whose end `line_end` gives as
/// `end`: the characters between the two, without a carriage return that stands
/// directly before the line feed.
pub open spec fn line_at(text: Seq<char>, from: int, end: int) -> Seq<char> {
    if from < end < text.len() && text[end - 1] == '\r' {
        text.subrange(from, end - 1)
    } else {
        text.subrange(from, end)
    }
}

/// A line ends at or after its start, and within the text.
pub proof fn lemma_line_end_bounds(text: Seq<char>, from: int)
    requires
        0 <= from <= text.len(),
    ensures
        from <= line_end(text, from) <= text.len(),
    decreases text.len() - from,
{
    if from < text.len() && text[from] != '\n' {
        lemma_line_end_bounds(text, from + 1);
    }
}

/// The lines of `text` from `from` on.
pub open spec fn lines_from(text: Seq<char>, from: int) -> Seq<Seq<char>>
    decreases text.len() + 1 - from,
    via lines_from_decreases
{
    if from < 0 || from >= text.len() {
        seq![]
    } else {
        seq![line_at(text, from, line_end(text, from))] + lines_from(
            text,
            line_end(text, from) + 1,
        )
    }
}

#[via_fn]
proof fn lines_from_decreases(text: Seq<char>, from: int) {
    if 0 <= from < text.len() {
        lemma_line_end_bounds(text, from);
    }
}

/// The lines of `text`. A line ends at a line feed, or at a carriage return
/// and a line feed; neither belongs to the line. The last line needs no such
/// end, and nothing follows a line feed at the very end.
pub open spec fn lines_of(text: Seq<char>) -> Seq<Seq<char>> {
    lines_from(text, 0)
}

/// What each of `strings` holds, in order.
pub open spec fn texts(strings: Seq<String>) -> Seq<Seq<char>> {
    strings.map_values(|s: String| s@)
}

/// The `parts`, with `sep` between each two of them.
pub open spec fn joined(parts: Seq<Seq<char>>, sep: Seq<char>) -> Seq<char>
    decreases parts.len(),
{
    if parts.len() == 0 {
        seq![]
    } else if parts.len() == 1 {
        parts.first()
    } else {
        parts.first() + sep + joined(parts.drop_first(), sep)
    }
}

/// What `textwrap::Wrapper::fill` makes of `line`, for a wrapper of `width`
/// columns that puts `indent` before every line of its output and has the
/// options `squeeze_whitespace` and `break_words` set as given.
pub uninterp spec fn filled(
    line: Seq<char>,
    width: usize,
    indent: Seq<char>,
    squeeze_whitespace: bool,
    break_words: bool,
) -> Seq<char>;

/// What `str::to_uppercase` makes of `text`.
pub uninterp spec fn uppercased(text: Seq<char>) -> Seq<char>;

/// The index behind the characters of `line` from `from` on that fit into
/// `room` columns one after the other, each measured by itself.
pub open spec fn fit_end(line: Seq<char>, from: int, room: int) -> int
    decreases line.len() - from,
{
    if from < 0 || from >= line.len() {
        line.len() as int
    } else if columns(line[from]) > room {
        from
    } else {
        fit_end(line, from + 1, room - columns(line[from]))
    }
}

/// Where the piece of `line` that starts at `from` is cut for a line with
/// `room` columns: behind the characters that fit, and behind the first
/// character where not even that one fits.
pub open spec fn cut_end(line: Seq<char>, from: int, room: int) -> int {
    if fit_end(line, from, room) > from {
        fit_end(line, from, room)
    } else {
        from + 1
    }
}

/// What fits ends at or after its start, and within the line.
pub proof fn lemma_fit_end_bounds(line: Seq<char>, from: int, room: int)
    requires
        0 <= from <= line.len(),
    ensures
        from <= fit_end(line, from, room) <= line.len(),
    decreases line.len() - from,
{
    if from < line.len() && columns(line[from]) <= room {
        lemma_fit_end_bounds(line, from + 1, room - columns(line[from]));
    }
}

/// `line` from `from` on, cut into rows for lines with `room` columns: each
/// row the longest piece whose characters fit, but one character at least,
/// behind the margin.
pub open spec fn rows_from(line: Seq<char>, from: int, room: int) -> Seq<Seq<char>>
    decreases line.len() - from,
    via rows_from_decreases
{
    if from < 0 || from >= line.len() {
        seq![]
    } else {
        seq![INDENT@ + line.subrange(from, cut_end(line, from, room))] + rows_from(
            line,
            cut_end(line, from, room),
            room,
        )
    }
}

#[via_fn]
proof fn rows_from_decreases(line: Seq<char>, from: int, room: int) {
    if 0 <= from < line.len() {
        lemma_fit_end_bounds(line, from, room);
    }
}

/// `line` cut by force for lines with `room` columns behind the margin: its
/// rows, one below the other. Words and white space count for nothing here;
/// the widths of the characters alone decide.
pub open spec fn forced(line: Seq<char>, room: int) -> Seq<char> {
    joined(rows_from(line, 0, room), "\n"@)
}

/// One line of speech at `width` columns, which is `line` without the white
/// space around it, and
/// - filled behind the margin where it can be filled at that width, with the
///   white space between its words kept and words that are too long for a
///   line broken;
/// - empty where nothing is left of it;
/// - cut by force where it cannot be filled but the margin leaves a column;
/// - behind the margin as it is where the margin leaves none.
pub open spec fn uttered(line: Seq<char>, width: usize) -> Seq<char> {
    if fillable(trimmed(line), width, INDENT@) {
        filled(trimmed(line), width, INDENT@, false, true)
    } else if trimmed(line).len() == 0 {
        Seq::empty()
    } else if str_columns(INDENT@) < width {
        forced(trimmed(line), width - str_columns(INDENT@))
    } else {
        INDENT@ + trimmed(line)
    }
}

/// Each of `lines` as a line of speech at `width` columns.
pub open spec fn uttered_lines(lines: Seq<Seq<char>>, width: usize) -> Seq<Seq<char>> {
    lines.map_values(|line: Seq<char>| uttered(line, width))
}

/// `text` as speech at `width` columns: its lines, each wrapped by itself.
pub open spec fn wrapped(text: Seq<char>, width: usize) -> Seq<char> {
    joined(uttered_lines(lines_of(text), width), "\n"@)
}

/// The frog uttering `speech`: an empty line, the speech, and the frog below
/// it.
pub open spec fn framed(speech: Seq<char>) -> Seq<char> {
    "\n"@ + speech + "\n"@ + INDENT@ + FROG@
}

/// What `say_with_width` returns: the frog uttering `text`, wrapped at `width`
/// columns.
pub open spec fn spoken(text: Seq<char>, width: usize) -> Seq<char> {
    framed(wrapped(text, width))
}

/// Calls `char::is_whitespace`, which tells whether `c` has the property
/// `White_Space` of Unicode.
#[verifier::external_body]
fn is_whitespace(c: char) -> (r: bool)
    ensures
        r == white_space(c),
{
    c.is_whitespace()
}

/// Calls `unicode_width::UnicodeWidthChar::width` on `c`.
#[verifier::external_body]
fn char_width(c: char) -> (r: Option<usize>)
    ensures
        r == char_columns(c),
{
    UnicodeWidthChar::width(c)
}

/// Calls `unicode_width::UnicodeWidthStr::width` on `text`.
#[verifier::external_body]
fn display_width(text: &str) -> (r: usize)
    ensures
        r == str_columns(text@),
{
    UnicodeWidthStr::width(text)
}

/// Builds a `textwrap::Wrapper` of `width` columns with `indent` as its initial
/// and its subsequent indent and with the two options as given, and calls its
/// `fill` on `line`. The result is a function of these five values, so it is
/// named and not described.
///
/// The wrapper parts the line into words at white space other than the
/// no-break space, and measures words and indent as `UnicodeWidthStr::width`
/// does. It subtracts the indent's width from `width`, and sets aside `width`
/// bytes for every line. Where a word does not fit a line of its own, it cuts
/// it before the first character at which the widths of the characters,
/// added up one by one as `UnicodeWidthChar::width` gives them, exceed what
/// the indent leaves of the line, and goes on with the rest; it has no way out
/// where that is the word's first character or where no such character comes.
/// What it goes on with is always the end of a word. On a `fillable` line none
/// of this goes wrong.
#[verifier::external_body]
fn fill(line: &str, width: usize, indent: &str, squeeze_whitespace: bool, break_words: bool) -> (r:
    String)
    requires
        fillable(line@, width, indent@),
    ensures
        r@ == filled(line@, width, indent@, squeeze_whitespace, break_words),
{
    Wrapper::new(width)
        .subsequent_indent(indent)
        .initial_indent(indent)
        .squeeze_whitespace(squeeze_whitespace)
        .break_words(break_words)
        .fill(line)
}

/// Calls `itertools::Itertools::join` on the strings of `parts`. By its source
/// it writes the first item, and then `sep` and the item for each one after
/// it; for no items it gives the empty string.
#[verifier::external_body]
fn join(parts: &Vec<String>, sep: &str) -> (r: String)
    ensures
        r@ == joined(texts(parts@), sep@),
{
    parts.iter().join(sep)
}

/// The width of the terminal, as the wrapper that
/// `textwrap::Wrapper::with_termwidth` builds has it: the columns of the
/// terminal on standard output, and 80 where there is none. Nothing is known of
/// it beforehand.
#[verifier::external_body]
fn terminal_width() -> usize {
    Wrapper::with_termwidth().width
}

/// Calls `str::to_uppercase`, which returns the uppercase equivalent of `text`
/// as a new string.
#[verifier::external_body]
pub(crate) fn to_uppercase(text: &str) -> (r: String)
    ensures
        r@ == uppercased(text@),
{
    text.to_uppercase()
}

/// The end of the line that starts at `from` is `end`, where no line feed
/// stands between the two and `end` is a line feed or the end of `text`.
proof fn lemma_line_end(text: Seq<char>, from: int, end: int)
    requires
        0 <= from <= end <= text.len(),
        forall|j: int| from <= j < end ==> text[j] != '\n',
        end < text.len() ==> text[end] == '\n',
    ensures
        line_end(text, from) == end,
    decreases end - from,
{
    if from < end {
        lemma_line_end(text, from + 1, end);
    }
}

/// The characters of `text`.
fn chars_of(text: &str) -> (r: Vec<char>)
    ensures
        r@ == text@,
{
    let n = text.unicode_len();
    let mut r: Vec<char> = Vec::new();
    let mut i: usize = 0;
    while i < n
        invariant
            n == text@.len(),
            i <= n,
            r@ == text@.take(i as int),
        decreases n - i,
    {
        r.push(text.get_char(i));
        assert(r@ =~= text@.take(i + 1));
        i = i + 1;
    }
    assert(text@.take(n as int) =~= text@);
    r
}

/// The lines of `text`.
fn split_lines(text: &str) -> (lines: Vec<String>)
    ensures
        texts(lines@) == lines_of(text@),
{
    let chars = chars_of(text);
    let n = chars.len();
    let mut lines: Vec<String> = Vec::new();
    let mut from: usize = 0;
    assert(texts(lines@) + lines_from(text@, 0) =~= lines_of(text@));
    while from < n
        invariant
            chars@ == text@,
            n == text@.len(),
            from <= n,
            texts(lines@) + lines_from(text@, from as int) == lines_of(text@),
        decreases n - from,
    {
        let mut end = from;
        while end < n && chars[end] != '\n'
            invariant
                chars@ == text@,
                n == text@.len(),
                from <= end <= n,
                forall|j: int| from <= j < end ==> text@[j] != '\n',
            decreases n - end,
        {
            end = end + 1;
        }
        proof {
            lemma_line_end(text@, from as int, end as int);
        }
        let stop = if from < end && end < n && chars[end - 1] == '\r' {
            end - 1
        } else {
            end
        };
        let line = text.substring_char(from, stop).to_owned();
        assert(line@ == line_at(text@, from as int, end as int));
        let ghost before = texts(lines@);
        lines.push(line);
        let next = if end < n {
            end + 1
        } else {
            n
        };
        proof {
            assert(texts(lines@) =~= before + seq![line_at(text@, from as int, end as int)]);
            assert(lines_from(text@, next as int) == lines_from(text@, end + 1));
            assert(before + lines_from(text@, from as int) =~= texts(lines@) + lines_from(
                text@,
                next as int,
            ));
        }
        from = next;
    }
    assert(texts(lines@) + lines_from(text@, from as int) =~= texts(lines@));
    lines
}

/// White space from `from` up to `to`, and none at `to`, puts the first
/// character that is no white space at `to`.
proof fn lemma_lead(line: Seq<char>, from: int, to: int)
    requires
        0 <= from <= to <= line.len(),
        forall|k: int| from <= k < to ==> white_space(#[trigger] line[k]),
        to < line.len() ==> !white_space(line[to]),
    ensures
        lead(line, from) == to,
    decreases to - from,
{
    if from < to {
        lemma_lead(line, from + 1, to);
    }
}

/// White space from `from` up to `to`, and none before `from`, puts the end of
/// what is no white space at `from`.
proof fn lemma_trail(line: Seq<char>, from: int, to: int)
    requires
        0 <= from <= to <= line.len(),
        forall|k: int| from <= k < to ==> white_space(#[trigger] line[k]),
        from > 0 ==> !white_space(line[from - 1]),
    ensures
        trail(line, to) == from,
    decreases to - from,
{
    if from < to {
        lemma_trail(line, from, to - 1);
    }
}

/// `line` without the white space at its start and at its end.
pub fn trim<'a>(line: &'a str) -> (r: &'a str)
    ensures
        r@ == trimmed(line@),
{
    let chars = chars_of(line);
    let n = chars.len();
    let mut start: usize = 0;
    while start < n && is_whitespace(chars[start])
        invariant
            chars@ == line@,
            n == line@.len(),
            start <= n,
            forall|k: int| 0 <= k < start ==> white_space(#[trigger] line@[k]),
        decreases n - start,
    {
        start = start + 1;
    }
    let mut end: usize = n;
    while end > start && is_whitespace(chars[end - 1])
        invariant
            chars@ == line@,
            n == line@.len(),
            start <= end <= n,
            forall|k: int| end <= k < n ==> white_space(#[trigger] line@[k]),
        decreases end,
    {
        end = end - 1;
    }
    proof {
        lemma_lead(line@, 0, start as int);
        if start < end {
            lemma_trail(line@, end as int, n as int);
        } else {
            lemma_trail(line@, 0, n as int);
        }
    }
    line.substring_char(start, end)
}

/// The end of a word that starts at `from` ends where the word does.
proof fn lemma_word_tail_end(line: Seq<char>, from: int, end: int, to: int)
    requires
        is_word_tail(line, from, end),
        is_word_tail(line, from, to),
    ensures
        to == end,
{
    if to < end {
        assert(!is_gap(line[to]));
    } else if end < to {
        assert(!is_gap(line[end]));
    }
}

/// Whether `line` can be filled at `width` columns behind the margin.
pub fn is_fillable(line: &str, width: usize) -> (r: bool)
    ensures
        r == fillable(line@, width, INDENT@),
{
    let margin = display_width(INDENT);
    if margin > width || width > MAX_WIDTH {
        return false;
    }
    let room: usize = width - margin;
    let chars = chars_of(line);
    let n = chars.len();
    let mut i: usize = n;
    let mut end: usize = n;
    let mut sum: usize = 0;
    let mut over: bool = false;
    assert(line@.subrange(n as int, n as int) =~= Seq::<char>::empty());
    while i > 0
        invariant
            chars@ == line@,
            n == line@.len(),
            i <= end <= n,
            room == width - str_columns(INDENT@),
            room <= MAX_WIDTH,
            end == n || is_gap(line@[end as int]),
            no_gap(line@, i as int, end as int),
            over ==> char_sum(line@.subrange(i as int, end as int)) > room,
            !over ==> sum == char_sum(line@.subrange(i as int, end as int)) && sum <= room,
            forall|from: int, to: int| #[trigger]
                is_word_tail(line@, from, to) && i <= from ==> breaks(
                    line@.subrange(from, to),
                    room as int,
                ),
        decreases i,
    {
        let c = chars[i - 1];
        if is_whitespace(c) && c != '\u{a0}' {
            proof {
                assert forall|from: int, to: int| #[trigger]
                    is_word_tail(line@, from, to) && i - 1 <= from implies breaks(
                    line@.subrange(from, to),
                    room as int,
                ) by {
                    if from == i - 1 {
                        assert(!is_gap(line@[from]));
                    }
                }
                assert(line@.subrange(i - 1, i - 1) =~= Seq::<char>::empty());
            }
            end = i - 1;
            sum = 0;
            over = false;
        } else {
            let ghost piece = line@.subrange(i - 1, end as int);
            let w = match char_width(c) {
                Some(w) => w,
                None => 0,
            };
            proof {
                assert(piece.first() == c);
                assert(piece.drop_first() =~= line@.subrange(i as int, end as int));
                assert(is_word_tail(line@, i - 1, end as int));
            }
            if w > room {
                return false;
            }
            if !over {
                if w > room - sum {
                    over = true;
                } else {
                    sum = sum + w;
                }
            }
            if !over {
                let wide = display_width(line.substring_char(i - 1, end));
                if wide > room {
                    return false;
                }
            }
            proof {
                assert(breaks(piece, room as int));
                assert forall|from: int, to: int| #[trigger]
                    is_word_tail(line@, from, to) && i - 1 <= from implies breaks(
                    line@.subrange(from, to),
                    room as int,
                ) by {
                    if from == i - 1 {
                        lemma_word_tail_end(line@, from, end as int, to);
                    }
                }
            }
        }
        i = i - 1;
    }
    true
}

/// Nothing but what fits stands between the start of a piece and its cut.
proof fn lemma_fit_end(line: Seq<char>, from: int, room: int, end: int, left: int)
    requires
        0 <= from <= end <= line.len(),
        fit_end(line, end, left) == fit_end(line, from, room),
        end < line.len() ==> columns(line[end]) > left,
    ensures
        fit_end(line, from, room) == end,
{
}

/// `line` cut by force for lines with `room` columns behind the margin.
pub fn force_split(line: &str, room: usize) -> (r: String)
    ensures
        r@ == forced(line@, room as int),
{
    let chars = chars_of(line);
    let n = chars.len();
    let mut rows: Vec<String> = Vec::new();
    let mut from: usize = 0;
    assert(texts(rows@) + rows_from(line@, 0, room as int) =~= rows_from(line@, 0, room as int));
    while from < n
        invariant
            chars@ == line@,
            n == line@.len(),
            from <= n,
            texts(rows@) + rows_from(line@, from as int, room as int) == rows_from(
                line@,
                0,
                room as int,
            ),
        decreases n - from,
    {
        let mut end: usize = from;
        let mut left: usize = room;
        let mut open: bool = true;
        while open && end < n
            invariant
                chars@ == line@,
                n == line@.len(),
                from <= end <= n,
                fit_end(line@, end as int, left as int) == fit_end(line@, from as int, room as int),
                !open ==> end < n && columns(line@[end as int]) > left,
            decreases (if open { 1int } else { 0int }), n - end,
        {
            let w = match char_width(chars[end]) {
                Some(w) => w,
                None => 0,
            };
            if w > left {
                open = false;
            } else {
                left = left - w;
                end = end + 1;
            }
        }
        proof {
            lemma_fit_end(line@, from as int, room as int, end as int, left as int);
        }
        let cut = if end > from {
            end
        } else {
            from + 1
        };
        assert(cut == cut_end(line@, from as int, room as int));
        let row = INDENT.to_owned().concat(line.substring_char(from, cut));
        let ghost before = texts(rows@);
        rows.push(row);
        proof {
            assert(texts(rows@) =~= before + seq![INDENT@ + line@.subrange(from as int, cut as int)]);
            assert(before + rows_from(line@, from as int, room as int) =~= texts(rows@)
                + rows_from(line@, cut as int, room as int));
        }
        from = cut;
    }
    assert(texts(rows@) + rows_from(line@, from as int, room as int) =~= texts(rows@));
    join(&rows, "\n")
}

/// One line of speech at `width` columns.
pub fn utter_line(line: &str, width: usize) -> (r: String)
    ensures
        r@ == uttered(line@, width),
{
    let bare = trim(line);
    if is_fillable(bare, width) {
        fill(bare, width, INDENT, false, true)
    } else if bare.unicode_len() == 0 {
        let r = String::new();
        assert(r@ =~= Seq::<char>::empty());
        r
    } else {
        let margin = display_width(INDENT);
        if margin < width {
            force_split(bare, width - margin)
        } else {
            INDENT.to_owned().concat(bare)
        }
    }
}

/// The frog uttering `speech`, which is taken as it is.
pub fn frame(speech: &str) -> (r: String)
    ensures
        r@ == framed(speech@),
{
    "\n".to_owned().concat(speech).concat("\n").concat(INDENT).concat(FROG)
}

/// The frog uttering `text` on a terminal of `width` columns. Each line of the
/// text is wrapped by itself, behind the margin, without the white space
/// around it.
///
/// Lines are wrapped at their words for widths from the margin's up to
/// `MAX_WIDTH`. A line that cannot be wrapped so, because the width is beyond
/// `MAX_WIDTH` or because a word of it could not be broken safely, is cut by
/// the widths of its characters alone, wherever a line is full. At a width
/// that leaves no column beside the margin nothing is wrapped: every line
/// stands behind the margin as it is.
pub fn say_with_width(text: &str, width: usize) -> (r: String)
    ensures
        r@ == spoken(text@, width),
{
    let lines = split_lines(text);
    let mut speech: Vec<String> = Vec::new();
    let mut i: usize = 0;
    assert(texts(speech@) =~= uttered_lines(lines_of(text@), width).take(0));
    while i < lines.len()
        invariant
            i <= lines@.len(),
            texts(lines@) == lines_of(text@),
            texts(speech@) == uttered_lines(lines_of(text@), width).take(i as int),
        decreases lines@.len() - i,
    {
        assert(lines@[i as int]@ == texts(lines@)[i as int]);
        let line = utter_line(lines[i].as_str(), width);
        let ghost before = texts(speech@);
        speech.push(line);
        assert(texts(speech@) =~= before.push(line@));
        assert(uttered_lines(lines_of(text@), width).take(i + 1) =~= uttered_lines(
            lines_of(text@),
            width,
        ).take(i as int).push(line@));
        i = i + 1;
    }
    assert(uttered_lines(lines_of(text@), width).take(i as int) =~= uttered_lines(
        lines_of(text@),
        width,
    ));
    frame(join(&speech, "\n").as_str())
}

/// The frog uttering `text`, wrapped to the width of the terminal as
/// `say_with_width` wraps it: at its words where that can be done, by its
/// characters where not, and not at all on a terminal that is no wider than
/// the margin. Lines of the text are kept apart, so that a text of several
/// paragraphs is one line feed away.
pub fn say(text: &str) -> (r: String)
    ensures
        exists|width: usize| r@ == spoken(text@, width),
{
    let width = terminal_width();
    say_with_width(text, width)
}

} // verus!
