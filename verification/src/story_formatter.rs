//! The text that tells what happened while a playbook was applied: nested
//! sections, check lists and notes, wrapped to the width of the terminal.
//!
//! Nothing is printed here. The text is gathered in the formatter and
//! handed out to whoever prints it.

use terminal_size::{terminal_size, Width};
use vstd::prelude::*;
use vstd::string::{StrSliceExecFns, StringExecFns};

verus! {

/// How a result is named: `ok` or `FAIL`.
pub open spec fn ok_fail(flag: bool) -> Seq<char> {
    if flag {
        "ok"@
    } else {
        "FAIL"@
    }
}

/// How an answer is named: `Y` or `N`.
pub open spec fn y_n(flag: bool) -> Seq<char> {
    if flag {
        "Y"@
    } else {
        "N"@
    }
}

/// How a result is named: `ok` or `FAIL`.
pub fn name_ok_fail(flag: bool) -> (s: &'static str)
    ensures
        s@ == ok_fail(flag),
{
    if flag {
        "ok"
    } else {
        "FAIL"
    }
}

/// How an answer is named: `Y` or `N`.
pub fn name_y_n(flag: bool) -> (s: &'static str)
    ensures
        s@ == y_n(flag),
{
    if flag {
        "Y"
    } else {
        "N"
    }
}

/// The digit `d` as a character.
pub open spec fn digit(d: nat) -> char {
    seq!['0', '1', '2', '3', '4', '5', '6', '7', '8', '9'][d as int]
}

/// The number `n` written in decimal digits, without leading zeros.
pub open spec fn decimal(n: nat) -> Seq<char>
    decreases n,
{
    if n < 10 {
        seq![digit(n)]
    } else {
        decimal(n / 10).push(digit(n % 10))
    }
}

/// A digit as text.
fn digit_text(d: usize) -> (s: &'static str)
    requires
        d < 10,
    ensures
        s@ == seq![digit(d as nat)],
{
    proof {
        reveal_strlit("0");
        reveal_strlit("1");
        reveal_strlit("2");
        reveal_strlit("3");
        reveal_strlit("4");
        reveal_strlit("5");
        reveal_strlit("6");
        reveal_strlit("7");
        reveal_strlit("8");
        reveal_strlit("9");
    }
    let s = match d {
        0 => "0",
        1 => "1",
        2 => "2",
        3 => "3",
        4 => "4",
        5 => "5",
        6 => "6",
        7 => "7",
        8 => "8",
        _ => "9",
    };
    assert(s@ =~= seq![digit(d as nat)]);
    s
}

/// Writes a number in decimal digits, without sign or leading zeros.
pub fn decimal_text(n: usize) -> (s: String)
    ensures
        s@ == decimal(n as nat),
    decreases n,
{
    if n < 10 {
        digit_text(n).to_owned()
    } else {
        let s = decimal_text(n / 10).concat(digit_text(n % 10));
        assert(s@ =~= decimal((n / 10) as nat).push(digit((n % 10) as nat)));
        s
    }
}

/// Calls `terminal_size` of the crate of that name and hands out the
/// number of columns, where one of the standard streams is a terminal.
/// Nothing is known of the number: it is the host's.
#[verifier::external_body]
fn terminal_columns() -> (columns: Option<u16>) {
    terminal_size().map(|(Width(w), _)| w)
}

/// The width that the text is wrapped to: that of the terminal, but not
/// less than 20 columns; 80 columns without a terminal.
pub open spec fn spec_line_width(columns: Option<u16>) -> int {
    match columns {
        Some(w) => if w < 20 {
            20
        } else {
            w as int
        },
        None => 80,
    }
}

/// The width that the text is wrapped to, given the columns of the
/// terminal, where there is one.
pub fn line_width(columns: Option<u16>) -> (width: usize)
    ensures
        width == spec_line_width(columns),
        width >= 20,
{
    match columns {
        Some(w) => if w < 20 {
            20
        } else {
            w as usize
        },
        None => 80,
    }
}

/// `n` blanks.
pub open spec fn blanks(n: int) -> Seq<char> {
    Seq::new(n as nat, |i: int| ' ')
}

/// `s` filled up with blanks on the right to `width` characters; `s`
/// itself where it is that long already.
pub open spec fn padded(s: Seq<char>, width: int) -> Seq<char> {
    if s.len() >= width {
        s
    } else {
        s + blanks(width - s.len())
    }
}

/// Fills `s` up with blanks on the right to `width` characters.
pub fn pad_to(s: &str, width: usize) -> (out: String)
    ensures
        out@ == padded(s@, width as int),
{
    let mut out = s.to_owned();
    let mut n: usize = s.unicode_len();
    if n >= width {
        return out;
    }
    let start: usize = n;
    while n < width
        invariant
            start == s@.len(),
            start <= n <= width,
            out@ == s@ + blanks(n - start),
        decreases width - n,
    {
        proof {
            reveal_strlit(" ");
        }
        out.append(" ");
        n = n + 1;
        assert(out@ =~= s@ + blanks(n - start));
    }
    out
}

/// The smaller of two numbers.
pub open spec fn least(a: int, b: int) -> int {
    if a <= b {
        a
    } else {
        b
    }
}

/// The lines of a wrapped text behind the first: each begins with `lead`
/// and takes up to `step` further characters of `text`, from `cursor` on.
pub open spec fn rest_lines(lead: Seq<char>, text: Seq<char>, step: int, cursor: int) -> Seq<
    Seq<char>,
>
    decreases
            (if cursor < text.len() {
                text.len() - cursor
            } else {
                0
            }),
{
    if step <= 0 || cursor < 0 || cursor >= text.len() {
        Seq::empty()
    } else {
        seq![lead + text.subrange(cursor, least(cursor + step, text.len() as int))] + rest_lines(
            lead,
            text,
            step,
            cursor + step,
        )
    }
}

/// The width of the left margin: that of the wider of `prefix` and
/// `border`.
pub open spec fn margin(prefix: Seq<char>, border: Seq<char>) -> int {
    if prefix.len() >= border.len() {
        prefix.len() as int
    } else {
        border.len() as int
    }
}

/// `text` wrapped to `columns` columns. The first line begins with
/// `prefix`, every other line with `border`, both filled up to the width of
/// the wider one. There is always a first line, also for an empty text.
pub open spec fn wrapped(prefix: Seq<char>, border: Seq<char>, text: Seq<char>, columns: int) -> Seq<
    Seq<char>,
> {
    let width = margin(prefix, border);
    let step = columns - width;
    seq![padded(prefix, width) + text.subrange(0, least(step, text.len() as int))] + rest_lines(
        padded(border, width),
        text,
        step,
        step,
    )
}

/// The lines held as strings, read as sequences of characters.
pub open spec fn lines_view(lines: Seq<String>) -> Seq<Seq<char>> {
    Seq::new(lines.len(), |i: int| lines[i]@)
}

/// Wraps `text` to `columns` columns behind a left margin.
pub fn wrap_lines(prefix: &str, border: &str, text: &str, columns: usize) -> (lines: Vec<String>)
    requires
        margin(prefix@, border@) < columns,
    ensures
        lines_view(lines@) == wrapped(prefix@, border@, text@, columns as int),
        lines@.len() >= 1,
{
    let prefix_len: usize = prefix.unicode_len();
    let border_len: usize = border.unicode_len();
    let width: usize = if prefix_len >= border_len {
        prefix_len
    } else {
        border_len
    };
    let step: usize = columns - width;
    let size: usize = text.unicode_len();
    let lead = pad_to(border, width);
    let first_end: usize = if size <= step {
        size
    } else {
        step
    };
    let mut lines: Vec<String> = Vec::new();
    lines.push(pad_to(prefix, width).concat(text.substring_char(0, first_end)));
    let ghost first = lines_view(lines@);
    assert(first =~= seq![
        padded(prefix@, width as int) + text@.subrange(0, least(step as int, size as int)),
    ]);
    if size <= step {
        assert(lines_view(lines@) =~= wrapped(prefix@, border@, text@, columns as int));
        return lines;
    }
    let mut cursor: usize = step;
    while cursor < size
        invariant
            0 < step <= cursor <= size,
            size == text@.len(),
            lead@ == padded(border@, width as int),
            lines@.len() >= 1,
            lines_view(lines@) + rest_lines(lead@, text@, step as int, cursor as int) == first
                + rest_lines(lead@, text@, step as int, step as int),
        decreases size - cursor,
    {
        let end: usize = if size - cursor <= step {
            size
        } else {
            cursor + step
        };
        let ghost before = lines_view(lines@);
        let line = lead.clone().concat(text.substring_char(cursor, end));
        lines.push(line);
        proof {
            let piece = lead@ + text@.subrange(cursor as int, least(cursor + step, size as int));
            assert(lines_view(lines@) =~= before + seq![piece]);
            assert(rest_lines(lead@, text@, step as int, cursor as int) =~= seq![piece]
                + rest_lines(lead@, text@, step as int, cursor + step));
            if end == size {
                assert(rest_lines(lead@, text@, step as int, cursor + step) =~= Seq::<
                    Seq<char>,
                >::empty());
                assert(rest_lines(lead@, text@, step as int, size as int) =~= Seq::<
                    Seq<char>,
                >::empty());
            }
            assert(before + (seq![piece] + rest_lines(lead@, text@, step as int, cursor + step))
                =~= (before + seq![piece]) + rest_lines(lead@, text@, step as int, cursor + step));
        }
        cursor = end;
    }
    assert(rest_lines(lead@, text@, step as int, cursor as int) =~= Seq::<Seq<char>>::empty());
    assert(lines_view(lines@) =~= lines_view(lines@) + Seq::<Seq<char>>::empty());
    lines
}

/// The lines one after the other, with a line break between each two and
/// none at the end.
pub open spec fn joined_lines(lines: Seq<Seq<char>>) -> Seq<char>
    decreases lines.len(),
{
    if lines.len() == 0 {
        Seq::empty()
    } else if lines.len() == 1 {
        lines[0]
    } else {
        joined_lines(lines.drop_last()) + seq!['\n'] + lines.last()
    }
}

/// Puts the lines one after the other, with a line break between each
/// two.
pub fn join_lines(lines: &Vec<String>) -> (text: String)
    ensures
        text@ == joined_lines(lines_view(lines@)),
{
    let mut text = String::new();
    if lines.len() == 0 {
        return text;
    }
    text.append(lines[0].as_str());
    assert(lines_view(lines@).subrange(0, 1) =~= seq![lines@[0]@]);
    assert(text@ =~= lines@[0]@);
    let mut i: usize = 1;
    while i < lines.len()
        invariant
            1 <= i <= lines@.len(),
            text@ == joined_lines(lines_view(lines@).subrange(0, i as int)),
        decreases lines@.len() - i,
    {
        proof {
            reveal_strlit("\n");
        }
        let ghost before = text@;
        text.append("\n");
        text.append(lines[i].as_str());
        proof {
            let upto = lines_view(lines@).subrange(0, i + 1);
            assert(upto.drop_last() =~= lines_view(lines@).subrange(0, i as int));
            assert(upto.last() == lines@[i as int]@);
            assert(text@ =~= before + seq!['\n'] + lines@[i as int]@);
        }
        i = i + 1;
    }
    assert(lines_view(lines@).subrange(0, lines@.len() as int) =~= lines_view(lines@));
    text
}

/// `text` wrapped to `columns` columns, as one text with line breaks
/// between the lines.
pub open spec fn wrapped_text(
    prefix: Seq<char>,
    border: Seq<char>,
    text: Seq<char>,
    columns: int,
) -> Seq<char> {
    joined_lines(wrapped(prefix, border, text, columns))
}

/// The name of a section as it appears in a path of sections: in square
/// brackets where it holds a dot itself.
pub open spec fn bracketed(name: Seq<char>) -> Seq<char> {
    if name.contains('.') {
        seq!['['] + name + seq![']']
    } else {
        name
    }
}

/// The path of nested sections: their names, from the outermost on, with
/// a dot between each two.
pub open spec fn section_path(names: Seq<Seq<char>>) -> Seq<char>
    decreases names.len(),
{
    if names.len() == 0 {
        Seq::empty()
    } else if names.len() == 1 {
        bracketed(names[0])
    } else {
        section_path(names.drop_last()) + seq!['.'] + bracketed(names.last())
    }
}

/// Whether `name` holds a dot.
pub fn has_dot(name: &str) -> (b: bool)
    ensures
        b == name@.contains('.'),
{
    let size: usize = name.unicode_len();
    let mut i: usize = 0;
    while i < size
        invariant
            i <= size,
            size == name@.len(),
            forall|j: int| 0 <= j < i ==> name@[j] != '.',
        decreases size - i,
    {
        if name.get_char(i) == '.' {
            return true;
        }
        i = i + 1;
    }
    false
}

/// The name of a section as it appears in a path of sections.
pub fn bracket(name: &str) -> (out: String)
    ensures
        out@ == bracketed(name@),
{
    if has_dot(name) {
        proof {
            reveal_strlit("[");
            reveal_strlit("]");
        }
        let out = "[".to_owned().concat(name).concat("]");
        assert(out@ =~= seq!['['] + name@ + seq![']']);
        out
    } else {
        name.to_owned()
    }
}

/// The path of nested sections.
pub fn join_sections(names: &Vec<String>) -> (path: String)
    ensures
        path@ == section_path(lines_view(names@)),
{
    let mut path = String::new();
    if names.len() == 0 {
        return path;
    }
    path.append(bracket(names[0].as_str()).as_str());
    assert(lines_view(names@).subrange(0, 1) =~= seq![names@[0]@]);
    assert(path@ =~= bracketed(names@[0]@));
    let mut i: usize = 1;
    while i < names.len()
        invariant
            1 <= i <= names@.len(),
            path@ == section_path(lines_view(names@).subrange(0, i as int)),
        decreases names@.len() - i,
    {
        proof {
            reveal_strlit(".");
        }
        let ghost before = path@;
        path.append(".");
        path.append(bracket(names[i].as_str()).as_str());
        proof {
            let upto = lines_view(names@).subrange(0, i + 1);
            assert(upto.drop_last() =~= lines_view(names@).subrange(0, i as int));
            assert(upto.last() == names@[i as int]@);
            assert(path@ =~= before + seq!['.'] + bracketed(names@[i as int]@));
        }
        i = i + 1;
    }
    assert(lines_view(names@).subrange(0, names@.len() as int) =~= lines_view(names@));
    path
}

/// `text` begins with `start`.
pub open spec fn begins_with(text: Seq<char>, start: Seq<char>) -> bool {
    &&& start.len() <= text.len()
    &&& forall|i: int| 0 <= i < start.len() ==> #[trigger] text[i] == start[i]
}

/// `text` ends with `end`.
pub open spec fn ends_with(text: Seq<char>, end: Seq<char>) -> bool {
    &&& end.len() <= text.len()
    &&& text.subrange(text.len() - end.len(), text.len() as int) == end
}

/// The line break that parts a section from what stands before it, where
/// one is due.
pub open spec fn separator_text(due: bool) -> Seq<char> {
    if due {
        seq!['\n']
    } else {
        Seq::empty()
    }
}

/// The head of a check list: a corner, the path of the list and an empty
/// border line.
pub open spec fn checklist_title_text(path: Seq<char>, columns: int) -> Seq<char> {
    " _\n"@ + wrapped_text("|"@, "|"@, path, columns) + "\n|\n"@
}

/// The mark in front of an item of a check list.
pub open spec fn item_prefix(ok: bool) -> Seq<char> {
    "|-[ "@ + y_n(ok) + " ] "@
}

/// An item of a check list: its mark, its number and its title.
pub open spec fn checklist_item_text(ok: bool, i: nat, title: Seq<char>, columns: int) -> Seq<
    char,
> {
    wrapped_text(item_prefix(ok), "|"@, decimal(i) + "."@ + title, columns) + "\n"@
}

/// The foot of a check list, with its result.
pub open spec fn checklist_result_text(ok: bool) -> Seq<char> {
    "|\n|> "@ + ok_fail(ok) + "\n"@
}

/// A note inside a check list, between asterisks.
pub open spec fn note_text(note: Seq<char>, columns: int) -> Seq<char> {
    wrapped_text("| "@, "|"@, "*"@ + note + "*"@, columns)
}

/// The line that opens the story of a playbook.
pub open spec fn header_text(header: Seq<char>) -> Seq<char> {
    "Applying playbook: "@ + header + "\n"@
}

/// The lines that close the story of a playbook, with the verdict in
/// capitals.
pub open spec fn result_text(header: Seq<char>, ok: bool) -> Seq<char> {
    "\n"@ + header + "\n\n "@ + (if ok {
        "OK"@
    } else {
        "FAIL"@
    }) + "\n\n"@
}

/// The line that closes a section, with its result.
pub open spec fn section_result_text(path: Seq<char>, ok: bool) -> Seq<char> {
    path + "|> "@ + ok_fail(ok) + "\n"@
}

/// What is said when an action has been run.
pub open spec fn process_end_text(ok: bool) -> Seq<char> {
    if ok {
        "...done!\n"@
    } else {
        "...FAIL!\n"@
    }
}

/// Gathers the story of a playbook: which section is open, and the text
/// so far.
pub struct StoryFormatter {
    section_stack: Vec<String>,
    next_is_separator: bool,
    columns: usize,
    out: String,
}

impl StoryFormatter {
    /// The names of the open sections, from the outermost on.
    pub closed spec fn sections(&self) -> Seq<Seq<char>> {
        lines_view(self.section_stack@)
    }

    /// Whether a line break is due before the next section line.
    pub closed spec fn separator_due(&self) -> bool {
        self.next_is_separator
    }

    /// The width that the text is wrapped to.
    pub closed spec fn columns(&self) -> int {
        self.columns as int
    }

    /// The text gathered so far.
    pub closed spec fn text(&self) -> Seq<char> {
        self.out@
    }

    /// The width leaves room for every margin.
    pub closed spec fn wf(&self) -> bool {
        self.columns >= 20
    }

    /// A formatter without open sections and without text, which wraps to
    /// the width of the terminal as it is now.
    pub fn new() -> (story: Self)
        ensures
            story.wf(),
            story.sections() == Seq::<Seq<char>>::empty(),
            !story.separator_due(),
            story.text() == Seq::<char>::empty(),
    {
        let story = Self {
            section_stack: Vec::new(),
            next_is_separator: false,
            columns: line_width(terminal_columns()),
            out: String::new(),
        };
        assert(story.sections() =~= Seq::<Seq<char>>::empty());
        story
    }

    /// A formatter without open sections and without text, which wraps to
    /// `columns` columns.
    pub fn with_columns(columns: usize) -> (story: Self)
        requires
            columns >= 20,
        ensures
            story.wf(),
            story.columns() == columns,
            story.sections() == Seq::<Seq<char>>::empty(),
            !story.separator_due(),
            story.text() == Seq::<char>::empty(),
    {
        let story = Self {
            section_stack: Vec::new(),
            next_is_separator: false,
            columns,
            out: String::new(),
        };
        assert(story.sections() =~= Seq::<Seq<char>>::empty());
        story
    }

    /// Hands out the text gathered so far and starts anew with none.
    pub fn take_text(&mut self) -> (text: String)
        ensures
            text@ == old(self).text(),
            final(self).text() == Seq::<char>::empty(),
            final(self).sections() == old(self).sections(),
            final(self).separator_due() == old(self).separator_due(),
            final(self).columns() == old(self).columns(),
            final(self).wf() == old(self).wf(),
    {
        let text = self.out.clone();
        self.out = String::new();
        text
    }

    /// Opens a section.
    pub fn push(&mut self, section_name: &str)
        ensures
            final(self).sections() == old(self).sections().push(section_name@),
            final(self).separator_due() == old(self).separator_due(),
            final(self).columns() == old(self).columns(),
            final(self).text() == old(self).text(),
            final(self).wf() == old(self).wf(),
            begins_with(final(self).text(), old(self).text()),
    {
        self.section_stack.push(section_name.to_owned());
        assert(self.sections() =~= old(self).sections().push(section_name@));
    }

    /// Closes the innermost section, where one is open.
    fn pop(&mut self)
        ensures
            final(self).sections() == (if old(self).sections().len() > 0 {
                old(self).sections().drop_last()
            } else {
                old(self).sections()
            }),
            final(self).separator_due() == old(self).separator_due(),
            final(self).columns() == old(self).columns(),
            final(self).text() == old(self).text(),
            final(self).wf() == old(self).wf(),
            begins_with(final(self).text(), old(self).text()),
    {
        let _ = self.section_stack.pop();
        assert(self.sections() =~= (if old(self).sections().len() > 0 {
            old(self).sections().drop_last()
        } else {
            old(self).sections()
        }));
    }

    /// The path of the open sections.
    pub fn section_name(&self) -> (path: String)
        ensures
            path@ == section_path(self.sections()),
    {
        join_sections(&self.section_stack)
    }

    /// Adds `text` wrapped behind a margin.
    fn put_wrapped(&mut self, prefix: &str, border: &str, text: &str)
        requires
            old(self).wf(),
            margin(prefix@, border@) < 20,
        ensures
            final(self).text() == old(self).text() + wrapped_text(
                prefix@,
                border@,
                text@,
                old(self).columns(),
            ),
            final(self).sections() == old(self).sections(),
            final(self).separator_due() == old(self).separator_due(),
            final(self).columns() == old(self).columns(),
            final(self).wf(),
            begins_with(final(self).text(), old(self).text()),
    {
        let lines = wrap_lines(prefix, border, text, self.columns);
        let wrapped = join_lines(&lines);
        self.out.append(wrapped.as_str());
    }

    /// Adds the line break that is due, if one is.
    pub fn put_separator(&mut self)
        ensures
            final(self).text() == old(self).text() + separator_text(old(self).separator_due()),
            !final(self).separator_due(),
            final(self).sections() == old(self).sections(),
            final(self).columns() == old(self).columns(),
            final(self).wf() == old(self).wf(),
            begins_with(final(self).text(), old(self).text()),
    {
        if self.next_is_separator {
            self.next_is_separator = false;
            proof {
                reveal_strlit("\n");
            }
            self.out.append("\n");
            assert(self.out@ =~= old(self).text() + seq!['\n']);
        } else {
            assert(self.out@ =~= old(self).text() + Seq::<char>::empty());
        }
    }

    /// Adds the head of a check list, under the path of the open sections.
    pub fn checklist_title(&mut self)
        requires
            old(self).wf(),
        ensures
            final(self).text() == old(self).text() + checklist_title_text(
                section_path(old(self).sections()),
                old(self).columns(),
            ),
            final(self).sections() == old(self).sections(),
            final(self).separator_due() == old(self).separator_due(),
            final(self).columns() == old(self).columns(),
            final(self).wf(),
            begins_with(final(self).text(), old(self).text()),
    {
        proof {
            reveal_strlit("|");
        }
        let path = self.section_name();
        self.out.append(" _\n");
        self.put_wrapped("|", "|", path.as_str());
        self.out.append("\n|\n");
        assert(self.out@ =~= old(self).text() + checklist_title_text(
            section_path(old(self).sections()),
            old(self).columns(),
        ));
    }

    /// Opens a check list: no line break is due before it, and its head
    /// is added under its title.
    pub fn checklist_begin(&mut self, title: &str)
        requires
            old(self).wf(),
        ensures
            final(self).text() == old(self).text() + checklist_title_text(
                section_path(old(self).sections().push(title@)),
                old(self).columns(),
            ),
            final(self).sections() == old(self).sections().push(title@),
            !final(self).separator_due(),
            final(self).columns() == old(self).columns(),
            final(self).wf(),
            begins_with(final(self).text(), old(self).text()),
    {
        self.next_is_separator = false;
        self.push(title);
        self.checklist_title();
    }

    /// Adds an item of a check list: whether it holds, its number and its
    /// title.
    pub fn checklist_item(&mut self, ok: bool, i: usize, title: &str)
        requires
            old(self).wf(),
        ensures
            final(self).text() == old(self).text() + checklist_item_text(
                ok,
                i as nat,
                title@,
                old(self).columns(),
            ),
            final(self).sections() == old(self).sections(),
            final(self).separator_due() == old(self).separator_due(),
            final(self).columns() == old(self).columns(),
            final(self).wf(),
            begins_with(final(self).text(), old(self).text()),
    {
        proof {
            reveal_strlit("|");
            reveal_strlit("|-[ ");
            reveal_strlit(" ] ");
            reveal_strlit("Y");
            reveal_strlit("N");
        }
        let prefix = "|-[ ".to_owned().concat(name_y_n(ok)).concat(" ] ");
        let numbered = decimal_text(i).concat(".").concat(title);
        self.put_wrapped(prefix.as_str(), "|", numbered.as_str());
        self.out.append("\n");
        assert(self.out@ =~= old(self).text() + checklist_item_text(
            ok,
            i as nat,
            title@,
            old(self).columns(),
        ));
    }

    /// Closes a check list with its result. A line break is due before
    /// the next section line.
    pub fn checklist_result(&mut self, ok: bool)
        ensures
            final(self).text() == old(self).text() + checklist_result_text(ok),
            final(self).sections() == (if old(self).sections().len() > 0 {
                old(self).sections().drop_last()
            } else {
                old(self).sections()
            }),
            final(self).separator_due(),
            final(self).columns() == old(self).columns(),
            final(self).wf() == old(self).wf(),
            begins_with(final(self).text(), old(self).text()),
    {
        self.out.append("|\n|> ");
        self.out.append(name_ok_fail(ok));
        self.out.append("\n");
        assert(self.out@ =~= old(self).text() + checklist_result_text(ok));
        self.pop();
        self.next_is_separator = true;
    }

    /// Adds a note under the head of a check list, and an empty border
    /// line behind it.
    pub fn checklist_title_note(&mut self, note: &str)
        requires
            old(self).wf(),
        ensures
            final(self).text() == old(self).text() + note_text(note@, old(self).columns())
                + "\n|\n"@,
            final(self).sections() == old(self).sections(),
            final(self).separator_due() == old(self).separator_due(),
            final(self).columns() == old(self).columns(),
            final(self).wf(),
            begins_with(final(self).text(), old(self).text()),
    {
        proof {
            reveal_strlit("|");
            reveal_strlit("| ");
        }
        let starred = "*".to_owned().concat(note).concat("*");
        self.put_wrapped("| ", "|", starred.as_str());
        self.out.append("\n|\n");
    }

    /// Adds a note behind the items of a check list, and an empty border
    /// line before it.
    pub fn checklist_note(&mut self, note: &str)
        requires
            old(self).wf(),
        ensures
            final(self).text() == old(self).text() + "|\n"@ + note_text(
                note@,
                old(self).columns(),
            ) + "\n"@,
            final(self).sections() == old(self).sections(),
            final(self).separator_due() == old(self).separator_due(),
            final(self).columns() == old(self).columns(),
            final(self).wf(),
            begins_with(final(self).text(), old(self).text()),
    {
        proof {
            reveal_strlit("|");
            reveal_strlit("| ");
        }
        let starred = "*".to_owned().concat(note).concat("*");
        self.out.append("|\n");
        self.put_wrapped("| ", "|", starred.as_str());
        self.out.append("\n");
    }

    /// Opens the story of a playbook. A line break is due before the next
    /// section line.
    pub fn playbook_header(&mut self, header: &str)
        ensures
            final(self).text() == old(self).text() + header_text(header@),
            final(self).sections() == old(self).sections(),
            final(self).separator_due(),
            final(self).columns() == old(self).columns(),
            final(self).wf() == old(self).wf(),
            begins_with(final(self).text(), old(self).text()),
    {
        self.out.append("Applying playbook: ");
        self.out.append(header);
        self.out.append("\n");
        assert(self.out@ =~= old(self).text() + header_text(header@));
        self.next_is_separator = true;
    }

    /// Closes the story of a playbook with the verdict.
    pub fn playbook_result(&mut self, header: &str, ok: bool)
        ensures
            final(self).text() == old(self).text() + result_text(header@, ok),
            final(self).sections() == old(self).sections(),
            final(self).separator_due() == old(self).separator_due(),
            final(self).columns() == old(self).columns(),
            final(self).wf() == old(self).wf(),
            begins_with(final(self).text(), old(self).text()),
    {
        self.out.append("\n");
        self.out.append(header);
        self.out.append("\n\n ");
        self.out.append(if ok {
            "OK"
        } else {
            "FAIL"
        });
        self.out.append("\n\n");
        assert(self.out@ =~= old(self).text() + result_text(header@, ok));
    }

    /// Closes the innermost section with its result, behind the line
    /// break that is due, if one is.
    pub fn section_result(&mut self, ok: bool)
        ensures
            final(self).text() == old(self).text() + separator_text(old(self).separator_due())
                + section_result_text(section_path(old(self).sections()), ok),
            final(self).sections() == (if old(self).sections().len() > 0 {
                old(self).sections().drop_last()
            } else {
                old(self).sections()
            }),
            !final(self).separator_due(),
            final(self).columns() == old(self).columns(),
            final(self).wf() == old(self).wf(),
            begins_with(final(self).text(), old(self).text()),
    {
        self.put_separator();
        let path = self.section_name();
        self.out.append(path.as_str());
        self.out.append("|> ");
        self.out.append(name_ok_fail(ok));
        self.out.append("\n");
        assert(self.out@ =~= old(self).text() + separator_text(old(self).separator_due())
            + section_result_text(section_path(old(self).sections()), ok));
        self.pop();
    }

    /// Adds the path of the open sections as the beginning of a line that
    /// tells of an action, behind the line break that is due, if one is.
    pub fn section_process(&mut self)
        ensures
            final(self).text() == old(self).text() + separator_text(old(self).separator_due())
                + section_path(old(self).sections()) + "|> "@,
            final(self).sections() == old(self).sections(),
            !final(self).separator_due(),
            final(self).columns() == old(self).columns(),
            final(self).wf() == old(self).wf(),
            begins_with(final(self).text(), old(self).text()),
    {
        self.put_separator();
        let path = self.section_name();
        self.out.append(path.as_str());
        self.out.append("|> ");
    }

    /// Tells that the action of the section `title` is being run.
    pub fn process_begin(&mut self, title: &str)
        ensures
            final(self).text() == old(self).text() + separator_text(old(self).separator_due())
                + section_path(old(self).sections().push(title@)) + "|> ...applying"@,
            final(self).sections() == old(self).sections().push(title@),
            !final(self).separator_due(),
            final(self).columns() == old(self).columns(),
            final(self).wf() == old(self).wf(),
            begins_with(final(self).text(), old(self).text()),
    {
        self.push(title);
        self.section_process();
        self.out.append("...applying");
        assert(self.out@ =~= old(self).text() + separator_text(old(self).separator_due())
            + section_path(old(self).sections().push(title@)) + "|> ...applying"@) by {
            reveal_strlit("|> ");
            reveal_strlit("...applying");
            reveal_strlit("|> ...applying");
        }
    }

    /// Tells how the action went, and closes its section.
    pub fn process_end(&mut self, ok: bool)
        ensures
            final(self).text() == old(self).text() + process_end_text(ok),
            final(self).sections() == (if old(self).sections().len() > 0 {
                old(self).sections().drop_last()
            } else {
                old(self).sections()
            }),
            final(self).separator_due() == old(self).separator_due(),
            final(self).columns() == old(self).columns(),
            final(self).wf() == old(self).wf(),
            begins_with(final(self).text(), old(self).text()),
    {
        self.out.append(if ok {
            "...done!\n"
        } else {
            "...FAIL!\n"
        });
        self.pop();
    }
}

} // verus!
