use vstd::prelude::*;
use vstd::utf8::encode_utf8;

use crate::text::{join_strings, join_with, push_char, string_views};

verus! {

/// The hook commands configured under one config key.
#[derive(Debug, Clone, PartialEq, Eq)]
pub struct HookCommandConfigEntry {
    pub config_key: String,
    pub event_type: String,
    pub commands: Vec<Vec<String>>,
}

/// One table row: event, config key, command line.
pub type TableRow = (Seq<char>, Seq<char>, Seq<char>);

pub open spec fn command_rows(event: Seq<char>, key: Seq<char>, commands: Seq<Vec<String>>) -> Seq<
    TableRow,
>
    decreases commands.len(),
{
    if commands.len() == 0 {
        Seq::empty()
    } else {
        command_rows(event, key, commands.drop_last()).push(
            (event, key, join_with(string_views(commands.last()@), " "@)),
        )
    }
}

/// A row per command, entries in order and each entry's commands in order.
pub open spec fn table_rows(entries: Seq<HookCommandConfigEntry>) -> Seq<TableRow>
    decreases entries.len(),
{
    if entries.len() == 0 {
        Seq::empty()
    } else {
        let e = entries.last();
        table_rows(entries.drop_last()) + command_rows(e.event_type@, e.config_key@, e.commands@)
    }
}

pub open spec fn byte_len(s: Seq<char>) -> nat {
    encode_utf8(s).len()
}

pub open spec fn cell(row: TableRow, col: int) -> Seq<char> {
    if col == 0 {
        row.0
    } else if col == 1 {
        row.1
    } else {
        row.2
    }
}

pub open spec fn header_cell(col: int) -> Seq<char> {
    if col == 0 {
        "Event"@
    } else if col == 1 {
        "Config Key"@
    } else {
        "Command"@
    }
}

/// A column's width: the byte length of its longest cell, header included.
pub open spec fn column_width(rows: Seq<TableRow>, col: int) -> nat
    decreases rows.len(),
{
    if rows.len() == 0 {
        byte_len(header_cell(col))
    } else {
        let w = column_width(rows.drop_last(), col);
        let c = byte_len(cell(rows.last(), col));
        if c > w {
            c
        } else {
            w
        }
    }
}

pub open spec fn spaces(n: nat) -> Seq<char> {
    Seq::new(n, |i: int| ' ')
}

/// `s` filled with spaces on the right up to `width` characters.
pub open spec fn pad(s: Seq<char>, width: nat) -> Seq<char> {
    if s.len() < width {
        s + spaces((width - s.len()) as nat)
    } else {
        s
    }
}

pub open spec fn table_line(cells: TableRow, rows: Seq<TableRow>) -> Seq<char> {
    pad(cells.0, column_width(rows, 0)) + "  "@ + pad(cells.1, column_width(rows, 1)) + "  "@
        + pad(cells.2, column_width(rows, 2))
}

pub open spec fn no_hooks_message() -> Seq<char> {
    "No hooks configured. Add `notify`/`notify_on_*` entries in config.toml."@
}

/// The printed table: a note when nothing is configured, else the header
/// line and one line per command, each column padded to its width.
pub open spec fn spec_table_lines(entries: Seq<HookCommandConfigEntry>) -> Seq<Seq<char>> {
    if entries.len() == 0 {
        seq![no_hooks_message()]
    } else {
        let rows = table_rows(entries);
        seq![table_line(("Event"@, "Config Key"@, "Command"@), rows)] + rows.map_values(
            |r: TableRow| table_line(r, rows),
        )
    }
}

pub struct Row {
    pub event: String,
    pub key: String,
    pub command: String,
}

pub open spec fn row_view(r: Row) -> TableRow {
    (r.event@, r.key@, r.command@)
}

pub open spec fn rows_view(rows: Seq<Row>) -> Seq<TableRow> {
    rows.map_values(|r: Row| row_view(r))
}

fn collect_rows(entries: &Vec<HookCommandConfigEntry>) -> (r: Vec<Row>)
    ensures
        rows_view(r@) == table_rows(entries@),
{
    let mut rows: Vec<Row> = Vec::new();
    let mut i: usize = 0;
    while i < entries.len()
        invariant
            0 <= i <= entries@.len(),
            rows_view(rows@) == table_rows(entries@.take(i as int)),
        decreases entries@.len() - i,
    {
        let entry = &entries[i];
        let ghost before = rows_view(rows@);
        let mut j: usize = 0;
        while j < entry.commands.len()
            invariant
                0 <= j <= entry.commands@.len(),
                entry == &entries@[i as int],
                rows_view(rows@) == before + command_rows(
                    entry.event_type@,
                    entry.config_key@,
                    entry.commands@.take(j as int),
                ),
            decreases entry.commands@.len() - j,
        {
            let ghost prev = rows@;
            let command = join_strings(&entry.commands[j], " ");
            rows.push(Row { event: entry.event_type.clone(), key: entry.config_key.clone(), command });
            assert(entry.commands@.take(j + 1).drop_last() =~= entry.commands@.take(j as int));
            assert(rows_view(rows@) =~= rows_view(prev).push(row_view(rows@.last())));
            assert(rows_view(rows@) =~= before + command_rows(
                entry.event_type@,
                entry.config_key@,
                entry.commands@.take(j + 1),
            ));
            j = j + 1;
        }
        assert(entry.commands@.take(entry.commands@.len() as int) =~= entry.commands@);
        assert(entries@.take(i + 1).drop_last() =~= entries@.take(i as int));
        i = i + 1;
    }
    assert(entries@.take(entries@.len() as int) =~= entries@);
    rows
}

fn cell_of(row: &Row, col: usize) -> (r: &String)
    requires
        col < 3,
    ensures
        r@ == cell(row_view(*row), col as int),
{
    if col == 0 {
        &row.event
    } else if col == 1 {
        &row.key
    } else {
        &row.command
    }
}

fn width_of(rows: &Vec<Row>, col: usize, header: &str) -> (r: usize)
    requires
        col < 3,
        header@ == header_cell(col as int),
    ensures
        r == column_width(rows_view(rows@), col as int),
{
    let mut w: usize = header.as_bytes().len();
    let mut i: usize = 0;
    while i < rows.len()
        invariant
            0 <= i <= rows@.len(),
            col < 3,
            w == column_width(rows_view(rows@.take(i as int)), col as int),
        decreases rows@.len() - i,
    {
        let c = cell_of(&rows[i], col).as_str().as_bytes().len();
        assert(rows_view(rows@.take(i + 1)).drop_last() =~= rows_view(rows@.take(i as int)));
        if c > w {
            w = c;
        }
        i = i + 1;
    }
    assert(rows@.take(rows@.len() as int) =~= rows@);
    w
}

fn push_padded(out: &mut String, s: &str, width: usize)
    ensures
        final(out)@ == old(out)@ + pad(s@, width as nat),
{
    out.append(s);
    let n = s.unicode_len();
    let mut k: usize = n;
    while k < width
        invariant
            n == s@.len(),
            n <= k <= width || (k == n && n >= width),
            out@ == old(out)@ + s@ + spaces((k - n) as nat),
        decreases width - k,
    {
        push_char(out, ' ');
        assert(spaces((k + 1 - n) as nat) =~= spaces((k - n) as nat).push(' '));
        k = k + 1;
    }
    assert(out@ =~= old(out)@ + pad(s@, width as nat));
}

fn line_for(event: &str, key: &str, command: &str, w0: usize, w1: usize, w2: usize) -> (r: String)
    ensures
        r@ == pad(event@, w0 as nat) + "  "@ + pad(key@, w1 as nat) + "  "@ + pad(
            command@,
            w2 as nat,
        ),
{
    let mut line = String::new();
    push_padded(&mut line, event, w0);
    line.append("  ");
    push_padded(&mut line, key, w1);
    line.append("  ");
    push_padded(&mut line, command, w2);
    line
}

/// The lines that list the configured hook commands.
pub fn hooks_table_lines(entries: &Vec<HookCommandConfigEntry>) -> (r: Vec<String>)
    ensures
        string_views(r@) == spec_table_lines(entries@),
{
    let mut lines: Vec<String> = Vec::new();
    if entries.len() == 0 {
        lines.push(
            String::from_str(
                "No hooks configured. Add `notify`/`notify_on_*` entries in config.toml.",
            ),
        );
        assert(string_views(lines@) =~= spec_table_lines(entries@));
        return lines;
    }
    let rows = collect_rows(entries);
    let ghost rv = rows_view(rows@);
    let w0 = width_of(&rows, 0, "Event");
    let w1 = width_of(&rows, 1, "Config Key");
    let w2 = width_of(&rows, 2, "Command");
    lines.push(line_for("Event", "Config Key", "Command", w0, w1, w2));
    let mut i: usize = 0;
    while i < rows.len()
        invariant
            0 <= i <= rows@.len(),
            rv == rows_view(rows@),
            rv == table_rows(entries@),
            w0 == column_width(rv, 0),
            w1 == column_width(rv, 1),
            w2 == column_width(rv, 2),
            lines@.len() == i + 1,
            string_views(lines@)[0] == table_line(("Event"@, "Config Key"@, "Command"@), rv),
            forall|j: int|
                0 <= j < i ==> (#[trigger] lines@[j + 1])@ == table_line(rv[j], rv),
        decreases rows@.len() - i,
    {
        let row = &rows[i];
        lines.push(line_for(row.event.as_str(), row.key.as_str(), row.command.as_str(), w0, w1, w2));
        i = i + 1;
    }
    assert(string_views(lines@) =~= spec_table_lines(entries@)) by {
        assert forall|j: int| 0 <= j < rv.len() implies string_views(lines@)[j + 1] == table_line(
            rv[j],
            rv,
        ) by {
            assert(lines@[j + 1]@ == table_line(rv[j], rv));
        }
    }
    lines
}

} // verus!
