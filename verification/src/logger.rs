//! The diagnostic event log: typed events from the pipeline's stages and
//! the exact rendering of the tabular log, one column per event source
//! and one row per event.
//!
//! The log file itself is owned by an independent logger task; this
//! module holds the event types it consumes and the verified rendering
//! of every piece of the table, so the writer only concatenates.

use vstd::prelude::*;
use vstd::string::StringExecFns;

verus! {

/// The pipeline stages that emit diagnostic events; one table column
/// each.
#[derive(Debug, Clone, Copy, PartialEq, Eq, Structural)]
pub enum LogSources {
    Sink,
    Filter,
    Encoder,
}

impl LogSources {
    /// Every source, in column order.
    pub fn all() -> (v: Vec<LogSources>)
        ensures
            v@ == seq![LogSources::Sink, LogSources::Filter, LogSources::Encoder],
    {
        let mut v: Vec<LogSources> = Vec::new();
        v.push(LogSources::Sink);
        v.push(LogSources::Filter);
        v.push(LogSources::Encoder);
        proof {
            assert(v@ =~= seq![LogSources::Sink, LogSources::Filter, LogSources::Encoder]);
        }
        v
    }

    pub open spec fn spec_label(self) -> Seq<char> {
        match self {
            LogSources::Sink => "Sink"@,
            LogSources::Filter => "Filter"@,
            LogSources::Encoder => "Encoder"@,
        }
    }

    /// The column heading of this source.
    pub fn label(&self) -> (r: &'static str)
        ensures
            r@ == self.spec_label(),
    {
        match self {
            LogSources::Sink => "Sink",
            LogSources::Filter => "Filter",
            LogSources::Encoder => "Encoder",
        }
    }

    /// The column this source's events are written in.
    pub open spec fn spec_column(self) -> int {
        match self {
            LogSources::Sink => 0,
            LogSources::Filter => 1,
            LogSources::Encoder => 2,
        }
    }

    /// The column this source's events are written in.
    pub fn column(&self) -> (i: usize)
        ensures
            i == self.spec_column(),
            i < 3,
    {
        match self {
            LogSources::Sink => 0,
            LogSources::Filter => 1,
            LogSources::Encoder => 2,
        }
    }
}

/// One logged event: where it came from and what it says.
pub struct Event<T> {
    pub source: T,
    pub description: String,
}

/// What flows to the logger task: events, then the terminal marker that
/// closes the table and lets the task finish.
pub enum LogMessage<T> {
    Event(Event<T>),
    Eof,
}

/// Everything written before the first heading cell.
pub fn html_prologue() -> (r: &'static str)
    ensures
        r@ == "<!DOCTYPE html>\n<html>\n<body>\n<table border=\"1\">\n<tr>"@,
{
    "<!DOCTYPE html>\n<html>\n<body>\n<table border=\"1\">\n<tr>"
}

/// Everything written after the last row; only with it is the table
/// well formed.
pub fn html_epilogue() -> (r: &'static str)
    ensures
        r@ == "</table></body></html>"@,
{
    "</table></body></html>"
}

/// Closes the heading row.
pub fn header_row_end() -> (r: &'static str)
    ensures
        r@ == "</tr>\n"@,
{
    "</tr>\n"
}

/// One heading cell.
pub open spec fn spec_header_cell(label: Seq<char>) -> Seq<char> {
    "<th>"@ + label + "</th>\n"@
}

/// Renders one heading cell.
pub fn header_cell(label: &str) -> (s: String)
    ensures
        s@ == spec_header_cell(label@),
{
    let mut s: String = String::from_str("<th>");
    s.append(label);
    s.append("</th>\n");
    s
}

/// `k` empty cells.
pub open spec fn spec_empty_cells(k: int) -> Seq<char>
    decreases k,
{
    if k <= 0 {
        Seq::empty()
    } else {
        spec_empty_cells(k - 1) + "<td></td>"@
    }
}

/// One event row of a table with `columns` columns: empty cells up to
/// the event's column, the description there, and empty cells after.
pub open spec fn spec_event_row(columns: int, column: int, description: Seq<char>) -> Seq<char> {
    "<tr>\n"@ + spec_empty_cells(column) + "<td>"@ + description + "</td>"@ + spec_empty_cells(
        columns - column - 1,
    ) + "</tr>\n"@
}

fn append_empty_cells(s: &mut String, k: usize)
    ensures
        final(s)@ == old(s)@ + spec_empty_cells(k as int),
    decreases k,
{
    if k == 0 {
        proof {
            assert(old(s)@ + spec_empty_cells(0) =~= old(s)@);
        }
    } else {
        append_empty_cells(s, k - 1);
        s.append("<td></td>");
        proof {
            assert(old(s)@ + spec_empty_cells(k as int - 1) + "<td></td>"@ =~= old(s)@
                + spec_empty_cells(k as int));
        }
    }
}

/// Renders one event row.
pub fn event_row(columns: usize, column: usize, description: &str) -> (s: String)
    requires
        column < columns,
    ensures
        s@ == spec_event_row(columns as int, column as int, description@),
{
    let mut s: String = String::from_str("<tr>\n");
    append_empty_cells(&mut s, column);
    s.append("<td>");
    s.append(description);
    s.append("</td>");
    append_empty_cells(&mut s, columns - column - 1);
    s.append("</tr>\n");
    s
}

} // verus!
