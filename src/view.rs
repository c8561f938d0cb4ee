//! Requests end to end: decode the input, select rows or a column, and
//! render the result as lines of text.

use vstd::prelude::*;

use crate::commands::CommandType;
use crate::config::Config;
use crate::error::ViewError;
use crate::record::{csv_records, data_of, header_of, RecordSource};
use crate::render::{render_pretty, render_raw, pretty_spec, raw_spec, row_view};
use crate::select::{
    head, head_spec, resolve_column, select_column, select_spec, tail, tail_spec, ColumnLocator,
};

verus! {

/// The lines that rendering `header` and `rows` gives, pretty or raw.
pub open spec fn render_spec(header: Option<Seq<Seq<char>>>, rows: Seq<Seq<Seq<char>>>, pretty: bool) -> Seq<Seq<char>> {
    if pretty {
        pretty_spec(header, rows)
    } else {
        raw_spec(header, rows)
    }
}

/// Renders `header` and `records` as lines, pretty or raw.
pub fn render_table(records: &Vec<Vec<String>>, header: Option<&Vec<String>>, pretty: bool) -> (r: Vec<String>)
    ensures
        r.deep_view() == render_spec(row_view(header), records.deep_view(), pretty),
{
    if pretty {
        render_pretty(records, header)
    } else {
        render_raw(records, header)
    }
}

/// The rows a head or tail request selects from the data rows, or `None`
/// for a request of another kind or without a row count.
pub open spec fn window_spec(rows: Seq<Seq<Seq<char>>>, command: CommandType, num_rows: Option<usize>) -> Option<
    Seq<Seq<Seq<char>>>,
> {
    match (command, num_rows) {
        (CommandType::Head, Some(n)) => Some(head_spec(rows, 0, n as nat)),
        (CommandType::Tail, Some(n)) => Some(tail_spec(rows, n as nat)),
        _ => None,
    }
}

/// What a head or tail request over `input` shows.
pub open spec fn dataframe_spec(config: &Config, input: Seq<u8>) -> Result<Seq<Seq<char>>, ViewError> {
    if window_spec(Seq::empty(), config.command_type, config.num_rows) is None {
        Err(ViewError::InvalidRequest)
    } else {
        match csv_records(input, config.separator) {
            None => Err(ViewError::MalformedRecord),
            Some(all) => {
                let h = header_of(all, config.has_header);
                let rows = window_spec(data_of(all, config.has_header), config.command_type, config.num_rows)->Some_0;
                Ok(render_spec(h, rows, config.pretty))
            },
        }
    }
}

/// The lines of a result.
pub open spec fn lines_view(r: Result<Vec<String>, ViewError>) -> Result<Seq<Seq<char>>, ViewError> {
    match r {
        Ok(lines) => Ok(lines.deep_view()),
        Err(e) => Err(e),
    }
}

/// Shows the first or last rows of the table in `input`, as `config` asks.
pub fn render_dataframe(config: &Config, input: &[u8]) -> (r: Result<Vec<String>, ViewError>)
    ensures
        lines_view(r) == dataframe_spec(config, input@),
{
    let n = match config.num_rows {
        Some(n) => n,
        None => return Err(ViewError::InvalidRequest),
    };
    match config.command_type {
        CommandType::Head => {},
        CommandType::Tail => {},
        _ => return Err(ViewError::InvalidRequest),
    }
    let mut src = RecordSource::open(input, config.separator, config.has_header)?;
    let rows = match config.command_type {
        CommandType::Tail => tail(&mut src, n),
        _ => head(&mut src, n),
    };
    let lines = render_table(&rows, src.headers(), config.pretty);
    Ok(lines)
}

/// The locator of a column request, or `None` for a request of another
/// kind or without its argument.
pub open spec fn locator_spec(config: &Config) -> Option<ColumnLocator> {
    match (config.command_type, config.column_name, config.column_index) {
        (CommandType::ColumnName, Some(name), _) => Some(ColumnLocator::Name(name)),
        (CommandType::ColumnIndex, _, Some(i)) => Some(ColumnLocator::Index(i)),
        _ => None,
    }
}

/// What a column request over `input` shows.
pub open spec fn column_request_spec(config: &Config, input: Seq<u8>) -> Result<Seq<Seq<char>>, ViewError> {
    match locator_spec(config) {
        None => Err(ViewError::InvalidRequest),
        Some(loc) => match csv_records(input, config.separator) {
            None => Err(ViewError::MalformedRecord),
            Some(all) => match select_spec(header_of(all, config.has_header), data_of(all, config.has_header), loc) {
                Err(e) => Err(e),
                Ok((h, rows)) => Ok(render_spec(h, rows, config.pretty)),
            },
        },
    }
}

/// Shows one column of the table in `input`, as `config` asks.
pub fn render_column(config: &Config, input: &[u8]) -> (r: Result<Vec<String>, ViewError>)
    ensures
        lines_view(r) == column_request_spec(config, input@),
{
    let locator = match (config.command_type, &config.column_name, config.column_index) {
        (CommandType::ColumnName, Some(name), _) => ColumnLocator::Name(name.clone()),
        (CommandType::ColumnIndex, _, Some(i)) => ColumnLocator::Index(i),
        _ => return Err(ViewError::InvalidRequest),
    };
    assert(locator_spec(config) == Some(locator));
    let mut src = RecordSource::open(input, config.separator, config.has_header)?;
    let records = src.rows();
    let index = resolve_column(src.headers(), &locator)?;
    let (h, rows) = select_column(records, src.headers(), index)?;
    let hr = match &h {
        Some(r) => Some(r),
        None => None,
    };
    let lines = render_table(&rows, hr, config.pretty);
    Ok(lines)
}

} // verus!
