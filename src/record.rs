//! The record source: decoded rows of a delimited text, an optional header,
//! and a read position that iteration advances and rewinding resets.

use vstd::prelude::*;

use crate::error::ViewError;
use crate::render::{owned_row_view, row_view};

verus! {

#[verifier::external_type_specification]
#[verifier::external_body]
pub struct ExCsvError(csv::Error);

/// The records that csv decodes from `input` with `delimiter`, no header
/// handling and records of any length, or `None` where it reports an error.
pub uninterp spec fn csv_records(input: Seq<u8>, delimiter: u8) -> Option<Seq<Seq<Seq<char>>>>;

/// Relies on csv's `Reader` (built with `delimiter`, without a header row,
/// and flexible, so records may differ in length): every record it decodes
/// from `input`, as text fields, or its first error; either way the outcome
/// depends on the bytes and the delimiter alone.
#[verifier::external_body]
fn decode_records(input: &[u8], delimiter: u8) -> (r: Result<Vec<Vec<String>>, csv::Error>)
    ensures
        match r {
            Ok(rows) => csv_records(input@, delimiter) == Some(rows.deep_view()),
            Err(_) => csv_records(input@, delimiter) is None,
        },
{
    let mut rdr = csv::ReaderBuilder::new()
        .delimiter(delimiter)
        .has_headers(false)
        .flexible(true)
        .from_reader(input);
    let mut rows = Vec::new();
    for rec in rdr.records() {
        rows.push(rec?.iter().map(String::from).collect());
    }
    Ok(rows)
}

/// The header that a decoded text declares: its first record where it has
/// one (an empty row if the text holds no record), else none.
pub open spec fn header_of(all: Seq<Seq<Seq<char>>>, has_header: bool) -> Option<Seq<Seq<char>>> {
    if has_header {
        if all.len() > 0 {
            Some(all[0])
        } else {
            Some(Seq::empty())
        }
    } else {
        None
    }
}

/// The data rows of a decoded text: every record but a header.
pub open spec fn data_of(all: Seq<Seq<Seq<char>>>, has_header: bool) -> Seq<Seq<Seq<char>>> {
    if has_header && all.len() > 0 {
        all.drop_first()
    } else {
        all
    }
}

/// Decoded rows with an optional header and a read position.
pub struct RecordSource {
    header: Option<Vec<String>>,
    records: Vec<Vec<String>>,
    pos: usize,
}

impl RecordSource {
    /// The header row, if the source has one.
    pub closed spec fn header_rows(&self) -> Option<Seq<Seq<char>>> {
        match &self.header {
            Some(h) => Some(h.deep_view()),
            None => None,
        }
    }

    /// The data rows, in order.
    pub closed spec fn data_rows(&self) -> Seq<Seq<Seq<char>>> {
        self.records.deep_view()
    }

    /// How many data rows have been read since the start.
    pub closed spec fn position(&self) -> nat {
        self.pos as nat
    }

    /// The position never passes the end of the data.
    pub open spec fn wf(&self) -> bool {
        self.position() <= self.data_rows().len()
    }

    /// The data rows are counted by a machine word.
    pub proof fn lemma_len_fits(&self)
        ensures
            self.data_rows().len() <= usize::MAX,
    {
        assert(self.records.len() as int == self.records@.len());
    }

    /// A source over `records`, positioned at its start.
    pub fn from_rows(header: Option<Vec<String>>, records: Vec<Vec<String>>) -> (r: RecordSource)
        ensures
            r.wf(),
            r.header_rows() == owned_row_view(header),
            r.data_rows() == records.deep_view(),
            r.position() == 0,
    {
        RecordSource { header, records, pos: 0 }
    }

    /// Decodes `input` into a source; with `has_header` its first record is
    /// the header.
    pub fn open(input: &[u8], delimiter: u8, has_header: bool) -> (r: Result<RecordSource, ViewError>)
        ensures
            match csv_records(input@, delimiter) {
                None => r == Err::<RecordSource, ViewError>(ViewError::MalformedRecord),
                Some(all) => match r {
                    Ok(src) => {
                        &&& src.wf()
                        &&& src.header_rows() == header_of(all, has_header)
                        &&& src.data_rows() == data_of(all, has_header)
                        &&& src.position() == 0
                    },
                    Err(_) => false,
                },
            },
    {
        match decode_records(input, delimiter) {
            Err(_) => Err(ViewError::MalformedRecord),
            Ok(mut rows) => {
                let ghost all = rows.deep_view();
                if has_header {
                    if rows.len() > 0 {
                        let h = rows.remove(0);
                        assert(rows.deep_view() =~= all.drop_first());
                        Ok(RecordSource { header: Some(h), records: rows, pos: 0 })
                    } else {
                        let h: Vec<String> = Vec::new();
                        assert(h.deep_view() =~= Seq::<Seq<char>>::empty());
                        Ok(RecordSource { header: Some(h), records: rows, pos: 0 })
                    }
                } else {
                    Ok(RecordSource { header: None, records: rows, pos: 0 })
                }
            },
        }
    }

    /// The header row, if any.
    pub fn headers(&self) -> (r: Option<&Vec<String>>)
        ensures
            row_view(r) == self.header_rows(),
    {
        match &self.header {
            Some(h) => Some(h),
            None => None,
        }
    }

    /// All data rows.
    pub fn rows(&self) -> (r: &Vec<Vec<String>>)
        ensures
            r.deep_view() == self.data_rows(),
    {
        &self.records
    }

    /// Whether a data row is left to read.
    pub fn has_next(&self) -> (r: bool)
        requires
            self.wf(),
        ensures
            r == (self.position() < self.data_rows().len()),
    {
        self.pos < self.records.len()
    }

    /// Reads the data row at the position and advances past it; at the end,
    /// returns `None` and stays.
    pub fn next_record(&mut self) -> (r: Option<Vec<String>>)
        requires
            old(self).wf(),
        ensures
            final(self).wf(),
            final(self).header_rows() == old(self).header_rows(),
            final(self).data_rows() == old(self).data_rows(),
            old(self).position() < old(self).data_rows().len() ==> {
                &&& final(self).position() == old(self).position() + 1
                &&& r matches Some(row) && row.deep_view() == old(self).data_rows()[old(self).position() as int]
            },
            old(self).position() >= old(self).data_rows().len() ==> {
                &&& final(self).position() == old(self).position()
                &&& r is None
            },
    {
        if self.pos < self.records.len() {
            let row = self.records[self.pos].clone();
            proof {
                broadcast use vstd::std_specs::vec::vec_clone_deep_view_proof;
            }
            assert(row.deep_view() =~= self.records[self.pos as int].deep_view());
            self.pos = self.pos + 1;
            Some(row)
        } else {
            None
        }
    }

    /// Goes back to the first data row.
    pub fn rewind(&mut self)
        requires
            old(self).wf(),
        ensures
            final(self).wf(),
            final(self).header_rows() == old(self).header_rows(),
            final(self).data_rows() == old(self).data_rows(),
            final(self).position() == 0,
    {
        self.pos = 0;
    }
}

} // verus!
