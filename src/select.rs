//! The row selector: the first or last rows of a source, and the resolution
//! and extraction of a single column.

use vstd::prelude::*;

use crate::error::ViewError;
use crate::record::{data_of, RecordSource};
use crate::render::{owned_row_view, row_view};

verus! {

/// The smaller of two naturals.
pub open spec fn min_nat(a: nat, b: nat) -> nat {
    if a < b {
        a
    } else {
        b
    }
}

/// The rows that `Head(n)` yields from `rows` read from position `pos`.
pub open spec fn head_spec(rows: Seq<Seq<Seq<char>>>, pos: nat, n: nat) -> Seq<Seq<Seq<char>>> {
    rows.subrange(pos as int, (pos + min_nat(n, (rows.len() - pos) as nat)) as int)
}

/// The rows that `Tail(n)` yields: the last `min(n, len)` rows, in order.
pub open spec fn tail_spec(rows: Seq<Seq<Seq<char>>>, n: nat) -> Seq<Seq<Seq<char>>> {
    rows.subrange(rows.len() - min_nat(n, rows.len()), rows.len() as int)
}

/// Reads up to `n` data rows from the source's position on.
pub fn take_rows(src: &mut RecordSource, n: usize) -> (r: Vec<Vec<String>>)
    requires
        old(src).wf(),
    ensures
        final(src).wf(),
        final(src).header_rows() == old(src).header_rows(),
        final(src).data_rows() == old(src).data_rows(),
        final(src).position() == old(src).position() + r@.len(),
        r.deep_view() == head_spec(old(src).data_rows(), old(src).position(), n as nat),
{
    let ghost rows = src.data_rows();
    let ghost start = src.position();
    let mut out: Vec<Vec<String>> = Vec::new();
    let mut c: usize = 0;
    assert(out.deep_view() =~= rows.subrange(start as int, start as int));
    while c < n && src.has_next()
        invariant
            src.wf(),
            src.header_rows() == old(src).header_rows(),
            src.data_rows() == rows,
            rows == old(src).data_rows(),
            start == old(src).position(),
            c <= n,
            out@.len() == c,
            src.position() == start + c,
            out.deep_view() =~= rows.subrange(start as int, start + c),
        decreases n - c,
    {
        let row = src.next_record();
        match row {
            Some(row) => {
                let ghost before = out.deep_view();
                out.push(row);
                assert(out.deep_view() =~= before.push(row.deep_view()));
            },
            None => {},
        }
        c = c + 1;
        assert(out.deep_view() =~= rows.subrange(start as int, start + c));
    }
    assert(c == min_nat(n as nat, (rows.len() - start) as nat));
    out
}

/// The first `n` data rows of the source, from its start.
pub fn head(src: &mut RecordSource, n: usize) -> (r: Vec<Vec<String>>)
    requires
        old(src).wf(),
    ensures
        final(src).wf(),
        final(src).header_rows() == old(src).header_rows(),
        final(src).data_rows() == old(src).data_rows(),
        r.deep_view() == head_spec(old(src).data_rows(), 0, n as nat),
{
    src.rewind();
    take_rows(src, n)
}

/// The last `n` data rows of the source, in order: one pass counts the rows,
/// a second skips all but the last ones.
pub fn tail(src: &mut RecordSource, n: usize) -> (r: Vec<Vec<String>>)
    requires
        old(src).wf(),
    ensures
        final(src).wf(),
        final(src).header_rows() == old(src).header_rows(),
        final(src).data_rows() == old(src).data_rows(),
        r.deep_view() == tail_spec(old(src).data_rows(), n as nat),
{
    let ghost rows = src.data_rows();
    src.rewind();
    let mut total: usize = 0;
    while src.has_next()
        invariant
            src.wf(),
            src.header_rows() == old(src).header_rows(),
            src.data_rows() == rows,
            rows == old(src).data_rows(),
            src.position() == total,
        decreases rows.len() - total,
    {
        proof {
            src.lemma_len_fits();
        }
        src.next_record();
        total = total + 1;
    }
    assert(total == rows.len());
    let show = if n < total {
        n
    } else {
        total
    };
    let skip = total - show;
    src.rewind();
    let mut s: usize = 0;
    while s < skip
        invariant
            src.wf(),
            src.header_rows() == old(src).header_rows(),
            src.data_rows() == rows,
            rows == old(src).data_rows(),
            total == rows.len(),
            skip <= total,
            s <= skip,
            src.position() == s,
        decreases skip - s,
    {
        src.next_record();
        s = s + 1;
    }
    take_rows(src, show)
}

/// Where `name` first occurs among the header's fields.
pub open spec fn find_spec(header: Seq<Seq<char>>, name: Seq<char>) -> Option<nat> {
    if exists|i: int| 0 <= i < header.len() && header[i] == name {
        let i = choose|i: int|
            0 <= i < header.len() && header[i] == name && forall|j: int| 0 <= j < i ==> header[j] != name;
        Some(i as nat)
    } else {
        None
    }
}

/// Finds the position of the first header field equal to `column_name`.
pub fn find_index_of_column(header: &Vec<String>, column_name: &String) -> (r: Option<usize>)
    ensures
        match r {
            Some(i) => {
                &&& i < header@.len()
                &&& header@[i as int]@ == column_name@
                &&& forall|j: int| 0 <= j < i ==> header@[j]@ != column_name@
            },
            None => forall|j: int| 0 <= j < header@.len() ==> header@[j]@ != column_name@,
        },
{
    let mut i: usize = 0;
    while i < header.len()
        invariant
            i <= header@.len(),
            forall|j: int| 0 <= j < i ==> header@[j]@ != column_name@,
        decreases header@.len() - i,
    {
        if header[i] == *column_name {
            return Some(i);
        }
        i = i + 1;
    }
    None
}


/// A reference to one column: a 1-based position, or a header name.
#[derive(Debug, PartialEq, Eq)]
pub enum ColumnLocator {
    Index(usize),
    Name(String),
}

/// The 0-based column that a 1-based position denotes.
pub open spec fn resolve_index_spec(index: nat) -> Result<nat, ViewError> {
    if index >= 1 {
        Ok((index - 1) as nat)
    } else {
        Err(ViewError::OutOfRange)
    }
}

/// The 0-based column that a header name denotes.
pub open spec fn resolve_name_spec(header: Option<Seq<Seq<char>>>, name: Seq<char>) -> Result<nat, ViewError> {
    match header {
        None => Err(ViewError::MissingHeader),
        Some(h) => match find_spec(h, name) {
            Some(i) => Ok(i),
            None => Err(ViewError::ColumnNotFound),
        },
    }
}

/// The 0-based column that a locator denotes.
pub open spec fn resolve_spec(header: Option<Seq<Seq<char>>>, locator: ColumnLocator) -> Result<nat, ViewError> {
    match locator {
        ColumnLocator::Index(i) => resolve_index_spec(i as nat),
        ColumnLocator::Name(s) => resolve_name_spec(header, s@),
    }
}

/// Resolves `locator` against the header to a 0-based column.
pub fn resolve_column(header: Option<&Vec<String>>, locator: &ColumnLocator) -> (r: Result<usize, ViewError>)
    ensures
        match r {
            Ok(i) => resolve_spec(row_view(header), *locator) == Ok::<nat, ViewError>(i as nat),
            Err(e) => resolve_spec(row_view(header), *locator) == Err::<nat, ViewError>(e),
        },
{
    match locator {
        ColumnLocator::Index(i) => {
            if *i >= 1 {
                Ok(*i - 1)
            } else {
                Err(ViewError::OutOfRange)
            }
        },
        ColumnLocator::Name(name) => match header {
            None => Err(ViewError::MissingHeader),
            Some(h) => {
                let found = find_index_of_column(h, name);
                let ghost hv = h.deep_view();
                proof {
                    assert forall|j: int| 0 <= j < hv.len() implies hv[j] == h@[j]@ by {}
                }
                match found {
                    Some(i) => {
                        let ghost ii = i as int;
                        assert(hv[ii] == name@);
                        let ghost c = choose|c: int|
                            0 <= c < hv.len() && hv[c] == name@ && forall|j: int| 0 <= j < c ==> hv[j] != name@;
                        assert(0 <= ii < hv.len() && hv[ii] == name@ && forall|j: int| 0 <= j < ii ==> hv[j] != name@);
                        assert(c == ii) by {
                            if c < ii {
                                assert(hv[c] != name@);
                            } else if c > ii {
                                assert(hv[ii] != name@);
                            }
                        }
                        assert(find_spec(hv, name@) == Some(i as nat));
                        Ok(i)
                    },
                    None => Err(ViewError::ColumnNotFound),
                }
            },
        },
    }
}

/// Whether every row (and the header, if any) has a field at `index`.
pub open spec fn column_in_range(header: Option<Seq<Seq<char>>>, rows: Seq<Seq<Seq<char>>>, index: nat) -> bool {
    &&& header matches Some(h) ==> index < h.len()
    &&& forall|k: int| 0 <= k < rows.len() ==> index < rows[k].len()
}

/// The field at `index` of a row, as a one-field row.
pub open spec fn pick(row: Seq<Seq<char>>, index: nat) -> Seq<Seq<char>> {
    seq![row[index as int]]
}

/// The one-column table that column `index` forms.
pub open spec fn column_spec(header: Option<Seq<Seq<char>>>, rows: Seq<Seq<Seq<char>>>, index: nat) -> Result<
    (Option<Seq<Seq<char>>>, Seq<Seq<Seq<char>>>),
    ViewError,
> {
    if column_in_range(header, rows, index) {
        let h = match header {
            Some(h) => Some(pick(h, index)),
            None => None,
        };
        Ok((h, rows.map_values(|row: Seq<Seq<char>>| pick(row, index))))
    } else {
        Err(ViewError::OutOfRange)
    }
}

/// The column that a locator selects: resolution, then extraction.
pub open spec fn select_spec(header: Option<Seq<Seq<char>>>, rows: Seq<Seq<Seq<char>>>, locator: ColumnLocator) -> Result<
    (Option<Seq<Seq<char>>>, Seq<Seq<Seq<char>>>),
    ViewError,
> {
    match resolve_spec(header, locator) {
        Ok(i) => column_spec(header, rows, i),
        Err(e) => Err(e),
    }
}

/// The field at `index` of `row`, as a one-field row.
fn pick_field(row: &Vec<String>, index: usize) -> (r: Vec<String>)
    requires
        index < row@.len(),
    ensures
        r.deep_view() == pick(row.deep_view(), index as nat),
{
    let f = row[index].clone();
    let r = vec![f];
    assert(r.deep_view() =~= pick(row.deep_view(), index as nat));
    r
}

/// Extracts column `index` of the header and of every row as a one-column
/// table; fails if any of them is too short to have it.
pub fn select_column(records: &Vec<Vec<String>>, header: Option<&Vec<String>>, index: usize) -> (r: Result<
    (Option<Vec<String>>, Vec<Vec<String>>),
    ViewError,
>)
    ensures
        match r {
            Ok((h, rows)) => column_spec(row_view(header), records.deep_view(), index as nat) == Ok::<
                (Option<Seq<Seq<char>>>, Seq<Seq<Seq<char>>>),
                ViewError,
            >((owned_row_view(h), rows.deep_view())),
            Err(e) => column_spec(row_view(header), records.deep_view(), index as nat) == Err::<
                (Option<Seq<Seq<char>>>, Seq<Seq<Seq<char>>>),
                ViewError,
            >(e),
        },
{
    let ghost rows = records.deep_view();
    let h = match header {
        Some(hd) => {
            if index >= hd.len() {
                return Err(ViewError::OutOfRange);
            }
            Some(pick_field(hd, index))
        },
        None => None,
    };
    let mut out: Vec<Vec<String>> = Vec::new();
    let mut k: usize = 0;
    while k < records.len()
        invariant
            rows == records.deep_view(),
            k <= records.len(),
            forall|t: int| 0 <= t < k ==> index < rows[t].len(),
            out.deep_view() =~= rows.take(k as int).map_values(|row: Seq<Seq<char>>| pick(row, index as nat)),
        decreases records.len() - k,
    {
        if index >= records[k].len() {
            assert(index >= rows[k as int].len());
            return Err(ViewError::OutOfRange);
        }
        let f = pick_field(&records[k], index);
        let ghost before = out.deep_view();
        out.push(f);
        assert(out.deep_view() =~= before.push(f.deep_view()));
        k = k + 1;
        assert(out.deep_view() =~= rows.take(k as int).map_values(|row: Seq<Seq<char>>| pick(row, index as nat)));
    }
    assert(rows.take(k as int) =~= rows);
    Ok((h, out))
}


/// `Head(n)` yields exactly `min(n, T)` of the `T` rows: the first ones, in
/// the order of the input.
pub proof fn lemma_head_window(rows: Seq<Seq<Seq<char>>>, n: nat)
    ensures
        head_spec(rows, 0, n).len() == min_nat(n, rows.len()),
        forall|i: int| 0 <= i < head_spec(rows, 0, n).len() ==> head_spec(rows, 0, n)[i] == rows[i],
{
}

/// `Tail(n)` yields exactly `min(n, T)` of the `T` rows: the last ones, in
/// the order of the input. Those rows are the same whether or not the first
/// record of the text is a header, as long as there are `n` data rows.
pub proof fn lemma_tail_window(all: Seq<Seq<Seq<char>>>, has_header: bool, n: nat)
    ensures
        ({
            let rows = data_of(all, has_header);
            &&& tail_spec(rows, n).len() == min_nat(n, rows.len())
            &&& forall|i: int|
                0 <= i < tail_spec(rows, n).len() ==> tail_spec(rows, n)[i] == rows[rows.len() - min_nat(n, rows.len()) + i]
        }),
        n <= data_of(all, true).len() ==> tail_spec(data_of(all, true), n) == tail_spec(data_of(all, false), n),
{
    if n <= data_of(all, true).len() {
        assert(tail_spec(data_of(all, true), n) =~= tail_spec(data_of(all, false), n));
    }
}

/// `Head(0)` and `Tail(0)` yield no rows.
pub proof fn lemma_zero_rows(rows: Seq<Seq<Seq<char>>>)
    ensures
        head_spec(rows, 0, 0) == Seq::<Seq<Seq<char>>>::empty(),
        tail_spec(rows, 0) == Seq::<Seq<Seq<char>>>::empty(),
{
    assert(head_spec(rows, 0, 0) =~= Seq::<Seq<Seq<char>>>::empty());
    assert(tail_spec(rows, 0) =~= Seq::<Seq<Seq<char>>>::empty());
}

/// A header name and a 1-based index that denote the same column select the
/// same fields, header included.
pub proof fn lemma_name_and_index_agree(
    header: Seq<Seq<char>>,
    rows: Seq<Seq<Seq<char>>>,
    name: String,
    index: usize,
)
    requires
        resolve_spec(Some(header), ColumnLocator::Name(name)) is Ok,
        resolve_spec(Some(header), ColumnLocator::Name(name)) == resolve_spec(Some(header), ColumnLocator::Index(index)),
    ensures
        select_spec(Some(header), rows, ColumnLocator::Name(name)) == select_spec(
            Some(header),
            rows,
            ColumnLocator::Index(index),
        ),
{
}

} // verus!
