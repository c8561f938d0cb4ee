//! The table renderer: field truncation, column widths, and the raw and
//! pretty layouts of rows.

use vstd::prelude::*;

verus! {

/// The widest a column is ever displayed.
pub const MAX_WIDTH: usize = 20;

/// A field cut to `max_len` characters: over-long text keeps its first
/// `max_len - 3` characters followed by three dots.
pub open spec fn ellipsis_spec(s: Seq<char>, max_len: nat) -> Seq<char> {
    if s.len() > max_len {
        s.take(max_len - 3) + seq!['.', '.', '.']
    } else {
        s
    }
}

/// Truncates `s` to at most `max_len` characters, marking a cut with "...".
pub fn ellipsis(s: &str, max_len: usize) -> (r: String)
    requires
        s@.len() <= max_len || max_len >= 3,
    ensures
        r@ == ellipsis_spec(s@, max_len as nat),
{
    let n = s.unicode_len();
    if n > max_len {
        let head = s.substring_char(0, max_len - 3).to_owned();
        let dots = "...";
        proof {
            reveal_strlit("...");
        }
        let r = head.concat(dots);
        assert(r@ =~= ellipsis_spec(s@, max_len as nat));
        r
    } else {
        s.to_owned()
    }
}


/// `s` left-justified in a cell of `width` characters: spaces fill what `s`
/// leaves free, and text already as wide stays as it is.
pub open spec fn pad_spec(s: Seq<char>, width: nat) -> Seq<char> {
    if s.len() < width {
        s + Seq::new((width - s.len()) as nat, |i: int| ' ')
    } else {
        s
    }
}

/// Pads `s` on the right with spaces up to `width` characters.
pub fn pad_right(s: String, width: usize) -> (r: String)
    ensures
        r@ == pad_spec(s@, width as nat),
{
    let n = s.as_str().unicode_len();
    let mut r = s;
    let mut k: usize = n;
    let space = " ";
    proof {
        reveal_strlit(" ");
    }
    while k < width
        invariant
            n == s@.len(),
            space@ == seq![' '],
            n <= k <= width || (k == n && n >= width),
            r@ == s@ + Seq::new((k - n) as nat, |i: int| ' '),
        decreases width - k,
    {
        r = r.concat(space);
        k = k + 1;
        assert(r@ =~= s@ + Seq::new((k - n) as nat, |i: int| ' '));
    }
    assert(r@ =~= pad_spec(s@, width as nat));
    r
}

/// The view of an optional row.
pub open spec fn row_view(row: Option<&Vec<String>>) -> Option<Seq<Seq<char>>> {
    match row {
        Some(r) => Some(r.deep_view()),
        None => None,
    }
}

/// The view of an optional owned row.
pub open spec fn owned_row_view(row: Option<Vec<String>>) -> Option<Seq<Seq<char>>> {
    match row {
        Some(r) => Some(r.deep_view()),
        None => None,
    }
}

/// How many columns a header and rows span: the largest arity among them.
pub open spec fn column_count(header: Option<Seq<Seq<char>>>, rows: Seq<Seq<Seq<char>>>) -> nat
    decreases rows.len(),
{
    if rows.len() == 0 {
        match header {
            Some(h) => h.len(),
            None => 0,
        }
    } else {
        let prev = column_count(header, rows.drop_last());
        if rows.last().len() > prev {
            rows.last().len()
        } else {
            prev
        }
    }
}

/// The length of field `i` of `row`, or 0 where the row is shorter.
pub open spec fn field_len(row: Seq<Seq<char>>, i: int) -> nat {
    if 0 <= i < row.len() {
        row[i].len()
    } else {
        0
    }
}

/// The longest field in column `i` over the header and all rows.
pub open spec fn column_max(header: Option<Seq<Seq<char>>>, rows: Seq<Seq<Seq<char>>>, i: int) -> nat
    decreases rows.len(),
{
    if rows.len() == 0 {
        match header {
            Some(h) => field_len(h, i),
            None => 0,
        }
    } else {
        let prev = column_max(header, rows.drop_last(), i);
        let here = field_len(rows.last(), i);
        if here > prev {
            here
        } else {
            prev
        }
    }
}

/// The display width of column `i`: its longest field, capped at `MAX_WIDTH`.
pub open spec fn width_spec(header: Option<Seq<Seq<char>>>, rows: Seq<Seq<Seq<char>>>, i: int) -> nat {
    let m = column_max(header, rows, i);
    if m > MAX_WIDTH {
        MAX_WIDTH as nat
    } else {
        m
    }
}

proof fn lemma_column_max_beyond(header: Option<Seq<Seq<char>>>, rows: Seq<Seq<Seq<char>>>, i: int)
    requires
        i >= column_count(header, rows),
    ensures
        column_max(header, rows, i) == 0,
    decreases rows.len(),
{
    if rows.len() > 0 {
        lemma_column_max_beyond(header, rows.drop_last(), i);
    }
}

/// Computes the display width of every column spanned by `header` and `records`.
pub fn get_width(records: &Vec<Vec<String>>, header: Option<&Vec<String>>) -> (r: Vec<usize>)
    ensures
        r@.len() == column_count(row_view(header), records.deep_view()),
        forall|i: int|
            0 <= i < r@.len() ==> r@[i] as nat == width_spec(row_view(header), records.deep_view(), i),
{
    let ghost hv = row_view(header);
    let ghost rows = records.deep_view();
    let mut w: Vec<usize> = Vec::new();
    if let Some(row) = header {
        let mut j: usize = 0;
        while j < row.len()
            invariant
                hv == Some(row.deep_view()),
                j <= row.len(),
                w@.len() == j,
                forall|i: int| 0 <= i < j ==> w@[i] as nat == row.deep_view()[i].len(),
            decreases row.len() - j,
        {
            w.push(row[j].as_str().unicode_len());
            j = j + 1;
        }
    }
    assert(rows.take(0) =~= Seq::<Seq<Seq<char>>>::empty());
    let mut k: usize = 0;
    while k < records.len()
        invariant
            rows == records.deep_view(),
            k <= records.len(),
            w@.len() == column_count(hv, rows.take(k as int)),
            forall|i: int| 0 <= i < w@.len() ==> w@[i] as nat == column_max(hv, rows.take(k as int), i),
        decreases records.len() - k,
    {
        let rec = &records[k];
        let ghost prev = rows.take(k as int);
        let ghost next = rows.take(k + 1);
        assert(next.drop_last() =~= prev);
        assert(next.last() == rec.deep_view());
        let ghost w0 = w@;
        let mut j: usize = 0;
        while j < rec.len()
            invariant
                rows == records.deep_view(),
                rec.deep_view() == next.last(),
                next.drop_last() == prev,
                next.len() > 0,
                w0.len() == column_count(hv, prev),
                forall|i: int| 0 <= i < w0.len() ==> w0[i] as nat == column_max(hv, prev, i),
                j <= rec.len(),
                w@.len() == if j > w0.len() { j as int } else { w0.len() as int },
                forall|i: int| 0 <= i < j ==> w@[i] as nat == column_max(hv, next, i),
                forall|i: int| j <= i < w@.len() ==> w@[i] == w0[i],
            decreases rec.len() - j,
        {
            let len = rec[j].as_str().unicode_len();
            proof {
                if j >= w0.len() {
                    lemma_column_max_beyond(hv, prev, j as int);
                }
            }
            proof {
                assert(field_len(next.last(), j as int) == len);
                assert(column_max(hv, next, j as int) == if len > column_max(hv, prev, j as int) {
                    len as nat
                } else {
                    column_max(hv, prev, j as int)
                });
            }
            if j < w.len() {
                assert(w@[j as int] == w0[j as int]);
                assert(w0[j as int] as nat == column_max(hv, prev, j as int));
                if len > w[j] {
                    w.set(j, len);
                }
            } else {
                w.push(len);
            }
            j = j + 1;
        }
        proof {
            assert forall|i: int| 0 <= i < w@.len() implies w@[i] as nat == column_max(hv, next, i) by {
                if i >= j {
                    assert(field_len(next.last(), i) == 0);
                    assert(column_max(hv, next, i) == column_max(hv, prev, i));
                    assert(w@[i] == w0[i]);
                    assert(w0[i] as nat == column_max(hv, prev, i));
                }
            }
        }
        k = k + 1;
    }
    assert(rows.take(records.len() as int) =~= rows);
    let mut i: usize = 0;
    while i < w.len()
        invariant
            w@.len() == column_count(hv, rows),
            i <= w@.len(),
            forall|t: int| 0 <= t < i ==> w@[t] as nat == width_spec(hv, rows, t),
            forall|t: int| i <= t < w@.len() ==> w@[t] as nat == column_max(hv, rows, t),
        decreases w@.len() - i,
    {
        if w[i] > MAX_WIDTH {
            w.set(i, MAX_WIDTH);
        }
        i = i + 1;
    }
    w
}


/// What `{:?}` writes for a string: the text in double quotes, with quotes,
/// backslashes and control characters escaped.
pub uninterp spec fn debug_quoted(s: Seq<char>) -> Seq<char>;

/// Relies on std's `Debug` for `str`: the quoted, escaped form of the text,
/// which depends on the text alone.
#[verifier::external_body]
fn quote_field(f: &str) -> (r: String)
    ensures
        r@ == debug_quoted(f@),
{
    format!("{:?}", f)
}

/// A raw line: each field quoted, the fields joined by commas.
pub open spec fn raw_line_spec(fields: Seq<Seq<char>>) -> Seq<char>
    decreases fields.len(),
{
    if fields.len() == 0 {
        Seq::empty()
    } else if fields.len() == 1 {
        debug_quoted(fields[0])
    } else {
        raw_line_spec(fields.drop_last()) + seq![','] + debug_quoted(fields.last())
    }
}

/// Renders one row in raw mode.
pub fn raw_line(fields: &Vec<String>) -> (r: String)
    ensures
        r@ == raw_line_spec(fields.deep_view()),
{
    let ghost fv = fields.deep_view();
    let comma = ",";
    proof {
        reveal_strlit(",");
    }
    let mut r = String::new();
    let mut j: usize = 0;
    while j < fields.len()
        invariant
            fv == fields.deep_view(),
            comma@ == seq![','],
            j <= fields.len(),
            r@ == raw_line_spec(fv.take(j as int)),
        decreases fields.len() - j,
    {
        let q = quote_field(fields[j].as_str());
        assert(fv.take(j + 1).drop_last() =~= fv.take(j as int));
        if j == 0 {
            r = q;
        } else {
            r = r.concat(comma);
            r = r.concat(q.as_str());
        }
        j = j + 1;
        assert(r@ =~= raw_line_spec(fv.take(j as int)));
    }
    assert(fv.take(j as int) =~= fv);
    r
}

/// Raw output: the header line, if any, then one line per row.
pub open spec fn raw_spec(header: Option<Seq<Seq<char>>>, rows: Seq<Seq<Seq<char>>>) -> Seq<Seq<char>> {
    let head = match header {
        Some(h) => seq![raw_line_spec(h)],
        None => Seq::empty(),
    };
    head + rows.map_values(|row: Seq<Seq<char>>| raw_line_spec(row))
}

/// Renders `header` and `records` in raw mode, one line per row.
pub fn render_raw(records: &Vec<Vec<String>>, header: Option<&Vec<String>>) -> (r: Vec<String>)
    ensures
        r.deep_view() == raw_spec(row_view(header), records.deep_view()),
{
    let ghost rows = records.deep_view();
    let mut r: Vec<String> = Vec::new();
    if let Some(h) = header {
        r.push(raw_line(h));
    }
    let ghost head = r.deep_view();
    let mut k: usize = 0;
    while k < records.len()
        invariant
            rows == records.deep_view(),
            k <= records.len(),
            r.deep_view() =~= head + rows.take(k as int).map_values(|row: Seq<Seq<char>>| raw_line_spec(row)),
        decreases records.len() - k,
    {
        let line = raw_line(&records[k]);
        let ghost before = r.deep_view();
        r.push(line);
        assert(r.deep_view() =~= before.push(line@));
        assert(rows[k as int] == records[k as int].deep_view());
        k = k + 1;
        assert(r.deep_view() =~= head + rows.take(k as int).map_values(|row: Seq<Seq<char>>| raw_line_spec(row)));
    }
    assert(rows.take(k as int) =~= rows);
    assert(r.deep_view() =~= raw_spec(row_view(header), rows));
    r
}


/// The widths of all columns spanned by a header and rows.
pub open spec fn widths_of(header: Option<Seq<Seq<char>>>, rows: Seq<Seq<Seq<char>>>) -> Seq<nat> {
    Seq::new(column_count(header, rows), |i: int| width_spec(header, rows, i))
}

/// One pretty cell: the truncated field padded to `width`, framed by a space
/// on each side and closed by a bar.
pub open spec fn cell_spec(field: Seq<char>, width: nat) -> Seq<char> {
    seq![' '] + pad_spec(ellipsis_spec(field, MAX_WIDTH as nat), width) + seq![' ', '|']
}

/// A pretty row of the first `k` cells: a bar, then one cell per field.
pub open spec fn pretty_row_spec(fields: Seq<Seq<char>>, widths: Seq<nat>, k: nat) -> Seq<char>
    decreases k,
{
    if k == 0 {
        seq!['|']
    } else {
        pretty_row_spec(fields, widths, (k - 1) as nat) + cell_spec(fields[k - 1], widths[k - 1])
    }
}

/// The number of cells a row shows: as many as it has fields with a width.
pub open spec fn shown(fields: Seq<Seq<char>>, widths: Seq<nat>) -> nat {
    if fields.len() < widths.len() {
        fields.len()
    } else {
        widths.len()
    }
}

/// The separator under the header, over its first `k` columns: a plus, then
/// for each column dashes two wider than the column and a plus.
pub open spec fn rule_spec(widths: Seq<nat>, k: nat) -> Seq<char>
    decreases k,
{
    if k == 0 {
        seq!['+']
    } else {
        rule_spec(widths, (k - 1) as nat) + Seq::new(widths[k - 1] + 2, |i: int| '-') + seq!['+']
    }
}

/// Pretty output: the header and its separator, if any, then one line per row.
pub open spec fn pretty_spec(header: Option<Seq<Seq<char>>>, rows: Seq<Seq<Seq<char>>>) -> Seq<Seq<char>> {
    let ws = widths_of(header, rows);
    let head = match header {
        Some(h) => seq![pretty_row_spec(h, ws, shown(h, ws)), rule_spec(ws, shown(h, ws))],
        None => Seq::empty(),
    };
    head + rows.map_values(|row: Seq<Seq<char>>| pretty_row_spec(row, ws, shown(row, ws)))
}

/// The view of a width vector.
pub open spec fn widths_view(w: Seq<usize>) -> Seq<nat> {
    w.map_values(|x: usize| x as nat)
}

/// Renders `fields` as a pretty row under the column widths `widths`.
pub fn pretty_row(fields: &Vec<String>, widths: &Vec<usize>) -> (r: String)
    ensures
        r@ == pretty_row_spec(fields.deep_view(), widths_view(widths@), shown(fields.deep_view(), widths_view(widths@))),
{
    let ghost fv = fields.deep_view();
    let ghost ws = widths_view(widths@);
    let n = if fields.len() < widths.len() {
        fields.len()
    } else {
        widths.len()
    };
    let bar = "|";
    let space = " ";
    let close = " |";
    proof {
        reveal_strlit("|");
        reveal_strlit(" ");
        reveal_strlit(" |");
    }
    let mut r = String::from_str(bar);
    let mut j: usize = 0;
    while j < n
        invariant
            fv == fields.deep_view(),
            ws == widths_view(widths@),
            n == shown(fv, ws),
            n <= fields.len(),
            n <= widths.len(),
            space@ == seq![' '],
            close@ == seq![' ', '|'],
            j <= n,
            r@ == pretty_row_spec(fv, ws, j as nat),
        decreases n - j,
    {
        let cut = ellipsis(fields[j].as_str(), MAX_WIDTH);
        let padded = pad_right(cut, widths[j]);
        r = r.concat(space);
        r = r.concat(padded.as_str());
        r = r.concat(close);
        j = j + 1;
        assert(r@ =~= pretty_row_spec(fv, ws, j as nat));
    }
    r
}

/// Renders the separator line over the first `n` of `widths`.
pub fn rule_line(widths: &Vec<usize>, n: usize) -> (r: String)
    requires
        n <= widths.len(),
        forall|i: int| 0 <= i < widths.len() ==> widths@[i] <= usize::MAX - 2,
    ensures
        r@ == rule_spec(widths_view(widths@), n as nat),
{
    let ghost ws = widths_view(widths@);
    let plus = "+";
    let dash = "-";
    proof {
        reveal_strlit("+");
        reveal_strlit("-");
    }
    let mut r = String::from_str(plus);
    let mut j: usize = 0;
    while j < n
        invariant
            ws == widths_view(widths@),
            n <= widths.len(),
            forall|i: int| 0 <= i < widths.len() ==> widths@[i] <= usize::MAX - 2,
            plus@ == seq!['+'],
            dash@ == seq!['-'],
            j <= n,
            r@ == rule_spec(ws, j as nat),
        decreases n - j,
    {
        let ghost base = r@;
        let w = widths[j] + 2;
        let mut d: usize = 0;
        while d < w
            invariant
                dash@ == seq!['-'],
                d <= w,
                r@ == base + Seq::new(d as nat, |i: int| '-'),
            decreases w - d,
        {
            r = r.concat(dash);
            d = d + 1;
            assert(r@ =~= base + Seq::new(d as nat, |i: int| '-'));
        }
        r = r.concat(plus);
        j = j + 1;
        assert(r@ =~= rule_spec(ws, j as nat));
    }
    r
}

/// Renders `header` and `records` as an aligned table, one line per row.
pub fn render_pretty(records: &Vec<Vec<String>>, header: Option<&Vec<String>>) -> (r: Vec<String>)
    ensures
        r.deep_view() == pretty_spec(row_view(header), records.deep_view()),
{
    let ghost rows = records.deep_view();
    let ghost hv = row_view(header);
    let widths = get_width(records, header);
    let ghost ws = widths_view(widths@);
    assert(ws =~= widths_of(hv, rows));
    let mut r: Vec<String> = Vec::new();
    if let Some(h) = header {
        let line = pretty_row(h, &widths);
        let n = if h.len() < widths.len() {
            h.len()
        } else {
            widths.len()
        };
        let rule = rule_line(&widths, n);
        r.push(line);
        r.push(rule);
    }
    let ghost head = r.deep_view();
    let mut k: usize = 0;
    while k < records.len()
        invariant
            rows == records.deep_view(),
            ws == widths_view(widths@),
            ws == widths_of(hv, rows),
            k <= records.len(),
            r.deep_view() =~= head + rows.take(k as int).map_values(
                |row: Seq<Seq<char>>| pretty_row_spec(row, ws, shown(row, ws)),
            ),
        decreases records.len() - k,
    {
        let line = pretty_row(&records[k], &widths);
        let ghost before = r.deep_view();
        r.push(line);
        assert(r.deep_view() =~= before.push(line@));
        assert(rows[k as int] == records[k as int].deep_view());
        k = k + 1;
        assert(r.deep_view() =~= head + rows.take(k as int).map_values(
            |row: Seq<Seq<char>>| pretty_row_spec(row, ws, shown(row, ws)),
        ));
    }
    assert(rows.take(k as int) =~= rows);
    assert(r.deep_view() =~= pretty_spec(hv, rows));
    r
}


/// The length of field `i` of the header, or 0 without one.
pub open spec fn header_field_len(header: Option<Seq<Seq<char>>>, i: int) -> nat {
    match header {
        Some(h) => field_len(h, i),
        None => 0,
    }
}

/// Whether no field of column `i` is longer than `MAX_WIDTH`.
pub open spec fn column_fits(header: Option<Seq<Seq<char>>>, rows: Seq<Seq<Seq<char>>>, i: int) -> bool {
    &&& header_field_len(header, i) <= MAX_WIDTH
    &&& forall|k: int| 0 <= k < rows.len() ==> field_len(rows[k], i) <= MAX_WIDTH
}

/// The longest field of a column bounds every field of it and is one of
/// them (or 0 for a column that is empty everywhere). A column whose fields
/// all fit is as wide as its longest field; a column with a longer field is
/// exactly `MAX_WIDTH` wide.
pub proof fn lemma_width_is_capped_maximum(header: Option<Seq<Seq<char>>>, rows: Seq<Seq<Seq<char>>>, i: int)
    ensures
        header_field_len(header, i) <= column_max(header, rows, i),
        forall|k: int| 0 <= k < rows.len() ==> field_len(rows[k], i) <= column_max(header, rows, i),
        column_max(header, rows, i) == header_field_len(header, i) || exists|k: int|
            0 <= k < rows.len() && field_len(rows[k], i) == column_max(header, rows, i),
        column_fits(header, rows, i) ==> width_spec(header, rows, i) == column_max(header, rows, i),
        column_fits(header, rows, i) ==> {
            &&& header_field_len(header, i) <= width_spec(header, rows, i)
            &&& forall|k: int| 0 <= k < rows.len() ==> field_len(rows[k], i) <= width_spec(header, rows, i)
            &&& (width_spec(header, rows, i) == header_field_len(header, i) || exists|k: int|
                0 <= k < rows.len() && field_len(rows[k], i) == width_spec(header, rows, i))
        },
        !column_fits(header, rows, i) ==> width_spec(header, rows, i) == MAX_WIDTH,
    decreases rows.len(),
{
    if rows.len() > 0 {
        let prev = rows.drop_last();
        lemma_width_is_capped_maximum(header, prev, i);
        assert forall|k: int| 0 <= k < rows.len() implies field_len(rows[k], i) <= column_max(header, rows, i) by {
            if k < prev.len() {
                assert(rows[k] == prev[k]);
            }
        }
        if column_max(header, rows, i) != header_field_len(header, i) {
            if field_len(rows.last(), i) > column_max(header, prev, i) {
                assert(field_len(rows[rows.len() - 1], i) == column_max(header, rows, i));
            } else {
                let k = choose|k: int| 0 <= k < prev.len() && field_len(prev[k], i) == column_max(header, prev, i);
                assert(rows[k] == prev[k]);
            }
        }
        if !column_fits(header, rows, i) {
            if header_field_len(header, i) <= MAX_WIDTH {
                let k = choose|k: int| 0 <= k < rows.len() && field_len(rows[k], i) > MAX_WIDTH;
            }
        }
    }
}

/// A field longer than `max_len` becomes exactly `max_len` characters: its
/// first `max_len - 3` characters, then "..."; a field no longer stays as
/// it is.
pub proof fn lemma_ellipsis_length(s: Seq<char>, max_len: nat)
    requires
        max_len >= 3,
    ensures
        s.len() > max_len ==> {
            &&& ellipsis_spec(s, max_len).len() == max_len
            &&& ellipsis_spec(s, max_len).take(max_len - 3) == s.take(max_len - 3)
            &&& ellipsis_spec(s, max_len).skip(max_len - 3) == seq!['.', '.', '.']
        },
        s.len() <= max_len ==> ellipsis_spec(s, max_len) == s,
{
    if s.len() > max_len {
        let e = ellipsis_spec(s, max_len);
        assert(e.take(max_len - 3) =~= s.take(max_len - 3));
        assert(e.skip(max_len - 3) =~= seq!['.', '.', '.']);
    }
}

} // verus!
