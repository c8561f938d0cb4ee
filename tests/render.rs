use csvview::record::RecordSource;
use csvview::render::{ellipsis, get_width, pad_right, render_pretty, render_raw, MAX_WIDTH};
use csvview::select::{
    find_index_of_column, head, resolve_column, select_column, tail, ColumnLocator,
};
use csvview::error::ViewError;

fn row(fields: &[&str]) -> Vec<String> {
    fields.iter().map(|f| f.to_string()).collect()
}

fn rows(n: usize) -> Vec<Vec<String>> {
    (0..n).map(|i| row(&[&i.to_string(), &(i * 10).to_string()])).collect()
}

#[test]
fn ellipsis_of_twenty_five_characters() {
    let s = "abcdefghijklmnopqrstuvwxy";
    assert_eq!(s.chars().count(), 25);
    let e = ellipsis(s, 20);
    assert_eq!(e.chars().count(), 20);
    assert_eq!(e, "abcdefghijklmnopq...");
}

#[test]
fn ellipsis_keeps_short_text() {
    assert_eq!(ellipsis("", 20), "");
    assert_eq!(ellipsis("twenty characters!!!", 20), "twenty characters!!!");
    assert_eq!(ellipsis("short", 20), "short");
    assert_eq!(ellipsis("Supercalifragilisticexpialidocious", MAX_WIDTH), "Supercalifragilis...");
}

#[test]
fn ellipsis_counts_characters() {
    assert_eq!(ellipsis("ééééé", 4), "é...");
}

#[test]
fn padding() {
    assert_eq!(pad_right("ab".to_string(), 5), "ab   ");
    assert_eq!(pad_right("abcdef".to_string(), 3), "abcdef");
}

#[test]
fn widths_follow_longest_field() {
    let header = row(&["id", "name"]);
    let records = vec![row(&["1", "Ann"]), row(&["22", "Bartholomew-Fitzgerald", "extra"])];
    assert_eq!(get_width(&records, Some(&header)), vec![2, 20, 5]);
    assert_eq!(get_width(&records, None), vec![2, 20, 5]);
    assert_eq!(get_width(&vec![row(&["a"])], Some(&row(&["header"]))), vec![6]);
    assert_eq!(get_width(&Vec::new(), None), Vec::<usize>::new());
}

#[test]
fn widths_equal_maximum_when_all_fit() {
    let header = row(&["x", "yyyy"]);
    let records = vec![row(&["abc", "y"]), row(&["a", "yy"])];
    assert_eq!(get_width(&records, Some(&header)), vec![3, 4]);
}

#[test]
fn short_rows_render_fewer_cells() {
    let header = row(&["a", "b"]);
    let records = vec![row(&["1"])];
    assert_eq!(render_pretty(&records, Some(&header)), vec!["| a | b |", "+---+---+", "| 1 |"]);
    assert_eq!(render_raw(&records, Some(&header)), vec!["\"a\",\"b\"", "\"1\""]);
}

#[test]
fn head_is_a_prefix() {
    for n in 0..7 {
        let mut src = RecordSource::from_rows(None, rows(4));
        let got = head(&mut src, n);
        assert_eq!(got.len(), n.min(4));
        assert_eq!(got, rows(4)[..n.min(4)].to_vec());
    }
}

#[test]
fn tail_is_a_suffix() {
    for n in 0..7 {
        let mut src = RecordSource::from_rows(Some(row(&["a", "b"])), rows(4));
        let got = tail(&mut src, n);
        let k = n.min(4);
        assert_eq!(got, rows(4)[4 - k..].to_vec());
    }
}

#[test]
fn tail_then_head_start_over() {
    let mut src = RecordSource::from_rows(None, rows(5));
    assert_eq!(src.next_record(), Some(rows(5)[0].clone()));
    assert_eq!(tail(&mut src, 2), rows(5)[3..].to_vec());
    assert_eq!(head(&mut src, 2), rows(5)[..2].to_vec());
    assert!(src.has_next());
}

#[test]
fn find_first_matching_column() {
    let header = row(&["a", "b", "a"]);
    assert_eq!(find_index_of_column(&header, &"a".to_string()), Some(0));
    assert_eq!(find_index_of_column(&header, &"b".to_string()), Some(1));
    assert_eq!(find_index_of_column(&header, &"B".to_string()), None);
    assert_eq!(find_index_of_column(&header, &" b".to_string()), None);
}

#[test]
fn resolving_locators() {
    let header = row(&["a", "b"]);
    assert_eq!(resolve_column(Some(&header), &ColumnLocator::Index(2)), Ok(1));
    assert_eq!(resolve_column(None, &ColumnLocator::Index(7)), Ok(6));
    assert_eq!(resolve_column(None, &ColumnLocator::Index(0)), Err(ViewError::OutOfRange));
    assert_eq!(resolve_column(Some(&header), &ColumnLocator::Name("b".to_string())), Ok(1));
    assert_eq!(
        resolve_column(Some(&header), &ColumnLocator::Name("c".to_string())),
        Err(ViewError::ColumnNotFound)
    );
    assert_eq!(
        resolve_column(None, &ColumnLocator::Name("a".to_string())),
        Err(ViewError::MissingHeader)
    );
}

#[test]
fn selecting_a_column() {
    let header = row(&["a", "b"]);
    let records = vec![row(&["1", "2"]), row(&["3", "4"])];
    let (h, r) = select_column(&records, Some(&header), 1).unwrap();
    assert_eq!(h, Some(row(&["b"])));
    assert_eq!(r, vec![row(&["2"]), row(&["4"])]);
    let short = vec![row(&["1", "2"]), row(&["3"])];
    assert_eq!(select_column(&short, Some(&header), 1), Err(ViewError::OutOfRange));
    assert_eq!(select_column(&records, Some(&header), 2), Err(ViewError::OutOfRange));
}

#[test]
fn open_splits_off_the_header() {
    let mut src = RecordSource::open(b"h1,h2\n1,2\n", b',', true).unwrap();
    assert_eq!(src.headers(), Some(&row(&["h1", "h2"])));
    assert_eq!(src.next_record(), Some(row(&["1", "2"])));
    assert_eq!(src.next_record(), None);
    let src = RecordSource::open(b"", b',', true).unwrap();
    assert_eq!(src.headers(), Some(&Vec::new()));
    let src = RecordSource::open(b"h1,h2\n", b',', false).unwrap();
    assert_eq!(src.headers(), None);
    assert_eq!(src.rows(), &vec![row(&["h1", "h2"])]);
    assert!(RecordSource::open(b"\xff\xfe,1\n", b',', false).is_err());
}
