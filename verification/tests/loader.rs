use slam_viz::loader::CSV_FIELD_COUNT;
use slam_viz::{format_for_extension, scan_csv, CsvRow, PoseFormat};

fn records(content: &str) -> Vec<(usize, Vec<String>)> {
    scan_csv(content)
        .into_iter()
        .map(|r| match r {
            CsvRow::Record { line, fields } => (line, fields),
            CsvRow::TooFewFields { line, found } => panic!("line {} has {} fields", line, found),
        })
        .collect()
}

#[test]
fn test_csv_parse() {
    let csv = "0.0,0.0,0.0,0.0,0.0,0.0,0.0,1.0\n0.033,0.05,0.0,0.1,0.0,0.02,0.0,0.9998\n";
    let rows = records(csv);
    assert_eq!(rows.len(), 2);
    let values: Vec<f64> = rows[1].1.iter().map(|f| f.parse::<f64>().unwrap()).collect();
    assert_eq!(values, vec![0.033, 0.05, 0.0, 0.1, 0.0, 0.02, 0.0, 0.9998]);
}

#[test]
fn header_comments_and_blank_lines_are_skipped() {
    let csv = "timestamp,px,py,pz,qx,qy,qz,qw\n# a comment\n\n0.0,1.0,0.5,0.0,0.0,0.0,0.0,1.0\n   \n0.033,1.1,0.5,0.0,0.0,0.0,0.0,1.0";
    let rows = records(csv);
    assert_eq!(rows.len(), 2);
    assert_eq!(rows[0].0, 4);
    assert_eq!(rows[1].0, 6);
    assert_eq!(rows[1].1[1], "1.1");
}

#[test]
fn header_row_is_optional() {
    let body = "0.0,1.0,0.5,0.0,0.0,0.0,0.0,1.0\n0.033,1.1,0.5,0.0,0.0,0.0,0.0,1.0\n";
    let with_header = format!("timestamp,px,py,pz,qx,qy,qz,qw\n{}", body);
    let a = records(body);
    let b = records(&with_header);
    assert_eq!(a.len(), b.len());
    for (x, y) in a.iter().zip(b.iter()) {
        assert_eq!(x.0 + 1, y.0);
        assert_eq!(x.1, y.1);
    }
}

#[test]
fn fields_are_trimmed_and_extra_fields_ignored() {
    let rows = records("  1 , 2,3 ,4,5,6,7,8,9,10 \r\n");
    assert_eq!(rows.len(), 1);
    assert_eq!(rows[0].0, 1);
    assert_eq!(rows[0].1.len(), CSV_FIELD_COUNT);
    assert_eq!(rows[0].1, vec!["1", "2", "3", "4", "5", "6", "7", "8"]);
}

#[test]
fn short_line_is_reported_and_ends_the_scan() {
    let rows = scan_csv("1,2,3,4,5,6,7,8\n1,2,3\n1,2,3,4,5,6,7,8\n");
    assert_eq!(rows.len(), 2);
    match &rows[1] {
        CsvRow::TooFewFields { line, found } => {
            assert_eq!(*line, 2);
            assert_eq!(*found, 3);
        }
        other => panic!("unexpected row {:?}", other),
    }
}

#[test]
fn empty_fields_count_as_fields() {
    let rows = records("1,,,,,,,\n");
    assert_eq!(rows.len(), 1);
    assert_eq!(rows[0].1[0], "1");
    assert_eq!(rows[0].1[7], "");
}

#[test]
fn empty_file_has_no_rows() {
    assert!(scan_csv("").is_empty());
    assert!(scan_csv("\n\n# nothing\n").is_empty());
}

#[test]
fn unicode_whitespace_is_trimmed() {
    let rows = records("\u{3000}1,2,3,4,5,6,7,8\u{a0}\n");
    assert_eq!(rows[0].1[0], "1");
    assert_eq!(rows[0].1[7], "8");
}

#[test]
fn reader_follows_extension() {
    assert_eq!(format_for_extension(Some("json")), PoseFormat::Json);
    assert_eq!(format_for_extension(Some("csv")), PoseFormat::Csv);
    assert_eq!(format_for_extension(Some("CSV")), PoseFormat::JsonThenCsv);
    assert_eq!(format_for_extension(Some("txt")), PoseFormat::JsonThenCsv);
    assert_eq!(format_for_extension(None), PoseFormat::JsonThenCsv);
}

#[test]
fn files_are_read_line_by_line() {
    let a = "# poses\n0.0,1,2,3,0,0,0,1\n";
    let b = "0.5,4,5,6,0,0,0,1\n1.0,7,8,9,0,0,0,1";
    let joined = format!("{}\n{}", a, b);
    let first = records(a);
    let second = records(b);
    let all = records(&joined);
    let a_lines = a.split('\n').count();
    assert_eq!(all.len(), first.len() + second.len());
    assert_eq!(all[0], first[0]);
    assert_eq!(all[1].0, second[0].0 + a_lines);
    assert_eq!(all[2].1, second[1].1);
}
