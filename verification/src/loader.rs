//! Pose files: which reader a file goes to, and the line structure of the
//! CSV format.
//!
//! A CSV pose file holds one pose per line,
//! `timestamp,px,py,pz,qx,qy,qz,qw`. Blank lines, lines starting with `#`
//! and a header line starting with `timestamp` are skipped; fields beyond
//! the eighth are ignored; a data line with fewer than eight fields ends the
//! file with an error that names the line (counted from 1). Turning the
//! eight field texts into numbers is left to the caller.
use vstd::prelude::*;
use crate::text::{
    char_views, chars_of, lemma_split_concat, lemma_split_without_sep, split_chars, split_on, trim,
    trim_chars,
};

verus! {

/// The number of fields a pose line carries.
pub const CSV_FIELD_COUNT: usize = 8;

/// One line of a CSV pose file that is not skipped.
#[derive(Debug)]
pub enum CsvRow {
    /// A pose line: its number (from 1) and its first eight fields, trimmed.
    Record { line: usize, fields: Vec<String> },
    /// A line with fewer than eight fields: its number and how many it had.
    TooFewFields { line: usize, found: usize },
}

/// What a `CsvRow` stands for.
pub enum CsvRowView {
    Record { line: nat, fields: Seq<Seq<char>> },
    TooFewFields { line: nat, found: nat },
}

/// The character sequences held by a sequence of strings.
pub open spec fn string_views(v: Seq<String>) -> Seq<Seq<char>> {
    Seq::new(v.len(), |i: int| v[i]@)
}

impl View for CsvRow {
    type V = CsvRowView;

    open spec fn view(&self) -> CsvRowView {
        match self {
            CsvRow::Record { line, fields } => CsvRowView::Record {
                line: *line as nat,
                fields: string_views(fields@),
            },
            CsvRow::TooFewFields { line, found } => CsvRowView::TooFewFields {
                line: *line as nat,
                found: *found as nat,
            },
        }
    }
}

/// The views of a sequence of rows.
pub open spec fn row_views(v: Seq<CsvRow>) -> Seq<CsvRowView> {
    Seq::new(v.len(), |i: int| v[i]@)
}

/// The word that starts a header line.
pub open spec fn header_word() -> Seq<char> {
    seq!['t', 'i', 'm', 'e', 's', 't', 'a', 'm', 'p']
}

/// Whether a trimmed line carries no pose: it is empty, a `#` comment, or
/// starts with `timestamp`.
pub open spec fn is_skipped(t: Seq<char>) -> bool {
    ||| t.len() == 0
    ||| t[0] == '#'
    ||| (t.len() >= 9 && t.take(9) == header_word())
}

/// The row that line number `number` with text `line` gives, if any.
pub open spec fn row_for_line(line: Seq<char>, number: nat) -> Option<CsvRowView> {
    let t = trim(line);
    let parts = split_on(t, ',');
    if is_skipped(t) {
        None
    } else if parts.len() < 8 {
        Some(CsvRowView::TooFewFields { line: number, found: parts.len() })
    } else {
        Some(
            CsvRowView::Record {
                line: number,
                fields: Seq::new(8, |i: int| trim(parts[i])),
            },
        )
    }
}

/// Whether the rows so far end with a rejected line, after which nothing is read.
pub open spec fn ends_in_error(rows: Seq<CsvRowView>) -> bool {
    rows.len() > 0 && rows.last() is TooFewFields
}

/// The rows of a file made of `lines`, in order, up to and including the
/// first line with too few fields.
pub open spec fn scan_lines(lines: Seq<Seq<char>>) -> Seq<CsvRowView>
    decreases lines.len(),
{
    if lines.len() == 0 {
        Seq::empty()
    } else {
        let prev = scan_lines(lines.drop_last());
        if ends_in_error(prev) {
            prev
        } else {
            match row_for_line(lines.last(), lines.len()) {
                None => prev,
                Some(r) => prev.push(r),
            }
        }
    }
}

/// The rows of a CSV pose file with text `content`.
pub open spec fn csv_rows(content: Seq<char>) -> Seq<CsvRowView> {
    scan_lines(split_on(content, '\n'))
}

/// `String::push`: appends the character `c` to `s`.
#[verifier::external_body]
fn string_push(s: &mut String, c: char)
    ensures
        final(s)@ == old(s)@.push(c),
{
    s.push(c);
}

/// A string holding the characters `chars`.
fn string_of(chars: &Vec<char>) -> (r: String)
    ensures
        r@ == chars@,
{
    let mut s = String::new();
    let mut i: usize = 0;
    while i < chars.len()
        invariant
            i <= chars@.len(),
            s@ == chars@.take(i as int),
        decreases chars@.len() - i,
    {
        string_push(&mut s, chars[i]);
        assert(chars@.take(i + 1) =~= chars@.take(i as int).push(chars@[i as int]));
        i = i + 1;
    }
    assert(chars@.take(chars@.len() as int) =~= chars@);
    s
}

fn starts_with_header(t: &Vec<char>) -> (r: bool)
    ensures
        r == (t@.len() >= 9 && t@.take(9) == header_word()),
{
    if t.len() < 9 {
        return false;
    }
    let r = t[0] == 't' && t[1] == 'i' && t[2] == 'm' && t[3] == 'e' && t[4] == 's' && t[5] == 't'
        && t[6] == 'a' && t[7] == 'm' && t[8] == 'p';
    proof {
        let w = header_word();
        if r {
            assert(t@.take(9) =~= w);
        } else if t@.take(9) == w {
            assert(t@.take(9)[0] == w[0] && t@.take(9)[1] == w[1] && t@.take(9)[2] == w[2]);
            assert(t@.take(9)[3] == w[3] && t@.take(9)[4] == w[4] && t@.take(9)[5] == w[5]);
            assert(t@.take(9)[6] == w[6] && t@.take(9)[7] == w[7] && t@.take(9)[8] == w[8]);
        }
    }
    r
}

/// The row that line number `number` with text `line` gives, if any.
fn scan_line(line: &Vec<char>, number: usize) -> (r: Option<CsvRow>)
    ensures
        match r {
            None => row_for_line(line@, number as nat) is None,
            Some(row) => row_for_line(line@, number as nat) == Some(row@),
        },
{
    let t = trim_chars(line.as_slice());
    if t.len() == 0 || t[0] == '#' || starts_with_header(&t) {
        return None;
    }
    let parts = split_chars(t.as_slice(), ',');
    if parts.len() < CSV_FIELD_COUNT {
        return Some(CsvRow::TooFewFields { line: number, found: parts.len() });
    }
    let mut fields: Vec<String> = Vec::new();
    let mut i: usize = 0;
    while i < CSV_FIELD_COUNT
        invariant
            i <= 8,
            parts@.len() >= 8,
            char_views(parts@) == split_on(t@, ','),
            fields@.len() == i,
            forall|k: int| 0 <= k < i ==> #[trigger] fields@[k]@ == trim(split_on(t@, ',')[k]),
        decreases 8 - i,
    {
        let piece = trim_chars(parts[i].as_slice());
        assert(parts@[i as int]@ == char_views(parts@)[i as int]);
        fields.push(string_of(&piece));
        i = i + 1;
    }
    let row = CsvRow::Record { line: number, fields };
    proof {
        let parts_spec = split_on(trim(line@), ',');
        assert(row@ == CsvRowView::Record {
            line: number as nat,
            fields: Seq::new(8, |k: int| trim(parts_spec[k])),
        }) by {
            assert(string_views(fields@) =~= Seq::new(8, |k: int| trim(parts_spec[k])));
        }
    }
    Some(row)
}

/// Splits the text of a CSV pose file into its rows: each pose line with its
/// number and its first eight fields trimmed, in order; the scan stops after
/// the first line with fewer than eight fields, which it reports.
pub fn scan_csv(content: &str) -> (r: Vec<CsvRow>)
    ensures
        row_views(r@) == csv_rows(content@),
{
    let chars = chars_of(content);
    let lines = split_chars(chars.as_slice(), '\n');
    let ghost line_views = char_views(lines@);
    let mut rows: Vec<CsvRow> = Vec::new();
    let mut stopped = false;
    let mut i: usize = 0;
    while i < lines.len()
        invariant
            i <= lines@.len(),
            line_views == char_views(lines@),
            line_views == split_on(content@, '\n'),
            row_views(rows@) == scan_lines(line_views.take(i as int)),
            stopped == ends_in_error(row_views(rows@)),
        decreases lines@.len() - i,
    {
        assert(line_views.take(i + 1).drop_last() =~= line_views.take(i as int));
        assert(line_views.take(i + 1).last() == lines@[i as int]@);
        if !stopped {
            let row = scan_line(&lines[i], i + 1);
            match row {
                None => {},
                Some(row) => {
                    let ghost before = row_views(rows@);
                    let is_error = match row {
                        CsvRow::TooFewFields { .. } => true,
                        CsvRow::Record { .. } => false,
                    };
                    rows.push(row);
                    assert(row_views(rows@) =~= before.push(rows@.last()@));
                    stopped = is_error;
                },
            }
        }
        i = i + 1;
    }
    assert(line_views.take(lines@.len() as int) =~= line_views);
    rows
}

/// The rows `rows` with every line number raised by `by`.
pub open spec fn renumber(rows: Seq<CsvRowView>, by: nat) -> Seq<CsvRowView> {
    Seq::new(
        rows.len(),
        |i: int|
            match rows[i] {
                CsvRowView::Record { line, fields } => CsvRowView::Record { line: line + by, fields },
                CsvRowView::TooFewFields { line, found } => CsvRowView::TooFewFields {
                    line: line + by,
                    found,
                },
            },
    )
}

/// A line that carries no pose (a header, a `#` comment or a blank line)
/// placed before the others changes nothing but the line numbers: the header
/// row is optional.
pub proof fn lemma_skipped_first_line(first: Seq<char>, lines: Seq<Seq<char>>)
    requires
        is_skipped(trim(first)),
    ensures
        scan_lines(seq![first] + lines) == renumber(scan_lines(lines), 1),
    decreases lines.len(),
{
    let all = seq![first] + lines;
    if lines.len() == 0 {
        assert(all.drop_last() =~= Seq::<Seq<char>>::empty());
        assert(all.last() == first);
        assert(scan_lines(all.drop_last()) =~= Seq::<CsvRowView>::empty());
        assert(row_for_line(first, 1) is None);
        assert(scan_lines(all) =~= Seq::<CsvRowView>::empty());
        assert(renumber(scan_lines(lines), 1) =~= Seq::<CsvRowView>::empty());
    } else {
        assert(all.drop_last() =~= seq![first] + lines.drop_last());
        lemma_skipped_first_line(first, lines.drop_last());
        let prev = scan_lines(lines.drop_last());
        let shifted = renumber(prev, 1);
        assert(all.last() == lines.last());
        if ends_in_error(prev) {
            assert(ends_in_error(shifted));
        } else {
            assert(!ends_in_error(shifted));
            assert(row_for_line(all.last(), all.len()) is None <==> row_for_line(lines.last(), lines.len()) is None);
            match row_for_line(lines.last(), lines.len()) {
                None => {},
                Some(r) => {
                    assert(row_for_line(all.last(), all.len()) == Some(renumber(seq![r], 1)[0]));
                    assert(renumber(prev.push(r), 1) =~= shifted.push(
                        renumber(seq![r], 1)[0],
                    ));
                },
            }
        }
    }
}

/// A file is read line by line: the rows of `first` followed by `rest` are
/// the rows of `first`, then, unless `first` ended in a rejected line, the
/// rows of `rest` numbered after the lines of `first`.
pub proof fn lemma_scan_concat(first: Seq<Seq<char>>, rest: Seq<Seq<char>>)
    ensures
        scan_lines(first + rest) == if ends_in_error(scan_lines(first)) {
            scan_lines(first)
        } else {
            scan_lines(first) + renumber(scan_lines(rest), first.len())
        },
    decreases rest.len(),
{
    let all = first + rest;
    let head = scan_lines(first);
    if rest.len() == 0 {
        assert(all =~= first);
        assert(head + renumber(scan_lines(rest), first.len()) =~= head);
    } else {
        let rest1 = rest.drop_last();
        assert(all.drop_last() =~= first + rest1);
        assert(all.last() == rest.last());
        lemma_scan_concat(first, rest1);
        if !ends_in_error(head) {
            let tail1 = scan_lines(rest1);
            let shifted = renumber(tail1, first.len());
            assert(ends_in_error(head + shifted) == ends_in_error(tail1)) by {
                if tail1.len() > 0 {
                    assert((head + shifted).last() == shifted.last());
                } else {
                    assert(head + shifted =~= head);
                }
            }
            if !ends_in_error(tail1) {
                match row_for_line(rest.last(), rest.len()) {
                    None => {
                        assert(row_for_line(all.last(), all.len()) is None);
                    },
                    Some(r) => {
                        let moved = renumber(seq![r], first.len())[0];
                        assert(row_for_line(all.last(), all.len()) == Some(moved));
                        assert((head + shifted).push(moved) =~= head + renumber(
                            tail1.push(r),
                            first.len(),
                        ));
                    },
                }
            }
        }
    }
}

/// The rows of a file whose text is `a`, a line break and `b`: those of `a`,
/// then (unless `a` ended in a rejected line) those of `b`, numbered after
/// the lines of `a`.
pub proof fn lemma_csv_rows_concat(a: Seq<char>, b: Seq<char>)
    ensures
        csv_rows(a + seq!['\n'] + b) == if ends_in_error(csv_rows(a)) {
            csv_rows(a)
        } else {
            csv_rows(a) + renumber(csv_rows(b), split_on(a, '\n').len())
        },
{
    lemma_split_concat(a, b, '\n');
    lemma_scan_concat(split_on(a, '\n'), split_on(b, '\n'));
}

/// A file of one line `l` (no line break): a blank line, a `#` comment or a
/// line starting with `timestamp` gives no row; a line of fewer than eight
/// comma-separated fields is rejected as line 1 with its field count; any
/// other line is the record of line 1 whose fields are its first eight
/// comma-separated pieces, trimmed.
pub proof fn lemma_single_line(l: Seq<char>)
    requires
        forall|k: int| 0 <= k < l.len() ==> #[trigger] l[k] != '\n',
    ensures
        ({
            let t = trim(l);
            let pieces = split_on(t, ',');
            &&& t.len() == 0 ==> csv_rows(l).len() == 0
            &&& t.len() > 0 && t[0] == '#' ==> csv_rows(l).len() == 0
            &&& t.len() >= 9 && t.take(9) == seq!['t', 'i', 'm', 'e', 's', 't', 'a', 'm', 'p']
                ==> csv_rows(l).len() == 0
            &&& !is_skipped(t) && pieces.len() < 8 ==> csv_rows(l) == seq![
                CsvRowView::TooFewFields { line: 1, found: pieces.len() },
            ]
            &&& !is_skipped(t) && pieces.len() >= 8 ==> (csv_rows(l).len() == 1 && (csv_rows(l)[0] matches CsvRowView::Record {
                line,
                fields,
            } && line == 1 && fields.len() == 8 && forall|i: int|
                0 <= i < 8 ==> #[trigger] fields[i] == trim(pieces[i])))
        }),
{
    lemma_split_without_sep(l, '\n');
    let lines = seq![l];
    assert(lines.drop_last() =~= Seq::<Seq<char>>::empty());
    assert(scan_lines(lines.drop_last()) =~= Seq::<CsvRowView>::empty());
    assert(lines.last() == l);
}

/// Every pose line gives a record of exactly eight fields, line numbers
/// increase and stay within the file, and only the last row can report a
/// line with too few fields.
pub proof fn lemma_rows_well_formed(lines: Seq<Seq<char>>)
    ensures
        forall|i: int|
            0 <= i < scan_lines(lines).len() - 1 ==> #[trigger] scan_lines(lines)[i] is Record,
        forall|i: int|
            0 <= i < scan_lines(lines).len() ==> (#[trigger] scan_lines(lines)[i] matches CsvRowView::Record { fields, .. } ==> fields.len() == 8),
        forall|i: int|
            0 <= i < scan_lines(lines).len() ==> 1 <= row_line(#[trigger] scan_lines(lines)[i])
                <= lines.len(),
        forall|i: int, j: int|
            0 <= i < j < scan_lines(lines).len() ==> row_line(#[trigger] scan_lines(lines)[i])
                < row_line(#[trigger] scan_lines(lines)[j]),
    decreases lines.len(),
{
    if lines.len() > 0 {
        lemma_rows_well_formed(lines.drop_last());
    }
}

/// The line number a row reports.
pub open spec fn row_line(r: CsvRowView) -> nat {
    match r {
        CsvRowView::Record { line, .. } => line,
        CsvRowView::TooFewFields { line, .. } => line,
    }
}

/// Which reader a pose file goes to.
#[derive(Clone, Copy, Debug, PartialEq, Eq, Structural)]
pub enum PoseFormat {
    /// A JSON array of poses.
    Json,
    /// CSV lines, as `scan_csv` reads them.
    Csv,
    /// Unknown: JSON is tried first, and CSV when JSON fails.
    JsonThenCsv,
}

/// The reader for a file whose extension is `ext` (`None` when it has none).
pub open spec fn format_for(ext: Option<Seq<char>>) -> PoseFormat {
    if ext == Some(seq!['j', 's', 'o', 'n']) {
        PoseFormat::Json
    } else if ext == Some(seq!['c', 's', 'v']) {
        PoseFormat::Csv
    } else {
        PoseFormat::JsonThenCsv
    }
}

/// Chooses the reader from a file's extension: `json` and `csv` (exact,
/// case-sensitive) name their format; anything else, or no extension,
/// tries JSON and then CSV.
pub fn format_for_extension(ext: Option<&str>) -> (r: PoseFormat)
    ensures
        r == format_for(
            match ext {
                Some(e) => Some(e@),
                None => None,
            },
        ),
        ext is None ==> r == PoseFormat::JsonThenCsv,
        ext matches Some(e) && e@.len() == 4 && e@[0] == 'j' && e@[1] == 's' && e@[2] == 'o'
            && e@[3] == 'n' ==> r == PoseFormat::Json,
        ext matches Some(e) && e@.len() == 3 && e@[0] == 'c' && e@[1] == 's' && e@[2] == 'v'
            ==> r == PoseFormat::Csv,
        r == PoseFormat::Json ==> (ext matches Some(e) && e@.len() == 4 && e@[0] == 'j' && e@[1]
            == 's' && e@[2] == 'o' && e@[3] == 'n'),
        r == PoseFormat::Csv ==> (ext matches Some(e) && e@.len() == 3 && e@[0] == 'c' && e@[1]
            == 's' && e@[2] == 'v'),
{
    match ext {
        None => PoseFormat::JsonThenCsv,
        Some(e) => {
            let c = chars_of(e);
            if c.len() == 4 && c[0] == 'j' && c[1] == 's' && c[2] == 'o' && c[3] == 'n' {
                assert(c@ =~= seq!['j', 's', 'o', 'n']);
                PoseFormat::Json
            } else if c.len() == 3 && c[0] == 'c' && c[1] == 's' && c[2] == 'v' {
                assert(c@ =~= seq!['c', 's', 'v']);
                proof {
                    if c@ == seq!['j', 's', 'o', 'n'] {
                        assert(c@.len() == 4);
                    }
                }
                PoseFormat::Csv
            } else {
                proof {
                    let j = seq!['j', 's', 'o', 'n'];
                    let v = seq!['c', 's', 'v'];
                    if c@ == j {
                        assert(c@[0] == j[0] && c@[1] == j[1] && c@[2] == j[2] && c@[3] == j[3]);
                    }
                    if c@ == v {
                        assert(c@[0] == v[0] && c@[1] == v[1] && c@[2] == v[2]);
                    }
                }
                PoseFormat::JsonThenCsv
            }
        },
    }
}

} // verus!
