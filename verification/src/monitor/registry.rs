//! The vendor registry: a table of three-letter manufacturer codes and company names.
//!
//! The table is a CSV text with a header row. Its `Company` column holds the
//! names and its `PNP ID` column the codes; further columns are ignored.

use vstd::prelude::*;

verus! {

/// The built-in vendor table: an excerpt of the UEFI PNP ID registry.
pub const EDID_PNP_TABLE: &'static str = "Company,PNP ID\n\
Ancor Communications Inc,ACI\n\
Acer Technologies,ACR\n\
AOC International (USA) Ltd.,AOC\n\
Apple Computer Inc,APP\n\
AU Optronics,AUO\n\
BenQ Corporation,BNQ\n\
BOE,BOE\n\
Chimei Innolux Corporation,CMN\n\
Dell Inc.,DEL\n\
Fujitsu Siemens Computers GmbH,FUS\n\
Goldstar Company Ltd,GSM\n\
HP Inc.,HPN\n\
Hewlett Packard,HWP\n\
Iiyama North America,IVM\n\
Lenovo Group Limited,LEN\n\
LG Display,LGD\n\
Panasonic Industry Company,MEI\n\
NEC Corporation,NEC\n\
Philips Consumer Electronics Company,PHL\n\
Samsung Electric Company,SAM\n\
Samsung Display Corp.,SDC\n\
Seiko Epson Corporation,SEC\n\
Sharp Corporation,SHP\n\
Sony,SNY\n\
Toshiba Corporation,TOS\n\
ViewSonic Corporation,VSC\n";

/// The name given to a manufacturer whose code the table does not hold.
pub const DEFAULT_MANUFACTURER_NAME: &'static str = "Unknown Manufacturer";

/// The title of the column that holds the company names.
pub const NAME_COLUMN: &'static str = "Company";

/// The title of the column that holds the manufacturer codes.
pub const ID_COLUMN: &'static str = "PNP ID";

/// The fields of a table's first row, as `csv::Reader::headers` reports them
/// for a reader with a header row, `,` as delimiter and doubled quotes;
/// `None` where it reports an error.
pub uninterp spec fn csv_header(table: Seq<char>) -> Option<Seq<Seq<char>>>;

/// The rows after the first, in the order of the text, as the iterator of
/// `csv::Reader::records` yields them for such a reader: the fields of each
/// row, or `None` for a row that it reports as an error.
pub uninterp spec fn csv_records(table: Seq<char>) -> Seq<Option<Seq<Seq<char>>>>;

/// Calls `csv::Reader::headers` on a reader over `table`, built with a
/// header row, `,` as delimiter and doubled quotes. Nothing is proved of the
/// call: the contract only gives its result a name, the header's fields as
/// strings, or `None` for an error.
#[verifier::external_body]
fn read_header(table: &str) -> (header: Option<Vec<String>>)
    ensures
        header.deep_view() == csv_header(table@),
{
    let mut reader = csv::ReaderBuilder::new()
        .has_headers(true)
        .delimiter(b',')
        .double_quote(true)
        .from_reader(table.as_bytes());
    reader.headers().ok().map(|record| record.iter().map(String::from).collect())
}

/// Calls `csv::Reader::records` on a reader over `table`, built in the same
/// way, and walks the iterator to its end. Nothing is proved of the call:
/// the contract only gives its result a name, for each row its fields as
/// strings, or `None` for a row that gave an error.
#[verifier::external_body]
fn read_records(table: &str) -> (rows: Vec<Option<Vec<String>>>)
    ensures
        rows.deep_view() == csv_records(table@),
{
    let mut reader = csv::ReaderBuilder::new()
        .has_headers(true)
        .delimiter(b',')
        .double_quote(true)
        .from_reader(table.as_bytes());
    reader
        .records()
        .map(|row| row.ok().map(|record| record.iter().map(String::from).collect()))
        .collect()
}

/// Whether `index` is the one and only column of `header` titled `title`.
pub open spec fn is_column(header: Seq<Seq<char>>, title: Seq<char>, index: int) -> bool {
    &&& 0 <= index < header.len()
    &&& header[index] == title
    &&& forall|other: int| 0 <= other < header.len() && header[other] == title ==> other == index
}

/// The column titled `title`, if the header has exactly one.
pub open spec fn column_of(header: Seq<Seq<char>>, title: Seq<char>) -> Option<int> {
    if exists|index: int| is_column(header, title, index) {
        Some(choose|index: int| is_column(header, title, index))
    } else {
        None
    }
}

/// An entry of the registry: a company's name and its code.
pub struct EntryView {
    pub name: Seq<char>,
    pub id: Seq<char>,
}

/// The entry that a row stands for. A row is an entry when the header was
/// read without error and has exactly one name column and exactly one code
/// column, and the row was read without error and has a field for every
/// column of the header. Every other row is skipped.
pub open spec fn row_entry(header: Option<Seq<Seq<char>>>, row: Option<Seq<Seq<char>>>) -> Option<
    EntryView,
> {
    match (header, row) {
        (Some(titles), Some(fields)) => match (
            column_of(titles, NAME_COLUMN@),
            column_of(titles, ID_COLUMN@),
        ) {
            (Some(name_at), Some(id_at)) if titles.len() <= fields.len() => Some(
                EntryView { name: fields[name_at], id: fields[id_at] },
            ),
            _ => None,
        },
        _ => None,
    }
}

/// Whether row `index` is an entry for `code`.
pub open spec fn row_matches(
    header: Option<Seq<Seq<char>>>,
    rows: Seq<Option<Seq<Seq<char>>>>,
    code: Seq<char>,
    index: int,
) -> bool {
    &&& 0 <= index < rows.len()
    &&& row_entry(header, rows[index]) matches Some(entry) && entry.id == code
}

/// Whether row `index` is the first entry for `code`.
pub open spec fn is_first_match(
    header: Option<Seq<Seq<char>>>,
    rows: Seq<Option<Seq<Seq<char>>>>,
    code: Seq<char>,
    index: int,
) -> bool {
    &&& row_matches(header, rows, code, index)
    &&& forall|earlier: int| 0 <= earlier < index ==> !row_matches(header, rows, code, earlier)
}

/// The name that the table gives to `code`: that of the first entry whose
/// code is exactly `code`, or the placeholder where there is none.
pub open spec fn lookup_name(
    header: Option<Seq<Seq<char>>>,
    rows: Seq<Option<Seq<Seq<char>>>>,
    code: Seq<char>,
) -> Seq<char> {
    if exists|index: int| is_first_match(header, rows, code, index) {
        let index = choose|index: int| is_first_match(header, rows, code, index);
        row_entry(header, rows[index])->0.name
    } else {
        DEFAULT_MANUFACTURER_NAME@
    }
}

/// The name that the CSV text `table` gives to `code`.
pub open spec fn registry_name(table: Seq<char>, code: Seq<char>) -> Seq<char> {
    lookup_name(csv_header(table), csv_records(table), code)
}

/// Finds the column titled `title`, if the header has exactly one.
pub fn find_column(header: &Vec<String>, title: &str) -> (column: Option<usize>)
    ensures
        match column {
            Some(index) => column_of(header.deep_view(), title@) == Some(index as int),
            None => column_of(header.deep_view(), title@) is None,
        },
{
    let wanted: String = title.to_owned();
    let ghost titles = header.deep_view();
    let mut found: Option<usize> = None;
    let mut twice: bool = false;
    let mut at: usize = 0;
    while at < header.len()
        invariant
            at <= header.len(),
            titles == header.deep_view(),
            wanted@ == title@,
            found matches Some(index) ==> index < at && titles[index as int] == title@,
            found is None ==> !twice && forall|k: int| 0 <= k < at ==> titles[k] != title@,
            !twice && found is Some ==> forall|k: int|
                0 <= k < at && titles[k] == title@ ==> k == found->0,
            twice ==> exists|k: int, l: int|
                0 <= k < l < at && titles[k] == title@ && titles[l] == title@,
        decreases header.len() - at,
    {
        if header[at] == wanted {
            if found.is_some() {
                twice = true;
                assert(titles[found->0 as int] == title@ && titles[at as int] == title@);
            } else {
                found = Some(at);
            }
        }
        at += 1;
    }
    if twice {
        None
    } else {
        proof {
            if let Some(index) = found {
                assert(is_column(titles, title@, index as int));
            }
        }
        found
    }
}

/// Scans `rows`, as read under `header`, for the first entry whose code is
/// exactly `code`, and gives its name, or the placeholder where no entry
/// has that code.
pub fn lookup_in_rows(
    header: &Option<Vec<String>>,
    rows: &Vec<Option<Vec<String>>>,
    code: &str,
) -> (name: String)
    ensures
        name@ == lookup_name(header.deep_view(), rows.deep_view(), code@),
{
    let ghost titles = header.deep_view();
    let ghost lines = rows.deep_view();
    if let Some(columns) = header {
        let name_column = find_column(columns, NAME_COLUMN);
        let id_column = find_column(columns, ID_COLUMN);
        if let (Some(name_at), Some(id_at)) = (name_column, id_column) {
            let wanted: String = code.to_owned();
            let mut at: usize = 0;
            while at < rows.len()
                invariant
                    at <= rows.len(),
                    titles == header.deep_view(),
                    lines == rows.deep_view(),
                    *header == Some(*columns),
                    wanted@ == code@,
                    column_of(columns.deep_view(), NAME_COLUMN@) == Some(name_at as int),
                    column_of(columns.deep_view(), ID_COLUMN@) == Some(id_at as int),
                    name_at < columns.len(),
                    id_at < columns.len(),
                    forall|earlier: int|
                        0 <= earlier < at ==> !row_matches(titles, lines, code@, earlier),
                decreases rows.len() - at,
            {
                if let Some(fields) = &rows[at] {
                    if columns.len() <= fields.len() {
                        if fields[id_at] == wanted {
                            proof {
                                lemma_lookup_gives_first_entry(titles, lines, code@, at as int);
                            }
                            return fields[name_at].clone();
                        }
                    }
                }
                at += 1;
            }
        }
    }
    DEFAULT_MANUFACTURER_NAME.to_owned()
}

/// Looks `code` up in the CSV text `table`: the name of the first entry
/// whose code is exactly `code`, or the placeholder where no entry has it.
pub fn lookup(table: &str, code: &str) -> (name: String)
    ensures
        name@ == registry_name(table@, code@),
{
    let header = read_header(table);
    let rows = read_records(table);
    lookup_in_rows(&header, &rows, code)
}

/// A code that the table holds gets the name of its first entry: where row
/// `index` is the first entry for `code`, the lookup gives that row's name.
pub proof fn lemma_lookup_gives_first_entry(
    header: Option<Seq<Seq<char>>>,
    rows: Seq<Option<Seq<Seq<char>>>>,
    code: Seq<char>,
    index: int,
)
    requires
        is_first_match(header, rows, code, index),
    ensures
        lookup_name(header, rows, code) == row_entry(header, rows[index])->0.name,
{
}

/// A code that the table does not hold gets the placeholder. Codes are
/// compared character by character, so an entry whose code differs from
/// `code` in the case of a letter is no entry for it.
pub proof fn lemma_lookup_without_entry(
    header: Option<Seq<Seq<char>>>,
    rows: Seq<Option<Seq<Seq<char>>>>,
    code: Seq<char>,
)
    requires
        forall|index: int|
            0 <= index < rows.len() && row_entry(header, rows[index]) is Some ==> row_entry(
                header,
                rows[index],
            )->0.id != code,
    ensures
        lookup_name(header, rows, code) == DEFAULT_MANUFACTURER_NAME@,
{
}

/// Of two entries with the same code the earlier one wins: where rows
/// `first` and `second` are both entries for `code` and no row before
/// `first` is, the lookup gives the name of row `first`.
pub proof fn lemma_earlier_entry_wins(
    header: Option<Seq<Seq<char>>>,
    rows: Seq<Option<Seq<Seq<char>>>>,
    code: Seq<char>,
    first: int,
    second: int,
)
    requires
        first < second,
        row_matches(header, rows, code, first),
        row_matches(header, rows, code, second),
        forall|earlier: int| 0 <= earlier < first ==> !row_matches(header, rows, code, earlier),
    ensures
        lookup_name(header, rows, code) == row_entry(header, rows[first])->0.name,
{
    lemma_lookup_gives_first_entry(header, rows, code, first);
}

/// Rows that follow an entry for `code` never change what the lookup gives
/// for it.
pub proof fn lemma_later_rows_do_not_matter(
    header: Option<Seq<Seq<char>>>,
    rows: Seq<Option<Seq<Seq<char>>>>,
    more: Seq<Option<Seq<Seq<char>>>>,
    code: Seq<char>,
    index: int,
)
    requires
        row_matches(header, rows, code, index),
    ensures
        lookup_name(header, rows + more, code) == lookup_name(header, rows, code),
{
    let first = first_match_up_to(header, rows, code, index);
    lemma_lookup_gives_first_entry(header, rows, code, first);
    let longer = rows + more;
    assert forall|at: int| 0 <= at < rows.len() implies longer[at] == rows[at] by {}
    assert forall|earlier: int| 0 <= earlier < first implies !row_matches(
        header,
        longer,
        code,
        earlier,
    ) by {
        assert(!row_matches(header, rows, code, earlier));
    }
    lemma_lookup_gives_first_entry(header, longer, code, first);
}

/// The first entry for `code` among the rows up to `index`, which is one.
proof fn first_match_up_to(
    header: Option<Seq<Seq<char>>>,
    rows: Seq<Option<Seq<Seq<char>>>>,
    code: Seq<char>,
    index: int,
) -> (first: int)
    requires
        row_matches(header, rows, code, index),
    ensures
        0 <= first <= index,
        is_first_match(header, rows, code, first),
    decreases index,
{
    if exists|earlier: int| 0 <= earlier < index && row_matches(header, rows, code, earlier) {
        let earlier = choose|earlier: int|
            0 <= earlier < index && row_matches(header, rows, code, earlier);
        first_match_up_to(header, rows, code, earlier)
    } else {
        index
    }
}

} // verus!
