//! What the page's panels show, decided from the page state.
use vstd::prelude::*;
use crate::text::{concat3, nat_decimal, str_equal, usize_text};

verus! {

/// What follows the first `:` in `key`, or nothing when it has none.
pub open spec fn after_first_colon(key: Seq<char>) -> Seq<char>
    decreases key.len(),
{
    if key.len() == 0 {
        seq![]
    } else if key[0] == ':' {
        key.drop_first()
    } else {
        after_first_colon(key.drop_first())
    }
}

/// `s` holds no `:`.
pub open spec fn colon_free(s: Seq<char>) -> bool {
    forall|k: int| 0 <= k < s.len() ==> s[k] != ':'
}

/// The key under which a column of a table is rendered: `TABLE:COLUMN`.
pub fn column_key(table: &str, column: &str) -> (key: String)
    ensures
        key@ == table@ + seq![':'] + column@,
{
    let k = concat3(table, ":", column);
    proof {
        reveal_strlit(":");
    }
    k
}

/// The column name shown for a column key: what follows its first `:`
/// (nothing when it has none).
pub fn column_label(key: &str) -> (label: String)
    ensures
        label@ == after_first_colon(key@),
{
    let n = key.unicode_len();
    let mut i: usize = 0;
    assert(key@.subrange(0, n as int) =~= key@);
    while i < n
        invariant
            n == key@.len(),
            i <= n,
            after_first_colon(key@) == after_first_colon(key@.subrange(i as int, n as int)),
        decreases n - i,
    {
        let ghost rest = key@.subrange(i as int, n as int);
        assert(rest[0] == key@[i as int]);
        assert(rest.drop_first() =~= key@.subrange(i + 1, n as int));
        if key.get_char(i) == ':' {
            return String::from_str(key.substring_char(i + 1, n));
        }
        i += 1;
    }
    String::new()
}

/// The key under which row `index` of a table is rendered: `TABLE:INDEX`.
pub fn row_key(table: &str, index: usize) -> (key: String)
    ensures
        key@ == table@ + seq![':'] + nat_decimal(index as nat),
{
    let digits = usize_text(index);
    let k = concat3(table, ":", digits.as_str());
    proof {
        reveal_strlit(":");
    }
    k
}

/// The line under a grid: `ROWS rows × COLUMNS columns`.
pub open spec fn footer_text(rows: nat, columns: nat) -> Seq<char> {
    nat_decimal(rows) + " rows × "@ + nat_decimal(columns) + " columns"@
}

/// The line under a grid with `rows` rows and `columns` columns.
pub fn grid_footer(rows: usize, columns: usize) -> (line: String)
    ensures
        line@ == footer_text(rows as nat, columns as nat),
{
    let r = usize_text(rows);
    let c = usize_text(columns);
    let mut line = concat3(r.as_str(), " rows × ", c.as_str());
    line.append(" columns");
    line
}

/// The name shown for the database in the breadcrumb: its file name, or
/// `database` when none is known.
pub fn breadcrumb_db_name(db_filename: &Option<String>) -> (name: String)
    ensures
        name@ == match *db_filename {
            Some(f) => f@,
            None => "database"@,
        },
{
    match db_filename {
        Some(f) => f.clone(),
        None => String::from_str("database"),
    }
}

/// The title of the table panel: the selected table's name, or nothing.
pub fn table_title(selected_table: &Option<String>) -> (title: String)
    ensures
        title@ == match *selected_table {
            Some(t) => t@,
            None => Seq::<char>::empty(),
        },
{
    match selected_table {
        Some(t) => t.clone(),
        None => String::new(),
    }
}

/// Whether the bundled database `name` is the one in use.
pub fn is_active_db(db_filename: &Option<String>, name: &str) -> (b: bool)
    ensures
        b == (*db_filename matches Some(f) && f@ == name@),
{
    match db_filename {
        Some(f) => str_equal(f.as_str(), name),
        None => false,
    }
}

/// Whether table `name` is the one on display.
pub fn is_selected_table(selected_table: &Option<String>, name: &str) -> (b: bool)
    ensures
        b == (*selected_table matches Some(t) && t@ == name@),
{
    match selected_table {
        Some(t) => str_equal(t.as_str(), name),
        None => false,
    }
}

/// What the main area shows.
#[derive(Clone, Copy, PartialEq, Eq, Debug, Structural)]
pub enum MainArea {
    /// The invitation to load a database.
    Landing,
    /// The browse and query panels.
    Panels,
}

/// The main area shows the panels once a database is loaded.
pub fn main_area(db_loaded: bool) -> (a: MainArea)
    ensures
        a == (if db_loaded { MainArea::Panels } else { MainArea::Landing }),
{
    if db_loaded {
        MainArea::Panels
    } else {
        MainArea::Landing
    }
}

/// What the browse panel shows.
#[derive(Clone, Copy, PartialEq, Eq, Debug, Structural)]
pub enum TablePanel {
    /// The invitation to pick a table.
    NoSelection,
    /// The table's header and the words "No data".
    NoData,
    /// The table's header and its rows.
    Grid,
}

/// The browse panel: nothing until a table is selected, then the grid, or
/// "No data" when the table came back without columns.
pub fn table_panel(selected_table: &Option<String>, table_columns: &Vec<String>) -> (p: TablePanel)
    ensures
        p == (if *selected_table is None {
            TablePanel::NoSelection
        } else if table_columns@.len() == 0 {
            TablePanel::NoData
        } else {
            TablePanel::Grid
        }),
{
    if selected_table.is_none() {
        TablePanel::NoSelection
    } else if table_columns.len() == 0 {
        TablePanel::NoData
    } else {
        TablePanel::Grid
    }
}

/// What the query panel shows below the editor.
#[derive(Clone, Copy, PartialEq, Eq, Debug, Structural)]
pub enum QueryBody {
    /// The result grid.
    Grid,
    /// The hint "Run a query to see results."
    Hint,
    /// Nothing.
    Blank,
}

/// The query panel: the error bar whenever there is a query error; the grid
/// when the last result has columns, else the hint when there is no error,
/// else nothing.
pub fn query_panel(query_error: &Option<String>, query_columns: &Vec<String>) -> (r: (
    bool,
    QueryBody,
))
    ensures
        r.0 == *query_error is Some,
        r.1 == (if query_columns@.len() != 0 {
            QueryBody::Grid
        } else if *query_error is None {
            QueryBody::Hint
        } else {
            QueryBody::Blank
        }),
{
    let show_error = query_error.is_some();
    let body = if query_columns.len() != 0 {
        QueryBody::Grid
    } else if query_error.is_none() {
        QueryBody::Hint
    } else {
        QueryBody::Blank
    };
    (show_error, body)
}

} // verus!
