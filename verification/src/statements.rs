//! The statements that set the trips table up.
//!
//! Both statements are put together from the schema, so the columns that a
//! statement declares are the columns that records are decoded from. What a
//! statement holds is given by a spec function of the same shape; the
//! functions that build the text are proved against it.

use vstd::prelude::*;
use crate::record::NycTripsTable;
use crate::schema::{storage_columns, storage_schema, Column};
use crate::seed::{SEED_ROWS, SEED_ROW_COUNT};

verus! {

/// The name of the stored table.
pub const TABLE_NAME: &'static str = "nyc_trips";

/// The name of the virtual table.
pub const FOREIGN_TABLE_NAME: &'static str = "trips";

/// The connector that reads from object storage, with its two functions.
pub const CONNECTOR_NAME: &'static str = "s3_wrapper";

pub const CONNECTOR_HANDLER: &'static str = "s3_fdw_handler";

pub const CONNECTOR_VALIDATOR: &'static str = "s3_fdw_validator";

/// The server that the virtual table is bound to, and its fixed options.
pub const SERVER_NAME: &'static str = "s3_server";

pub const SERVER_REGION: &'static str = "us-east-1";

pub const SERVER_ALLOW_ANONYMOUS: &'static str = "true";

/// The format of the file behind the virtual table.
pub const CONTAINER_FORMAT: &'static str = "parquet";

/// The width, in characters, of a quoted column name and the blanks that
/// follow it in a table definition.
pub const NAME_FIELD_WIDTH: usize = 24;

/// The line that goes before the columns which a virtual table leaves out.
pub const OMITTED_NOTICE: &'static str =
    "-- Commented out until serde-arrow serialization issue is addressed.";

/// How far the lines of the stored table's columns are indented, and those
/// of the virtual table's clauses and columns.
pub const STORED_COLUMN_INDENT: usize = 4;

pub const FOREIGN_CLAUSE_INDENT: usize = 8;

pub const FOREIGN_COLUMN_INDENT: usize = 12;

/// `n` blanks.
pub open spec fn blanks(n: nat) -> Seq<char> {
    Seq::new(n, |i: int| ' ')
}

/// `name` in double quotes.
pub open spec fn quoted(name: Seq<char>) -> Seq<char> {
    "\""@ + name + "\""@
}

/// How many blanks follow the quoted name of a column in a table
/// definition: as many as fill the name field, and one at least.
pub open spec fn padding(name: Seq<char>) -> nat {
    if name.len() + 2 < NAME_FIELD_WIDTH {
        (NAME_FIELD_WIDTH - 2 - name.len()) as nat
    } else {
        1
    }
}

/// One column as a table definition declares it: the quoted name, blanks up
/// to the type, and the type.
pub open spec fn column_definition(c: Column) -> Seq<char> {
    quoted(c.external_name_text()) + blanks(padding(c.external_name_text()))
        + c.spec_sql_type().keyword_text()
}

/// Whether column `i` of `cols` is temporal and the one before it is not.
pub open spec fn opens_temporal_run(cols: Seq<Column>, i: int) -> bool {
    cols[i].spec_is_temporal() && (i == 0 || !cols[i - 1].spec_is_temporal())
}

/// The line of column `i` in a table definition, with the notice before it
/// where one is due. Every line but the last ends in a comma. Where
/// `omit_temporal` is set, a temporal column is declared in a comment only,
/// and the first of each run of them follows the notice.
pub open spec fn column_entry(
    cols: Seq<Column>,
    i: int,
    indent: nat,
    omit_temporal: bool,
) -> Seq<char> {
    let omitted = omit_temporal && cols[i].spec_is_temporal();
    let notice = if omit_temporal && opens_temporal_run(cols, i) {
        blanks(indent) + OMITTED_NOTICE@ + "\n"@
    } else {
        Seq::<char>::empty()
    };
    let mark = if omitted {
        "-- "@
    } else {
        ""@
    };
    let end = if i + 1 < cols.len() {
        ","@
    } else {
        ""@
    };
    notice + blanks(indent) + mark + column_definition(cols[i]) + end + "\n"@
}

/// The lines of the first `n` columns of `cols` in a table definition.
pub open spec fn column_entries(
    cols: Seq<Column>,
    n: int,
    indent: nat,
    omit_temporal: bool,
) -> Seq<char>
    decreases n,
{
    if n <= 0 {
        Seq::<char>::empty()
    } else {
        column_entries(cols, n - 1, indent, omit_temporal) + column_entry(
            cols,
            n - 1,
            indent,
            omit_temporal,
        )
    }
}

fn push_blanks(s: &mut String, n: usize)
    ensures
        final(s)@ == old(s)@ + blanks(n as nat),
{
    let mut k: usize = 0;
    assert(s@ =~= old(s)@ + blanks(0));
    while k < n
        invariant
            k <= n,
            s@ == old(s)@ + blanks(k as nat),
        decreases n - k,
    {
        s.append(" ");
        proof {
            reveal_strlit(" ");
            assert(s@ =~= old(s)@ + blanks((k + 1) as nat));
        }
        k = k + 1;
    }
}

fn push_column_definition(s: &mut String, c: Column)
    ensures
        final(s)@ == old(s)@ + column_definition(c),
{
    let name = c.external_name();
    let len = name.unicode_len();
    let pad: usize = if len < NAME_FIELD_WIDTH - 2 {
        NAME_FIELD_WIDTH - 2 - len
    } else {
        1
    };
    s.append("\"");
    s.append(name);
    s.append("\"");
    push_blanks(s, pad);
    s.append(c.sql_type().keyword());
    assert(s@ =~= old(s)@ + column_definition(c));
}

fn push_column_entry(
    s: &mut String,
    cols: &Vec<Column>,
    i: usize,
    indent: usize,
    omit_temporal: bool,
)
    requires
        i < cols.len(),
    ensures
        final(s)@ == old(s)@ + column_entry(cols@, i as int, indent as nat, omit_temporal),
{
    let c = cols[i];
    let omitted = omit_temporal && c.is_temporal();
    let opens = omitted && (i == 0 || !cols[i - 1].is_temporal());
    let mut notice = String::new();
    if opens {
        push_blanks(&mut notice, indent);
        notice.append(OMITTED_NOTICE);
        notice.append("\n");
    }
    let mark = if omitted {
        "-- "
    } else {
        ""
    };
    let end = if i + 1 < cols.len() {
        ","
    } else {
        ""
    };
    let mut entry = notice;
    push_blanks(&mut entry, indent);
    entry.append(mark);
    push_column_definition(&mut entry, c);
    entry.append(end);
    entry.append("\n");
    assert(entry@ =~= column_entry(cols@, i as int, indent as nat, omit_temporal));
    s.append(entry.as_str());
}

fn push_column_entries(s: &mut String, indent: usize, omit_temporal: bool)
    ensures
        final(s)@ == old(s)@ + column_entries(
            storage_schema(),
            storage_schema().len() as int,
            indent as nat,
            omit_temporal,
        ),
{
    let cols = storage_columns();
    let n = cols.len();
    let mut i: usize = 0;
    assert(s@ =~= old(s)@ + column_entries(cols@, 0, indent as nat, omit_temporal));
    while i < n
        invariant
            i <= n,
            n == cols.len(),
            cols@ == storage_schema(),
            s@ == old(s)@ + column_entries(cols@, i as int, indent as nat, omit_temporal),
        decreases n - i,
    {
        push_column_entry(s, &cols, i, indent, omit_temporal);
        assert(s@ =~= old(s)@ + column_entries(
            cols@,
            (i + 1) as int,
            indent as nat,
            omit_temporal,
        ));
        i = i + 1;
    }
}

/// The lines of all stored columns in a table definition.
pub open spec fn all_column_entries(indent: nat, omit_temporal: bool) -> Seq<char> {
    column_entries(storage_schema(), storage_schema().len() as int, indent, omit_temporal)
}

/// The clause that creates the stored table, with every stored column.
pub open spec fn create_table_clause() -> Seq<char> {
    "CREATE TABLE "@ + TABLE_NAME@ + " (\n"@ + all_column_entries(
        STORED_COLUMN_INDENT as nat,
        false,
    ) + ");\n"@
}

/// A column as an insert names it: quoted where the name holds capitals.
pub open spec fn insert_name(c: Column) -> Seq<char> {
    if c.spec_is_case_sensitive() {
        quoted(c.external_name_text())
    } else {
        c.external_name_text()
    }
}

/// The first `n` columns of `cols` as an insert names them, separated by a
/// comma and a blank.
pub open spec fn insert_names(cols: Seq<Column>, n: int) -> Seq<char>
    decreases n,
{
    if n <= 0 {
        Seq::<char>::empty()
    } else if n == 1 {
        insert_name(cols[0])
    } else {
        insert_names(cols, n - 1) + ", "@ + insert_name(cols[n - 1])
    }
}

/// The first `n` seed rows, one to a line. A comma follows each row but the
/// last of them all, which a semicolon follows.
pub open spec fn seed_row_entries(n: int) -> Seq<char>
    decreases n,
{
    if n <= 0 {
        Seq::<char>::empty()
    } else {
        seed_row_entries(n - 1) + SEED_ROWS@[n - 1]@ + if n < SEED_ROW_COUNT {
            ",\n"@
        } else {
            ";\n"@
        }
    }
}

/// The clause that fills the stored table: the stored columns by name, then
/// every seed row.
pub open spec fn insert_clause() -> Seq<char> {
    "INSERT INTO "@ + TABLE_NAME@ + " ("@ + insert_names(
        storage_schema(),
        storage_schema().len() as int,
    ) + ")\nVALUES\n"@ + seed_row_entries(SEED_ROW_COUNT as int)
}

/// The statement that sets the stored table up: an empty line, the clause
/// that creates the table, an empty line, and the clause that fills it.
pub open spec fn setup_text() -> Seq<char> {
    "\n"@ + create_table_clause() + "\n"@ + insert_clause()
}

/// The clause that declares the connector with its handler and validator.
pub open spec fn connector_clause() -> Seq<char> {
    blanks(FOREIGN_CLAUSE_INDENT as nat) + "CREATE FOREIGN DATA WRAPPER "@ + CONNECTOR_NAME@
        + " HANDLER "@ + CONNECTOR_HANDLER@ + " VALIDATOR "@ + CONNECTOR_VALIDATOR@ + ";\n"@
}

/// The clause that declares the server, up to the endpoint: bound to the
/// connector, with the fixed region and access options.
pub open spec fn server_clause_head() -> Seq<char> {
    blanks(FOREIGN_CLAUSE_INDENT as nat) + "CREATE SERVER "@ + SERVER_NAME@
        + " FOREIGN DATA WRAPPER "@ + CONNECTOR_NAME@ + "\n"@ + blanks(
        FOREIGN_CLAUSE_INDENT as nat,
    ) + "OPTIONS (region '"@ + SERVER_REGION@ + "', allow_anonymous '"@ + SERVER_ALLOW_ANONYMOUS@
        + "', endpoint '"@
}

/// What closes the server's clause after the endpoint.
pub open spec fn server_clause_tail() -> Seq<char> {
    "');\n"@
}

/// The clause that declares the virtual table, up to the path: the stored
/// columns without the temporal ones, bound to the server.
pub open spec fn foreign_table_clause_head() -> Seq<char> {
    blanks(FOREIGN_CLAUSE_INDENT as nat) + "CREATE FOREIGN TABLE "@ + FOREIGN_TABLE_NAME@ + " (\n"@
        + all_column_entries(FOREIGN_COLUMN_INDENT as nat, true) + blanks(
        FOREIGN_CLAUSE_INDENT as nat,
    ) + ")\n"@ + blanks(FOREIGN_CLAUSE_INDENT as nat) + "SERVER "@ + SERVER_NAME@ + "\n"@ + blanks(
        FOREIGN_CLAUSE_INDENT as nat,
    ) + "OPTIONS (path '"@
}

/// What closes the virtual table's clause after the path: the fixed format.
pub open spec fn foreign_table_clause_tail() -> Seq<char> {
    "', extension '"@ + CONTAINER_FORMAT@ + "'); \n"@
}

/// An empty line between two clauses of the virtual table's statement.
pub open spec fn foreign_empty_line() -> Seq<char> {
    blanks(FOREIGN_CLAUSE_INDENT as nat) + "\n"@
}

/// The part of the virtual table's statement that comes before the
/// endpoint: an empty line, the connector's clause, and the server's clause
/// as far as it is fixed.
pub open spec fn setup_fdw_before_endpoint() -> Seq<char> {
    "\n"@ + connector_clause() + foreign_empty_line() + server_clause_head()
}

/// The part between the endpoint and the path.
pub open spec fn setup_fdw_between() -> Seq<char> {
    server_clause_tail() + foreign_empty_line() + foreign_table_clause_head()
}

/// The part after the path. The statement ends in four blanks.
pub open spec fn setup_fdw_after_path() -> Seq<char> {
    foreign_table_clause_tail() + blanks(4)
}

/// The statement that sets the virtual table up: its three fixed parts,
/// with the endpoint and the path between them, each as it was given.
pub open spec fn setup_fdw_text(endpoint: Seq<char>, path: Seq<char>) -> Seq<char> {
    setup_fdw_before_endpoint() + endpoint + setup_fdw_between() + path + setup_fdw_after_path()
}

fn push_create_table_clause(s: &mut String)
    ensures
        final(s)@ == old(s)@ + create_table_clause(),
{
    let mut clause = String::from_str("CREATE TABLE ");
    clause.append(TABLE_NAME);
    clause.append(" (\n");
    push_column_entries(&mut clause, STORED_COLUMN_INDENT, false);
    clause.append(");\n");
    assert(clause@ =~= create_table_clause());
    s.append(clause.as_str());
}

fn push_insert_names(s: &mut String)
    ensures
        final(s)@ == old(s)@ + insert_names(storage_schema(), storage_schema().len() as int),
{
    let cols = storage_columns();
    let n = cols.len();
    let mut names = String::new();
    let mut i: usize = 0;
    while i < n
        invariant
            i <= n,
            n == cols.len(),
            names@ == insert_names(cols@, i as int),
        decreases n - i,
    {
        let c = cols[i];
        let ghost before = names@;
        if i > 0 {
            names.append(", ");
        }
        if c.is_case_sensitive() {
            names.append("\"");
            names.append(c.external_name());
            names.append("\"");
        } else {
            names.append(c.external_name());
        }
        proof {
            reveal_strlit("");
            assert(names@ =~= insert_names(cols@, (i + 1) as int));
        }
        i = i + 1;
    }
    s.append(names.as_str());
}

fn push_seed_rows(s: &mut String)
    ensures
        final(s)@ == old(s)@ + seed_row_entries(SEED_ROW_COUNT as int),
{
    let mut rows = String::new();
    let mut i: usize = 0;
    while i < SEED_ROW_COUNT
        invariant
            i <= SEED_ROW_COUNT,
            rows@ == seed_row_entries(i as int),
        decreases SEED_ROW_COUNT - i,
    {
        rows.append(SEED_ROWS[i]);
        if i + 1 < SEED_ROW_COUNT {
            rows.append(",\n");
        } else {
            rows.append(";\n");
        }
        assert(rows@ =~= seed_row_entries((i + 1) as int));
        i = i + 1;
    }
    s.append(rows.as_str());
}

fn push_insert_clause(s: &mut String)
    ensures
        final(s)@ == old(s)@ + insert_clause(),
{
    let mut clause = String::from_str("INSERT INTO ");
    clause.append(TABLE_NAME);
    clause.append(" (");
    push_insert_names(&mut clause);
    clause.append(")\nVALUES\n");
    push_seed_rows(&mut clause);
    assert(clause@ =~= insert_clause());
    s.append(clause.as_str());
}

fn push_connector_clause(s: &mut String)
    ensures
        final(s)@ == old(s)@ + connector_clause(),
{
    let mut clause = String::new();
    push_blanks(&mut clause, FOREIGN_CLAUSE_INDENT);
    clause.append("CREATE FOREIGN DATA WRAPPER ");
    clause.append(CONNECTOR_NAME);
    clause.append(" HANDLER ");
    clause.append(CONNECTOR_HANDLER);
    clause.append(" VALIDATOR ");
    clause.append(CONNECTOR_VALIDATOR);
    clause.append(";\n");
    assert(clause@ =~= connector_clause());
    s.append(clause.as_str());
}

fn push_server_clause_head(s: &mut String)
    ensures
        final(s)@ == old(s)@ + server_clause_head(),
{
    let mut clause = String::new();
    push_blanks(&mut clause, FOREIGN_CLAUSE_INDENT);
    clause.append("CREATE SERVER ");
    clause.append(SERVER_NAME);
    clause.append(" FOREIGN DATA WRAPPER ");
    clause.append(CONNECTOR_NAME);
    clause.append("\n");
    push_blanks(&mut clause, FOREIGN_CLAUSE_INDENT);
    clause.append("OPTIONS (region '");
    clause.append(SERVER_REGION);
    clause.append("', allow_anonymous '");
    clause.append(SERVER_ALLOW_ANONYMOUS);
    clause.append("', endpoint '");
    assert(clause@ =~= server_clause_head());
    s.append(clause.as_str());
}

fn push_foreign_table_clause_head(s: &mut String)
    ensures
        final(s)@ == old(s)@ + foreign_table_clause_head(),
{
    let mut clause = String::new();
    push_blanks(&mut clause, FOREIGN_CLAUSE_INDENT);
    clause.append("CREATE FOREIGN TABLE ");
    clause.append(FOREIGN_TABLE_NAME);
    clause.append(" (\n");
    push_column_entries(&mut clause, FOREIGN_COLUMN_INDENT, true);
    push_blanks(&mut clause, FOREIGN_CLAUSE_INDENT);
    clause.append(")\n");
    push_blanks(&mut clause, FOREIGN_CLAUSE_INDENT);
    clause.append("SERVER ");
    clause.append(SERVER_NAME);
    clause.append("\n");
    push_blanks(&mut clause, FOREIGN_CLAUSE_INDENT);
    clause.append("OPTIONS (path '");
    assert(clause@ =~= foreign_table_clause_head());
    s.append(clause.as_str());
}

fn setup_fdw_prefix() -> (text: String)
    ensures
        text@ == setup_fdw_before_endpoint(),
{
    let mut text = String::from_str("\n");
    push_connector_clause(&mut text);
    push_blanks(&mut text, FOREIGN_CLAUSE_INDENT);
    text.append("\n");
    push_server_clause_head(&mut text);
    assert(text@ =~= setup_fdw_before_endpoint());
    text
}

fn setup_fdw_middle() -> (text: String)
    ensures
        text@ == setup_fdw_between(),
{
    let mut text = String::from_str("');\n");
    push_blanks(&mut text, FOREIGN_CLAUSE_INDENT);
    text.append("\n");
    push_foreign_table_clause_head(&mut text);
    assert(text@ =~= setup_fdw_between());
    text
}

fn setup_fdw_suffix() -> (text: String)
    ensures
        text@ == setup_fdw_after_path(),
{
    let mut text = String::from_str("', extension '");
    text.append(CONTAINER_FORMAT);
    text.append("'); \n");
    push_blanks(&mut text, 4);
    assert(text@ =~= setup_fdw_after_path());
    text
}

impl NycTripsTable {
    /// The statement that creates the stored table and fills it with the
    /// seed rows. It takes nothing and always gives the same text.
    pub fn setup() -> (statement: String)
        ensures
            statement@ == setup_text(),
    {
        let mut statement = String::from_str("\n");
        push_create_table_clause(&mut statement);
        statement.append("\n");
        push_insert_clause(&mut statement);
        statement
    }

    /// The statement that declares the connector, the server at
    /// `s3_endpoint` and the virtual table over the file at
    /// `s3_object_path`. Both arguments go into the text as they are:
    /// nothing is escaped and nothing is refused, so a caller that takes them
    /// from elsewhere has to know that they cannot end the quoted text they
    /// are put into.
    pub fn setup_fdw(s3_endpoint: &str, s3_object_path: &str) -> (statement: String)
        ensures
            statement@ == setup_fdw_text(s3_endpoint@, s3_object_path@),
    {
        let mut statement = setup_fdw_prefix();
        statement.append(s3_endpoint);
        statement.append(setup_fdw_middle().as_str());
        statement.append(s3_object_path);
        statement.append(setup_fdw_suffix().as_str());
        statement
    }
}

/// Two calls of `setup` give the same text: whatever `setup` may return is
/// the one text that its contract names.
pub proof fn lemma_setup_gives_one_text(first: String, second: String)
    requires
        first@ == setup_text(),
        second@ == setup_text(),
    ensures
        first@ == second@,
{
}

/// Where the five parts of one statement for the virtual table lie in it:
/// the three fixed parts, and between them the endpoint and the path, each
/// as it was given.
pub proof fn lemma_setup_fdw_parts(endpoint: Seq<char>, path: Seq<char>)
    ensures
        ({
            let before = setup_fdw_before_endpoint();
            let between = setup_fdw_between();
            let after = setup_fdw_after_path();
            let t = setup_fdw_text(endpoint, path);
            let a: int = before.len() as int;
            let b: int = a + endpoint.len();
            let c: int = b + between.len();
            let d: int = c + path.len();
            &&& t.len() == d + after.len()
            &&& t.subrange(0, a) == before
            &&& t.subrange(a, b) == endpoint
            &&& t.subrange(b, c) == between
            &&& t.subrange(c, d) == path
            &&& t.subrange(d, t.len() as int) == after
        }),
{
    let before = setup_fdw_before_endpoint();
    let between = setup_fdw_between();
    let after = setup_fdw_after_path();
    let t = setup_fdw_text(endpoint, path);
    let a: int = before.len() as int;
    let b: int = a + endpoint.len();
    let c: int = b + between.len();
    let d: int = c + path.len();
    assert(t.subrange(0, a) =~= before);
    assert(t.subrange(a, b) =~= endpoint);
    assert(t.subrange(b, c) =~= between);
    assert(t.subrange(c, d) =~= path);
    assert(t.subrange(d, t.len() as int) =~= after);
}

/// Two statements for the virtual table differ only where the arguments
/// stand. Both begin with the same fixed part, which names the connector,
/// the server, the region and the access option. After the endpoint of
/// each comes the same fixed part again, and after the path of each the
/// same end, which names the format.
pub proof fn lemma_setup_fdw_differs_only_at_arguments(
    endpoint1: Seq<char>,
    path1: Seq<char>,
    endpoint2: Seq<char>,
    path2: Seq<char>,
)
    ensures
        ({
            let t1 = setup_fdw_text(endpoint1, path1);
            let t2 = setup_fdw_text(endpoint2, path2);
            let a: int = setup_fdw_before_endpoint().len() as int;
            let m: int = setup_fdw_between().len() as int;
            let z: int = setup_fdw_after_path().len() as int;
            let b1: int = a + endpoint1.len();
            let b2: int = a + endpoint2.len();
            let d1: int = b1 + m + path1.len();
            let d2: int = b2 + m + path2.len();
            &&& t1.len() == d1 + z
            &&& t2.len() == d2 + z
            &&& t1.subrange(0, a) == t2.subrange(0, a)
            &&& t1.subrange(a, b1) == endpoint1
            &&& t2.subrange(a, b2) == endpoint2
            &&& t1.subrange(b1, b1 + m) == t2.subrange(b2, b2 + m)
            &&& t1.subrange(b1 + m, d1) == path1
            &&& t2.subrange(b2 + m, d2) == path2
            &&& t1.subrange(d1, d1 + z) == t2.subrange(d2, d2 + z)
        }),
{
    lemma_setup_fdw_parts(endpoint1, path1);
    lemma_setup_fdw_parts(endpoint2, path2);
}

} // verus!
