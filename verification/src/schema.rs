//! Table metadata: columns as the engine reports them, the comments laid
//! over them, and the column by which a single row is addressed.

use crate::error::AdapterError;
use crate::value::{SqlModel, SqlValue};
use vstd::prelude::*;
use vstd::string::StringExecFns;

verus! {

/// One column of a table.
#[derive(Clone, Debug, PartialEq)]
pub struct ColumnInfo {
    pub name: String,
    /// The column's comment; the column's own name until one is set.
    pub desc: Option<String>,
    /// The declared type, or `"ANY"` where the engine reports none.
    pub data_type: String,
    pub not_null: bool,
    pub default_value: Option<String>,
    pub is_primary_key: bool,
}

/// A table as a caller sees it.
#[derive(Clone, Debug, PartialEq)]
pub struct TableSchema {
    pub name: String,
    /// The table's comment; the table's own name until one is set.
    pub desc: Option<String>,
    /// The columns in the engine's order.
    pub columns: Vec<ColumnInfo>,
    /// The column by which a single row is addressed.
    pub primary_key: Option<String>,
}

/// The view of an optional text.
pub open spec fn text_view(text: Option<String>) -> Option<Seq<char>> {
    match text {
        Some(s) => Some(s@),
        None => None,
    }
}

/// The mathematical counterpart of [`ColumnInfo`].
pub struct ColumnModel {
    pub name: Seq<char>,
    pub desc: Option<Seq<char>>,
    pub data_type: Seq<char>,
    pub not_null: bool,
    pub default_value: Option<Seq<char>>,
    pub is_primary_key: bool,
}

/// The mathematical counterpart of [`TableSchema`].
pub struct TableModel {
    pub name: Seq<char>,
    pub desc: Option<Seq<char>>,
    pub columns: Seq<ColumnModel>,
    pub primary_key: Option<Seq<char>>,
}

impl View for ColumnInfo {
    type V = ColumnModel;

    open spec fn view(&self) -> ColumnModel {
        ColumnModel {
            name: self.name@,
            desc: text_view(self.desc),
            data_type: self.data_type@,
            not_null: self.not_null,
            default_value: text_view(self.default_value),
            is_primary_key: self.is_primary_key,
        }
    }
}

/// The views of a list of columns, in order.
pub open spec fn column_views(columns: Seq<ColumnInfo>) -> Seq<ColumnModel> {
    columns.map_values(|c: ColumnInfo| c@)
}

impl View for TableSchema {
    type V = TableModel;

    open spec fn view(&self) -> TableModel {
        TableModel {
            name: self.name@,
            desc: text_view(self.desc),
            columns: column_views(self.columns@),
            primary_key: text_view(self.primary_key),
        }
    }
}

// ---------------------------------------------------------------------
// Reading a column from a row of `PRAGMA table_info`
// ---------------------------------------------------------------------

/// A cell that holds an integer which fits 32 bits.
pub open spec fn small_integer(cell: Option<SqlModel>) -> Option<i64> {
    match cell {
        Some(SqlModel::Integer(i)) => if -0x8000_0000 <= i <= 0x7fff_ffff {
            Some(i)
        } else {
            None
        },
        _ => None,
    }
}

/// A cell that holds text.
pub open spec fn required_text(cell: Option<SqlModel>) -> Option<Seq<char>> {
    match cell {
        Some(SqlModel::Text(s)) => Some(s),
        _ => None,
    }
}

/// A cell that holds text or nothing: `Some` of what it holds.
pub open spec fn optional_text(cell: Option<SqlModel>) -> Option<Option<Seq<char>>> {
    match cell {
        Some(SqlModel::Text(s)) => Some(Some(s)),
        Some(SqlModel::Null) => Some(None),
        _ => None,
    }
}

/// The column that a row of `PRAGMA table_info` describes: name in cell 1,
/// declared type in cell 2, the not-null flag in cell 3, the default in
/// cell 4 and the primary-key position in cell 5. `None` where a cell does
/// not have the form that the engine documents.
pub open spec fn column_of(cells: Seq<Option<SqlModel>>) -> Option<ColumnModel> {
    if cells.len() >= 6 && required_text(cells[1]) is Some && optional_text(cells[2]) is Some
        && small_integer(cells[3]) is Some && optional_text(cells[4]) is Some && small_integer(
        cells[5],
    ) is Some {
        Some(
            ColumnModel {
                name: required_text(cells[1])->Some_0,
                desc: None,
                data_type: match optional_text(cells[2])->Some_0 {
                    Some(declared) => declared,
                    None => "ANY"@,
                },
                not_null: small_integer(cells[3])->Some_0 == 1,
                default_value: optional_text(cells[4])->Some_0,
                is_primary_key: small_integer(cells[5])->Some_0 > 0,
            },
        )
    } else {
        None
    }
}

/// The views of a row's cells, in order.
pub open spec fn cell_views(cells: Seq<Option<SqlValue>>) -> Seq<Option<SqlModel>> {
    cells.map_values(|c: Option<SqlValue>| crate::value::cell_view(c))
}

fn read_small_integer(cell: &Option<SqlValue>) -> (value: Option<i64>)
    ensures
        value == small_integer(crate::value::cell_view(*cell)),
{
    match cell {
        Some(SqlValue::Integer(i)) => {
            if -0x8000_0000 <= *i && *i <= 0x7fff_ffff {
                Some(*i)
            } else {
                None
            }
        },
        _ => None,
    }
}

fn read_optional_text(cell: &Option<SqlValue>) -> (value: Option<Option<String>>)
    ensures
        match optional_text(crate::value::cell_view(*cell)) {
            Some(text) => value matches Some(read) && text_view(read) == text,
            None => value is None,
        },
{
    match cell {
        Some(SqlValue::Text(s)) => Some(Some(s.clone())),
        Some(SqlValue::Null) => Some(None),
        _ => None,
    }
}

impl ColumnInfo {
    /// Reads a column from the cells of one row of `PRAGMA table_info`.
    pub fn from_cells(cells: &Vec<Option<SqlValue>>) -> (column: Result<ColumnInfo, AdapterError>)
        ensures
            match column_of(cell_views(cells@)) {
                Some(model) => column matches Ok(read) && read@ == model,
                None => column == Err::<ColumnInfo, AdapterError>(AdapterError::MalformedRow),
            },
    {
        if cells.len() < 6 {
            return Err(AdapterError::MalformedRow);
        }
        let name = match &cells[1] {
            Some(SqlValue::Text(s)) => s.clone(),
            _ => {
                return Err(AdapterError::MalformedRow);
            },
        };
        let declared = match read_optional_text(&cells[2]) {
            Some(text) => text,
            None => {
                return Err(AdapterError::MalformedRow);
            },
        };
        let not_null = match read_small_integer(&cells[3]) {
            Some(flag) => flag == 1,
            None => {
                return Err(AdapterError::MalformedRow);
            },
        };
        let default_value = match read_optional_text(&cells[4]) {
            Some(text) => text,
            None => {
                return Err(AdapterError::MalformedRow);
            },
        };
        let is_primary_key = match read_small_integer(&cells[5]) {
            Some(position) => position > 0,
            None => {
                return Err(AdapterError::MalformedRow);
            },
        };
        let data_type = match declared {
            Some(text) => text,
            None => String::from_str("ANY"),
        };
        Ok(ColumnInfo { name, desc: None, data_type, not_null, default_value, is_primary_key })
    }

    /// A copy of this column with `desc` as its comment.
    pub fn described(&self, desc: String) -> (column: ColumnInfo)
        ensures
            column@ == (ColumnModel { desc: Some(desc@), ..self@ }),
    {
        ColumnInfo {
            name: self.name.clone(),
            desc: Some(desc),
            data_type: self.data_type.clone(),
            not_null: self.not_null,
            default_value: match &self.default_value {
                Some(text) => Some(text.clone()),
                None => None,
            },
            is_primary_key: self.is_primary_key,
        }
    }
}

// ---------------------------------------------------------------------
// Comments laid over the columns
// ---------------------------------------------------------------------

/// A comment as a caller reads it: the one that is stored, or the name of
/// what it describes where none is.
pub open spec fn shown_comment(stored: Option<Seq<char>>, name: Seq<char>) -> Seq<char> {
    match stored {
        Some(text) => text,
        None => name,
    }
}

/// The views of a list of optional texts, in order.
pub open spec fn text_views(texts: Seq<Option<String>>) -> Seq<Option<Seq<char>>> {
    texts.map_values(|t: Option<String>| text_view(t))
}

/// The columns with their comments laid over them: each column keeps what
/// the engine reports of it and is described by its stored comment, or by
/// its own name where none is stored.
pub open spec fn described_columns(
    columns: Seq<ColumnModel>,
    comments: Seq<Option<Seq<char>>>,
) -> Seq<ColumnModel> {
    Seq::new(
        columns.len(),
        |i: int| ColumnModel { desc: Some(shown_comment(comments[i], columns[i].name)), ..columns[i] },
    )
}

/// The schema of a table from what was read of it: its columns, its
/// identity column, and the comments stored for it and for its columns.
pub open spec fn assembled(
    name: Seq<char>,
    columns: Seq<ColumnModel>,
    primary_key: Seq<char>,
    table_comment: Option<Seq<char>>,
    comments: Seq<Option<Seq<char>>>,
) -> TableModel {
    TableModel {
        name,
        desc: Some(shown_comment(table_comment, name)),
        columns: described_columns(columns, comments),
        primary_key: Some(primary_key),
    }
}

/// A comment as a caller reads it: the one that is stored, or the name of
/// what it describes where none is.
pub fn comment_or_name(stored: Option<String>, name: &str) -> (desc: String)
    ensures
        desc@ == shown_comment(text_view(stored), name@),
{
    match stored {
        Some(text) => text,
        None => String::from_str(name),
    }
}

impl TableSchema {
    /// Puts a schema together from what was read of a table: the columns
    /// as the engine reports them, the identity column, and the comment
    /// stored for the table and for each column, if any.
    pub fn assemble(
        name: &str,
        columns: &Vec<ColumnInfo>,
        primary_key: String,
        table_comment: Option<String>,
        column_comments: &Vec<Option<String>>,
    ) -> (schema: TableSchema)
        requires
            column_comments@.len() == columns@.len(),
        ensures
            schema@ == assembled(
                name@,
                column_views(columns@),
                primary_key@,
                text_view(table_comment),
                text_views(column_comments@),
            ),
    {
        let mut described: Vec<ColumnInfo> = Vec::new();
        let mut i: usize = 0;
        while i < columns.len()
            invariant
                i <= columns.len(),
                column_comments@.len() == columns@.len(),
                described@.len() == i,
                forall|k: int|
                    0 <= k < i ==> (#[trigger] described@[k])@ == (ColumnModel {
                        desc: Some(
                            shown_comment(text_view(column_comments@[k]), columns@[k]@.name),
                        ),
                        ..columns@[k]@
                    }),
            decreases columns.len() - i,
        {
            let stored = match &column_comments[i] {
                Some(text) => Some(text.clone()),
                None => None,
            };
            let desc = comment_or_name(stored, columns[i].name.as_str());
            described.push(columns[i].described(desc));
            i = i + 1;
        }
        let schema = TableSchema {
            name: String::from_str(name),
            desc: Some(comment_or_name(table_comment, name)),
            columns: described,
            primary_key: Some(primary_key),
        };
        assert(schema@.columns =~= described_columns(
            column_views(columns@),
            text_views(column_comments@),
        ));
        schema
    }
}

/// Until a comment is set, a table and its columns are described by their
/// own names: both where nothing is stored for them yet and where the
/// default that the first reading stored is.
pub proof fn lemma_unset_comments_show_names(
    name: Seq<char>,
    columns: Seq<ColumnModel>,
    primary_key: Seq<char>,
    table_comment: Option<Seq<char>>,
    comments: Seq<Option<Seq<char>>>,
)
    requires
        comments.len() == columns.len(),
        table_comment is None || table_comment == Some(name),
        forall|i: int|
            0 <= i < columns.len() ==> (#[trigger] comments[i]) is None || comments[i] == Some(
                columns[i].name,
            ),
    ensures
        assembled(name, columns, primary_key, table_comment, comments).desc == Some(name),
        forall|i: int|
            0 <= i < columns.len() ==> (#[trigger] assembled(
                name,
                columns,
                primary_key,
                table_comment,
                comments,
            ).columns[i]).desc == Some(columns[i].name),
{
}

/// Setting the comment of one column changes how that column is described
/// and nothing else of the schema.
pub proof fn lemma_column_comment_changes_one_column(
    name: Seq<char>,
    columns: Seq<ColumnModel>,
    primary_key: Seq<char>,
    table_comment: Option<Seq<char>>,
    comments: Seq<Option<Seq<char>>>,
    at: int,
    desc: Seq<char>,
)
    requires
        comments.len() == columns.len(),
        0 <= at < columns.len(),
    ensures
        ({
            let before = assembled(name, columns, primary_key, table_comment, comments);
            let after = assembled(
                name,
                columns,
                primary_key,
                table_comment,
                comments.update(at, Some(desc)),
            );
            &&& after.name == before.name
            &&& after.desc == before.desc
            &&& after.primary_key == before.primary_key
            &&& after.columns.len() == before.columns.len()
            &&& after.columns[at] == (ColumnModel { desc: Some(desc), ..before.columns[at] })
            &&& forall|i: int|
                0 <= i < columns.len() && i != at ==> #[trigger] after.columns[i]
                    == before.columns[i]
        }),
{
}

/// Laying comments over the columns leaves the identity column as it is.
pub proof fn lemma_described_columns_keep_identity(
    columns: Seq<ColumnModel>,
    comments: Seq<Option<Seq<char>>>,
)
    ensures
        identity_column(described_columns(columns, comments)) == identity_column(columns),
{
    lemma_identity_ignores_comments(columns, described_columns(columns, comments));
}

// ---------------------------------------------------------------------
// The identity column
// ---------------------------------------------------------------------

/// The names of the columns flagged as primary key, in column order.
pub open spec fn primary_key_names(columns: Seq<ColumnModel>) -> Seq<Seq<char>>
    decreases columns.len(),
{
    if columns.len() == 0 {
        Seq::empty()
    } else if columns.last().is_primary_key {
        primary_key_names(columns.drop_last()).push(columns.last().name)
    } else {
        primary_key_names(columns.drop_last())
    }
}

/// The name of the column that addresses a row where none is declared.
pub open spec fn implicit_identity() -> Seq<char> {
    "rowid"@
}

/// The identity column of a table with these columns: the one declared
/// primary-key column, the implicit row identity where none is declared,
/// and no column at all where several are.
pub open spec fn identity_column(columns: Seq<ColumnModel>) -> Option<Seq<char>> {
    let names = primary_key_names(columns);
    if names.len() == 0 {
        Some(implicit_identity())
    } else if names.len() == 1 {
        Some(names[0])
    } else {
        None
    }
}

/// Determines the column by which a single row of a table is addressed.
/// Fails where the table declares a composite primary key.
pub fn resolve_primary_key(columns: &Vec<ColumnInfo>) -> (resolved: Result<String, AdapterError>)
    ensures
        match identity_column(column_views(columns@)) {
            Some(name) => resolved matches Ok(found) && found@ == name,
            None => resolved == Err::<String, AdapterError>(AdapterError::CompositePrimaryKey),
        },
{
    let ghost model = column_views(columns@);
    let mut names: Vec<String> = Vec::new();
    let mut i: usize = 0;
    while i < columns.len()
        invariant
            i <= columns.len(),
            model == column_views(columns@),
            crate::text::string_views(names@) == primary_key_names(model.subrange(0, i as int)),
        decreases columns.len() - i,
    {
        proof {
            assert(model.subrange(0, i + 1).drop_last() =~= model.subrange(0, i as int));
        }
        if columns[i].is_primary_key {
            names.push(columns[i].name.clone());
        }
        i = i + 1;
    }
    proof {
        assert(model.subrange(0, columns.len() as int) =~= model);
    }
    if names.len() == 1 {
        Ok(names[0].clone())
    } else if names.len() == 0 {
        Ok(String::from_str("rowid"))
    } else {
        Err(AdapterError::CompositePrimaryKey)
    }
}

proof fn lemma_unflagged_columns_give_no_names(columns: Seq<ColumnModel>)
    requires
        forall|i: int| 0 <= i < columns.len() ==> !(#[trigger] columns[i]).is_primary_key,
    ensures
        primary_key_names(columns).len() == 0,
    decreases columns.len(),
{
    if columns.len() > 0 {
        lemma_unflagged_columns_give_no_names(columns.drop_last());
    }
}

/// A table with no column flagged as primary key is addressed by the
/// implicit row identity.
pub proof fn lemma_no_primary_key_gives_row_identity(columns: Seq<ColumnModel>)
    requires
        forall|i: int| 0 <= i < columns.len() ==> !(#[trigger] columns[i]).is_primary_key,
    ensures
        identity_column(columns) == Some(implicit_identity()),
{
    lemma_unflagged_columns_give_no_names(columns);
}

/// A table with exactly one column flagged as primary key is addressed by
/// that column.
pub proof fn lemma_single_primary_key_is_identity(columns: Seq<ColumnModel>, at: int)
    requires
        0 <= at < columns.len(),
        forall|i: int| 0 <= i < columns.len() ==> ((#[trigger] columns[i]).is_primary_key <==> i
            == at),
    ensures
        identity_column(columns) == Some(columns[at].name),
    decreases columns.len(),
{
    let rest = columns.drop_last();
    if at == columns.len() - 1 {
        lemma_unflagged_columns_give_no_names(rest);
    } else {
        lemma_single_primary_key_is_identity(rest, at);
    }
}

/// Every flagged column adds a name: a prefix of the columns never has
/// more primary-key names than the whole.
proof fn lemma_primary_key_names_grow(columns: Seq<ColumnModel>, upto: int)
    requires
        0 <= upto <= columns.len(),
    ensures
        primary_key_names(columns.subrange(0, upto)).len() <= primary_key_names(columns).len(),
    decreases columns.len() - upto,
{
    if upto == columns.len() {
        assert(columns.subrange(0, upto) =~= columns);
    } else {
        lemma_primary_key_names_grow(columns, upto + 1);
        assert(columns.subrange(0, upto + 1).drop_last() =~= columns.subrange(0, upto));
    }
}

/// The identity column depends on the names and primary-key flags of the
/// columns alone: comments do not change it.
pub proof fn lemma_identity_ignores_comments(plain: Seq<ColumnModel>, described: Seq<ColumnModel>)
    requires
        plain.len() == described.len(),
        forall|i: int|
            0 <= i < plain.len() ==> (#[trigger] described[i]).name == plain[i].name
                && described[i].is_primary_key == plain[i].is_primary_key,
    ensures
        primary_key_names(described) == primary_key_names(plain),
        identity_column(described) == identity_column(plain),
    decreases plain.len(),
{
    if plain.len() > 0 {
        lemma_identity_ignores_comments(plain.drop_last(), described.drop_last());
    }
}

/// A table with two or more columns flagged as primary key has no
/// identity column: resolving it fails.
pub proof fn lemma_composite_primary_key_has_no_identity(
    columns: Seq<ColumnModel>,
    first: int,
    second: int,
)
    requires
        0 <= first < second < columns.len(),
        columns[first].is_primary_key,
        columns[second].is_primary_key,
    ensures
        identity_column(columns) is None,
{
    let upto_first = columns.subrange(0, first + 1);
    let upto_second = columns.subrange(0, second + 1);
    assert(upto_second.drop_last() =~= columns.subrange(0, second));
    lemma_primary_key_names_grow(columns.subrange(0, second), first + 1);
    lemma_primary_key_names_grow(columns, second + 1);
}

} // verus!
