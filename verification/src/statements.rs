//! The six statements of a table and the order in which their parameters are
//! bound, each a template over the declared columns and the identity column.

use vstd::prelude::*;
use vstd::string::*;
use crate::dialect::{ConfigError, DbType, quoted};
use crate::text::{decimal, decimal_text, join, join_text, texts};

verus! {

/// What a table is called, how its names are quoted and which column
/// identifies a row.
#[derive(Debug)]
pub struct TableDescriptor {
    pub table_name: String,
    pub dialect: DbType,
    pub id_column: String,
    /// The caller supplies the identity value on insert.
    pub external_id: bool,
}

/// The statements of one table with the binding order of insert and update.
#[derive(Debug)]
pub struct StatementSet {
    pub select_sql: String,
    pub select_by_id_sql: String,
    pub paginated_sql: String,
    pub insert_sql: String,
    pub insert_binding: Vec<String>,
    pub update_by_id_sql: String,
    pub update_binding: Vec<String>,
    pub delete_by_id_sql: String,
}

/// A statement set as characters.
pub ghost struct StatementTexts {
    pub select_sql: Seq<char>,
    pub select_by_id_sql: Seq<char>,
    pub paginated_sql: Seq<char>,
    pub insert_sql: Seq<char>,
    pub insert_binding: Seq<Seq<char>>,
    pub update_by_id_sql: Seq<char>,
    pub update_binding: Seq<Seq<char>>,
    pub delete_by_id_sql: Seq<char>,
}

impl View for StatementSet {
    type V = StatementTexts;

    open spec fn view(&self) -> StatementTexts {
        StatementTexts {
            select_sql: self.select_sql@,
            select_by_id_sql: self.select_by_id_sql@,
            paginated_sql: self.paginated_sql@,
            insert_sql: self.insert_sql@,
            insert_binding: texts(self.insert_binding@),
            update_by_id_sql: self.update_by_id_sql@,
            update_binding: texts(self.update_binding@),
            delete_by_id_sql: self.delete_by_id_sql@,
        }
    }
}

/// A column behind its table: both quoted, a dot between them.
pub open spec fn qualified(db: DbType, table: Seq<char>, column: Seq<char>) -> Seq<char> {
    quoted(db, table) + seq!['.'] + quoted(db, column)
}

/// Each column qualified by the table, in the order given.
pub open spec fn qualified_columns(db: DbType, table: Seq<char>, columns: Seq<Seq<char>>) -> Seq<
    Seq<char>,
> {
    Seq::new(columns.len(), |i: int| qualified(db, table, columns[i]))
}

/// Each column quoted, in the order given.
pub open spec fn quoted_columns(db: DbType, columns: Seq<Seq<char>>) -> Seq<Seq<char>> {
    Seq::new(columns.len(), |i: int| quoted(db, columns[i]))
}

/// The qualified columns, separated by a comma and a space.
pub open spec fn column_list(db: DbType, table: Seq<char>, columns: Seq<Seq<char>>) -> Seq<char> {
    join(qualified_columns(db, table, columns), ", "@)
}

/// The positional parameter with number `n`.
pub open spec fn placeholder(n: nat) -> Seq<char> {
    seq!['$'] + decimal(n)
}

/// The first `n` positional parameters, numbered from one.
pub open spec fn placeholders(n: nat) -> Seq<Seq<char>> {
    Seq::new(n, |i: int| placeholder((i + 1) as nat))
}

/// Each column set to the parameter numbered by its place, counted from one.
pub open spec fn assignments(db: DbType, columns: Seq<Seq<char>>) -> Seq<Seq<char>> {
    Seq::new(columns.len(), |i: int| quoted(db, columns[i]) + " = "@ + placeholder((i + 1) as nat))
}

/// The columns other than `id`, in the order given.
pub open spec fn without(columns: Seq<Seq<char>>, id: Seq<char>) -> Seq<Seq<char>>
    decreases columns.len(),
{
    if columns.len() == 0 {
        Seq::empty()
    } else if columns.last() == id {
        without(columns.drop_last(), id)
    } else {
        without(columns.drop_last(), id).push(columns.last())
    }
}

/// How often `id` occurs among the columns.
pub open spec fn occurrences(columns: Seq<Seq<char>>, id: Seq<char>) -> nat
    decreases columns.len(),
{
    if columns.len() == 0 {
        0
    } else if columns.last() == id {
        occurrences(columns.drop_last(), id) + 1
    } else {
        occurrences(columns.drop_last(), id)
    }
}

/// The columns an insert names and binds: all of them where the caller
/// supplies the identity, else all but the identity.
pub open spec fn insert_binding(columns: Seq<Seq<char>>, id: Seq<char>, external_id: bool) -> Seq<
    Seq<char>,
> {
    if external_id {
        columns
    } else {
        without(columns, id)
    }
}

/// The columns an update binds: all but the identity, then the identity.
pub open spec fn update_binding(columns: Seq<Seq<char>>, id: Seq<char>) -> Seq<Seq<char>> {
    without(columns, id).push(id)
}

/// The statement that reads every row: the qualified columns in declared
/// order, from the quoted table.
pub open spec fn select_sql(db: DbType, table: Seq<char>, columns: Seq<Seq<char>>) -> Seq<char> {
    "SELECT "@ + column_list(db, table, columns) + " FROM "@ + quoted(db, table)
}

/// The select statement followed by a limit and an offset, its first and
/// second parameter.
pub open spec fn paginated_sql(db: DbType, table: Seq<char>, columns: Seq<Seq<char>>) -> Seq<char> {
    select_sql(db, table, columns) + " LIMIT $1 OFFSET $2"@
}

/// The select statement for the one row whose identity is the parameter.
pub open spec fn select_by_id_sql(
    db: DbType,
    table: Seq<char>,
    columns: Seq<Seq<char>>,
    id: Seq<char>,
) -> Seq<char> {
    select_sql(db, table, columns) + " WHERE "@ + qualified(db, table, id) + " = $1 LIMIT 1"@
}

/// The insert statement: the bound columns, one parameter for each of them,
/// numbered from one in the same order, and every column returned.
pub open spec fn insert_sql(
    db: DbType,
    table: Seq<char>,
    columns: Seq<Seq<char>>,
    id: Seq<char>,
    external_id: bool,
) -> Seq<char> {
    let bound = insert_binding(columns, id, external_id);
    "INSERT INTO "@ + quoted(db, table) + " ("@ + join(quoted_columns(db, bound), ", "@)
        + ") VALUES ("@ + join(placeholders(bound.len()), ", "@) + ") RETURNING "@ + column_list(
        db,
        table,
        columns,
    )
}

/// The update statement: every column but the identity is assigned, the
/// identity is compared with the parameter that follows the assigned ones,
/// and every column is returned.
pub open spec fn update_by_id_sql(
    db: DbType,
    table: Seq<char>,
    columns: Seq<Seq<char>>,
    id: Seq<char>,
) -> Seq<char> {
    let set = without(columns, id);
    "UPDATE "@ + quoted(db, table) + " SET "@ + join(assignments(db, set), ", "@) + " WHERE "@
        + qualified(db, table, id) + " = "@ + placeholder(set.len() + 1) + " RETURNING "@
        + column_list(db, table, columns)
}

/// The delete statement for the one row whose identity is the parameter.
pub open spec fn delete_by_id_sql(db: DbType, table: Seq<char>, id: Seq<char>) -> Seq<char> {
    "DELETE FROM "@ + quoted(db, table) + " WHERE "@ + qualified(db, table, id) + " = $1"@
}

/// The whole statement set of a table.
pub open spec fn statements(
    db: DbType,
    table: Seq<char>,
    columns: Seq<Seq<char>>,
    id: Seq<char>,
    external_id: bool,
) -> StatementTexts {
    StatementTexts {
        select_sql: select_sql(db, table, columns),
        select_by_id_sql: select_by_id_sql(db, table, columns, id),
        paginated_sql: paginated_sql(db, table, columns),
        insert_sql: insert_sql(db, table, columns, id, external_id),
        insert_binding: insert_binding(columns, id, external_id),
        update_by_id_sql: update_by_id_sql(db, table, columns, id),
        update_binding: update_binding(columns, id),
        delete_by_id_sql: delete_by_id_sql(db, table, id),
    }
}

/// Columns that statements can be made from: at least one, and the identity
/// among them exactly once.
pub open spec fn valid_columns(columns: Seq<Seq<char>>, id: Seq<char>) -> bool {
    columns.len() > 0 && occurrences(columns, id) == 1
}

/// The verdict on a column list: the first defect found, if there is one.
pub open spec fn column_defect(columns: Seq<Seq<char>>, id: Seq<char>) -> Option<ConfigError> {
    if columns.len() == 0 {
        Some(ConfigError::EmptyColumns)
    } else if occurrences(columns, id) == 0 {
        Some(ConfigError::MissingIdentity)
    } else if occurrences(columns, id) > 1 {
        Some(ConfigError::DuplicateIdentity)
    } else {
        None
    }
}

/// Wraps `name` in the quote mark of `dialect`.
pub fn quote_identifier(name: &str, dialect: DbType) -> (r: String)
    ensures
        r@ == quoted(dialect, name@),
{
    dialect.quote_ident(name)
}

/// Qualifies one column by its table.
pub fn qualified_column(table: &str, column: &str, dialect: DbType) -> (r: String)
    ensures
        r@ == qualified(dialect, table@, column@),
{
    proof {
        reveal_strlit(".");
    }
    assert("."@ =~= seq!['.']);
    let mut out = dialect.quote_ident(table);
    out.append(".");
    out.append(dialect.quote_ident(column).as_str());
    out
}

/// The qualified columns in declared order, separated by a comma and a space.
pub fn qualified_column_list(table: &str, columns: &Vec<String>, dialect: DbType) -> (r: String)
    ensures
        r@ == column_list(dialect, table@, texts(columns@)),
{
    let mut parts: Vec<String> = Vec::new();
    let mut i: usize = 0;
    while i < columns.len()
        invariant
            i <= columns.len(),
            parts.len() == i,
            forall|j: int| 0 <= j < i ==> parts@[j]@ == qualified(dialect, table@, columns@[j]@),
        decreases columns.len() - i,
    {
        parts.push(qualified_column(table, columns[i].as_str(), dialect));
        i += 1;
    }
    assert(texts(parts@) =~= qualified_columns(dialect, table@, texts(columns@)));
    join_text(&parts, ", ")
}

/// The quoted columns in the order given, separated by a comma and a space.
fn quoted_column_list(columns: &Vec<String>, dialect: DbType) -> (r: String)
    ensures
        r@ == join(quoted_columns(dialect, texts(columns@)), ", "@),
{
    let mut parts: Vec<String> = Vec::new();
    let mut i: usize = 0;
    while i < columns.len()
        invariant
            i <= columns.len(),
            parts.len() == i,
            forall|j: int| 0 <= j < i ==> parts@[j]@ == quoted(dialect, columns@[j]@),
        decreases columns.len() - i,
    {
        parts.push(dialect.quote_ident(columns[i].as_str()));
        i += 1;
    }
    assert(texts(parts@) =~= quoted_columns(dialect, texts(columns@)));
    join_text(&parts, ", ")
}

/// The positional parameter with number `n`.
fn placeholder_text(n: usize) -> (r: String)
    ensures
        r@ == placeholder(n as nat),
{
    proof {
        reveal_strlit("$");
    }
    assert("$"@ =~= seq!['$']);
    let mut out = String::from_str("$");
    out.append(decimal_text(n).as_str());
    out
}

/// The first `n` positional parameters, separated by a comma and a space.
fn placeholder_list(n: usize) -> (r: String)
    ensures
        r@ == join(placeholders(n as nat), ", "@),
{
    let mut parts: Vec<String> = Vec::new();
    let mut i: usize = 0;
    while i < n
        invariant
            i <= n,
            parts.len() == i,
            forall|j: int| 0 <= j < i ==> parts@[j]@ == placeholder((j + 1) as nat),
        decreases n - i,
    {
        parts.push(placeholder_text(i + 1));
        i += 1;
    }
    assert(texts(parts@) =~= placeholders(n as nat));
    join_text(&parts, ", ")
}

/// The assignments of an update, separated by a comma and a space.
fn assignment_list(columns: &Vec<String>, dialect: DbType) -> (r: String)
    ensures
        r@ == join(assignments(dialect, texts(columns@)), ", "@),
{
    let mut parts: Vec<String> = Vec::new();
    let mut i: usize = 0;
    while i < columns.len()
        invariant
            i <= columns.len(),
            parts.len() == i,
            forall|j: int|
                0 <= j < i ==> parts@[j]@ == quoted(dialect, columns@[j]@) + " = "@ + placeholder(
                    (j + 1) as nat,
                ),
        decreases columns.len() - i,
    {
        let mut part = dialect.quote_ident(columns[i].as_str());
        part.append(" = ");
        part.append(placeholder_text(i + 1).as_str());
        parts.push(part);
        i += 1;
    }
    assert(texts(parts@) =~= assignments(dialect, texts(columns@)));
    join_text(&parts, ", ")
}

/// The columns other than `id`, in declared order.
pub fn columns_without(columns: &Vec<String>, id: &str) -> (r: Vec<String>)
    ensures
        texts(r@) == without(texts(columns@), id@),
{
    let wanted = String::from_str(id);
    let mut out: Vec<String> = Vec::new();
    let mut i: usize = 0;
    assert(texts(columns@).take(0) =~= Seq::<Seq<char>>::empty());
    assert(texts(out@) =~= Seq::<Seq<char>>::empty());
    while i < columns.len()
        invariant
            i <= columns.len(),
            wanted@ == id@,
            texts(out@) == without(texts(columns@).take(i as int), id@),
        decreases columns.len() - i,
    {
        let ghost before = texts(columns@).take(i as int);
        let ghost after = texts(columns@).take(i + 1);
        let ghost kept = texts(out@);
        proof {
            assert(after.drop_last() =~= before);
            assert(after.last() == columns@[i as int]@);
        }
        if columns[i] != wanted {
            out.push(columns[i].clone());
            assert(texts(out@) =~= kept.push(columns@[i as int]@));
        }
        i += 1;
    }
    assert(texts(columns@).take(i as int) =~= texts(columns@));
    out
}

/// How often `id` occurs among the columns.
pub fn count_column(columns: &Vec<String>, id: &str) -> (r: usize)
    ensures
        r == occurrences(texts(columns@), id@),
{
    let wanted = String::from_str(id);
    let mut n: usize = 0;
    let mut i: usize = 0;
    assert(texts(columns@).take(0) =~= Seq::<Seq<char>>::empty());
    while i < columns.len()
        invariant
            i <= columns.len(),
            wanted@ == id@,
            n <= i,
            n == occurrences(texts(columns@).take(i as int), id@),
        decreases columns.len() - i,
    {
        proof {
            let after = texts(columns@).take(i + 1);
            assert(after.drop_last() =~= texts(columns@).take(i as int));
            assert(after.last() == columns@[i as int]@);
        }
        if columns[i] == wanted {
            n += 1;
        }
        i += 1;
    }
    assert(texts(columns@).take(i as int) =~= texts(columns@));
    n
}

/// `SELECT <qualified columns> FROM <table>`, the columns in declared order.
pub fn build_select(desc: &TableDescriptor, columns: &Vec<String>) -> (r: String)
    ensures
        r@ == select_sql(desc.dialect, desc.table_name@, texts(columns@)),
{
    let mut out = String::from_str("SELECT ");
    out.append(qualified_column_list(desc.table_name.as_str(), columns, desc.dialect).as_str());
    out.append(" FROM ");
    out.append(desc.dialect.quote_ident(desc.table_name.as_str()).as_str());
    out
}

/// The select statement with a limit and an offset as its two parameters,
/// the limit first.
pub fn build_paginated(desc: &TableDescriptor, columns: &Vec<String>) -> (r: String)
    ensures
        r@ == paginated_sql(desc.dialect, desc.table_name@, texts(columns@)),
{
    let mut out = build_select(desc, columns);
    out.append(" LIMIT $1 OFFSET $2");
    out
}

/// The select statement narrowed to the row whose identity is the one
/// parameter.
pub fn build_select_by_id(desc: &TableDescriptor, columns: &Vec<String>) -> (r: String)
    ensures
        r@ == select_by_id_sql(desc.dialect, desc.table_name@, texts(columns@), desc.id_column@),
{
    let mut out = build_select(desc, columns);
    out.append(" WHERE ");
    out.append(
        qualified_column(desc.table_name.as_str(), desc.id_column.as_str(), desc.dialect).as_str(),
    );
    out.append(" = $1 LIMIT 1");
    out
}

/// The columns an insert binds, in the order of its parameters.
pub fn insert_binding_order(desc: &TableDescriptor, columns: &Vec<String>) -> (r: Vec<String>)
    ensures
        texts(r@) == insert_binding(texts(columns@), desc.id_column@, desc.external_id),
{
    if desc.external_id {
        let all = columns.clone();
        assert(texts(all@) =~= texts(columns@));
        all
    } else {
        columns_without(columns, desc.id_column.as_str())
    }
}

/// The columns an update binds, in the order of its parameters.
pub fn update_binding_order(desc: &TableDescriptor, columns: &Vec<String>) -> (r: Vec<String>)
    ensures
        texts(r@) == update_binding(texts(columns@), desc.id_column@),
{
    let mut bound = columns_without(columns, desc.id_column.as_str());
    let ghost set = texts(bound@);
    bound.push(desc.id_column.clone());
    assert(texts(bound@) =~= set.push(desc.id_column@));
    bound
}

/// The insert statement and the columns to bind to its parameters, in the
/// order of their numbers. The statement names exactly the bound columns.
pub fn build_insert(desc: &TableDescriptor, columns: &Vec<String>) -> (r: (String, Vec<String>))
    ensures
        r.0@ == insert_sql(
            desc.dialect,
            desc.table_name@,
            texts(columns@),
            desc.id_column@,
            desc.external_id,
        ),
        texts(r.1@) == insert_binding(texts(columns@), desc.id_column@, desc.external_id),
{
    let bound = insert_binding_order(desc, columns);
    assert(texts(bound@).len() == bound.len());
    let mut out = String::from_str("INSERT INTO ");
    out.append(desc.dialect.quote_ident(desc.table_name.as_str()).as_str());
    out.append(" (");
    out.append(quoted_column_list(&bound, desc.dialect).as_str());
    out.append(") VALUES (");
    out.append(placeholder_list(bound.len()).as_str());
    out.append(") RETURNING ");
    out.append(qualified_column_list(desc.table_name.as_str(), columns, desc.dialect).as_str());
    (out, bound)
}

/// The update statement and the columns to bind to its parameters, in the
/// order of their numbers: every column but the identity is set, and the
/// identity, bound last, selects the row.
pub fn build_update_by_id(desc: &TableDescriptor, columns: &Vec<String>) -> (r: (
    String,
    Vec<String>,
))
    ensures
        r.0@ == update_by_id_sql(
            desc.dialect,
            desc.table_name@,
            texts(columns@),
            desc.id_column@,
        ),
        texts(r.1@) == update_binding(texts(columns@), desc.id_column@),
{
    let mut bound = columns_without(columns, desc.id_column.as_str());
    let ghost set = texts(bound@);
    assert(set.len() == bound.len());
    let assigned = assignment_list(&bound, desc.dialect);
    bound.push(desc.id_column.clone());
    assert(texts(bound@) =~= set.push(desc.id_column@));
    let mut out = String::from_str("UPDATE ");
    out.append(desc.dialect.quote_ident(desc.table_name.as_str()).as_str());
    out.append(" SET ");
    out.append(assigned.as_str());
    out.append(" WHERE ");
    out.append(
        qualified_column(desc.table_name.as_str(), desc.id_column.as_str(), desc.dialect).as_str(),
    );
    out.append(" = ");
    out.append(placeholder_text(bound.len()).as_str());
    out.append(" RETURNING ");
    out.append(qualified_column_list(desc.table_name.as_str(), columns, desc.dialect).as_str());
    (out, bound)
}

/// The delete statement for the row whose identity is the one parameter.
pub fn build_delete_by_id(desc: &TableDescriptor) -> (r: String)
    ensures
        r@ == delete_by_id_sql(desc.dialect, desc.table_name@, desc.id_column@),
{
    let mut out = String::from_str("DELETE FROM ");
    out.append(desc.dialect.quote_ident(desc.table_name.as_str()).as_str());
    out.append(" WHERE ");
    out.append(
        qualified_column(desc.table_name.as_str(), desc.id_column.as_str(), desc.dialect).as_str(),
    );
    out.append(" = $1");
    out
}

/// All six statements and both binding orders, whatever the columns are.
pub fn assemble(desc: &TableDescriptor, columns: &Vec<String>) -> (r: StatementSet)
    ensures
        r@ == statements(
            desc.dialect,
            desc.table_name@,
            texts(columns@),
            desc.id_column@,
            desc.external_id,
        ),
{
    let (insert_sql, insert_binding) = build_insert(desc, columns);
    let (update_by_id_sql, update_binding) = build_update_by_id(desc, columns);
    StatementSet {
        select_sql: build_select(desc, columns),
        select_by_id_sql: build_select_by_id(desc, columns),
        paginated_sql: build_paginated(desc, columns),
        insert_sql,
        insert_binding,
        update_by_id_sql,
        update_binding,
        delete_by_id_sql: build_delete_by_id(desc),
    }
}

/// Checks that there is a column and that the identity is among the columns
/// exactly once.
pub fn check_columns(columns: &Vec<String>, id: &str) -> (r: Result<(), ConfigError>)
    ensures
        match r {
            Ok(_) => column_defect(texts(columns@), id@) is None,
            Err(e) => column_defect(texts(columns@), id@) == Some(e),
        },
        r is Ok <==> valid_columns(texts(columns@), id@),
{
    assert(texts(columns@).len() == columns.len());
    if columns.len() == 0 {
        return Err(ConfigError::EmptyColumns);
    }
    let n = count_column(columns, id);
    if n == 0 {
        Err(ConfigError::MissingIdentity)
    } else if n > 1 {
        Err(ConfigError::DuplicateIdentity)
    } else {
        Ok(())
    }
}

/// The statement set of a table, or the defect of its columns: nothing is
/// produced for an empty column list nor for an identity that is missing or
/// repeated.
pub fn synthesize(desc: &TableDescriptor, columns: &Vec<String>) -> (r: Result<
    StatementSet,
    ConfigError,
>)
    ensures
        match r {
            Ok(set) => column_defect(texts(columns@), desc.id_column@) is None && set@
                == statements(
                desc.dialect,
                desc.table_name@,
                texts(columns@),
                desc.id_column@,
                desc.external_id,
            ),
            Err(e) => column_defect(texts(columns@), desc.id_column@) == Some(e),
        },
{
    match check_columns(columns, desc.id_column.as_str()) {
        Err(e) => Err(e),
        Ok(_) => Ok(assemble(desc, columns)),
    }
}

} // verus!
