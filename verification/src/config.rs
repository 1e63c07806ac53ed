//! The configuration of one record type: what its attributes and fields say
//! about the table, the identity column and the dialect.

use vstd::prelude::*;
use vstd::string::*;
use crate::dialect::{ConfigError, DbType, dialect_of, quoted};
use crate::naming::{default_table_name, schema_ident, schema_ident_text, table_case};
use crate::statements::{TableDescriptor, check_columns, column_defect, valid_columns};
use crate::text::{find_text, position, position_from, same_text, texts};

verus! {

/// An attribute: its name and the plain identifiers between its brackets, in
/// the order written.
#[derive(Debug)]
pub struct Attr {
    pub name: String,
    pub args: Vec<String>,
}

/// A named field: its name and the names of its attributes.
#[derive(Debug)]
pub struct Field {
    pub name: String,
    pub attrs: Vec<String>,
}

/// What the build tells: the package being built and the names of the
/// environment variables that are set.
#[derive(Debug)]
pub struct BuildEnv {
    pub pkg_name: String,
    pub var_names: Vec<String>,
}

/// Everything the statements and the generated code of one type depend on.
#[derive(Debug)]
pub struct Config {
    pub ident: String,
    /// The names of the fields, in declared order.
    pub columns: Vec<String>,
    /// The path under which the generated code reaches the runtime crate.
    pub crate_name: String,
    pub db_ty: DbType,
    pub model_schema_ident: String,
    pub table_name: String,
    pub id_column_ident: String,
    pub external_id: bool,
}

/// A configuration as characters.
pub ghost struct ConfigTexts {
    pub ident: Seq<char>,
    pub columns: Seq<Seq<char>>,
    pub crate_name: Seq<char>,
    pub db_ty: DbType,
    pub model_schema_ident: Seq<char>,
    pub table_name: Seq<char>,
    pub id_column_ident: Seq<char>,
    pub external_id: bool,
}

impl View for Config {
    type V = ConfigTexts;

    open spec fn view(&self) -> ConfigTexts {
        ConfigTexts {
            ident: self.ident@,
            columns: texts(self.columns@),
            crate_name: self.crate_name@,
            db_ty: self.db_ty,
            model_schema_ident: self.model_schema_ident@,
            table_name: self.table_name@,
            id_column_ident: self.id_column_ident@,
            external_id: self.external_id,
        }
    }
}

/// The names of the attributes, in order.
pub open spec fn attr_names(attrs: Seq<Attr>) -> Seq<Seq<char>> {
    Seq::new(attrs.len(), |i: int| attrs[i].name@)
}

/// The names of the fields, in order.
pub open spec fn field_names(fields: Seq<Field>) -> Seq<Seq<char>> {
    Seq::new(fields.len(), |i: int| fields[i].name@)
}

/// The dialect that a list of tokens selects: each token must name one, the
/// last one counts, and an empty list selects `Sqlite`.
pub open spec fn selected_dialect(tokens: Seq<Seq<char>>) -> Result<DbType, ConfigError>
    decreases tokens.len(),
{
    if tokens.len() == 0 {
        Ok(DbType::Sqlite)
    } else if selected_dialect(tokens.drop_last()) is Err {
        Err(ConfigError::UnknownDialect)
    } else {
        match dialect_of(tokens.last()) {
            Some(db) => Ok(db),
            None => Err(ConfigError::UnknownDialect),
        }
    }
}

/// The dialect that the attributes configure: that of the first `database`
/// attribute, `Sqlite` where there is none.
pub open spec fn configured_dialect(attrs: Seq<Attr>) -> Result<DbType, ConfigError> {
    match position(attr_names(attrs), "database"@) {
        Some(k) => selected_dialect(texts(attrs[k].args@)),
        None => Ok(DbType::Sqlite),
    }
}

/// Whether a field carries the `id` attribute.
pub open spec fn is_marked(field: Field) -> bool {
    position(texts(field.attrs@), "id"@) is Some
}

/// The position of the first field from `start` on that carries the `id`
/// attribute.
pub open spec fn first_marked_from(fields: Seq<Field>, start: int) -> Option<int>
    decreases fields.len() - start,
{
    if start < 0 || start >= fields.len() {
        None
    } else if is_marked(fields[start]) {
        Some(start)
    } else {
        first_marked_from(fields, start + 1)
    }
}

/// The position of the identity field: the first field that carries the `id`
/// attribute, the first field of all where none does. Needs a field.
pub open spec fn identity_position(fields: Seq<Field>) -> int {
    match first_marked_from(fields, 0) {
        Some(k) => k,
        None => 0,
    }
}

/// The table name that the attributes configure: the last identifier of the
/// first `table` attribute, `fallback` where there is none.
pub open spec fn configured_table(attrs: Seq<Attr>, fallback: Seq<char>) -> Seq<char> {
    match position(attr_names(attrs), "table"@) {
        Some(k) => if attrs[k].args@.len() > 0 {
            attrs[k].args@.last()@
        } else {
            fallback
        },
        None => fallback,
    }
}

/// Whether the build is that of a documentation test.
pub open spec fn in_doctest(var_names: Seq<Seq<char>>) -> bool {
    position(var_names, "UNSTABLE_RUSTDOC_TEST_LINE"@) is Some || position(
        var_names,
        "UNSTABLE_RUSTDOC_TEST_PATH"@,
    ) is Some
}

/// The path to the runtime crate: `crate` inside that crate itself, its
/// absolute path elsewhere and in documentation tests.
pub open spec fn runtime_path(pkg_name: Seq<char>, var_names: Seq<Seq<char>>) -> Seq<char> {
    if !in_doctest(var_names) && pkg_name == "sqlx-crud"@ {
        "crate"@
    } else {
        "::sqlx_crud"@
    }
}

/// The configuration that attributes, type name and fields amount to, given
/// the two names derived from the type name; or the first defect, looked for
/// in this order: an unknown dialect, no field, a repeated identity.
pub open spec fn configured(
    attrs: Seq<Attr>,
    ident: Seq<char>,
    fields: Seq<Field>,
    pkg_name: Seq<char>,
    var_names: Seq<Seq<char>>,
    table_fallback: Seq<char>,
    schema_name: Seq<char>,
) -> Result<ConfigTexts, ConfigError> {
    match configured_dialect(attrs) {
        Err(e) => Err(e),
        Ok(db) => if fields.len() == 0 {
            Err(ConfigError::EmptyColumns)
        } else {
            let id = fields[identity_position(fields)].name@;
            match column_defect(field_names(fields), id) {
                Some(e) => Err(e),
                None => Ok(
                    ConfigTexts {
                        ident: ident,
                        columns: field_names(fields),
                        crate_name: runtime_path(pkg_name, var_names),
                        db_ty: db,
                        model_schema_ident: schema_name,
                        table_name: configured_table(attrs, table_fallback),
                        id_column_ident: id,
                        external_id: position(attr_names(attrs), "external_id"@) is Some,
                    },
                ),
            }
        },
    }
}

/// Finds the first attribute called `name`.
pub fn find_attr(attrs: &Vec<Attr>, name: &str) -> (r: Option<usize>)
    ensures
        match r {
            Some(k) => k < attrs.len() && position(attr_names(attrs@), name@) == Some(k as int),
            None => position(attr_names(attrs@), name@) is None,
        },
{
    let wanted = String::from_str(name);
    let mut i: usize = 0;
    while i < attrs.len()
        invariant
            i <= attrs.len(),
            wanted@ == name@,
            position(attr_names(attrs@), name@) == position_from(
                attr_names(attrs@),
                name@,
                i as int,
            ),
        decreases attrs.len() - i,
    {
        if attrs[i].name == wanted {
            return Some(i);
        }
        i += 1;
    }
    None
}

/// Finds the first field that carries the `id` attribute.
pub fn find_marked(fields: &Vec<Field>) -> (r: Option<usize>)
    ensures
        match r {
            Some(k) => k < fields.len() && first_marked_from(fields@, 0) == Some(k as int),
            None => first_marked_from(fields@, 0) is None,
        },
{
    let mut i: usize = 0;
    while i < fields.len()
        invariant
            i <= fields.len(),
            first_marked_from(fields@, 0) == first_marked_from(fields@, i as int),
        decreases fields.len() - i,
    {
        if find_text(&fields[i].attrs, "id").is_some() {
            return Some(i);
        }
        i += 1;
    }
    None
}

/// Whether the build is that of a documentation test.
pub fn is_doctest(var_names: &Vec<String>) -> (r: bool)
    ensures
        r == in_doctest(texts(var_names@)),
{
    find_text(var_names, "UNSTABLE_RUSTDOC_TEST_LINE").is_some() || find_text(
        var_names,
        "UNSTABLE_RUSTDOC_TEST_PATH",
    ).is_some()
}

/// The dialect that a list of tokens selects.
pub fn select_dialect(tokens: &Vec<String>) -> (r: Result<DbType, ConfigError>)
    ensures
        r == selected_dialect(texts(tokens@)),
{
    let mut db_type = DbType::Sqlite;
    let mut i: usize = 0;
    assert(texts(tokens@).take(0) =~= Seq::<Seq<char>>::empty());
    while i < tokens.len()
        invariant
            i <= tokens.len(),
            selected_dialect(texts(tokens@).take(i as int)) == Ok::<DbType, ConfigError>(db_type),
        decreases tokens.len() - i,
    {
        proof {
            let after = texts(tokens@).take(i + 1);
            assert(after.drop_last() =~= texts(tokens@).take(i as int));
            assert(after.last() == tokens@[i as int]@);
        }
        match DbType::from(tokens[i].as_str()) {
            Ok(db) => {
                db_type = db;
            },
            Err(e) => {
                proof {
                    lemma_unknown_token_spoils(texts(tokens@), i + 1);
                }
                return Err(e);
            },
        }
        i += 1;
    }
    assert(texts(tokens@).take(i as int) =~= texts(tokens@));
    Ok(db_type)
}

impl DbType {
    /// The dialect that the attributes configure. Every identifier of the
    /// first `database` attribute must name a dialect, and the last one
    /// counts; without such an attribute the dialect is `Sqlite`.
    pub fn new(attrs: &Vec<Attr>) -> (r: Result<DbType, ConfigError>)
        ensures
            r == configured_dialect(attrs@),
    {
        match find_attr(attrs, "database") {
            None => Ok(DbType::Sqlite),
            Some(k) => select_dialect(&attrs[k].args),
        }
    }
}

/// Once a front part of the tokens selects no dialect, the whole list
/// selects none.
pub proof fn lemma_unknown_token_spoils(tokens: Seq<Seq<char>>, n: int)
    requires
        0 <= n <= tokens.len(),
        selected_dialect(tokens.take(n)) is Err,
    ensures
        selected_dialect(tokens) == Err::<DbType, ConfigError>(ConfigError::UnknownDialect),
    decreases tokens.len() - n,
{
    if n == tokens.len() {
        assert(tokens.take(n) =~= tokens);
    } else {
        let next = tokens.take(n + 1);
        assert(next.drop_last() =~= tokens.take(n));
        lemma_unknown_token_spoils(tokens, n + 1);
    }
}

/// The names of the fields, in declared order.
pub fn column_names(fields: &Vec<Field>) -> (r: Vec<String>)
    ensures
        texts(r@) == field_names(fields@),
{
    let mut out: Vec<String> = Vec::new();
    let mut i: usize = 0;
    while i < fields.len()
        invariant
            i <= fields.len(),
            out.len() == i,
            forall|j: int| 0 <= j < i ==> out@[j]@ == fields@[j].name@,
        decreases fields.len() - i,
    {
        out.push(fields[i].name.clone());
        i += 1;
    }
    assert(texts(out@) =~= field_names(fields@));
    out
}

impl Config {
    /// The identity is among the columns exactly once.
    pub open spec fn wf(&self) -> bool {
        valid_columns(texts(self.columns@), self.id_column_ident@)
    }

    /// Puts a configuration together from attributes, type name and fields,
    /// with the two names derived from the type name handed in: the table
    /// name to use where no `table` attribute gives one, and the name of
    /// the schema constant.
    pub fn with_names(
        attrs: &Vec<Attr>,
        ident: &str,
        fields: &Vec<Field>,
        env: &BuildEnv,
        table_fallback: String,
        schema_name: String,
    ) -> (r: Result<Config, ConfigError>)
        ensures
            match r {
                Ok(c) => c.wf() && configured(
                    attrs@,
                    ident@,
                    fields@,
                    env.pkg_name@,
                    texts(env.var_names@),
                    table_fallback@,
                    schema_name@,
                ) == Ok::<ConfigTexts, ConfigError>(c@),
                Err(e) => configured(
                    attrs@,
                    ident@,
                    fields@,
                    env.pkg_name@,
                    texts(env.var_names@),
                    table_fallback@,
                    schema_name@,
                ) == Err::<ConfigTexts, ConfigError>(e),
            },
    {
        let db_ty = match DbType::new(attrs) {
            Ok(db) => db,
            Err(e) => {
                return Err(e);
            },
        };
        if fields.len() == 0 {
            return Err(ConfigError::EmptyColumns);
        }
        let id_field = match find_marked(fields) {
            Some(k) => k,
            None => 0,
        };
        let id_column_ident = fields[id_field].name.clone();
        let columns = column_names(fields);
        match check_columns(&columns, id_column_ident.as_str()) {
            Err(e) => {
                return Err(e);
            },
            Ok(_) => {},
        }
        let external_id = find_attr(attrs, "external_id").is_some();
        let table_name = match find_attr(attrs, "table") {
            Some(k) => {
                let args = &attrs[k].args;
                if args.len() > 0 {
                    args[args.len() - 1].clone()
                } else {
                    table_fallback
                }
            },
            None => table_fallback,
        };
        let crate_name = if !is_doctest(&env.var_names) && same_text(
            env.pkg_name.as_str(),
            "sqlx-crud",
        ) {
            String::from_str("crate")
        } else {
            String::from_str("::sqlx_crud")
        };
        Ok(
            Config {
                ident: String::from_str(ident),
                columns,
                crate_name,
                db_ty,
                model_schema_ident: schema_name,
                table_name,
                id_column_ident,
                external_id,
            },
        )
    }

    /// Reads the configuration of a type from its attributes and fields.
    /// The table name without a `table` attribute is the type's name in
    /// table case, and the schema constant is named after the type in
    /// screaming snake case.
    pub fn new(attrs: &Vec<Attr>, ident: &str, fields: &Vec<Field>, env: &BuildEnv) -> (r: Result<
        Config,
        ConfigError,
    >)
        ensures
            match r {
                Ok(c) => c.wf() && configured(
                    attrs@,
                    ident@,
                    fields@,
                    env.pkg_name@,
                    texts(env.var_names@),
                    table_case(ident@),
                    schema_ident_text(ident@),
                ) == Ok::<ConfigTexts, ConfigError>(c@),
                Err(e) => configured(
                    attrs@,
                    ident@,
                    fields@,
                    env.pkg_name@,
                    texts(env.var_names@),
                    table_case(ident@),
                    schema_ident_text(ident@),
                ) == Err::<ConfigTexts, ConfigError>(e),
            },
    {
        let table_fallback = default_table_name(ident);
        let schema_name = schema_ident(ident);
        Config::with_names(attrs, ident, fields, env, table_fallback, schema_name)
    }

    /// Wraps `ident` in the quote mark of the configured dialect.
    pub fn quote_ident(&self, ident: &str) -> (r: String)
        ensures
            r@ == quoted(self.db_ty, ident@),
    {
        self.db_ty.quote_ident(ident)
    }

    /// The table as the statement builders take it.
    pub fn descriptor(&self) -> (r: TableDescriptor)
        ensures
            r.table_name@ == self.table_name@,
            r.dialect == self.db_ty,
            r.id_column@ == self.id_column_ident@,
            r.external_id == self.external_id,
    {
        TableDescriptor {
            table_name: self.table_name.clone(),
            dialect: self.db_ty,
            id_column: self.id_column_ident.clone(),
            external_id: self.external_id,
        }
    }
}

} // verus!
