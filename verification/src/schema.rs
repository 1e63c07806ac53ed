//! What is generated for one configured type: its statements, its static
//! schema and the plan of the argument lists that bind a record.

use vstd::prelude::*;
use vstd::string::*;
use crate::config::Config;
use crate::dialect::driver_path;
use crate::laws::lemma_occurs_contains;
use crate::statements::{
    StatementSet, assemble, insert_binding, insert_binding_order, statements, update_binding,
    update_binding_order,
};
use crate::text::{find_text, lemma_position_from, position, texts};

verus! {

/// The static description of a table: its names and its statements.
#[derive(Debug)]
pub struct ModelSchema {
    /// The name of the constant that holds the schema.
    pub ident: String,
    pub table_name: String,
    pub id_column: String,
    pub columns: Vec<String>,
    pub queries: StatementSet,
}

/// How a record of the type is bound to the parameters of its statements.
#[derive(Debug)]
pub struct CrudImpl {
    /// The path of the driver type of the dialect.
    pub driver: String,
    /// The place of the identity among the fields.
    pub id_field: usize,
    /// The fields bound by an insert, in the order of its parameters.
    pub insert_args: Vec<String>,
    /// The fields bound by an update, in the order of its parameters.
    pub update_args: Vec<String>,
}

/// The statements of a configured type.
pub fn build_sql_queries(config: &Config) -> (r: StatementSet)
    ensures
        r@ == statements(
            config.db_ty,
            config.table_name@,
            texts(config.columns@),
            config.id_column_ident@,
            config.external_id,
        ),
{
    let desc = config.descriptor();
    assemble(&desc, &config.columns)
}

/// The static schema of a configured type.
pub fn build_static_model_schema(config: &Config) -> (r: ModelSchema)
    ensures
        r.ident@ == config.model_schema_ident@,
        r.table_name@ == config.table_name@,
        r.id_column@ == config.id_column_ident@,
        texts(r.columns@) == texts(config.columns@),
        r.queries@ == statements(
            config.db_ty,
            config.table_name@,
            texts(config.columns@),
            config.id_column_ident@,
            config.external_id,
        ),
{
    let columns = config.columns.clone();
    assert(texts(columns@) =~= texts(config.columns@));
    ModelSchema {
        ident: config.model_schema_ident.clone(),
        table_name: config.table_name.clone(),
        id_column: config.id_column_ident.clone(),
        columns,
        queries: build_sql_queries(config),
    }
}

/// The binding plan of a configured type. The argument lists are the binding
/// orders of the insert and the update statement, so that each value meets
/// the parameter that stands for its column.
pub fn build_sqlx_crud_impl(config: &Config) -> (r: CrudImpl)
    requires
        config.wf(),
    ensures
        r.driver@ == driver_path(config.db_ty),
        position(texts(config.columns@), config.id_column_ident@) == Some(r.id_field as int),
        texts(r.insert_args@) == insert_binding(
            texts(config.columns@),
            config.id_column_ident@,
            config.external_id,
        ),
        texts(r.update_args@) == update_binding(texts(config.columns@), config.id_column_ident@),
{
    let desc = config.descriptor();
    let id_field = match find_text(&config.columns, config.id_column_ident.as_str()) {
        Some(k) => k,
        None => {
            proof {
                let names = texts(config.columns@);
                lemma_occurs_contains(names, config.id_column_ident@);
                lemma_position_from(names, config.id_column_ident@, 0);
                let k = choose|k: int|
                    0 <= k < names.len() && names[k] == config.id_column_ident@;
                assert(names[k] != config.id_column_ident@);
            }
            0
        },
    };
    let insert_args = insert_binding_order(&desc, &config.columns);
    let update_args = update_binding_order(&desc, &config.columns);
    CrudImpl { driver: config.db_ty.sqlx_db(), id_field, insert_args, update_args }
}

} // verus!
