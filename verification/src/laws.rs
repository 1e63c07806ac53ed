//! What holds of every statement set: the order of the columns, the match of
//! parameter numbers and binding order, and the place of the identity.

use vstd::prelude::*;
use crate::dialect::{DbType, quoted};
use crate::statements::{
    StatementSet, assignments, column_list, insert_binding, insert_sql, occurrences, placeholder,
    placeholders, qualified, qualified_columns, quoted_columns, select_sql, statements,
    update_binding, update_by_id_sql, valid_columns, without,
};
use crate::text::{decimal, digit, join};

verus! {

/// Leaving the identity out shortens the columns by the number of times it
/// occurs among them.
pub proof fn lemma_without_len(columns: Seq<Seq<char>>, id: Seq<char>)
    ensures
        without(columns, id).len() + occurrences(columns, id) == columns.len(),
    decreases columns.len(),
{
    if columns.len() > 0 {
        lemma_without_len(columns.drop_last(), id);
    }
}

/// The columns left after the identity is taken out are those that differ
/// from it, and no others.
pub proof fn lemma_without_members(columns: Seq<Seq<char>>, id: Seq<char>, column: Seq<char>)
    ensures
        without(columns, id).contains(column) <==> columns.contains(column) && column != id,
    decreases columns.len(),
{
    if columns.len() > 0 {
        let front = columns.drop_last();
        let last = columns.last();
        lemma_without_members(front, id, column);
        assert(columns =~= front.push(last));
        if columns.contains(column) {
            let k = choose|k: int| 0 <= k < columns.len() && columns[k] == column;
            if k < front.len() {
                assert(front[k] == column);
            }
        }
        if front.contains(column) {
            let k = choose|k: int| 0 <= k < front.len() && front[k] == column;
            assert(columns[k] == column);
        }
        assert(columns[columns.len() - 1] == last);
        let kept = without(front, id);
        if last != id {
            let all = kept.push(last);
            assert(all[all.len() - 1] == last);
            if kept.contains(column) {
                let k = choose|k: int| 0 <= k < kept.len() && kept[k] == column;
                assert(all[k] == column);
            }
            if all.contains(column) {
                let k = choose|k: int| 0 <= k < all.len() && all[k] == column;
                if k < kept.len() {
                    assert(kept[k] == column);
                }
            }
        }
    }
}

/// The identity occurs among the columns at least once exactly if they
/// contain it.
pub proof fn lemma_occurs_contains(columns: Seq<Seq<char>>, id: Seq<char>)
    ensures
        occurrences(columns, id) > 0 <==> columns.contains(id),
    decreases columns.len(),
{
    if columns.len() > 0 {
        let front = columns.drop_last();
        lemma_occurs_contains(front, id);
        assert(columns[columns.len() - 1] == columns.last());
        if front.contains(id) {
            let k = choose|k: int| 0 <= k < front.len() && front[k] == id;
            assert(columns[k] == id);
        }
        if columns.contains(id) && columns.last() != id {
            let k = choose|k: int| 0 <= k < columns.len() && columns[k] == id;
            assert(front[k] == id);
        }
    }
}

/// The select statement lists the columns in their declared order: its list
/// has one entry for each column, and the entry at each place is the column
/// declared at that place, qualified by the table.
pub proof fn lemma_select_keeps_declared_order(
    db: DbType,
    table: Seq<char>,
    columns: Seq<Seq<char>>,
)
    ensures
        select_sql(db, table, columns) == "SELECT "@ + join(
            qualified_columns(db, table, columns),
            ", "@,
        ) + " FROM "@ + quoted(db, table),
        qualified_columns(db, table, columns).len() == columns.len(),
        forall|i: int|
            0 <= i < columns.len() ==> #[trigger] qualified_columns(db, table, columns)[i]
                == qualified(db, table, columns[i]),
{
}

/// In an update every column but the identity is set, so there is one
/// parameter fewer in the assignments than there are columns. The binding
/// order has one entry more than the assignments, the identity last; the
/// assignment at each place sets the column bound at that place to the
/// parameter with that place's number; and the identity, which is set
/// nowhere, is compared with the parameter of the highest number.
pub proof fn lemma_update_binding_matches_parameters(
    db: DbType,
    table: Seq<char>,
    columns: Seq<Seq<char>>,
    id: Seq<char>,
)
    requires
        valid_columns(columns, id),
    ensures
        assignments(db, without(columns, id)).len() == columns.len() - 1,
        update_binding(columns, id).len() == assignments(db, without(columns, id)).len() + 1,
        update_binding(columns, id).last() == id,
        forall|i: int|
            0 <= i < columns.len() - 1 ==> #[trigger] update_binding(columns, id)[i] != id,
        forall|i: int|
            0 <= i < columns.len() - 1 ==> #[trigger] assignments(db, without(columns, id))[i]
                == quoted(db, update_binding(columns, id)[i]) + " = "@ + placeholder(
                (i + 1) as nat,
            ),
        update_by_id_sql(db, table, columns, id) == "UPDATE "@ + quoted(db, table) + " SET "@
            + join(assignments(db, update_binding(columns, id).drop_last()), ", "@) + " WHERE "@
            + qualified(db, table, id) + " = "@ + placeholder(update_binding(columns, id).len())
            + " RETURNING "@ + column_list(db, table, columns),
{
    let set = without(columns, id);
    lemma_without_len(columns, id);
    assert(update_binding(columns, id).drop_last() =~= set);
    assert forall|i: int| 0 <= i < columns.len() - 1 implies #[trigger] update_binding(
        columns,
        id,
    )[i] != id by {
        lemma_without_members(columns, id, id);
        assert(update_binding(columns, id)[i] == set[i]);
    }
}

/// Where the database generates the identity, an insert neither names nor
/// binds it: the bound columns are the declared ones that differ from the
/// identity, one fewer than the columns, and the statement has one
/// parameter for each of them.
pub proof fn lemma_insert_leaves_identity_out(
    db: DbType,
    table: Seq<char>,
    columns: Seq<Seq<char>>,
    id: Seq<char>,
)
    requires
        valid_columns(columns, id),
    ensures
        !insert_binding(columns, id, false).contains(id),
        forall|column: Seq<char>|
            insert_binding(columns, id, false).contains(column) <==> columns.contains(column)
                && column != id,
        insert_binding(columns, id, false).len() == columns.len() - 1,
        insert_sql(db, table, columns, id, false) == "INSERT INTO "@ + quoted(db, table) + " ("@
            + join(quoted_columns(db, insert_binding(columns, id, false)), ", "@)
            + ") VALUES ("@ + join(placeholders((columns.len() - 1) as nat), ", "@)
            + ") RETURNING "@ + column_list(db, table, columns),
{
    lemma_without_len(columns, id);
    lemma_without_members(columns, id, id);
    assert forall|column: Seq<char>|
        insert_binding(columns, id, false).contains(column) <==> columns.contains(column) && column
            != id by {
        lemma_without_members(columns, id, column);
    }
}

/// Where the caller supplies the identity, an insert names and binds every
/// column, the identity among them, in declared order.
pub proof fn lemma_insert_keeps_external_identity(
    db: DbType,
    table: Seq<char>,
    columns: Seq<Seq<char>>,
    id: Seq<char>,
)
    requires
        valid_columns(columns, id),
    ensures
        insert_binding(columns, id, true) == columns,
        insert_binding(columns, id, true).contains(id),
        insert_binding(columns, id, true).len() == columns.len(),
        insert_sql(db, table, columns, id, true) == "INSERT INTO "@ + quoted(db, table) + " ("@
            + join(quoted_columns(db, columns), ", "@) + ") VALUES ("@ + join(
            placeholders(columns.len()),
            ", "@,
        ) + ") RETURNING "@ + column_list(db, table, columns),
{
    lemma_occurs_contains(columns, id);
}

/// Two statement sets made from the same descriptor and columns are equal,
/// character for character.
pub proof fn lemma_synthesis_is_deterministic(
    first: StatementSet,
    second: StatementSet,
    db: DbType,
    table: Seq<char>,
    columns: Seq<Seq<char>>,
    id: Seq<char>,
    external_id: bool,
)
    requires
        first@ == statements(db, table, columns, id, external_id),
        second@ == statements(db, table, columns, id, external_id),
    ensures
        first@ == second@,
        first.select_sql@ == second.select_sql@,
        first.select_by_id_sql@ == second.select_by_id_sql@,
        first.paginated_sql@ == second.paginated_sql@,
        first.insert_sql@ == second.insert_sql@,
        first.update_by_id_sql@ == second.update_by_id_sql@,
        first.delete_by_id_sql@ == second.delete_by_id_sql@,
{
}

/// A decimal numeral has at least one digit.
pub proof fn lemma_decimal_nonempty(n: nat)
    ensures
        decimal(n).len() >= 1,
    decreases n,
{
    if n >= 10 {
        lemma_decimal_nonempty(n / 10);
    }
}

/// Different values below ten have different digits.
pub proof fn lemma_digit_distinct(a: nat, b: nat)
    requires
        a < 10,
        b < 10,
        digit(a) == digit(b),
    ensures
        a == b,
{
}

/// Different numbers have different numerals.
pub proof fn lemma_decimal_distinct(a: nat, b: nat)
    requires
        decimal(a) == decimal(b),
    ensures
        a == b,
    decreases a,
{
    if a < 10 && b < 10 {
        assert(seq![digit(a)][0] == digit(a));
        assert(seq![digit(b)][0] == digit(b));
        lemma_digit_distinct(a, b);
    } else if a < 10 {
        lemma_decimal_nonempty(b / 10);
        assert(decimal(a).len() == 1);
        assert(decimal(b).len() == decimal(b / 10).len() + 1);
    } else if b < 10 {
        lemma_decimal_nonempty(a / 10);
        assert(decimal(b).len() == 1);
        assert(decimal(a).len() == decimal(a / 10).len() + 1);
    } else {
        let front_a = decimal(a / 10);
        let front_b = decimal(b / 10);
        let whole_a = front_a.push(digit(a % 10));
        let whole_b = front_b.push(digit(b % 10));
        assert(whole_a.drop_last() =~= front_a);
        assert(whole_b.drop_last() =~= front_b);
        assert(whole_a.last() == digit(a % 10));
        assert(whole_b.last() == digit(b % 10));
        assert(decimal(a) == whole_a);
        assert(decimal(b) == whole_b);
        assert(front_a == front_b);
        lemma_decimal_distinct(a / 10, b / 10);
        lemma_digit_distinct(a % 10, b % 10);
        assert(a == 10 * (a / 10) + a % 10);
        assert(b == 10 * (b / 10) + b % 10);
    }
}

/// No two parameters of a statement share their text: a value bound at one
/// place can meet no parameter but the one with that place's number.
pub proof fn lemma_parameters_distinct(m: nat, n: nat)
    requires
        placeholder(m) == placeholder(n),
    ensures
        m == n,
{
    let a = placeholder(m);
    let b = placeholder(n);
    assert(a.subrange(1, a.len() as int) =~= decimal(m));
    assert(b.subrange(1, b.len() as int) =~= decimal(n));
    lemma_decimal_distinct(m, n);
}

} // verus!
