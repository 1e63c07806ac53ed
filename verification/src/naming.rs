//! Names derived from a type's name by the casing conventions of `inflector`.

use vstd::prelude::*;
use vstd::string::*;

verus! {

/// The table case of a name: snake case with its last word in the plural.
pub uninterp spec fn table_case(name: Seq<char>) -> Seq<char>;

/// The screaming snake case of a name: upper case words with `_` between them.
pub uninterp spec fn screaming_snake_case(name: Seq<char>) -> Seq<char>;

/// The name of the schema constant of a type.
pub open spec fn schema_ident_text(ident: Seq<char>) -> Seq<char> {
    screaming_snake_case(ident) + "_SCHEMA"@
}

/// Calls `inflector::cases::tablecase::to_table_case`. Trusted: the result is
/// a function of the characters handed in, named `table_case`; nothing more
/// is claimed of it.
#[verifier::external_body]
fn to_table_case(name: &str) -> (r: String)
    ensures
        r@ == table_case(name@),
{
    inflector::cases::tablecase::to_table_case(name)
}

/// Calls `inflector::cases::screamingsnakecase::to_screaming_snake_case`.
/// Trusted: the result is a function of the characters handed in, named
/// `screaming_snake_case`; nothing more is claimed of it.
#[verifier::external_body]
fn to_screaming_snake_case(name: &str) -> (r: String)
    ensures
        r@ == screaming_snake_case(name@),
{
    inflector::cases::screamingsnakecase::to_screaming_snake_case(name)
}

/// The table name a type gets where none is configured.
pub fn default_table_name(ident: &str) -> (r: String)
    ensures
        r@ == table_case(ident@),
{
    to_table_case(ident)
}

/// The name of the schema constant of a type.
pub fn schema_ident(ident: &str) -> (r: String)
    ensures
        r@ == schema_ident_text(ident@),
{
    let mut out = to_screaming_snake_case(ident);
    out.append("_SCHEMA");
    out
}

} // verus!
