//! The supported database dialects and how each quotes an identifier.

use vstd::prelude::*;
use vstd::string::*;
use crate::text::same_text;

verus! {

/// Why a configuration cannot be turned into statements.
#[derive(Debug, Clone, Copy, PartialEq, Eq, Structural)]
pub enum ConfigError {
    /// The dialect token is none of the five known ones.
    UnknownDialect,
    /// There is no column at all.
    EmptyColumns,
    /// The identity column is not among the columns.
    MissingIdentity,
    /// The identity column occurs more than once among the columns.
    DuplicateIdentity,
}

/// A database product's variant of SQL.
#[derive(Debug, Clone, Copy, PartialEq, Eq, Structural)]
pub enum DbType {
    Any,
    Mssql,
    MySql,
    Postgres,
    Sqlite,
}

/// The character a dialect puts on both sides of an identifier.
pub open spec fn quote_mark(db: DbType) -> char {
    match db {
        DbType::MySql => '`',
        _ => '"',
    }
}

/// `name` between two quote marks of the dialect; nothing inside is escaped.
pub open spec fn quoted(db: DbType, name: Seq<char>) -> Seq<char> {
    seq![quote_mark(db)] + name + seq![quote_mark(db)]
}

/// The dialect a token names, if it names one. Tokens are case sensitive.
pub open spec fn dialect_of(token: Seq<char>) -> Option<DbType> {
    if token == "Any"@ {
        Some(DbType::Any)
    } else if token == "Mssql"@ {
        Some(DbType::Mssql)
    } else if token == "MySql"@ {
        Some(DbType::MySql)
    } else if token == "Postgres"@ {
        Some(DbType::Postgres)
    } else if token == "Sqlite"@ {
        Some(DbType::Sqlite)
    } else {
        None
    }
}

/// The path of the driver type that stands for a dialect.
pub open spec fn driver_path(db: DbType) -> Seq<char> {
    match db {
        DbType::Any => "::sqlx::Any"@,
        DbType::Mssql => "::sqlx::Mssql"@,
        DbType::MySql => "::sqlx::MySql"@,
        DbType::Postgres => "::sqlx::Postgres"@,
        DbType::Sqlite => "::sqlx::Sqlite"@,
    }
}

impl DbType {
    /// Reads a dialect token. An unknown token is an error, never a default.
    pub fn from(db_type: &str) -> (r: Result<DbType, ConfigError>)
        ensures
            r == match dialect_of(db_type@) {
                Some(db) => Ok::<DbType, ConfigError>(db),
                None => Err(ConfigError::UnknownDialect),
            },
    {
        if same_text(db_type, "Any") {
            Ok(DbType::Any)
        } else if same_text(db_type, "Mssql") {
            Ok(DbType::Mssql)
        } else if same_text(db_type, "MySql") {
            Ok(DbType::MySql)
        } else if same_text(db_type, "Postgres") {
            Ok(DbType::Postgres)
        } else if same_text(db_type, "Sqlite") {
            Ok(DbType::Sqlite)
        } else {
            Err(ConfigError::UnknownDialect)
        }
    }

    /// The path of the driver type for this dialect, as text.
    pub fn sqlx_db(&self) -> (r: String)
        ensures
            r@ == driver_path(*self),
    {
        match self {
            DbType::Any => String::from_str("::sqlx::Any"),
            DbType::Mssql => String::from_str("::sqlx::Mssql"),
            DbType::MySql => String::from_str("::sqlx::MySql"),
            DbType::Postgres => String::from_str("::sqlx::Postgres"),
            DbType::Sqlite => String::from_str("::sqlx::Sqlite"),
        }
    }

    /// Wraps `ident` in the dialect's quote mark.
    pub fn quote_ident(&self, ident: &str) -> (r: String)
        ensures
            r@ == quoted(*self, ident@),
    {
        proof {
            reveal_strlit("`");
            reveal_strlit("\"");
        }
        let mark = match self {
            DbType::MySql => "`",
            _ => "\"",
        };
        assert(mark@ =~= seq![quote_mark(*self)]);
        let mut out = String::from_str(mark);
        out.append(ident);
        out.append(mark);
        out
    }
}

} // verus!
