//! Expressions: pieces of a query that have a SQL type.

use vstd::prelude::*;
use vstd::string::StringExecFns;
use core::marker::PhantomData;
use crate::backend::Backend;
use crate::query_builder::{AstPass, QueryFragment, Rendering};
use crate::result::QueryResult;

verus! {

/// A piece of a query that has a value, of the SQL type `SqlType`.
pub trait Expression {
    type SqlType;
}

/// SQL text taken as an expression of the SQL type `ST`.
pub struct SqlLiteral<ST> {
    sql: String,
    sql_type: PhantomData<ST>,
}

impl<ST> SqlLiteral<ST> {
    /// The text of the literal.
    pub closed spec fn text(&self) -> Seq<char> {
        self.sql@
    }

    /// The expression that is written as `sql`.
    pub fn new(sql: &str) -> (literal: Self)
        ensures
            literal.text() == sql@,
    {
        SqlLiteral { sql: sql.to_owned(), sql_type: PhantomData }
    }
}

impl<ST> Expression for SqlLiteral<ST> {
    type SqlType = ST;
}

impl<ST, DB: Backend> QueryFragment<DB> for SqlLiteral<ST> {
    open spec fn rendered(&self) -> Rendering {
        Ok(self.text())
    }

    fn walk_ast(&self, out: &mut AstPass<DB>) -> (result: QueryResult<()>) {
        out.push_sql(self.sql.as_str());
        Ok(())
    }
}

} // verus!
