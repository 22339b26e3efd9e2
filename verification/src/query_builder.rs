//! The little of query building that an expression needs to write itself as
//! SQL text.

use vstd::prelude::*;
use vstd::string::StringExecFns;
use core::marker::PhantomData;
use crate::backend::Backend;
use crate::result::{Failure, QueryResult};

verus! {

/// The SQL text of a query while it is being written for backend `DB`.
pub struct AstPass<DB: Backend> {
    sql: String,
    backend: PhantomData<DB>,
}

impl<DB: Backend> View for AstPass<DB> {
    type V = Seq<char>;

    closed spec fn view(&self) -> Seq<char> {
        self.sql@
    }
}

impl<DB: Backend> AstPass<DB> {
    /// An empty text.
    pub fn new() -> (pass: Self)
        ensures
            pass@ == Seq::<char>::empty(),
    {
        AstPass { sql: String::new(), backend: PhantomData }
    }

    /// Appends `sql`.
    pub fn push_sql(&mut self, sql: &str)
        ensures
            final(self)@ == old(self)@ + sql@,
    {
        self.sql.append(sql);
    }

    /// The text written so far.
    pub fn sql(&self) -> (sql: &str)
        ensures
            sql@ == self@,
    {
        self.sql.as_str()
    }
}

/// What writing a piece of a query yields: its SQL text, or an error.
pub type Rendering = Result<Seq<char>, Failure>;

/// A piece of a query that can write itself as SQL text for backend `DB`.
pub trait QueryFragment<DB: Backend> {
    /// What the piece writes.
    spec fn rendered(&self) -> Rendering;

    /// Writes the piece to the end of `out`.
    fn walk_ast(&self, out: &mut AstPass<DB>) -> (result: QueryResult<()>)
        ensures
            match self.rendered() {
                Ok(text) => result is Ok && final(out)@ == old(out)@ + text,
                Err(failure) => result matches Err(error) && error@ == failure,
            },
    ;
}

} // verus!
