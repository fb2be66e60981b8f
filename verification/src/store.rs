//! What the service hands to the store and what the store hands back.
//!
//! A request becomes one [`Statement`]: its text, the values bound to its
//! placeholders in order, and the way its rows are read. The program around
//! this crate runs the statement and reports a `Result` whose error is a
//! [`StoreError`].

use vstd::prelude::*;
use crate::models::opt_text;

verus! {

/// A value bound to a placeholder of a statement.
#[derive(Debug, Clone, PartialEq, Eq)]
pub enum Bind {
    Integer(i32),
    SmallInt(i8),
    Boolean(bool),
    Text(String),
    NullableText(Option<String>),
}

/// The view of a [`Bind`].
pub enum BindView {
    Integer(i32),
    SmallInt(i8),
    Boolean(bool),
    Text(Seq<char>),
    NullableText(Option<Seq<char>>),
}

impl View for Bind {
    type V = BindView;

    open spec fn view(&self) -> BindView {
        match *self {
            Bind::Integer(n) => BindView::Integer(n),
            Bind::SmallInt(n) => BindView::SmallInt(n),
            Bind::Boolean(b) => BindView::Boolean(b),
            Bind::Text(s) => BindView::Text(s@),
            Bind::NullableText(s) => BindView::NullableText(opt_text(s)),
        }
    }
}

/// How the rows that a statement gives are read.
#[derive(Debug, Clone, Copy, PartialEq, Eq, Structural)]
pub enum Fetch {
    /// Every row, in the order in which the store gives them.
    All,
    /// The one row; none is the error [`StoreError::RowNotFound`].
    One,
    /// No row: only the number of rows that the statement touched.
    Execute,
}

/// One statement for the store. The placeholder `$n` of `sql` stands for
/// `binds[n - 1]`.
#[derive(Debug, Clone, PartialEq, Eq)]
pub struct Statement {
    pub sql: &'static str,
    pub binds: Vec<Bind>,
    pub fetch: Fetch,
}

/// The view of a [`Statement`].
pub struct StatementView {
    pub sql: Seq<char>,
    pub binds: Seq<BindView>,
    pub fetch: Fetch,
}

impl View for Statement {
    type V = StatementView;

    open spec fn view(&self) -> StatementView {
        StatementView {
            sql: self.sql@,
            binds: self.binds@.map_values(|b: Bind| b@),
            fetch: self.fetch,
        }
    }
}

/// Why a statement gave no result.
#[derive(Debug, Clone, Copy, PartialEq, Eq, Structural)]
pub enum StoreError {
    /// One row was asked for and the statement gave none.
    RowNotFound,
    /// Anything else: a broken constraint, a lost connection, a statement that
    /// the store refused.
    Failure,
}

} // verus!
