use vstd::prelude::*;

verus! {

/// What a driver reports about the parameters of a prepared statement.
/// Some drivers hand back a full type description per parameter; others
/// only know how many parameters there are.
#[derive(Clone, Debug)]
pub enum ParametersInfo<T> {
    /// A full type description for each parameter, in order.
    TypeList(Vec<T>),
    /// Only the number of parameters.
    Count(usize),
}

/// Provides information on a prepared statement: its result columns, what
/// is known of its parameters, and per-column nullability.
///
/// This is a passive record produced when a statement is described; the
/// type parameters are the driver's column and parameter-type descriptions,
/// which the pool never looks inside.
#[derive(Clone, Debug)]
pub struct StatementInfo<C, T> {
    /// The result columns, by position.
    pub columns: Vec<C>,
    /// Parameter information, when the driver reports any.
    pub parameters: Option<ParametersInfo<T>>,
    /// Per column: `Some(true)` when it may be `NULL`, `Some(false)` when it
    /// cannot, `None` when the driver does not know.
    pub nullable: Vec<Option<bool>>,
}

impl<C, T> StatementInfo<C, T> {
    /// Assemble the description of one prepared statement.
    pub fn new(
        columns: Vec<C>,
        parameters: Option<ParametersInfo<T>>,
        nullable: Vec<Option<bool>>,
    ) -> (r: StatementInfo<C, T>)
        ensures
            r.columns@ == columns@,
            r.parameters == parameters,
            r.nullable@ == nullable@,
    {
        StatementInfo { columns, parameters, nullable }
    }

    /// Gets the column information at `index`; the index must be in bounds.
    pub fn column(&self, index: usize) -> (r: &C)
        requires
            index < self.columns@.len(),
        ensures
            *r == self.columns@[index as int],
    {
        &self.columns[index]
    }

    /// Gets the column information at `index`, or `None` if out of bounds.
    pub fn try_column(&self, index: usize) -> (r: Option<&C>)
        ensures
            match r {
                Some(c) => index < self.columns@.len() && *c == self.columns@[index as int],
                None => index >= self.columns@.len(),
            },
    {
        if index < self.columns.len() {
            Some(&self.columns[index])
        } else {
            None
        }
    }

    /// Gets all columns in this statement, in order.
    pub fn columns(&self) -> (r: &[C])
        ensures
            r@ == self.columns@,
    {
        self.columns.as_slice()
    }

    /// Gets the available information for parameters in this statement, or
    /// `None` when the driver reported nothing.
    pub fn parameters(&self) -> (r: Option<&ParametersInfo<T>>)
        ensures
            match r {
                Some(p) => self.parameters == Some(*p),
                None => self.parameters is None,
            },
    {
        self.parameters.as_ref()
    }

    /// Gets whether the column at `column` may be `NULL`: `None` both when
    /// the driver did not say and when the index is out of bounds.
    pub fn nullable(&self, column: usize) -> (r: Option<bool>)
        ensures
            r == if column < self.nullable@.len() {
                self.nullable@[column as int]
            } else {
                None::<bool>
            },
    {
        if column < self.nullable.len() {
            self.nullable[column]
        } else {
            None
        }
    }
}

} // verus!
