//! What requests have in common: they are checked, brought into a working
//! form, and put to the store as statements.

use vstd::prelude::*;
use crate::error::{outcome, Error, ErrorView};
use crate::sql::{Statement, StatementView};

verus! {

/// A value that can be checked before it is used.
pub trait Validator {
    /// What the check finds: nothing, or the first thing that is wrong.
    spec fn validated(&self) -> Result<(), ErrorView>;

    /// Checks the value.
    fn validate(&self) -> (r: Result<(), Error>)
        ensures
            outcome(r) == self.validated(),
    ;
}

/// A value that is brought into its working form once it has been checked.
pub trait Normalizer: Validator + Sized {
    /// The working form of the value.
    spec fn normalized(&self) -> Self;

    /// Checks the value and, where nothing is wrong, brings it into its
    /// working form. A value that fails the check is left as it is.
    fn normalize(&mut self) -> (r: Result<(), Error>)
        ensures
            outcome(r) == old(self).validated(),
            r is Ok ==> *final(self) == old(self).normalized(),
            r is Err ==> *final(self) == *old(self),
    {
        match self.validate() {
            Ok(()) => {
                self.do_normalize();
                Ok(())
            },
            Err(e) => Err(e),
        }
    }

    /// Brings a checked value into its working form.
    fn do_normalize(&mut self)
        ensures
            *final(self) == old(self).normalized(),
    ;
}

/// A request that can be put to the store as a statement.
pub trait ToSql {
    /// The statement of the request.
    spec fn sql(&self) -> StatementView;

    /// Builds the statement. Every value of the request is bound to it, none
    /// is written into its text.
    fn to_sql(&self) -> (s: Statement)
        ensures
            s@ == self.sql(),
    ;
}

} // verus!
