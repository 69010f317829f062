//! Prepared statements: a parsed, reusable execution plan with a declared
//! positional parameter list and an explicit ownership mode.
//!
//! A statement starts out `Borrowed`: it is valid only while its creating
//! frame (or a frame nested inside it) is still on the connection stack.
//! [`PreparedStatement::keep`] promotes it to `Kept`, making it usable for
//! the rest of the process, across arbitrarily many later frames.

use vstd::prelude::*;

use crate::sql::{Stmt, StmtModel};

verus! {

/// Who owns a prepared statement: its creating frame, or the process.
#[derive(Clone, Copy, PartialEq, Eq, Structural, Debug)]
pub enum Ownership {
    /// Valid only while the frame with this generation tag is alive.
    Borrowed(u64),
    /// Valid for the rest of the process.
    Kept,
}

/// Spec-level image of a [`PreparedStatement`].
#[verifier::ext_equal]
pub struct PsModel {
    /// The parsed statement.
    pub stmt: StmtModel,
    /// The declared parameter type OIDs, one per `$k`.
    pub param_types: Seq<u32>,
    /// The ownership mode.
    pub mode: Ownership,
}

/// A parsed, reusable execution plan with declared parameter types.
pub struct PreparedStatement {
    /// The parsed statement.
    pub(crate) stmt: Stmt,
    /// The declared parameter type OIDs, one per `$k`.
    pub(crate) param_types: Vec<u32>,
    /// The ownership mode.
    pub(crate) mode: Ownership,
}

impl View for PreparedStatement {
    type V = PsModel;

    closed spec fn view(&self) -> PsModel {
        PsModel { stmt: self.stmt@, param_types: self.param_types@, mode: self.mode }
    }
}

/// Within the crate, a statement's model is exactly its fields' views.
pub(crate) proof fn lemma_ps_parts(ps: &PreparedStatement)
    ensures
        ps@ == (PsModel { stmt: ps.stmt@, param_types: ps.param_types@, mode: ps.mode }),
{
}

impl PreparedStatement {
    /// The declared number of parameters.
    pub fn param_count(&self) -> (r: usize)
        ensures
            r == self@.param_types.len(),
    {
        self.param_types.len()
    }

    /// Promote the statement from frame-scoped to process-lifetime
    /// ownership. Once kept, it stays usable across arbitrarily many later
    /// frames.
    pub fn keep(self) -> (r: PreparedStatement)
        ensures
            r@.stmt == self@.stmt,
            r@.param_types == self@.param_types,
            r@.mode == Ownership::Kept,
    {
        PreparedStatement { stmt: self.stmt, param_types: self.param_types, mode: Ownership::Kept }
    }
}

} // verus!
