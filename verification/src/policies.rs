//! The access-control decision: who owns a protected value, who may see it,
//! and how two decisions over overlapping data are merged.

use vstd::prelude::*;
use crate::context::{ContextData, Reason};

verus! {

/// The only table this policy may be constructed from.
pub open spec fn spec_table_name() -> Seq<char> {
    "submissions"@
}

/// The column of a submissions row that holds the owning identity.
pub open spec fn spec_owner_column() -> int {
    1
}

/// The fixed privileged identity that passes every check.
pub open spec fn spec_admin_identity() -> Seq<char> {
    "admin@bu.edu"@
}

/// Access is granted exactly when the requester is the owner or the
/// fixed privileged identity.
pub open spec fn check_allows(owner: Seq<char>, requester: Seq<char>) -> bool {
    requester == owner || requester == spec_admin_identity()
}

/// The conservative merge of two owner identities: equal owners are kept,
/// differing owners collapse to the empty sentinel (no single owner).
pub open spec fn join_owner(a: Seq<char>, b: Seq<char>) -> Seq<char> {
    if a == b {
        a
    } else {
        Seq::<char>::empty()
    }
}

/// A contract violation at construction time: the host supplied a row
/// that does not match the fixed schema coordinates.
#[derive(PartialEq, Eq, Structural, Clone, Copy, Debug)]
pub enum RowError {
    /// The table name is not the fixed expected table.
    WrongTable,
    /// The row is too short to hold the owner-identity column.
    MissingOwnerColumn,
}

/// Decides whether a requester may view one protected value of one row.
#[derive(Clone, Debug)]
pub struct AccessControlPolicy {
    /// The value of the student id column from the table: the owning identity.
    student_id: String,
}

impl View for AccessControlPolicy {
    type V = Seq<char>;

    closed spec fn view(&self) -> Seq<char> {
        self.student_id@
    }
}

impl AccessControlPolicy {
    /// Constructs the decision from a row of the submissions table, reading
    /// the owning identity from the fixed owner column. Rows from any other
    /// table, or rows without the owner column, break the construction
    /// contract and are excluded here; `try_from_row` reports them instead.
    pub fn from_row(table_name: &str, row: &Vec<String>) -> (policy: Self)
        requires
            table_name@ == spec_table_name(),
            row@.len() > spec_owner_column(),
        ensures
            policy@ == row@[spec_owner_column()]@,
    {
        AccessControlPolicy { student_id: row[1].clone() }
    }

    /// The checked form of construction: reports a wrong table name or a
    /// missing owner column as an error instead of excluding it.
    pub fn try_from_row(table_name: &str, row: &Vec<String>) -> (result: Result<
        Self,
        RowError,
    >)
        ensures
            match result {
                Ok(policy) => table_name@ == spec_table_name() && row@.len()
                    > spec_owner_column() && policy@ == row@[spec_owner_column()]@,
                Err(e) => match e {
                    RowError::WrongTable => table_name@ != spec_table_name(),
                    RowError::MissingOwnerColumn => table_name@ == spec_table_name()
                        && row@.len() <= spec_owner_column(),
                },
            },
    {
        if !(table_name.to_owned() == expected_table_name()) {
            Err(RowError::WrongTable)
        } else if row.len() <= 1 {
            Err(RowError::MissingOwnerColumn)
        } else {
            Ok(AccessControlPolicy { student_id: row[1].clone() })
        }
    }

    /// A fixed human-readable label for this policy kind.
    pub fn simple_name(&self) -> (name: String)
        ensures
            name@ == "AccessControlPolicy"@,
    {
        "AccessControlPolicy".to_owned()
    }

    /// Grants access if and only if the requester identity equals the stored
    /// owner identity or the fixed privileged identity. The reason value
    /// never influences the answer.
    pub fn simple_check(&self, context: &ContextData, _reason: &Reason) -> (granted: bool)
        ensures
            granted == check_allows(self@, context@),
    {
        let admin = admin_identity();
        context.user_email == self.student_id || context.user_email == admin
    }

    /// Merges another decision into this one, in place: equal owners are a
    /// no-op, differing owners reset this owner to the empty sentinel.
    /// The other operand is left unchanged.
    pub fn simple_join_direct(&mut self, other: &mut Self)
        ensures
            final(self)@ == join_owner(old(self)@, old(other)@),
            final(other)@ == old(other)@,
    {
        if self.student_id == other.student_id {
        } else {
            self.student_id = String::new();
        }
    }

    /// The identity that owns the protected value this decision covers.
    pub fn owner_identity(&self) -> (owner: &String)
        ensures
            owner@ == self@,
    {
        &self.student_id
    }

    /// The pure form of the merge: returns the conservative combination of
    /// the two decisions, leaving both operands unchanged.
    pub fn merge(&self, other: &Self) -> (merged: Self)
        ensures
            merged@ == join_owner(self@, other@),
    {
        if self.student_id == other.student_id {
            AccessControlPolicy { student_id: self.student_id.clone() }
        } else {
            AccessControlPolicy { student_id: String::new() }
        }
    }
}

/// An owner is always granted access to its own value, whatever the
/// reason for the check.
pub proof fn lemma_owner_always_granted(owner: Seq<char>, requester: Seq<char>)
    requires
        requester == owner,
    ensures
        check_allows(owner, requester),
{
}

/// The fixed privileged identity is granted access whatever the owner is.
pub proof fn lemma_admin_always_granted(owner: Seq<char>)
    ensures
        check_allows(owner, spec_admin_identity()),
{
}

/// Any requester that is neither the owner nor the fixed privileged
/// identity is denied.
pub proof fn lemma_others_denied(owner: Seq<char>, requester: Seq<char>)
    requires
        requester != owner,
        requester != spec_admin_identity(),
    ensures
        !check_allows(owner, requester),
{
}

/// Merging two decisions with equal owners leaves the owner unchanged.
pub proof fn lemma_join_equal_owners(a: Seq<char>, b: Seq<char>)
    requires
        a == b,
    ensures
        join_owner(a, b) == a,
{
}

/// Merging a decision with an identical copy of itself changes nothing.
pub proof fn lemma_join_idempotent(owner: Seq<char>)
    ensures
        join_owner(owner, owner) == owner,
{
}

/// Merging two decisions with differing owners yields the empty sentinel,
/// after which every requester with a non-empty identity other than the
/// fixed privileged identity is denied. (A requester whose identity is
/// itself the empty string equals the sentinel owner and still passes.)
pub proof fn lemma_join_differing_owners(a: Seq<char>, b: Seq<char>, requester: Seq<char>)
    requires
        a != b,
        requester != spec_admin_identity(),
        requester.len() > 0,
    ensures
        join_owner(a, b) == Seq::<char>::empty(),
        !check_allows(join_owner(a, b), requester),
{
}

/// The fixed expected table identifier, as a runtime value.
pub fn expected_table_name() -> (name: String)
    ensures
        name@ == spec_table_name(),
{
    "submissions".to_owned()
}

/// The fixed privileged identity, as a runtime value.
pub fn admin_identity() -> (identity: String)
    ensures
        identity@ == spec_admin_identity(),
{
    "admin@bu.edu".to_owned()
}

} // verus!
