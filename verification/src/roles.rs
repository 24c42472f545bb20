//! The role hierarchy: three roles in a fixed order, compared by ordinal.

use vstd::prelude::*;

verus! {

/// A principal's role. The order of the variants is the order of the
/// hierarchy, lowest first.
#[derive(Debug, Clone, Copy, PartialEq, Eq, Hash, Structural)]
pub enum Roles {
    Basic,
    Moderator,
    Admin,
}

/// Why a number is not a role.
#[derive(Debug, Clone, Copy, PartialEq, Eq, Structural)]
pub enum RoleError {
    UnknownRole,
}

impl Roles {
    /// The role's place in the hierarchy.
    pub open spec fn ordinal_of(self) -> int {
        match self {
            Roles::Basic => 0,
            Roles::Moderator => 1,
            Roles::Admin => 2,
        }
    }

    /// The role with the given ordinal, if there is one.
    pub open spec fn of_ordinal(number: int) -> Option<Roles> {
        if number == 0 {
            Some(Roles::Basic)
        } else if number == 1 {
            Some(Roles::Moderator)
        } else if number == 2 {
            Some(Roles::Admin)
        } else {
            None
        }
    }

    /// Whether a holder of this role may pass where `required` is asked for.
    pub open spec fn permits(self, required: Roles) -> bool {
        self.ordinal_of() >= required.ordinal_of()
    }

    /// The role's place in the hierarchy.
    pub fn ordinal(self) -> (number: i16)
        ensures
            number == self.ordinal_of(),
    {
        match self {
            Roles::Basic => 0,
            Roles::Moderator => 1,
            Roles::Admin => 2,
        }
    }

    /// Reads a stored or transmitted ordinal. A number outside the hierarchy
    /// is reported, never mapped to some role.
    pub fn from_ordinal(number: i16) -> (r: Result<Roles, RoleError>)
        ensures
            r == match Roles::of_ordinal(number as int) {
                Some(role) => Ok::<Roles, RoleError>(role),
                None => Err(RoleError::UnknownRole),
            },
    {
        if number == 0 {
            Ok(Roles::Basic)
        } else if number == 1 {
            Ok(Roles::Moderator)
        } else if number == 2 {
            Ok(Roles::Admin)
        } else {
            Err(RoleError::UnknownRole)
        }
    }

    /// Tells whether a holder of this role may pass where `required` is
    /// asked for.
    pub fn at_least(self, required: Roles) -> (ok: bool)
        ensures
            ok == self.permits(required),
    {
        self.ordinal() >= required.ordinal()
    }
}

/// The conversion from a stored ordinal. It fails on a number outside the
/// hierarchy; it never aborts.
impl TryFrom<i16> for Roles {
    type Error = RoleError;

    fn try_from(number: i16) -> (r: Result<Roles, RoleError>) {
        Roles::from_ordinal(number)
    }
}

impl vstd::std_specs::convert::TryFromSpecImpl<i16> for Roles {
    open spec fn obeys_try_from_spec() -> bool {
        true
    }

    open spec fn try_from_spec(number: i16) -> Result<Roles, RoleError> {
        match Roles::of_ordinal(number as int) {
            Some(role) => Ok(role),
            None => Err(RoleError::UnknownRole),
        }
    }
}

/// The hierarchy is Basic below Moderator below Admin, and two roles with the
/// same ordinal are the same role.
pub proof fn lemma_role_order(a: Roles, b: Roles)
    ensures
        Roles::Basic.ordinal_of() < Roles::Moderator.ordinal_of() < Roles::Admin.ordinal_of(),
        0 <= a.ordinal_of() <= 2,
        a.ordinal_of() == b.ordinal_of() ==> a == b,
{
}

/// Reading back the ordinal of a role gives that role, and a number that
/// reads as a role is that role's ordinal.
pub proof fn lemma_ordinal_round_trip(role: Roles, number: int)
    ensures
        Roles::of_ordinal(role.ordinal_of()) == Some(role),
        Roles::of_ordinal(number) matches Some(r) ==> r.ordinal_of() == number,
        Roles::of_ordinal(number) is Some <==> 0 <= number <= 2,
{
}

/// `permits` is a total order on roles: every role permits itself, two roles
/// that permit each other are equal, permission carries over a middle role,
/// and of any two roles one permits the other.
pub proof fn lemma_permits_total_order(a: Roles, b: Roles, c: Roles)
    ensures
        a.permits(a),
        a.permits(b) && b.permits(a) ==> a == b,
        a.permits(b) && b.permits(c) ==> a.permits(c),
        a.permits(b) || b.permits(a),
        Roles::Admin.permits(a),
        a.permits(Roles::Basic),
{
}

} // verus!
