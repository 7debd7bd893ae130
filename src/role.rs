//! The staff roles, totally ordered from the least to the most privileged.
use vstd::prelude::*;

verus! {

/// A user's privilege tier; each role holds every privilege of the roles before it.
#[derive(Clone, Copy, Debug, PartialEq, Eq, Structural)]
pub enum Role {
    User,
    Writer,
    Editor,
    Coord,
    Admin,
    Principal,
    Ceo,
}

/// The highest level in the hierarchy (the level of `Role::Ceo`).
pub const TOP_LEVEL: u8 = 6;

impl Role {
    /// Position of the role in the hierarchy, `User` being 0.
    pub open spec fn rank(self) -> nat {
        match self {
            Role::User => 0,
            Role::Writer => 1,
            Role::Editor => 2,
            Role::Coord => 3,
            Role::Admin => 4,
            Role::Principal => 5,
            Role::Ceo => 6,
        }
    }

    /// The role at a given position of the hierarchy.
    pub open spec fn from_rank(n: nat) -> Role
        recommends
            n <= TOP_LEVEL,
    {
        if n == 0 {
            Role::User
        } else if n == 1 {
            Role::Writer
        } else if n == 2 {
            Role::Editor
        } else if n == 3 {
            Role::Coord
        } else if n == 4 {
            Role::Admin
        } else if n == 5 {
            Role::Principal
        } else {
            Role::Ceo
        }
    }

    /// The position of this role in the hierarchy.
    pub fn level(&self) -> (r: u8)
        ensures
            r as nat == self.rank(),
            r <= TOP_LEVEL,
    {
        match self {
            Role::User => 0,
            Role::Writer => 1,
            Role::Editor => 2,
            Role::Coord => 3,
            Role::Admin => 4,
            Role::Principal => 5,
            Role::Ceo => 6,
        }
    }

    /// The role at position `level` of the hierarchy.
    pub fn at_level(level: u8) -> (r: Role)
        requires
            level <= TOP_LEVEL,
        ensures
            r.rank() == level as nat,
            r == Role::from_rank(level as nat),
    {
        if level == 0 {
            Role::User
        } else if level == 1 {
            Role::Writer
        } else if level == 2 {
            Role::Editor
        } else if level == 3 {
            Role::Coord
        } else if level == 4 {
            Role::Admin
        } else if level == 5 {
            Role::Principal
        } else {
            Role::Ceo
        }
    }
}

} // verus!
