use vstd::prelude::*;

verus! {

/// The flake whose metadata is asked for.
pub struct FlakeQuery {
    pub flake: String,
}

/// The metadata the package tool prints of a flake.
pub struct FlakeMetadata {
    pub last_modified: u64,
    pub revision: String,
}

/// When a flake was last changed, and its revision.
pub struct Flake {
    pub last_modified: u64,
    pub revision: String,
}

/// A user account.
pub struct User {
    pub name: String,
    pub id: u32,
    pub group: u32,
    pub description: String,
    pub home: String,
    pub login: String,
}

/// A group of users.
pub struct Group {
    pub name: String,
    pub id: u32,
    pub members: Vec<String>,
}

} // verus!
