use vstd::prelude::*;

use crate::utils::output::Output;

verus! {

/// A file to read.
pub struct ReadFile {
    pub path: String,
}

/// A file to write, and what to write to it.
pub struct WriteFile {
    pub path: String,
    pub content: Vec<u8>,
}

/// A file to delete.
pub struct RemoveFile {
    pub path: String,
}

/// A directory to list.
pub struct ReadDirectory {
    pub path: String,
}

/// A directory to create, with its missing parents or not.
pub struct CreateDirectory {
    pub path: String,
    pub make_parent: bool,
}

/// A directory to delete, with what it holds or only if empty.
pub struct RemoveDirectory {
    pub path: String,
    pub make_empty: bool,
}

/// A path whose permissions are asked for.
pub struct GetPermissions {
    pub path: String,
}

/// A path and the permissions to give it.
pub struct SetPermissions {
    pub path: String,
    pub permissions: Vec<Permission>,
}

/// The content of a file.
pub struct File {
    pub content: Output,
}

/// The entries of a directory by kind.
pub struct Directory {
    pub directories: Vec<String>,
    pub files: Vec<String>,
    pub symlinks: Vec<String>,
    pub unknown: Vec<String>,
}

/// Whom a permission is granted to.
#[derive(PartialEq, Eq, Structural, Clone, Copy, Debug)]
pub enum Entity {
    User(u32),
    Group(u32),
    Any,
    Unknown,
}

/// What an entity may do with a file.
#[derive(PartialEq, Eq, Structural, Clone, Copy, Debug)]
pub struct Permission {
    pub granted_to: Entity,
    pub read: bool,
    pub write: bool,
    pub execute: bool,
}

} // verus!
