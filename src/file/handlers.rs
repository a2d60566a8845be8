use vstd::prelude::*;
use vstd::string::StringExecFns;

use crate::file::models::{Directory, Entity, Permission};
use crate::utils::command::strings_view;
use crate::utils::env::Locations;
use crate::utils::error::ResponseError;
use crate::utils::path::{join, joined};
use crate::utils::string::{chars_of, container_of_scope, scope_container, string_of};

verus! {

/// Whom an access control entry is for.
#[derive(PartialEq, Eq, Structural, Clone, Copy, Debug)]
pub enum Qualifier {
    /// An entry that could not be read.
    Undefined,
    /// The file's owner.
    UserObj,
    /// The file's owning group.
    GroupObj,
    /// Everyone else.
    Other,
    /// The user with this id.
    User(u32),
    /// The group with this id.
    Group(u32),
    /// The most that named users and groups may be granted.
    Mask,
}

/// An entry of an access control list: whom it is for, and the permission
/// bits it grants.
#[derive(PartialEq, Eq, Structural, Clone, Copy, Debug)]
pub struct ACLEntry {
    pub qual: Qualifier,
    pub perm: u32,
}

/// The read permission bit of an access control entry.
pub const ACL_READ: u32 = 4;

/// The write permission bit of an access control entry.
pub const ACL_WRITE: u32 = 2;

/// The execute permission bit of an access control entry.
pub const ACL_EXECUTE: u32 = 1;

/// `s` without its first character where that is a `/`.
pub open spec fn without_first_slash(s: Seq<char>) -> Seq<char> {
    if s.len() > 0 && s[0] == '/' {
        s.skip(1)
    } else {
        s
    }
}

/// `s` without its first character where that is a `/`.
pub fn remove_first_slash(s: &str) -> (r: String)
    ensures
        r@ == without_first_slash(s@),
{
    let c = chars_of(s);
    if c.len() > 0 && c[0] == '/' {
        let mut rest: Vec<char> = Vec::new();
        let mut i: usize = 1;
        while i < c.len()
            invariant
                1 <= i <= c@.len(),
                rest@ == c@.subrange(1, i as int),
            decreases c.len() - i,
        {
            rest.push(c[i]);
            i = i + 1;
            assert(rest@ =~= c@.subrange(1, i as int));
        }
        assert(c@.skip(1) =~= c@.subrange(1, i as int));
        string_of(&rest)
    } else {
        string_of(&c)
    }
}

/// The path a scope gives to a path from the root: inside the container's
/// state directory for a container, as it is for the host.
pub open spec fn scoped_path(l: Locations, scope: Seq<char>, path: Seq<char>) -> Seq<char> {
    match scope_container(scope) {
        Some(c) => joined(joined(l.containerstate@, c), without_first_slash(path)),
        None => path,
    }
}

/// The path a scope gives to a path from the root.
pub fn get_path(l: &Locations, scope: &str, path: &str) -> (r: String)
    ensures
        r@ == scoped_path(*l, scope@, path@),
{
    match container_of_scope(scope) {
        Some(c) => join(
            join(l.containerstate.as_str(), c.as_str()).as_str(),
            remove_first_slash(path).as_str(),
        ),
        None => path.to_owned(),
    }
}

/// What kind of entry a directory holds.
#[derive(PartialEq, Eq, Structural, Clone, Copy, Debug)]
pub enum EntryKind {
    Directory,
    File,
    Symlink,
    Other,
}

/// An entry of a directory: its kind where it could be read, and its name
/// where it is valid UTF-8.
pub struct DirectoryEntry {
    pub kind: Option<EntryKind>,
    pub name: Option<String>,
}

/// The name an entry is listed under.
pub open spec fn listed_name(e: DirectoryEntry) -> Seq<char> {
    match e.name {
        Some(n) => n@,
        None => "UNKOWN_NAME"@,
    }
}

/// The names of the entries whose kind is `kind`.
pub open spec fn names_of_kind(entries: Seq<DirectoryEntry>, kind: Option<EntryKind>) -> Seq<
    Seq<char>,
>
    decreases entries.len(),
{
    if entries.len() == 0 {
        Seq::empty()
    } else if entries.last().kind == kind {
        names_of_kind(entries.drop_last(), kind).push(listed_name(entries.last()))
    } else {
        names_of_kind(entries.drop_last(), kind)
    }
}

/// A directory's entries sorted by kind, in the order read: entries whose
/// kind could not be read are unknown, and other kinds are left out.
pub fn read_directory(entries: &Vec<DirectoryEntry>) -> (r: Directory)
    ensures
        strings_view(r.directories@) == names_of_kind(entries@, Some(EntryKind::Directory)),
        strings_view(r.files@) == names_of_kind(entries@, Some(EntryKind::File)),
        strings_view(r.symlinks@) == names_of_kind(entries@, Some(EntryKind::Symlink)),
        strings_view(r.unknown@) == names_of_kind(entries@, None),
{
    let mut directories: Vec<String> = Vec::new();
    let mut files: Vec<String> = Vec::new();
    let mut symlinks: Vec<String> = Vec::new();
    let mut unknown: Vec<String> = Vec::new();
    let mut i: usize = 0;
    while i < entries.len()
        invariant
            i <= entries@.len(),
            strings_view(directories@) == names_of_kind(
                entries@.take(i as int),
                Some(EntryKind::Directory),
            ),
            strings_view(files@) == names_of_kind(entries@.take(i as int), Some(EntryKind::File)),
            strings_view(symlinks@) == names_of_kind(
                entries@.take(i as int),
                Some(EntryKind::Symlink),
            ),
            strings_view(unknown@) == names_of_kind(entries@.take(i as int), None),
        decreases entries.len() - i,
    {
        assert(entries@.take(i + 1).drop_last() =~= entries@.take(i as int));
        assert(entries@.take(i + 1).last() == entries@[i as int]);
        let e = &entries[i];
        let name = match &e.name {
            Some(n) => n.clone(),
            None => String::from_str("UNKOWN_NAME"),
        };
        assert(name@ == listed_name(entries@[i as int]));
        match e.kind {
            Some(EntryKind::Directory) => {
                let ghost before = directories@;
                directories.push(name);
                assert(strings_view(directories@) =~= strings_view(before).push(name@));
            },
            Some(EntryKind::File) => {
                let ghost before = files@;
                files.push(name);
                assert(strings_view(files@) =~= strings_view(before).push(name@));
            },
            Some(EntryKind::Symlink) => {
                let ghost before = symlinks@;
                symlinks.push(name);
                assert(strings_view(symlinks@) =~= strings_view(before).push(name@));
            },
            Some(EntryKind::Other) => {},
            None => {
                let ghost before = unknown@;
                unknown.push(name);
                assert(strings_view(unknown@) =~= strings_view(before).push(name@));
            },
        }
        i = i + 1;
    }
    assert(entries@.take(i as int) =~= entries@);
    Directory { directories, files, symlinks, unknown }
}

/// Whom an access control entry grants to, the file's owner and owning
/// group standing for the entries of the owner and of the group.
pub open spec fn entity_of(q: Qualifier, owner_user: u32, owner_group: u32) -> Entity {
    match q {
        Qualifier::UserObj => Entity::User(owner_user),
        Qualifier::GroupObj => Entity::Group(owner_group),
        Qualifier::Other => Entity::Any,
        Qualifier::User(id) => Entity::User(id),
        Qualifier::Group(id) => Entity::Group(id),
        _ => Entity::Unknown,
    }
}

/// An access control entry as a permission.
pub open spec fn permission_of(e: ACLEntry, owner_user: u32, owner_group: u32) -> Permission {
    Permission {
        granted_to: entity_of(e.qual, owner_user, owner_group),
        read: e.perm & ACL_READ != 0,
        write: e.perm & ACL_WRITE != 0,
        execute: e.perm & ACL_EXECUTE != 0,
    }
}

/// The permissions of the entries, leaving out the mask.
pub open spec fn permissions_of(entries: Seq<ACLEntry>, owner_user: u32, owner_group: u32) -> Seq<
    Permission,
>
    decreases entries.len(),
{
    if entries.len() == 0 {
        Seq::empty()
    } else if entries.last().qual is Mask {
        permissions_of(entries.drop_last(), owner_user, owner_group)
    } else {
        permissions_of(entries.drop_last(), owner_user, owner_group).push(
            permission_of(entries.last(), owner_user, owner_group),
        )
    }
}

/// The permissions that a file's access control list grants.
pub fn get_permissions(entries: &Vec<ACLEntry>, owner_user: u32, owner_group: u32) -> (r: Vec<
    Permission,
>)
    ensures
        r@ == permissions_of(entries@, owner_user, owner_group),
{
    let mut r: Vec<Permission> = Vec::new();
    let mut i: usize = 0;
    while i < entries.len()
        invariant
            i <= entries@.len(),
            r@ == permissions_of(entries@.take(i as int), owner_user, owner_group),
        decreases entries.len() - i,
    {
        assert(entries@.take(i + 1).drop_last() =~= entries@.take(i as int));
        assert(entries@.take(i + 1).last() == entries@[i as int]);
        let e = entries[i];
        let granted_to = match e.qual {
            Qualifier::UserObj => Entity::User(owner_user),
            Qualifier::GroupObj => Entity::Group(owner_group),
            Qualifier::Other => Entity::Any,
            Qualifier::User(id) => Entity::User(id),
            Qualifier::Group(id) => Entity::Group(id),
            Qualifier::Mask => Entity::Unknown,
            Qualifier::Undefined => Entity::Unknown,
        };
        let is_mask = match e.qual {
            Qualifier::Mask => true,
            _ => false,
        };
        if !is_mask {
            r.push(
                Permission {
                    granted_to,
                    read: e.perm & ACL_READ != 0,
                    write: e.perm & ACL_WRITE != 0,
                    execute: e.perm & ACL_EXECUTE != 0,
                },
            );
        }
        i = i + 1;
    }
    assert(entries@.take(i as int) =~= entries@);
    r
}

/// The first user among the permissions' grantees.
pub open spec fn first_user(ps: Seq<Permission>) -> Option<u32>
    decreases ps.len(),
{
    if ps.len() == 0 {
        None
    } else {
        match ps[0].granted_to {
            Entity::User(id) => Some(id),
            _ => first_user(ps.skip(1)),
        }
    }
}

/// The first group among the permissions' grantees.
pub open spec fn first_group(ps: Seq<Permission>) -> Option<u32>
    decreases ps.len(),
{
    if ps.len() == 0 {
        None
    } else {
        match ps[0].granted_to {
            Entity::Group(id) => Some(id),
            _ => first_group(ps.skip(1)),
        }
    }
}

/// The permission bits of a permission.
pub open spec fn perm_bits(p: Permission) -> u32 {
    (if p.read {
        ACL_READ
    } else {
        0
    }) | (if p.write {
        ACL_WRITE
    } else {
        0
    }) | (if p.execute {
        ACL_EXECUTE
    } else {
        0
    })
}

/// The access control entries that grant the permissions, in order: the
/// owner and the owning group get the owner's and the group's entries, and
/// unknown grantees none.
pub open spec fn entries_for(ps: Seq<Permission>, owner_user: u32, owner_group: u32) -> Seq<ACLEntry>
    decreases ps.len(),
{
    if ps.len() == 0 {
        Seq::empty()
    } else {
        let rest = entries_for(ps.drop_last(), owner_user, owner_group);
        let p = ps.last();
        let perm = perm_bits(p);
        match p.granted_to {
            Entity::User(id) => rest.push(
                ACLEntry {
                    qual: if id == owner_user {
                        Qualifier::UserObj
                    } else {
                        Qualifier::User(id)
                    },
                    perm,
                },
            ),
            Entity::Group(id) => rest.push(
                ACLEntry {
                    qual: if id == owner_group {
                        Qualifier::GroupObj
                    } else {
                        Qualifier::Group(id)
                    },
                    perm,
                },
            ),
            Entity::Any => rest.push(ACLEntry { qual: Qualifier::Other, perm }),
            Entity::Unknown => rest,
        }
    }
}

fn find_owner(ps: &Vec<Permission>, user: bool) -> (r: Option<u32>)
    ensures
        r == (if user {
            first_user(ps@)
        } else {
            first_group(ps@)
        }),
{
    let mut i: usize = 0;
    assert(ps@.skip(0) =~= ps@);
    while i < ps.len()
        invariant
            i <= ps@.len(),
            (if user {
                first_user(ps@)
            } else {
                first_group(ps@)
            }) == (if user {
                first_user(ps@.skip(i as int))
            } else {
                first_group(ps@.skip(i as int))
            }),
        decreases ps.len() - i,
    {
        assert(ps@.skip(i as int).skip(1) =~= ps@.skip(i + 1));
        assert(ps@.skip(i as int)[0] == ps@[i as int]);
        match ps[i].granted_to {
            Entity::User(id) => {
                if user {
                    return Some(id);
                }
            },
            Entity::Group(id) => {
                if !user {
                    return Some(id);
                }
            },
            _ => {},
        }
        i = i + 1;
    }
    None
}

/// What setting permissions on a file comes to: the owner and the owning
/// group, which are the first user and the first group granted to, and the
/// access control entries to write. Fails where no user or no group is
/// granted to.
pub fn set_permissions(ps: &Vec<Permission>) -> (r: Result<(u32, u32, Vec<ACLEntry>), ResponseError>)
    ensures
        r is Ok <==> first_user(ps@) is Some && first_group(ps@) is Some,
        r matches Ok((u, g, entries)) ==> Some(u) == first_user(ps@) && Some(g) == first_group(ps@)
            && entries@ == entries_for(ps@, u, g),
        first_user(ps@) is None ==> (r matches Err(e) && e.error@
            == "No user permission (one is required)."@),
        first_user(ps@) is Some && first_group(ps@) is None ==> (r matches Err(e) && e.error@
            == "No group permission (one is required)."@),
{
    let owner_user = match find_owner(ps, true) {
        Some(u) => u,
        None => {
            return Err(ResponseError::new(String::from_str("No user permission (one is required).")));
        },
    };
    let owner_group = match find_owner(ps, false) {
        Some(g) => g,
        None => {
            return Err(
                ResponseError::new(String::from_str("No group permission (one is required).")),
            );
        },
    };
    let mut entries: Vec<ACLEntry> = Vec::new();
    let mut i: usize = 0;
    while i < ps.len()
        invariant
            i <= ps@.len(),
            entries@ == entries_for(ps@.take(i as int), owner_user, owner_group),
        decreases ps.len() - i,
    {
        assert(ps@.take(i + 1).drop_last() =~= ps@.take(i as int));
        assert(ps@.take(i + 1).last() == ps@[i as int]);
        let p = ps[i];
        let rb: u32 = if p.read {
            ACL_READ
        } else {
            0
        };
        let wb: u32 = if p.write {
            ACL_WRITE
        } else {
            0
        };
        let xb: u32 = if p.execute {
            ACL_EXECUTE
        } else {
            0
        };
        let perm = rb | wb | xb;
        match p.granted_to {
            Entity::User(id) => {
                let qual = if id == owner_user {
                    Qualifier::UserObj
                } else {
                    Qualifier::User(id)
                };
                entries.push(ACLEntry { qual, perm });
            },
            Entity::Group(id) => {
                let qual = if id == owner_group {
                    Qualifier::GroupObj
                } else {
                    Qualifier::Group(id)
                };
                entries.push(ACLEntry { qual, perm });
            },
            Entity::Any => {
                entries.push(ACLEntry { qual: Qualifier::Other, perm });
            },
            Entity::Unknown => {},
        }
        i = i + 1;
    }
    assert(ps@.take(i as int) =~= ps@);
    Ok((owner_user, owner_group, entries))
}

} // verus!
