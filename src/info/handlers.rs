use vstd::prelude::*;
use vstd::string::StringExecFns;

use crate::config::handlers::concat;
use crate::info::models::{Flake, FlakeMetadata, Group, User};
use crate::utils::command::{strings_view, ExternalCommand};
use crate::utils::env::Locations;
use crate::utils::error::ResponseError;
use crate::utils::path::{join, joined};
use crate::utils::string::{
    chars_of, container_of_scope, parse_unsigned, parse_unsigned_chars, scope_container,
    split_chars, split_spec, string_of,
};

verus! {

/// The command that prints the metadata of a flake, fetched afresh.
pub fn flake_command(l: &Locations, flake: &str) -> (r: ExternalCommand)
    ensures
        r.words() == seq![
            l.nix@ + "nix"@,
            "flake"@,
            "metadata"@,
            flake@,
            "--json"@,
            "--no-use-registries"@,
            "--refresh"@,
            "--no-write-lock-file"@,
        ],
        crate::request::job::envs_view(r.envs@) == seq![("NIX_REMOTE"@, "daemon"@)],
{
    let mut c = ExternalCommand::new(concat(l.nix.as_str(), "nix"));
    c.env(String::from_str("NIX_REMOTE"), String::from_str("daemon"));
    c.arg(String::from_str("flake"));
    c.arg(String::from_str("metadata"));
    c.arg(flake.to_owned());
    c.arg(String::from_str("--json"));
    c.arg(String::from_str("--no-use-registries"));
    c.arg(String::from_str("--refresh"));
    c.arg(String::from_str("--no-write-lock-file"));
    assert(c.words() =~= seq![
        l.nix@ + "nix"@,
        "flake"@,
        "metadata"@,
        flake@,
        "--json"@,
        "--no-use-registries"@,
        "--refresh"@,
        "--no-write-lock-file"@,
    ]);
    assert(crate::request::job::envs_view(c.envs@) =~= seq![("NIX_REMOTE"@, "daemon"@)]);
    c
}

/// A flake's metadata as it is answered.
pub fn flake_from_metadata(m: FlakeMetadata) -> (r: Flake)
    ensures
        r.last_modified == m.last_modified,
        r.revision == m.revision,
{
    Flake { last_modified: m.last_modified, revision: m.revision }
}

/// Where the account files of a scope are: under the container's state
/// directory for a container, under `/` for the host.
pub open spec fn scope_root(l: Locations, scope: Seq<char>) -> Seq<char> {
    match scope_container(scope) {
        Some(c) => joined(l.containerstate@, c),
        None => "/"@,
    }
}

/// The path of the account file `name` of a scope.
pub fn account_file(l: &Locations, scope: &str, name: &str) -> (r: String)
    ensures
        r@ == joined(joined(scope_root(*l, scope@), "etc"@), name@),
{
    let root = match container_of_scope(scope) {
        Some(c) => join(l.containerstate.as_str(), c.as_str()),
        None => String::from_str("/"),
    };
    join(join(root.as_str(), "etc").as_str(), name)
}

/// The value of a u32 field.
pub open spec fn u32_field(s: Seq<char>) -> Option<nat> {
    parse_unsigned(s, u32::MAX as nat)
}

/// Why a line of the user file is not a user, empty where it is one.
pub open spec fn user_error(line: Seq<char>) -> Seq<char> {
    let p = split_spec(line, ':');
    if p.len() < 3 {
        "Missing "@ + "user id"@ + " in "@ + line
    } else if u32_field(p[2]) is None {
        "Could not convert "@ + "user id"@ + " "@ + p[2] + " to u32"@
    } else if p.len() < 4 {
        "Missing "@ + "user group"@ + " in "@ + line
    } else if u32_field(p[3]) is None {
        "Could not convert "@ + "user group"@ + " "@ + p[3] + " to u32"@
    } else if p.len() < 5 {
        "Missing "@ + "user description"@ + " in "@ + line
    } else if p.len() < 6 {
        "Missing "@ + "user home"@ + " in "@ + line
    } else if p.len() < 7 {
        "Missing "@ + "user login"@ + " in "@ + line
    } else {
        Seq::empty()
    }
}

/// Whether a line of the user file is a user: seven or more fields
/// separated by `:`, the third and fourth of them numbers.
pub open spec fn is_user_line(line: Seq<char>) -> bool {
    let p = split_spec(line, ':');
    p.len() >= 7 && u32_field(p[2]) is Some && u32_field(p[3]) is Some
}

/// Whether `u` is the user a line of the user file describes.
pub open spec fn user_matches(u: User, line: Seq<char>) -> bool {
    let p = split_spec(line, ':');
    &&& is_user_line(line)
    &&& u.name@ == p[0]
    &&& u.id as nat == u32_field(p[2])->Some_0
    &&& u.group as nat == u32_field(p[3])->Some_0
    &&& u.description@ == p[4]
    &&& u.home@ == p[5]
    &&& u.login@ == p[6]
}

fn missing(what: &str, line: &str) -> (r: ResponseError)
    ensures
        r.error@ == "Missing "@ + what@ + " in "@ + line@,
{
    let mut m = concat("Missing ", what);
    m.append(" in ");
    m.append(line);
    ResponseError::new(m)
}

fn not_a_number(what: &str, field: &Vec<char>) -> (r: ResponseError)
    ensures
        r.error@ == "Could not convert "@ + what@ + " "@ + field@ + " to u32"@,
{
    let mut m = concat("Could not convert ", what);
    m.append(" ");
    m.append(string_of(field).as_str());
    m.append(" to u32");
    ResponseError::new(m)
}

impl User {
    /// The user a line of the user file describes, or why it describes
    /// none.
    pub fn parse(line: &str) -> (r: Result<User, ResponseError>)
        ensures
            r is Ok <==> is_user_line(line@),
            r matches Ok(u) ==> user_matches(u, line@),
            r matches Err(e) ==> e.error@ == user_error(line@),
    {
        let p = split_chars(&chars_of(line), ':');
        let ghost q = split_spec(line@, ':');
        proof {
            reveal_strlit("user id");
            reveal_strlit("user group");
        }
        if p.len() < 3 {
            return Err(missing("user id", line));
        }
        let id = match parse_unsigned_chars(&p[2], 0xffff_ffff) {
            Some(v) => v as u32,
            None => {
                return Err(not_a_number("user id", &p[2]));
            },
        };
        if p.len() < 4 {
            return Err(missing("user group", line));
        }
        let group = match parse_unsigned_chars(&p[3], 0xffff_ffff) {
            Some(v) => v as u32,
            None => {
                return Err(not_a_number("user group", &p[3]));
            },
        };
        if p.len() < 5 {
            return Err(missing("user description", line));
        }
        if p.len() < 6 {
            return Err(missing("user home", line));
        }
        if p.len() < 7 {
            return Err(missing("user login", line));
        }
        Ok(
            User {
                name: string_of(&p[0]),
                id,
                group,
                description: string_of(&p[4]),
                home: string_of(&p[5]),
                login: string_of(&p[6]),
            },
        )
    }
}

impl std::str::FromStr for User {
    type Err = ResponseError;

    fn from_str(s: &str) -> Result<User, ResponseError> {
        User::parse(s)
    }
}

/// Why a line of the group file is not a group, empty where it is one.
pub open spec fn group_error(line: Seq<char>) -> Seq<char> {
    let p = split_spec(line, ':');
    if p.len() < 3 {
        "Missing "@ + "user id"@ + " in "@ + line
    } else if u32_field(p[2]) is None {
        "Could not convert "@ + "user id"@ + " "@ + p[2] + " to u32"@
    } else if p.len() < 4 {
        "Missing "@ + "user group"@ + " in "@ + line
    } else {
        Seq::empty()
    }
}

/// Whether a line of the group file is a group: four or more fields
/// separated by `:`, the third of them a number.
pub open spec fn is_group_line(line: Seq<char>) -> bool {
    let p = split_spec(line, ':');
    p.len() >= 4 && u32_field(p[2]) is Some
}

/// The members a group field lists, separated by `,`.
pub open spec fn members_of(field: Seq<char>) -> Seq<Seq<char>> {
    if field.len() == 0 {
        Seq::empty()
    } else {
        split_spec(field, ',')
    }
}

/// Whether `g` is the group a line of the group file describes.
pub open spec fn group_matches(g: Group, line: Seq<char>) -> bool {
    let p = split_spec(line, ':');
    &&& is_group_line(line)
    &&& g.name@ == p[0]
    &&& g.id as nat == u32_field(p[2])->Some_0
    &&& strings_view(g.members@) == members_of(p[3])
}

impl Group {
    /// The group a line of the group file describes, or why it describes
    /// none.
    pub fn parse(line: &str) -> (r: Result<Group, ResponseError>)
        ensures
            r is Ok <==> is_group_line(line@),
            r matches Ok(g) ==> group_matches(g, line@),
            r matches Err(e) ==> e.error@ == group_error(line@),
    {
        let p = split_chars(&chars_of(line), ':');
        proof {
            reveal_strlit("user id");
            reveal_strlit("user group");
        }
        if p.len() < 3 {
            return Err(missing("user id", line));
        }
        let id = match parse_unsigned_chars(&p[2], 0xffff_ffff) {
            Some(v) => v as u32,
            None => {
                return Err(not_a_number("user id", &p[2]));
            },
        };
        if p.len() < 4 {
            return Err(missing("user group", line));
        }
        let mut members: Vec<String> = Vec::new();
        if p[3].len() > 0 {
            let names = split_chars(&p[3], ',');
            let mut i: usize = 0;
            while i < names.len()
                invariant
                    p@.len() >= 4,
                    i <= names@.len(),
                    names@.len() == split_spec(p@[3]@, ',').len(),
                    forall|k: int|
                        0 <= k < names@.len() ==> #[trigger] names@[k]@ == split_spec(
                            p@[3]@,
                            ',',
                        )[k],
                    strings_view(members@) == split_spec(p@[3]@, ',').take(i as int),
                decreases names.len() - i,
            {
                let ghost before = members@;
                members.push(string_of(&names[i]));
                i = i + 1;
                assert(strings_view(members@) =~= split_spec(p@[3]@, ',').take(i as int)) by {
                    assert(strings_view(members@) =~= strings_view(before).push(names@[i - 1]@));
                }
            }
            assert(split_spec(p@[3]@, ',').take(i as int) =~= split_spec(p@[3]@, ','));
        } else {
            assert(strings_view(members@) =~= Seq::<Seq<char>>::empty());
        }
        Ok(Group { name: string_of(&p[0]), id, members })
    }
}

impl std::str::FromStr for Group {
    type Err = ResponseError;

    fn from_str(s: &str) -> Result<Group, ResponseError> {
        Group::parse(s)
    }
}

/// The id of the first group named `name`.
pub fn group_id_of(groups: &Vec<Group>, name: &str) -> (r: Option<u32>)
    ensures
        r is Some <==> exists|k: int| 0 <= k < groups@.len() && (#[trigger] groups@[k]).name@ == name@,
        r matches Some(id) ==> exists|k: int|
            0 <= k < groups@.len() && (#[trigger] groups@[k]).name@ == name@ && groups@[k].id == id
                && forall|j: int| 0 <= j < k ==> groups@[j].name@ != name@,
{
    let target = name.to_owned();
    let mut i: usize = 0;
    while i < groups.len()
        invariant
            i <= groups@.len(),
            target@ == name@,
            forall|j: int| 0 <= j < i ==> groups@[j].name@ != name@,
        decreases groups.len() - i,
    {
        if groups[i].name == target {
            assert(groups@[i as int].name@ == name@);
            return Some(groups[i].id);
        }
        i = i + 1;
    }
    None
}

/// The lines of a file that are not empty.
pub open spec fn nonempty_lines(lines: Seq<Seq<char>>) -> Seq<Seq<char>>
    decreases lines.len(),
{
    if lines.len() == 0 {
        Seq::empty()
    } else if lines.last().len() == 0 {
        nonempty_lines(lines.drop_last())
    } else {
        nonempty_lines(lines.drop_last()).push(lines.last())
    }
}

/// The non-empty lines of a file's text.
pub open spec fn file_lines(content: Seq<char>) -> Seq<Seq<char>> {
    nonempty_lines(split_spec(content, '\n'))
}

fn lines_of(content: &str) -> (r: Vec<String>)
    ensures
        strings_view(r@) == file_lines(content@),
{
    let parts = split_chars(&chars_of(content), '\n');
    let ghost all = split_spec(content@, '\n');
    let mut r: Vec<String> = Vec::new();
    let mut i: usize = 0;
    while i < parts.len()
        invariant
            i <= parts@.len(),
            parts@.len() == all.len(),
            forall|k: int| 0 <= k < parts@.len() ==> #[trigger] parts@[k]@ == all[k],
            strings_view(r@) == nonempty_lines(all.take(i as int)),
        decreases parts.len() - i,
    {
        assert(all.take(i + 1).drop_last() =~= all.take(i as int));
        assert(all.take(i + 1).last() == parts@[i as int]@);
        if parts[i].len() > 0 {
            let ghost before = r@;
            r.push(string_of(&parts[i]));
            assert(strings_view(r@) =~= strings_view(before).push(parts@[i as int]@));
        }
        i = i + 1;
    }
    assert(all.take(i as int) =~= all);
    r
}

/// The users the user file lists, one per non-empty line; the first line
/// that is not a user makes it fail.
pub fn users_from_passwd(content: &str) -> (r: Result<Vec<User>, ResponseError>)
    ensures
        r is Ok <==> forall|k: int|
            0 <= k < file_lines(content@).len() ==> is_user_line(#[trigger] file_lines(content@)[k]),
        r matches Ok(v) ==> v@.len() == file_lines(content@).len() && forall|k: int|
            0 <= k < v@.len() ==> user_matches(#[trigger] v@[k], file_lines(content@)[k]),
        r matches Err(e) ==> exists|k: int|
            0 <= k < file_lines(content@).len() && !is_user_line(#[trigger] file_lines(content@)[k])
                && e.error@ == user_error(file_lines(content@)[k]),
{
    let lines = lines_of(content);
    let ghost ls = file_lines(content@);
    let mut users: Vec<User> = Vec::new();
    let mut i: usize = 0;
    while i < lines.len()
        invariant
            i <= lines@.len(),
            strings_view(lines@) == ls,
            ls == file_lines(content@),
            users@.len() == i,
            forall|k: int| 0 <= k < i ==> user_matches(#[trigger] users@[k], ls[k]),
        decreases lines.len() - i,
    {
        assert(ls[i as int] == lines@[i as int]@);
        match User::parse(lines[i].as_str()) {
            Ok(u) => {
                users.push(u);
            },
            Err(e) => {
                return Err(e);
            },
        }
        i = i + 1;
    }
    assert forall|k: int| 0 <= k < ls.len() implies is_user_line(#[trigger] ls[k]) by {
        assert(user_matches(users@[k], ls[k]));
    }
    Ok(users)
}

/// The groups the group file lists, one per non-empty line; the first line
/// that is not a group makes it fail.
pub fn groups_from_group_file(content: &str) -> (r: Result<Vec<Group>, ResponseError>)
    ensures
        r is Ok <==> forall|k: int|
            0 <= k < file_lines(content@).len() ==> is_group_line(#[trigger] file_lines(content@)[k]),
        r matches Ok(v) ==> v@.len() == file_lines(content@).len() && forall|k: int|
            0 <= k < v@.len() ==> group_matches(#[trigger] v@[k], file_lines(content@)[k]),
        r matches Err(e) ==> exists|k: int|
            0 <= k < file_lines(content@).len() && !is_group_line(#[trigger] file_lines(content@)[k])
                && e.error@ == group_error(file_lines(content@)[k]),
{
    let lines = lines_of(content);
    let ghost ls = file_lines(content@);
    let mut groups: Vec<Group> = Vec::new();
    let mut i: usize = 0;
    while i < lines.len()
        invariant
            i <= lines@.len(),
            strings_view(lines@) == ls,
            ls == file_lines(content@),
            groups@.len() == i,
            forall|k: int| 0 <= k < i ==> group_matches(#[trigger] groups@[k], ls[k]),
        decreases lines.len() - i,
    {
        assert(ls[i as int] == lines@[i as int]@);
        match Group::parse(lines[i].as_str()) {
            Ok(g) => {
                groups.push(g);
            },
            Err(e) => {
                return Err(e);
            },
        }
        i = i + 1;
    }
    assert forall|k: int| 0 <= k < ls.len() implies is_group_line(#[trigger] ls[k]) by {
        assert(group_matches(groups@[k], ls[k]));
    }
    Ok(groups)
}

} // verus!
