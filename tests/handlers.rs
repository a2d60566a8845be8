use xnode_manager::auth::models::Scope;
use xnode_manager::auth::utils::{get_scopes, has_permission, login_user, user_of_address};
use xnode_manager::file::handlers::{
    get_path, get_permissions, read_directory, remove_first_slash, set_permissions, ACLEntry,
    DirectoryEntry, EntryKind, Qualifier, ACL_EXECUTE, ACL_READ, ACL_WRITE,
};
use xnode_manager::file::models::{Entity, Permission};
use xnode_manager::info::handlers::{account_file, flake_command, group_id_of, groups_from_group_file, users_from_passwd};
use xnode_manager::info::models::{Group, User};
use xnode_manager::os::handlers as os;
use xnode_manager::os::models::OSChange;
use xnode_manager::process::handlers::{
    execute, journal_ctl_priority_to_log_level, journal_json, list_command, log_from_journal, logs_command,
    process_from_unit,
};
use xnode_manager::process::models::{JournalCtlLog, JournalCtlLogMessage, LogLevel, LogQuery, ProcessCommand, SystemCtlProcess};
use xnode_manager::request::job::Operation;
use xnode_manager::usage::handlers::disk_usage;
use xnode_manager::utils::env::Locations;
use xnode_manager::utils::output::Output;
use xnode_manager::utils::path::join;
use xnode_manager::utils::string::between;

fn locations() -> Locations {
    Locations {
        containersettings: "/data/containers".to_string(),
        containerstate: "/var/lib/nixos-containers".to_string(),
        containerprofile: "/profiles".to_string(),
        containerconfig: "/etc/nixos-containers".to_string(),
        systemdconfig: "/etc/systemd/system".to_string(),
        osdir: "/etc/nixos".to_string(),
        nix: "".to_string(),
        nixosrebuild: "".to_string(),
        systemd: "".to_string(),
        e2fsprogs: "".to_string(),
        buildcores: 0,
    }
}

fn words(op: &Operation) -> Vec<String> {
    match op {
        Operation::Run { command, .. } => {
            let mut w = vec![command.program.clone()];
            w.extend(command.args.iter().cloned());
            w
        }
        _ => vec![],
    }
}

#[test]
fn between_finds_the_first_pair() {
    assert_eq!(between("a\"b c\"d\"e", "\"", "\""), Some("b c".to_string()));
    assert_eq!(between("abc", "x", "c"), None);
    assert_eq!(between("abc", "a", "x"), None);
    assert_eq!(between("[]", "[", "]"), Some(String::new()));
}

#[test]
fn path_join_like_a_path() {
    assert_eq!(join("/a", "b"), "/a/b");
    assert_eq!(join("/a/", "b"), "/a/b");
    assert_eq!(join("", "b"), "b");
    assert_eq!(join("/a", "/etc"), "/etc");
}

#[test]
fn env_defaults() {
    assert_eq!(xnode_manager::utils::env::hostname(None), "0.0.0.0");
    assert_eq!(xnode_manager::utils::env::port(None), "34391");
    assert_eq!(xnode_manager::utils::env::port(Some("8080".to_string())), "8080");
    assert_eq!(xnode_manager::utils::env::datadir(None), "/var/lib/xnode-manager");
    assert_eq!(xnode_manager::utils::env::containersettings(None, "/var/lib/xnode-manager"), "/var/lib/xnode-manager/containers");
    assert_eq!(xnode_manager::utils::env::commandstream(None, "/d"), "/d/commandstream");
    assert_eq!(xnode_manager::utils::env::backupdir(Some("/b".to_string()), "/d"), "/b");
    assert_eq!(xnode_manager::utils::env::containerprofile(None), "/nix/var/nix/profiles/per-container");
    assert_eq!(xnode_manager::utils::env::nix(None), "");
    assert_eq!(xnode_manager::utils::env::buildcores(Some("8".to_string())), 8);
    assert_eq!(xnode_manager::utils::env::buildcores(Some("eight".to_string())), 0);
    assert_eq!(xnode_manager::utils::env::buildcores(None), 0);
}

#[test]
fn scopes_of_the_owner_only() {
    let owner = "eth:00ff";
    assert_eq!(get_scopes(&Some(owner.to_string()), owner), vec![Scope::Config, Scope::OS, Scope::File, Scope::Process, Scope::Usage]);
    assert!(get_scopes(&Some("eth:11".to_string()), owner).is_empty());
    assert!(get_scopes(&None, owner).is_empty());
    assert!(has_permission(&Some(owner.to_string()), owner, Scope::Config));
    assert!(!has_permission(&Some(owner.to_string()), owner, Scope::Info));
    assert!(!has_permission(&None, owner, Scope::Config));
}

#[test]
fn wallet_user_name_is_hex_of_address() {
    let mut a = [0u8; 20];
    a[0] = 0x01;
    a[1] = 0xab;
    a[19] = 0xf0;
    assert_eq!(user_of_address(&a), "eth:01ab0000000000000000000000000000000000f0");
}

#[test]
fn signature_logs_in_its_signer() {
    let secret = ethsign::SecretKey::from_raw(&[7u8; 32]).unwrap();
    let message = [9u8; 32];
    let signature = secret.sign(&message).unwrap();
    let expected = format!("eth:{}", hex::encode(secret.public().address()));
    let user = login_user(signature.v, signature.r, signature.s, &message).ok().unwrap();
    assert_eq!(user, expected);
    assert_eq!(user.len(), 44);
}

#[test]
fn unrecoverable_signature_is_refused() {
    let e = login_user(27, [0u8; 32], [0u8; 32], &[1u8; 32]).err().unwrap();
    assert!(e.error.starts_with("Signature address recovery failed: "));
}

#[test]
fn file_paths_in_scopes() {
    let l = locations();
    assert_eq!(remove_first_slash("/etc/passwd"), "etc/passwd");
    assert_eq!(remove_first_slash("etc"), "etc");
    assert_eq!(remove_first_slash(""), "");
    assert_eq!(get_path(&l, "container:web1", "/etc/hosts"), "/var/lib/nixos-containers/web1/etc/hosts");
    assert_eq!(get_path(&l, "host", "/etc/hosts"), "/etc/hosts");
}

#[test]
fn directory_entries_by_kind() {
    let e = |kind, name: Option<&str>| DirectoryEntry { kind, name: name.map(|n| n.to_string()) };
    let d = read_directory(&vec![
        e(Some(EntryKind::Directory), Some("dir")),
        e(Some(EntryKind::File), Some("f")),
        e(Some(EntryKind::Symlink), None),
        e(Some(EntryKind::Other), Some("fifo")),
        e(None, Some("?")),
    ]);
    assert_eq!(d.directories, vec!["dir"]);
    assert_eq!(d.files, vec!["f"]);
    assert_eq!(d.symlinks, vec!["UNKOWN_NAME"]);
    assert_eq!(d.unknown, vec!["?"]);
}

#[test]
fn acl_bits_are_posix_ones() {
    assert_eq!(ACL_READ, 4);
    assert_eq!(ACL_WRITE, 2);
    assert_eq!(ACL_EXECUTE, 1);
}

#[test]
fn permissions_from_acl() {
    let ps = get_permissions(
        &vec![
            ACLEntry { qual: Qualifier::UserObj, perm: 6 },
            ACLEntry { qual: Qualifier::GroupObj, perm: 4 },
            ACLEntry { qual: Qualifier::Mask, perm: 7 },
            ACLEntry { qual: Qualifier::User(1001), perm: 1 },
            ACLEntry { qual: Qualifier::Other, perm: 0 },
        ],
        1000,
        100,
    );
    assert_eq!(
        ps,
        vec![
            Permission { granted_to: Entity::User(1000), read: true, write: true, execute: false },
            Permission { granted_to: Entity::Group(100), read: true, write: false, execute: false },
            Permission { granted_to: Entity::User(1001), read: false, write: false, execute: true },
            Permission { granted_to: Entity::Any, read: false, write: false, execute: false },
        ]
    );
}

#[test]
fn acl_from_permissions() {
    let p = |granted_to, read, write, execute| Permission { granted_to, read, write, execute };
    let (u, g, entries) = set_permissions(&vec![
        p(Entity::Any, true, false, false),
        p(Entity::User(1000), true, true, true),
        p(Entity::Group(100), true, false, true),
        p(Entity::User(1001), false, true, false),
        p(Entity::Unknown, true, true, true),
    ])
    .ok()
    .unwrap();
    assert_eq!((u, g), (1000, 100));
    assert_eq!(
        entries,
        vec![
            ACLEntry { qual: Qualifier::Other, perm: 4 },
            ACLEntry { qual: Qualifier::UserObj, perm: 7 },
            ACLEntry { qual: Qualifier::GroupObj, perm: 5 },
            ACLEntry { qual: Qualifier::User(1001), perm: 2 },
        ]
    );
    let e = set_permissions(&vec![p(Entity::Group(1), true, true, true)]).err().unwrap();
    assert_eq!(e.error, "No user permission (one is required).");
    let e = set_permissions(&vec![p(Entity::User(1), true, true, true)]).err().unwrap();
    assert_eq!(e.error, "No group permission (one is required).");
}

#[test]
fn users_from_passwd_lines() {
    let users = users_from_passwd("root:x:0:0:System administrator:/root:/bin/sh\n\nalice:x:1000:100::/home/alice:/bin/bash\n").ok().unwrap();
    assert_eq!(users.len(), 2);
    assert_eq!(users[1].name, "alice");
    assert_eq!(users[1].id, 1000);
    assert_eq!(users[1].group, 100);
    assert_eq!(users[1].description, "");
    assert_eq!(users[1].home, "/home/alice");
    assert_eq!(users[1].login, "/bin/bash");
}

#[test]
fn user_from_str() {
    let u: User = "nobody:x:65534:65534:Unprivileged account:/var/empty:/run/current-system/sw/bin/nologin".parse().ok().unwrap();
    assert_eq!(u.id, 65534);
    assert_eq!(u.description, "Unprivileged account");
    let g: Group = "users:x:100:".parse().ok().unwrap();
    assert_eq!(g.id, 100);
    assert!(g.members.is_empty());
}

#[test]
fn user_line_errors() {
    let err = |line: &str| User::parse(line).err().unwrap().error;
    assert_eq!(err("root:x"), "Missing user id in root:x");
    assert_eq!(err("root:x:zero:0:a:b:c"), "Could not convert user id zero to u32");
    assert_eq!(err("root:x:0"), "Missing user group in root:x:0");
    assert_eq!(err("root:x:0:-1:a:b:c"), "Could not convert user group -1 to u32");
    assert_eq!(err("root:x:0:0"), "Missing user description in root:x:0:0");
    assert_eq!(err("root:x:0:0:a"), "Missing user home in root:x:0:0:a");
    assert_eq!(err("root:x:0:0:a:b"), "Missing user login in root:x:0:0:a:b");
    assert_eq!(users_from_passwd("ok:x:1:1:a:b:c\nbad").err().unwrap().error, "Missing user id in bad");
}

#[test]
fn groups_from_group_lines() {
    let groups = groups_from_group_file("wheel:x:1:alice,bob\nnogroup:x:65534:\n").ok().unwrap();
    assert_eq!(groups[0].name, "wheel");
    assert_eq!(groups[0].members, vec!["alice", "bob"]);
    assert_eq!(groups[1].id, 65534);
    assert!(groups[1].members.is_empty());
    assert_eq!(Group::parse("g:x:1").err().unwrap().error, "Missing user group in g:x:1");
    assert_eq!(Group::parse("g:x:4294967296:").err().unwrap().error, "Could not convert user id 4294967296 to u32");
}

#[test]
fn group_id_by_name() {
    let groups = groups_from_group_file("wheel:x:1:\nxnode-reverse-proxy:x:990:nginx\nxnode-reverse-proxy:x:991:\n").ok().unwrap();
    assert_eq!(group_id_of(&groups, "xnode-reverse-proxy"), Some(990));
    assert_eq!(group_id_of(&groups, "missing"), None);
}

#[test]
fn account_files_in_scopes() {
    let l = locations();
    assert_eq!(account_file(&l, "host", "passwd"), "/etc/passwd");
    assert_eq!(account_file(&l, "container:web1", "group"), "/var/lib/nixos-containers/web1/etc/group");
}

#[test]
fn flake_metadata_command() {
    let c = flake_command(&locations(), "github:owner/repo");
    assert_eq!(c.render(), "\"nix\" \"flake\" \"metadata\" \"github:owner/repo\" \"--json\" \"--no-use-registries\" \"--refresh\" \"--no-write-lock-file\"");
}

#[test]
fn priority_levels() {
    assert_eq!(journal_ctl_priority_to_log_level("0"), LogLevel::Error);
    assert_eq!(journal_ctl_priority_to_log_level("3"), LogLevel::Error);
    assert_eq!(journal_ctl_priority_to_log_level("4"), LogLevel::Warn);
    assert_eq!(journal_ctl_priority_to_log_level("6"), LogLevel::Info);
    assert_eq!(journal_ctl_priority_to_log_level("7"), LogLevel::Info);
    assert_eq!(journal_ctl_priority_to_log_level("8"), LogLevel::Unknown);
    assert_eq!(journal_ctl_priority_to_log_level("256"), LogLevel::Unknown);
    assert_eq!(journal_ctl_priority_to_log_level("x"), LogLevel::Unknown);
}

#[test]
fn journal_lines_become_an_array() {
    assert_eq!(journal_json("{\"a\":1}\n{\"a\":2}\n"), "[{\"a\":1},{\"a\":2}]");
    assert_eq!(journal_json(""), "[]");
}

#[test]
fn journal_entry_as_log() {
    let log = log_from_journal(JournalCtlLog {
        realtime_timestamp: "1700000000000000".to_string(),
        message: JournalCtlLogMessage::String("hello".to_string()),
        priority: "4".to_string(),
    });
    assert_eq!(log.timestamp, 1700000000000000);
    assert_eq!(log.level, LogLevel::Warn);
    assert!(matches!(log.message, Output::UTF8 { output } if output == "hello"));
    let log = log_from_journal(JournalCtlLog {
        realtime_timestamp: "soon".to_string(),
        message: JournalCtlLogMessage::Raw(vec![1, 2]),
        priority: "".to_string(),
    });
    assert_eq!(log.timestamp, 0);
    assert_eq!(log.level, LogLevel::Unknown);
}

#[test]
fn process_commands() {
    let l = locations();
    assert_eq!(
        list_command(&l, "container:web1").render(),
        "\"systemctl\" \"list-units\" \"--type=service\" \"--output=json\" \"--no-pager\" \"--machine\" \"web1\""
    );
    let c = logs_command(&l, "host", "nginx.service", &LogQuery { max: None, level: Some(LogLevel::Error) });
    assert_eq!(
        c.render(),
        "\"journalctl\" \"--unit\" \"nginx.service\" \"--output=json\" \"--all\" \"--no-pager\" \"--output-fields\" \"__REALTIME_TIMESTAMP,MESSAGE,PRIORITY\" \"--lines\" \"100\" \"--priority\" \"3\""
    );
    let p = process_from_unit(SystemCtlProcess { unit: "a.service".to_string(), description: "A".to_string(), sub: "running".to_string() });
    assert!(p.running);
    assert_eq!(p.description, Some("A".to_string()));
    let p = process_from_unit(SystemCtlProcess { unit: "b".to_string(), description: "B".to_string(), sub: "dead".to_string() });
    assert!(!p.running);
}

#[test]
fn execute_plan_restarts_a_service() {
    let plan = execute(&locations(), "container:c1", "nginx", ProcessCommand::Restart, 4);
    assert!(plan.body_from_output);
    assert_eq!(words(&plan.steps[0].op), vec!["systemctl", "restart", "nginx", "--machine", "c1"]);
    assert_eq!(plan.steps[0].context, "Erroring executing restart on nginx of container:c1");
}

#[test]
fn os_change_plan() {
    let l = locations();
    let change = OSChange {
        flake: None,
        update_inputs: Some(vec!["nixpkgs".to_string()]),
        xnode_owner: Some("eth:00".to_string()),
        domain: None,
        acme_email: None,
        user_passwd: None,
        as_child: false,
    };
    let plan = os::set(&change, &l, 1);
    assert_eq!(plan.steps.len(), 3);
    assert!(matches!(&plan.steps[0].op, Operation::WriteFile { path, content } if path == "/etc/nixos/xnode-owner" && content == "eth:00"));
    assert_eq!(words(&plan.steps[1].op), vec!["nix", "flake", "update", "nixpkgs", "--flake", "/etc/nixos"]);
    assert_eq!(words(&plan.steps[2].op), vec!["nixos-rebuild", "switch", "--flake", "/etc/nixos"]);
    let plan = os::reboot(&l, 1);
    assert_eq!(words(&plan.steps[0].op), vec!["systemctl", "reboot"]);
}

#[test]
fn os_configuration_needs_flake_and_lock() {
    let l = locations();
    let e = os::get(&l, Ok(String::new()), Err(xnode_manager::utils::command::IoFailure { kind: xnode_manager::utils::command::IoErrorKind::NotFound, message: "nf".to_string() }), None, None, None, None).err().unwrap();
    assert_eq!(e.error, "Error reading OS flake lock from /etc/nixos/flake.lock: nf");
    let c = os::get(&l, Ok("f".to_string()), Ok("l".to_string()), Some("o".to_string()), None, None, None).ok().unwrap();
    assert_eq!(c.flake_lock, "l");
    assert_eq!(c.xnode_owner, Some("o".to_string()));
}

#[test]
fn disk_usage_never_underflows() {
    assert_eq!(disk_usage("/".to_string(), 100, 30).used, 70);
    assert_eq!(disk_usage("/".to_string(), 100, 130).used, 0);
}
