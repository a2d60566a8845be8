use vstd::prelude::*;

use crate::utils::path::{join, joined};
use crate::utils::string::{chars_of, parse_unsigned, parse_unsigned_chars};

verus! {

/// The value of a setting, or `default` where it is not set.
pub open spec fn setting(value: Option<String>, default: Seq<char>) -> Seq<char> {
    match value {
        Some(v) => v@,
        None => default,
    }
}

fn or_default(value: Option<String>, default: &str) -> (r: String)
    ensures
        r@ == setting(value, default@),
{
    match value {
        Some(v) => v,
        None => default.to_owned(),
    }
}

fn or_joined(value: Option<String>, base: &str, part: &str) -> (r: String)
    ensures
        r@ == setting(value, joined(base@, part@)),
{
    match value {
        Some(v) => v,
        None => join(base, part),
    }
}

/// The address to listen on, from the `HOSTNAME` setting.
pub fn hostname(value: Option<String>) -> (r: String)
    ensures
        r@ == setting(value, "0.0.0.0"@),
{
    or_default(value, "0.0.0.0")
}

/// The port to listen on, from the `PORT` setting.
pub fn port(value: Option<String>) -> (r: String)
    ensures
        r@ == setting(value, "34391"@),
{
    or_default(value, "34391")
}

/// Where the manager keeps its data, from the `DATADIR` setting.
pub fn datadir(value: Option<String>) -> (r: String)
    ensures
        r@ == setting(value, "/var/lib/xnode-manager"@),
{
    or_default(value, "/var/lib/xnode-manager")
}

/// The host's configuration flake directory, from the `OSDIR` setting.
pub fn osdir(value: Option<String>) -> (r: String)
    ensures
        r@ == setting(value, "/etc/nixos"@),
{
    or_default(value, "/etc/nixos")
}

/// Where container flakes are kept, from the `CONTAINERSETTINGS` setting.
pub fn containersettings(value: Option<String>, datadir: &str) -> (r: String)
    ensures
        r@ == setting(value, joined(datadir@, "containers"@)),
{
    or_joined(value, datadir, "containers")
}

/// Where container state lives, from the `CONTAINERSTATE` setting.
pub fn containerstate(value: Option<String>) -> (r: String)
    ensures
        r@ == setting(value, "/var/lib/nixos-containers"@),
{
    or_default(value, "/var/lib/nixos-containers")
}

/// Where container profiles are built, from the `CONTAINERPROFILE` setting.
pub fn containerprofile(value: Option<String>) -> (r: String)
    ensures
        r@ == setting(value, "/nix/var/nix/profiles/per-container"@),
{
    or_default(value, "/nix/var/nix/profiles/per-container")
}

/// Where container service settings are kept, from the `CONTAINERCONFIG`
/// setting.
pub fn containerconfig(value: Option<String>) -> (r: String)
    ensures
        r@ == setting(value, "/etc/nixos-containers"@),
{
    or_default(value, "/etc/nixos-containers")
}

/// Where service drop-in files go, from the `SYSTEMDCONFIG` setting.
pub fn systemdconfig(value: Option<String>) -> (r: String)
    ensures
        r@ == setting(value, "/etc/systemd/system"@),
{
    or_default(value, "/etc/systemd/system")
}

/// Where backups go, from the `BACKUPDIR` setting.
pub fn backupdir(value: Option<String>, datadir: &str) -> (r: String)
    ensures
        r@ == setting(value, joined(datadir@, "backups"@)),
{
    or_joined(value, datadir, "backups")
}

/// Where requests and their steps are recorded, from the `COMMANDSTREAM`
/// setting.
pub fn commandstream(value: Option<String>, datadir: &str) -> (r: String)
    ensures
        r@ == setting(value, joined(datadir@, "commandstream"@)),
{
    or_joined(value, datadir, "commandstream")
}

/// The socket to listen on, from the `SOCKET` setting.
pub fn socket(value: Option<String>, datadir: &str) -> (r: String)
    ensures
        r@ == setting(value, joined(datadir@, "socket"@)),
{
    or_joined(value, datadir, "socket")
}

/// The user that owns this host, from the `OWNER` setting.
pub fn owner(value: Option<String>) -> (r: String)
    ensures
        r@ == setting(value, Seq::empty()),
{
    proof {
        reveal_strlit("");
    }
    or_default(value, "")
}

/// The number of cores a build may use, from the `BUILDCORES` setting: 0,
/// meaning all of them, where it is not set or not a number.
pub fn buildcores(value: Option<String>) -> (r: u64)
    ensures
        r == (match value {
            Some(v) => match parse_unsigned(v@, u64::MAX as nat) {
                Some(n) => n as u64,
                None => 0,
            },
            None => 0,
        }),
{
    match value {
        Some(v) => match parse_unsigned_chars(&chars_of(v.as_str()), u64::MAX) {
            Some(n) => n,
            None => 0,
        },
        None => 0,
    }
}

/// The directory prefix of the package tool, from the `NIX` setting.
pub fn nix(value: Option<String>) -> (r: String)
    ensures
        r@ == setting(value, Seq::empty()),
{
    proof {
        reveal_strlit("");
    }
    or_default(value, "")
}

/// The directory prefix of the system rebuild tool, from the `NIXOSREBUILD`
/// setting.
pub fn nixosrebuild(value: Option<String>) -> (r: String)
    ensures
        r@ == setting(value, Seq::empty()),
{
    proof {
        reveal_strlit("");
    }
    or_default(value, "")
}

/// The directory prefix of the init system's tools, from the `SYSTEMD`
/// setting.
pub fn systemd(value: Option<String>) -> (r: String)
    ensures
        r@ == setting(value, Seq::empty()),
{
    proof {
        reveal_strlit("");
    }
    or_default(value, "")
}

/// The directory prefix of the file attribute tool, from the `E2FSPROGS`
/// setting.
pub fn e2fsprogs(value: Option<String>) -> (r: String)
    ensures
        r@ == setting(value, Seq::empty()),
{
    proof {
        reveal_strlit("");
    }
    or_default(value, "")
}

/// Where the host keeps what the jobs work on, and where its tools are.
pub struct Locations {
    pub containersettings: String,
    pub containerstate: String,
    pub containerprofile: String,
    pub containerconfig: String,
    pub systemdconfig: String,
    pub osdir: String,
    pub nix: String,
    pub nixosrebuild: String,
    pub systemd: String,
    pub e2fsprogs: String,
    pub buildcores: u64,
}

} // verus!
