use vstd::prelude::*;
use vstd::string::StringExecFns;

use crate::config::models::{ConfigurationAction, ContainerSettings};
use crate::request::job::{
    envs_view, op_view, steps_view, OnFailure, OpView, Operation, Plan, Step, StepView,
};
use crate::request::models::RequestId;
use crate::utils::command::{strings_view, CommandExecutionMode, ExternalCommand};
use crate::utils::env::Locations;
use crate::utils::path::{join, joined};
use crate::utils::error::ResponseError;
use crate::config::models::ContainerConfiguration;
use crate::utils::command::IoFailure;
use crate::utils::string::{
    between, between_spec, chars_eq, chars_of, decimal, decimal_string, find_chars, find_spec,
    has_prefix, parse_unsigned, parse_unsigned_chars, replace_all, replaced, split_chars,
    split_spec, starts_with, string_of,
};

verus! {

/// `a` followed by `b`.
pub fn concat(a: &str, b: &str) -> (r: String)
    ensures
        r@ == a@ + b@,
{
    let mut r = a.to_owned();
    r.append(b);
    r
}

/// The words joined into one text, with `sep` between each two.
pub open spec fn join_words(ws: Seq<Seq<char>>, sep: Seq<char>) -> Seq<char>
    decreases ws.len(),
{
    if ws.len() == 0 {
        Seq::empty()
    } else if ws.len() == 1 {
        ws[0]
    } else {
        join_words(ws.drop_last(), sep) + sep + ws.last()
    }
}

/// The strings joined into one, with `sep` between each two.
pub fn join_strings(ws: &Vec<String>, sep: &str) -> (r: String)
    ensures
        r@ == join_words(strings_view(ws@), sep@),
{
    let mut r = String::new();
    let mut i: usize = 0;
    while i < ws.len()
        invariant
            i <= ws@.len(),
            r@ == join_words(strings_view(ws@).take(i as int), sep@),
        decreases ws.len() - i,
    {
        assert(strings_view(ws@).take(i + 1).drop_last() =~= strings_view(ws@).take(i as int));
        if i > 0 {
            r.append(sep);
        } else {
            assert(r@ =~= Seq::<char>::empty());
        }
        r.append(ws[i].as_str());
        i = i + 1;
        assert(strings_view(ws@).take(i as int).last() == ws@[i - 1]@);
    }
    assert(strings_view(ws@).take(i as int) =~= strings_view(ws@));
    r
}

/// The directory that holds a container's flake.
pub open spec fn container_dir(l: Locations, id: Seq<char>) -> Seq<char> {
    joined(l.containersettings@, id)
}

/// A container's state directory.
pub open spec fn state_dir(l: Locations, id: Seq<char>) -> Seq<char> {
    joined(l.containerstate@, id)
}

/// The directory of a container's built profile.
pub open spec fn profile_dir(l: Locations, id: Seq<char>) -> Seq<char> {
    joined(l.containerprofile@, id)
}

/// A container's service settings file.
pub open spec fn conf_file(l: Locations, id: Seq<char>) -> Seq<char> {
    joined(l.containerconfig@, id + ".conf"@)
}

/// The service unit that runs a container.
pub open spec fn unit_name(id: Seq<char>) -> Seq<char> {
    "container@"@ + id
}

/// The drop-in directory of a container's service unit.
pub open spec fn dropin_dir(l: Locations, id: Seq<char>) -> Seq<char> {
    joined(l.systemdconfig@, unit_name(id) + ".service.d"@)
}

/// The drop-in file this manager writes for a container's service unit.
pub open spec fn dropin_file(l: Locations, id: Seq<char>) -> Seq<char> {
    joined(dropin_dir(l, id), "99-XnodeManager.conf"@)
}

/// The device names of GPUs, in decimal.
pub open spec fn gpu_devices(gpus: Seq<u64>) -> Seq<Seq<char>> {
    gpus.map_values(|g: u64| decimal(g as nat))
}

/// The container flags that join a network zone and bind the GPU devices.
pub open spec fn nspawn_flags(network: Option<Seq<char>>, gpus: Option<Seq<u64>>) -> Seq<Seq<char>> {
    (match network {
        Some(n) => seq!["--network-zone="@ + n],
        None => Seq::empty(),
    }) + (match gpus {
        Some(g) => (gpu_devices(g) + seq!["ctl"@, "-modeset"@, "-uvm"@, "-uvm-tools"@]).map_values(
            |d: Seq<char>| "--bind-ro=/dev/nvidia"@ + d,
        ),
        None => Seq::empty(),
    })
}

/// The service lines that let a container use the GPU devices.
pub open spec fn device_allows(gpus: Option<Seq<u64>>) -> Seq<Seq<char>> {
    match gpus {
        Some(g) => (gpu_devices(g) + seq!["ctl"@, "-caps*"@, "-modeset"@, "-uvm"@, "-uvm-tools"@]).map_values(
            |d: Seq<char>| "DeviceAllow=/dev/nvidia"@ + d + " rw"@,
        ),
        None => Seq::empty(),
    }
}

/// The text of a container's service settings file.
pub open spec fn conf_content(network: Option<Seq<char>>, gpus: Option<Seq<u64>>) -> Seq<char> {
    "EXTRA_NSPAWN_FLAGS=\""@ + join_words(nspawn_flags(network, gpus), " "@) + "\""@
}

/// The text of a container's service drop-in file.
pub open spec fn dropin_content(gpus: Option<Seq<u64>>) -> Seq<char> {
    join_words(seq!["[Service]"@] + device_allows(gpus), "\n"@)
}

/// The text of an optional string.
pub open spec fn opt_view(o: Option<String>) -> Option<Seq<char>> {
    match o {
        Some(s) => Some(s@),
        None => None,
    }
}

/// The GPU ids of optional GPU settings.
pub open spec fn gpus_view(o: Option<Vec<u64>>) -> Option<Seq<u64>> {
    match o {
        Some(g) => Some(g@),
        None => None,
    }
}

/// Appends `prefix + d + suffix` for each device `d`.
fn push_devices(
    out: &mut Vec<String>,
    devices: &Vec<String>,
    prefix: &str,
    suffix: &str,
)
    ensures
        strings_view(final(out)@) == strings_view(old(out)@) + strings_view(devices@).map_values(
            |d: Seq<char>| prefix@ + d + suffix@,
        ),
{
    let ghost start = strings_view(out@);
    let mut i: usize = 0;
    while i < devices.len()
        invariant
            i <= devices@.len(),
            strings_view(out@) == start + strings_view(devices@).take(i as int).map_values(
                |d: Seq<char>| prefix@ + d + suffix@,
            ),
        decreases devices.len() - i,
    {
        let ghost before = out@;
        let mut w = concat(prefix, devices[i].as_str());
        w.append(suffix);
        out.push(w);
        i = i + 1;
        assert(strings_view(out@) =~= start + strings_view(devices@).take(i as int).map_values(
            |d: Seq<char>| prefix@ + d + suffix@,
        )) by {
            assert(strings_view(out@) =~= strings_view(before).push(w@));
        }
    }
    assert(strings_view(devices@).take(i as int) =~= strings_view(devices@));
}

/// The device names of the GPUs followed by the `extra` device names.
fn device_names(gpus: &Vec<u64>, extra: &[&str]) -> (r: Vec<String>)
    ensures
        strings_view(r@) == gpu_devices(gpus@) + extra@.map_values(|e: &str| e@),
{
    let mut r: Vec<String> = Vec::new();
    let mut i: usize = 0;
    while i < gpus.len()
        invariant
            i <= gpus@.len(),
            strings_view(r@) == gpu_devices(gpus@.take(i as int)),
        decreases gpus.len() - i,
    {
        let ghost before = r@;
        r.push(decimal_string(gpus[i]));
        i = i + 1;
        assert(strings_view(r@) =~= gpu_devices(gpus@.take(i as int))) by {
            assert(strings_view(r@) =~= strings_view(before).push(decimal(gpus@[i - 1] as nat)));
        }
    }
    assert(gpus@.take(i as int) =~= gpus@);
    let ghost mid = strings_view(r@);
    let mut k: usize = 0;
    while k < extra.len()
        invariant
            k <= extra@.len(),
            strings_view(r@) == mid + extra@.take(k as int).map_values(|e: &str| e@),
        decreases extra.len() - k,
    {
        let ghost before = r@;
        r.push(extra[k].to_owned());
        k = k + 1;
        assert(strings_view(r@) =~= mid + extra@.take(k as int).map_values(|e: &str| e@)) by {
            assert(strings_view(r@) =~= strings_view(before).push(extra@[k - 1]@));
        }
    }
    assert(extra@.take(k as int) =~= extra@);
    r
}


/// The text of a container's service settings file, for a network zone and
/// GPUs to pass through.
pub fn nspawn_conf(network: &Option<String>, gpus: &Option<Vec<u64>>) -> (r: String)
    ensures
        r@ == conf_content(opt_view(*network), gpus_view(*gpus)),
{
    let mut flags: Vec<String> = Vec::new();
    match network {
        Some(n) => {
            flags.push(concat("--network-zone=", n.as_str()));
        },
        None => {},
    }
    let ghost net_flags = strings_view(flags@);
    assert(net_flags =~= match opt_view(*network) {
        Some(n) => seq!["--network-zone="@ + n],
        None => Seq::<Seq<char>>::empty(),
    });
    match gpus {
        Some(g) => {
            let devices = device_names(g, &["ctl", "-modeset", "-uvm", "-uvm-tools"]);
            proof {
                reveal_strlit("ctl");
                reveal_strlit("-modeset");
                reveal_strlit("-uvm");
                reveal_strlit("-uvm-tools");
                assert(["ctl", "-modeset", "-uvm", "-uvm-tools"]@.map_values(|e: &str| e@) =~= seq![
                    "ctl"@,
                    "-modeset"@,
                    "-uvm"@,
                    "-uvm-tools"@,
                ]);
            }
            push_devices(&mut flags, &devices, "--bind-ro=/dev/nvidia", "");
            proof {
                reveal_strlit("");
                assert(strings_view(devices@).map_values(
                    |d: Seq<char>| "--bind-ro=/dev/nvidia"@ + d + ""@,
                ) =~= strings_view(devices@).map_values(|d: Seq<char>| "--bind-ro=/dev/nvidia"@ + d));
            }
        },
        None => {},
    }
    assert(strings_view(flags@) =~= nspawn_flags(opt_view(*network), gpus_view(*gpus)));
    let mut r = String::from_str("EXTRA_NSPAWN_FLAGS=\"");
    r.append(join_strings(&flags, " ").as_str());
    r.append("\"");
    r
}

/// The text of a container's service drop-in file, for GPUs to pass
/// through.
pub fn dropin_conf(gpus: &Option<Vec<u64>>) -> (r: String)
    ensures
        r@ == dropin_content(gpus_view(*gpus)),
{
    let mut lines: Vec<String> = Vec::new();
    lines.push(String::from_str("[Service]"));
    match gpus {
        Some(g) => {
            let devices = device_names(g, &["ctl", "-caps*", "-modeset", "-uvm", "-uvm-tools"]);
            proof {
                reveal_strlit("ctl");
                reveal_strlit("-caps*");
                reveal_strlit("-modeset");
                reveal_strlit("-uvm");
                reveal_strlit("-uvm-tools");
                assert(["ctl", "-caps*", "-modeset", "-uvm", "-uvm-tools"]@.map_values(
                    |e: &str| e@,
                ) =~= seq!["ctl"@, "-caps*"@, "-modeset"@, "-uvm"@, "-uvm-tools"@]);
            }
            push_devices(&mut lines, &devices, "DeviceAllow=/dev/nvidia", " rw");
        },
        None => {},
    }
    assert(strings_view(lines@) =~= seq!["[Service]"@] + device_allows(gpus_view(*gpus)));
    join_strings(&lines, "\n")
}

/// A step whose failure ends the job.
pub open spec fn required(op: OpView, context: Seq<char>) -> StepView {
    StepView { op, on_failure: OnFailure::Abort, context }
}

/// A command recorded as a step of request `rid`.
pub open spec fn recorded_run(
    words: Seq<Seq<char>>,
    envs: Seq<(Seq<char>, Seq<char>)>,
    rid: RequestId,
) -> OpView {
    OpView::Run { words, envs, recorded_under: Some(rid) }
}

/// The step that updates the named inputs of the flake in `dir`.
pub open spec fn update_inputs_step(
    l: Locations,
    dir: Seq<char>,
    inputs: Seq<Seq<char>>,
    rid: RequestId,
    context: Seq<char>,
) -> StepView {
    required(
        recorded_run(
            seq![l.nix@ + "nix"@, "flake"@, "update"@] + inputs + seq!["--flake"@, dir],
            seq![("NIX_REMOTE"@, "daemon"@)],
            rid,
        ),
        context,
    )
}

/// The step that has the init system reload its unit files.
pub open spec fn daemon_reload_step(l: Locations, rid: RequestId) -> StepView {
    required(
        recorded_run(seq![l.systemd@ + "systemctl"@, "daemon-reload"@], Seq::empty(), rid),
        "Error reloading systemd daemon"@,
    )
}

/// The steps that write a container's service settings and drop-in file.
pub open spec fn conf_steps(
    l: Locations,
    id: Seq<char>,
    network: Option<Seq<char>>,
    gpus: Option<Seq<u64>>,
    rid: RequestId,
) -> Seq<StepView> {
    seq![
        required(
            OpView::WriteFile { path: conf_file(l, id), content: conf_content(network, gpus) },
            "Error writing nixos container configuration file "@ + conf_file(l, id),
        ),
        required(
            OpView::CreateDir { path: dropin_dir(l, id) },
            "Error creating nixos container systemd configuration folder "@ + dropin_dir(l, id),
        ),
        required(
            OpView::WriteFile { path: dropin_file(l, id), content: dropin_content(gpus) },
            "Error writing nixos container systemd configuration file "@ + dropin_file(l, id),
        ),
        daemon_reload_step(l, rid),
    ]
}

/// The steps that prepare a container's state directory: the host platform
/// and the hostname are put in its settings, with the settings the container
/// keeps itself.
pub open spec fn state_dir_steps(l: Locations, id: Seq<char>) -> Seq<StepView> {
    let state = state_dir(l, id);
    let inner = joined(state, "xnode-config"@);
    let outer = joined(container_dir(l, id), "xnode-config"@);
    seq![
        required(
            OpView::CreateDir { path: state },
            "Error creating nixos container state directory "@ + state,
        ),
        required(
            OpView::CreateDir { path: inner },
            "Error creating container state xnode-config directory "@ + inner,
        ),
        required(
            OpView::CreateDir { path: outer },
            "Error creating container config xnode-config directory "@ + outer,
        ),
        required(
            OpView::Run { words: seq!["uname"@, "-m"@], envs: Seq::empty(), recorded_under: None },
            "Error getting host platform"@,
        ),
        required(
            OpView::WriteHostPlatform { path: joined(outer, "host-platform"@) },
            "Error writing host platform to "@ + joined(outer, "host-platform"@),
        ),
        required(
            OpView::WriteFile { path: joined(outer, "hostname"@), content: id },
            "Error writing hostname to "@ + joined(outer, "hostname"@),
        ),
        required(
            OpView::CopyDir { from: inner, to: outer },
            "Error copying "@ + inner + " to "@ + outer,
        ),
    ]
}

/// The steps that build a container's system into its profile.
pub open spec fn profile_steps(l: Locations, id: Seq<char>, rid: RequestId) -> Seq<StepView> {
    let profile = profile_dir(l, id);
    let flake = container_dir(l, id);
    seq![
        required(OpView::CreateDir { path: profile }, "Error creating nixos profile "@ + profile),
        required(
            recorded_run(
                seq![
                    l.nix@ + "nix"@,
                    "build"@,
                    "--profile"@,
                    joined(profile, "system"@),
                    flake + "#nixosConfigurations.container.config.system.build.toplevel"@,
                ],
                seq![
                    ("NIX_REMOTE"@, "daemon"@),
                    ("NIX_BUILD_CORES"@, decimal(l.buildcores as nat)),
                ],
                rid,
            ),
            "Error building configuration "@ + flake,
        ),
    ]
}

/// The step that has the init system reload or restart a container.
pub open spec fn restart_step(l: Locations, id: Seq<char>, rid: RequestId) -> StepView {
    required(
        recorded_run(
            seq![l.systemd@ + "systemctl"@, "reload-or-restart"@, unit_name(id)],
            Seq::empty(),
            rid,
        ),
        "Error creating nixos container "@ + id,
    )
}

/// The steps that create or update a container.
pub open spec fn set_steps(
    l: Locations,
    id: Seq<char>,
    flake: Seq<char>,
    network: Option<Seq<char>>,
    gpus: Option<Seq<u64>>,
    update_inputs: Option<Seq<Seq<char>>>,
    rid: RequestId,
) -> Seq<StepView> {
    let dir = container_dir(l, id);
    seq![
        required(OpView::CreateDir { path: dir }, "Error creating container folder "@ + dir),
        required(
            OpView::WriteFile { path: joined(dir, "flake.nix"@), content: flake },
            "Error writing container flake config "@ + joined(dir, "flake.nix"@),
        ),
    ] + (match update_inputs {
        Some(inputs) => seq![
            update_inputs_step(l, dir, inputs, rid, "Error flake updating nixos container "@ + id),
        ],
        None => Seq::empty(),
    }) + conf_steps(l, id, network, gpus, rid) + state_dir_steps(l, id) + profile_steps(l, id, rid)
        + seq![restart_step(l, id, rid)]
}

/// The steps that update the named inputs of a container's flake and bring
/// the container up to date.
pub open spec fn update_steps(l: Locations, id: Seq<char>, inputs: Seq<Seq<char>>, rid: RequestId) -> Seq<
    StepView,
> {
    seq![
        update_inputs_step(
            l,
            container_dir(l, id),
            inputs,
            rid,
            "Error flake updating nixos container "@ + id,
        ),
    ] + state_dir_steps(l, id) + profile_steps(l, id, rid) + seq![restart_step(l, id, rid)]
}

/// The steps that remove a container. Stopping it and clearing the
/// immutable attribute may fail without harm; what is to be deleted and is
/// already gone counts as deleted.
pub open spec fn remove_steps(l: Locations, id: Seq<char>, rid: RequestId) -> Seq<StepView> {
    let state = state_dir(l, id);
    let empty = joined(joined(state, "var"@), "empty"@);
    seq![
        StepView {
            op: recorded_run(seq![l.systemd@ + "systemctl"@, "stop"@, unit_name(id)], Seq::empty(), rid),
            on_failure: OnFailure::Ignore,
            context: "Error stopping nixos container "@ + id,
        },
        StepView {
            op: OpView::RemoveDir { path: profile_dir(l, id) },
            on_failure: OnFailure::AbsentOk,
            context: "Error deleting nixos profile "@ + profile_dir(l, id),
        },
        StepView {
            op: recorded_run(seq![l.e2fsprogs@ + "chattr"@, "-i"@, empty], Seq::empty(), rid),
            on_failure: OnFailure::Ignore,
            context: "Error clearing the immutable attribute of "@ + empty,
        },
        StepView {
            op: OpView::RemoveDir { path: state },
            on_failure: OnFailure::AbsentOkRetryNotEmpty,
            context: "Error deleting nixos container state directory "@ + state,
        },
        StepView {
            op: OpView::RemoveFile { path: conf_file(l, id) },
            on_failure: OnFailure::AbsentOk,
            context: "Error deleting nixos container configuration file "@ + conf_file(l, id),
        },
        StepView {
            op: OpView::RemoveFile { path: dropin_file(l, id) },
            on_failure: OnFailure::AbsentOk,
            context: "Error deleting nixos container systemd configuration file "@ + dropin_file(
                l,
                id,
            ),
        },
        daemon_reload_step(l, rid),
        StepView {
            op: OpView::RemoveDir { path: container_dir(l, id) },
            on_failure: OnFailure::AbsentOk,
            context: "Error deleting container folder config "@ + container_dir(l, id),
        },
    ]
}


/// Appends a step.
pub fn push_step(steps: &mut Vec<Step>, op: Operation, on_failure: OnFailure, context: String)
    ensures
        steps_view(final(steps)@) == steps_view(old(steps)@).push(
            StepView { op: op_view(op), on_failure, context: context@ },
        ),
{
    let ghost before = steps@;
    let ghost v = StepView { op: op_view(op), on_failure, context: context@ };
    steps.push(Step { op, on_failure, context });
    assert(steps_view(steps@) =~= steps_view(before).push(v));
}

/// Appends a step whose failure ends the job.
fn push_required(steps: &mut Vec<Step>, op: Operation, context: String)
    ensures
        steps_view(final(steps)@) == steps_view(old(steps)@).push(required(op_view(op), context@)),
{
    push_step(steps, op, OnFailure::Abort, context);
}

/// A command recorded as a step of request `rid`.
fn recorded(command: ExternalCommand, rid: RequestId) -> (r: Operation)
    ensures
        op_view(r) == recorded_run(command.words(), envs_view(command.envs@), rid),
{
    Operation::Run { command, mode: CommandExecutionMode::Stream { request_id: rid } }
}

/// The package tool's command to update the named inputs of the flake in
/// `dir`.
fn update_inputs_command(l: &Locations, dir: &str, inputs: &Vec<String>) -> (r: ExternalCommand)
    ensures
        r.words() == seq![l.nix@ + "nix"@, "flake"@, "update"@] + strings_view(inputs@) + seq![
            "--flake"@,
            dir@,
        ],
        envs_view(r.envs@) == seq![("NIX_REMOTE"@, "daemon"@)],
{
    let mut c = ExternalCommand::new(concat(l.nix.as_str(), "nix"));
    c.env(String::from_str("NIX_REMOTE"), String::from_str("daemon"));
    c.arg(String::from_str("flake"));
    c.arg(String::from_str("update"));
    let ghost start = strings_view(c.args@);
    let mut i: usize = 0;
    while i < inputs.len()
        invariant
            i <= inputs@.len(),
            c.program@ == l.nix@ + "nix"@,
            envs_view(c.envs@) == seq![("NIX_REMOTE"@, "daemon"@)],
            strings_view(c.args@) == start + strings_view(inputs@).take(i as int),
        decreases inputs.len() - i,
    {
        c.arg(inputs[i].clone());
        i = i + 1;
        assert(strings_view(c.args@) =~= start + strings_view(inputs@).take(i as int));
    }
    c.arg(String::from_str("--flake"));
    c.arg(dir.to_owned());
    assert(strings_view(inputs@).take(i as int) =~= strings_view(inputs@));
    assert(c.words() =~= seq![l.nix@ + "nix"@, "flake"@, "update"@] + strings_view(inputs@) + seq![
        "--flake"@,
        dir@,
    ]);
    assert(envs_view(c.envs@) =~= seq![("NIX_REMOTE"@, "daemon"@)]);
    c
}

/// A command of the init system's control tool on one target.
fn systemctl(l: &Locations, verb: &str, target: &str) -> (r: ExternalCommand)
    ensures
        r.words() == seq![l.systemd@ + "systemctl"@, verb@, target@],
        r.envs@.len() == 0,
{
    let mut c = ExternalCommand::new(concat(l.systemd.as_str(), "systemctl"));
    c.arg(verb.to_owned());
    c.arg(target.to_owned());
    assert(c.words() =~= seq![l.systemd@ + "systemctl"@, verb@, target@]);
    c
}

fn push_daemon_reload(steps: &mut Vec<Step>, l: &Locations, rid: RequestId)
    ensures
        steps_view(final(steps)@) == steps_view(old(steps)@).push(daemon_reload_step(*l, rid)),
{
    let mut c = ExternalCommand::new(concat(l.systemd.as_str(), "systemctl"));
    c.arg(String::from_str("daemon-reload"));
    assert(c.words() =~= seq![l.systemd@ + "systemctl"@, "daemon-reload"@]);
    assert(envs_view(c.envs@) =~= Seq::<(Seq<char>, Seq<char>)>::empty());
    push_required(steps, recorded(c, rid), String::from_str("Error reloading systemd daemon"));
}

fn unit_of(id: &str) -> (r: String)
    ensures
        r@ == unit_name(id@),
{
    concat("container@", id)
}

fn conf_file_of(l: &Locations, id: &str) -> (r: String)
    ensures
        r@ == conf_file(*l, id@),
{
    join(l.containerconfig.as_str(), concat(id, ".conf").as_str())
}

fn dropin_dir_of(l: &Locations, id: &str) -> (r: String)
    ensures
        r@ == dropin_dir(*l, id@),
{
    let mut name = unit_of(id);
    name.append(".service.d");
    join(l.systemdconfig.as_str(), name.as_str())
}

fn dropin_file_of(l: &Locations, id: &str) -> (r: String)
    ensures
        r@ == dropin_file(*l, id@),
{
    join(dropin_dir_of(l, id).as_str(), "99-XnodeManager.conf")
}

/// Appends the steps that write a container's service settings and
/// drop-in file and reload the init system.
pub fn create_conf_file(
    steps: &mut Vec<Step>,
    l: &Locations,
    id: &str,
    network: &Option<String>,
    gpus: &Option<Vec<u64>>,
    rid: RequestId,
)
    ensures
        steps_view(final(steps)@) == steps_view(old(steps)@) + conf_steps(
            *l,
            id@,
            opt_view(*network),
            gpus_view(*gpus),
            rid,
        ),
{
    let ghost start = steps_view(steps@);
    let conf = conf_file_of(l, id);
    push_required(
        steps,
        Operation::WriteFile { path: conf.clone(), content: nspawn_conf(network, gpus) },
        concat("Error writing nixos container configuration file ", conf.as_str()),
    );
    let dir = dropin_dir_of(l, id);
    push_required(
        steps,
        Operation::CreateDir { path: dir.clone() },
        concat("Error creating nixos container systemd configuration folder ", dir.as_str()),
    );
    let file = dropin_file_of(l, id);
    push_required(
        steps,
        Operation::WriteFile { path: file.clone(), content: dropin_conf(gpus) },
        concat("Error writing nixos container systemd configuration file ", file.as_str()),
    );
    push_daemon_reload(steps, l, rid);
    assert(steps_view(steps@) =~= start + conf_steps(
        *l,
        id@,
        opt_view(*network),
        gpus_view(*gpus),
        rid,
    ));
}

/// Appends the steps that prepare a container's state directory.
pub fn create_state_dir(steps: &mut Vec<Step>, l: &Locations, id: &str)
    ensures
        steps_view(final(steps)@) == steps_view(old(steps)@) + state_dir_steps(*l, id@),
{
    let ghost start = steps_view(steps@);
    let state = join(l.containerstate.as_str(), id);
    let inner = join(state.as_str(), "xnode-config");
    let outer = join(join(l.containersettings.as_str(), id).as_str(), "xnode-config");
    push_required(
        steps,
        Operation::CreateDir { path: state.clone() },
        concat("Error creating nixos container state directory ", state.as_str()),
    );
    push_required(
        steps,
        Operation::CreateDir { path: inner.clone() },
        concat("Error creating container state xnode-config directory ", inner.as_str()),
    );
    push_required(
        steps,
        Operation::CreateDir { path: outer.clone() },
        concat("Error creating container config xnode-config directory ", outer.as_str()),
    );
    let mut uname = ExternalCommand::new(String::from_str("uname"));
    uname.arg(String::from_str("-m"));
    assert(uname.words() =~= seq!["uname"@, "-m"@]);
    assert(envs_view(uname.envs@) =~= Seq::<(Seq<char>, Seq<char>)>::empty());
    push_required(
        steps,
        Operation::Run { command: uname, mode: CommandExecutionMode::Simple },
        String::from_str("Error getting host platform"),
    );
    let platform = join(outer.as_str(), "host-platform");
    push_required(
        steps,
        Operation::WriteHostPlatform { path: platform.clone() },
        concat("Error writing host platform to ", platform.as_str()),
    );
    let hostname = join(outer.as_str(), "hostname");
    push_required(
        steps,
        Operation::WriteFile { path: hostname.clone(), content: id.to_owned() },
        concat("Error writing hostname to ", hostname.as_str()),
    );
    let mut context = concat("Error copying ", inner.as_str());
    context.append(" to ");
    context.append(outer.as_str());
    push_required(steps, Operation::CopyDir { from: inner, to: outer }, context);
    assert(steps_view(steps@) =~= start + state_dir_steps(*l, id@));
}

/// Appends the steps that build a container's system into its profile.
pub fn create_profile(steps: &mut Vec<Step>, l: &Locations, id: &str, rid: RequestId)
    ensures
        steps_view(final(steps)@) == steps_view(old(steps)@) + profile_steps(*l, id@, rid),
{
    let ghost start = steps_view(steps@);
    let profile = join(l.containerprofile.as_str(), id);
    let flake = join(l.containersettings.as_str(), id);
    push_required(
        steps,
        Operation::CreateDir { path: profile.clone() },
        concat("Error creating nixos profile ", profile.as_str()),
    );
    let mut c = ExternalCommand::new(concat(l.nix.as_str(), "nix"));
    c.env(String::from_str("NIX_REMOTE"), String::from_str("daemon"));
    c.env(String::from_str("NIX_BUILD_CORES"), decimal_string(l.buildcores));
    c.arg(String::from_str("build"));
    c.arg(String::from_str("--profile"));
    c.arg(join(profile.as_str(), "system"));
    c.arg(concat(flake.as_str(), "#nixosConfigurations.container.config.system.build.toplevel"));
    assert(c.words() =~= seq![
        l.nix@ + "nix"@,
        "build"@,
        "--profile"@,
        joined(profile@, "system"@),
        flake@ + "#nixosConfigurations.container.config.system.build.toplevel"@,
    ]);
    assert(envs_view(c.envs@) =~= seq![
        ("NIX_REMOTE"@, "daemon"@),
        ("NIX_BUILD_CORES"@, decimal(l.buildcores as nat)),
    ]);
    push_required(steps, recorded(c, rid), concat("Error building configuration ", flake.as_str()));
    assert(steps_view(steps@) =~= start + profile_steps(*l, id@, rid));
}

fn push_restart(steps: &mut Vec<Step>, l: &Locations, id: &str, rid: RequestId)
    ensures
        steps_view(final(steps)@) == steps_view(old(steps)@).push(restart_step(*l, id@, rid)),
{
    let c = systemctl(l, "reload-or-restart", unit_of(id).as_str());
    assert(envs_view(c.envs@) =~= Seq::<(Seq<char>, Seq<char>)>::empty());
    push_required(steps, recorded(c, rid), concat("Error creating nixos container ", id));
}

/// The text of optional flake inputs.
pub open spec fn inputs_view(o: Option<Vec<String>>) -> Option<Seq<Seq<char>>> {
    match o {
        Some(v) => Some(strings_view(v@)),
        None => None,
    }
}

/// Appends the steps that create or update a container.
pub fn set(
    steps: &mut Vec<Step>,
    l: &Locations,
    id: &str,
    settings: &ContainerSettings,
    update_inputs: &Option<Vec<String>>,
    rid: RequestId,
)
    ensures
        steps_view(final(steps)@) == steps_view(old(steps)@) + set_steps(
            *l,
            id@,
            settings.flake@,
            opt_view(settings.network),
            gpus_view(settings.nvidia_gpus),
            inputs_view(*update_inputs),
            rid,
        ),
{
    let ghost start = steps_view(steps@);
    let dir = join(l.containersettings.as_str(), id);
    push_required(
        steps,
        Operation::CreateDir { path: dir.clone() },
        concat("Error creating container folder ", dir.as_str()),
    );
    let flake = join(dir.as_str(), "flake.nix");
    push_required(
        steps,
        Operation::WriteFile { path: flake.clone(), content: settings.flake.clone() },
        concat("Error writing container flake config ", flake.as_str()),
    );
    let ghost head = steps_view(steps@);
    match update_inputs {
        Some(inputs) => {
            let c = update_inputs_command(l, dir.as_str(), inputs);
            push_required(
                steps,
                recorded(c, rid),
                concat("Error flake updating nixos container ", id),
            );
        },
        None => {},
    }
    let ghost updated = steps_view(steps@);
    create_conf_file(steps, l, id, &settings.network, &settings.nvidia_gpus, rid);
    create_state_dir(steps, l, id);
    create_profile(steps, l, id, rid);
    push_restart(steps, l, id, rid);
    assert(updated =~= head + match inputs_view(*update_inputs) {
        Some(inputs) => seq![
            update_inputs_step(
                *l,
                container_dir(*l, id@),
                inputs,
                rid,
                "Error flake updating nixos container "@ + id@,
            ),
        ],
        None => Seq::<StepView>::empty(),
    });
    assert(steps_view(steps@) =~= start + set_steps(
        *l,
        id@,
        settings.flake@,
        opt_view(settings.network),
        gpus_view(settings.nvidia_gpus),
        inputs_view(*update_inputs),
        rid,
    ));
}

/// Appends the steps that update the named inputs of a container's flake
/// and bring the container up to date.
pub fn update(steps: &mut Vec<Step>, l: &Locations, id: &str, inputs: &Vec<String>, rid: RequestId)
    ensures
        steps_view(final(steps)@) == steps_view(old(steps)@) + update_steps(
            *l,
            id@,
            strings_view(inputs@),
            rid,
        ),
{
    let ghost start = steps_view(steps@);
    let dir = join(l.containersettings.as_str(), id);
    let c = update_inputs_command(l, dir.as_str(), inputs);
    push_required(steps, recorded(c, rid), concat("Error flake updating nixos container ", id));
    create_state_dir(steps, l, id);
    create_profile(steps, l, id, rid);
    push_restart(steps, l, id, rid);
    assert(steps_view(steps@) =~= start + update_steps(*l, id@, strings_view(inputs@), rid));
}

/// Appends the step that deletes a container's profile.
pub fn remove_profile(steps: &mut Vec<Step>, l: &Locations, id: &str)
    ensures
        steps_view(final(steps)@) == steps_view(old(steps)@).push(remove_steps(*l, id@, 0)[1]),
{
    let profile = join(l.containerprofile.as_str(), id);
    push_step(
        steps,
        Operation::RemoveDir { path: profile.clone() },
        OnFailure::AbsentOk,
        concat("Error deleting nixos profile ", profile.as_str()),
    );
}

/// Appends the steps that clear the immutable attribute of the container's
/// reserved empty directory and delete its state directory.
pub fn remove_state_dir(steps: &mut Vec<Step>, l: &Locations, id: &str, rid: RequestId)
    ensures
        steps_view(final(steps)@) == steps_view(old(steps)@) + remove_steps(*l, id@, rid).subrange(
            2,
            4,
        ),
{
    let ghost start = steps_view(steps@);
    let state = join(l.containerstate.as_str(), id);
    let empty = join(join(state.as_str(), "var").as_str(), "empty");
    let mut c = ExternalCommand::new(concat(l.e2fsprogs.as_str(), "chattr"));
    c.arg(String::from_str("-i"));
    c.arg(empty.clone());
    assert(c.words() =~= seq![l.e2fsprogs@ + "chattr"@, "-i"@, empty@]);
    assert(envs_view(c.envs@) =~= Seq::<(Seq<char>, Seq<char>)>::empty());
    push_step(
        steps,
        recorded(c, rid),
        OnFailure::Ignore,
        concat("Error clearing the immutable attribute of ", empty.as_str()),
    );
    push_step(
        steps,
        Operation::RemoveDir { path: state.clone() },
        OnFailure::AbsentOkRetryNotEmpty,
        concat("Error deleting nixos container state directory ", state.as_str()),
    );
    assert(steps_view(steps@) =~= start + remove_steps(*l, id@, rid).subrange(2, 4));
}

/// Appends the steps that delete a container's service settings and
/// drop-in file and reload the init system.
pub fn remove_conf_file(steps: &mut Vec<Step>, l: &Locations, id: &str, rid: RequestId)
    ensures
        steps_view(final(steps)@) == steps_view(old(steps)@) + remove_steps(*l, id@, rid).subrange(
            4,
            7,
        ),
{
    let ghost start = steps_view(steps@);
    let conf = conf_file_of(l, id);
    push_step(
        steps,
        Operation::RemoveFile { path: conf.clone() },
        OnFailure::AbsentOk,
        concat("Error deleting nixos container configuration file ", conf.as_str()),
    );
    let file = dropin_file_of(l, id);
    push_step(
        steps,
        Operation::RemoveFile { path: file.clone() },
        OnFailure::AbsentOk,
        concat("Error deleting nixos container systemd configuration file ", file.as_str()),
    );
    push_daemon_reload(steps, l, rid);
    assert(steps_view(steps@) =~= start + remove_steps(*l, id@, rid).subrange(4, 7));
}

/// Appends the steps that remove a container.
pub fn remove(steps: &mut Vec<Step>, l: &Locations, id: &str, rid: RequestId)
    ensures
        steps_view(final(steps)@) == steps_view(old(steps)@) + remove_steps(*l, id@, rid),
{
    let ghost start = steps_view(steps@);
    let c = systemctl(l, "stop", unit_of(id).as_str());
    assert(envs_view(c.envs@) =~= Seq::<(Seq<char>, Seq<char>)>::empty());
    push_step(
        steps,
        recorded(c, rid),
        OnFailure::Ignore,
        concat("Error stopping nixos container ", id),
    );
    remove_profile(steps, l, id);
    remove_state_dir(steps, l, id, rid);
    remove_conf_file(steps, l, id, rid);
    let dir = join(l.containersettings.as_str(), id);
    push_step(
        steps,
        Operation::RemoveDir { path: dir.clone() },
        OnFailure::AbsentOk,
        concat("Error deleting container folder config ", dir.as_str()),
    );
    assert(steps_view(steps@) =~= start + remove_steps(*l, id@, rid));
}


/// The container an action is about.
pub open spec fn action_container(a: ConfigurationAction) -> Seq<char> {
    match a {
        ConfigurationAction::SetContainer { container, .. } => container@,
        ConfigurationAction::RemoveContainer { container, .. } => container@,
        ConfigurationAction::UpdateContainer { container, .. } => container@,
    }
}

/// The steps that carry out one action.
pub open spec fn action_steps(l: Locations, a: ConfigurationAction, rid: RequestId) -> Seq<StepView> {
    match a {
        ConfigurationAction::SetContainer { container, settings, update_inputs } => set_steps(
            l,
            container@,
            settings.flake@,
            opt_view(settings.network),
            gpus_view(settings.nvidia_gpus),
            inputs_view(update_inputs),
            rid,
        ),
        ConfigurationAction::RemoveContainer { container, .. } => remove_steps(l, container@, rid),
        ConfigurationAction::UpdateContainer { container, inputs } => update_steps(
            l,
            container@,
            strings_view(inputs@),
            rid,
        ),
    }
}

/// The steps that carry out the actions, one action after the other.
pub open spec fn batch_steps(l: Locations, actions: Seq<ConfigurationAction>, rid: RequestId) -> Seq<
    StepView,
>
    decreases actions.len(),
{
    if actions.len() == 0 {
        Seq::empty()
    } else {
        batch_steps(l, actions.drop_last(), rid) + action_steps(l, actions.last(), rid)
    }
}

/// The plan of a job that carries out the actions in order; the first
/// action that fails ends it. Jobs are not serialized per container: two
/// jobs on the same container that run at once may interleave their steps.
pub fn change(actions: &Vec<ConfigurationAction>, l: &Locations, rid: RequestId) -> (r: Plan)
    ensures
        steps_view(r.steps@) == batch_steps(*l, actions@, rid),
        !r.body_from_output,
{
    let mut steps: Vec<Step> = Vec::new();
    let mut i: usize = 0;
    assert(steps_view(steps@) =~= Seq::<StepView>::empty());
    while i < actions.len()
        invariant
            i <= actions@.len(),
            steps_view(steps@) == batch_steps(*l, actions@.take(i as int), rid),
        decreases actions.len() - i,
    {
        assert(actions@.take(i + 1).drop_last() =~= actions@.take(i as int));
        match &actions[i] {
            ConfigurationAction::SetContainer { container, settings, update_inputs } => {
                set(&mut steps, l, container.as_str(), settings, update_inputs, rid);
            },
            ConfigurationAction::RemoveContainer { container, .. } => {
                remove(&mut steps, l, container.as_str(), rid);
            },
            ConfigurationAction::UpdateContainer { container, inputs } => {
                update(&mut steps, l, container.as_str(), inputs, rid);
            },
        }
        i = i + 1;
    }
    assert(actions@.take(i as int) =~= actions@);
    Plan { steps, body_from_output: false }
}

/// Whether `id` can name a container: a single, non-empty path component.
pub open spec fn valid_container_id(id: Seq<char>) -> bool {
    &&& id.len() > 0
    &&& !id.contains('/')
    &&& id != seq!['.']
    &&& id != seq!['.', '.']
}

/// Whether `id` can name a container.
pub fn is_valid_container_id(id: &str) -> (r: bool)
    ensures
        r == valid_container_id(id@),
{
    let c = chars_of(id);
    if c.len() == 0 {
        return false;
    }
    let mut i: usize = 0;
    while i < c.len()
        invariant
            i <= c@.len(),
            c@ == id@,
            forall|j: int| 0 <= j < i ==> c@[j] != '/',
        decreases c.len() - i,
    {
        if c[i] == '/' {
            assert(c@.contains('/'));
            return false;
        }
        i = i + 1;
    }
    if c.len() == 1 && c[0] == '.' {
        assert(c@ =~= seq!['.']);
        return false;
    }
    if c.len() == 2 && c[0] == '.' && c[1] == '.' {
        assert(c@ =~= seq!['.', '.']);
        return false;
    }
    proof {
        if c@ == seq!['.'] {
            assert(c@[0] == '.');
        }
        if c@ == seq!['.', '.'] {
            assert(c@[1] == '.');
        }
    }
    true
}

/// Checks the actions before any work starts: each must name a container
/// by a valid id. The error names the first that does not.
pub fn validate(actions: &Vec<ConfigurationAction>) -> (r: Result<(), ResponseError>)
    ensures
        r is Ok <==> forall|k: int|
            0 <= k < actions@.len() ==> valid_container_id(action_container(#[trigger] actions@[k])),
        r matches Err(e) ==> exists|k: int|
            0 <= k < actions@.len() && !valid_container_id(action_container(#[trigger] actions@[k]))
                && e.error@ == "Invalid container id: "@ + action_container(actions@[k]),
{
    let mut i: usize = 0;
    while i < actions.len()
        invariant
            i <= actions@.len(),
            forall|k: int|
                0 <= k < i ==> valid_container_id(action_container(#[trigger] actions@[k])),
        decreases actions.len() - i,
    {
        let id = match &actions[i] {
            ConfigurationAction::SetContainer { container, .. } => container,
            ConfigurationAction::RemoveContainer { container, .. } => container,
            ConfigurationAction::UpdateContainer { container, .. } => container,
        };
        if !is_valid_container_id(id.as_str()) {
            return Err(ResponseError::new(concat("Invalid container id: ", id.as_str())));
        }
        i = i + 1;
    }
    Ok(())
}


/// The network zone and GPUs read back from container flags, as far as
/// the flags read so far tell.
pub struct ConfRead {
    pub network: Option<Seq<char>>,
    pub gpus: Option<Seq<u64>>,
}

/// The device names that are not GPUs of their own.
pub open spec fn shared_device(d: Seq<char>) -> bool {
    d == "ctl"@ || d == "-modeset"@ || d == "-uvm"@ || d == "-uvm-tools"@
}

/// What one flag adds: a network zone, or a GPU bound into the container.
pub open spec fn read_flag(r: ConfRead, flag: Seq<char>) -> ConfRead {
    if has_prefix(flag, "--network-zone="@) {
        ConfRead { network: Some(replaced(flag, "--network-zone="@, Seq::empty())), ..r }
    } else if has_prefix(flag, "--bind-ro="@) {
        let path = replaced(flag, "--bind-ro="@, Seq::empty());
        let device = replaced(path, "/dev/nvidia"@, Seq::empty());
        if has_prefix(path, "/dev/nvidia"@) && !shared_device(device) {
            match parse_unsigned(device, u64::MAX as nat) {
                Some(n) => ConfRead {
                    gpus: Some(
                        match r.gpus {
                            Some(g) => g,
                            None => Seq::empty(),
                        }.push(n as u64),
                    ),
                    ..r
                },
                None => r,
            }
        } else {
            r
        }
    } else {
        r
    }
}

/// What the flags tell, read in order from `start`.
pub open spec fn read_flags(start: ConfRead, flags: Seq<Seq<char>>) -> ConfRead
    decreases flags.len(),
{
    if flags.len() == 0 {
        start
    } else {
        read_flag(read_flags(start, flags.drop_last()), flags.last())
    }
}

/// The network zone and GPUs that a container's service settings file
/// gives: from the flags between its first two double quotes. GPUs are
/// known to be passed through where the flags mention the GPU driver.
pub open spec fn read_conf(conf: Seq<char>) -> ConfRead {
    match between_spec(conf, "\""@, "\""@) {
        Some(flags) => read_flags(
            ConfRead {
                network: None,
                gpus: if find_spec(flags, "nvidia"@) is Some {
                    Some(Seq::empty())
                } else {
                    None
                },
            },
            split_spec(flags, ' '),
        ),
        None => ConfRead { network: None, gpus: None },
    }
}

fn is_shared_device(d: &Vec<char>) -> (r: bool)
    ensures
        r == shared_device(d@),
{
    chars_eq(d, &chars_of("ctl")) || chars_eq(d, &chars_of("-modeset")) || chars_eq(
        d,
        &chars_of("-uvm"),
    ) || chars_eq(d, &chars_of("-uvm-tools"))
}

/// The network zone and GPUs that a container's service settings file
/// gives.
pub fn parse_conf(conf: &str) -> (r: (Option<String>, Option<Vec<u64>>))
    ensures
        opt_view(r.0) == read_conf(conf@).network,
        gpus_view(r.1) == read_conf(conf@).gpus,
{
    let flags = match between(conf, "\"", "\"") {
        Some(f) => f,
        None => {
            return (None, None);
        },
    };
    let text = chars_of(flags.as_str());
    let mut network: Option<String> = None;
    let mut gpus: Option<Vec<u64>> = match find_chars(&text, &chars_of("nvidia"), 0) {
        Some(_) => Some(Vec::new()),
        None => None,
    };
    let parts = split_chars(&text, ' ');
    let ghost pieces = split_spec(text@, ' ');
    let ghost start = ConfRead { network: opt_view(network), gpus: gpus_view(gpus) };
    assert(gpus matches Some(g) ==> g@ =~= Seq::<u64>::empty());
    let zone = chars_of("--network-zone=");
    let bind = chars_of("--bind-ro=");
    let nvidia = chars_of("/dev/nvidia");
    let nothing: Vec<char> = Vec::new();
    proof {
        reveal_strlit("--network-zone=");
        reveal_strlit("--bind-ro=");
        reveal_strlit("/dev/nvidia");
    }
    let mut i: usize = 0;
    while i < parts.len()
        invariant
            zone@.len() > 0,
            bind@.len() > 0,
            nvidia@.len() > 0,
            i <= parts@.len(),
            parts@.len() == pieces.len(),
            forall|k: int| 0 <= k < parts@.len() ==> #[trigger] parts@[k]@ == pieces[k],
            zone@ == "--network-zone="@,
            bind@ == "--bind-ro="@,
            nvidia@ == "/dev/nvidia"@,
            nothing@ == Seq::<char>::empty(),
            (ConfRead { network: opt_view(network), gpus: gpus_view(gpus) }) == read_flags(
                start,
                pieces.take(i as int),
            ),
        decreases parts.len() - i,
    {
        assert(pieces.take(i + 1).drop_last() =~= pieces.take(i as int));
        assert(pieces.take(i + 1).last() == parts@[i as int]@);
        let flag = &parts[i];
        if starts_with(flag, &zone) {
            network = Some(string_of(&replace_all(flag, &zone, &nothing)));
        } else if starts_with(flag, &bind) {
            let path = replace_all(flag, &bind, &nothing);
            let device = replace_all(&path, &nvidia, &nothing);
            if starts_with(&path, &nvidia) && !is_shared_device(&device) {
                match parse_unsigned_chars(&device, u64::MAX) {
                    Some(n) => {
                        let mut g = match gpus {
                            Some(g) => g,
                            None => Vec::new(),
                        };
                        g.push(n);
                        gpus = Some(g);
                    },
                    None => {},
                }
            }
        }
        i = i + 1;
    }
    assert(pieces.take(i as int) =~= pieces);
    (network, gpus)
}

/// "Could not read `what` `path`: `e`".
fn could_not_read(what: &str, path: &str, e: &IoFailure) -> (r: ResponseError)
    ensures
        r.error@ == "Could not read "@ + what@ + " "@ + path@ + ": "@ + e.message@,
{
    let mut m = concat("Could not read ", what);
    m.append(" ");
    m.append(path);
    m.append(": ");
    m.append(e.message.as_str());
    ResponseError::new(m)
}

/// A container's configuration from what was read of its files: its flake,
/// its lock file if there is one, and its service settings file, which
/// gives the network zone and the GPUs. Fails, naming the file, where the
/// flake or the service settings cannot be read.
pub fn get(
    l: &Locations,
    id: &str,
    flake: Result<String, IoFailure>,
    flake_lock: Option<String>,
    conf: Result<String, IoFailure>,
) -> (r: Result<ContainerConfiguration, ResponseError>)
    ensures
        r is Ok <==> flake is Ok && conf is Ok,
        r matches Ok(c) ==> c.flake == flake->Ok_0 && c.flake_lock == flake_lock && opt_view(
            c.network,
        ) == read_conf(conf->Ok_0@).network && gpus_view(c.nvidia_gpus) == read_conf(
            conf->Ok_0@,
        ).gpus,
        flake matches Err(e) ==> r matches Err(f) && f.error@ == "Could not read "@
            + "container flake config"@ + " "@ + joined(container_dir(*l, id@), "flake.nix"@)
            + ": "@ + e.message@,
        flake is Ok ==> (conf matches Err(e) ==> r matches Err(f) && f.error@ == "Could not read "@
            + "container config"@ + " "@ + conf_file(*l, id@) + ": "@ + e.message@),
{
    let flake = match flake {
        Ok(f) => f,
        Err(e) => {
            let dir = join(l.containersettings.as_str(), id);
            return Err(
                could_not_read(
                    "container flake config",
                    join(dir.as_str(), "flake.nix").as_str(),
                    &e,
                ),
            );
        },
    };
    let conf = match conf {
        Ok(c) => c,
        Err(e) => {
            return Err(could_not_read("container config", conf_file_of(l, id).as_str(), &e));
        },
    };
    let (network, nvidia_gpus) = parse_conf(conf.as_str());
    Ok(ContainerConfiguration { flake, flake_lock, network, nvidia_gpus })
}

} // verus!
