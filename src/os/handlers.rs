use vstd::prelude::*;
use vstd::string::StringExecFns;

use crate::config::handlers::{
    concat, inputs_view, opt_view, push_step, recorded_run, required, update_inputs_step,
};
use crate::os::models::{OSChange, OSConfiguration};
use crate::request::job::{
    envs_view, steps_view, OnFailure, OpView, Operation, Plan, Step, StepView,
};
use crate::request::models::RequestId;
use crate::utils::command::{strings_view, CommandExecutionMode, ExternalCommand, IoFailure};
use crate::utils::env::Locations;
use crate::utils::error::ResponseError;
use crate::utils::path::{join, joined};

verus! {

/// The step that writes a setting of the host to the file `name`, where
/// the setting is given.
pub open spec fn setting_steps(dir: Seq<char>, name: Seq<char>, content: Option<Seq<char>>) -> Seq<
    StepView,
> {
    match content {
        Some(c) => seq![
            required(
                OpView::WriteFile { path: joined(dir, name), content: c },
                "Error writing "@ + c + " to "@ + joined(dir, name),
            ),
        ],
        None => Seq::empty(),
    }
}

/// The steps that change the host's configuration and switch to it.
pub open spec fn os_set_steps(l: Locations, change: OSChange, rid: RequestId) -> Seq<StepView> {
    let dir = l.osdir@;
    (match opt_view(change.flake) {
        Some(f) => seq![
            required(
                OpView::WriteFile { path: joined(dir, "flake.nix"@), content: f },
                "Error writing OS flake to "@ + joined(dir, "flake.nix"@),
            ),
        ],
        None => Seq::empty(),
    }) + setting_steps(dir, "flake.nix"@, opt_view(change.flake)) + setting_steps(
        dir,
        "xnode-owner"@,
        opt_view(change.xnode_owner),
    ) + setting_steps(dir, "domain"@, opt_view(change.domain)) + setting_steps(
        dir,
        "acme-email"@,
        opt_view(change.acme_email),
    ) + setting_steps(dir, "user-passwd"@, opt_view(change.user_passwd)) + (match inputs_view(
        change.update_inputs,
    ) {
        Some(inputs) => seq![update_inputs_step(l, dir, inputs, rid, "Error updating OS flake"@)],
        None => Seq::empty(),
    }) + seq![
        required(
            recorded_run(
                seq![l.nixosrebuild@ + "nixos-rebuild"@, "switch"@, "--flake"@, dir],
                seq![("NIX_REMOTE"@, "daemon"@)],
                rid,
            ),
            "Error switching to new OS config"@,
        ),
    ]
}

fn push_setting(steps: &mut Vec<Step>, dir: &str, name: &str, content: &Option<String>)
    ensures
        steps_view(final(steps)@) == steps_view(old(steps)@) + setting_steps(
            dir@,
            name@,
            opt_view(*content),
        ),
{
    let ghost start = steps_view(steps@);
    match content {
        Some(c) => {
            let path = join(dir, name);
            let mut context = concat("Error writing ", c.as_str());
            context.append(" to ");
            context.append(path.as_str());
            push_step(
                steps,
                Operation::WriteFile { path, content: c.clone() },
                OnFailure::Abort,
                context,
            );
        },
        None => {},
    }
    assert(steps_view(steps@) =~= start + setting_steps(dir@, name@, opt_view(*content)));
}

/// The plan of a job that changes the host's configuration and switches to
/// it.
pub fn set(change: &OSChange, l: &Locations, rid: RequestId) -> (r: Plan)
    ensures
        steps_view(r.steps@) == os_set_steps(*l, *change, rid),
        !r.body_from_output,
{
    let dir = l.osdir.as_str();
    let mut steps: Vec<Step> = Vec::new();
    assert(steps_view(steps@) =~= Seq::<StepView>::empty());
    match &change.flake {
        Some(f) => {
            let path = join(dir, "flake.nix");
            push_step(
                &mut steps,
                Operation::WriteFile { path: path.clone(), content: f.clone() },
                OnFailure::Abort,
                concat("Error writing OS flake to ", path.as_str()),
            );
        },
        None => {},
    }
    let ghost first = steps_view(steps@);
    push_setting(&mut steps, dir, "flake.nix", &change.flake);
    push_setting(&mut steps, dir, "xnode-owner", &change.xnode_owner);
    push_setting(&mut steps, dir, "domain", &change.domain);
    push_setting(&mut steps, dir, "acme-email", &change.acme_email);
    push_setting(&mut steps, dir, "user-passwd", &change.user_passwd);
    let ghost written = steps_view(steps@);
    match &change.update_inputs {
        Some(inputs) => {
            let mut c = ExternalCommand::new(concat(l.nix.as_str(), "nix"));
            c.env(String::from_str("NIX_REMOTE"), String::from_str("daemon"));
            c.arg(String::from_str("flake"));
            c.arg(String::from_str("update"));
            let ghost start = strings_view(c.args@);
            let mut i: usize = 0;
            while i < inputs.len()
                invariant
                    i <= inputs@.len(),
                    c.program@ == l.nix@ + "nix"@,
                    envs_view(c.envs@) == seq![("NIX_REMOTE"@, "daemon"@)],
                    strings_view(c.args@) == start + strings_view(inputs@).take(i as int),
                decreases inputs.len() - i,
            {
                c.arg(inputs[i].clone());
                i = i + 1;
                assert(strings_view(c.args@) =~= start + strings_view(inputs@).take(i as int));
            }
            c.arg(String::from_str("--flake"));
            c.arg(dir.to_owned());
            assert(strings_view(inputs@).take(i as int) =~= strings_view(inputs@));
            assert(c.words() =~= seq![l.nix@ + "nix"@, "flake"@, "update"@] + strings_view(inputs@)
                + seq!["--flake"@, dir@]);
            push_step(
                &mut steps,
                Operation::Run { command: c, mode: CommandExecutionMode::Stream { request_id: rid } },
                OnFailure::Abort,
                String::from_str("Error updating OS flake"),
            );
        },
        None => {},
    }
    let ghost updated = steps_view(steps@);
    let mut c = ExternalCommand::new(concat(l.nixosrebuild.as_str(), "nixos-rebuild"));
    c.env(String::from_str("NIX_REMOTE"), String::from_str("daemon"));
    c.arg(String::from_str("switch"));
    c.arg(String::from_str("--flake"));
    c.arg(dir.to_owned());
    assert(c.words() =~= seq![l.nixosrebuild@ + "nixos-rebuild"@, "switch"@, "--flake"@, dir@]);
    assert(envs_view(c.envs@) =~= seq![("NIX_REMOTE"@, "daemon"@)]);
    push_step(
        &mut steps,
        Operation::Run { command: c, mode: CommandExecutionMode::Stream { request_id: rid } },
        OnFailure::Abort,
        String::from_str("Error switching to new OS config"),
    );
    assert(steps_view(steps@) =~= os_set_steps(*l, *change, rid));
    Plan { steps, body_from_output: false }
}

/// The steps of a job that reboots the host.
pub open spec fn reboot_steps(l: Locations, rid: RequestId) -> Seq<StepView> {
    seq![
        required(
            recorded_run(seq![l.systemd@ + "systemctl"@, "reboot"@], Seq::empty(), rid),
            "Error rebooting OS"@,
        ),
    ]
}

/// The plan of a job that reboots the host.
pub fn reboot(l: &Locations, rid: RequestId) -> (r: Plan)
    ensures
        steps_view(r.steps@) == reboot_steps(*l, rid),
        !r.body_from_output,
{
    let mut c = ExternalCommand::new(concat(l.systemd.as_str(), "systemctl"));
    c.arg(String::from_str("reboot"));
    assert(c.words() =~= seq![l.systemd@ + "systemctl"@, "reboot"@]);
    assert(envs_view(c.envs@) =~= Seq::<(Seq<char>, Seq<char>)>::empty());
    let mut steps: Vec<Step> = Vec::new();
    assert(steps_view(steps@) =~= Seq::<StepView>::empty());
    push_step(
        &mut steps,
        Operation::Run { command: c, mode: CommandExecutionMode::Stream { request_id: rid } },
        OnFailure::Abort,
        String::from_str("Error rebooting OS"),
    );
    assert(steps_view(steps@) =~= reboot_steps(*l, rid));
    Plan { steps, body_from_output: false }
}

/// "Error reading OS flake `what` from `path`: `e`".
fn read_error(what: &str, path: &str, e: &IoFailure) -> (r: ResponseError)
    ensures
        r.error@ == "Error reading OS flake "@ + what@ + " from "@ + path@ + ": "@ + e.message@,
{
    let mut m = concat("Error reading OS flake ", what);
    m.append(" from ");
    m.append(path);
    m.append(": ");
    m.append(e.message.as_str());
    ResponseError::new(m)
}

/// The host's configuration from what was read of its files. Fails, naming
/// the file, where the flake or its lock file cannot be read.
pub fn get(
    l: &Locations,
    flake: Result<String, IoFailure>,
    flake_lock: Result<String, IoFailure>,
    xnode_owner: Option<String>,
    domain: Option<String>,
    acme_email: Option<String>,
    user_passwd: Option<String>,
) -> (r: Result<OSConfiguration, ResponseError>)
    ensures
        r is Ok <==> flake is Ok && flake_lock is Ok,
        r matches Ok(c) ==> c.flake == flake->Ok_0 && c.flake_lock == flake_lock->Ok_0
            && c.xnode_owner == xnode_owner && c.domain == domain && c.acme_email == acme_email
            && c.user_passwd == user_passwd,
        flake matches Err(e) ==> (r matches Err(f) && f.error@ == "Error reading OS flake "@
            + "config"@ + " from "@ + joined(l.osdir@, "flake.nix"@) + ": "@ + e.message@),
        flake is Ok ==> (flake_lock matches Err(e) ==> r matches Err(f) && f.error@
            == "Error reading OS flake "@ + "lock"@ + " from "@ + joined(l.osdir@, "flake.lock"@)
            + ": "@ + e.message@),
{
    let flake = match flake {
        Ok(f) => f,
        Err(e) => {
            return Err(read_error("config", join(l.osdir.as_str(), "flake.nix").as_str(), &e));
        },
    };
    let flake_lock = match flake_lock {
        Ok(f) => f,
        Err(e) => {
            return Err(read_error("lock", join(l.osdir.as_str(), "flake.lock").as_str(), &e));
        },
    };
    Ok(OSConfiguration { flake, flake_lock, xnode_owner, domain, acme_email, user_passwd })
}

} // verus!
