use vstd::prelude::*;
use vstd::string::StringExecFns;

use crate::request::models::{CommandInfo, RequestId, RequestIdResult, RequestInfo};
use crate::utils::command::{copy_string, IoFailure};
use crate::utils::error::ResponseError;
use crate::utils::output::Output;
use crate::utils::path::{join, joined};
use crate::utils::string::{chars_of, decimal, decimal_string, parse_unsigned, parse_unsigned_chars};

verus! {

/// The request id that a record in the store is named after; a name that is
/// not an id counts as 0.
pub open spec fn recorded_id(name: Seq<char>) -> nat {
    match parse_unsigned(name, u32::MAX as nat) {
        Some(v) => v,
        None => 0,
    }
}

/// The largest request id among the record names, 0 if there is none.
pub open spec fn max_recorded(names: Seq<Seq<char>>) -> nat
    decreases names.len(),
{
    if names.len() == 0 {
        0
    } else {
        let m = max_recorded(names.drop_last());
        let v = recorded_id(names.last());
        if v > m {
            v
        } else {
            m
        }
    }
}

/// The set of request ids that the record names stand for.
pub open spec fn recorded_ids(names: Seq<Seq<char>>) -> Set<nat> {
    Set::new(|v: nat| exists|k: int| 0 <= k < names.len() && v == recorded_id(#[trigger] names[k]))
}

proof fn lemma_max_recorded_bounds(names: Seq<Seq<char>>, k: int)
    requires
        0 <= k < names.len(),
    ensures
        recorded_id(names[k]) <= max_recorded(names),
    decreases names.len(),
{
    if k < names.len() - 1 {
        assert(names.drop_last()[k] == names[k]);
        lemma_max_recorded_bounds(names.drop_last(), k);
    }
}

/// The largest request id recorded under the names in the store.
fn largest_recorded(names: &Vec<String>) -> (r: u32)
    ensures
        r as nat == max_recorded(names@.map_values(|s: String| s@)),
{
    let ghost view = names@.map_values(|s: String| s@);
    let mut m: u32 = 0;
    let mut i: usize = 0;
    while i < names.len()
        invariant
            i <= names@.len(),
            view == names@.map_values(|s: String| s@),
            m as nat == max_recorded(view.take(i as int)),
        decreases names.len() - i,
    {
        assert(view.take(i + 1).drop_last() =~= view.take(i as int));
        let parsed = parse_unsigned_chars(&chars_of(names[i].as_str()), 0xffff_ffff);
        let v: u32 = match parsed {
            Some(x) => x as u32,
            None => 0,
        };
        assert(view[i as int] == names@[i as int]@);
        assert(v as nat == recorded_id(view.take(i + 1).last()));
        if v > m {
            m = v;
        }
        i = i + 1;
    }
    assert(view.take(i as int) =~= view);
    m
}

/// The request id that follows every id recorded under `names`, if there is
/// one that fits.
pub fn get_request_id(names: &Vec<String>) -> (r: Option<RequestId>)
    ensures
        max_recorded(names@.map_values(|s: String| s@)) < u32::MAX ==> r == Some(
            (max_recorded(names@.map_values(|s: String| s@)) + 1) as u32,
        ),
        max_recorded(names@.map_values(|s: String| s@)) >= u32::MAX ==> r is None,
{
    let m = largest_recorded(names);
    if m < u32::MAX {
        Some(m + 1)
    } else {
        None
    }
}

/// Hands out request ids: each one above every id that was recorded when
/// it was made and every id it handed out since.
pub struct RequestIdAllocator {
    next: u64,
    issued: Ghost<Set<nat>>,
}

impl RequestIdAllocator {
    /// The id that the next allocation hands out, if it fits.
    pub closed spec fn next_id(&self) -> nat {
        self.next as nat
    }

    /// The ids recorded or handed out so far.
    pub closed spec fn issued(&self) -> Set<nat> {
        self.issued@
    }

    /// Every id recorded or handed out is below the next one.
    pub closed spec fn wf(&self) -> bool {
        &&& self.next >= 1
        &&& self.next <= u32::MAX as u64 + 1
        &&& forall|v: nat| self.issued@.contains(v) ==> v < self.next
    }

    /// An allocator that starts after every id recorded under `names`.
    pub fn from_existing(names: &Vec<String>) -> (r: RequestIdAllocator)
        ensures
            r.wf(),
            r.next_id() == max_recorded(names@.map_values(|s: String| s@)) + 1,
            r.issued() == recorded_ids(names@.map_values(|s: String| s@)),
    {
        let m = largest_recorded(names);
        let ghost view = names@.map_values(|s: String| s@);
        let r = RequestIdAllocator { next: m as u64 + 1, issued: Ghost(recorded_ids(view)) };
        assert forall|v: nat| r.issued@.contains(v) implies v < r.next by {
            let k = choose|k: int| 0 <= k < view.len() && v == recorded_id(#[trigger] view[k]);
            lemma_max_recorded_bounds(view, k);
        }
        r
    }

    /// Hands out the next id: above every id recorded or handed out before.
    pub fn allocate(&mut self) -> (r: Option<RequestId>)
        requires
            old(self).wf(),
        ensures
            final(self).wf(),
            old(self).next_id() <= u32::MAX ==> r == Some(old(self).next_id() as u32)
                && final(self).next_id() == old(self).next_id() + 1
                && final(self).issued() == old(self).issued().insert(old(self).next_id()),
            old(self).next_id() > u32::MAX ==> r is None && *final(self) == *old(self),
            r matches Some(id) ==> forall|v: nat| old(self).issued().contains(v) ==> v < id,
    {
        if self.next > u32::MAX as u64 {
            return None;
        }
        let id = self.next as u32;
        proof {
            self.issued@ = self.issued@.insert(self.next as nat);
        }
        self.next = self.next + 1;
        Some(id)
    }
}

/// Two ids handed out one after the other by one allocator differ, the later
/// one being the larger, and both lie above every id recorded or handed out
/// before them.
pub proof fn lemma_allocations_increase(a: RequestIdAllocator, b: RequestIdAllocator, first: nat)
    requires
        a.wf(),
        a.next_id() == first,
        b.wf(),
        b.next_id() == first + 1,
        b.issued() == a.issued().insert(first),
    ensures
        forall|v: nat| a.issued().contains(v) ==> v < first,
        forall|v: nat| b.issued().contains(v) ==> v < b.next_id(),
        first < b.next_id(),
{
}

/// What is known of a request in the store: the steps recorded and the
/// result, once there is one.
pub struct JobRecord {
    pub commands: Vec<String>,
    pub result: Option<RequestIdResult>,
}

/// The result a record holds after `r` is offered to it: the first result
/// offered is kept, and later ones are refused.
pub open spec fn result_after(current: Option<RequestIdResult>, r: RequestIdResult) -> Option<
    RequestIdResult,
> {
    match current {
        Some(c) => Some(c),
        None => Some(r),
    }
}

impl JobRecord {
    /// The record of a request that has just started.
    pub fn new() -> (r: JobRecord)
        ensures
            r.commands@.len() == 0,
            r.result is None,
    {
        JobRecord { commands: Vec::new(), result: None }
    }

    /// Keeps `result` as the request's result unless one was kept already;
    /// says whether it was kept, so that it is written out exactly once.
    pub fn persist_result(&mut self, result: RequestIdResult) -> (written: bool)
        ensures
            written == old(self).result is None,
            final(self).result == result_after(old(self).result, result),
            final(self).commands == old(self).commands,
    {
        if self.result.is_some() {
            false
        } else {
            self.result = Some(result);
            true
        }
    }

    /// The state of the request as a caller sees it.
    pub fn status(&self) -> (r: RequestInfo)
        ensures
            r.commands@ == self.commands@,
            r.result == self.result,
    {
        let mut commands: Vec<String> = Vec::new();
        let mut i: usize = 0;
        while i < self.commands.len()
            invariant
                i <= self.commands@.len(),
                commands@ == self.commands@.take(i as int),
            decreases self.commands.len() - i,
        {
            commands.push(self.commands[i].clone());
            i = i + 1;
            assert(commands@ =~= self.commands@.take(i as int));
        }
        assert(commands@ =~= self.commands@);
        RequestInfo {
            commands,
            result: match &self.result {
                Some(r) => Some(r.copy()),
                None => None,
            },
        }
    }
}

/// A request's result is none until the work hands one over, and from then
/// on it is the first one handed over, however often it is read or offered
/// again.
pub proof fn lemma_single_result(r1: RequestIdResult, r2: RequestIdResult)
    ensures
        result_after(None, r1) == Some(r1),
        result_after(result_after(None, r1), r2) == Some(r1),
{
}

/// An entry found in a request's directory of the store.
pub struct StepEntry {
    /// Its name, where it is valid UTF-8.
    pub name: Option<String>,
    pub is_dir: bool,
}

/// The step names among the entries: the directories with readable names.
pub open spec fn step_names(entries: Seq<StepEntry>) -> Seq<Seq<char>>
    decreases entries.len(),
{
    if entries.len() == 0 {
        Seq::empty()
    } else {
        let rest = step_names(entries.drop_last());
        match entries.last().name {
            Some(n) => if entries.last().is_dir {
                rest.push(n@)
            } else {
                rest
            },
            None => rest,
        }
    }
}

/// When a step started, from its name: the milliseconds since the epoch it
/// is named after, 0 for a name that is not a number.
pub open spec fn step_time(name: Seq<char>) -> nat {
    match parse_unsigned(name, u64::MAX as nat) {
        Some(v) => v,
        None => 0,
    }
}

/// Whether the step names are in the order the steps started.
pub open spec fn in_start_order(names: Seq<Seq<char>>) -> bool {
    forall|i: int, j: int| 0 <= i < j < names.len() ==> step_time(names[i]) <= step_time(names[j])
}

fn step_time_of(name: &String) -> (r: u64)
    ensures
        r as nat == step_time(name@),
{
    match parse_unsigned_chars(&chars_of(name.as_str()), u64::MAX) {
        Some(v) => v,
        None => 0,
    }
}

/// The step names, in the order the steps started; steps that started
/// together keep their order.
pub fn in_order_of_start(names: Vec<String>) -> (r: Vec<String>)
    ensures
        r@.map_values(|s: String| s@).to_multiset() == names@.map_values(|s: String| s@).to_multiset(),
        in_start_order(r@.map_values(|s: String| s@)),
{
    let ghost all = names@.map_values(|s: String| s@);
    let mut sorted: Vec<String> = Vec::new();
    let mut times: Vec<u64> = Vec::new();
    let mut i: usize = 0;
    assert(all.take(0) =~= Seq::<Seq<char>>::empty());
    assert(sorted@.map_values(|s: String| s@) =~= Seq::<Seq<char>>::empty());
    while i < names.len()
        invariant
            i <= names@.len(),
            all == names@.map_values(|s: String| s@),
            times@.len() == sorted@.len(),
            forall|k: int| 0 <= k < sorted@.len() ==> #[trigger] times@[k] as nat == step_time(sorted@[k]@),
            forall|a: int, b: int| 0 <= a < b < times@.len() ==> times@[a] <= times@[b],
            sorted@.map_values(|s: String| s@).to_multiset() == all.take(i as int).to_multiset(),
        decreases names.len() - i,
    {
        let t = step_time_of(&names[i]);
        let mut pos: usize = 0;
        while pos < times.len() && times[pos] <= t
            invariant
                pos <= times@.len(),
                forall|k: int| 0 <= k < pos ==> times@[k] <= t,
            decreases times.len() - pos,
        {
            pos = pos + 1;
        }
        let ghost before = sorted@.map_values(|s: String| s@);
        let ghost before_times = times@;
        let name = names[i].clone();
        sorted.insert(pos, name);
        times.insert(pos, t);
        assert(sorted@.map_values(|s: String| s@) =~= before.insert(pos as int, all[i as int]));
        assert(all.take(i + 1) =~= all.take(i as int).push(all[i as int]));
        proof {
            vstd::seq_lib::to_multiset_insert(before, pos as int, all[i as int]);
            vstd::seq_lib::to_multiset_build(all.take(i as int), all[i as int]);
        }
        assert forall|k: int| 0 <= k < sorted@.len() implies #[trigger] times@[k] as nat == step_time(
            sorted@[k]@,
        ) by {
            if k > pos {
                assert(times@[k] == before_times[k - 1]);
            }
        }
        assert forall|a: int, b: int| 0 <= a < b < times@.len() implies times@[a] <= times@[b] by {
            if pos < before_times.len() {
                assert(t < before_times[pos as int]);
            }
        }
        i = i + 1;
    }
    assert(all.take(i as int) =~= all);
    let ghost sv = sorted@.map_values(|s: String| s@);
    assert forall|a: int, b: int|
        0 <= a < b < sv.len() implies #[trigger] step_time(sv[a]) <= #[trigger] step_time(sv[b]) by {
        assert(times@[a] as nat == step_time(sorted@[a]@));
        assert(times@[b] as nat == step_time(sorted@[b]@));
    }
    sorted
}

/// The state of a request from the entries of its directory and the result
/// read back from it, if any: the steps in the order they started.
pub fn request_info(entries: &Vec<StepEntry>, result: Option<RequestIdResult>) -> (r: RequestInfo)
    ensures
        r.commands@.map_values(|s: String| s@).to_multiset() == step_names(entries@).to_multiset(),
        in_start_order(r.commands@.map_values(|s: String| s@)),
        r.result == result,
{
    let mut commands: Vec<String> = Vec::new();
    let mut i: usize = 0;
    while i < entries.len()
        invariant
            i <= entries@.len(),
            commands@.map_values(|s: String| s@) == step_names(entries@.take(i as int)),
        decreases entries.len() - i,
    {
        assert(entries@.take(i + 1).drop_last() =~= entries@.take(i as int));
        let ghost before = commands@;
        if entries[i].is_dir {
            match &entries[i].name {
                Some(n) => {
                    commands.push(copy_string(n));
                    assert(commands@.map_values(|s: String| s@) =~= before.map_values(
                        |s: String| s@,
                    ).push(n@));
                },
                None => {},
            }
        }
        i = i + 1;
    }
    assert(entries@.take(i as int) =~= entries@);
    RequestInfo { commands: in_order_of_start(commands), result }
}

/// The directory of request `request_id` in the store at `root`.
pub fn request_dir(root: &str, request_id: RequestId) -> (r: String)
    ensures
        r@ == joined(root@, decimal(request_id as nat)),
{
    join(root, decimal_string(request_id as u64).as_str())
}

/// The directory of the step of request `request_id` that started at
/// `start` milliseconds.
pub fn step_dir(root: &str, request_id: RequestId, start: u64) -> (r: String)
    ensures
        r@ == joined(joined(root@, decimal(request_id as nat)), decimal(start as nat)),
{
    let dir = request_dir(root, request_id);
    join(dir.as_str(), decimal_string(start).as_str())
}

/// `what` with `: ` and `detail` after it.
pub fn with_detail(what: String, detail: &str) -> (r: String)
    ensures
        r@ == what@ + ": "@ + detail@,
{
    let mut r = what;
    r.append(": ");
    r.append(detail);
    r
}

/// "Error reading `what` from `path`: `e`".
fn read_error(what: &str, path: &str, e: &IoFailure) -> (r: ResponseError)
    ensures
        r.error@ == "Error reading "@ + what@ + " from "@ + path@ + ": "@ + e.message@,
{
    let mut m = String::from_str("Error reading ");
    m.append(what);
    m.append(" from ");
    m.append(path);
    ResponseError::new(with_detail(m, e.message.as_str()))
}

/// A recorded step from what was read of its files under `dir`: its command
/// line, its standard output and error, and its outcome marker if written.
/// Fails, naming the file, where the command line or an output cannot be
/// read.
pub fn command_info(
    dir: &str,
    command: Result<String, IoFailure>,
    stdout: Result<Vec<u8>, IoFailure>,
    stderr: Result<Vec<u8>, IoFailure>,
    result: Option<String>,
) -> (r: Result<CommandInfo, ResponseError>)
    ensures
        (command is Ok && stdout is Ok && stderr is Ok) <==> r is Ok,
        r matches Ok(info) ==> info.command == command->Ok_0 && info.stdout.reads(stdout->Ok_0@)
            && info.stderr.reads(stderr->Ok_0@) && info.result == result,
        command matches Err(e) ==> r matches Err(f) && f.error@ == "Error reading "@ + "command"@
            + " from "@ + joined(dir@, "command"@) + ": "@ + e.message@,
        command is Ok ==> (stdout matches Err(e) ==> r matches Err(f) && f.error@
            == "Error reading "@ + "stdout"@ + " from "@ + joined(dir@, "stdout"@) + ": "@
            + e.message@),
        command is Ok && stdout is Ok ==> (stderr matches Err(e) ==> r matches Err(f) && f.error@
            == "Error reading "@ + "stderr"@ + " from "@ + joined(dir@, "stderr"@) + ": "@
            + e.message@),
{
    let command = match command {
        Ok(c) => c,
        Err(e) => {
            return Err(read_error("command", join(dir, "command").as_str(), &e));
        },
    };
    let stdout = match stdout {
        Ok(o) => o,
        Err(e) => {
            return Err(read_error("stdout", join(dir, "stdout").as_str(), &e));
        },
    };
    let stderr = match stderr {
        Ok(o) => o,
        Err(e) => {
            return Err(read_error("stderr", join(dir, "stderr").as_str(), &e));
        },
    };
    Ok(
        CommandInfo {
            command,
            stdout: Output::from_bytes(stdout),
            stderr: Output::from_bytes(stderr),
            result,
        },
    )
}

} // verus!
