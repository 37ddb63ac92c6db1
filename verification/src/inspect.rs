//! Process inspection: a freshly captured process-table snapshot is
//! queried by id; the entry's plain values are then turned by verified
//! code into classified `ProcessInfo` metadata. The snapshot is always
//! re-captured per operation — staleness is never tolerated, while the
//! race of a process exiting between resolution and inspection is a benign
//! "not found".

use vstd::prelude::*;

use crate::classify::{classified, detect_framework, docker_signal, framework_label};
use crate::envelope::ProcessInfo;

verus! {

/// sysinfo's process-table snapshot, opaque to the verifier.
#[verifier::external_type_specification]
#[verifier::external_body]
pub struct ExSystem(sysinfo::System);

/// The plain values read from one process-table entry.
pub struct ProcessRecord {
    /// Display name of the process.
    pub name: String,
    /// The executable path, when the OS grants it and it is valid text.
    pub exe_path: Option<String>,
    /// The command line, one argument per element.
    pub cmd_args: Vec<String>,
    /// The owning user's identifier, when resolvable.
    pub user_id: Option<String>,
}

/// Relies on sysinfo::System::new: an empty snapshot, to be refreshed
/// before any lookup.
#[verifier::external_body]
fn blank_snapshot() -> sysinfo::System {
    sysinfo::System::new()
}

/// Relies on sysinfo::System::refresh_processes_specifics: loads the
/// machine's whole current process table into the snapshot.
#[verifier::external_body]
fn refresh_snapshot(sys: &mut sysinfo::System) {
    sys.refresh_processes_specifics(
        sysinfo::ProcessesToUpdate::All,
        true,
        sysinfo::ProcessRefreshKind::everything(),
    );
}

/// Relies on sysinfo::System::process and the entry accessors name, exe,
/// cmd and user_id: the snapshot's entry for `pid` as plain values. What
/// comes back depends on the machine's process table at refresh time.
#[verifier::external_body]
fn snapshot_entry(sys: &sysinfo::System, pid: u32) -> Option<ProcessRecord> {
    let p = sys.process(sysinfo::Pid::from_u32(pid))?;
    Some(ProcessRecord {
        name: p.name().to_string_lossy().to_string(),
        exe_path: p.exe().and_then(|x| x.to_str()).map(|x| x.to_string()),
        cmd_args: p.cmd().iter().map(|a| a.to_string_lossy().to_string()).collect(),
        user_id: p.user_id().map(|u| u.to_string()),
    })
}

/// A freshly captured, fully refreshed process-table snapshot.
pub fn fresh_snapshot() -> sysinfo::System {
    let mut sys = blank_snapshot();
    refresh_snapshot(&mut sys);
    sys
}

/// The command line as one string: the arguments joined with single
/// spaces.
pub open spec fn join_spaces(parts: Seq<Seq<char>>) -> Seq<char>
    decreases parts.len(),
{
    if parts.len() == 0 {
        Seq::empty()
    } else if parts.len() == 1 {
        parts[0]
    } else {
        join_spaces(parts.drop_last()) + seq![' '] + parts.last()
    }
}

pub fn join_args(args: &Vec<String>) -> (r: String)
    ensures
        r@ == join_spaces(args.deep_view()),
{
    let mut out = String::new();
    let mut i: usize = 0;
    while i < args.len()
        invariant
            0 <= i <= args@.len(),
            args.deep_view().len() == args@.len(),
            out@ == join_spaces(args.deep_view().take(i as int)),
        decreases args@.len() - i,
    {
        if i > 0 {
            out.append(" ");
        }
        out.append(args[i].as_str());
        proof {
            reveal_strlit(" ");
            let dv = args.deep_view();
            assert(dv.take(i + 1).drop_last() =~= dv.take(i as int));
            assert(dv.take(i + 1).last() == dv[i as int]);
            assert(dv[i as int] == args@[i as int]@);
            assert(out@ =~= join_spaces(dv.take(i + 1)));
        }
        i += 1;
    }
    proof {
        assert(args.deep_view().take(args@.len() as int) =~= args.deep_view());
    }
    out
}

/// Builds the enriched, classified metadata from one table entry: the
/// command line is the space-joined argument list, a missing executable
/// path becomes the empty string, and the framework label and docker flag
/// are the classifier's verdict on the name and command text.
pub fn build_process_info(pid: u32, record: ProcessRecord) -> (r: ProcessInfo)
    ensures
        r.pid == pid,
        r.name == record.name,
        r.command@ == join_spaces(record.cmd_args.deep_view()),
        r.path@ == match record.exe_path {
            Some(p) => p@,
            None => Seq::<char>::empty(),
        },
        r.user == record.user_id,
        r.is_docker == docker_signal(r.name@, r.command@),
        r.framework is Some <==> framework_label(r.name@, r.command@) is Some,
        r.framework matches Some(f) ==> framework_label(r.name@, r.command@) == Some(f@),
{
    let command = join_args(&record.cmd_args);
    let (framework, is_docker) = detect_framework(record.name.as_str(), command.as_str());
    let path = match record.exe_path {
        Some(p) => p,
        None => String::new(),
    };
    ProcessInfo {
        name: record.name,
        pid,
        path,
        command,
        user: record.user_id,
        framework,
        is_docker,
    }
}

/// Looks up `pid` in the snapshot. A missing entry (the process exited in
/// the race window) is "not found", never an error. Whatever the table
/// held, the metadata handed back carries the looked-up id and is
/// internally consistent with the classifier.
pub fn get_process_info(pid: u32, sys: &sysinfo::System) -> (r: Option<ProcessInfo>)
    ensures
        r matches Some(info) ==> info.pid == pid && classified(info),
{
    match snapshot_entry(sys, pid) {
        None => None,
        Some(record) => Some(build_process_info(pid, record)),
    }
}

} // verus!
