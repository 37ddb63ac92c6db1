//! The three operations at the system boundary: find one port, kill one
//! port, scan the fixed list of common ports. Each composes resolution,
//! inspection and classification (read path) or resolution and
//! termination (write path), and wraps the outcome in the uniform
//! envelope. The surrounding application runs the OS commands and hands
//! their captured results in as plain values; every decision made here is
//! verified.

use vstd::prelude::*;

use crate::classify::classified;
use crate::envelope::{ErrorType, KillProcessResult, OperationResponse, PortScanResult,
    ProcessInfo};
use crate::inspect::{fresh_snapshot, get_process_info};
use crate::platform::OsFamily;
use crate::terminate::{classify_spec, classify_termination, TerminationFailure,
    TerminationOutcome};

verus! {

/// The find-port decision on an already-composed lookup: port 0 is
/// rejected; otherwise the port is in use exactly when a process was
/// found, and the envelope always reports success — a free port is not an
/// error.
pub fn find_port_with(port: u16, lookup: Option<ProcessInfo>) -> (r: OperationResponse<
    PortScanResult,
>)
    ensures
        r.wf(),
        port == 0 ==> {
            &&& !r.success
            &&& r.error == Some(ErrorType::PortInvalid)
            &&& (r.suggestion matches Some(s) && s@ == "Enter a valid port number"@)
        },
        port != 0 ==> {
            &&& r.success
            &&& r.error is None
            &&& (r.data matches Some(d) && d.wf() && d.port == port && d.process == lookup
                && d.in_use == (lookup is Some))
        },
{
    if port == 0 {
        return OperationResponse::fail(
            ErrorType::PortInvalid,
            String::from_str("The port must be between 1 and 65535"),
            String::from_str("Enter a valid port number"),
        );
    }
    let in_use = match &lookup {
        Some(_) => true,
        None => false,
    };
    OperationResponse::ok(PortScanResult { port, in_use, process: lookup })
}

/// Finds which process owns `port`. The application has already run the
/// resolver command and parsed its output (`resolved_pid`); the process
/// table is captured and inspected here. Port 0 is rejected; a port with
/// no owner, or whose owner exited before inspection, is reported free
/// with success — never as an error.
pub fn find_port(port: u16, resolved_pid: Option<u32>) -> (r: OperationResponse<PortScanResult>)
    ensures
        r.wf(),
        port == 0 ==> {
            &&& !r.success
            &&& r.error == Some(ErrorType::PortInvalid)
            &&& (r.suggestion matches Some(s) && s@ == "Enter a valid port number"@)
        },
        port != 0 ==> r.success && r.error is None && (r.data matches Some(d) && d.wf()
            && d.port == port),
        port != 0 && resolved_pid is None ==> (r.data matches Some(d) && !d.in_use
            && d.process is None),
        port != 0 ==> (r.data matches Some(d) && (d.process matches Some(p) ==> {
            &&& resolved_pid == Some(p.pid)
            &&& classified(p)
        })),
{
    if port == 0 {
        return find_port_with(port, None);
    }
    let sys = fresh_snapshot();
    let lookup = match resolved_pid {
        Some(pid) => get_process_info(pid, &sys),
        None => None,
    };
    find_port_with(port, lookup)
}

/// Platform-aware elevation advice for a permission-denied kill.
pub open spec fn elevation_advice_spec(family: OsFamily) -> Seq<char> {
    match family {
        OsFamily::Windows => "Run the application as Administrator (right click, run as administrator)"@,
        OsFamily::Unix => "Run the application with sudo or as root"@,
    }
}

pub fn elevation_advice(family: OsFamily) -> (r: String)
    ensures
        r@ == elevation_advice_spec(family),
{
    match family {
        OsFamily::Windows => String::from_str(
            "Run the application as Administrator (right click, run as administrator)",
        ),
        OsFamily::Unix => String::from_str("Run the application with sudo or as root"),
    }
}

/// One resolved-and-attempted termination, as the application observed it.
pub struct KillAttempt {
    /// The owner the resolver named.
    pub pid: u32,
    /// What running the kill command against that owner yielded.
    pub outcome: TerminationOutcome,
}

/// Kills the process owning `port`. `attempt` is `None` when resolution
/// found no owner; otherwise it carries the owner's id and the captured
/// outcome of the kill command. No owner is `ProcessNotFound`; a
/// permission-phrase diagnostic is `PermissionDenied` with platform
/// elevation advice; any other failure is `UnknownError` with the raw
/// text as message. Success is reported only on a zero exit status.
pub fn kill_port(family: OsFamily, port: u16, attempt: Option<KillAttempt>) -> (r:
    OperationResponse<KillProcessResult>)
    ensures
        r.wf(),
        attempt is None ==> {
            &&& !r.success
            &&& r.error == Some(ErrorType::ProcessNotFound)
            &&& (r.suggestion matches Some(s) && s@
                == "The port may already be free, or the process ended recently"@)
        },
        attempt matches Some(a) ==> match classify_spec(family, a.outcome) {
            Ok(()) => {
                &&& r.success
                &&& (r.data matches Some(k) && k.killed && k.port == port && k.pid == Some(a.pid))
            },
            Err(TerminationFailure::PermissionDenied) => {
                &&& !r.success
                &&& r.error == Some(ErrorType::PermissionDenied)
                &&& (r.suggestion matches Some(s) && s@ == elevation_advice_spec(family))
            },
            Err(TerminationFailure::Other { detail }) => {
                &&& !r.success
                &&& r.error == Some(ErrorType::UnknownError)
                &&& (r.message matches Some(m) && m@ == detail@)
            },
        },
{
    match attempt {
        None => OperationResponse::fail(
            ErrorType::ProcessNotFound,
            String::from_str("No process was found using the port"),
            String::from_str("The port may already be free, or the process ended recently"),
        ),
        Some(a) => match classify_termination(family, &a.outcome) {
            Ok(()) => OperationResponse::ok(
                KillProcessResult { killed: true, port, pid: Some(a.pid) },
            ),
            Err(TerminationFailure::PermissionDenied) => OperationResponse::fail(
                ErrorType::PermissionDenied,
                String::from_str("You lack the privileges to terminate this process"),
                elevation_advice(family),
            ),
            Err(TerminationFailure::Other { detail }) => OperationResponse::fail(
                ErrorType::UnknownError,
                detail,
                String::from_str("Try running the application as administrator"),
            ),
        },
    }
}

/// The fixed ordered list of well-known development ports.
pub open spec fn common_ports_spec() -> Seq<u16> {
    seq![3000u16, 3001u16, 3306u16, 5173u16, 5432u16, 6379u16, 8000u16, 8080u16, 9229u16]
}

pub fn common_ports() -> (v: Vec<u16>)
    ensures
        v@ == common_ports_spec(),
{
    let v: Vec<u16> = vec![3000, 3001, 3306, 5173, 5432, 6379, 8000, 8080, 9229];
    proof {
        assert(v@ =~= common_ports_spec());
    }
    v
}

/// The scan payload: one in-use entry per port whose owner was resolved
/// and inspected, in the order of the port list; every other port is
/// omitted entirely.
pub open spec fn scan_spec(ports: Seq<u16>, infos: Seq<Option<ProcessInfo>>) -> Seq<
    PortScanResult,
>
    decreases ports.len(),
{
    if ports.len() == 0 {
        Seq::empty()
    } else {
        let front = scan_spec(ports.drop_last(), infos.drop_last());
        match infos[ports.len() - 1] {
            Some(info) => front.push(
                PortScanResult { port: ports.last(), in_use: true, process: Some(info) },
            ),
            None => front,
        }
    }
}

/// Assembles the scan payload from per-port inspection results.
pub fn assemble_scan(ports: &Vec<u16>, infos: Vec<Option<ProcessInfo>>) -> (v: Vec<PortScanResult>)
    requires
        ports@.len() == infos@.len(),
    ensures
        v@ == scan_spec(ports@, infos@),
{
    let ghost all = infos@;
    let mut infos = infos;
    let mut out: Vec<PortScanResult> = Vec::new();
    let mut i: usize = 0;
    while i < ports.len()
        invariant
            ports@.len() == all.len(),
            0 <= i <= ports@.len(),
            infos@ == all.skip(i as int),
            out@ == scan_spec(ports@.take(i as int), all.take(i as int)),
        decreases ports@.len() - i,
    {
        let info = infos.remove(0);
        proof {
            assert(all.skip(i as int)[0] == all[i as int]);
            assert(all.skip(i as int).skip(1) =~= all.skip(i + 1));
        }
        let port = ports[i];
        match info {
            Some(p) => {
                out.push(PortScanResult { port, in_use: true, process: Some(p) });
            },
            None => {},
        }
        proof {
            assert(ports@.take(i + 1).drop_last() =~= ports@.take(i as int));
            assert(all.take(i + 1).drop_last() =~= all.take(i as int));
            assert(ports@.take(i + 1).last() == ports@[i as int]);
            assert(all.take(i + 1)[ports@.take(i + 1).len() - 1] == all[i as int]);
        }
        i += 1;
    }
    proof {
        assert(ports@.take(ports@.len() as int) =~= ports@);
        assert(all.take(ports@.len() as int) =~= all);
    }
    out
}

/// Every scan entry is in use, carries its process, and names a port of
/// the list with that port's own inspection result.
pub proof fn lemma_scan_spec_entries(ports: Seq<u16>, infos: Seq<Option<ProcessInfo>>)
    requires
        ports.len() == infos.len(),
    ensures
        scan_spec(ports, infos).len() <= ports.len(),
        forall|k: int|
            0 <= k < scan_spec(ports, infos).len() ==> {
                &&& (#[trigger] scan_spec(ports, infos)[k]).in_use
                &&& scan_spec(ports, infos)[k].process is Some
                &&& exists|j: int|
                    0 <= j < ports.len() && scan_spec(ports, infos)[k].port == ports[j]
                        && infos[j] == Some(scan_spec(ports, infos)[k].process->0)
            },
    decreases ports.len(),
{
    if ports.len() > 0 {
        let n = ports.len() as int;
        let p2 = ports.drop_last();
        let i2 = infos.drop_last();
        lemma_scan_spec_entries(p2, i2);
        let front = scan_spec(p2, i2);
        let full = scan_spec(ports, infos);
        assert forall|k: int| 0 <= k < full.len() implies {
            &&& (#[trigger] full[k]).in_use
            &&& full[k].process is Some
            &&& exists|j: int|
                0 <= j < ports.len() && full[k].port == ports[j] && infos[j] == Some(
                    full[k].process->0,
                )
        } by {
            if k < front.len() {
                assert(front[k].in_use && front[k].process is Some);
                let j = choose|j: int|
                    0 <= j < p2.len() && front[k].port == p2[j] && i2[j] == Some(
                        front[k].process->0,
                    );
                assert(full[k] == front[k]);
                assert(ports[j] == p2[j] && infos[j] == i2[j]);
                assert(0 <= j < ports.len() && full[k].port == ports[j] && infos[j] == Some(
                    full[k].process->0,
                ));
            } else {
                assert(infos[n - 1] is Some);
                assert(full[k] == PortScanResult {
                    port: ports.last(),
                    in_use: true,
                    process: Some(infos[n - 1]->0),
                });
                assert(0 <= n - 1 < ports.len() && full[k].port == ports[n - 1] && infos[n - 1]
                    == Some(full[k].process->0));
            }
        }
    }
}

/// When the port list is strictly increasing — the fixed common list is —
/// the scan entries' ports are strictly increasing too: the list's order
/// is preserved.
pub proof fn lemma_scan_spec_ordered(ports: Seq<u16>, infos: Seq<Option<ProcessInfo>>)
    requires
        ports.len() == infos.len(),
        forall|i1: int, i2: int| 0 <= i1 < i2 < ports.len() ==> ports[i1] < ports[i2],
    ensures
        forall|k1: int, k2: int|
            0 <= k1 < k2 < scan_spec(ports, infos).len() ==> scan_spec(ports, infos)[k1].port
                < scan_spec(ports, infos)[k2].port,
    decreases ports.len(),
{
    if ports.len() > 0 {
        let n = ports.len() as int;
        let p2 = ports.drop_last();
        let i2 = infos.drop_last();
        lemma_scan_spec_ordered(p2, i2);
        lemma_scan_spec_entries(p2, i2);
        let front = scan_spec(p2, i2);
        let full = scan_spec(ports, infos);
        assert forall|k1: int, k2: int| 0 <= k1 < k2 < full.len() implies full[k1].port
            < full[k2].port by {
            if k2 < front.len() {
                assert(front[k1].port < front[k2].port);
            } else {
                assert(infos[n - 1] is Some);
                assert(full[k2].port == ports[n - 1]);
                assert(full[k1] == front[k1]);
                let j = choose|j: int|
                    0 <= j < p2.len() && front[k1].port == p2[j] && i2[j] == Some(
                        front[k1].process->0,
                    );
                assert(ports[j] < ports[n - 1]);
            }
        }
    }
}

/// The fixed common list is strictly increasing.
pub proof fn lemma_common_ports_increasing()
    ensures
        forall|i1: int, i2: int|
            0 <= i1 < i2 < common_ports_spec().len() ==> common_ports_spec()[i1]
                < common_ports_spec()[i2],
{
}

/// Scans the fixed port list. `resolved` holds, for each listed port in
/// order, the owner the application's resolver found. A port with no
/// owner, or whose owner vanished before inspection, is omitted — no
/// placeholder, no partial-failure marker. The scan itself always
/// succeeds, possibly with an empty payload.
pub fn detect_common_ports(resolved: &Vec<Option<u32>>) -> (r: OperationResponse<
    Vec<PortScanResult>,
>)
    requires
        resolved@.len() == common_ports_spec().len(),
    ensures
        r.wf(),
        r.success && r.error is None,
        r.data matches Some(d) ==> d@.len() <= common_ports_spec().len(),
        r.data matches Some(d) ==> (forall|k: int|
            0 <= k < d@.len() ==> {
                &&& (#[trigger] d@[k]).wf()
                &&& d@[k].in_use
                &&& common_ports_spec().contains(d@[k].port)
            }),
        r.data matches Some(d) ==> (forall|k1: int, k2: int|
            0 <= k1 < k2 < d@.len() ==> d@[k1].port < d@[k2].port),
        r.data matches Some(d) ==> (forall|k: int|
            0 <= k < d@.len() ==> exists|j: int|
                {
                    &&& 0 <= j < common_ports_spec().len()
                    &&& (#[trigger] d@[k]).port == common_ports_spec()[j]
                    &&& resolved@[j] is Some
                    &&& (d@[k].process matches Some(p) && p.pid == resolved@[j]->0)
                }),
        r.data matches Some(d) ==> exists|infos: Seq<Option<ProcessInfo>>|
            {
                &&& infos.len() == common_ports_spec().len()
                &&& (forall|k: int|
                    0 <= k < infos.len() && resolved@[k] is None ==> infos[k] is None)
                &&& (forall|k: int|
                    0 <= k < infos.len() && infos[k] is Some ==> resolved@[k] is Some && (
                    #[trigger] infos[k])->0.pid == resolved@[k]->0)
                &&& d@ == scan_spec(common_ports_spec(), infos)
            },
{
    let ports = common_ports();
    let sys = fresh_snapshot();
    let mut infos: Vec<Option<ProcessInfo>> = Vec::new();
    let mut i: usize = 0;
    while i < ports.len()
        invariant
            ports@ == common_ports_spec(),
            resolved@.len() == ports@.len(),
            0 <= i <= ports@.len(),
            infos@.len() == i,
            forall|k: int| 0 <= k < i && resolved@[k] is None ==> infos@[k] is None,
            forall|k: int|
                0 <= k < i && infos@[k] is Some ==> resolved@[k] is Some && (#[trigger] infos@[k])->0.pid
                    == resolved@[k]->0,
        decreases ports@.len() - i,
    {
        let entry = match resolved[i] {
            Some(pid) => get_process_info(pid, &sys),
            None => None,
        };
        infos.push(entry);
        i += 1;
    }
    let ghost ginfos = infos@;
    let data = assemble_scan(&ports, infos);
    proof {
        lemma_scan_spec_entries(ports@, ginfos);
        lemma_common_ports_increasing();
        lemma_scan_spec_ordered(ports@, ginfos);
        assert forall|k: int| 0 <= k < data@.len() implies {
            &&& (#[trigger] data@[k]).wf()
            &&& data@[k].in_use
            &&& common_ports_spec().contains(data@[k].port)
        } by {
            assert(data@[k].in_use && data@[k].process is Some);
            let j = choose|j: int|
                0 <= j < ports@.len() && data@[k].port == ports@[j] && ginfos[j] == Some(
                    data@[k].process->0,
                );
            assert(common_ports_spec()[j] == data@[k].port);
        }
        assert forall|k: int| 0 <= k < data@.len() implies exists|j: int|
            {
                &&& 0 <= j < common_ports_spec().len()
                &&& (#[trigger] data@[k]).port == common_ports_spec()[j]
                &&& resolved@[j] is Some
                &&& (data@[k].process matches Some(p) && p.pid == resolved@[j]->0)
            } by {
            assert(data@[k].in_use && data@[k].process is Some);
            let j = choose|j: int|
                0 <= j < ports@.len() && data@[k].port == ports@[j] && ginfos[j] == Some(
                    data@[k].process->0,
                );
            assert(ginfos[j] is Some);
            assert(resolved@[j] is Some && ginfos[j]->0.pid == resolved@[j]->0);
            assert({
                &&& 0 <= j < common_ports_spec().len()
                &&& data@[k].port == common_ports_spec()[j]
                &&& resolved@[j] is Some
                &&& (data@[k].process matches Some(p) && p.pid == resolved@[j]->0)
            });
        }
    }
    OperationResponse::ok(data)
}

} // verus!
