use vstd::prelude::*;
use vstd::utf8::encode_utf8;
use std::collections::HashMap;

use crate::hash::{append_le32, append_str, digest_id, digest_to_id, le32};
use crate::units::Percent;

verus! {

broadcast use vstd::std_specs::hash::group_hash_axioms;

/// Process identifier.
#[derive(Debug, Clone, Copy, PartialEq, Eq, Hash)]
pub struct ProcessID(pub u64);

/// Process identifier, heredity, usage and throughput readings.
#[derive(Debug)]
pub struct ProcessData {
    pub process_id: ProcessID,
    pub name: String,
    pub parent: Option<ProcessID>,
    pub exe_path: Option<String>,
    pub cpu_usage: Option<Percent>,
    pub gpu_usage: Option<Percent>,
    pub ram_usage: Option<Percent>,
    pub read_bytes: Option<u64>,
    pub written_bytes: Option<u64>,
}

impl Clone for ProcessData {
    fn clone(&self) -> (r: Self)
        ensures
            r == *self,
    {
        ProcessData {
            process_id: self.process_id,
            name: self.name.clone(),
            parent: self.parent,
            exe_path: match &self.exe_path {
                Some(p) => Some(p.clone()),
                None => None,
            },
            cpu_usage: self.cpu_usage,
            gpu_usage: self.gpu_usage,
            ram_usage: self.ram_usage,
            read_bytes: self.read_bytes,
            written_bytes: self.written_bytes,
        }
    }
}

/// The processes seen in one reading.
#[derive(Debug)]
pub struct ProcessesData(pub Vec<ProcessData>);

impl Clone for ProcessesData {
    fn clone(&self) -> (r: Self)
        ensures
            r.0@ == self.0@,
    {
        let v = self.0.clone();
        proof {
            assert(v@ =~= self.0@);
        }
        ProcessesData(v)
    }
}

/// The bytes hashed into a process identifier: machine name, process name, and the
/// process id as four little-endian bytes.
pub open spec fn process_key_bytes(machine: Seq<char>, name: Seq<char>, pid: u32) -> Seq<u8> {
    encode_utf8(machine) + encode_utf8(name) + le32(pid)
}

/// The identifier of process `pid` named `name` on `machine`.
pub open spec fn process_id_spec(machine: Seq<char>, name: Seq<char>, pid: u32) -> ProcessID {
    ProcessID(digest_id(process_key_bytes(machine, name, pid)) as u64)
}

/// A process key used to identify a process on a machine.
pub struct ProcessKey {
    pub machine_id: String,
    pub process_name: String,
    pub pid: u32,
}

impl ProcessKey {
    pub fn new(machine_id: String, process_name: String, pid: u32) -> (r: Self)
        ensures
            r.machine_id@ == machine_id@,
            r.process_name@ == process_name@,
            r.pid == pid,
    {
        ProcessKey { machine_id, process_name, pid }
    }

    /// Hashes the key into the process identifier.
    pub fn into_process_id(&self) -> (id: ProcessID)
        ensures
            id == process_id_spec(self.machine_id@, self.process_name@, self.pid),
    {
        let mut bytes: Vec<u8> = Vec::new();
        append_str(&mut bytes, self.machine_id.as_str());
        append_str(&mut bytes, self.process_name.as_str());
        append_le32(&mut bytes, self.pid);
        proof {
            assert(bytes@ =~= process_key_bytes(self.machine_id@, self.process_name@, self.pid));
        }
        ProcessID(digest_to_id(bytes.as_slice()))
    }
}

/// A process as the system reports it, with its usages already computed.
#[derive(Debug, Clone)]
pub struct RawProcess {
    pub pid: u32,
    /// The process name, `None` when it is not valid UTF-8.
    pub name: Option<String>,
    pub parent_pid: Option<u32>,
    pub exe_path: Option<String>,
    pub cpu_usage: Percent,
    pub ram_usage: Percent,
    pub read_bytes: u64,
    pub written_bytes: u64,
}

/// The name under which a process is known.
pub open spec fn raw_name(r: RawProcess) -> Seq<char> {
    match r.name {
        Some(n) => n@,
        None => "__unknown"@,
    }
}

/// The identifiers of the processes by pid (a later process with the same pid wins).
pub open spec fn pid_map(machine: Seq<char>, procs: Seq<RawProcess>) -> Map<u32, ProcessID>
    decreases procs.len(),
{
    if procs.len() == 0 {
        Map::empty()
    } else {
        let r = procs.last();
        pid_map(machine, procs.drop_last()).insert(r.pid, process_id_spec(machine, raw_name(r), r.pid))
    }
}

/// What the reading of one process holds, given the identifiers of all processes.
pub open spec fn process_data_of(d: ProcessData, r: RawProcess, machine: Seq<char>, ids: Map<u32, ProcessID>) -> bool {
    &&& d.process_id == process_id_spec(machine, raw_name(r), r.pid)
    &&& d.name@ == raw_name(r)
    &&& d.parent == (match r.parent_pid {
        Some(pp) => if ids.contains_key(pp) {
            Some(ids[pp])
        } else {
            None
        },
        None => None,
    })
    &&& d.exe_path == r.exe_path
    &&& d.cpu_usage == Some(r.cpu_usage)
    &&& d.gpu_usage == None::<Percent>
    &&& d.ram_usage == Some(r.ram_usage)
    &&& d.read_bytes == Some(r.read_bytes)
    &&& d.written_bytes == Some(r.written_bytes)
}

/// A process keeps its identifier from one reading to the next while its name and pid
/// stay the same: the identifier depends on the machine, the name and the pid alone.
pub proof fn law_process_id_is_stable(
    d1: ProcessData,
    r1: RawProcess,
    ids1: Map<u32, ProcessID>,
    d2: ProcessData,
    r2: RawProcess,
    ids2: Map<u32, ProcessID>,
    machine: Seq<char>,
)
    requires
        process_data_of(d1, r1, machine, ids1),
        process_data_of(d2, r2, machine, ids2),
        raw_name(r1) == raw_name(r2),
        r1.pid == r2.pid,
    ensures
        d1.process_id == d2.process_id,
{
}

/// The name of a process as text.
fn name_of(r: &RawProcess) -> (s: String)
    ensures
        s@ == raw_name(*r),
{
    match &r.name {
        Some(n) => n.clone(),
        None => String::from_str("__unknown"),
    }
}

/// Process sensor.
pub struct ProcessesSensor {
    machine_name: String,
    pid_to_id: HashMap<u32, ProcessID>,
}

impl ProcessesSensor {
    pub closed spec fn machine(&self) -> Seq<char> {
        self.machine_name@
    }

    pub closed spec fn ids(&self) -> Map<u32, ProcessID> {
        self.pid_to_id@
    }

    /// A sensor for the processes of `machine_name`.
    pub fn new(machine_name: String) -> (r: Self)
        ensures
            r.machine() == machine_name@,
            r.ids() == Map::<u32, ProcessID>::empty(),
    {
        Self { machine_name, pid_to_id: HashMap::new() }
    }

    /// The identifiers of the processes seen in the last reading, by pid.
    pub fn pid_to_id(&self) -> (m: HashMap<u32, ProcessID>)
        ensures
            m@ == self.ids(),
    {
        self.pid_to_id.clone()
    }

    /// Identifies every process, first all of them so that parents can be named by
    /// their identifier, then builds one reading per process, in order.
    pub fn read_full_data(&mut self, procs: &Vec<RawProcess>) -> (r: ProcessesData)
        ensures
            final(self).machine() == old(self).machine(),
            final(self).ids() == pid_map(old(self).machine(), procs@),
            r.0@.len() == procs@.len(),
            forall|i: int|
                0 <= i < procs@.len() ==> process_data_of(
                    #[trigger] r.0@[i],
                    procs@[i],
                    old(self).machine(),
                    pid_map(old(self).machine(), procs@),
                ),
    {
        self.pid_to_id.clear();
        let mut i: usize = 0;
        while i < procs.len()
            invariant
                i <= procs@.len(),
                self.machine_name@ == old(self).machine(),
                self.pid_to_id@ == pid_map(self.machine_name@, procs@.take(i as int)),
            decreases procs@.len() - i,
        {
            let r = &procs[i];
            proof {
                assert(procs@.take(i + 1).drop_last() =~= procs@.take(i as int));
            }
            let key = ProcessKey::new(self.machine_name.clone(), name_of(r), r.pid);
            let id = key.into_process_id();
            self.pid_to_id.insert(r.pid, id);
            i = i + 1;
        }
        proof {
            assert(procs@.take(procs@.len() as int) =~= procs@);
        }
        let mut out: Vec<ProcessData> = Vec::new();
        let mut j: usize = 0;
        while j < procs.len()
            invariant
                j <= procs@.len(),
                out@.len() == j,
                self.machine_name@ == old(self).machine(),
                self.pid_to_id@ == pid_map(self.machine_name@, procs@),
                forall|k: int|
                    0 <= k < j ==> process_data_of(
                        #[trigger] out@[k],
                        procs@[k],
                        self.machine_name@,
                        self.pid_to_id@,
                    ),
            decreases procs@.len() - j,
        {
            let r = &procs[j];
            let name = name_of(r);
            let parent = match r.parent_pid {
                Some(pp) => match self.pid_to_id.get(&pp) {
                    Some(id) => Some(*id),
                    None => None,
                },
                None => None,
            };
            let key = ProcessKey::new(self.machine_name.clone(), name.clone(), r.pid);
            let process_id = key.into_process_id();
            let exe_path = match &r.exe_path {
                Some(p) => Some(p.clone()),
                None => None,
            };
            let data = ProcessData {
                process_id,
                name,
                parent,
                exe_path,
                cpu_usage: Some(r.cpu_usage),
                gpu_usage: None,
                ram_usage: Some(r.ram_usage),
                read_bytes: Some(r.read_bytes),
                written_bytes: Some(r.written_bytes),
            };
            out.push(data);
            j = j + 1;
        }
        ProcessesData(out)
    }
}

} // verus!
