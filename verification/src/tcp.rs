use vstd::prelude::*;
use vstd::utf8::encode_utf8;
use std::collections::HashMap;

use crate::hash::{append_be16, append_str, be16, digest_id, digest_to_id};
use crate::net::{ip_text, ip_to_string, SocketAddress};
use crate::processes::ProcessID;
use crate::text::{lemma_parse_unsigned_bound, parse_unsigned, parse_unsigned_spec, split_whitespace, ws_tokens};
use crate::sensors::SensorError;
use crate::units::Byte;

verus! {

broadcast use vstd::std_specs::hash::group_hash_axioms;

/// Identifier of a TCP connection on a machine.
#[derive(Debug, Clone, Copy, PartialEq, Eq, Hash)]
pub struct TCPConnectionID(pub u64);

/// One established TCP connection.
#[derive(Debug, Clone, PartialEq, Eq)]
pub struct TCPConnectionData {
    pub connection_id: TCPConnectionID,
    pub local_addr: SocketAddress,
    pub remote_addr: SocketAddress,
    pub maybe_client: Option<bool>,
    pub local_process_id: Option<ProcessID>,
    pub recv_bytes: Option<Byte>,
    pub sent_bytes: Option<Byte>,
}

/// The TCP connections seen in one collection.
#[derive(Debug, Clone)]
pub struct TCPConnectionsData(pub Vec<TCPConnectionData>);

/// The bytes hashed into a connection's identifier: the machine name, then for the
/// local and then the remote end the address text and the port (big-endian).
pub open spec fn tcp_key_bytes(machine: Seq<char>, local: SocketAddress, remote: SocketAddress) -> Seq<
    u8,
> {
    encode_utf8(machine) + encode_utf8(ip_text(local.ip)) + be16(local.port) + encode_utf8(
        ip_text(remote.ip),
    ) + be16(remote.port)
}

/// The identifier of a connection seen from `machine`.
pub open spec fn tcp_connection_id(machine: Seq<char>, local: SocketAddress, remote: SocketAddress) -> u64 {
    digest_id(tcp_key_bytes(machine, local, remote)) as u64
}

/// A TCP connection key used to identify a TCP connection on a machine.
pub struct TCPConnectionKey {
    pub machine_id: String,
    pub local_addr: SocketAddress,
    pub remote_addr: SocketAddress,
}

impl TCPConnectionKey {
    pub fn new(machine_id: String, local_addr: SocketAddress, remote_addr: SocketAddress) -> (r: Self)
        ensures
            r.machine_id@ == machine_id@,
            r.local_addr == local_addr,
            r.remote_addr == remote_addr,
    {
        TCPConnectionKey { machine_id, local_addr, remote_addr }
    }

    /// Hashes the key into the connection's identifier.
    pub fn into_tcp_connection_id(&self) -> (id: TCPConnectionID)
        ensures
            id.0 == tcp_connection_id(self.machine_id@, self.local_addr, self.remote_addr),
    {
        let mut bytes: Vec<u8> = Vec::new();
        append_str(&mut bytes, self.machine_id.as_str());
        let local_ip = ip_to_string(&self.local_addr.ip);
        append_str(&mut bytes, local_ip.as_str());
        append_be16(&mut bytes, self.local_addr.port);
        let remote_ip = ip_to_string(&self.remote_addr.ip);
        append_str(&mut bytes, remote_ip.as_str());
        append_be16(&mut bytes, self.remote_addr.port);
        proof {
            assert(bytes@ =~= tcp_key_bytes(self.machine_id@, self.local_addr, self.remote_addr));
        }
        TCPConnectionID(digest_to_id(bytes.as_slice()))
    }
}

/// Default ephemeral port range on Linux.
pub const LINUX_DEFAULT_MIN_EPHEMERAL_PORT: u16 = 32768;

pub const LINUX_DEFAULT_MAX_EPHEMERAL_PORT: u16 = 60999;

/// Default ephemeral port range on macOS and Windows.
pub const DEFAULT_MIN_EPHEMERAL_PORT: u16 = 49152;

pub const DEFAULT_MAX_EPHEMERAL_PORT: u16 = 65535;

/// Whether a connection whose local port is `port` is probably the client end: its
/// port lies strictly inside the ephemeral range.
pub open spec fn maybe_client_spec(range: (u16, u16), port: u16) -> Option<bool> {
    Some(range.0 < port && port < range.1)
}

pub fn maybe_client(range: (u16, u16), port: u16) -> (r: Option<bool>)
    ensures
        r == maybe_client_spec(range, port),
{
    if port > range.0 && port < range.1 {
        Some(true)
    } else {
        Some(false)
    }
}

/// A connection as the operating system reports it, before it is identified.
#[derive(Debug, Clone, Copy, PartialEq, Eq)]
pub struct ObservedConnection {
    pub local_addr: SocketAddress,
    pub remote_addr: SocketAddress,
    /// The process that owns the connection, when known.
    pub pid: Option<u32>,
    pub recv_bytes: Option<Byte>,
    pub sent_bytes: Option<Byte>,
}

/// The record kept for an observed connection.
pub open spec fn connection_record(machine: Seq<char>, range: (u16, u16), o: ObservedConnection) -> TCPConnectionData {
    TCPConnectionData {
        connection_id: TCPConnectionID(tcp_connection_id(machine, o.local_addr, o.remote_addr)),
        local_addr: o.local_addr,
        remote_addr: o.remote_addr,
        maybe_client: maybe_client_spec(range, o.local_addr.port),
        local_process_id: None,
        recv_bytes: o.recv_bytes,
        sent_bytes: o.sent_bytes,
    }
}

/// A connection keeps its identifier across collections and port ranges: it depends on
/// the machine and the two endpoints alone.
pub proof fn law_connection_id_is_stable(
    machine: Seq<char>,
    range1: (u16, u16),
    o1: ObservedConnection,
    range2: (u16, u16),
    o2: ObservedConnection,
)
    requires
        o1.local_addr == o2.local_addr,
        o1.remote_addr == o2.remote_addr,
    ensures
        connection_record(machine, range1, o1).connection_id == connection_record(
            machine,
            range2,
            o2,
        ).connection_id,
{
}

/// The records of observed connections, in order, and the map from connection
/// identifier to owning process (a later observation of one connection wins).
pub open spec fn observed_scan(machine: Seq<char>, range: (u16, u16), obs: Seq<ObservedConnection>) -> (Seq<
    TCPConnectionData,
>, Map<u64, u32>)
    decreases obs.len(),
{
    if obs.len() == 0 {
        (seq![], Map::empty())
    } else {
        let (recs, pids) = observed_scan(machine, range, obs.drop_last());
        let o = obs.last();
        let rec = connection_record(machine, range, o);
        (
            recs.push(rec),
            match o.pid {
                Some(pid) => pids.insert(rec.connection_id.0, pid),
                None => pids,
            },
        )
    }
}

/// Identifies every observed connection; fills `id_to_pid` with the owners.
fn record_observed(
    machine_name: &String,
    range: (u16, u16),
    obs: &Vec<ObservedConnection>,
    id_to_pid: &mut HashMap<u64, u32>,
) -> (recs: Vec<TCPConnectionData>)
    requires
        old(id_to_pid)@ == Map::<u64, u32>::empty(),
    ensures
        recs@ == observed_scan(machine_name@, range, obs@).0,
        final(id_to_pid)@ == observed_scan(machine_name@, range, obs@).1,
{
    let mut recs: Vec<TCPConnectionData> = Vec::new();
    let mut i: usize = 0;
    while i < obs.len()
        invariant
            i <= obs@.len(),
            recs@ == observed_scan(machine_name@, range, obs@.take(i as int)).0,
            id_to_pid@ == observed_scan(machine_name@, range, obs@.take(i as int)).1,
        decreases obs@.len() - i,
    {
        let o = obs[i];
        proof {
            assert(obs@.take(i + 1).drop_last() =~= obs@.take(i as int));
        }
        let key = TCPConnectionKey::new(machine_name.clone(), o.local_addr, o.remote_addr);
        let id = key.into_tcp_connection_id();
        match o.pid {
            Some(pid) => {
                id_to_pid.insert(id.0, pid);
            },
            None => {},
        }
        let data = TCPConnectionData {
            connection_id: id,
            local_addr: o.local_addr,
            remote_addr: o.remote_addr,
            maybe_client: maybe_client(range, o.local_addr.port()),
            local_process_id: None,
            recv_bytes: o.recv_bytes,
            sent_bytes: o.sent_bytes,
        };
        recs.push(data);
        i = i + 1;
    }
    proof {
        assert(obs@.take(obs@.len() as int) =~= obs@);
    }
    recs
}

/// The ephemeral port range that the text of `/proc/sys/net/ipv4/ip_local_port_range`
/// gives: its first two whitespace-separated numbers, each falling back to the Linux
/// default when it is missing or not a port number.
pub open spec fn linux_port_range(text: Option<Seq<char>>) -> (u16, u16) {
    match text {
        None => (LINUX_DEFAULT_MIN_EPHEMERAL_PORT, LINUX_DEFAULT_MAX_EPHEMERAL_PORT),
        Some(t) => {
            let tokens = ws_tokens(t);
            (
                if tokens.len() > 0 && parse_unsigned_spec(tokens[0], 65535) is Ok {
                    parse_unsigned_spec(tokens[0], 65535)->Ok_0 as u16
                } else {
                    LINUX_DEFAULT_MIN_EPHEMERAL_PORT
                },
                if tokens.len() > 1 && parse_unsigned_spec(tokens[1], 65535) is Ok {
                    parse_unsigned_spec(tokens[1], 65535)->Ok_0 as u16
                } else {
                    LINUX_DEFAULT_MAX_EPHEMERAL_PORT
                },
            )
        },
    }
}

/// The Linux range comes from the whitespace-separated tokens of
/// `ip_local_port_range`: a token that reads as a port (decimal digits after an optional
/// `+`, at most 65535) gives the minimum (first token) or the maximum (second token);
/// a missing or unreadable token gives 32768 for the minimum and 60999 for the maximum,
/// and so does an unreadable file.
pub proof fn law_linux_port_range_from_tokens(text: Option<Seq<char>>)
    ensures
        text is None ==> linux_port_range(text) == (32768u16, 60999u16),
        text matches Some(t) ==> ({
            let tokens = ws_tokens(t);
            let (lo, hi) = linux_port_range(text);
            &&& (tokens.len() > 0 && parse_unsigned_spec(tokens[0], 65535) is Ok ==> lo
                == parse_unsigned_spec(tokens[0], 65535)->Ok_0 && parse_unsigned_spec(tokens[0], 65535)->Ok_0 <= 65535)
            &&& (!(tokens.len() > 0 && parse_unsigned_spec(tokens[0], 65535) is Ok) ==> lo == 32768)
            &&& (tokens.len() > 1 && parse_unsigned_spec(tokens[1], 65535) is Ok ==> hi
                == parse_unsigned_spec(tokens[1], 65535)->Ok_0 && parse_unsigned_spec(tokens[1], 65535)->Ok_0 <= 65535)
            &&& (!(tokens.len() > 1 && parse_unsigned_spec(tokens[1], 65535) is Ok) ==> hi == 60999)
        }),
{
    if let Some(t) = text {
        let tokens = ws_tokens(t);
        if tokens.len() > 0 {
            lemma_parse_unsigned_bound(tokens[0], 65535);
        }
        if tokens.len() > 1 {
            lemma_parse_unsigned_bound(tokens[1], 65535);
        }
    }
}

/// Reads a port number from a token, or gives `default`.
fn port_or(tokens: &Vec<String>, i: usize, default: u16) -> (p: u16)
    ensures
        p == (if i < tokens@.len() && parse_unsigned_spec(tokens@[i as int]@, 65535) is Ok {
            parse_unsigned_spec(tokens@[i as int]@, 65535)->Ok_0 as u16
        } else {
            default
        }),
{
    if i < tokens.len() {
        match parse_unsigned(tokens[i].as_str(), 65535) {
            Ok(v) => v as u16,
            Err(_) => default,
        }
    } else {
        default
    }
}

/// The Linux ephemeral port range from the text of `ip_local_port_range`, `None` when
/// the file could not be read.
pub fn get_ephemeral_port_range(text: Option<&str>) -> (range: (u16, u16))
    ensures
        range == linux_port_range(
            match text {
                Some(t) => Some(t@),
                None => None,
            },
        ),
{
    match text {
        None => (LINUX_DEFAULT_MIN_EPHEMERAL_PORT, LINUX_DEFAULT_MAX_EPHEMERAL_PORT),
        Some(t) => {
            let tokens = split_whitespace(t);
            proof {
                assert(crate::text::string_views(tokens@).len() == tokens@.len());
                if tokens@.len() > 0 {
                    assert(crate::text::string_views(tokens@)[0] == tokens@[0]@);
                }
                if tokens@.len() > 1 {
                    assert(crate::text::string_views(tokens@)[1] == tokens@[1]@);
                }
            }
            let min = port_or(&tokens, 0, LINUX_DEFAULT_MIN_EPHEMERAL_PORT);
            let max = port_or(&tokens, 1, LINUX_DEFAULT_MAX_EPHEMERAL_PORT);
            (min, max)
        },
    }
}

/// Collecting keeps one record per observed connection, in order, and the owners map
/// holds exactly the identifiers of the observed connections whose owner is known.
pub proof fn law_records_match_observations(machine: Seq<char>, range: (u16, u16), obs: Seq<ObservedConnection>)
    ensures
        ({
            let (recs, pids) = observed_scan(machine, range, obs);
            &&& recs.len() == obs.len()
            &&& forall|i: int| 0 <= i < obs.len() ==> #[trigger] recs[i] == connection_record(machine, range, obs[i])
            &&& forall|i: int| 0 <= i < obs.len() && (#[trigger] obs[i]).pid is Some ==> pids.contains_key(recs[i].connection_id.0)
            &&& forall|k: u64| pids.contains_key(k) ==> exists|i: int| 0 <= i < obs.len() && (#[trigger] obs[i]).pid is Some
                && recs[i].connection_id.0 == k && pids[k] == obs[i].pid->Some_0
        }),
    decreases obs.len(),
{
    if obs.len() > 0 {
        let prefix = obs.drop_last();
        law_records_match_observations(machine, range, prefix);
        let (recs, pids) = observed_scan(machine, range, obs);
        let (precs, ppids) = observed_scan(machine, range, prefix);
        assert forall|i: int| 0 <= i < obs.len() && (#[trigger] obs[i]).pid is Some implies pids.contains_key(recs[i].connection_id.0) by {
            if i < prefix.len() {
                assert(prefix[i] == obs[i]);
                assert(recs[i] == precs[i]);
            }
        }
        assert forall|k: u64| pids.contains_key(k) implies exists|i: int| 0 <= i < obs.len() && (#[trigger] obs[i]).pid is Some
            && recs[i].connection_id.0 == k && pids[k] == obs[i].pid->Some_0 by {
            if ppids.contains_key(k) && (obs.last().pid is None || recs[obs.len() - 1].connection_id.0 != k) {
                let i = choose|i: int| 0 <= i < prefix.len() && (#[trigger] prefix[i]).pid is Some && precs[i].connection_id.0 == k
                    && ppids[k] == prefix[i].pid->Some_0;
                assert(obs[i] == prefix[i]);
                assert(recs[i] == precs[i]);
            } else {
                assert(obs[obs.len() - 1].pid is Some);
            }
        }
    }
}

/// A row of `/proc/net/tcp` or `/proc/net/tcp6`.
#[derive(Debug, Clone, Copy, PartialEq, Eq)]
pub struct LinuxTcpEntry {
    pub established: bool,
    pub local_address: SocketAddress,
    pub remote_address: SocketAddress,
    pub inode: u64,
}

/// The established connections among the rows, owned by the process that holds the
/// socket inode when one does.
pub open spec fn linux_observed(entries: Seq<LinuxTcpEntry>, inodes: Map<u64, u32>) -> Seq<
    ObservedConnection,
>
    decreases entries.len(),
{
    if entries.len() == 0 {
        seq![]
    } else {
        let prev = linux_observed(entries.drop_last(), inodes);
        let e = entries.last();
        if e.established {
            prev.push(
                ObservedConnection {
                    local_addr: e.local_address,
                    remote_addr: e.remote_address,
                    pid: if inodes.contains_key(e.inode) {
                        Some(inodes[e.inode])
                    } else {
                        None
                    },
                    recv_bytes: None,
                    sent_bytes: None,
                },
            )
        } else {
            prev
        }
    }
}

/// The observation of an established Linux row.
pub open spec fn linux_row_observation(e: LinuxTcpEntry, inodes: Map<u64, u32>) -> ObservedConnection {
    ObservedConnection {
        local_addr: e.local_address,
        remote_addr: e.remote_address,
        pid: if inodes.contains_key(e.inode) {
            Some(inodes[e.inode])
        } else {
            None
        },
        recv_bytes: None,
        sent_bytes: None,
    }
}

/// The established rows.
pub open spec fn linux_established(entries: Seq<LinuxTcpEntry>) -> Seq<LinuxTcpEntry> {
    entries.filter(|e: LinuxTcpEntry| e.established)
}

proof fn lemma_linux_observed_is_filter(entries: Seq<LinuxTcpEntry>, inodes: Map<u64, u32>)
    ensures
        linux_observed(entries, inodes) == linux_established(entries).map_values(
            |e: LinuxTcpEntry| linux_row_observation(e, inodes),
        ),
    decreases entries.len(),
{
    if entries.len() > 0 {
        lemma_linux_observed_is_filter(entries.drop_last(), inodes);
        reveal(Seq::filter);
        assert(linux_established(entries) == (if entries.last().established {
            linux_established(entries.drop_last()).push(entries.last())
        } else {
            linux_established(entries.drop_last())
        }));
        assert(linux_observed(entries, inodes) =~= linux_established(entries).map_values(
            |e: LinuxTcpEntry| linux_row_observation(e, inodes),
        ));
    }
}

/// A Linux collection keeps one record per established row, in order, identified by
/// the machine and the row's endpoints; the owners map holds, for every kept row whose
/// socket inode has an owner, the row's identifier, and nothing else, each with the
/// owner of such a row.
pub proof fn law_linux_collection(machine: Seq<char>, range: (u16, u16), entries: Seq<LinuxTcpEntry>, inodes: Map<u64, u32>)
    ensures
        ({
            let kept = linux_established(entries);
            let (recs, owners) = observed_scan(machine, range, linux_observed(entries, inodes));
            &&& recs.len() == kept.len()
            &&& forall|i: int| 0 <= i < kept.len() ==> (#[trigger] kept[i]).established
            &&& forall|i: int| 0 <= i < kept.len() ==> #[trigger] recs[i] == (TCPConnectionData {
                connection_id: TCPConnectionID(tcp_connection_id(machine, kept[i].local_address, kept[i].remote_address)),
                local_addr: kept[i].local_address,
                remote_addr: kept[i].remote_address,
                maybe_client: Some(range.0 < kept[i].local_address.port && kept[i].local_address.port < range.1),
                local_process_id: None,
                recv_bytes: None,
                sent_bytes: None,
            })
            &&& forall|i: int| 0 <= i < kept.len() && inodes.contains_key((#[trigger] kept[i]).inode)
                ==> owners.contains_key(recs[i].connection_id.0)
            &&& forall|k: u64| owners.contains_key(k) ==> exists|i: int| 0 <= i < kept.len()
                && inodes.contains_key((#[trigger] kept[i]).inode) && recs[i].connection_id.0 == k
                && owners[k] == inodes[kept[i].inode]
        }),
{
    let kept = linux_established(entries);
    let obs = linux_observed(entries, inodes);
    lemma_linux_observed_is_filter(entries, inodes);
    law_records_match_observations(machine, range, obs);
    let pred = |e: LinuxTcpEntry| e.established;
    assert forall|i: int| 0 <= i < kept.len() implies (#[trigger] kept[i]).established by {
        entries.lemma_filter_pred(pred, i);
    }
    let (recs, owners) = observed_scan(machine, range, obs);
    assert forall|i: int| 0 <= i < kept.len() && inodes.contains_key((#[trigger] kept[i]).inode)
        implies owners.contains_key(recs[i].connection_id.0) by {
        assert(obs[i] == linux_row_observation(kept[i], inodes));
    }
    assert forall|k: u64| owners.contains_key(k) implies exists|i: int| 0 <= i < kept.len()
        && inodes.contains_key((#[trigger] kept[i]).inode) && recs[i].connection_id.0 == k
        && owners[k] == inodes[kept[i].inode] by {
        let i = choose|i: int| 0 <= i < obs.len() && (#[trigger] obs[i]).pid is Some
            && recs[i].connection_id.0 == k && owners[k] == obs[i].pid->Some_0;
        assert(obs[i] == linux_row_observation(kept[i], inodes));
    }
}

fn linux_observe(entries: &Vec<LinuxTcpEntry>, inode_to_pid: &HashMap<u64, u32>) -> (obs: Vec<
    ObservedConnection,
>)
    ensures
        obs@ == linux_observed(entries@, inode_to_pid@),
{
    let mut obs: Vec<ObservedConnection> = Vec::new();
    let mut i: usize = 0;
    while i < entries.len()
        invariant
            i <= entries@.len(),
            obs@ == linux_observed(entries@.take(i as int), inode_to_pid@),
        decreases entries@.len() - i,
    {
        let e = entries[i];
        proof {
            assert(entries@.take(i + 1).drop_last() =~= entries@.take(i as int));
        }
        if e.established {
            let pid = match inode_to_pid.get(&e.inode) {
                Some(p) => Some(*p),
                None => None,
            };
            obs.push(
                ObservedConnection {
                    local_addr: e.local_address,
                    remote_addr: e.remote_address,
                    pid,
                    recv_bytes: None,
                    sent_bytes: None,
                },
            );
        }
        i = i + 1;
    }
    proof {
        assert(entries@.take(entries@.len() as int) =~= entries@);
    }
    obs
}

/// Linux TCP connections information collector.
pub struct LinuxTCPConnectionsCollector {
    ephemeral_port_range: (u16, u16),
    machine_name: String,
    id_to_pid: HashMap<u64, u32>,
}

impl LinuxTCPConnectionsCollector {
    pub closed spec fn port_range(&self) -> (u16, u16) {
        self.ephemeral_port_range
    }

    pub closed spec fn machine(&self) -> Seq<char> {
        self.machine_name@
    }

    pub closed spec fn owners(&self) -> Map<u64, u32> {
        self.id_to_pid@
    }

    /// A collector for `machine_name`; `port_range_text` is the content of
    /// `ip_local_port_range`, `None` when it could not be read.
    pub fn new(machine_name: String, port_range_text: Option<&str>) -> (r: Self)
        ensures
            r.machine() == machine_name@,
            r.port_range() == linux_port_range(
                match port_range_text {
                    Some(t) => Some(t@),
                    None => None,
                },
            ),
            r.owners() == Map::<u64, u32>::empty(),
    {
        Self {
            ephemeral_port_range: get_ephemeral_port_range(port_range_text),
            machine_name,
            id_to_pid: HashMap::new(),
        }
    }

    /// The owners of the connections seen in the last collection.
    pub fn id_to_pid_map(&self) -> (m: HashMap<u64, u32>)
        ensures
            m@ == self.owners(),
    {
        self.id_to_pid.clone()
    }

    /// Forgets the owners of the last collection.
    fn forget_owners(&mut self)
        ensures
            final(self).machine() == old(self).machine(),
            final(self).port_range() == old(self).port_range(),
            final(self).owners() == Map::<u64, u32>::empty(),
    {
        self.id_to_pid.clear();
    }

    /// Identifies the established connections among the IPv4 and IPv6 rows; the
    /// owners map is rebuilt from the processes that hold the socket inodes.
    pub fn collect_tcp_connections(
        &mut self,
        entries: &Vec<LinuxTcpEntry>,
        inode_to_pid: &HashMap<u64, u32>,
    ) -> (r: TCPConnectionsData)
        ensures
            final(self).machine() == old(self).machine(),
            final(self).port_range() == old(self).port_range(),
            r.0@ == observed_scan(
                old(self).machine(),
                old(self).port_range(),
                linux_observed(entries@, inode_to_pid@),
            ).0,
            final(self).owners() == observed_scan(
                old(self).machine(),
                old(self).port_range(),
                linux_observed(entries@, inode_to_pid@),
            ).1,
    {
        self.id_to_pid.clear();
        let obs = linux_observe(entries, inode_to_pid);
        let recs = record_observed(&self.machine_name, self.ephemeral_port_range, &obs, &mut self.id_to_pid);
        TCPConnectionsData(recs)
    }
}

/// A socket descriptor of a process, as libproc reports it on macOS.
#[derive(Debug, Clone, Copy, PartialEq, Eq)]
pub struct MacosSocket {
    pub pid: u32,
    pub is_tcp: bool,
    pub established: bool,
    pub local_address: SocketAddress,
    pub remote_address: SocketAddress,
}

/// The established TCP sockets, each owned by its process.
pub open spec fn macos_observed(sockets: Seq<MacosSocket>) -> Seq<ObservedConnection>
    decreases sockets.len(),
{
    if sockets.len() == 0 {
        seq![]
    } else {
        let prev = macos_observed(sockets.drop_last());
        let k = sockets.last();
        if k.is_tcp && k.established {
            prev.push(
                ObservedConnection {
                    local_addr: k.local_address,
                    remote_addr: k.remote_address,
                    pid: Some(k.pid),
                    recv_bytes: None,
                    sent_bytes: None,
                },
            )
        } else {
            prev
        }
    }
}

/// The observation of an established TCP socket on macOS.
pub open spec fn macos_socket_observation(k: MacosSocket) -> ObservedConnection {
    ObservedConnection {
        local_addr: k.local_address,
        remote_addr: k.remote_address,
        pid: Some(k.pid),
        recv_bytes: None,
        sent_bytes: None,
    }
}

/// The established TCP sockets.
pub open spec fn macos_established(sockets: Seq<MacosSocket>) -> Seq<MacosSocket> {
    sockets.filter(|k: MacosSocket| k.is_tcp && k.established)
}

proof fn lemma_macos_observed_is_filter(sockets: Seq<MacosSocket>)
    ensures
        macos_observed(sockets) == macos_established(sockets).map_values(|k: MacosSocket| macos_socket_observation(k)),
    decreases sockets.len(),
{
    if sockets.len() > 0 {
        lemma_macos_observed_is_filter(sockets.drop_last());
        reveal(Seq::filter);
        let k = sockets.last();
        assert(macos_established(sockets) == (if k.is_tcp && k.established {
            macos_established(sockets.drop_last()).push(k)
        } else {
            macos_established(sockets.drop_last())
        }));
        assert(macos_observed(sockets) =~= macos_established(sockets).map_values(
            |k: MacosSocket| macos_socket_observation(k),
        ));
    }
}

/// A macOS collection keeps one record per established TCP socket, in order,
/// identified by the machine and the socket's endpoints; the owners map holds the
/// identifier of every kept socket, and nothing else, each with the pid of a process
/// holding such a socket.
pub proof fn law_macos_collection(machine: Seq<char>, range: (u16, u16), sockets: Seq<MacosSocket>)
    ensures
        ({
            let kept = macos_established(sockets);
            let (recs, owners) = observed_scan(machine, range, macos_observed(sockets));
            &&& recs.len() == kept.len()
            &&& forall|i: int| 0 <= i < kept.len() ==> (#[trigger] kept[i]).is_tcp && kept[i].established
            &&& forall|i: int| 0 <= i < kept.len() ==> #[trigger] recs[i] == (TCPConnectionData {
                connection_id: TCPConnectionID(tcp_connection_id(machine, kept[i].local_address, kept[i].remote_address)),
                local_addr: kept[i].local_address,
                remote_addr: kept[i].remote_address,
                maybe_client: Some(range.0 < kept[i].local_address.port && kept[i].local_address.port < range.1),
                local_process_id: None,
                recv_bytes: None,
                sent_bytes: None,
            })
            &&& forall|i: int| 0 <= i < kept.len() ==> owners.contains_key((#[trigger] recs[i]).connection_id.0)
            &&& forall|k: u64| owners.contains_key(k) ==> exists|i: int| 0 <= i < kept.len()
                && (#[trigger] recs[i]).connection_id.0 == k && owners[k] == kept[i].pid
        }),
{
    let kept = macos_established(sockets);
    let obs = macos_observed(sockets);
    lemma_macos_observed_is_filter(sockets);
    law_records_match_observations(machine, range, obs);
    let pred = |k: MacosSocket| k.is_tcp && k.established;
    assert forall|i: int| 0 <= i < kept.len() implies (#[trigger] kept[i]).is_tcp && kept[i].established by {
        sockets.lemma_filter_pred(pred, i);
    }
    let (recs, owners) = observed_scan(machine, range, obs);
    assert forall|i: int| 0 <= i < kept.len() implies owners.contains_key((#[trigger] recs[i]).connection_id.0) by {
        assert(obs[i] == macos_socket_observation(kept[i]));
    }
    assert forall|k: u64| owners.contains_key(k) implies exists|i: int| 0 <= i < kept.len()
        && (#[trigger] recs[i]).connection_id.0 == k && owners[k] == kept[i].pid by {
        let i = choose|i: int| 0 <= i < obs.len() && (#[trigger] obs[i]).pid is Some
            && recs[i].connection_id.0 == k && owners[k] == obs[i].pid->Some_0;
        assert(obs[i] == macos_socket_observation(kept[i]));
    }
}

fn macos_observe(sockets: &Vec<MacosSocket>) -> (obs: Vec<ObservedConnection>)
    ensures
        obs@ == macos_observed(sockets@),
{
    let mut obs: Vec<ObservedConnection> = Vec::new();
    let mut i: usize = 0;
    while i < sockets.len()
        invariant
            i <= sockets@.len(),
            obs@ == macos_observed(sockets@.take(i as int)),
        decreases sockets@.len() - i,
    {
        let k = sockets[i];
        proof {
            assert(sockets@.take(i + 1).drop_last() =~= sockets@.take(i as int));
        }
        if k.is_tcp && k.established {
            obs.push(
                ObservedConnection {
                    local_addr: k.local_address,
                    remote_addr: k.remote_address,
                    pid: Some(k.pid),
                    recv_bytes: None,
                    sent_bytes: None,
                },
            );
        }
        i = i + 1;
    }
    proof {
        assert(sockets@.take(sockets@.len() as int) =~= sockets@);
    }
    obs
}

/// A sysctl port value as a port: its low 16 bits, or `default` when it could not be
/// read.
pub open spec fn sysctl_port(v: Option<u32>, default: u16) -> u16 {
    match v {
        Some(x) => (x % 65536) as u16,
        None => default,
    }
}

/// macOS TCP connections information collector.
pub struct MacosTCPConnectionsCollector {
    ephemeral_port_range: (u16, u16),
    machine_name: String,
    id_to_pid: HashMap<u64, u32>,
}

impl MacosTCPConnectionsCollector {
    pub closed spec fn port_range(&self) -> (u16, u16) {
        self.ephemeral_port_range
    }

    pub closed spec fn machine(&self) -> Seq<char> {
        self.machine_name@
    }

    pub closed spec fn owners(&self) -> Map<u64, u32> {
        self.id_to_pid@
    }

    /// A collector for `machine_name`; `port_first` and `port_last` are the values of
    /// the sysctls `net.inet.ip.portrange.first` and `.last`, `None` when unreadable
    /// (each then falls back to the highest port, 65535).
    pub fn new(machine_name: String, port_first: Option<u32>, port_last: Option<u32>) -> (r: Self)
        ensures
            r.machine() == machine_name@,
            r.port_range() == (
                sysctl_port(port_first, DEFAULT_MAX_EPHEMERAL_PORT),
                sysctl_port(port_last, DEFAULT_MAX_EPHEMERAL_PORT),
            ),
            r.owners() == Map::<u64, u32>::empty(),
    {
        let min = match port_first {
            Some(v) => (v % 65536) as u16,
            None => DEFAULT_MAX_EPHEMERAL_PORT,
        };
        let max = match port_last {
            Some(v) => (v % 65536) as u16,
            None => DEFAULT_MAX_EPHEMERAL_PORT,
        };
        Self { ephemeral_port_range: (min, max), machine_name, id_to_pid: HashMap::new() }
    }

    /// The owners of the connections seen in the last collection.
    pub fn id_to_pid_map(&self) -> (m: HashMap<u64, u32>)
        ensures
            m@ == self.owners(),
    {
        self.id_to_pid.clone()
    }

    /// Forgets the owners of the last collection.
    fn forget_owners(&mut self)
        ensures
            final(self).machine() == old(self).machine(),
            final(self).port_range() == old(self).port_range(),
            final(self).owners() == Map::<u64, u32>::empty(),
    {
        self.id_to_pid.clear();
    }

    /// Identifies the established TCP sockets among the processes' socket descriptors.
    pub fn collect_tcp_connections(&mut self, sockets: &Vec<MacosSocket>) -> (r: TCPConnectionsData)
        ensures
            final(self).machine() == old(self).machine(),
            final(self).port_range() == old(self).port_range(),
            r.0@ == observed_scan(old(self).machine(), old(self).port_range(), macos_observed(sockets@)).0,
            final(self).owners() == observed_scan(
                old(self).machine(),
                old(self).port_range(),
                macos_observed(sockets@),
            ).1,
    {
        self.id_to_pid.clear();
        let obs = macos_observe(sockets);
        let recs = record_observed(&self.machine_name, self.ephemeral_port_range, &obs, &mut self.id_to_pid);
        TCPConnectionsData(recs)
    }
}

/// A row of the Windows extended TCP table, with the bandwidth figures read for it.
#[derive(Debug, Clone, Copy, PartialEq, Eq)]
pub struct WindowsTcpRow {
    pub local_address: SocketAddress,
    pub remote_address: SocketAddress,
    pub owning_pid: u32,
    pub recv_bytes: Option<Byte>,
    pub sent_bytes: Option<Byte>,
}

/// Every row is a connection owned by its process.
pub open spec fn windows_observed(rows: Seq<WindowsTcpRow>) -> Seq<ObservedConnection> {
    rows.map_values(
        |w: WindowsTcpRow|
            ObservedConnection {
                local_addr: w.local_address,
                remote_addr: w.remote_address,
                pid: Some(w.owning_pid),
                recv_bytes: w.recv_bytes,
                sent_bytes: w.sent_bytes,
            },
    )
}

fn windows_observe(rows: &Vec<WindowsTcpRow>) -> (obs: Vec<ObservedConnection>)
    ensures
        obs@ == windows_observed(rows@),
{
    let mut obs: Vec<ObservedConnection> = Vec::new();
    let mut i: usize = 0;
    while i < rows.len()
        invariant
            i <= rows@.len(),
            obs@ == windows_observed(rows@.take(i as int)),
        decreases rows@.len() - i,
    {
        let w = rows[i];
        obs.push(
            ObservedConnection {
                local_addr: w.local_address,
                remote_addr: w.remote_address,
                pid: Some(w.owning_pid),
                recv_bytes: w.recv_bytes,
                sent_bytes: w.sent_bytes,
            },
        );
        i = i + 1;
        proof {
            assert(windows_observed(rows@.take(i as int)) =~= windows_observed(
                rows@.take(i - 1),
            ).push(obs@.last()));
        }
    }
    proof {
        assert(rows@.take(rows@.len() as int) =~= rows@);
    }
    obs
}

/// Windows TCP connections information collector.
pub struct WindowsTCPConnectionsCollector {
    ephemeral_port_range: (u16, u16),
    machine_name: String,
    id_to_pid: HashMap<u64, u32>,
}

impl WindowsTCPConnectionsCollector {
    pub closed spec fn port_range(&self) -> (u16, u16) {
        self.ephemeral_port_range
    }

    pub closed spec fn machine(&self) -> Seq<char> {
        self.machine_name@
    }

    pub closed spec fn owners(&self) -> Map<u64, u32> {
        self.id_to_pid@
    }

    pub fn new(machine_name: String) -> (r: Self)
        ensures
            r.machine() == machine_name@,
            r.port_range() == (DEFAULT_MIN_EPHEMERAL_PORT, DEFAULT_MAX_EPHEMERAL_PORT),
            r.owners() == Map::<u64, u32>::empty(),
    {
        Self {
            ephemeral_port_range: (DEFAULT_MIN_EPHEMERAL_PORT, DEFAULT_MAX_EPHEMERAL_PORT),
            machine_name,
            id_to_pid: HashMap::new(),
        }
    }

    /// The owners of the connections seen in the last collection.
    pub fn id_to_pid_map(&self) -> (m: HashMap<u64, u32>)
        ensures
            m@ == self.owners(),
    {
        self.id_to_pid.clone()
    }

    /// Forgets the owners of the last collection.
    fn forget_owners(&mut self)
        ensures
            final(self).machine() == old(self).machine(),
            final(self).port_range() == old(self).port_range(),
            final(self).owners() == Map::<u64, u32>::empty(),
    {
        self.id_to_pid.clear();
    }

    /// Identifies the rows of the IPv4 and then the IPv6 table.
    pub fn collect_tcp_connections(&mut self, rows: &Vec<WindowsTcpRow>) -> (r: TCPConnectionsData)
        ensures
            final(self).machine() == old(self).machine(),
            final(self).port_range() == old(self).port_range(),
            r.0@ == observed_scan(old(self).machine(), old(self).port_range(), windows_observed(rows@)).0,
            final(self).owners() == observed_scan(
                old(self).machine(),
                old(self).port_range(),
                windows_observed(rows@),
            ).1,
    {
        self.id_to_pid.clear();
        let obs = windows_observe(rows);
        let recs = record_observed(&self.machine_name, self.ephemeral_port_range, &obs, &mut self.id_to_pid);
        TCPConnectionsData(recs)
    }
}

/// The platform the collector runs on, with what its collector is set up from.
pub enum Platform {
    Linux { port_range_text: Option<String> },
    MacOS { port_first: Option<u32>, port_last: Option<u32> },
    Windows,
    Other,
}

/// Per OS TCP connections information collectors.
pub enum TCPConnectionsCollector {
    EmptyCollector,
    LinuxCollector(LinuxTCPConnectionsCollector),
    MacOSCollector(MacosTCPConnectionsCollector),
    WindowsCollector(WindowsTCPConnectionsCollector),
}

/// Whether `c` is the collector set up for `platform` on the machine `hostname`, before
/// any collection.
pub open spec fn collector_for(c: TCPConnectionsCollector, hostname: Seq<char>, platform: Platform) -> bool {
    match platform {
        Platform::Linux { port_range_text } => c matches TCPConnectionsCollector::LinuxCollector(l)
            && l.machine() == hostname && l.owners() == Map::<u64, u32>::empty() && l.port_range()
            == linux_port_range(
            match port_range_text {
                Some(t) => Some(t@),
                None => None,
            },
        ),
        Platform::MacOS { port_first, port_last } => c matches TCPConnectionsCollector::MacOSCollector(m)
            && m.machine() == hostname && m.owners() == Map::<u64, u32>::empty() && m.port_range() == (
            sysctl_port(port_first, DEFAULT_MAX_EPHEMERAL_PORT),
            sysctl_port(port_last, DEFAULT_MAX_EPHEMERAL_PORT),
        ),
        Platform::Windows => c matches TCPConnectionsCollector::WindowsCollector(w) && w.machine()
            == hostname && w.owners() == Map::<u64, u32>::empty() && w.port_range() == (
            DEFAULT_MIN_EPHEMERAL_PORT,
            DEFAULT_MAX_EPHEMERAL_PORT,
        ),
        Platform::Other => c is EmptyCollector,
    }
}

/// The collector adapted to the platform.
pub fn create_collector(hostname: String, platform: Platform) -> (c: TCPConnectionsCollector)
    ensures
        collector_for(c, hostname@, platform),
{
    match platform {
        Platform::Linux { port_range_text } => {
            let text: Option<&str> = match &port_range_text {
                Some(t) => Some(t.as_str()),
                None => None,
            };
            TCPConnectionsCollector::LinuxCollector(LinuxTCPConnectionsCollector::new(hostname, text))
        },
        Platform::MacOS { port_first, port_last } => TCPConnectionsCollector::MacOSCollector(
            MacosTCPConnectionsCollector::new(hostname, port_first, port_last),
        ),
        Platform::Windows => TCPConnectionsCollector::WindowsCollector(
            WindowsTCPConnectionsCollector::new(hostname),
        ),
        Platform::Other => TCPConnectionsCollector::EmptyCollector,
    }
}

/// What the platform's connection tables held at one collection.
pub enum TcpTables {
    Linux { entries: Vec<LinuxTcpEntry>, inode_to_pid: HashMap<u64, u32> },
    MacOS { sockets: Vec<MacosSocket> },
    Windows { rows: Vec<WindowsTcpRow> },
}

/// The records and owners that collecting `tables` gives with the collector `c`, when
/// the tables are those of its platform.
pub open spec fn collected(c: TCPConnectionsCollector, tables: TcpTables) -> Option<(Seq<TCPConnectionData>, Map<u64, u32>)> {
    match c {
        TCPConnectionsCollector::LinuxCollector(l) => match tables {
            TcpTables::Linux { entries, inode_to_pid } => Some(
                observed_scan(l.machine(), l.port_range(), linux_observed(entries@, inode_to_pid@)),
            ),
            _ => None,
        },
        TCPConnectionsCollector::MacOSCollector(m) => match tables {
            TcpTables::MacOS { sockets } => Some(observed_scan(m.machine(), m.port_range(), macos_observed(sockets@))),
            _ => None,
        },
        TCPConnectionsCollector::WindowsCollector(w) => match tables {
            TcpTables::Windows { rows } => Some(observed_scan(w.machine(), w.port_range(), windows_observed(rows@))),
            _ => None,
        },
        TCPConnectionsCollector::EmptyCollector => None,
    }
}

/// Whether two collectors are of one platform, machine and port range.
pub open spec fn same_setup(a: TCPConnectionsCollector, b: TCPConnectionsCollector) -> bool {
    match (a, b) {
        (TCPConnectionsCollector::LinuxCollector(x), TCPConnectionsCollector::LinuxCollector(y)) => x.machine()
            == y.machine() && x.port_range() == y.port_range(),
        (TCPConnectionsCollector::MacOSCollector(x), TCPConnectionsCollector::MacOSCollector(y)) => x.machine()
            == y.machine() && x.port_range() == y.port_range(),
        (TCPConnectionsCollector::WindowsCollector(x), TCPConnectionsCollector::WindowsCollector(y)) => x.machine()
            == y.machine() && x.port_range() == y.port_range(),
        (TCPConnectionsCollector::EmptyCollector, TCPConnectionsCollector::EmptyCollector) => true,
        _ => false,
    }
}

/// The owners a collector holds (none without a collector).
pub open spec fn collector_owners(c: TCPConnectionsCollector) -> Map<u64, u32> {
    match c {
        TCPConnectionsCollector::LinuxCollector(x) => x.owners(),
        TCPConnectionsCollector::MacOSCollector(x) => x.owners(),
        TCPConnectionsCollector::WindowsCollector(x) => x.owners(),
        TCPConnectionsCollector::EmptyCollector => Map::empty(),
    }
}

/// TCP connections sensor that collects information about the machine's connections.
pub struct TCPConnectionsSensor {
    pub collector: TCPConnectionsCollector,
}

impl TCPConnectionsSensor {
    /// A sensor with the collector adapted to the platform.
    pub fn new(hostname: String, platform: Platform) -> (r: Self)
        ensures
            collector_for(r.collector, hostname@, platform),
    {
        Self { collector: create_collector(hostname, platform) }
    }

    /// The map linking connection identifiers to the processes that used them during
    /// the last collection; `None` on a platform without a collector.
    pub fn id_to_pid_map(&self) -> (m: Option<HashMap<u64, u32>>)
        ensures
            match self.collector {
                TCPConnectionsCollector::EmptyCollector => m is None,
                TCPConnectionsCollector::LinuxCollector(c) => m is Some && m->Some_0@ == c.owners(),
                TCPConnectionsCollector::MacOSCollector(c) => m is Some && m->Some_0@ == c.owners(),
                TCPConnectionsCollector::WindowsCollector(c) => m is Some && m->Some_0@ == c.owners(),
            },
    {
        match &self.collector {
            TCPConnectionsCollector::LinuxCollector(c) => Some(c.id_to_pid_map()),
            TCPConnectionsCollector::MacOSCollector(c) => Some(c.id_to_pid_map()),
            TCPConnectionsCollector::WindowsCollector(c) => Some(c.id_to_pid_map()),
            TCPConnectionsCollector::EmptyCollector => None,
        }
    }
    /// A collection: the connections of the platform's tables (read by the caller, or
    /// the text of the error that stopped the read). Without a collector, or with tables
    /// of another platform, the reading is not supported; a failed read forgets the
    /// owners of the last collection.
    pub fn read_full_data(&mut self, tables: Result<TcpTables, String>) -> (r: Result<TCPConnectionsData, SensorError>)
        ensures
            same_setup(final(self).collector, old(self).collector),
            match tables {
                Err(e) => if old(self).collector is EmptyCollector {
                    r == Err::<TCPConnectionsData, SensorError>(SensorError::NotSupported)
                } else {
                    r == Err::<TCPConnectionsData, SensorError>(SensorError::ReadError(e))
                        && collector_owners(final(self).collector) == Map::<u64, u32>::empty()
                },
                Ok(t) => match collected(old(self).collector, t) {
                    Some(res) => r matches Ok(d) && d.0@ == res.0 && collector_owners(final(self).collector)
                        == res.1,
                    None => r == Err::<TCPConnectionsData, SensorError>(SensorError::NotSupported)
                        && collector_owners(final(self).collector) == collector_owners(old(self).collector),
                },
            },
    {
        match tables {
            Err(e) => match &mut self.collector {
                TCPConnectionsCollector::EmptyCollector => Err(SensorError::NotSupported),
                TCPConnectionsCollector::LinuxCollector(c) => {
                    c.forget_owners();
                    Err(SensorError::ReadError(e))
                },
                TCPConnectionsCollector::MacOSCollector(c) => {
                    c.forget_owners();
                    Err(SensorError::ReadError(e))
                },
                TCPConnectionsCollector::WindowsCollector(c) => {
                    c.forget_owners();
                    Err(SensorError::ReadError(e))
                },
            },
            Ok(t) => match &mut self.collector {
                TCPConnectionsCollector::EmptyCollector => Err(SensorError::NotSupported),
                TCPConnectionsCollector::LinuxCollector(c) => match t {
                    TcpTables::Linux { entries, inode_to_pid } => Ok(c.collect_tcp_connections(&entries, &inode_to_pid)),
                    _ => Err(SensorError::NotSupported),
                },
                TCPConnectionsCollector::MacOSCollector(c) => match t {
                    TcpTables::MacOS { sockets } => Ok(c.collect_tcp_connections(&sockets)),
                    _ => Err(SensorError::NotSupported),
                },
                TCPConnectionsCollector::WindowsCollector(c) => match t {
                    TcpTables::Windows { rows } => Ok(c.collect_tcp_connections(&rows)),
                    _ => Err(SensorError::NotSupported),
                },
            },
        }
    }
}

} // verus!
