use vstd::prelude::*;
use crate::bytes::{bytes_eq, copy_bytes, opt_bytes_eq, opt_view};

verus! {

/// Width, in bits, of the attestation-subnet bitfield advertised in the node record.
pub const SUBNET_BITFIELD_LENGTH: usize = 64;

/// The settings that shape the node record.
pub struct EnrConfig {
    /// The IPv4 address to advertise, as a big-endian integer.
    pub enr_address: Option<u32>,
    /// The UDP port to advertise.
    pub enr_udp_port: Option<u16>,
    /// The TCP port to advertise, when it differs from the listening port.
    pub enr_tcp_port: Option<u16>,
    /// The TCP port the swarm listens on.
    pub libp2p_port: u16,
}

/// The content of a node record: everything but its signature.
pub struct NodeRecord {
    pub node_id: Vec<u8>,
    pub seq: u64,
    pub ip: Option<u32>,
    pub udp: Option<u16>,
    pub tcp: Option<u16>,
    pub eth2: Option<Vec<u8>>,
    pub attnets: Option<Vec<u8>>,
}

/// The mathematical value of a node record.
pub struct RecordView {
    pub node_id: Seq<u8>,
    pub seq: u64,
    pub ip: Option<u32>,
    pub udp: Option<u16>,
    pub tcp: Option<u16>,
    pub eth2: Option<Seq<u8>>,
    pub attnets: Option<Seq<u8>>,
}

impl View for NodeRecord {
    type V = RecordView;

    open spec fn view(&self) -> RecordView {
        RecordView {
            node_id: self.node_id@,
            seq: self.seq,
            ip: self.ip,
            udp: self.udp,
            tcp: self.tcp,
            eth2: opt_view(&self.eth2),
            attnets: opt_view(&self.attnets),
        }
    }
}

/// How a node record was settled at startup.
pub enum EnrOutcome {
    /// The record on disk still describes this node; it is used as it is.
    Loaded(NodeRecord),
    /// A record was built (with its sequence number raised past the one on disk
    /// where that one is outdated); it has to be signed and saved.
    Built(NodeRecord),
}

/// Why a node record could not be settled.
#[derive(PartialEq, Eq, Structural, Debug)]
pub enum EnrError {
    /// The record on disk has the largest sequence number; it has to be removed.
    SequenceOverflow,
}

impl EnrError {
    /// A message for the user.
    pub fn message(&self) -> (r: &'static str)
        ensures
            r@ == "ENR sequence number on file is too large. Remove it to generate a new NodeId"@,
    {
        proof {
            reveal_strlit("ENR sequence number on file is too large. Remove it to generate a new NodeId");
        }
        match self {
            EnrError::SequenceOverflow =>
                "ENR sequence number on file is too large. Remove it to generate a new NodeId",
        }
    }
}

/// The TCP port advertised for a configuration.
pub open spec fn advertised_tcp(config: EnrConfig) -> u16 {
    match config.enr_tcp_port {
        Some(p) => p,
        None => config.libp2p_port,
    }
}

/// The SSZ encoding of an empty bit vector of the subnet width: all bytes zero.
pub open spec fn empty_attnets() -> Seq<u8> {
    Seq::new((SUBNET_BITFIELD_LENGTH as nat + 7) / 8, |i: int| 0u8)
}

/// The record that a fresh start builds.
pub open spec fn built(node_id: Seq<u8>, config: EnrConfig, fork_id: Seq<u8>) -> RecordView {
    RecordView {
        node_id,
        seq: 1,
        ip: config.enr_address,
        udp: config.enr_udp_port,
        tcp: Some(advertised_tcp(config)),
        eth2: Some(fork_id),
        attnets: Some(empty_attnets()),
    }
}

/// Whether the record on disk may stand for the local one: fields the local
/// record leaves open (address, UDP port) take the disk's value.
pub open spec fn equivalent(local: RecordView, disk: RecordView) -> bool {
    &&& (local.ip is None || local.ip == disk.ip)
    &&& local.tcp == disk.tcp
    &&& local.eth2 == disk.eth2
    &&& (local.udp is None || local.udp == disk.udp)
    &&& local.attnets == disk.attnets
}

/// The record that settles startup, and whether it came from disk; `None` where
/// the sequence number on disk cannot be raised.
pub open spec fn settle(local: RecordView, disk: Option<RecordView>) -> Option<(RecordView, bool)> {
    match disk {
        Some(d) => if d.node_id == local.node_id {
            if equivalent(local, d) {
                Some((d, true))
            } else if d.seq < u64::MAX {
                Some((RecordView { seq: (d.seq + 1) as u64, ..local }, false))
            } else {
                None
            }
        } else {
            Some((local, false))
        },
        None => Some((local, false)),
    }
}

impl EnrOutcome {
    pub open spec fn record(self) -> RecordView {
        match self {
            EnrOutcome::Loaded(r) => r@,
            EnrOutcome::Built(r) => r@,
        }
    }

    pub open spec fn loaded(self) -> bool {
        self is Loaded
    }
}

/// The zero bytes of an empty subnet bitfield.
pub fn empty_attnets_bytes() -> (r: Vec<u8>)
    ensures
        r@ == empty_attnets(),
{
    let n: usize = (SUBNET_BITFIELD_LENGTH + 7) / 8;
    let mut r: Vec<u8> = Vec::new();
    let mut i: usize = 0;
    while i < n
        invariant
            n == (SUBNET_BITFIELD_LENGTH as nat + 7) / 8,
            0 <= i <= n,
            r@.len() == i,
            forall|j: int| 0 <= j < i ==> r@[j] == 0u8,
        decreases n - i,
    {
        r.push(0u8);
        i = i + 1;
    }
    assert(r@ =~= empty_attnets());
    r
}

/// Builds the record of a fresh start, at sequence number 1.
pub fn build_enr(node_id: &Vec<u8>, config: &EnrConfig, enr_fork_id: &Vec<u8>) -> (r: NodeRecord)
    ensures
        r@ == built(node_id@, *config, enr_fork_id@),
{
    let tcp = match config.enr_tcp_port {
        Some(p) => p,
        None => config.libp2p_port,
    };
    NodeRecord {
        node_id: copy_bytes(node_id),
        seq: 1,
        ip: config.enr_address,
        udp: config.enr_udp_port,
        tcp: Some(tcp),
        eth2: Some(copy_bytes(enr_fork_id)),
        attnets: Some(empty_attnets_bytes()),
    }
}

fn opt_u32_eq(a: Option<u32>, b: Option<u32>) -> (r: bool)
    ensures
        r == (a == b),
{
    match (a, b) {
        (Some(x), Some(y)) => x == y,
        (None, None) => true,
        _ => false,
    }
}

fn opt_u16_eq(a: Option<u16>, b: Option<u16>) -> (r: bool)
    ensures
        r == (a == b),
{
    match (a, b) {
        (Some(x), Some(y)) => x == y,
        (None, None) => true,
        _ => false,
    }
}

/// Decides whether the record on disk can be used in place of the local one.
pub fn compare_enr(local_enr: &NodeRecord, disk_enr: &NodeRecord) -> (r: bool)
    ensures
        r == equivalent(local_enr@, disk_enr@),
{
    (local_enr.ip.is_none() || opt_u32_eq(local_enr.ip, disk_enr.ip))
        && opt_u16_eq(local_enr.tcp, disk_enr.tcp)
        && opt_bytes_eq(&local_enr.eth2, &disk_enr.eth2)
        && (local_enr.udp.is_none() || opt_u16_eq(local_enr.udp, disk_enr.udp))
        && opt_bytes_eq(&local_enr.attnets, &disk_enr.attnets)
}

/// Settles the node record at startup: builds the local record and weighs it
/// against the one read from disk, if any. The disk copy is kept when it has the
/// same node id and is equivalent; with the same node id but a changed
/// configuration, the local record takes the next sequence number; a record of
/// another node is ignored.
pub fn build_or_load_enr(
    node_id: &Vec<u8>,
    config: &EnrConfig,
    enr_fork_id: &Vec<u8>,
    disk_enr: Option<NodeRecord>,
) -> (r: Result<EnrOutcome, EnrError>)
    ensures
        match settle(built(node_id@, *config, enr_fork_id@), opt_record(disk_enr)) {
            Some((rec, from_disk)) => r matches Ok(o) && o.record() == rec && o.loaded() == from_disk,
            None => r == Err::<EnrOutcome, EnrError>(EnrError::SequenceOverflow),
        },
{
    let mut local_enr = build_enr(node_id, config, enr_fork_id);
    match disk_enr {
        Some(disk) => {
            if bytes_eq(&local_enr.node_id, &disk.node_id) {
                if compare_enr(&local_enr, &disk) {
                    return Ok(EnrOutcome::Loaded(disk));
                }
                if disk.seq == u64::MAX {
                    return Err(EnrError::SequenceOverflow);
                }
                local_enr.seq = disk.seq + 1;
            }
            Ok(EnrOutcome::Built(local_enr))
        },
        None => Ok(EnrOutcome::Built(local_enr)),
    }
}

/// The view of an optional record.
pub open spec fn opt_record(r: Option<NodeRecord>) -> Option<RecordView> {
    match r {
        Some(x) => Some(x@),
        None => None,
    }
}

/// Whatever startup settles on is equivalent to the local record and carries its node id.
pub proof fn lemma_settled_matches_local(local: RecordView, disk: Option<RecordView>)
    requires
        settle(local, disk) is Some,
    ensures
        ({
            let rec = settle(local, disk).unwrap().0;
            rec.node_id == local.node_id && equivalent(local, rec)
        }),
{
}

/// A restart with the same key, configuration and fork id keeps the record that
/// the previous start settled on, sequence number included.
pub proof fn lemma_restart_keeps_record(
    node_id: Seq<u8>,
    config: EnrConfig,
    fork_id: Seq<u8>,
    disk: Option<RecordView>,
)
    requires
        settle(built(node_id, config, fork_id), disk) is Some,
    ensures
        ({
            let first = settle(built(node_id, config, fork_id), disk).unwrap().0;
            &&& settle(built(node_id, config, fork_id), Some(first)) == Some((first, true))
            &&& settle(built(node_id, config, fork_id), Some(first)).unwrap().0.seq == first.seq
        }),
{
    lemma_settled_matches_local(built(node_id, config, fork_id), disk);
}

/// After a start with one configuration, a restart with the same key and a
/// configuration whose record is no longer equivalent to the one settled on (a
/// changed TCP port, fork id or subnet field, or an address or UDP port that is
/// now given and differs) builds a new record whose sequence number is one past
/// the previous one.
pub proof fn lemma_changed_config_raises_seq(
    node_id: Seq<u8>,
    c: EnrConfig,
    f: Seq<u8>,
    c2: EnrConfig,
    f2: Seq<u8>,
    disk: Option<RecordView>,
)
    requires
        settle(built(node_id, c, f), disk) is Some,
        settle(built(node_id, c, f), disk).unwrap().0.seq < u64::MAX,
        !equivalent(built(node_id, c2, f2), settle(built(node_id, c, f), disk).unwrap().0),
    ensures
        ({
            let first = settle(built(node_id, c, f), disk).unwrap().0;
            let second = settle(built(node_id, c2, f2), Some(first));
            &&& second is Some
            &&& second.unwrap().1 == false
            &&& second.unwrap().0.seq == first.seq + 1
            &&& second.unwrap().0 == RecordView { seq: (first.seq + 1) as u64, ..built(node_id, c2, f2) }
        }),
{
    lemma_settled_matches_local(built(node_id, c, f), disk);
}

} // verus!
