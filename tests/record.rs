use mothra::record::{
    build_enr, build_or_load_enr, compare_enr, empty_attnets_bytes, EnrConfig, EnrError,
    EnrOutcome, NodeRecord,
};

fn config(libp2p_port: u16) -> EnrConfig {
    EnrConfig { enr_address: None, enr_udp_port: None, enr_tcp_port: None, libp2p_port }
}

fn node_id() -> Vec<u8> {
    vec![7u8; 32]
}

fn fork_id() -> Vec<u8> {
    vec![0x01, 0x02, 0x03, 0x04]
}

fn record_from(outcome: &Result<EnrOutcome, EnrError>) -> &NodeRecord {
    match outcome {
        Ok(EnrOutcome::Loaded(r)) => r,
        Ok(EnrOutcome::Built(r)) => r,
        Err(_) => panic!("no record"),
    }
}

fn copy(r: &NodeRecord) -> NodeRecord {
    NodeRecord {
        node_id: r.node_id.clone(),
        seq: r.seq,
        ip: r.ip,
        udp: r.udp,
        tcp: r.tcp,
        eth2: r.eth2.clone(),
        attnets: r.attnets.clone(),
    }
}

#[test]
fn fresh_start_builds_first_record() {
    let outcome = build_or_load_enr(&node_id(), &config(9000), &fork_id(), None);
    assert!(matches!(outcome, Ok(EnrOutcome::Built(_))));
    let r = record_from(&outcome);
    assert_eq!(r.seq, 1);
    assert_eq!(r.tcp, Some(9000));
    assert_eq!(r.eth2, Some(fork_id()));
    assert_eq!(r.attnets, Some(vec![0u8; 8]));
    assert_eq!(r.ip, None);
    assert_eq!(r.udp, None);
    assert_eq!(r.node_id, node_id());
}

#[test]
fn warm_restart_keeps_disk_record() {
    let first = build_or_load_enr(&node_id(), &config(9000), &fork_id(), None);
    let mut disk = copy(record_from(&first));
    disk.seq = 5;
    let second = build_or_load_enr(&node_id(), &config(9000), &fork_id(), Some(copy(&disk)));
    assert!(matches!(second, Ok(EnrOutcome::Loaded(_))));
    let r = record_from(&second);
    assert_eq!(r.seq, 5);
    assert_eq!(r.tcp, disk.tcp);
    assert_eq!(r.eth2, disk.eth2);
}

#[test]
fn two_restarts_keep_sequence() {
    let first = build_or_load_enr(&node_id(), &config(9000), &fork_id(), None);
    let r1 = copy(record_from(&first));
    let second = build_or_load_enr(&node_id(), &config(9000), &fork_id(), Some(copy(&r1)));
    assert_eq!(record_from(&second).seq, r1.seq);
}

#[test]
fn changed_tcp_port_raises_sequence() {
    let first = build_or_load_enr(&node_id(), &config(9000), &fork_id(), None);
    let mut disk = copy(record_from(&first));
    disk.seq = 3;
    assert_eq!(disk.tcp, Some(9000));
    let second = build_or_load_enr(&node_id(), &config(9001), &fork_id(), Some(disk));
    assert!(matches!(second, Ok(EnrOutcome::Built(_))));
    let r = record_from(&second);
    assert_eq!(r.tcp, Some(9001));
    assert_eq!(r.seq, 4);
}

#[test]
fn changed_fork_raises_sequence() {
    let first = build_or_load_enr(&node_id(), &config(9000), &fork_id(), None);
    let disk = copy(record_from(&first));
    let second = build_or_load_enr(&node_id(), &config(9000), &vec![9u8], Some(disk));
    let r = record_from(&second);
    assert_eq!(r.seq, 2);
    assert_eq!(r.eth2, Some(vec![9u8]));
}

#[test]
fn sequence_overflow_is_an_error() {
    let first = build_or_load_enr(&node_id(), &config(9000), &fork_id(), None);
    let mut disk = copy(record_from(&first));
    disk.seq = u64::MAX;
    let second = build_or_load_enr(&node_id(), &config(9001), &fork_id(), Some(disk));
    assert!(matches!(second, Err(EnrError::SequenceOverflow)));
    assert!(EnrError::SequenceOverflow.message().contains("Remove it"));
}

#[test]
fn record_of_other_node_is_ignored() {
    let first = build_or_load_enr(&vec![1u8; 32], &config(9000), &fork_id(), None);
    let mut disk = copy(record_from(&first));
    disk.seq = 40;
    let second = build_or_load_enr(&node_id(), &config(9000), &fork_id(), Some(disk));
    assert!(matches!(second, Ok(EnrOutcome::Built(_))));
    assert_eq!(record_from(&second).seq, 1);
    assert_eq!(record_from(&second).node_id, node_id());
}

#[test]
fn tcp_override_is_advertised() {
    let mut c = config(9000);
    c.enr_tcp_port = Some(30303);
    c.enr_address = Some(0x7f000001);
    c.enr_udp_port = Some(9005);
    let r = build_enr(&node_id(), &c, &fork_id());
    assert_eq!(r.tcp, Some(30303));
    assert_eq!(r.ip, Some(0x7f000001));
    assert_eq!(r.udp, Some(9005));
    assert_eq!(r.seq, 1);
}

#[test]
fn unspecified_address_takes_disk_value() {
    let local = build_enr(&node_id(), &config(9000), &fork_id());
    let mut disk = copy(&local);
    disk.ip = Some(0x0a000001);
    disk.udp = Some(9000);
    assert!(compare_enr(&local, &disk));
}

#[test]
fn differing_udp_is_not_equivalent() {
    let mut c = config(9000);
    c.enr_udp_port = Some(9001);
    let local = build_enr(&node_id(), &c, &fork_id());
    let mut disk = copy(&local);
    disk.udp = Some(9002);
    assert!(!compare_enr(&local, &disk));
    disk.udp = Some(9001);
    disk.attnets = Some(vec![1u8; 8]);
    assert!(!compare_enr(&local, &disk));
    disk.attnets = None;
    assert!(!compare_enr(&local, &disk));
}

#[test]
fn empty_attnets_is_eight_zero_bytes() {
    assert_eq!(empty_attnets_bytes(), vec![0u8; 8]);
}

#[test]
fn overflow_message_names_the_remedy() {
    assert_eq!(
        EnrError::SequenceOverflow.message(),
        "ENR sequence number on file is too large. Remove it to generate a new NodeId"
    );
}

#[test]
fn newly_given_address_raises_sequence() {
    let first = build_or_load_enr(&node_id(), &config(9000), &fork_id(), None);
    let disk = copy(record_from(&first));
    let mut c = config(9000);
    c.enr_address = Some(0x0a000002);
    let second = build_or_load_enr(&node_id(), &c, &fork_id(), Some(disk));
    assert!(matches!(second, Ok(EnrOutcome::Built(_))));
    let r = record_from(&second);
    assert_eq!(r.seq, 2);
    assert_eq!(r.ip, Some(0x0a000002));
}
