use slurm_client::node::{Node, NodesResponse};
use slurm_client::partition::Partition;
use slurm_client::reservation::{Reservation, ReservationsResponse};

#[test]
fn partition_encodes_and_decodes_to_the_same_value() {
    let p = Partition {
        flags: vec!["DEFAULT".to_owned()],
        preemption_mode: vec!["OFF".to_owned(), "GANG".to_owned()],
        allowed_allocation_nodes: "".to_owned(),
        allowed_accounts: "research".to_owned(),
        allowed_groups: "".to_owned(),
        allowed_qos: "normal".to_owned(),
        alternative: "".to_owned(),
        billing_weights: "".to_owned(),
        default_memory_per_cpu: Some(4096),
        default_time_limit: None,
        denied_accounts: "".to_owned(),
        denied_qos: "".to_owned(),
        preemption_grace_time: None,
        maximum_cpus_per_node: Some(128),
        maximum_memory_per_node: None,
        maximum_nodes_per_job: Some(4),
        max_time_limit: Some(10080),
        min_nodes_per_job: Some(1),
        name: "gpu".to_owned(),
        nodes: "gpu-[0-7]".to_owned(),
        over_time_limit: None,
        priority_job_factor: Some(1),
        priority_tier: Some(10),
        qos: "".to_owned(),
        state: "UP".to_owned(),
        total_cpus: Some(1024),
        total_nodes: Some(8),
        tres: "cpu=1024,mem=4T".to_owned(),
        maximum_memory_per_cpu: None,
        default_memory_per_node: None,
    };
    let encoded = p.to_json();
    let decoded = Partition::from_json(&encoded).unwrap();
    assert_eq!(decoded, p);
}

#[test]
fn reservation_encodes_and_decodes_to_the_same_value() {
    let r = Reservation {
        accounts: Some("research".to_owned()),
        burst_buffer: None,
        core_count: Some(64),
        core_spec_cnt: None,
        end_time: Some(1700003600),
        features: None,
        flags: vec!["MAINT".to_owned()],
        groups: None,
        licenses: Some("matlab*2".to_owned()),
        max_start_delay: None,
        name: Some("maintenance".to_owned()),
        node_count: Some(2),
        node_list: Some("node[1-2]".to_owned()),
        partition: None,
        purge_completed: Default::default(),
        start_time: Some(1700000000),
        watts: None,
        tres: None,
        users: Some("root".to_owned()),
    };
    let encoded = r.to_json();
    let decoded = Reservation::from_json(&encoded).unwrap();
    assert_eq!(decoded, r);
}

#[test]
fn node_decoded_from_the_wire_survives_a_round_trip() {
    let body = "{\"nodes\":[{\"architecture\":\"x86_64\",\"boards\":1,\"cores\":32,\"cpus\":64,\"name\":\"gpu-3\",\"partitions\":[\"gpu\"],\"real_memory\":515717,\"state\":\"idle\",\"state_flags\":[],\"threads\":2,\"alloc_cpus\":0,\"idle_cpus\":64}]}";
    let r = NodesResponse::from_http(200, body).unwrap();
    let n = &r.nodes[0];
    let encoded = n.to_json();
    let decoded = Node::from_json(&encoded).unwrap();
    assert_eq!(&decoded, n);
}

#[test]
fn reservation_decoded_from_the_wire_survives_a_round_trip() {
    let body = "{\"reservation\":[{\"name\":\"window\",\"purge_completed\":{\"time\":300},\"flags\":[\"SPEC_NODES\"],\"start_time\":1}]}";
    let r = ReservationsResponse::from_http(200, body).unwrap();
    let v = &r.reservation[0];
    let encoded = v.to_json();
    let decoded = Reservation::from_json(&encoded).unwrap();
    assert_eq!(&decoded, v);
}
