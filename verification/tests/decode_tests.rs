use slurm_client::diag::Diag;
use slurm_client::error::ClientError;
use slurm_client::json::{parse_json, Json};
use slurm_client::node::NodesResponse;
use slurm_client::partition::PartitionsResponse;
use slurm_client::ping::Pings;
use slurm_client::reservation::ReservationsResponse;

#[test]
fn ping_scenario_yields_the_hostname() {
    let body = "{\"meta\":{},\"errors\":[],\"pings\":[{\"hostname\":\"h1\",\"mode\":\"primary\",\"status\":0}]}";
    let r = Pings::from_http(200, body).unwrap();
    assert_eq!(r.pings.len(), 1);
    assert_eq!(r.pings[0].hostname, "h1");
    assert_eq!(r.pings[0].mode, "primary");
    assert_eq!(r.pings[0].status, 0);
    assert_eq!(r.pings[0].ping, "");
    assert_eq!(r.errors.len(), 0);
}

#[test]
fn node_scenario_yields_the_name() {
    let body = "{\"meta\":{},\"errors\":[],\"nodes\":[{\"name\":\"teach-gpu-n0\",\"cpus\":64,\"partitions\":[\"gpu\",\"teach\"]}]}";
    let r = NodesResponse::from_http(200, body).unwrap();
    assert_eq!(r.nodes.len(), 1);
    assert_eq!(r.nodes[0].name.as_deref(), Some("teach-gpu-n0"));
    assert_eq!(r.nodes[0].cpus, Some(64));
    assert_eq!(r.nodes[0].partitions, vec!["gpu".to_owned(), "teach".to_owned()]);
    assert_eq!(r.nodes[0].boards, None);
}

#[test]
fn non_200_yields_a_protocol_error_with_status_and_body() {
    let r = PartitionsResponse::from_http(503, "overloaded");
    match r.unwrap_err() {
        ClientError::Protocol { status, body } => {
            assert_eq!(status, 503);
            assert_eq!(body, "overloaded");
        }
        other => panic!("unexpected error: {other:?}"),
    }
}

#[test]
fn non_200_never_attempts_decoding() {
    // The body here is perfectly decodable; the status alone decides.
    let r = Pings::from_http(404, "{\"meta\":{},\"errors\":[],\"pings\":[]}");
    match r.unwrap_err() {
        ClientError::Protocol { status, body } => {
            assert_eq!(status, 404);
            assert_eq!(body, "{\"meta\":{},\"errors\":[],\"pings\":[]}");
        }
        other => panic!("unexpected error: {other:?}"),
    }
}

#[test]
fn a_body_that_is_not_json_is_a_decode_error() {
    let r = Pings::from_http(200, "not json at all");
    assert_eq!(r.unwrap_err(), ClientError::Decode);
}

#[test]
fn a_schema_mismatch_is_a_decode_error() {
    let r = Pings::from_http(200, "{\"pings\":[{\"hostname\":17}]}");
    assert_eq!(r.unwrap_err(), ClientError::Decode);
    let r = NodesResponse::from_http(200, "[1,2,3]");
    assert_eq!(r.unwrap_err(), ClientError::Decode);
}

#[test]
fn missing_fields_decode_to_defaults() {
    let r = PartitionsResponse::from_http(200, "{}").unwrap();
    assert_eq!(r.errors.len(), 0);
    assert_eq!(r.partitions.len(), 0);
    assert_eq!(r.meta.plugin.name, "");
    assert_eq!(r.meta.slurm.version.major, 0);

    let r = PartitionsResponse::from_http(200, "{\"partitions\":[{}]}").unwrap();
    assert_eq!(r.partitions.len(), 1);
    assert_eq!(r.partitions[0].name, "");
    assert_eq!(r.partitions[0].flags.len(), 0);
    assert_eq!(r.partitions[0].total_cpus, None);

    let r = ReservationsResponse::from_http(200, "{\"reservation\":[{}]}").unwrap();
    assert_eq!(r.reservation.len(), 1);
    assert_eq!(r.reservation[0].accounts, None);
    assert_eq!(
        r.reservation[0].purge_completed,
        Default::default()
    );
}

#[test]
fn null_optional_fields_decode_like_missing_ones() {
    let r = NodesResponse::from_http(
        200,
        "{\"nodes\":[{\"name\":null,\"cpus\":null}]}",
    )
    .unwrap();
    assert_eq!(r.nodes[0].name, None);
    assert_eq!(r.nodes[0].cpus, None);
}

#[test]
fn meta_envelope_fields_are_read() {
    let body = "{\"meta\":{\"plugin\":{\"type\":\"openapi/v0.0.38\",\"name\":\"REST v0.0.38\"},\"Slurm\":{\"version\":{\"major\":22,\"micro\":6,\"minor\":5},\"release\":\"22.05.6\"}},\"errors\":[{\"error\":\"oops\",\"error_number\":42}],\"pings\":[]}";
    let r = Pings::from_http(200, body).unwrap();
    assert_eq!(r.meta.plugin.plugin_type, "openapi/v0.0.38");
    assert_eq!(r.meta.plugin.name, "REST v0.0.38");
    assert_eq!(r.meta.slurm.version.major, 22);
    assert_eq!(r.meta.slurm.version.minor, 5);
    assert_eq!(r.meta.slurm.version.micro, 6);
    assert_eq!(r.meta.slurm.release, "22.05.6");
    assert_eq!(r.errors.len(), 1);
    assert_eq!(r.errors[0].error, "oops");
    assert_eq!(r.errors[0].error_number, 42);
}

#[test]
fn upstream_errors_inside_a_200_response_are_data_not_failures() {
    let body = "{\"errors\":[{\"error\":\"partial\",\"error_number\":1}],\"nodes\":[]}";
    let r = NodesResponse::from_http(200, body).unwrap();
    assert_eq!(r.errors.len(), 1);
    assert_eq!(r.errors[0].error, "partial");
}

#[test]
fn diag_statistics_are_read_with_rpc_breakdowns() {
    let body = "{\"statistics\":{\"jobs_running\":12,\"bf_active\":true,\"rpcs_by_message_type\":[{\"message_type\":\"REQUEST_PING\",\"type_id\":1008,\"count\":3}],\"rpcs_by_user\":[{\"user\":\"root\",\"user_id\":0,\"count\":7}]}}";
    let r = Diag::from_http(200, body).unwrap();
    assert_eq!(r.statistics.jobs_running, Some(12));
    assert_eq!(r.statistics.bf_active, Some(true));
    assert_eq!(r.statistics.parts_packed, None);
    let rpcm = r.statistics.rpcs_by_message_type.as_ref().unwrap();
    assert_eq!(rpcm.len(), 1);
    assert_eq!(rpcm[0].message_type.as_deref(), Some("REQUEST_PING"));
    assert_eq!(rpcm[0].type_id, Some(1008));
    assert_eq!(rpcm[0].count, Some(3));
    let rpcu = r.statistics.rpcs_by_user.as_ref().unwrap();
    assert_eq!(rpcu[0].user.as_deref(), Some("root"));
}

#[test]
fn diag_without_statistics_decodes_to_defaults() {
    let r = Diag::from_http(200, "{}").unwrap();
    assert_eq!(r.statistics.jobs_running, None);
    assert_eq!(r.statistics.rpcs_by_message_type, None);
}

#[test]
fn numbers_outside_i64_are_rejected_at_parse_time() {
    assert!(parse_json("{\"x\":1.5}").is_none());
    assert!(parse_json("{\"x\":18446744073709551615}").is_none());
    assert!(parse_json("{\"x\":9223372036854775807}").is_some());
}

#[test]
fn repeated_object_keys_keep_the_last_binding() {
    let doc = parse_json("{\"a\":1,\"a\":2}").unwrap();
    match doc.lookup("a") {
        Some(Json::Int(i)) => assert_eq!(*i, 2),
        other => panic!("unexpected: {other:?}"),
    }
}
