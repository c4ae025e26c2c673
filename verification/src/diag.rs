//! The `diag` endpoint's response: scheduler performance counters.
use vstd::prelude::*;

use crate::error::ClientError;
use crate::json::{
    opt_str_view, parse_json, spec_lookup, spec_opt_bool_field, spec_opt_i64_field,
    spec_opt_str_field, spec_parse_json, Json, JsonError, JsonV,
};
use crate::meta::{
    errors_from_envelope, errors_view, spec_errors_field, spec_meta_field, Error, ErrorV, Meta,
    MetaV,
};

verus! {

/// RPC counts and timings for one message type.
#[derive(Debug, Clone, PartialEq)]
pub struct DiagRpcm {
    pub message_type: Option<String>,
    pub type_id: Option<i64>,
    pub count: Option<i64>,
    pub average_time: Option<i64>,
    pub total_time: Option<i64>,
}

/// The model of [`DiagRpcm`].
pub struct DiagRpcmV {
    pub message_type: Option<Seq<char>>,
    pub type_id: Option<i64>,
    pub count: Option<i64>,
    pub average_time: Option<i64>,
    pub total_time: Option<i64>,
}

impl View for DiagRpcm {
    type V = DiagRpcmV;

    open spec fn view(&self) -> DiagRpcmV {
        DiagRpcmV {
            message_type: opt_str_view(self.message_type),
            type_id: self.type_id,
            count: self.count,
            average_time: self.average_time,
            total_time: self.total_time,
        }
    }
}

impl DiagRpcmV {
    /// The value whose parts are all absent or empty.
    pub open spec fn default_v() -> DiagRpcmV {
        DiagRpcmV {
            message_type: None,
            type_id: None,
            count: None,
            average_time: None,
            total_time: None,
        }
    }
}

impl Default for DiagRpcm {
    /// The value whose parts are all absent or empty.
    fn default() -> (r: DiagRpcm)
        ensures
            r@ == DiagRpcmV::default_v(),
    {
        DiagRpcm {
            message_type: None,
            type_id: None,
            count: None,
            average_time: None,
            total_time: None,
        }
    }
}

/// Whether `j` is an object all of whose present fields have the
/// expected types.
pub open spec fn spec_diag_rpcm_ok(j: JsonV) -> bool {
    &&& j is Obj
    &&& spec_opt_str_field(j, "message_type"@) is Some
    &&& spec_opt_i64_field(j, "type_id"@) is Some
    &&& spec_opt_i64_field(j, "count"@) is Some
    &&& spec_opt_i64_field(j, "average_time"@) is Some
    &&& spec_opt_i64_field(j, "total_time"@) is Some
}

/// What one record decodes from, or nothing on a schema mismatch.
pub open spec fn spec_decode_diag_rpcm(j: JsonV) -> Option<DiagRpcmV> {
    if spec_diag_rpcm_ok(j) {
        Some(
            DiagRpcmV {
                message_type: spec_opt_str_field(j, "message_type"@).unwrap(),
                type_id: spec_opt_i64_field(j, "type_id"@).unwrap(),
                count: spec_opt_i64_field(j, "count"@).unwrap(),
                average_time: spec_opt_i64_field(j, "average_time"@).unwrap(),
                total_time: spec_opt_i64_field(j, "total_time"@).unwrap(),
            },
        )
    } else {
        None
    }
}

impl DiagRpcm {
    /// Read one record out of a JSON object; missing fields
    /// decode to their defaults, fields of the wrong type are a
    /// schema mismatch.
    #[verifier::rlimit(50)]
    pub fn from_json(j: &Json) -> (r: Result<DiagRpcm, JsonError>)
        ensures
            match r {
                Ok(v) => spec_decode_diag_rpcm(j@) == Some(v@),
                Err(_) => spec_decode_diag_rpcm(j@) is None,
            },
    {
        if !j.is_obj() {
            return Err(JsonError::new());
        }
        let message_type = j.get_opt_str("message_type")?;
        let type_id = j.get_opt_i64("type_id")?;
        let count = j.get_opt_i64("count")?;
        let average_time = j.get_opt_i64("average_time")?;
        let total_time = j.get_opt_i64("total_time")?;
        Ok(
            DiagRpcm {
                message_type,
                type_id,
                count,
                average_time,
                total_time,
            },
        )
    }
}
/// The models of a sequence of RPC-by-type records, or nothing when some
/// element does not decode.
pub open spec fn spec_decode_diag_rpcm_seq(items: Seq<JsonV>) -> Option<Seq<DiagRpcmV>>
    decreases items.len(),
{
    if items.len() == 0 {
        Some(Seq::empty())
    } else {
        match (spec_decode_diag_rpcm_seq(items.drop_last()), spec_decode_diag_rpcm(items.last())) {
            (Option::Some(rest), Option::Some(x)) => Some(rest.push(x)),
            _ => None,
        }
    }
}

/// A sequence with an element that does not decode has no decoding
/// as a whole.
proof fn lemma_decode_diag_rpcm_seq_none(items: Seq<JsonV>, i: int)
    requires
        0 <= i < items.len(),
        spec_decode_diag_rpcm(items[i]) is None,
    ensures
        spec_decode_diag_rpcm_seq(items) is None,
    decreases items.len(),
{
    if i < items.len() - 1 {
        lemma_decode_diag_rpcm_seq_none(items.drop_last(), i);
    }
}

/// The models of each record of `v`, in order.
pub open spec fn diag_rpcms_view(v: Seq<DiagRpcm>) -> Seq<DiagRpcmV>
    decreases v.len(),
{
    if v.len() == 0 {
        Seq::empty()
    } else {
        diag_rpcms_view(v.drop_last()).push(v.last()@)
    }
}
/// The models of an optional list of records.
pub open spec fn opt_diag_rpcm_view(o: Option<Vec<DiagRpcm>>) -> Option<Seq<DiagRpcmV>> {
    match o {
        Option::Some(v) => Some(diag_rpcms_view(v@)),
        Option::None => None,
    }
}

/// The `rpcs_by_message_type` field: nothing when missing or null, its records when
/// an array of objects, and no value at all on a schema mismatch.
pub open spec fn spec_opt_diag_rpcm_list_field(j: JsonV) -> Option<Option<Seq<DiagRpcmV>>> {
    match spec_lookup(j, "rpcs_by_message_type"@) {
        Option::None => Some(None),
        Option::Some(JsonV::Null) => Some(None),
        Option::Some(JsonV::Arr(items)) => match spec_decode_diag_rpcm_seq(items) {
            Option::Some(s) => Some(Some(s)),
            Option::None => None,
        },
        Option::Some(_) => None,
    }
}

/// Read the `rpcs_by_message_type` field, absent or null decoding to nothing.
fn diag_rpcm_list_from_field(j: &Json) -> (r: Result<Option<Vec<DiagRpcm>>, JsonError>)
    ensures
        match r {
            Ok(o) => spec_opt_diag_rpcm_list_field(j@) == Some(opt_diag_rpcm_view(o)),
            Err(_) => spec_opt_diag_rpcm_list_field(j@) is None,
        },
{
    match j.lookup("rpcs_by_message_type") {
        None => Ok(None),
        Some(v) => match v {
            Json::Null => Ok(None),
            Json::Arr(items) => {
                let ghost vs = v@->Arr_0;
                proof {
                    crate::json::lemma_view_seq_elts(items@);
                }
                let mut out: Vec<DiagRpcm> = Vec::new();
                let mut idx: usize = 0;
                while idx < items.len()
                    invariant
                        idx <= items.len(),
                        spec_lookup(j@, "rpcs_by_message_type"@) == Some(v@),
                        v@ == JsonV::Arr(vs),
                        vs.len() == items@.len(),
                        forall|i: int| 0 <= i < vs.len() ==> vs[i] == items@[i].model(),
                        spec_decode_diag_rpcm_seq(vs.take(idx as int)) == Some(diag_rpcms_view(out@)),
                    decreases items@.len() - idx,
                {
                    match DiagRpcm::from_json(&items[idx]) {
                        Ok(e) => {
                            let ghost out_pre = out@;
                            out.push(e);
                            proof {
                                assert(out@.drop_last() =~= out_pre);
                            }
                        },
                        Err(err) => {
                            proof {
                                lemma_decode_diag_rpcm_seq_none(vs, idx as int);
                            }
                            return Err(err);
                        },
                    }
                    idx = idx + 1;
                    assert(vs.take(idx as int).drop_last() =~= vs.take(idx as int - 1));
                }
                proof {
                    assert(vs.take(vs.len() as int) =~= vs);
                }
                Ok(Some(out))
            },
            _ => Err(JsonError::new()),
        },
    }
}

/// RPC counts and timings for one user.
#[derive(Debug, Clone, PartialEq)]
pub struct DiagRpcu {
    pub user: Option<String>,
    pub user_id: Option<i64>,
    pub count: Option<i64>,
    pub average_time: Option<i64>,
    pub total_time: Option<i64>,
}

/// The model of [`DiagRpcu`].
pub struct DiagRpcuV {
    pub user: Option<Seq<char>>,
    pub user_id: Option<i64>,
    pub count: Option<i64>,
    pub average_time: Option<i64>,
    pub total_time: Option<i64>,
}

impl View for DiagRpcu {
    type V = DiagRpcuV;

    open spec fn view(&self) -> DiagRpcuV {
        DiagRpcuV {
            user: opt_str_view(self.user),
            user_id: self.user_id,
            count: self.count,
            average_time: self.average_time,
            total_time: self.total_time,
        }
    }
}

impl DiagRpcuV {
    /// The value whose parts are all absent or empty.
    pub open spec fn default_v() -> DiagRpcuV {
        DiagRpcuV {
            user: None,
            user_id: None,
            count: None,
            average_time: None,
            total_time: None,
        }
    }
}

impl Default for DiagRpcu {
    /// The value whose parts are all absent or empty.
    fn default() -> (r: DiagRpcu)
        ensures
            r@ == DiagRpcuV::default_v(),
    {
        DiagRpcu {
            user: None,
            user_id: None,
            count: None,
            average_time: None,
            total_time: None,
        }
    }
}

/// Whether `j` is an object all of whose present fields have the
/// expected types.
pub open spec fn spec_diag_rpcu_ok(j: JsonV) -> bool {
    &&& j is Obj
    &&& spec_opt_str_field(j, "user"@) is Some
    &&& spec_opt_i64_field(j, "user_id"@) is Some
    &&& spec_opt_i64_field(j, "count"@) is Some
    &&& spec_opt_i64_field(j, "average_time"@) is Some
    &&& spec_opt_i64_field(j, "total_time"@) is Some
}

/// What one record decodes from, or nothing on a schema mismatch.
pub open spec fn spec_decode_diag_rpcu(j: JsonV) -> Option<DiagRpcuV> {
    if spec_diag_rpcu_ok(j) {
        Some(
            DiagRpcuV {
                user: spec_opt_str_field(j, "user"@).unwrap(),
                user_id: spec_opt_i64_field(j, "user_id"@).unwrap(),
                count: spec_opt_i64_field(j, "count"@).unwrap(),
                average_time: spec_opt_i64_field(j, "average_time"@).unwrap(),
                total_time: spec_opt_i64_field(j, "total_time"@).unwrap(),
            },
        )
    } else {
        None
    }
}

impl DiagRpcu {
    /// Read one record out of a JSON object; missing fields
    /// decode to their defaults, fields of the wrong type are a
    /// schema mismatch.
    #[verifier::rlimit(50)]
    pub fn from_json(j: &Json) -> (r: Result<DiagRpcu, JsonError>)
        ensures
            match r {
                Ok(v) => spec_decode_diag_rpcu(j@) == Some(v@),
                Err(_) => spec_decode_diag_rpcu(j@) is None,
            },
    {
        if !j.is_obj() {
            return Err(JsonError::new());
        }
        let user = j.get_opt_str("user")?;
        let user_id = j.get_opt_i64("user_id")?;
        let count = j.get_opt_i64("count")?;
        let average_time = j.get_opt_i64("average_time")?;
        let total_time = j.get_opt_i64("total_time")?;
        Ok(
            DiagRpcu {
                user,
                user_id,
                count,
                average_time,
                total_time,
            },
        )
    }
}
/// The models of a sequence of RPC-by-user records, or nothing when some
/// element does not decode.
pub open spec fn spec_decode_diag_rpcu_seq(items: Seq<JsonV>) -> Option<Seq<DiagRpcuV>>
    decreases items.len(),
{
    if items.len() == 0 {
        Some(Seq::empty())
    } else {
        match (spec_decode_diag_rpcu_seq(items.drop_last()), spec_decode_diag_rpcu(items.last())) {
            (Option::Some(rest), Option::Some(x)) => Some(rest.push(x)),
            _ => None,
        }
    }
}

/// A sequence with an element that does not decode has no decoding
/// as a whole.
proof fn lemma_decode_diag_rpcu_seq_none(items: Seq<JsonV>, i: int)
    requires
        0 <= i < items.len(),
        spec_decode_diag_rpcu(items[i]) is None,
    ensures
        spec_decode_diag_rpcu_seq(items) is None,
    decreases items.len(),
{
    if i < items.len() - 1 {
        lemma_decode_diag_rpcu_seq_none(items.drop_last(), i);
    }
}

/// The models of each record of `v`, in order.
pub open spec fn diag_rpcus_view(v: Seq<DiagRpcu>) -> Seq<DiagRpcuV>
    decreases v.len(),
{
    if v.len() == 0 {
        Seq::empty()
    } else {
        diag_rpcus_view(v.drop_last()).push(v.last()@)
    }
}
/// The models of an optional list of records.
pub open spec fn opt_diag_rpcu_view(o: Option<Vec<DiagRpcu>>) -> Option<Seq<DiagRpcuV>> {
    match o {
        Option::Some(v) => Some(diag_rpcus_view(v@)),
        Option::None => None,
    }
}

/// The `rpcs_by_user` field: nothing when missing or null, its records when
/// an array of objects, and no value at all on a schema mismatch.
pub open spec fn spec_opt_diag_rpcu_list_field(j: JsonV) -> Option<Option<Seq<DiagRpcuV>>> {
    match spec_lookup(j, "rpcs_by_user"@) {
        Option::None => Some(None),
        Option::Some(JsonV::Null) => Some(None),
        Option::Some(JsonV::Arr(items)) => match spec_decode_diag_rpcu_seq(items) {
            Option::Some(s) => Some(Some(s)),
            Option::None => None,
        },
        Option::Some(_) => None,
    }
}

/// Read the `rpcs_by_user` field, absent or null decoding to nothing.
fn diag_rpcu_list_from_field(j: &Json) -> (r: Result<Option<Vec<DiagRpcu>>, JsonError>)
    ensures
        match r {
            Ok(o) => spec_opt_diag_rpcu_list_field(j@) == Some(opt_diag_rpcu_view(o)),
            Err(_) => spec_opt_diag_rpcu_list_field(j@) is None,
        },
{
    match j.lookup("rpcs_by_user") {
        None => Ok(None),
        Some(v) => match v {
            Json::Null => Ok(None),
            Json::Arr(items) => {
                let ghost vs = v@->Arr_0;
                proof {
                    crate::json::lemma_view_seq_elts(items@);
                }
                let mut out: Vec<DiagRpcu> = Vec::new();
                let mut idx: usize = 0;
                while idx < items.len()
                    invariant
                        idx <= items.len(),
                        spec_lookup(j@, "rpcs_by_user"@) == Some(v@),
                        v@ == JsonV::Arr(vs),
                        vs.len() == items@.len(),
                        forall|i: int| 0 <= i < vs.len() ==> vs[i] == items@[i].model(),
                        spec_decode_diag_rpcu_seq(vs.take(idx as int)) == Some(diag_rpcus_view(out@)),
                    decreases items@.len() - idx,
                {
                    match DiagRpcu::from_json(&items[idx]) {
                        Ok(e) => {
                            let ghost out_pre = out@;
                            out.push(e);
                            proof {
                                assert(out@.drop_last() =~= out_pre);
                            }
                        },
                        Err(err) => {
                            proof {
                                lemma_decode_diag_rpcu_seq_none(vs, idx as int);
                            }
                            return Err(err);
                        },
                    }
                    idx = idx + 1;
                    assert(vs.take(idx as int).drop_last() =~= vs.take(idx as int - 1));
                }
                proof {
                    assert(vs.take(vs.len() as int) =~= vs);
                }
                Ok(Some(out))
            },
            _ => Err(JsonError::new()),
        },
    }
}

/// The scheduler's performance counters at request time.
#[derive(Debug, Clone, PartialEq)]
pub struct DiagStatistics {
    pub parts_packed: Option<i64>,
    pub req_time: Option<i64>,
    pub req_time_start: Option<i64>,
    pub server_thread_count: Option<i64>,
    pub agent_queue_size: Option<i64>,
    pub agent_count: Option<i64>,
    pub agent_thread_count: Option<i64>,
    pub dbd_agent_queue_size: Option<i64>,
    pub gettimeofday_latency: Option<i64>,
    pub schedule_cycle_max: Option<i64>,
    pub schedule_cycle_last: Option<i64>,
    pub schedule_cycle_total: Option<i64>,
    pub schedule_cycle_mean: Option<i64>,
    pub schedule_cycle_mean_depth: Option<i64>,
    pub schedule_cycle_per_minute: Option<i64>,
    pub schedule_queue_length: Option<i64>,
    pub jobs_submitted: Option<i64>,
    pub jobs_started: Option<i64>,
    pub jobs_completed: Option<i64>,
    pub jobs_canceled: Option<i64>,
    pub jobs_failed: Option<i64>,
    pub jobs_pending: Option<i64>,
    pub jobs_running: Option<i64>,
    pub job_states_ts: Option<i64>,
    pub bf_backfilled_jobs: Option<i64>,
    pub bf_last_backfilled_jobs: Option<i64>,
    pub bf_backfilled_het_jobs: Option<i64>,
    pub bf_cycle_counter: Option<i64>,
    pub bf_cycle_mean: Option<i64>,
    pub bf_cycle_max: Option<i64>,
    pub bf_last_depth: Option<i64>,
    pub bf_last_depth_try: Option<i64>,
    pub bf_depth_mean: Option<i64>,
    pub bf_depth_mean_try: Option<i64>,
    pub bf_cycle_last: Option<i64>,
    pub bf_queue_len: Option<i64>,
    pub bf_queue_len_mean: Option<i64>,
    pub bf_table_size: Option<i64>,
    pub bf_table_size_mean: Option<i64>,
    pub bf_when_last_cycle: Option<i64>,
    pub bf_active: Option<bool>,
    pub rpcs_by_message_type: Option<Vec<DiagRpcm>>,
    pub rpcs_by_user: Option<Vec<DiagRpcu>>,
}

/// The model of [`DiagStatistics`].
pub struct DiagStatisticsV {
    pub parts_packed: Option<i64>,
    pub req_time: Option<i64>,
    pub req_time_start: Option<i64>,
    pub server_thread_count: Option<i64>,
    pub agent_queue_size: Option<i64>,
    pub agent_count: Option<i64>,
    pub agent_thread_count: Option<i64>,
    pub dbd_agent_queue_size: Option<i64>,
    pub gettimeofday_latency: Option<i64>,
    pub schedule_cycle_max: Option<i64>,
    pub schedule_cycle_last: Option<i64>,
    pub schedule_cycle_total: Option<i64>,
    pub schedule_cycle_mean: Option<i64>,
    pub schedule_cycle_mean_depth: Option<i64>,
    pub schedule_cycle_per_minute: Option<i64>,
    pub schedule_queue_length: Option<i64>,
    pub jobs_submitted: Option<i64>,
    pub jobs_started: Option<i64>,
    pub jobs_completed: Option<i64>,
    pub jobs_canceled: Option<i64>,
    pub jobs_failed: Option<i64>,
    pub jobs_pending: Option<i64>,
    pub jobs_running: Option<i64>,
    pub job_states_ts: Option<i64>,
    pub bf_backfilled_jobs: Option<i64>,
    pub bf_last_backfilled_jobs: Option<i64>,
    pub bf_backfilled_het_jobs: Option<i64>,
    pub bf_cycle_counter: Option<i64>,
    pub bf_cycle_mean: Option<i64>,
    pub bf_cycle_max: Option<i64>,
    pub bf_last_depth: Option<i64>,
    pub bf_last_depth_try: Option<i64>,
    pub bf_depth_mean: Option<i64>,
    pub bf_depth_mean_try: Option<i64>,
    pub bf_cycle_last: Option<i64>,
    pub bf_queue_len: Option<i64>,
    pub bf_queue_len_mean: Option<i64>,
    pub bf_table_size: Option<i64>,
    pub bf_table_size_mean: Option<i64>,
    pub bf_when_last_cycle: Option<i64>,
    pub bf_active: Option<bool>,
    pub rpcs_by_message_type: Option<Seq<DiagRpcmV>>,
    pub rpcs_by_user: Option<Seq<DiagRpcuV>>,
}

impl View for DiagStatistics {
    type V = DiagStatisticsV;

    open spec fn view(&self) -> DiagStatisticsV {
        DiagStatisticsV {
            parts_packed: self.parts_packed,
            req_time: self.req_time,
            req_time_start: self.req_time_start,
            server_thread_count: self.server_thread_count,
            agent_queue_size: self.agent_queue_size,
            agent_count: self.agent_count,
            agent_thread_count: self.agent_thread_count,
            dbd_agent_queue_size: self.dbd_agent_queue_size,
            gettimeofday_latency: self.gettimeofday_latency,
            schedule_cycle_max: self.schedule_cycle_max,
            schedule_cycle_last: self.schedule_cycle_last,
            schedule_cycle_total: self.schedule_cycle_total,
            schedule_cycle_mean: self.schedule_cycle_mean,
            schedule_cycle_mean_depth: self.schedule_cycle_mean_depth,
            schedule_cycle_per_minute: self.schedule_cycle_per_minute,
            schedule_queue_length: self.schedule_queue_length,
            jobs_submitted: self.jobs_submitted,
            jobs_started: self.jobs_started,
            jobs_completed: self.jobs_completed,
            jobs_canceled: self.jobs_canceled,
            jobs_failed: self.jobs_failed,
            jobs_pending: self.jobs_pending,
            jobs_running: self.jobs_running,
            job_states_ts: self.job_states_ts,
            bf_backfilled_jobs: self.bf_backfilled_jobs,
            bf_last_backfilled_jobs: self.bf_last_backfilled_jobs,
            bf_backfilled_het_jobs: self.bf_backfilled_het_jobs,
            bf_cycle_counter: self.bf_cycle_counter,
            bf_cycle_mean: self.bf_cycle_mean,
            bf_cycle_max: self.bf_cycle_max,
            bf_last_depth: self.bf_last_depth,
            bf_last_depth_try: self.bf_last_depth_try,
            bf_depth_mean: self.bf_depth_mean,
            bf_depth_mean_try: self.bf_depth_mean_try,
            bf_cycle_last: self.bf_cycle_last,
            bf_queue_len: self.bf_queue_len,
            bf_queue_len_mean: self.bf_queue_len_mean,
            bf_table_size: self.bf_table_size,
            bf_table_size_mean: self.bf_table_size_mean,
            bf_when_last_cycle: self.bf_when_last_cycle,
            bf_active: self.bf_active,
            rpcs_by_message_type: opt_diag_rpcm_view(self.rpcs_by_message_type),
            rpcs_by_user: opt_diag_rpcu_view(self.rpcs_by_user),
        }
    }
}

impl DiagStatisticsV {
    /// The value whose parts are all absent or empty.
    pub open spec fn default_v() -> DiagStatisticsV {
        DiagStatisticsV {
            parts_packed: None,
            req_time: None,
            req_time_start: None,
            server_thread_count: None,
            agent_queue_size: None,
            agent_count: None,
            agent_thread_count: None,
            dbd_agent_queue_size: None,
            gettimeofday_latency: None,
            schedule_cycle_max: None,
            schedule_cycle_last: None,
            schedule_cycle_total: None,
            schedule_cycle_mean: None,
            schedule_cycle_mean_depth: None,
            schedule_cycle_per_minute: None,
            schedule_queue_length: None,
            jobs_submitted: None,
            jobs_started: None,
            jobs_completed: None,
            jobs_canceled: None,
            jobs_failed: None,
            jobs_pending: None,
            jobs_running: None,
            job_states_ts: None,
            bf_backfilled_jobs: None,
            bf_last_backfilled_jobs: None,
            bf_backfilled_het_jobs: None,
            bf_cycle_counter: None,
            bf_cycle_mean: None,
            bf_cycle_max: None,
            bf_last_depth: None,
            bf_last_depth_try: None,
            bf_depth_mean: None,
            bf_depth_mean_try: None,
            bf_cycle_last: None,
            bf_queue_len: None,
            bf_queue_len_mean: None,
            bf_table_size: None,
            bf_table_size_mean: None,
            bf_when_last_cycle: None,
            bf_active: None,
            rpcs_by_message_type: None,
            rpcs_by_user: None,
        }
    }
}

impl Default for DiagStatistics {
    /// The value whose parts are all absent or empty.
    fn default() -> (r: DiagStatistics)
        ensures
            r@ == DiagStatisticsV::default_v(),
    {
        DiagStatistics {
            parts_packed: None,
            req_time: None,
            req_time_start: None,
            server_thread_count: None,
            agent_queue_size: None,
            agent_count: None,
            agent_thread_count: None,
            dbd_agent_queue_size: None,
            gettimeofday_latency: None,
            schedule_cycle_max: None,
            schedule_cycle_last: None,
            schedule_cycle_total: None,
            schedule_cycle_mean: None,
            schedule_cycle_mean_depth: None,
            schedule_cycle_per_minute: None,
            schedule_queue_length: None,
            jobs_submitted: None,
            jobs_started: None,
            jobs_completed: None,
            jobs_canceled: None,
            jobs_failed: None,
            jobs_pending: None,
            jobs_running: None,
            job_states_ts: None,
            bf_backfilled_jobs: None,
            bf_last_backfilled_jobs: None,
            bf_backfilled_het_jobs: None,
            bf_cycle_counter: None,
            bf_cycle_mean: None,
            bf_cycle_max: None,
            bf_last_depth: None,
            bf_last_depth_try: None,
            bf_depth_mean: None,
            bf_depth_mean_try: None,
            bf_cycle_last: None,
            bf_queue_len: None,
            bf_queue_len_mean: None,
            bf_table_size: None,
            bf_table_size_mean: None,
            bf_when_last_cycle: None,
            bf_active: None,
            rpcs_by_message_type: None,
            rpcs_by_user: None,
        }
    }
}

/// Whether `j` is an object all of whose present fields have the
/// expected types.
pub open spec fn spec_diag_statistics_ok(j: JsonV) -> bool {
    &&& j is Obj
    &&& spec_opt_i64_field(j, "parts_packed"@) is Some
    &&& spec_opt_i64_field(j, "req_time"@) is Some
    &&& spec_opt_i64_field(j, "req_time_start"@) is Some
    &&& spec_opt_i64_field(j, "server_thread_count"@) is Some
    &&& spec_opt_i64_field(j, "agent_queue_size"@) is Some
    &&& spec_opt_i64_field(j, "agent_count"@) is Some
    &&& spec_opt_i64_field(j, "agent_thread_count"@) is Some
    &&& spec_opt_i64_field(j, "dbd_agent_queue_size"@) is Some
    &&& spec_opt_i64_field(j, "gettimeofday_latency"@) is Some
    &&& spec_opt_i64_field(j, "schedule_cycle_max"@) is Some
    &&& spec_opt_i64_field(j, "schedule_cycle_last"@) is Some
    &&& spec_opt_i64_field(j, "schedule_cycle_total"@) is Some
    &&& spec_opt_i64_field(j, "schedule_cycle_mean"@) is Some
    &&& spec_opt_i64_field(j, "schedule_cycle_mean_depth"@) is Some
    &&& spec_opt_i64_field(j, "schedule_cycle_per_minute"@) is Some
    &&& spec_opt_i64_field(j, "schedule_queue_length"@) is Some
    &&& spec_opt_i64_field(j, "jobs_submitted"@) is Some
    &&& spec_opt_i64_field(j, "jobs_started"@) is Some
    &&& spec_opt_i64_field(j, "jobs_completed"@) is Some
    &&& spec_opt_i64_field(j, "jobs_canceled"@) is Some
    &&& spec_opt_i64_field(j, "jobs_failed"@) is Some
    &&& spec_opt_i64_field(j, "jobs_pending"@) is Some
    &&& spec_opt_i64_field(j, "jobs_running"@) is Some
    &&& spec_opt_i64_field(j, "job_states_ts"@) is Some
    &&& spec_opt_i64_field(j, "bf_backfilled_jobs"@) is Some
    &&& spec_opt_i64_field(j, "bf_last_backfilled_jobs"@) is Some
    &&& spec_opt_i64_field(j, "bf_backfilled_het_jobs"@) is Some
    &&& spec_opt_i64_field(j, "bf_cycle_counter"@) is Some
    &&& spec_opt_i64_field(j, "bf_cycle_mean"@) is Some
    &&& spec_opt_i64_field(j, "bf_cycle_max"@) is Some
    &&& spec_opt_i64_field(j, "bf_last_depth"@) is Some
    &&& spec_opt_i64_field(j, "bf_last_depth_try"@) is Some
    &&& spec_opt_i64_field(j, "bf_depth_mean"@) is Some
    &&& spec_opt_i64_field(j, "bf_depth_mean_try"@) is Some
    &&& spec_opt_i64_field(j, "bf_cycle_last"@) is Some
    &&& spec_opt_i64_field(j, "bf_queue_len"@) is Some
    &&& spec_opt_i64_field(j, "bf_queue_len_mean"@) is Some
    &&& spec_opt_i64_field(j, "bf_table_size"@) is Some
    &&& spec_opt_i64_field(j, "bf_table_size_mean"@) is Some
    &&& spec_opt_i64_field(j, "bf_when_last_cycle"@) is Some
    &&& spec_opt_bool_field(j, "bf_active"@) is Some
    &&& spec_opt_diag_rpcm_list_field(j) is Some
    &&& spec_opt_diag_rpcu_list_field(j) is Some
}

/// What one record decodes from, or nothing on a schema mismatch.
pub open spec fn spec_decode_diag_statistics(j: JsonV) -> Option<DiagStatisticsV> {
    if spec_diag_statistics_ok(j) {
        Some(
            DiagStatisticsV {
                parts_packed: spec_opt_i64_field(j, "parts_packed"@).unwrap(),
                req_time: spec_opt_i64_field(j, "req_time"@).unwrap(),
                req_time_start: spec_opt_i64_field(j, "req_time_start"@).unwrap(),
                server_thread_count: spec_opt_i64_field(j, "server_thread_count"@).unwrap(),
                agent_queue_size: spec_opt_i64_field(j, "agent_queue_size"@).unwrap(),
                agent_count: spec_opt_i64_field(j, "agent_count"@).unwrap(),
                agent_thread_count: spec_opt_i64_field(j, "agent_thread_count"@).unwrap(),
                dbd_agent_queue_size: spec_opt_i64_field(j, "dbd_agent_queue_size"@).unwrap(),
                gettimeofday_latency: spec_opt_i64_field(j, "gettimeofday_latency"@).unwrap(),
                schedule_cycle_max: spec_opt_i64_field(j, "schedule_cycle_max"@).unwrap(),
                schedule_cycle_last: spec_opt_i64_field(j, "schedule_cycle_last"@).unwrap(),
                schedule_cycle_total: spec_opt_i64_field(j, "schedule_cycle_total"@).unwrap(),
                schedule_cycle_mean: spec_opt_i64_field(j, "schedule_cycle_mean"@).unwrap(),
                schedule_cycle_mean_depth: spec_opt_i64_field(j, "schedule_cycle_mean_depth"@).unwrap(),
                schedule_cycle_per_minute: spec_opt_i64_field(j, "schedule_cycle_per_minute"@).unwrap(),
                schedule_queue_length: spec_opt_i64_field(j, "schedule_queue_length"@).unwrap(),
                jobs_submitted: spec_opt_i64_field(j, "jobs_submitted"@).unwrap(),
                jobs_started: spec_opt_i64_field(j, "jobs_started"@).unwrap(),
                jobs_completed: spec_opt_i64_field(j, "jobs_completed"@).unwrap(),
                jobs_canceled: spec_opt_i64_field(j, "jobs_canceled"@).unwrap(),
                jobs_failed: spec_opt_i64_field(j, "jobs_failed"@).unwrap(),
                jobs_pending: spec_opt_i64_field(j, "jobs_pending"@).unwrap(),
                jobs_running: spec_opt_i64_field(j, "jobs_running"@).unwrap(),
                job_states_ts: spec_opt_i64_field(j, "job_states_ts"@).unwrap(),
                bf_backfilled_jobs: spec_opt_i64_field(j, "bf_backfilled_jobs"@).unwrap(),
                bf_last_backfilled_jobs: spec_opt_i64_field(j, "bf_last_backfilled_jobs"@).unwrap(),
                bf_backfilled_het_jobs: spec_opt_i64_field(j, "bf_backfilled_het_jobs"@).unwrap(),
                bf_cycle_counter: spec_opt_i64_field(j, "bf_cycle_counter"@).unwrap(),
                bf_cycle_mean: spec_opt_i64_field(j, "bf_cycle_mean"@).unwrap(),
                bf_cycle_max: spec_opt_i64_field(j, "bf_cycle_max"@).unwrap(),
                bf_last_depth: spec_opt_i64_field(j, "bf_last_depth"@).unwrap(),
                bf_last_depth_try: spec_opt_i64_field(j, "bf_last_depth_try"@).unwrap(),
                bf_depth_mean: spec_opt_i64_field(j, "bf_depth_mean"@).unwrap(),
                bf_depth_mean_try: spec_opt_i64_field(j, "bf_depth_mean_try"@).unwrap(),
                bf_cycle_last: spec_opt_i64_field(j, "bf_cycle_last"@).unwrap(),
                bf_queue_len: spec_opt_i64_field(j, "bf_queue_len"@).unwrap(),
                bf_queue_len_mean: spec_opt_i64_field(j, "bf_queue_len_mean"@).unwrap(),
                bf_table_size: spec_opt_i64_field(j, "bf_table_size"@).unwrap(),
                bf_table_size_mean: spec_opt_i64_field(j, "bf_table_size_mean"@).unwrap(),
                bf_when_last_cycle: spec_opt_i64_field(j, "bf_when_last_cycle"@).unwrap(),
                bf_active: spec_opt_bool_field(j, "bf_active"@).unwrap(),
                rpcs_by_message_type: spec_opt_diag_rpcm_list_field(j).unwrap(),
                rpcs_by_user: spec_opt_diag_rpcu_list_field(j).unwrap(),
            },
        )
    } else {
        None
    }
}

impl DiagStatistics {
    /// Read one group of fields.
    #[verifier::rlimit(50)]
    fn from_json_part_0(j: &Json) -> (r: Result<(Option<i64>, Option<i64>, Option<i64>, Option<i64>, Option<i64>, Option<i64>, Option<i64>, Option<i64>,), JsonError>)
        ensures
            match r {
                Ok(t) => spec_opt_i64_field(j@, "parts_packed"@) == Some(t.0)
                    && spec_opt_i64_field(j@, "req_time"@) == Some(t.1)
                    && spec_opt_i64_field(j@, "req_time_start"@) == Some(t.2)
                    && spec_opt_i64_field(j@, "server_thread_count"@) == Some(t.3)
                    && spec_opt_i64_field(j@, "agent_queue_size"@) == Some(t.4)
                    && spec_opt_i64_field(j@, "agent_count"@) == Some(t.5)
                    && spec_opt_i64_field(j@, "agent_thread_count"@) == Some(t.6)
                    && spec_opt_i64_field(j@, "dbd_agent_queue_size"@) == Some(t.7),
                Err(_) => !spec_diag_statistics_ok(j@),
            },
    {
        let parts_packed = j.get_opt_i64("parts_packed")?;
        let req_time = j.get_opt_i64("req_time")?;
        let req_time_start = j.get_opt_i64("req_time_start")?;
        let server_thread_count = j.get_opt_i64("server_thread_count")?;
        let agent_queue_size = j.get_opt_i64("agent_queue_size")?;
        let agent_count = j.get_opt_i64("agent_count")?;
        let agent_thread_count = j.get_opt_i64("agent_thread_count")?;
        let dbd_agent_queue_size = j.get_opt_i64("dbd_agent_queue_size")?;
        Ok((parts_packed, req_time, req_time_start, server_thread_count, agent_queue_size, agent_count, agent_thread_count, dbd_agent_queue_size,))
    }

    /// Read one group of fields.
    #[verifier::rlimit(50)]
    fn from_json_part_1(j: &Json) -> (r: Result<(Option<i64>, Option<i64>, Option<i64>, Option<i64>, Option<i64>, Option<i64>, Option<i64>, Option<i64>,), JsonError>)
        ensures
            match r {
                Ok(t) => spec_opt_i64_field(j@, "gettimeofday_latency"@) == Some(t.0)
                    && spec_opt_i64_field(j@, "schedule_cycle_max"@) == Some(t.1)
                    && spec_opt_i64_field(j@, "schedule_cycle_last"@) == Some(t.2)
                    && spec_opt_i64_field(j@, "schedule_cycle_total"@) == Some(t.3)
                    && spec_opt_i64_field(j@, "schedule_cycle_mean"@) == Some(t.4)
                    && spec_opt_i64_field(j@, "schedule_cycle_mean_depth"@) == Some(t.5)
                    && spec_opt_i64_field(j@, "schedule_cycle_per_minute"@) == Some(t.6)
                    && spec_opt_i64_field(j@, "schedule_queue_length"@) == Some(t.7),
                Err(_) => !spec_diag_statistics_ok(j@),
            },
    {
        let gettimeofday_latency = j.get_opt_i64("gettimeofday_latency")?;
        let schedule_cycle_max = j.get_opt_i64("schedule_cycle_max")?;
        let schedule_cycle_last = j.get_opt_i64("schedule_cycle_last")?;
        let schedule_cycle_total = j.get_opt_i64("schedule_cycle_total")?;
        let schedule_cycle_mean = j.get_opt_i64("schedule_cycle_mean")?;
        let schedule_cycle_mean_depth = j.get_opt_i64("schedule_cycle_mean_depth")?;
        let schedule_cycle_per_minute = j.get_opt_i64("schedule_cycle_per_minute")?;
        let schedule_queue_length = j.get_opt_i64("schedule_queue_length")?;
        Ok((gettimeofday_latency, schedule_cycle_max, schedule_cycle_last, schedule_cycle_total, schedule_cycle_mean, schedule_cycle_mean_depth, schedule_cycle_per_minute, schedule_queue_length,))
    }

    /// Read one group of fields.
    #[verifier::rlimit(50)]
    fn from_json_part_2(j: &Json) -> (r: Result<(Option<i64>, Option<i64>, Option<i64>, Option<i64>, Option<i64>, Option<i64>, Option<i64>, Option<i64>,), JsonError>)
        ensures
            match r {
                Ok(t) => spec_opt_i64_field(j@, "jobs_submitted"@) == Some(t.0)
                    && spec_opt_i64_field(j@, "jobs_started"@) == Some(t.1)
                    && spec_opt_i64_field(j@, "jobs_completed"@) == Some(t.2)
                    && spec_opt_i64_field(j@, "jobs_canceled"@) == Some(t.3)
                    && spec_opt_i64_field(j@, "jobs_failed"@) == Some(t.4)
                    && spec_opt_i64_field(j@, "jobs_pending"@) == Some(t.5)
                    && spec_opt_i64_field(j@, "jobs_running"@) == Some(t.6)
                    && spec_opt_i64_field(j@, "job_states_ts"@) == Some(t.7),
                Err(_) => !spec_diag_statistics_ok(j@),
            },
    {
        let jobs_submitted = j.get_opt_i64("jobs_submitted")?;
        let jobs_started = j.get_opt_i64("jobs_started")?;
        let jobs_completed = j.get_opt_i64("jobs_completed")?;
        let jobs_canceled = j.get_opt_i64("jobs_canceled")?;
        let jobs_failed = j.get_opt_i64("jobs_failed")?;
        let jobs_pending = j.get_opt_i64("jobs_pending")?;
        let jobs_running = j.get_opt_i64("jobs_running")?;
        let job_states_ts = j.get_opt_i64("job_states_ts")?;
        Ok((jobs_submitted, jobs_started, jobs_completed, jobs_canceled, jobs_failed, jobs_pending, jobs_running, job_states_ts,))
    }

    /// Read one group of fields.
    #[verifier::rlimit(50)]
    fn from_json_part_3(j: &Json) -> (r: Result<(Option<i64>, Option<i64>, Option<i64>, Option<i64>, Option<i64>, Option<i64>, Option<i64>, Option<i64>,), JsonError>)
        ensures
            match r {
                Ok(t) => spec_opt_i64_field(j@, "bf_backfilled_jobs"@) == Some(t.0)
                    && spec_opt_i64_field(j@, "bf_last_backfilled_jobs"@) == Some(t.1)
                    && spec_opt_i64_field(j@, "bf_backfilled_het_jobs"@) == Some(t.2)
                    && spec_opt_i64_field(j@, "bf_cycle_counter"@) == Some(t.3)
                    && spec_opt_i64_field(j@, "bf_cycle_mean"@) == Some(t.4)
                    && spec_opt_i64_field(j@, "bf_cycle_max"@) == Some(t.5)
                    && spec_opt_i64_field(j@, "bf_last_depth"@) == Some(t.6)
                    && spec_opt_i64_field(j@, "bf_last_depth_try"@) == Some(t.7),
                Err(_) => !spec_diag_statistics_ok(j@),
            },
    {
        let bf_backfilled_jobs = j.get_opt_i64("bf_backfilled_jobs")?;
        let bf_last_backfilled_jobs = j.get_opt_i64("bf_last_backfilled_jobs")?;
        let bf_backfilled_het_jobs = j.get_opt_i64("bf_backfilled_het_jobs")?;
        let bf_cycle_counter = j.get_opt_i64("bf_cycle_counter")?;
        let bf_cycle_mean = j.get_opt_i64("bf_cycle_mean")?;
        let bf_cycle_max = j.get_opt_i64("bf_cycle_max")?;
        let bf_last_depth = j.get_opt_i64("bf_last_depth")?;
        let bf_last_depth_try = j.get_opt_i64("bf_last_depth_try")?;
        Ok((bf_backfilled_jobs, bf_last_backfilled_jobs, bf_backfilled_het_jobs, bf_cycle_counter, bf_cycle_mean, bf_cycle_max, bf_last_depth, bf_last_depth_try,))
    }

    /// Read one group of fields.
    #[verifier::rlimit(50)]
    fn from_json_part_4(j: &Json) -> (r: Result<(Option<i64>, Option<i64>, Option<i64>, Option<i64>, Option<i64>, Option<i64>, Option<i64>, Option<i64>,), JsonError>)
        ensures
            match r {
                Ok(t) => spec_opt_i64_field(j@, "bf_depth_mean"@) == Some(t.0)
                    && spec_opt_i64_field(j@, "bf_depth_mean_try"@) == Some(t.1)
                    && spec_opt_i64_field(j@, "bf_cycle_last"@) == Some(t.2)
                    && spec_opt_i64_field(j@, "bf_queue_len"@) == Some(t.3)
                    && spec_opt_i64_field(j@, "bf_queue_len_mean"@) == Some(t.4)
                    && spec_opt_i64_field(j@, "bf_table_size"@) == Some(t.5)
                    && spec_opt_i64_field(j@, "bf_table_size_mean"@) == Some(t.6)
                    && spec_opt_i64_field(j@, "bf_when_last_cycle"@) == Some(t.7),
                Err(_) => !spec_diag_statistics_ok(j@),
            },
    {
        let bf_depth_mean = j.get_opt_i64("bf_depth_mean")?;
        let bf_depth_mean_try = j.get_opt_i64("bf_depth_mean_try")?;
        let bf_cycle_last = j.get_opt_i64("bf_cycle_last")?;
        let bf_queue_len = j.get_opt_i64("bf_queue_len")?;
        let bf_queue_len_mean = j.get_opt_i64("bf_queue_len_mean")?;
        let bf_table_size = j.get_opt_i64("bf_table_size")?;
        let bf_table_size_mean = j.get_opt_i64("bf_table_size_mean")?;
        let bf_when_last_cycle = j.get_opt_i64("bf_when_last_cycle")?;
        Ok((bf_depth_mean, bf_depth_mean_try, bf_cycle_last, bf_queue_len, bf_queue_len_mean, bf_table_size, bf_table_size_mean, bf_when_last_cycle,))
    }

    /// Read one group of fields.
    #[verifier::rlimit(50)]
    fn from_json_part_5(j: &Json) -> (r: Result<(Option<bool>, Option<Vec<DiagRpcm>>, Option<Vec<DiagRpcu>>,), JsonError>)
        ensures
            match r {
                Ok(t) => spec_opt_bool_field(j@, "bf_active"@) == Some(t.0)
                    && spec_opt_diag_rpcm_list_field(j@) == Some(opt_diag_rpcm_view(t.1))
                    && spec_opt_diag_rpcu_list_field(j@) == Some(opt_diag_rpcu_view(t.2)),
                Err(_) => !spec_diag_statistics_ok(j@),
            },
    {
        let bf_active = j.get_opt_bool("bf_active")?;
        let rpcs_by_message_type = diag_rpcm_list_from_field(j)?;
        let rpcs_by_user = diag_rpcu_list_from_field(j)?;
        Ok((bf_active, rpcs_by_message_type, rpcs_by_user,))
    }

    /// Read one record out of a JSON object; missing fields
    /// decode to their defaults, fields of the wrong type are a
    /// schema mismatch.
    #[verifier::rlimit(100)]
    pub fn from_json(j: &Json) -> (r: Result<DiagStatistics, JsonError>)
        ensures
            match r {
                Ok(v) => spec_decode_diag_statistics(j@) == Some(v@),
                Err(_) => spec_decode_diag_statistics(j@) is None,
            },
    {
        if !j.is_obj() {
            return Err(JsonError::new());
        }
        let t0 = DiagStatistics::from_json_part_0(j)?;
        let t1 = DiagStatistics::from_json_part_1(j)?;
        let t2 = DiagStatistics::from_json_part_2(j)?;
        let t3 = DiagStatistics::from_json_part_3(j)?;
        let t4 = DiagStatistics::from_json_part_4(j)?;
        let t5 = DiagStatistics::from_json_part_5(j)?;
        Ok(
            DiagStatistics {
                parts_packed: t0.0,
                req_time: t0.1,
                req_time_start: t0.2,
                server_thread_count: t0.3,
                agent_queue_size: t0.4,
                agent_count: t0.5,
                agent_thread_count: t0.6,
                dbd_agent_queue_size: t0.7,
                gettimeofday_latency: t1.0,
                schedule_cycle_max: t1.1,
                schedule_cycle_last: t1.2,
                schedule_cycle_total: t1.3,
                schedule_cycle_mean: t1.4,
                schedule_cycle_mean_depth: t1.5,
                schedule_cycle_per_minute: t1.6,
                schedule_queue_length: t1.7,
                jobs_submitted: t2.0,
                jobs_started: t2.1,
                jobs_completed: t2.2,
                jobs_canceled: t2.3,
                jobs_failed: t2.4,
                jobs_pending: t2.5,
                jobs_running: t2.6,
                job_states_ts: t2.7,
                bf_backfilled_jobs: t3.0,
                bf_last_backfilled_jobs: t3.1,
                bf_backfilled_het_jobs: t3.2,
                bf_cycle_counter: t3.3,
                bf_cycle_mean: t3.4,
                bf_cycle_max: t3.5,
                bf_last_depth: t3.6,
                bf_last_depth_try: t3.7,
                bf_depth_mean: t4.0,
                bf_depth_mean_try: t4.1,
                bf_cycle_last: t4.2,
                bf_queue_len: t4.3,
                bf_queue_len_mean: t4.4,
                bf_table_size: t4.5,
                bf_table_size_mean: t4.6,
                bf_when_last_cycle: t4.7,
                bf_active: t5.0,
                rpcs_by_message_type: t5.1,
                rpcs_by_user: t5.2,
            },
        )
    }
}
/// The `statistics` field of the envelope, defaulting when it is
/// absent.
pub open spec fn spec_diag_statistics_field(j: JsonV) -> Option<DiagStatisticsV> {
    match spec_lookup(j, "statistics"@) {
        Option::None => Some(DiagStatisticsV::default_v()),
        Option::Some(v) => spec_decode_diag_statistics(v),
    }
}

/// The `diag` endpoint's response envelope.
#[derive(Debug, Clone, PartialEq)]
pub struct Diag {
    pub meta: Meta,
    pub errors: Vec<Error>,
    pub statistics: DiagStatistics,
}

/// The model of [`Diag`].
pub struct DiagV {
    pub meta: MetaV,
    pub errors: Seq<ErrorV>,
    pub statistics: DiagStatisticsV,
}

impl View for Diag {
    type V = DiagV;

    open spec fn view(&self) -> DiagV {
        DiagV {
            meta: self.meta@,
            errors: errors_view(self.errors@),
            statistics: self.statistics@,
        }
    }
}

/// What the whole envelope decodes from, or nothing on a schema
/// mismatch; absent parts decode to empty values.
pub open spec fn spec_decode_diag(j: JsonV) -> Option<DiagV> {
    if !(j is Obj) {
        None
    } else if spec_meta_field(j) is None {
        None
    } else if spec_errors_field(j) is None {
        None
    } else if spec_diag_statistics_field(j) is None {
        None
    } else {
        Some(
            DiagV {
                meta: spec_meta_field(j).unwrap(),
                errors: spec_errors_field(j).unwrap(),
                statistics: spec_diag_statistics_field(j).unwrap(),
            },
        )
    }
}

impl Diag {
    /// Read the whole envelope out of a JSON object.
    pub fn from_json(j: &Json) -> (r: Result<Diag, JsonError>)
        ensures
            match r {
                Ok(v) => spec_decode_diag(j@) == Some(v@),
                Err(_) => spec_decode_diag(j@) is None,
            },
    {
        if !j.is_obj() {
            return Err(JsonError::new());
        }
        let meta = Meta::from_envelope(j)?;
        let errors = errors_from_envelope(j)?;
        let statistics = match j.lookup("statistics") {
            None => DiagStatistics::default(),
            Some(v) => DiagStatistics::from_json(v)?,
        };
        Ok(Diag { meta, errors, statistics })
    }

    /// Turn one HTTP answer into a typed result: any status other than
    /// 200 is a protocol error carrying the status and the raw body,
    /// and the body of a 200 answer is parsed and decoded.
    pub fn from_http(status: u16, body: &str) -> (r: Result<Diag, ClientError>)
        ensures
            status != 200 ==> match r {
                Err(ClientError::Protocol { status: s, body: b }) => s == status && b@ == body@,
                _ => false,
            },
            status == 200 ==> match spec_parse_json(body@) {
                Option::None => r == Err::<Diag, ClientError>(ClientError::Decode),
                Option::Some(doc) => match spec_decode_diag(doc) {
                    Option::Some(p) => match r {
                        Ok(v) => v@ == p,
                        Err(_) => false,
                    },
                    Option::None => r == Err::<Diag, ClientError>(ClientError::Decode),
                },
            },
    {
        if status != 200 {
            return Err(ClientError::Protocol { status, body: body.to_owned() });
        }
        match parse_json(body) {
            None => Err(ClientError::Decode),
            Some(doc) => match Diag::from_json(&doc) {
                Ok(p) => Ok(p),
                Err(_) => Err(ClientError::Decode),
            },
        }
    }
}

} // verus!
