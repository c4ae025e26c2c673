//! Partitions: a scheduling pool's policy and limits.
use vstd::prelude::*;

use crate::error::ClientError;
use crate::json::{
    lemma_lookup_fields_push_all, lemma_strs_round_trip, lemma_view_fields_snoc, lookup_fields, parse_json,
    spec_enc_opt_i64, spec_encode_strs, spec_lookup, spec_opt_i64_field,
    spec_parse_json, spec_str_field, spec_str_list_field, strs_to_json,
    strs_view, Json, JsonError, JsonV,
};
use crate::meta::{
    errors_from_envelope, errors_view, spec_errors_field, spec_meta_field, Error, ErrorV, Meta,
    MetaV,
};

verus! {

/// One scheduling partition's policy and limits.
#[derive(Debug, Clone, PartialEq)]
pub struct Partition {
    pub flags: Vec<String>,
    pub preemption_mode: Vec<String>,
    pub allowed_allocation_nodes: String,
    pub allowed_accounts: String,
    pub allowed_groups: String,
    pub allowed_qos: String,
    pub alternative: String,
    pub billing_weights: String,
    pub default_memory_per_cpu: Option<i64>,
    pub default_time_limit: Option<i64>,
    pub denied_accounts: String,
    pub denied_qos: String,
    pub preemption_grace_time: Option<i64>,
    pub maximum_cpus_per_node: Option<i64>,
    pub maximum_memory_per_node: Option<i64>,
    pub maximum_nodes_per_job: Option<i64>,
    pub max_time_limit: Option<i64>,
    pub min_nodes_per_job: Option<i64>,
    pub name: String,
    pub nodes: String,
    pub over_time_limit: Option<i64>,
    pub priority_job_factor: Option<i64>,
    pub priority_tier: Option<i64>,
    pub qos: String,
    pub state: String,
    pub total_cpus: Option<i64>,
    pub total_nodes: Option<i64>,
    pub tres: String,
    pub maximum_memory_per_cpu: Option<i64>,
    pub default_memory_per_node: Option<i64>,
}

/// The model of [`Partition`].
pub struct PartitionV {
    pub flags: Seq<Seq<char>>,
    pub preemption_mode: Seq<Seq<char>>,
    pub allowed_allocation_nodes: Seq<char>,
    pub allowed_accounts: Seq<char>,
    pub allowed_groups: Seq<char>,
    pub allowed_qos: Seq<char>,
    pub alternative: Seq<char>,
    pub billing_weights: Seq<char>,
    pub default_memory_per_cpu: Option<i64>,
    pub default_time_limit: Option<i64>,
    pub denied_accounts: Seq<char>,
    pub denied_qos: Seq<char>,
    pub preemption_grace_time: Option<i64>,
    pub maximum_cpus_per_node: Option<i64>,
    pub maximum_memory_per_node: Option<i64>,
    pub maximum_nodes_per_job: Option<i64>,
    pub max_time_limit: Option<i64>,
    pub min_nodes_per_job: Option<i64>,
    pub name: Seq<char>,
    pub nodes: Seq<char>,
    pub over_time_limit: Option<i64>,
    pub priority_job_factor: Option<i64>,
    pub priority_tier: Option<i64>,
    pub qos: Seq<char>,
    pub state: Seq<char>,
    pub total_cpus: Option<i64>,
    pub total_nodes: Option<i64>,
    pub tres: Seq<char>,
    pub maximum_memory_per_cpu: Option<i64>,
    pub default_memory_per_node: Option<i64>,
}

impl View for Partition {
    type V = PartitionV;

    open spec fn view(&self) -> PartitionV {
        PartitionV {
            flags: strs_view(self.flags@),
            preemption_mode: strs_view(self.preemption_mode@),
            allowed_allocation_nodes: self.allowed_allocation_nodes@,
            allowed_accounts: self.allowed_accounts@,
            allowed_groups: self.allowed_groups@,
            allowed_qos: self.allowed_qos@,
            alternative: self.alternative@,
            billing_weights: self.billing_weights@,
            default_memory_per_cpu: self.default_memory_per_cpu,
            default_time_limit: self.default_time_limit,
            denied_accounts: self.denied_accounts@,
            denied_qos: self.denied_qos@,
            preemption_grace_time: self.preemption_grace_time,
            maximum_cpus_per_node: self.maximum_cpus_per_node,
            maximum_memory_per_node: self.maximum_memory_per_node,
            maximum_nodes_per_job: self.maximum_nodes_per_job,
            max_time_limit: self.max_time_limit,
            min_nodes_per_job: self.min_nodes_per_job,
            name: self.name@,
            nodes: self.nodes@,
            over_time_limit: self.over_time_limit,
            priority_job_factor: self.priority_job_factor,
            priority_tier: self.priority_tier,
            qos: self.qos@,
            state: self.state@,
            total_cpus: self.total_cpus,
            total_nodes: self.total_nodes,
            tres: self.tres@,
            maximum_memory_per_cpu: self.maximum_memory_per_cpu,
            default_memory_per_node: self.default_memory_per_node,
        }
    }
}

/// Whether `j` is an object all of whose present fields have the
/// expected types.
pub open spec fn spec_partition_ok(j: JsonV) -> bool {
    &&& j is Obj
    &&& spec_str_list_field(j, "flags"@) is Some
    &&& spec_str_list_field(j, "preemption_mode"@) is Some
    &&& spec_str_field(j, "allowed_allocation_nodes"@) is Some
    &&& spec_str_field(j, "allowed_accounts"@) is Some
    &&& spec_str_field(j, "allowed_groups"@) is Some
    &&& spec_str_field(j, "allowed_qos"@) is Some
    &&& spec_str_field(j, "alternative"@) is Some
    &&& spec_str_field(j, "billing_weights"@) is Some
    &&& spec_opt_i64_field(j, "default_memory_per_cpu"@) is Some
    &&& spec_opt_i64_field(j, "default_time_limit"@) is Some
    &&& spec_str_field(j, "denied_accounts"@) is Some
    &&& spec_str_field(j, "denied_qos"@) is Some
    &&& spec_opt_i64_field(j, "preemption_grace_time"@) is Some
    &&& spec_opt_i64_field(j, "maximum_cpus_per_node"@) is Some
    &&& spec_opt_i64_field(j, "maximum_memory_per_node"@) is Some
    &&& spec_opt_i64_field(j, "maximum_nodes_per_job"@) is Some
    &&& spec_opt_i64_field(j, "max_time_limit"@) is Some
    &&& spec_opt_i64_field(j, "min_nodes_per_job"@) is Some
    &&& spec_str_field(j, "name"@) is Some
    &&& spec_str_field(j, "nodes"@) is Some
    &&& spec_opt_i64_field(j, "over_time_limit"@) is Some
    &&& spec_opt_i64_field(j, "priority_job_factor"@) is Some
    &&& spec_opt_i64_field(j, "priority_tier"@) is Some
    &&& spec_str_field(j, "qos"@) is Some
    &&& spec_str_field(j, "state"@) is Some
    &&& spec_opt_i64_field(j, "total_cpus"@) is Some
    &&& spec_opt_i64_field(j, "total_nodes"@) is Some
    &&& spec_str_field(j, "tres"@) is Some
    &&& spec_opt_i64_field(j, "maximum_memory_per_cpu"@) is Some
    &&& spec_opt_i64_field(j, "default_memory_per_node"@) is Some
}

/// What one record decodes from, or nothing on a schema mismatch.
pub open spec fn spec_decode_partition(j: JsonV) -> Option<PartitionV> {
    if spec_partition_ok(j) {
        Some(
            PartitionV {
                flags: spec_str_list_field(j, "flags"@).unwrap(),
                preemption_mode: spec_str_list_field(j, "preemption_mode"@).unwrap(),
                allowed_allocation_nodes: spec_str_field(j, "allowed_allocation_nodes"@).unwrap(),
                allowed_accounts: spec_str_field(j, "allowed_accounts"@).unwrap(),
                allowed_groups: spec_str_field(j, "allowed_groups"@).unwrap(),
                allowed_qos: spec_str_field(j, "allowed_qos"@).unwrap(),
                alternative: spec_str_field(j, "alternative"@).unwrap(),
                billing_weights: spec_str_field(j, "billing_weights"@).unwrap(),
                default_memory_per_cpu: spec_opt_i64_field(j, "default_memory_per_cpu"@).unwrap(),
                default_time_limit: spec_opt_i64_field(j, "default_time_limit"@).unwrap(),
                denied_accounts: spec_str_field(j, "denied_accounts"@).unwrap(),
                denied_qos: spec_str_field(j, "denied_qos"@).unwrap(),
                preemption_grace_time: spec_opt_i64_field(j, "preemption_grace_time"@).unwrap(),
                maximum_cpus_per_node: spec_opt_i64_field(j, "maximum_cpus_per_node"@).unwrap(),
                maximum_memory_per_node: spec_opt_i64_field(j, "maximum_memory_per_node"@).unwrap(),
                maximum_nodes_per_job: spec_opt_i64_field(j, "maximum_nodes_per_job"@).unwrap(),
                max_time_limit: spec_opt_i64_field(j, "max_time_limit"@).unwrap(),
                min_nodes_per_job: spec_opt_i64_field(j, "min_nodes_per_job"@).unwrap(),
                name: spec_str_field(j, "name"@).unwrap(),
                nodes: spec_str_field(j, "nodes"@).unwrap(),
                over_time_limit: spec_opt_i64_field(j, "over_time_limit"@).unwrap(),
                priority_job_factor: spec_opt_i64_field(j, "priority_job_factor"@).unwrap(),
                priority_tier: spec_opt_i64_field(j, "priority_tier"@).unwrap(),
                qos: spec_str_field(j, "qos"@).unwrap(),
                state: spec_str_field(j, "state"@).unwrap(),
                total_cpus: spec_opt_i64_field(j, "total_cpus"@).unwrap(),
                total_nodes: spec_opt_i64_field(j, "total_nodes"@).unwrap(),
                tres: spec_str_field(j, "tres"@).unwrap(),
                maximum_memory_per_cpu: spec_opt_i64_field(j, "maximum_memory_per_cpu"@).unwrap(),
                default_memory_per_node: spec_opt_i64_field(j, "default_memory_per_node"@).unwrap(),
            },
        )
    } else {
        None
    }
}

impl Partition {
    /// Read one group of fields.
    #[verifier::rlimit(50)]
    fn from_json_part_0(j: &Json) -> (r: Result<(Vec<String>, Vec<String>, String, String, String, String, String, String,), JsonError>)
        ensures
            match r {
                Ok(t) => spec_str_list_field(j@, "flags"@) == Some(strs_view(t.0@))
                    && spec_str_list_field(j@, "preemption_mode"@) == Some(strs_view(t.1@))
                    && spec_str_field(j@, "allowed_allocation_nodes"@) == Some(t.2@)
                    && spec_str_field(j@, "allowed_accounts"@) == Some(t.3@)
                    && spec_str_field(j@, "allowed_groups"@) == Some(t.4@)
                    && spec_str_field(j@, "allowed_qos"@) == Some(t.5@)
                    && spec_str_field(j@, "alternative"@) == Some(t.6@)
                    && spec_str_field(j@, "billing_weights"@) == Some(t.7@),
                Err(_) => !spec_partition_ok(j@),
            },
    {
        let flags = j.get_str_list("flags")?;
        let preemption_mode = j.get_str_list("preemption_mode")?;
        let allowed_allocation_nodes = j.get_str("allowed_allocation_nodes")?;
        let allowed_accounts = j.get_str("allowed_accounts")?;
        let allowed_groups = j.get_str("allowed_groups")?;
        let allowed_qos = j.get_str("allowed_qos")?;
        let alternative = j.get_str("alternative")?;
        let billing_weights = j.get_str("billing_weights")?;
        Ok((flags, preemption_mode, allowed_allocation_nodes, allowed_accounts, allowed_groups, allowed_qos, alternative, billing_weights,))
    }

    /// Read one group of fields.
    #[verifier::rlimit(50)]
    fn from_json_part_1(j: &Json) -> (r: Result<(Option<i64>, Option<i64>, String, String, Option<i64>, Option<i64>, Option<i64>, Option<i64>,), JsonError>)
        ensures
            match r {
                Ok(t) => spec_opt_i64_field(j@, "default_memory_per_cpu"@) == Some(t.0)
                    && spec_opt_i64_field(j@, "default_time_limit"@) == Some(t.1)
                    && spec_str_field(j@, "denied_accounts"@) == Some(t.2@)
                    && spec_str_field(j@, "denied_qos"@) == Some(t.3@)
                    && spec_opt_i64_field(j@, "preemption_grace_time"@) == Some(t.4)
                    && spec_opt_i64_field(j@, "maximum_cpus_per_node"@) == Some(t.5)
                    && spec_opt_i64_field(j@, "maximum_memory_per_node"@) == Some(t.6)
                    && spec_opt_i64_field(j@, "maximum_nodes_per_job"@) == Some(t.7),
                Err(_) => !spec_partition_ok(j@),
            },
    {
        let default_memory_per_cpu = j.get_opt_i64("default_memory_per_cpu")?;
        let default_time_limit = j.get_opt_i64("default_time_limit")?;
        let denied_accounts = j.get_str("denied_accounts")?;
        let denied_qos = j.get_str("denied_qos")?;
        let preemption_grace_time = j.get_opt_i64("preemption_grace_time")?;
        let maximum_cpus_per_node = j.get_opt_i64("maximum_cpus_per_node")?;
        let maximum_memory_per_node = j.get_opt_i64("maximum_memory_per_node")?;
        let maximum_nodes_per_job = j.get_opt_i64("maximum_nodes_per_job")?;
        Ok((default_memory_per_cpu, default_time_limit, denied_accounts, denied_qos, preemption_grace_time, maximum_cpus_per_node, maximum_memory_per_node, maximum_nodes_per_job,))
    }

    /// Read one group of fields.
    #[verifier::rlimit(50)]
    fn from_json_part_2(j: &Json) -> (r: Result<(Option<i64>, Option<i64>, String, String, Option<i64>, Option<i64>, Option<i64>, String,), JsonError>)
        ensures
            match r {
                Ok(t) => spec_opt_i64_field(j@, "max_time_limit"@) == Some(t.0)
                    && spec_opt_i64_field(j@, "min_nodes_per_job"@) == Some(t.1)
                    && spec_str_field(j@, "name"@) == Some(t.2@)
                    && spec_str_field(j@, "nodes"@) == Some(t.3@)
                    && spec_opt_i64_field(j@, "over_time_limit"@) == Some(t.4)
                    && spec_opt_i64_field(j@, "priority_job_factor"@) == Some(t.5)
                    && spec_opt_i64_field(j@, "priority_tier"@) == Some(t.6)
                    && spec_str_field(j@, "qos"@) == Some(t.7@),
                Err(_) => !spec_partition_ok(j@),
            },
    {
        let max_time_limit = j.get_opt_i64("max_time_limit")?;
        let min_nodes_per_job = j.get_opt_i64("min_nodes_per_job")?;
        let name = j.get_str("name")?;
        let nodes = j.get_str("nodes")?;
        let over_time_limit = j.get_opt_i64("over_time_limit")?;
        let priority_job_factor = j.get_opt_i64("priority_job_factor")?;
        let priority_tier = j.get_opt_i64("priority_tier")?;
        let qos = j.get_str("qos")?;
        Ok((max_time_limit, min_nodes_per_job, name, nodes, over_time_limit, priority_job_factor, priority_tier, qos,))
    }

    /// Read one group of fields.
    #[verifier::rlimit(50)]
    fn from_json_part_3(j: &Json) -> (r: Result<(String, Option<i64>, Option<i64>, String, Option<i64>, Option<i64>,), JsonError>)
        ensures
            match r {
                Ok(t) => spec_str_field(j@, "state"@) == Some(t.0@)
                    && spec_opt_i64_field(j@, "total_cpus"@) == Some(t.1)
                    && spec_opt_i64_field(j@, "total_nodes"@) == Some(t.2)
                    && spec_str_field(j@, "tres"@) == Some(t.3@)
                    && spec_opt_i64_field(j@, "maximum_memory_per_cpu"@) == Some(t.4)
                    && spec_opt_i64_field(j@, "default_memory_per_node"@) == Some(t.5),
                Err(_) => !spec_partition_ok(j@),
            },
    {
        let state = j.get_str("state")?;
        let total_cpus = j.get_opt_i64("total_cpus")?;
        let total_nodes = j.get_opt_i64("total_nodes")?;
        let tres = j.get_str("tres")?;
        let maximum_memory_per_cpu = j.get_opt_i64("maximum_memory_per_cpu")?;
        let default_memory_per_node = j.get_opt_i64("default_memory_per_node")?;
        Ok((state, total_cpus, total_nodes, tres, maximum_memory_per_cpu, default_memory_per_node,))
    }

    /// Read one record out of a JSON object; missing fields
    /// decode to their defaults, fields of the wrong type are a
    /// schema mismatch.
    #[verifier::rlimit(100)]
    pub fn from_json(j: &Json) -> (r: Result<Partition, JsonError>)
        ensures
            match r {
                Ok(v) => spec_decode_partition(j@) == Some(v@),
                Err(_) => spec_decode_partition(j@) is None,
            },
    {
        if !j.is_obj() {
            return Err(JsonError::new());
        }
        let t0 = Partition::from_json_part_0(j)?;
        let t1 = Partition::from_json_part_1(j)?;
        let t2 = Partition::from_json_part_2(j)?;
        let t3 = Partition::from_json_part_3(j)?;
        Ok(
            Partition {
                flags: t0.0,
                preemption_mode: t0.1,
                allowed_allocation_nodes: t0.2,
                allowed_accounts: t0.3,
                allowed_groups: t0.4,
                allowed_qos: t0.5,
                alternative: t0.6,
                billing_weights: t0.7,
                default_memory_per_cpu: t1.0,
                default_time_limit: t1.1,
                denied_accounts: t1.2,
                denied_qos: t1.3,
                preemption_grace_time: t1.4,
                maximum_cpus_per_node: t1.5,
                maximum_memory_per_node: t1.6,
                maximum_nodes_per_job: t1.7,
                max_time_limit: t2.0,
                min_nodes_per_job: t2.1,
                name: t2.2,
                nodes: t2.3,
                over_time_limit: t2.4,
                priority_job_factor: t2.5,
                priority_tier: t2.6,
                qos: t2.7,
                state: t3.0,
                total_cpus: t3.1,
                total_nodes: t3.2,
                tres: t3.3,
                maximum_memory_per_cpu: t3.4,
                default_memory_per_node: t3.5,
            },
        )
    }

    /// Write this record as a JSON object, one field per key,
    /// absent parts as null.
    #[verifier::rlimit(100)]
    pub fn to_json(&self) -> (r: Json)
        ensures
            r@ == spec_encode_partition(self@),
    {
        let mut fields: Vec<(String, Json)> = Vec::new();
        let ghost pre_flags = fields@;
        let key_flags = "flags".to_owned();
        let ghost gkey_flags = key_flags;
        let val_flags = Json::Arr(strs_to_json(&self.flags));
        let ghost gval_flags = val_flags;
        proof {
            assert(gval_flags.model() == JsonV::Arr(spec_encode_strs(self@.flags)));
        }
        fields.push((key_flags, val_flags));
        proof {
            lemma_view_fields_snoc(pre_flags, gkey_flags, gval_flags);
        }
        let ghost pre_preemption_mode = fields@;
        let key_preemption_mode = "preemption_mode".to_owned();
        let ghost gkey_preemption_mode = key_preemption_mode;
        let val_preemption_mode = Json::Arr(strs_to_json(&self.preemption_mode));
        let ghost gval_preemption_mode = val_preemption_mode;
        proof {
            assert(gval_preemption_mode.model() == JsonV::Arr(spec_encode_strs(self@.preemption_mode)));
        }
        fields.push((key_preemption_mode, val_preemption_mode));
        proof {
            lemma_view_fields_snoc(pre_preemption_mode, gkey_preemption_mode, gval_preemption_mode);
        }
        let ghost pre_allowed_allocation_nodes = fields@;
        let key_allowed_allocation_nodes = "allowed_allocation_nodes".to_owned();
        let ghost gkey_allowed_allocation_nodes = key_allowed_allocation_nodes;
        let val_allowed_allocation_nodes = Json::Str(self.allowed_allocation_nodes.clone());
        let ghost gval_allowed_allocation_nodes = val_allowed_allocation_nodes;
        proof {
            assert(gval_allowed_allocation_nodes.model() == JsonV::Str(self@.allowed_allocation_nodes));
        }
        fields.push((key_allowed_allocation_nodes, val_allowed_allocation_nodes));
        proof {
            lemma_view_fields_snoc(pre_allowed_allocation_nodes, gkey_allowed_allocation_nodes, gval_allowed_allocation_nodes);
        }
        let ghost pre_allowed_accounts = fields@;
        let key_allowed_accounts = "allowed_accounts".to_owned();
        let ghost gkey_allowed_accounts = key_allowed_accounts;
        let val_allowed_accounts = Json::Str(self.allowed_accounts.clone());
        let ghost gval_allowed_accounts = val_allowed_accounts;
        proof {
            assert(gval_allowed_accounts.model() == JsonV::Str(self@.allowed_accounts));
        }
        fields.push((key_allowed_accounts, val_allowed_accounts));
        proof {
            lemma_view_fields_snoc(pre_allowed_accounts, gkey_allowed_accounts, gval_allowed_accounts);
        }
        let ghost pre_allowed_groups = fields@;
        let key_allowed_groups = "allowed_groups".to_owned();
        let ghost gkey_allowed_groups = key_allowed_groups;
        let val_allowed_groups = Json::Str(self.allowed_groups.clone());
        let ghost gval_allowed_groups = val_allowed_groups;
        proof {
            assert(gval_allowed_groups.model() == JsonV::Str(self@.allowed_groups));
        }
        fields.push((key_allowed_groups, val_allowed_groups));
        proof {
            lemma_view_fields_snoc(pre_allowed_groups, gkey_allowed_groups, gval_allowed_groups);
        }
        let ghost pre_allowed_qos = fields@;
        let key_allowed_qos = "allowed_qos".to_owned();
        let ghost gkey_allowed_qos = key_allowed_qos;
        let val_allowed_qos = Json::Str(self.allowed_qos.clone());
        let ghost gval_allowed_qos = val_allowed_qos;
        proof {
            assert(gval_allowed_qos.model() == JsonV::Str(self@.allowed_qos));
        }
        fields.push((key_allowed_qos, val_allowed_qos));
        proof {
            lemma_view_fields_snoc(pre_allowed_qos, gkey_allowed_qos, gval_allowed_qos);
        }
        let ghost pre_alternative = fields@;
        let key_alternative = "alternative".to_owned();
        let ghost gkey_alternative = key_alternative;
        let val_alternative = Json::Str(self.alternative.clone());
        let ghost gval_alternative = val_alternative;
        proof {
            assert(gval_alternative.model() == JsonV::Str(self@.alternative));
        }
        fields.push((key_alternative, val_alternative));
        proof {
            lemma_view_fields_snoc(pre_alternative, gkey_alternative, gval_alternative);
        }
        let ghost pre_billing_weights = fields@;
        let key_billing_weights = "billing_weights".to_owned();
        let ghost gkey_billing_weights = key_billing_weights;
        let val_billing_weights = Json::Str(self.billing_weights.clone());
        let ghost gval_billing_weights = val_billing_weights;
        proof {
            assert(gval_billing_weights.model() == JsonV::Str(self@.billing_weights));
        }
        fields.push((key_billing_weights, val_billing_weights));
        proof {
            lemma_view_fields_snoc(pre_billing_weights, gkey_billing_weights, gval_billing_weights);
        }
        let ghost pre_default_memory_per_cpu = fields@;
        let key_default_memory_per_cpu = "default_memory_per_cpu".to_owned();
        let ghost gkey_default_memory_per_cpu = key_default_memory_per_cpu;
        let val_default_memory_per_cpu = match self.default_memory_per_cpu {
            Some(i) => Json::Int(i),
            None => Json::Null,
        };
        let ghost gval_default_memory_per_cpu = val_default_memory_per_cpu;
        proof {
            assert(gval_default_memory_per_cpu.model() == spec_enc_opt_i64(self@.default_memory_per_cpu));
        }
        fields.push((key_default_memory_per_cpu, val_default_memory_per_cpu));
        proof {
            lemma_view_fields_snoc(pre_default_memory_per_cpu, gkey_default_memory_per_cpu, gval_default_memory_per_cpu);
        }
        let ghost pre_default_time_limit = fields@;
        let key_default_time_limit = "default_time_limit".to_owned();
        let ghost gkey_default_time_limit = key_default_time_limit;
        let val_default_time_limit = match self.default_time_limit {
            Some(i) => Json::Int(i),
            None => Json::Null,
        };
        let ghost gval_default_time_limit = val_default_time_limit;
        proof {
            assert(gval_default_time_limit.model() == spec_enc_opt_i64(self@.default_time_limit));
        }
        fields.push((key_default_time_limit, val_default_time_limit));
        proof {
            lemma_view_fields_snoc(pre_default_time_limit, gkey_default_time_limit, gval_default_time_limit);
        }
        let ghost pre_denied_accounts = fields@;
        let key_denied_accounts = "denied_accounts".to_owned();
        let ghost gkey_denied_accounts = key_denied_accounts;
        let val_denied_accounts = Json::Str(self.denied_accounts.clone());
        let ghost gval_denied_accounts = val_denied_accounts;
        proof {
            assert(gval_denied_accounts.model() == JsonV::Str(self@.denied_accounts));
        }
        fields.push((key_denied_accounts, val_denied_accounts));
        proof {
            lemma_view_fields_snoc(pre_denied_accounts, gkey_denied_accounts, gval_denied_accounts);
        }
        let ghost pre_denied_qos = fields@;
        let key_denied_qos = "denied_qos".to_owned();
        let ghost gkey_denied_qos = key_denied_qos;
        let val_denied_qos = Json::Str(self.denied_qos.clone());
        let ghost gval_denied_qos = val_denied_qos;
        proof {
            assert(gval_denied_qos.model() == JsonV::Str(self@.denied_qos));
        }
        fields.push((key_denied_qos, val_denied_qos));
        proof {
            lemma_view_fields_snoc(pre_denied_qos, gkey_denied_qos, gval_denied_qos);
        }
        let ghost pre_preemption_grace_time = fields@;
        let key_preemption_grace_time = "preemption_grace_time".to_owned();
        let ghost gkey_preemption_grace_time = key_preemption_grace_time;
        let val_preemption_grace_time = match self.preemption_grace_time {
            Some(i) => Json::Int(i),
            None => Json::Null,
        };
        let ghost gval_preemption_grace_time = val_preemption_grace_time;
        proof {
            assert(gval_preemption_grace_time.model() == spec_enc_opt_i64(self@.preemption_grace_time));
        }
        fields.push((key_preemption_grace_time, val_preemption_grace_time));
        proof {
            lemma_view_fields_snoc(pre_preemption_grace_time, gkey_preemption_grace_time, gval_preemption_grace_time);
        }
        let ghost pre_maximum_cpus_per_node = fields@;
        let key_maximum_cpus_per_node = "maximum_cpus_per_node".to_owned();
        let ghost gkey_maximum_cpus_per_node = key_maximum_cpus_per_node;
        let val_maximum_cpus_per_node = match self.maximum_cpus_per_node {
            Some(i) => Json::Int(i),
            None => Json::Null,
        };
        let ghost gval_maximum_cpus_per_node = val_maximum_cpus_per_node;
        proof {
            assert(gval_maximum_cpus_per_node.model() == spec_enc_opt_i64(self@.maximum_cpus_per_node));
        }
        fields.push((key_maximum_cpus_per_node, val_maximum_cpus_per_node));
        proof {
            lemma_view_fields_snoc(pre_maximum_cpus_per_node, gkey_maximum_cpus_per_node, gval_maximum_cpus_per_node);
        }
        let ghost pre_maximum_memory_per_node = fields@;
        let key_maximum_memory_per_node = "maximum_memory_per_node".to_owned();
        let ghost gkey_maximum_memory_per_node = key_maximum_memory_per_node;
        let val_maximum_memory_per_node = match self.maximum_memory_per_node {
            Some(i) => Json::Int(i),
            None => Json::Null,
        };
        let ghost gval_maximum_memory_per_node = val_maximum_memory_per_node;
        proof {
            assert(gval_maximum_memory_per_node.model() == spec_enc_opt_i64(self@.maximum_memory_per_node));
        }
        fields.push((key_maximum_memory_per_node, val_maximum_memory_per_node));
        proof {
            lemma_view_fields_snoc(pre_maximum_memory_per_node, gkey_maximum_memory_per_node, gval_maximum_memory_per_node);
        }
        let ghost pre_maximum_nodes_per_job = fields@;
        let key_maximum_nodes_per_job = "maximum_nodes_per_job".to_owned();
        let ghost gkey_maximum_nodes_per_job = key_maximum_nodes_per_job;
        let val_maximum_nodes_per_job = match self.maximum_nodes_per_job {
            Some(i) => Json::Int(i),
            None => Json::Null,
        };
        let ghost gval_maximum_nodes_per_job = val_maximum_nodes_per_job;
        proof {
            assert(gval_maximum_nodes_per_job.model() == spec_enc_opt_i64(self@.maximum_nodes_per_job));
        }
        fields.push((key_maximum_nodes_per_job, val_maximum_nodes_per_job));
        proof {
            lemma_view_fields_snoc(pre_maximum_nodes_per_job, gkey_maximum_nodes_per_job, gval_maximum_nodes_per_job);
        }
        let ghost pre_max_time_limit = fields@;
        let key_max_time_limit = "max_time_limit".to_owned();
        let ghost gkey_max_time_limit = key_max_time_limit;
        let val_max_time_limit = match self.max_time_limit {
            Some(i) => Json::Int(i),
            None => Json::Null,
        };
        let ghost gval_max_time_limit = val_max_time_limit;
        proof {
            assert(gval_max_time_limit.model() == spec_enc_opt_i64(self@.max_time_limit));
        }
        fields.push((key_max_time_limit, val_max_time_limit));
        proof {
            lemma_view_fields_snoc(pre_max_time_limit, gkey_max_time_limit, gval_max_time_limit);
        }
        let ghost pre_min_nodes_per_job = fields@;
        let key_min_nodes_per_job = "min_nodes_per_job".to_owned();
        let ghost gkey_min_nodes_per_job = key_min_nodes_per_job;
        let val_min_nodes_per_job = match self.min_nodes_per_job {
            Some(i) => Json::Int(i),
            None => Json::Null,
        };
        let ghost gval_min_nodes_per_job = val_min_nodes_per_job;
        proof {
            assert(gval_min_nodes_per_job.model() == spec_enc_opt_i64(self@.min_nodes_per_job));
        }
        fields.push((key_min_nodes_per_job, val_min_nodes_per_job));
        proof {
            lemma_view_fields_snoc(pre_min_nodes_per_job, gkey_min_nodes_per_job, gval_min_nodes_per_job);
        }
        let ghost pre_name = fields@;
        let key_name = "name".to_owned();
        let ghost gkey_name = key_name;
        let val_name = Json::Str(self.name.clone());
        let ghost gval_name = val_name;
        proof {
            assert(gval_name.model() == JsonV::Str(self@.name));
        }
        fields.push((key_name, val_name));
        proof {
            lemma_view_fields_snoc(pre_name, gkey_name, gval_name);
        }
        let ghost pre_nodes = fields@;
        let key_nodes = "nodes".to_owned();
        let ghost gkey_nodes = key_nodes;
        let val_nodes = Json::Str(self.nodes.clone());
        let ghost gval_nodes = val_nodes;
        proof {
            assert(gval_nodes.model() == JsonV::Str(self@.nodes));
        }
        fields.push((key_nodes, val_nodes));
        proof {
            lemma_view_fields_snoc(pre_nodes, gkey_nodes, gval_nodes);
        }
        let ghost pre_over_time_limit = fields@;
        let key_over_time_limit = "over_time_limit".to_owned();
        let ghost gkey_over_time_limit = key_over_time_limit;
        let val_over_time_limit = match self.over_time_limit {
            Some(i) => Json::Int(i),
            None => Json::Null,
        };
        let ghost gval_over_time_limit = val_over_time_limit;
        proof {
            assert(gval_over_time_limit.model() == spec_enc_opt_i64(self@.over_time_limit));
        }
        fields.push((key_over_time_limit, val_over_time_limit));
        proof {
            lemma_view_fields_snoc(pre_over_time_limit, gkey_over_time_limit, gval_over_time_limit);
        }
        let ghost pre_priority_job_factor = fields@;
        let key_priority_job_factor = "priority_job_factor".to_owned();
        let ghost gkey_priority_job_factor = key_priority_job_factor;
        let val_priority_job_factor = match self.priority_job_factor {
            Some(i) => Json::Int(i),
            None => Json::Null,
        };
        let ghost gval_priority_job_factor = val_priority_job_factor;
        proof {
            assert(gval_priority_job_factor.model() == spec_enc_opt_i64(self@.priority_job_factor));
        }
        fields.push((key_priority_job_factor, val_priority_job_factor));
        proof {
            lemma_view_fields_snoc(pre_priority_job_factor, gkey_priority_job_factor, gval_priority_job_factor);
        }
        let ghost pre_priority_tier = fields@;
        let key_priority_tier = "priority_tier".to_owned();
        let ghost gkey_priority_tier = key_priority_tier;
        let val_priority_tier = match self.priority_tier {
            Some(i) => Json::Int(i),
            None => Json::Null,
        };
        let ghost gval_priority_tier = val_priority_tier;
        proof {
            assert(gval_priority_tier.model() == spec_enc_opt_i64(self@.priority_tier));
        }
        fields.push((key_priority_tier, val_priority_tier));
        proof {
            lemma_view_fields_snoc(pre_priority_tier, gkey_priority_tier, gval_priority_tier);
        }
        let ghost pre_qos = fields@;
        let key_qos = "qos".to_owned();
        let ghost gkey_qos = key_qos;
        let val_qos = Json::Str(self.qos.clone());
        let ghost gval_qos = val_qos;
        proof {
            assert(gval_qos.model() == JsonV::Str(self@.qos));
        }
        fields.push((key_qos, val_qos));
        proof {
            lemma_view_fields_snoc(pre_qos, gkey_qos, gval_qos);
        }
        let ghost pre_state = fields@;
        let key_state = "state".to_owned();
        let ghost gkey_state = key_state;
        let val_state = Json::Str(self.state.clone());
        let ghost gval_state = val_state;
        proof {
            assert(gval_state.model() == JsonV::Str(self@.state));
        }
        fields.push((key_state, val_state));
        proof {
            lemma_view_fields_snoc(pre_state, gkey_state, gval_state);
        }
        let ghost pre_total_cpus = fields@;
        let key_total_cpus = "total_cpus".to_owned();
        let ghost gkey_total_cpus = key_total_cpus;
        let val_total_cpus = match self.total_cpus {
            Some(i) => Json::Int(i),
            None => Json::Null,
        };
        let ghost gval_total_cpus = val_total_cpus;
        proof {
            assert(gval_total_cpus.model() == spec_enc_opt_i64(self@.total_cpus));
        }
        fields.push((key_total_cpus, val_total_cpus));
        proof {
            lemma_view_fields_snoc(pre_total_cpus, gkey_total_cpus, gval_total_cpus);
        }
        let ghost pre_total_nodes = fields@;
        let key_total_nodes = "total_nodes".to_owned();
        let ghost gkey_total_nodes = key_total_nodes;
        let val_total_nodes = match self.total_nodes {
            Some(i) => Json::Int(i),
            None => Json::Null,
        };
        let ghost gval_total_nodes = val_total_nodes;
        proof {
            assert(gval_total_nodes.model() == spec_enc_opt_i64(self@.total_nodes));
        }
        fields.push((key_total_nodes, val_total_nodes));
        proof {
            lemma_view_fields_snoc(pre_total_nodes, gkey_total_nodes, gval_total_nodes);
        }
        let ghost pre_tres = fields@;
        let key_tres = "tres".to_owned();
        let ghost gkey_tres = key_tres;
        let val_tres = Json::Str(self.tres.clone());
        let ghost gval_tres = val_tres;
        proof {
            assert(gval_tres.model() == JsonV::Str(self@.tres));
        }
        fields.push((key_tres, val_tres));
        proof {
            lemma_view_fields_snoc(pre_tres, gkey_tres, gval_tres);
        }
        let ghost pre_maximum_memory_per_cpu = fields@;
        let key_maximum_memory_per_cpu = "maximum_memory_per_cpu".to_owned();
        let ghost gkey_maximum_memory_per_cpu = key_maximum_memory_per_cpu;
        let val_maximum_memory_per_cpu = match self.maximum_memory_per_cpu {
            Some(i) => Json::Int(i),
            None => Json::Null,
        };
        let ghost gval_maximum_memory_per_cpu = val_maximum_memory_per_cpu;
        proof {
            assert(gval_maximum_memory_per_cpu.model() == spec_enc_opt_i64(self@.maximum_memory_per_cpu));
        }
        fields.push((key_maximum_memory_per_cpu, val_maximum_memory_per_cpu));
        proof {
            lemma_view_fields_snoc(pre_maximum_memory_per_cpu, gkey_maximum_memory_per_cpu, gval_maximum_memory_per_cpu);
        }
        let ghost pre_default_memory_per_node = fields@;
        let key_default_memory_per_node = "default_memory_per_node".to_owned();
        let ghost gkey_default_memory_per_node = key_default_memory_per_node;
        let val_default_memory_per_node = match self.default_memory_per_node {
            Some(i) => Json::Int(i),
            None => Json::Null,
        };
        let ghost gval_default_memory_per_node = val_default_memory_per_node;
        proof {
            assert(gval_default_memory_per_node.model() == spec_enc_opt_i64(self@.default_memory_per_node));
        }
        fields.push((key_default_memory_per_node, val_default_memory_per_node));
        proof {
            lemma_view_fields_snoc(pre_default_memory_per_node, gkey_default_memory_per_node, gval_default_memory_per_node);
        }
        let r = Json::Obj(fields);
        proof {
            assert(r@ == spec_encode_partition(self@));
        }
        r
    }
}

/// The JSON object that one record encodes to.
pub open spec fn spec_encode_partition(v: PartitionV) -> JsonV {
    JsonV::Obj(
        Seq::empty()
            .push(("flags"@, JsonV::Arr(spec_encode_strs(v.flags))))
            .push(("preemption_mode"@, JsonV::Arr(spec_encode_strs(v.preemption_mode))))
            .push(("allowed_allocation_nodes"@, JsonV::Str(v.allowed_allocation_nodes)))
            .push(("allowed_accounts"@, JsonV::Str(v.allowed_accounts)))
            .push(("allowed_groups"@, JsonV::Str(v.allowed_groups)))
            .push(("allowed_qos"@, JsonV::Str(v.allowed_qos)))
            .push(("alternative"@, JsonV::Str(v.alternative)))
            .push(("billing_weights"@, JsonV::Str(v.billing_weights)))
            .push(("default_memory_per_cpu"@, spec_enc_opt_i64(v.default_memory_per_cpu)))
            .push(("default_time_limit"@, spec_enc_opt_i64(v.default_time_limit)))
            .push(("denied_accounts"@, JsonV::Str(v.denied_accounts)))
            .push(("denied_qos"@, JsonV::Str(v.denied_qos)))
            .push(("preemption_grace_time"@, spec_enc_opt_i64(v.preemption_grace_time)))
            .push(("maximum_cpus_per_node"@, spec_enc_opt_i64(v.maximum_cpus_per_node)))
            .push(("maximum_memory_per_node"@, spec_enc_opt_i64(v.maximum_memory_per_node)))
            .push(("maximum_nodes_per_job"@, spec_enc_opt_i64(v.maximum_nodes_per_job)))
            .push(("max_time_limit"@, spec_enc_opt_i64(v.max_time_limit)))
            .push(("min_nodes_per_job"@, spec_enc_opt_i64(v.min_nodes_per_job)))
            .push(("name"@, JsonV::Str(v.name)))
            .push(("nodes"@, JsonV::Str(v.nodes)))
            .push(("over_time_limit"@, spec_enc_opt_i64(v.over_time_limit)))
            .push(("priority_job_factor"@, spec_enc_opt_i64(v.priority_job_factor)))
            .push(("priority_tier"@, spec_enc_opt_i64(v.priority_tier)))
            .push(("qos"@, JsonV::Str(v.qos)))
            .push(("state"@, JsonV::Str(v.state)))
            .push(("total_cpus"@, spec_enc_opt_i64(v.total_cpus)))
            .push(("total_nodes"@, spec_enc_opt_i64(v.total_nodes)))
            .push(("tres"@, JsonV::Str(v.tres)))
            .push(("maximum_memory_per_cpu"@, spec_enc_opt_i64(v.maximum_memory_per_cpu)))
            .push(("default_memory_per_node"@, spec_enc_opt_i64(v.default_memory_per_node)))
    )
}

/// The value at each of a few keys of an encoded record.
#[verifier::rlimit(100)]
proof fn lemma_partition_lookups_0(v: PartitionV)
    ensures
        lookup_fields(spec_encode_partition(v)->Obj_0, "flags"@) == Some(JsonV::Arr(spec_encode_strs(v.flags))),
        lookup_fields(spec_encode_partition(v)->Obj_0, "preemption_mode"@) == Some(JsonV::Arr(spec_encode_strs(v.preemption_mode))),
        lookup_fields(spec_encode_partition(v)->Obj_0, "allowed_allocation_nodes"@) == Some(JsonV::Str(v.allowed_allocation_nodes)),
        lookup_fields(spec_encode_partition(v)->Obj_0, "allowed_accounts"@) == Some(JsonV::Str(v.allowed_accounts)),
        lookup_fields(spec_encode_partition(v)->Obj_0, "allowed_groups"@) == Some(JsonV::Str(v.allowed_groups)),
{
    reveal_strlit("allowed_accounts");
    reveal_strlit("allowed_allocation_nodes");
    reveal_strlit("allowed_groups");
    reveal_strlit("allowed_qos");
    reveal_strlit("alternative");
    reveal_strlit("billing_weights");
    reveal_strlit("default_memory_per_cpu");
    reveal_strlit("default_memory_per_node");
    reveal_strlit("default_time_limit");
    reveal_strlit("denied_accounts");
    reveal_strlit("denied_qos");
    reveal_strlit("flags");
    reveal_strlit("max_time_limit");
    reveal_strlit("maximum_cpus_per_node");
    reveal_strlit("maximum_memory_per_cpu");
    reveal_strlit("maximum_memory_per_node");
    reveal_strlit("maximum_nodes_per_job");
    reveal_strlit("min_nodes_per_job");
    reveal_strlit("name");
    reveal_strlit("nodes");
    reveal_strlit("over_time_limit");
    reveal_strlit("preemption_grace_time");
    reveal_strlit("preemption_mode");
    reveal_strlit("priority_job_factor");
    reveal_strlit("priority_tier");
    reveal_strlit("qos");
    reveal_strlit("state");
    reveal_strlit("total_cpus");
    reveal_strlit("total_nodes");
    reveal_strlit("tres");
    assert("allowed_accounts"@.len() == 16);
    assert("allowed_allocation_nodes"@.len() == 24);
    assert("allowed_groups"@.len() == 14);
    assert("allowed_qos"@.len() == 11);
    assert("alternative"@.len() == 11);
    assert("billing_weights"@.len() == 15);
    assert("default_memory_per_cpu"@.len() == 22);
    assert("default_memory_per_node"@.len() == 23);
    assert("default_time_limit"@.len() == 18);
    assert("denied_accounts"@.len() == 15);
    assert("denied_qos"@.len() == 10);
    assert("flags"@.len() == 5);
    assert("max_time_limit"@.len() == 14);
    assert("maximum_cpus_per_node"@.len() == 21);
    assert("maximum_memory_per_cpu"@.len() == 22);
    assert("maximum_memory_per_node"@.len() == 23);
    assert("maximum_nodes_per_job"@.len() == 21);
    assert("min_nodes_per_job"@.len() == 17);
    assert("name"@.len() == 4);
    assert("nodes"@.len() == 5);
    assert("over_time_limit"@.len() == 15);
    assert("preemption_grace_time"@.len() == 21);
    assert("preemption_mode"@.len() == 15);
    assert("priority_job_factor"@.len() == 19);
    assert("priority_tier"@.len() == 13);
    assert("qos"@.len() == 3);
    assert("state"@.len() == 5);
    assert("total_cpus"@.len() == 10);
    assert("total_nodes"@.len() == 11);
    assert("tres"@.len() == 4);
    assert("allowed_groups"@[0] == 'a');
    assert("max_time_limit"@[0] == 'm');
    assert("allowed_qos"@[2] == 'l');
    assert("alternative"@[2] == 't');
    assert("allowed_qos"@[0] == 'a');
    assert("total_nodes"@[0] == 't');
    assert("alternative"@[0] == 'a');
    assert("total_nodes"@[0] == 't');
    assert("billing_weights"@[0] == 'b');
    assert("denied_accounts"@[0] == 'd');
    assert("billing_weights"@[0] == 'b');
    assert("over_time_limit"@[0] == 'o');
    assert("billing_weights"@[0] == 'b');
    assert("preemption_mode"@[0] == 'p');
    assert("default_memory_per_cpu"@[0] == 'd');
    assert("maximum_memory_per_cpu"@[0] == 'm');
    assert("default_memory_per_node"@[0] == 'd');
    assert("maximum_memory_per_node"@[0] == 'm');
    assert("denied_accounts"@[0] == 'd');
    assert("over_time_limit"@[0] == 'o');
    assert("denied_accounts"@[0] == 'd');
    assert("preemption_mode"@[0] == 'p');
    assert("denied_qos"@[0] == 'd');
    assert("total_cpus"@[0] == 't');
    assert("flags"@[0] == 'f');
    assert("nodes"@[0] == 'n');
    assert("flags"@[0] == 'f');
    assert("state"@[0] == 's');
    assert("maximum_cpus_per_node"@[8] == 'c');
    assert("maximum_nodes_per_job"@[8] == 'n');
    assert("maximum_cpus_per_node"@[0] == 'm');
    assert("preemption_grace_time"@[0] == 'p');
    assert("maximum_nodes_per_job"@[0] == 'm');
    assert("preemption_grace_time"@[0] == 'p');
    assert("name"@[0] == 'n');
    assert("tres"@[0] == 't');
    assert("nodes"@[0] == 'n');
    assert("state"@[0] == 's');
    assert("over_time_limit"@[0] == 'o');
    assert("preemption_mode"@[0] == 'p');
    let fs0 = Seq::<(Seq<char>, JsonV)>::empty();
    lemma_lookup_fields_push_all(fs0, "flags"@, JsonV::Arr(spec_encode_strs(v.flags)));
    let fs1 = fs0.push(("flags"@, JsonV::Arr(spec_encode_strs(v.flags))));
    lemma_lookup_fields_push_all(fs1, "preemption_mode"@, JsonV::Arr(spec_encode_strs(v.preemption_mode)));
    let fs2 = fs1.push(("preemption_mode"@, JsonV::Arr(spec_encode_strs(v.preemption_mode))));
    lemma_lookup_fields_push_all(fs2, "allowed_allocation_nodes"@, JsonV::Str(v.allowed_allocation_nodes));
    let fs3 = fs2.push(("allowed_allocation_nodes"@, JsonV::Str(v.allowed_allocation_nodes)));
    lemma_lookup_fields_push_all(fs3, "allowed_accounts"@, JsonV::Str(v.allowed_accounts));
    let fs4 = fs3.push(("allowed_accounts"@, JsonV::Str(v.allowed_accounts)));
    lemma_lookup_fields_push_all(fs4, "allowed_groups"@, JsonV::Str(v.allowed_groups));
    let fs5 = fs4.push(("allowed_groups"@, JsonV::Str(v.allowed_groups)));
    lemma_lookup_fields_push_all(fs5, "allowed_qos"@, JsonV::Str(v.allowed_qos));
    let fs6 = fs5.push(("allowed_qos"@, JsonV::Str(v.allowed_qos)));
    lemma_lookup_fields_push_all(fs6, "alternative"@, JsonV::Str(v.alternative));
    let fs7 = fs6.push(("alternative"@, JsonV::Str(v.alternative)));
    lemma_lookup_fields_push_all(fs7, "billing_weights"@, JsonV::Str(v.billing_weights));
    let fs8 = fs7.push(("billing_weights"@, JsonV::Str(v.billing_weights)));
    lemma_lookup_fields_push_all(fs8, "default_memory_per_cpu"@, spec_enc_opt_i64(v.default_memory_per_cpu));
    let fs9 = fs8.push(("default_memory_per_cpu"@, spec_enc_opt_i64(v.default_memory_per_cpu)));
    lemma_lookup_fields_push_all(fs9, "default_time_limit"@, spec_enc_opt_i64(v.default_time_limit));
    let fs10 = fs9.push(("default_time_limit"@, spec_enc_opt_i64(v.default_time_limit)));
    lemma_lookup_fields_push_all(fs10, "denied_accounts"@, JsonV::Str(v.denied_accounts));
    let fs11 = fs10.push(("denied_accounts"@, JsonV::Str(v.denied_accounts)));
    lemma_lookup_fields_push_all(fs11, "denied_qos"@, JsonV::Str(v.denied_qos));
    let fs12 = fs11.push(("denied_qos"@, JsonV::Str(v.denied_qos)));
    lemma_lookup_fields_push_all(fs12, "preemption_grace_time"@, spec_enc_opt_i64(v.preemption_grace_time));
    let fs13 = fs12.push(("preemption_grace_time"@, spec_enc_opt_i64(v.preemption_grace_time)));
    lemma_lookup_fields_push_all(fs13, "maximum_cpus_per_node"@, spec_enc_opt_i64(v.maximum_cpus_per_node));
    let fs14 = fs13.push(("maximum_cpus_per_node"@, spec_enc_opt_i64(v.maximum_cpus_per_node)));
    lemma_lookup_fields_push_all(fs14, "maximum_memory_per_node"@, spec_enc_opt_i64(v.maximum_memory_per_node));
    let fs15 = fs14.push(("maximum_memory_per_node"@, spec_enc_opt_i64(v.maximum_memory_per_node)));
    lemma_lookup_fields_push_all(fs15, "maximum_nodes_per_job"@, spec_enc_opt_i64(v.maximum_nodes_per_job));
    let fs16 = fs15.push(("maximum_nodes_per_job"@, spec_enc_opt_i64(v.maximum_nodes_per_job)));
    lemma_lookup_fields_push_all(fs16, "max_time_limit"@, spec_enc_opt_i64(v.max_time_limit));
    let fs17 = fs16.push(("max_time_limit"@, spec_enc_opt_i64(v.max_time_limit)));
    lemma_lookup_fields_push_all(fs17, "min_nodes_per_job"@, spec_enc_opt_i64(v.min_nodes_per_job));
    let fs18 = fs17.push(("min_nodes_per_job"@, spec_enc_opt_i64(v.min_nodes_per_job)));
    lemma_lookup_fields_push_all(fs18, "name"@, JsonV::Str(v.name));
    let fs19 = fs18.push(("name"@, JsonV::Str(v.name)));
    lemma_lookup_fields_push_all(fs19, "nodes"@, JsonV::Str(v.nodes));
    let fs20 = fs19.push(("nodes"@, JsonV::Str(v.nodes)));
    lemma_lookup_fields_push_all(fs20, "over_time_limit"@, spec_enc_opt_i64(v.over_time_limit));
    let fs21 = fs20.push(("over_time_limit"@, spec_enc_opt_i64(v.over_time_limit)));
    lemma_lookup_fields_push_all(fs21, "priority_job_factor"@, spec_enc_opt_i64(v.priority_job_factor));
    let fs22 = fs21.push(("priority_job_factor"@, spec_enc_opt_i64(v.priority_job_factor)));
    lemma_lookup_fields_push_all(fs22, "priority_tier"@, spec_enc_opt_i64(v.priority_tier));
    let fs23 = fs22.push(("priority_tier"@, spec_enc_opt_i64(v.priority_tier)));
    lemma_lookup_fields_push_all(fs23, "qos"@, JsonV::Str(v.qos));
    let fs24 = fs23.push(("qos"@, JsonV::Str(v.qos)));
    lemma_lookup_fields_push_all(fs24, "state"@, JsonV::Str(v.state));
    let fs25 = fs24.push(("state"@, JsonV::Str(v.state)));
    lemma_lookup_fields_push_all(fs25, "total_cpus"@, spec_enc_opt_i64(v.total_cpus));
    let fs26 = fs25.push(("total_cpus"@, spec_enc_opt_i64(v.total_cpus)));
    lemma_lookup_fields_push_all(fs26, "total_nodes"@, spec_enc_opt_i64(v.total_nodes));
    let fs27 = fs26.push(("total_nodes"@, spec_enc_opt_i64(v.total_nodes)));
    lemma_lookup_fields_push_all(fs27, "tres"@, JsonV::Str(v.tres));
    let fs28 = fs27.push(("tres"@, JsonV::Str(v.tres)));
    lemma_lookup_fields_push_all(fs28, "maximum_memory_per_cpu"@, spec_enc_opt_i64(v.maximum_memory_per_cpu));
    let fs29 = fs28.push(("maximum_memory_per_cpu"@, spec_enc_opt_i64(v.maximum_memory_per_cpu)));
    lemma_lookup_fields_push_all(fs29, "default_memory_per_node"@, spec_enc_opt_i64(v.default_memory_per_node));
    let fs30 = fs29.push(("default_memory_per_node"@, spec_enc_opt_i64(v.default_memory_per_node)));
    assert(spec_encode_partition(v)->Obj_0 == fs30);
}

/// The value at each of a few keys of an encoded record.
#[verifier::rlimit(100)]
proof fn lemma_partition_lookups_1(v: PartitionV)
    ensures
        lookup_fields(spec_encode_partition(v)->Obj_0, "allowed_qos"@) == Some(JsonV::Str(v.allowed_qos)),
        lookup_fields(spec_encode_partition(v)->Obj_0, "alternative"@) == Some(JsonV::Str(v.alternative)),
        lookup_fields(spec_encode_partition(v)->Obj_0, "billing_weights"@) == Some(JsonV::Str(v.billing_weights)),
        lookup_fields(spec_encode_partition(v)->Obj_0, "default_memory_per_cpu"@) == Some(spec_enc_opt_i64(v.default_memory_per_cpu)),
        lookup_fields(spec_encode_partition(v)->Obj_0, "default_time_limit"@) == Some(spec_enc_opt_i64(v.default_time_limit)),
{
    reveal_strlit("allowed_accounts");
    reveal_strlit("allowed_allocation_nodes");
    reveal_strlit("allowed_groups");
    reveal_strlit("allowed_qos");
    reveal_strlit("alternative");
    reveal_strlit("billing_weights");
    reveal_strlit("default_memory_per_cpu");
    reveal_strlit("default_memory_per_node");
    reveal_strlit("default_time_limit");
    reveal_strlit("denied_accounts");
    reveal_strlit("denied_qos");
    reveal_strlit("flags");
    reveal_strlit("max_time_limit");
    reveal_strlit("maximum_cpus_per_node");
    reveal_strlit("maximum_memory_per_cpu");
    reveal_strlit("maximum_memory_per_node");
    reveal_strlit("maximum_nodes_per_job");
    reveal_strlit("min_nodes_per_job");
    reveal_strlit("name");
    reveal_strlit("nodes");
    reveal_strlit("over_time_limit");
    reveal_strlit("preemption_grace_time");
    reveal_strlit("preemption_mode");
    reveal_strlit("priority_job_factor");
    reveal_strlit("priority_tier");
    reveal_strlit("qos");
    reveal_strlit("state");
    reveal_strlit("total_cpus");
    reveal_strlit("total_nodes");
    reveal_strlit("tres");
    assert("allowed_accounts"@.len() == 16);
    assert("allowed_allocation_nodes"@.len() == 24);
    assert("allowed_groups"@.len() == 14);
    assert("allowed_qos"@.len() == 11);
    assert("alternative"@.len() == 11);
    assert("billing_weights"@.len() == 15);
    assert("default_memory_per_cpu"@.len() == 22);
    assert("default_memory_per_node"@.len() == 23);
    assert("default_time_limit"@.len() == 18);
    assert("denied_accounts"@.len() == 15);
    assert("denied_qos"@.len() == 10);
    assert("flags"@.len() == 5);
    assert("max_time_limit"@.len() == 14);
    assert("maximum_cpus_per_node"@.len() == 21);
    assert("maximum_memory_per_cpu"@.len() == 22);
    assert("maximum_memory_per_node"@.len() == 23);
    assert("maximum_nodes_per_job"@.len() == 21);
    assert("min_nodes_per_job"@.len() == 17);
    assert("name"@.len() == 4);
    assert("nodes"@.len() == 5);
    assert("over_time_limit"@.len() == 15);
    assert("preemption_grace_time"@.len() == 21);
    assert("preemption_mode"@.len() == 15);
    assert("priority_job_factor"@.len() == 19);
    assert("priority_tier"@.len() == 13);
    assert("qos"@.len() == 3);
    assert("state"@.len() == 5);
    assert("total_cpus"@.len() == 10);
    assert("total_nodes"@.len() == 11);
    assert("tres"@.len() == 4);
    assert("allowed_groups"@[0] == 'a');
    assert("max_time_limit"@[0] == 'm');
    assert("allowed_qos"@[2] == 'l');
    assert("alternative"@[2] == 't');
    assert("allowed_qos"@[0] == 'a');
    assert("total_nodes"@[0] == 't');
    assert("alternative"@[0] == 'a');
    assert("total_nodes"@[0] == 't');
    assert("billing_weights"@[0] == 'b');
    assert("denied_accounts"@[0] == 'd');
    assert("billing_weights"@[0] == 'b');
    assert("over_time_limit"@[0] == 'o');
    assert("billing_weights"@[0] == 'b');
    assert("preemption_mode"@[0] == 'p');
    assert("default_memory_per_cpu"@[0] == 'd');
    assert("maximum_memory_per_cpu"@[0] == 'm');
    assert("default_memory_per_node"@[0] == 'd');
    assert("maximum_memory_per_node"@[0] == 'm');
    assert("denied_accounts"@[0] == 'd');
    assert("over_time_limit"@[0] == 'o');
    assert("denied_accounts"@[0] == 'd');
    assert("preemption_mode"@[0] == 'p');
    assert("denied_qos"@[0] == 'd');
    assert("total_cpus"@[0] == 't');
    assert("flags"@[0] == 'f');
    assert("nodes"@[0] == 'n');
    assert("flags"@[0] == 'f');
    assert("state"@[0] == 's');
    assert("maximum_cpus_per_node"@[8] == 'c');
    assert("maximum_nodes_per_job"@[8] == 'n');
    assert("maximum_cpus_per_node"@[0] == 'm');
    assert("preemption_grace_time"@[0] == 'p');
    assert("maximum_nodes_per_job"@[0] == 'm');
    assert("preemption_grace_time"@[0] == 'p');
    assert("name"@[0] == 'n');
    assert("tres"@[0] == 't');
    assert("nodes"@[0] == 'n');
    assert("state"@[0] == 's');
    assert("over_time_limit"@[0] == 'o');
    assert("preemption_mode"@[0] == 'p');
    let fs0 = Seq::<(Seq<char>, JsonV)>::empty();
    lemma_lookup_fields_push_all(fs0, "flags"@, JsonV::Arr(spec_encode_strs(v.flags)));
    let fs1 = fs0.push(("flags"@, JsonV::Arr(spec_encode_strs(v.flags))));
    lemma_lookup_fields_push_all(fs1, "preemption_mode"@, JsonV::Arr(spec_encode_strs(v.preemption_mode)));
    let fs2 = fs1.push(("preemption_mode"@, JsonV::Arr(spec_encode_strs(v.preemption_mode))));
    lemma_lookup_fields_push_all(fs2, "allowed_allocation_nodes"@, JsonV::Str(v.allowed_allocation_nodes));
    let fs3 = fs2.push(("allowed_allocation_nodes"@, JsonV::Str(v.allowed_allocation_nodes)));
    lemma_lookup_fields_push_all(fs3, "allowed_accounts"@, JsonV::Str(v.allowed_accounts));
    let fs4 = fs3.push(("allowed_accounts"@, JsonV::Str(v.allowed_accounts)));
    lemma_lookup_fields_push_all(fs4, "allowed_groups"@, JsonV::Str(v.allowed_groups));
    let fs5 = fs4.push(("allowed_groups"@, JsonV::Str(v.allowed_groups)));
    lemma_lookup_fields_push_all(fs5, "allowed_qos"@, JsonV::Str(v.allowed_qos));
    let fs6 = fs5.push(("allowed_qos"@, JsonV::Str(v.allowed_qos)));
    lemma_lookup_fields_push_all(fs6, "alternative"@, JsonV::Str(v.alternative));
    let fs7 = fs6.push(("alternative"@, JsonV::Str(v.alternative)));
    lemma_lookup_fields_push_all(fs7, "billing_weights"@, JsonV::Str(v.billing_weights));
    let fs8 = fs7.push(("billing_weights"@, JsonV::Str(v.billing_weights)));
    lemma_lookup_fields_push_all(fs8, "default_memory_per_cpu"@, spec_enc_opt_i64(v.default_memory_per_cpu));
    let fs9 = fs8.push(("default_memory_per_cpu"@, spec_enc_opt_i64(v.default_memory_per_cpu)));
    lemma_lookup_fields_push_all(fs9, "default_time_limit"@, spec_enc_opt_i64(v.default_time_limit));
    let fs10 = fs9.push(("default_time_limit"@, spec_enc_opt_i64(v.default_time_limit)));
    lemma_lookup_fields_push_all(fs10, "denied_accounts"@, JsonV::Str(v.denied_accounts));
    let fs11 = fs10.push(("denied_accounts"@, JsonV::Str(v.denied_accounts)));
    lemma_lookup_fields_push_all(fs11, "denied_qos"@, JsonV::Str(v.denied_qos));
    let fs12 = fs11.push(("denied_qos"@, JsonV::Str(v.denied_qos)));
    lemma_lookup_fields_push_all(fs12, "preemption_grace_time"@, spec_enc_opt_i64(v.preemption_grace_time));
    let fs13 = fs12.push(("preemption_grace_time"@, spec_enc_opt_i64(v.preemption_grace_time)));
    lemma_lookup_fields_push_all(fs13, "maximum_cpus_per_node"@, spec_enc_opt_i64(v.maximum_cpus_per_node));
    let fs14 = fs13.push(("maximum_cpus_per_node"@, spec_enc_opt_i64(v.maximum_cpus_per_node)));
    lemma_lookup_fields_push_all(fs14, "maximum_memory_per_node"@, spec_enc_opt_i64(v.maximum_memory_per_node));
    let fs15 = fs14.push(("maximum_memory_per_node"@, spec_enc_opt_i64(v.maximum_memory_per_node)));
    lemma_lookup_fields_push_all(fs15, "maximum_nodes_per_job"@, spec_enc_opt_i64(v.maximum_nodes_per_job));
    let fs16 = fs15.push(("maximum_nodes_per_job"@, spec_enc_opt_i64(v.maximum_nodes_per_job)));
    lemma_lookup_fields_push_all(fs16, "max_time_limit"@, spec_enc_opt_i64(v.max_time_limit));
    let fs17 = fs16.push(("max_time_limit"@, spec_enc_opt_i64(v.max_time_limit)));
    lemma_lookup_fields_push_all(fs17, "min_nodes_per_job"@, spec_enc_opt_i64(v.min_nodes_per_job));
    let fs18 = fs17.push(("min_nodes_per_job"@, spec_enc_opt_i64(v.min_nodes_per_job)));
    lemma_lookup_fields_push_all(fs18, "name"@, JsonV::Str(v.name));
    let fs19 = fs18.push(("name"@, JsonV::Str(v.name)));
    lemma_lookup_fields_push_all(fs19, "nodes"@, JsonV::Str(v.nodes));
    let fs20 = fs19.push(("nodes"@, JsonV::Str(v.nodes)));
    lemma_lookup_fields_push_all(fs20, "over_time_limit"@, spec_enc_opt_i64(v.over_time_limit));
    let fs21 = fs20.push(("over_time_limit"@, spec_enc_opt_i64(v.over_time_limit)));
    lemma_lookup_fields_push_all(fs21, "priority_job_factor"@, spec_enc_opt_i64(v.priority_job_factor));
    let fs22 = fs21.push(("priority_job_factor"@, spec_enc_opt_i64(v.priority_job_factor)));
    lemma_lookup_fields_push_all(fs22, "priority_tier"@, spec_enc_opt_i64(v.priority_tier));
    let fs23 = fs22.push(("priority_tier"@, spec_enc_opt_i64(v.priority_tier)));
    lemma_lookup_fields_push_all(fs23, "qos"@, JsonV::Str(v.qos));
    let fs24 = fs23.push(("qos"@, JsonV::Str(v.qos)));
    lemma_lookup_fields_push_all(fs24, "state"@, JsonV::Str(v.state));
    let fs25 = fs24.push(("state"@, JsonV::Str(v.state)));
    lemma_lookup_fields_push_all(fs25, "total_cpus"@, spec_enc_opt_i64(v.total_cpus));
    let fs26 = fs25.push(("total_cpus"@, spec_enc_opt_i64(v.total_cpus)));
    lemma_lookup_fields_push_all(fs26, "total_nodes"@, spec_enc_opt_i64(v.total_nodes));
    let fs27 = fs26.push(("total_nodes"@, spec_enc_opt_i64(v.total_nodes)));
    lemma_lookup_fields_push_all(fs27, "tres"@, JsonV::Str(v.tres));
    let fs28 = fs27.push(("tres"@, JsonV::Str(v.tres)));
    lemma_lookup_fields_push_all(fs28, "maximum_memory_per_cpu"@, spec_enc_opt_i64(v.maximum_memory_per_cpu));
    let fs29 = fs28.push(("maximum_memory_per_cpu"@, spec_enc_opt_i64(v.maximum_memory_per_cpu)));
    lemma_lookup_fields_push_all(fs29, "default_memory_per_node"@, spec_enc_opt_i64(v.default_memory_per_node));
    let fs30 = fs29.push(("default_memory_per_node"@, spec_enc_opt_i64(v.default_memory_per_node)));
    assert(spec_encode_partition(v)->Obj_0 == fs30);
}

/// The value at each of a few keys of an encoded record.
#[verifier::rlimit(100)]
proof fn lemma_partition_lookups_2(v: PartitionV)
    ensures
        lookup_fields(spec_encode_partition(v)->Obj_0, "denied_accounts"@) == Some(JsonV::Str(v.denied_accounts)),
        lookup_fields(spec_encode_partition(v)->Obj_0, "denied_qos"@) == Some(JsonV::Str(v.denied_qos)),
        lookup_fields(spec_encode_partition(v)->Obj_0, "preemption_grace_time"@) == Some(spec_enc_opt_i64(v.preemption_grace_time)),
        lookup_fields(spec_encode_partition(v)->Obj_0, "maximum_cpus_per_node"@) == Some(spec_enc_opt_i64(v.maximum_cpus_per_node)),
        lookup_fields(spec_encode_partition(v)->Obj_0, "maximum_memory_per_node"@) == Some(spec_enc_opt_i64(v.maximum_memory_per_node)),
{
    reveal_strlit("allowed_accounts");
    reveal_strlit("allowed_allocation_nodes");
    reveal_strlit("allowed_groups");
    reveal_strlit("allowed_qos");
    reveal_strlit("alternative");
    reveal_strlit("billing_weights");
    reveal_strlit("default_memory_per_cpu");
    reveal_strlit("default_memory_per_node");
    reveal_strlit("default_time_limit");
    reveal_strlit("denied_accounts");
    reveal_strlit("denied_qos");
    reveal_strlit("flags");
    reveal_strlit("max_time_limit");
    reveal_strlit("maximum_cpus_per_node");
    reveal_strlit("maximum_memory_per_cpu");
    reveal_strlit("maximum_memory_per_node");
    reveal_strlit("maximum_nodes_per_job");
    reveal_strlit("min_nodes_per_job");
    reveal_strlit("name");
    reveal_strlit("nodes");
    reveal_strlit("over_time_limit");
    reveal_strlit("preemption_grace_time");
    reveal_strlit("preemption_mode");
    reveal_strlit("priority_job_factor");
    reveal_strlit("priority_tier");
    reveal_strlit("qos");
    reveal_strlit("state");
    reveal_strlit("total_cpus");
    reveal_strlit("total_nodes");
    reveal_strlit("tres");
    assert("allowed_accounts"@.len() == 16);
    assert("allowed_allocation_nodes"@.len() == 24);
    assert("allowed_groups"@.len() == 14);
    assert("allowed_qos"@.len() == 11);
    assert("alternative"@.len() == 11);
    assert("billing_weights"@.len() == 15);
    assert("default_memory_per_cpu"@.len() == 22);
    assert("default_memory_per_node"@.len() == 23);
    assert("default_time_limit"@.len() == 18);
    assert("denied_accounts"@.len() == 15);
    assert("denied_qos"@.len() == 10);
    assert("flags"@.len() == 5);
    assert("max_time_limit"@.len() == 14);
    assert("maximum_cpus_per_node"@.len() == 21);
    assert("maximum_memory_per_cpu"@.len() == 22);
    assert("maximum_memory_per_node"@.len() == 23);
    assert("maximum_nodes_per_job"@.len() == 21);
    assert("min_nodes_per_job"@.len() == 17);
    assert("name"@.len() == 4);
    assert("nodes"@.len() == 5);
    assert("over_time_limit"@.len() == 15);
    assert("preemption_grace_time"@.len() == 21);
    assert("preemption_mode"@.len() == 15);
    assert("priority_job_factor"@.len() == 19);
    assert("priority_tier"@.len() == 13);
    assert("qos"@.len() == 3);
    assert("state"@.len() == 5);
    assert("total_cpus"@.len() == 10);
    assert("total_nodes"@.len() == 11);
    assert("tres"@.len() == 4);
    assert("allowed_groups"@[0] == 'a');
    assert("max_time_limit"@[0] == 'm');
    assert("allowed_qos"@[2] == 'l');
    assert("alternative"@[2] == 't');
    assert("allowed_qos"@[0] == 'a');
    assert("total_nodes"@[0] == 't');
    assert("alternative"@[0] == 'a');
    assert("total_nodes"@[0] == 't');
    assert("billing_weights"@[0] == 'b');
    assert("denied_accounts"@[0] == 'd');
    assert("billing_weights"@[0] == 'b');
    assert("over_time_limit"@[0] == 'o');
    assert("billing_weights"@[0] == 'b');
    assert("preemption_mode"@[0] == 'p');
    assert("default_memory_per_cpu"@[0] == 'd');
    assert("maximum_memory_per_cpu"@[0] == 'm');
    assert("default_memory_per_node"@[0] == 'd');
    assert("maximum_memory_per_node"@[0] == 'm');
    assert("denied_accounts"@[0] == 'd');
    assert("over_time_limit"@[0] == 'o');
    assert("denied_accounts"@[0] == 'd');
    assert("preemption_mode"@[0] == 'p');
    assert("denied_qos"@[0] == 'd');
    assert("total_cpus"@[0] == 't');
    assert("flags"@[0] == 'f');
    assert("nodes"@[0] == 'n');
    assert("flags"@[0] == 'f');
    assert("state"@[0] == 's');
    assert("maximum_cpus_per_node"@[8] == 'c');
    assert("maximum_nodes_per_job"@[8] == 'n');
    assert("maximum_cpus_per_node"@[0] == 'm');
    assert("preemption_grace_time"@[0] == 'p');
    assert("maximum_nodes_per_job"@[0] == 'm');
    assert("preemption_grace_time"@[0] == 'p');
    assert("name"@[0] == 'n');
    assert("tres"@[0] == 't');
    assert("nodes"@[0] == 'n');
    assert("state"@[0] == 's');
    assert("over_time_limit"@[0] == 'o');
    assert("preemption_mode"@[0] == 'p');
    let fs0 = Seq::<(Seq<char>, JsonV)>::empty();
    lemma_lookup_fields_push_all(fs0, "flags"@, JsonV::Arr(spec_encode_strs(v.flags)));
    let fs1 = fs0.push(("flags"@, JsonV::Arr(spec_encode_strs(v.flags))));
    lemma_lookup_fields_push_all(fs1, "preemption_mode"@, JsonV::Arr(spec_encode_strs(v.preemption_mode)));
    let fs2 = fs1.push(("preemption_mode"@, JsonV::Arr(spec_encode_strs(v.preemption_mode))));
    lemma_lookup_fields_push_all(fs2, "allowed_allocation_nodes"@, JsonV::Str(v.allowed_allocation_nodes));
    let fs3 = fs2.push(("allowed_allocation_nodes"@, JsonV::Str(v.allowed_allocation_nodes)));
    lemma_lookup_fields_push_all(fs3, "allowed_accounts"@, JsonV::Str(v.allowed_accounts));
    let fs4 = fs3.push(("allowed_accounts"@, JsonV::Str(v.allowed_accounts)));
    lemma_lookup_fields_push_all(fs4, "allowed_groups"@, JsonV::Str(v.allowed_groups));
    let fs5 = fs4.push(("allowed_groups"@, JsonV::Str(v.allowed_groups)));
    lemma_lookup_fields_push_all(fs5, "allowed_qos"@, JsonV::Str(v.allowed_qos));
    let fs6 = fs5.push(("allowed_qos"@, JsonV::Str(v.allowed_qos)));
    lemma_lookup_fields_push_all(fs6, "alternative"@, JsonV::Str(v.alternative));
    let fs7 = fs6.push(("alternative"@, JsonV::Str(v.alternative)));
    lemma_lookup_fields_push_all(fs7, "billing_weights"@, JsonV::Str(v.billing_weights));
    let fs8 = fs7.push(("billing_weights"@, JsonV::Str(v.billing_weights)));
    lemma_lookup_fields_push_all(fs8, "default_memory_per_cpu"@, spec_enc_opt_i64(v.default_memory_per_cpu));
    let fs9 = fs8.push(("default_memory_per_cpu"@, spec_enc_opt_i64(v.default_memory_per_cpu)));
    lemma_lookup_fields_push_all(fs9, "default_time_limit"@, spec_enc_opt_i64(v.default_time_limit));
    let fs10 = fs9.push(("default_time_limit"@, spec_enc_opt_i64(v.default_time_limit)));
    lemma_lookup_fields_push_all(fs10, "denied_accounts"@, JsonV::Str(v.denied_accounts));
    let fs11 = fs10.push(("denied_accounts"@, JsonV::Str(v.denied_accounts)));
    lemma_lookup_fields_push_all(fs11, "denied_qos"@, JsonV::Str(v.denied_qos));
    let fs12 = fs11.push(("denied_qos"@, JsonV::Str(v.denied_qos)));
    lemma_lookup_fields_push_all(fs12, "preemption_grace_time"@, spec_enc_opt_i64(v.preemption_grace_time));
    let fs13 = fs12.push(("preemption_grace_time"@, spec_enc_opt_i64(v.preemption_grace_time)));
    lemma_lookup_fields_push_all(fs13, "maximum_cpus_per_node"@, spec_enc_opt_i64(v.maximum_cpus_per_node));
    let fs14 = fs13.push(("maximum_cpus_per_node"@, spec_enc_opt_i64(v.maximum_cpus_per_node)));
    lemma_lookup_fields_push_all(fs14, "maximum_memory_per_node"@, spec_enc_opt_i64(v.maximum_memory_per_node));
    let fs15 = fs14.push(("maximum_memory_per_node"@, spec_enc_opt_i64(v.maximum_memory_per_node)));
    lemma_lookup_fields_push_all(fs15, "maximum_nodes_per_job"@, spec_enc_opt_i64(v.maximum_nodes_per_job));
    let fs16 = fs15.push(("maximum_nodes_per_job"@, spec_enc_opt_i64(v.maximum_nodes_per_job)));
    lemma_lookup_fields_push_all(fs16, "max_time_limit"@, spec_enc_opt_i64(v.max_time_limit));
    let fs17 = fs16.push(("max_time_limit"@, spec_enc_opt_i64(v.max_time_limit)));
    lemma_lookup_fields_push_all(fs17, "min_nodes_per_job"@, spec_enc_opt_i64(v.min_nodes_per_job));
    let fs18 = fs17.push(("min_nodes_per_job"@, spec_enc_opt_i64(v.min_nodes_per_job)));
    lemma_lookup_fields_push_all(fs18, "name"@, JsonV::Str(v.name));
    let fs19 = fs18.push(("name"@, JsonV::Str(v.name)));
    lemma_lookup_fields_push_all(fs19, "nodes"@, JsonV::Str(v.nodes));
    let fs20 = fs19.push(("nodes"@, JsonV::Str(v.nodes)));
    lemma_lookup_fields_push_all(fs20, "over_time_limit"@, spec_enc_opt_i64(v.over_time_limit));
    let fs21 = fs20.push(("over_time_limit"@, spec_enc_opt_i64(v.over_time_limit)));
    lemma_lookup_fields_push_all(fs21, "priority_job_factor"@, spec_enc_opt_i64(v.priority_job_factor));
    let fs22 = fs21.push(("priority_job_factor"@, spec_enc_opt_i64(v.priority_job_factor)));
    lemma_lookup_fields_push_all(fs22, "priority_tier"@, spec_enc_opt_i64(v.priority_tier));
    let fs23 = fs22.push(("priority_tier"@, spec_enc_opt_i64(v.priority_tier)));
    lemma_lookup_fields_push_all(fs23, "qos"@, JsonV::Str(v.qos));
    let fs24 = fs23.push(("qos"@, JsonV::Str(v.qos)));
    lemma_lookup_fields_push_all(fs24, "state"@, JsonV::Str(v.state));
    let fs25 = fs24.push(("state"@, JsonV::Str(v.state)));
    lemma_lookup_fields_push_all(fs25, "total_cpus"@, spec_enc_opt_i64(v.total_cpus));
    let fs26 = fs25.push(("total_cpus"@, spec_enc_opt_i64(v.total_cpus)));
    lemma_lookup_fields_push_all(fs26, "total_nodes"@, spec_enc_opt_i64(v.total_nodes));
    let fs27 = fs26.push(("total_nodes"@, spec_enc_opt_i64(v.total_nodes)));
    lemma_lookup_fields_push_all(fs27, "tres"@, JsonV::Str(v.tres));
    let fs28 = fs27.push(("tres"@, JsonV::Str(v.tres)));
    lemma_lookup_fields_push_all(fs28, "maximum_memory_per_cpu"@, spec_enc_opt_i64(v.maximum_memory_per_cpu));
    let fs29 = fs28.push(("maximum_memory_per_cpu"@, spec_enc_opt_i64(v.maximum_memory_per_cpu)));
    lemma_lookup_fields_push_all(fs29, "default_memory_per_node"@, spec_enc_opt_i64(v.default_memory_per_node));
    let fs30 = fs29.push(("default_memory_per_node"@, spec_enc_opt_i64(v.default_memory_per_node)));
    assert(spec_encode_partition(v)->Obj_0 == fs30);
}

/// The value at each of a few keys of an encoded record.
#[verifier::rlimit(100)]
proof fn lemma_partition_lookups_3(v: PartitionV)
    ensures
        lookup_fields(spec_encode_partition(v)->Obj_0, "maximum_nodes_per_job"@) == Some(spec_enc_opt_i64(v.maximum_nodes_per_job)),
        lookup_fields(spec_encode_partition(v)->Obj_0, "max_time_limit"@) == Some(spec_enc_opt_i64(v.max_time_limit)),
        lookup_fields(spec_encode_partition(v)->Obj_0, "min_nodes_per_job"@) == Some(spec_enc_opt_i64(v.min_nodes_per_job)),
        lookup_fields(spec_encode_partition(v)->Obj_0, "name"@) == Some(JsonV::Str(v.name)),
        lookup_fields(spec_encode_partition(v)->Obj_0, "nodes"@) == Some(JsonV::Str(v.nodes)),
{
    reveal_strlit("allowed_accounts");
    reveal_strlit("allowed_allocation_nodes");
    reveal_strlit("allowed_groups");
    reveal_strlit("allowed_qos");
    reveal_strlit("alternative");
    reveal_strlit("billing_weights");
    reveal_strlit("default_memory_per_cpu");
    reveal_strlit("default_memory_per_node");
    reveal_strlit("default_time_limit");
    reveal_strlit("denied_accounts");
    reveal_strlit("denied_qos");
    reveal_strlit("flags");
    reveal_strlit("max_time_limit");
    reveal_strlit("maximum_cpus_per_node");
    reveal_strlit("maximum_memory_per_cpu");
    reveal_strlit("maximum_memory_per_node");
    reveal_strlit("maximum_nodes_per_job");
    reveal_strlit("min_nodes_per_job");
    reveal_strlit("name");
    reveal_strlit("nodes");
    reveal_strlit("over_time_limit");
    reveal_strlit("preemption_grace_time");
    reveal_strlit("preemption_mode");
    reveal_strlit("priority_job_factor");
    reveal_strlit("priority_tier");
    reveal_strlit("qos");
    reveal_strlit("state");
    reveal_strlit("total_cpus");
    reveal_strlit("total_nodes");
    reveal_strlit("tres");
    assert("allowed_accounts"@.len() == 16);
    assert("allowed_allocation_nodes"@.len() == 24);
    assert("allowed_groups"@.len() == 14);
    assert("allowed_qos"@.len() == 11);
    assert("alternative"@.len() == 11);
    assert("billing_weights"@.len() == 15);
    assert("default_memory_per_cpu"@.len() == 22);
    assert("default_memory_per_node"@.len() == 23);
    assert("default_time_limit"@.len() == 18);
    assert("denied_accounts"@.len() == 15);
    assert("denied_qos"@.len() == 10);
    assert("flags"@.len() == 5);
    assert("max_time_limit"@.len() == 14);
    assert("maximum_cpus_per_node"@.len() == 21);
    assert("maximum_memory_per_cpu"@.len() == 22);
    assert("maximum_memory_per_node"@.len() == 23);
    assert("maximum_nodes_per_job"@.len() == 21);
    assert("min_nodes_per_job"@.len() == 17);
    assert("name"@.len() == 4);
    assert("nodes"@.len() == 5);
    assert("over_time_limit"@.len() == 15);
    assert("preemption_grace_time"@.len() == 21);
    assert("preemption_mode"@.len() == 15);
    assert("priority_job_factor"@.len() == 19);
    assert("priority_tier"@.len() == 13);
    assert("qos"@.len() == 3);
    assert("state"@.len() == 5);
    assert("total_cpus"@.len() == 10);
    assert("total_nodes"@.len() == 11);
    assert("tres"@.len() == 4);
    assert("allowed_groups"@[0] == 'a');
    assert("max_time_limit"@[0] == 'm');
    assert("allowed_qos"@[2] == 'l');
    assert("alternative"@[2] == 't');
    assert("allowed_qos"@[0] == 'a');
    assert("total_nodes"@[0] == 't');
    assert("alternative"@[0] == 'a');
    assert("total_nodes"@[0] == 't');
    assert("billing_weights"@[0] == 'b');
    assert("denied_accounts"@[0] == 'd');
    assert("billing_weights"@[0] == 'b');
    assert("over_time_limit"@[0] == 'o');
    assert("billing_weights"@[0] == 'b');
    assert("preemption_mode"@[0] == 'p');
    assert("default_memory_per_cpu"@[0] == 'd');
    assert("maximum_memory_per_cpu"@[0] == 'm');
    assert("default_memory_per_node"@[0] == 'd');
    assert("maximum_memory_per_node"@[0] == 'm');
    assert("denied_accounts"@[0] == 'd');
    assert("over_time_limit"@[0] == 'o');
    assert("denied_accounts"@[0] == 'd');
    assert("preemption_mode"@[0] == 'p');
    assert("denied_qos"@[0] == 'd');
    assert("total_cpus"@[0] == 't');
    assert("flags"@[0] == 'f');
    assert("nodes"@[0] == 'n');
    assert("flags"@[0] == 'f');
    assert("state"@[0] == 's');
    assert("maximum_cpus_per_node"@[8] == 'c');
    assert("maximum_nodes_per_job"@[8] == 'n');
    assert("maximum_cpus_per_node"@[0] == 'm');
    assert("preemption_grace_time"@[0] == 'p');
    assert("maximum_nodes_per_job"@[0] == 'm');
    assert("preemption_grace_time"@[0] == 'p');
    assert("name"@[0] == 'n');
    assert("tres"@[0] == 't');
    assert("nodes"@[0] == 'n');
    assert("state"@[0] == 's');
    assert("over_time_limit"@[0] == 'o');
    assert("preemption_mode"@[0] == 'p');
    let fs0 = Seq::<(Seq<char>, JsonV)>::empty();
    lemma_lookup_fields_push_all(fs0, "flags"@, JsonV::Arr(spec_encode_strs(v.flags)));
    let fs1 = fs0.push(("flags"@, JsonV::Arr(spec_encode_strs(v.flags))));
    lemma_lookup_fields_push_all(fs1, "preemption_mode"@, JsonV::Arr(spec_encode_strs(v.preemption_mode)));
    let fs2 = fs1.push(("preemption_mode"@, JsonV::Arr(spec_encode_strs(v.preemption_mode))));
    lemma_lookup_fields_push_all(fs2, "allowed_allocation_nodes"@, JsonV::Str(v.allowed_allocation_nodes));
    let fs3 = fs2.push(("allowed_allocation_nodes"@, JsonV::Str(v.allowed_allocation_nodes)));
    lemma_lookup_fields_push_all(fs3, "allowed_accounts"@, JsonV::Str(v.allowed_accounts));
    let fs4 = fs3.push(("allowed_accounts"@, JsonV::Str(v.allowed_accounts)));
    lemma_lookup_fields_push_all(fs4, "allowed_groups"@, JsonV::Str(v.allowed_groups));
    let fs5 = fs4.push(("allowed_groups"@, JsonV::Str(v.allowed_groups)));
    lemma_lookup_fields_push_all(fs5, "allowed_qos"@, JsonV::Str(v.allowed_qos));
    let fs6 = fs5.push(("allowed_qos"@, JsonV::Str(v.allowed_qos)));
    lemma_lookup_fields_push_all(fs6, "alternative"@, JsonV::Str(v.alternative));
    let fs7 = fs6.push(("alternative"@, JsonV::Str(v.alternative)));
    lemma_lookup_fields_push_all(fs7, "billing_weights"@, JsonV::Str(v.billing_weights));
    let fs8 = fs7.push(("billing_weights"@, JsonV::Str(v.billing_weights)));
    lemma_lookup_fields_push_all(fs8, "default_memory_per_cpu"@, spec_enc_opt_i64(v.default_memory_per_cpu));
    let fs9 = fs8.push(("default_memory_per_cpu"@, spec_enc_opt_i64(v.default_memory_per_cpu)));
    lemma_lookup_fields_push_all(fs9, "default_time_limit"@, spec_enc_opt_i64(v.default_time_limit));
    let fs10 = fs9.push(("default_time_limit"@, spec_enc_opt_i64(v.default_time_limit)));
    lemma_lookup_fields_push_all(fs10, "denied_accounts"@, JsonV::Str(v.denied_accounts));
    let fs11 = fs10.push(("denied_accounts"@, JsonV::Str(v.denied_accounts)));
    lemma_lookup_fields_push_all(fs11, "denied_qos"@, JsonV::Str(v.denied_qos));
    let fs12 = fs11.push(("denied_qos"@, JsonV::Str(v.denied_qos)));
    lemma_lookup_fields_push_all(fs12, "preemption_grace_time"@, spec_enc_opt_i64(v.preemption_grace_time));
    let fs13 = fs12.push(("preemption_grace_time"@, spec_enc_opt_i64(v.preemption_grace_time)));
    lemma_lookup_fields_push_all(fs13, "maximum_cpus_per_node"@, spec_enc_opt_i64(v.maximum_cpus_per_node));
    let fs14 = fs13.push(("maximum_cpus_per_node"@, spec_enc_opt_i64(v.maximum_cpus_per_node)));
    lemma_lookup_fields_push_all(fs14, "maximum_memory_per_node"@, spec_enc_opt_i64(v.maximum_memory_per_node));
    let fs15 = fs14.push(("maximum_memory_per_node"@, spec_enc_opt_i64(v.maximum_memory_per_node)));
    lemma_lookup_fields_push_all(fs15, "maximum_nodes_per_job"@, spec_enc_opt_i64(v.maximum_nodes_per_job));
    let fs16 = fs15.push(("maximum_nodes_per_job"@, spec_enc_opt_i64(v.maximum_nodes_per_job)));
    lemma_lookup_fields_push_all(fs16, "max_time_limit"@, spec_enc_opt_i64(v.max_time_limit));
    let fs17 = fs16.push(("max_time_limit"@, spec_enc_opt_i64(v.max_time_limit)));
    lemma_lookup_fields_push_all(fs17, "min_nodes_per_job"@, spec_enc_opt_i64(v.min_nodes_per_job));
    let fs18 = fs17.push(("min_nodes_per_job"@, spec_enc_opt_i64(v.min_nodes_per_job)));
    lemma_lookup_fields_push_all(fs18, "name"@, JsonV::Str(v.name));
    let fs19 = fs18.push(("name"@, JsonV::Str(v.name)));
    lemma_lookup_fields_push_all(fs19, "nodes"@, JsonV::Str(v.nodes));
    let fs20 = fs19.push(("nodes"@, JsonV::Str(v.nodes)));
    lemma_lookup_fields_push_all(fs20, "over_time_limit"@, spec_enc_opt_i64(v.over_time_limit));
    let fs21 = fs20.push(("over_time_limit"@, spec_enc_opt_i64(v.over_time_limit)));
    lemma_lookup_fields_push_all(fs21, "priority_job_factor"@, spec_enc_opt_i64(v.priority_job_factor));
    let fs22 = fs21.push(("priority_job_factor"@, spec_enc_opt_i64(v.priority_job_factor)));
    lemma_lookup_fields_push_all(fs22, "priority_tier"@, spec_enc_opt_i64(v.priority_tier));
    let fs23 = fs22.push(("priority_tier"@, spec_enc_opt_i64(v.priority_tier)));
    lemma_lookup_fields_push_all(fs23, "qos"@, JsonV::Str(v.qos));
    let fs24 = fs23.push(("qos"@, JsonV::Str(v.qos)));
    lemma_lookup_fields_push_all(fs24, "state"@, JsonV::Str(v.state));
    let fs25 = fs24.push(("state"@, JsonV::Str(v.state)));
    lemma_lookup_fields_push_all(fs25, "total_cpus"@, spec_enc_opt_i64(v.total_cpus));
    let fs26 = fs25.push(("total_cpus"@, spec_enc_opt_i64(v.total_cpus)));
    lemma_lookup_fields_push_all(fs26, "total_nodes"@, spec_enc_opt_i64(v.total_nodes));
    let fs27 = fs26.push(("total_nodes"@, spec_enc_opt_i64(v.total_nodes)));
    lemma_lookup_fields_push_all(fs27, "tres"@, JsonV::Str(v.tres));
    let fs28 = fs27.push(("tres"@, JsonV::Str(v.tres)));
    lemma_lookup_fields_push_all(fs28, "maximum_memory_per_cpu"@, spec_enc_opt_i64(v.maximum_memory_per_cpu));
    let fs29 = fs28.push(("maximum_memory_per_cpu"@, spec_enc_opt_i64(v.maximum_memory_per_cpu)));
    lemma_lookup_fields_push_all(fs29, "default_memory_per_node"@, spec_enc_opt_i64(v.default_memory_per_node));
    let fs30 = fs29.push(("default_memory_per_node"@, spec_enc_opt_i64(v.default_memory_per_node)));
    assert(spec_encode_partition(v)->Obj_0 == fs30);
}

/// The value at each of a few keys of an encoded record.
#[verifier::rlimit(100)]
proof fn lemma_partition_lookups_4(v: PartitionV)
    ensures
        lookup_fields(spec_encode_partition(v)->Obj_0, "over_time_limit"@) == Some(spec_enc_opt_i64(v.over_time_limit)),
        lookup_fields(spec_encode_partition(v)->Obj_0, "priority_job_factor"@) == Some(spec_enc_opt_i64(v.priority_job_factor)),
        lookup_fields(spec_encode_partition(v)->Obj_0, "priority_tier"@) == Some(spec_enc_opt_i64(v.priority_tier)),
        lookup_fields(spec_encode_partition(v)->Obj_0, "qos"@) == Some(JsonV::Str(v.qos)),
        lookup_fields(spec_encode_partition(v)->Obj_0, "state"@) == Some(JsonV::Str(v.state)),
{
    reveal_strlit("allowed_accounts");
    reveal_strlit("allowed_allocation_nodes");
    reveal_strlit("allowed_groups");
    reveal_strlit("allowed_qos");
    reveal_strlit("alternative");
    reveal_strlit("billing_weights");
    reveal_strlit("default_memory_per_cpu");
    reveal_strlit("default_memory_per_node");
    reveal_strlit("default_time_limit");
    reveal_strlit("denied_accounts");
    reveal_strlit("denied_qos");
    reveal_strlit("flags");
    reveal_strlit("max_time_limit");
    reveal_strlit("maximum_cpus_per_node");
    reveal_strlit("maximum_memory_per_cpu");
    reveal_strlit("maximum_memory_per_node");
    reveal_strlit("maximum_nodes_per_job");
    reveal_strlit("min_nodes_per_job");
    reveal_strlit("name");
    reveal_strlit("nodes");
    reveal_strlit("over_time_limit");
    reveal_strlit("preemption_grace_time");
    reveal_strlit("preemption_mode");
    reveal_strlit("priority_job_factor");
    reveal_strlit("priority_tier");
    reveal_strlit("qos");
    reveal_strlit("state");
    reveal_strlit("total_cpus");
    reveal_strlit("total_nodes");
    reveal_strlit("tres");
    assert("allowed_accounts"@.len() == 16);
    assert("allowed_allocation_nodes"@.len() == 24);
    assert("allowed_groups"@.len() == 14);
    assert("allowed_qos"@.len() == 11);
    assert("alternative"@.len() == 11);
    assert("billing_weights"@.len() == 15);
    assert("default_memory_per_cpu"@.len() == 22);
    assert("default_memory_per_node"@.len() == 23);
    assert("default_time_limit"@.len() == 18);
    assert("denied_accounts"@.len() == 15);
    assert("denied_qos"@.len() == 10);
    assert("flags"@.len() == 5);
    assert("max_time_limit"@.len() == 14);
    assert("maximum_cpus_per_node"@.len() == 21);
    assert("maximum_memory_per_cpu"@.len() == 22);
    assert("maximum_memory_per_node"@.len() == 23);
    assert("maximum_nodes_per_job"@.len() == 21);
    assert("min_nodes_per_job"@.len() == 17);
    assert("name"@.len() == 4);
    assert("nodes"@.len() == 5);
    assert("over_time_limit"@.len() == 15);
    assert("preemption_grace_time"@.len() == 21);
    assert("preemption_mode"@.len() == 15);
    assert("priority_job_factor"@.len() == 19);
    assert("priority_tier"@.len() == 13);
    assert("qos"@.len() == 3);
    assert("state"@.len() == 5);
    assert("total_cpus"@.len() == 10);
    assert("total_nodes"@.len() == 11);
    assert("tres"@.len() == 4);
    assert("allowed_groups"@[0] == 'a');
    assert("max_time_limit"@[0] == 'm');
    assert("allowed_qos"@[2] == 'l');
    assert("alternative"@[2] == 't');
    assert("allowed_qos"@[0] == 'a');
    assert("total_nodes"@[0] == 't');
    assert("alternative"@[0] == 'a');
    assert("total_nodes"@[0] == 't');
    assert("billing_weights"@[0] == 'b');
    assert("denied_accounts"@[0] == 'd');
    assert("billing_weights"@[0] == 'b');
    assert("over_time_limit"@[0] == 'o');
    assert("billing_weights"@[0] == 'b');
    assert("preemption_mode"@[0] == 'p');
    assert("default_memory_per_cpu"@[0] == 'd');
    assert("maximum_memory_per_cpu"@[0] == 'm');
    assert("default_memory_per_node"@[0] == 'd');
    assert("maximum_memory_per_node"@[0] == 'm');
    assert("denied_accounts"@[0] == 'd');
    assert("over_time_limit"@[0] == 'o');
    assert("denied_accounts"@[0] == 'd');
    assert("preemption_mode"@[0] == 'p');
    assert("denied_qos"@[0] == 'd');
    assert("total_cpus"@[0] == 't');
    assert("flags"@[0] == 'f');
    assert("nodes"@[0] == 'n');
    assert("flags"@[0] == 'f');
    assert("state"@[0] == 's');
    assert("maximum_cpus_per_node"@[8] == 'c');
    assert("maximum_nodes_per_job"@[8] == 'n');
    assert("maximum_cpus_per_node"@[0] == 'm');
    assert("preemption_grace_time"@[0] == 'p');
    assert("maximum_nodes_per_job"@[0] == 'm');
    assert("preemption_grace_time"@[0] == 'p');
    assert("name"@[0] == 'n');
    assert("tres"@[0] == 't');
    assert("nodes"@[0] == 'n');
    assert("state"@[0] == 's');
    assert("over_time_limit"@[0] == 'o');
    assert("preemption_mode"@[0] == 'p');
    let fs0 = Seq::<(Seq<char>, JsonV)>::empty();
    lemma_lookup_fields_push_all(fs0, "flags"@, JsonV::Arr(spec_encode_strs(v.flags)));
    let fs1 = fs0.push(("flags"@, JsonV::Arr(spec_encode_strs(v.flags))));
    lemma_lookup_fields_push_all(fs1, "preemption_mode"@, JsonV::Arr(spec_encode_strs(v.preemption_mode)));
    let fs2 = fs1.push(("preemption_mode"@, JsonV::Arr(spec_encode_strs(v.preemption_mode))));
    lemma_lookup_fields_push_all(fs2, "allowed_allocation_nodes"@, JsonV::Str(v.allowed_allocation_nodes));
    let fs3 = fs2.push(("allowed_allocation_nodes"@, JsonV::Str(v.allowed_allocation_nodes)));
    lemma_lookup_fields_push_all(fs3, "allowed_accounts"@, JsonV::Str(v.allowed_accounts));
    let fs4 = fs3.push(("allowed_accounts"@, JsonV::Str(v.allowed_accounts)));
    lemma_lookup_fields_push_all(fs4, "allowed_groups"@, JsonV::Str(v.allowed_groups));
    let fs5 = fs4.push(("allowed_groups"@, JsonV::Str(v.allowed_groups)));
    lemma_lookup_fields_push_all(fs5, "allowed_qos"@, JsonV::Str(v.allowed_qos));
    let fs6 = fs5.push(("allowed_qos"@, JsonV::Str(v.allowed_qos)));
    lemma_lookup_fields_push_all(fs6, "alternative"@, JsonV::Str(v.alternative));
    let fs7 = fs6.push(("alternative"@, JsonV::Str(v.alternative)));
    lemma_lookup_fields_push_all(fs7, "billing_weights"@, JsonV::Str(v.billing_weights));
    let fs8 = fs7.push(("billing_weights"@, JsonV::Str(v.billing_weights)));
    lemma_lookup_fields_push_all(fs8, "default_memory_per_cpu"@, spec_enc_opt_i64(v.default_memory_per_cpu));
    let fs9 = fs8.push(("default_memory_per_cpu"@, spec_enc_opt_i64(v.default_memory_per_cpu)));
    lemma_lookup_fields_push_all(fs9, "default_time_limit"@, spec_enc_opt_i64(v.default_time_limit));
    let fs10 = fs9.push(("default_time_limit"@, spec_enc_opt_i64(v.default_time_limit)));
    lemma_lookup_fields_push_all(fs10, "denied_accounts"@, JsonV::Str(v.denied_accounts));
    let fs11 = fs10.push(("denied_accounts"@, JsonV::Str(v.denied_accounts)));
    lemma_lookup_fields_push_all(fs11, "denied_qos"@, JsonV::Str(v.denied_qos));
    let fs12 = fs11.push(("denied_qos"@, JsonV::Str(v.denied_qos)));
    lemma_lookup_fields_push_all(fs12, "preemption_grace_time"@, spec_enc_opt_i64(v.preemption_grace_time));
    let fs13 = fs12.push(("preemption_grace_time"@, spec_enc_opt_i64(v.preemption_grace_time)));
    lemma_lookup_fields_push_all(fs13, "maximum_cpus_per_node"@, spec_enc_opt_i64(v.maximum_cpus_per_node));
    let fs14 = fs13.push(("maximum_cpus_per_node"@, spec_enc_opt_i64(v.maximum_cpus_per_node)));
    lemma_lookup_fields_push_all(fs14, "maximum_memory_per_node"@, spec_enc_opt_i64(v.maximum_memory_per_node));
    let fs15 = fs14.push(("maximum_memory_per_node"@, spec_enc_opt_i64(v.maximum_memory_per_node)));
    lemma_lookup_fields_push_all(fs15, "maximum_nodes_per_job"@, spec_enc_opt_i64(v.maximum_nodes_per_job));
    let fs16 = fs15.push(("maximum_nodes_per_job"@, spec_enc_opt_i64(v.maximum_nodes_per_job)));
    lemma_lookup_fields_push_all(fs16, "max_time_limit"@, spec_enc_opt_i64(v.max_time_limit));
    let fs17 = fs16.push(("max_time_limit"@, spec_enc_opt_i64(v.max_time_limit)));
    lemma_lookup_fields_push_all(fs17, "min_nodes_per_job"@, spec_enc_opt_i64(v.min_nodes_per_job));
    let fs18 = fs17.push(("min_nodes_per_job"@, spec_enc_opt_i64(v.min_nodes_per_job)));
    lemma_lookup_fields_push_all(fs18, "name"@, JsonV::Str(v.name));
    let fs19 = fs18.push(("name"@, JsonV::Str(v.name)));
    lemma_lookup_fields_push_all(fs19, "nodes"@, JsonV::Str(v.nodes));
    let fs20 = fs19.push(("nodes"@, JsonV::Str(v.nodes)));
    lemma_lookup_fields_push_all(fs20, "over_time_limit"@, spec_enc_opt_i64(v.over_time_limit));
    let fs21 = fs20.push(("over_time_limit"@, spec_enc_opt_i64(v.over_time_limit)));
    lemma_lookup_fields_push_all(fs21, "priority_job_factor"@, spec_enc_opt_i64(v.priority_job_factor));
    let fs22 = fs21.push(("priority_job_factor"@, spec_enc_opt_i64(v.priority_job_factor)));
    lemma_lookup_fields_push_all(fs22, "priority_tier"@, spec_enc_opt_i64(v.priority_tier));
    let fs23 = fs22.push(("priority_tier"@, spec_enc_opt_i64(v.priority_tier)));
    lemma_lookup_fields_push_all(fs23, "qos"@, JsonV::Str(v.qos));
    let fs24 = fs23.push(("qos"@, JsonV::Str(v.qos)));
    lemma_lookup_fields_push_all(fs24, "state"@, JsonV::Str(v.state));
    let fs25 = fs24.push(("state"@, JsonV::Str(v.state)));
    lemma_lookup_fields_push_all(fs25, "total_cpus"@, spec_enc_opt_i64(v.total_cpus));
    let fs26 = fs25.push(("total_cpus"@, spec_enc_opt_i64(v.total_cpus)));
    lemma_lookup_fields_push_all(fs26, "total_nodes"@, spec_enc_opt_i64(v.total_nodes));
    let fs27 = fs26.push(("total_nodes"@, spec_enc_opt_i64(v.total_nodes)));
    lemma_lookup_fields_push_all(fs27, "tres"@, JsonV::Str(v.tres));
    let fs28 = fs27.push(("tres"@, JsonV::Str(v.tres)));
    lemma_lookup_fields_push_all(fs28, "maximum_memory_per_cpu"@, spec_enc_opt_i64(v.maximum_memory_per_cpu));
    let fs29 = fs28.push(("maximum_memory_per_cpu"@, spec_enc_opt_i64(v.maximum_memory_per_cpu)));
    lemma_lookup_fields_push_all(fs29, "default_memory_per_node"@, spec_enc_opt_i64(v.default_memory_per_node));
    let fs30 = fs29.push(("default_memory_per_node"@, spec_enc_opt_i64(v.default_memory_per_node)));
    assert(spec_encode_partition(v)->Obj_0 == fs30);
}

/// The value at each of a few keys of an encoded record.
#[verifier::rlimit(100)]
proof fn lemma_partition_lookups_5(v: PartitionV)
    ensures
        lookup_fields(spec_encode_partition(v)->Obj_0, "total_cpus"@) == Some(spec_enc_opt_i64(v.total_cpus)),
        lookup_fields(spec_encode_partition(v)->Obj_0, "total_nodes"@) == Some(spec_enc_opt_i64(v.total_nodes)),
        lookup_fields(spec_encode_partition(v)->Obj_0, "tres"@) == Some(JsonV::Str(v.tres)),
        lookup_fields(spec_encode_partition(v)->Obj_0, "maximum_memory_per_cpu"@) == Some(spec_enc_opt_i64(v.maximum_memory_per_cpu)),
        lookup_fields(spec_encode_partition(v)->Obj_0, "default_memory_per_node"@) == Some(spec_enc_opt_i64(v.default_memory_per_node)),
{
    reveal_strlit("allowed_accounts");
    reveal_strlit("allowed_allocation_nodes");
    reveal_strlit("allowed_groups");
    reveal_strlit("allowed_qos");
    reveal_strlit("alternative");
    reveal_strlit("billing_weights");
    reveal_strlit("default_memory_per_cpu");
    reveal_strlit("default_memory_per_node");
    reveal_strlit("default_time_limit");
    reveal_strlit("denied_accounts");
    reveal_strlit("denied_qos");
    reveal_strlit("flags");
    reveal_strlit("max_time_limit");
    reveal_strlit("maximum_cpus_per_node");
    reveal_strlit("maximum_memory_per_cpu");
    reveal_strlit("maximum_memory_per_node");
    reveal_strlit("maximum_nodes_per_job");
    reveal_strlit("min_nodes_per_job");
    reveal_strlit("name");
    reveal_strlit("nodes");
    reveal_strlit("over_time_limit");
    reveal_strlit("preemption_grace_time");
    reveal_strlit("preemption_mode");
    reveal_strlit("priority_job_factor");
    reveal_strlit("priority_tier");
    reveal_strlit("qos");
    reveal_strlit("state");
    reveal_strlit("total_cpus");
    reveal_strlit("total_nodes");
    reveal_strlit("tres");
    assert("allowed_accounts"@.len() == 16);
    assert("allowed_allocation_nodes"@.len() == 24);
    assert("allowed_groups"@.len() == 14);
    assert("allowed_qos"@.len() == 11);
    assert("alternative"@.len() == 11);
    assert("billing_weights"@.len() == 15);
    assert("default_memory_per_cpu"@.len() == 22);
    assert("default_memory_per_node"@.len() == 23);
    assert("default_time_limit"@.len() == 18);
    assert("denied_accounts"@.len() == 15);
    assert("denied_qos"@.len() == 10);
    assert("flags"@.len() == 5);
    assert("max_time_limit"@.len() == 14);
    assert("maximum_cpus_per_node"@.len() == 21);
    assert("maximum_memory_per_cpu"@.len() == 22);
    assert("maximum_memory_per_node"@.len() == 23);
    assert("maximum_nodes_per_job"@.len() == 21);
    assert("min_nodes_per_job"@.len() == 17);
    assert("name"@.len() == 4);
    assert("nodes"@.len() == 5);
    assert("over_time_limit"@.len() == 15);
    assert("preemption_grace_time"@.len() == 21);
    assert("preemption_mode"@.len() == 15);
    assert("priority_job_factor"@.len() == 19);
    assert("priority_tier"@.len() == 13);
    assert("qos"@.len() == 3);
    assert("state"@.len() == 5);
    assert("total_cpus"@.len() == 10);
    assert("total_nodes"@.len() == 11);
    assert("tres"@.len() == 4);
    assert("allowed_groups"@[0] == 'a');
    assert("max_time_limit"@[0] == 'm');
    assert("allowed_qos"@[2] == 'l');
    assert("alternative"@[2] == 't');
    assert("allowed_qos"@[0] == 'a');
    assert("total_nodes"@[0] == 't');
    assert("alternative"@[0] == 'a');
    assert("total_nodes"@[0] == 't');
    assert("billing_weights"@[0] == 'b');
    assert("denied_accounts"@[0] == 'd');
    assert("billing_weights"@[0] == 'b');
    assert("over_time_limit"@[0] == 'o');
    assert("billing_weights"@[0] == 'b');
    assert("preemption_mode"@[0] == 'p');
    assert("default_memory_per_cpu"@[0] == 'd');
    assert("maximum_memory_per_cpu"@[0] == 'm');
    assert("default_memory_per_node"@[0] == 'd');
    assert("maximum_memory_per_node"@[0] == 'm');
    assert("denied_accounts"@[0] == 'd');
    assert("over_time_limit"@[0] == 'o');
    assert("denied_accounts"@[0] == 'd');
    assert("preemption_mode"@[0] == 'p');
    assert("denied_qos"@[0] == 'd');
    assert("total_cpus"@[0] == 't');
    assert("flags"@[0] == 'f');
    assert("nodes"@[0] == 'n');
    assert("flags"@[0] == 'f');
    assert("state"@[0] == 's');
    assert("maximum_cpus_per_node"@[8] == 'c');
    assert("maximum_nodes_per_job"@[8] == 'n');
    assert("maximum_cpus_per_node"@[0] == 'm');
    assert("preemption_grace_time"@[0] == 'p');
    assert("maximum_nodes_per_job"@[0] == 'm');
    assert("preemption_grace_time"@[0] == 'p');
    assert("name"@[0] == 'n');
    assert("tres"@[0] == 't');
    assert("nodes"@[0] == 'n');
    assert("state"@[0] == 's');
    assert("over_time_limit"@[0] == 'o');
    assert("preemption_mode"@[0] == 'p');
    let fs0 = Seq::<(Seq<char>, JsonV)>::empty();
    lemma_lookup_fields_push_all(fs0, "flags"@, JsonV::Arr(spec_encode_strs(v.flags)));
    let fs1 = fs0.push(("flags"@, JsonV::Arr(spec_encode_strs(v.flags))));
    lemma_lookup_fields_push_all(fs1, "preemption_mode"@, JsonV::Arr(spec_encode_strs(v.preemption_mode)));
    let fs2 = fs1.push(("preemption_mode"@, JsonV::Arr(spec_encode_strs(v.preemption_mode))));
    lemma_lookup_fields_push_all(fs2, "allowed_allocation_nodes"@, JsonV::Str(v.allowed_allocation_nodes));
    let fs3 = fs2.push(("allowed_allocation_nodes"@, JsonV::Str(v.allowed_allocation_nodes)));
    lemma_lookup_fields_push_all(fs3, "allowed_accounts"@, JsonV::Str(v.allowed_accounts));
    let fs4 = fs3.push(("allowed_accounts"@, JsonV::Str(v.allowed_accounts)));
    lemma_lookup_fields_push_all(fs4, "allowed_groups"@, JsonV::Str(v.allowed_groups));
    let fs5 = fs4.push(("allowed_groups"@, JsonV::Str(v.allowed_groups)));
    lemma_lookup_fields_push_all(fs5, "allowed_qos"@, JsonV::Str(v.allowed_qos));
    let fs6 = fs5.push(("allowed_qos"@, JsonV::Str(v.allowed_qos)));
    lemma_lookup_fields_push_all(fs6, "alternative"@, JsonV::Str(v.alternative));
    let fs7 = fs6.push(("alternative"@, JsonV::Str(v.alternative)));
    lemma_lookup_fields_push_all(fs7, "billing_weights"@, JsonV::Str(v.billing_weights));
    let fs8 = fs7.push(("billing_weights"@, JsonV::Str(v.billing_weights)));
    lemma_lookup_fields_push_all(fs8, "default_memory_per_cpu"@, spec_enc_opt_i64(v.default_memory_per_cpu));
    let fs9 = fs8.push(("default_memory_per_cpu"@, spec_enc_opt_i64(v.default_memory_per_cpu)));
    lemma_lookup_fields_push_all(fs9, "default_time_limit"@, spec_enc_opt_i64(v.default_time_limit));
    let fs10 = fs9.push(("default_time_limit"@, spec_enc_opt_i64(v.default_time_limit)));
    lemma_lookup_fields_push_all(fs10, "denied_accounts"@, JsonV::Str(v.denied_accounts));
    let fs11 = fs10.push(("denied_accounts"@, JsonV::Str(v.denied_accounts)));
    lemma_lookup_fields_push_all(fs11, "denied_qos"@, JsonV::Str(v.denied_qos));
    let fs12 = fs11.push(("denied_qos"@, JsonV::Str(v.denied_qos)));
    lemma_lookup_fields_push_all(fs12, "preemption_grace_time"@, spec_enc_opt_i64(v.preemption_grace_time));
    let fs13 = fs12.push(("preemption_grace_time"@, spec_enc_opt_i64(v.preemption_grace_time)));
    lemma_lookup_fields_push_all(fs13, "maximum_cpus_per_node"@, spec_enc_opt_i64(v.maximum_cpus_per_node));
    let fs14 = fs13.push(("maximum_cpus_per_node"@, spec_enc_opt_i64(v.maximum_cpus_per_node)));
    lemma_lookup_fields_push_all(fs14, "maximum_memory_per_node"@, spec_enc_opt_i64(v.maximum_memory_per_node));
    let fs15 = fs14.push(("maximum_memory_per_node"@, spec_enc_opt_i64(v.maximum_memory_per_node)));
    lemma_lookup_fields_push_all(fs15, "maximum_nodes_per_job"@, spec_enc_opt_i64(v.maximum_nodes_per_job));
    let fs16 = fs15.push(("maximum_nodes_per_job"@, spec_enc_opt_i64(v.maximum_nodes_per_job)));
    lemma_lookup_fields_push_all(fs16, "max_time_limit"@, spec_enc_opt_i64(v.max_time_limit));
    let fs17 = fs16.push(("max_time_limit"@, spec_enc_opt_i64(v.max_time_limit)));
    lemma_lookup_fields_push_all(fs17, "min_nodes_per_job"@, spec_enc_opt_i64(v.min_nodes_per_job));
    let fs18 = fs17.push(("min_nodes_per_job"@, spec_enc_opt_i64(v.min_nodes_per_job)));
    lemma_lookup_fields_push_all(fs18, "name"@, JsonV::Str(v.name));
    let fs19 = fs18.push(("name"@, JsonV::Str(v.name)));
    lemma_lookup_fields_push_all(fs19, "nodes"@, JsonV::Str(v.nodes));
    let fs20 = fs19.push(("nodes"@, JsonV::Str(v.nodes)));
    lemma_lookup_fields_push_all(fs20, "over_time_limit"@, spec_enc_opt_i64(v.over_time_limit));
    let fs21 = fs20.push(("over_time_limit"@, spec_enc_opt_i64(v.over_time_limit)));
    lemma_lookup_fields_push_all(fs21, "priority_job_factor"@, spec_enc_opt_i64(v.priority_job_factor));
    let fs22 = fs21.push(("priority_job_factor"@, spec_enc_opt_i64(v.priority_job_factor)));
    lemma_lookup_fields_push_all(fs22, "priority_tier"@, spec_enc_opt_i64(v.priority_tier));
    let fs23 = fs22.push(("priority_tier"@, spec_enc_opt_i64(v.priority_tier)));
    lemma_lookup_fields_push_all(fs23, "qos"@, JsonV::Str(v.qos));
    let fs24 = fs23.push(("qos"@, JsonV::Str(v.qos)));
    lemma_lookup_fields_push_all(fs24, "state"@, JsonV::Str(v.state));
    let fs25 = fs24.push(("state"@, JsonV::Str(v.state)));
    lemma_lookup_fields_push_all(fs25, "total_cpus"@, spec_enc_opt_i64(v.total_cpus));
    let fs26 = fs25.push(("total_cpus"@, spec_enc_opt_i64(v.total_cpus)));
    lemma_lookup_fields_push_all(fs26, "total_nodes"@, spec_enc_opt_i64(v.total_nodes));
    let fs27 = fs26.push(("total_nodes"@, spec_enc_opt_i64(v.total_nodes)));
    lemma_lookup_fields_push_all(fs27, "tres"@, JsonV::Str(v.tres));
    let fs28 = fs27.push(("tres"@, JsonV::Str(v.tres)));
    lemma_lookup_fields_push_all(fs28, "maximum_memory_per_cpu"@, spec_enc_opt_i64(v.maximum_memory_per_cpu));
    let fs29 = fs28.push(("maximum_memory_per_cpu"@, spec_enc_opt_i64(v.maximum_memory_per_cpu)));
    lemma_lookup_fields_push_all(fs29, "default_memory_per_node"@, spec_enc_opt_i64(v.default_memory_per_node));
    let fs30 = fs29.push(("default_memory_per_node"@, spec_enc_opt_i64(v.default_memory_per_node)));
    assert(spec_encode_partition(v)->Obj_0 == fs30);
}

/// The decoded value of each of a few fields of an encoded
/// record.
#[verifier::rlimit(100)]
proof fn lemma_partition_fields_0(v: PartitionV)
    ensures
        spec_str_list_field(spec_encode_partition(v), "flags"@) == Some(v.flags),
        spec_str_list_field(spec_encode_partition(v), "preemption_mode"@) == Some(v.preemption_mode),
        spec_str_field(spec_encode_partition(v), "allowed_allocation_nodes"@) == Some(v.allowed_allocation_nodes),
        spec_str_field(spec_encode_partition(v), "allowed_accounts"@) == Some(v.allowed_accounts),
        spec_str_field(spec_encode_partition(v), "allowed_groups"@) == Some(v.allowed_groups),
{
    lemma_partition_lookups_0(v);
    lemma_strs_round_trip(v.flags);
    lemma_strs_round_trip(v.preemption_mode);
}

/// The decoded value of each of a few fields of an encoded
/// record.
#[verifier::rlimit(100)]
proof fn lemma_partition_fields_1(v: PartitionV)
    ensures
        spec_str_field(spec_encode_partition(v), "allowed_qos"@) == Some(v.allowed_qos),
        spec_str_field(spec_encode_partition(v), "alternative"@) == Some(v.alternative),
        spec_str_field(spec_encode_partition(v), "billing_weights"@) == Some(v.billing_weights),
        spec_opt_i64_field(spec_encode_partition(v), "default_memory_per_cpu"@) == Some(v.default_memory_per_cpu),
        spec_opt_i64_field(spec_encode_partition(v), "default_time_limit"@) == Some(v.default_time_limit),
{
    lemma_partition_lookups_1(v);
}

/// The decoded value of each of a few fields of an encoded
/// record.
#[verifier::rlimit(100)]
proof fn lemma_partition_fields_2(v: PartitionV)
    ensures
        spec_str_field(spec_encode_partition(v), "denied_accounts"@) == Some(v.denied_accounts),
        spec_str_field(spec_encode_partition(v), "denied_qos"@) == Some(v.denied_qos),
        spec_opt_i64_field(spec_encode_partition(v), "preemption_grace_time"@) == Some(v.preemption_grace_time),
        spec_opt_i64_field(spec_encode_partition(v), "maximum_cpus_per_node"@) == Some(v.maximum_cpus_per_node),
        spec_opt_i64_field(spec_encode_partition(v), "maximum_memory_per_node"@) == Some(v.maximum_memory_per_node),
{
    lemma_partition_lookups_2(v);
}

/// The decoded value of each of a few fields of an encoded
/// record.
#[verifier::rlimit(100)]
proof fn lemma_partition_fields_3(v: PartitionV)
    ensures
        spec_opt_i64_field(spec_encode_partition(v), "maximum_nodes_per_job"@) == Some(v.maximum_nodes_per_job),
        spec_opt_i64_field(spec_encode_partition(v), "max_time_limit"@) == Some(v.max_time_limit),
        spec_opt_i64_field(spec_encode_partition(v), "min_nodes_per_job"@) == Some(v.min_nodes_per_job),
        spec_str_field(spec_encode_partition(v), "name"@) == Some(v.name),
        spec_str_field(spec_encode_partition(v), "nodes"@) == Some(v.nodes),
{
    lemma_partition_lookups_3(v);
}

/// The decoded value of each of a few fields of an encoded
/// record.
#[verifier::rlimit(100)]
proof fn lemma_partition_fields_4(v: PartitionV)
    ensures
        spec_opt_i64_field(spec_encode_partition(v), "over_time_limit"@) == Some(v.over_time_limit),
        spec_opt_i64_field(spec_encode_partition(v), "priority_job_factor"@) == Some(v.priority_job_factor),
        spec_opt_i64_field(spec_encode_partition(v), "priority_tier"@) == Some(v.priority_tier),
        spec_str_field(spec_encode_partition(v), "qos"@) == Some(v.qos),
        spec_str_field(spec_encode_partition(v), "state"@) == Some(v.state),
{
    lemma_partition_lookups_4(v);
}

/// The decoded value of each of a few fields of an encoded
/// record.
#[verifier::rlimit(100)]
proof fn lemma_partition_fields_5(v: PartitionV)
    ensures
        spec_opt_i64_field(spec_encode_partition(v), "total_cpus"@) == Some(v.total_cpus),
        spec_opt_i64_field(spec_encode_partition(v), "total_nodes"@) == Some(v.total_nodes),
        spec_str_field(spec_encode_partition(v), "tres"@) == Some(v.tres),
        spec_opt_i64_field(spec_encode_partition(v), "maximum_memory_per_cpu"@) == Some(v.maximum_memory_per_cpu),
        spec_opt_i64_field(spec_encode_partition(v), "default_memory_per_node"@) == Some(v.default_memory_per_node),
{
    lemma_partition_lookups_5(v);
}

/// Encoding one record and decoding the result gives the record
/// back.
#[verifier::rlimit(100)]
pub proof fn lemma_partition_round_trip(v: PartitionV)
    ensures
        spec_decode_partition(spec_encode_partition(v)) == Some(v),
{
    lemma_partition_fields_0(v);
    lemma_partition_fields_1(v);
    lemma_partition_fields_2(v);
    lemma_partition_fields_3(v);
    lemma_partition_fields_4(v);
    lemma_partition_fields_5(v);
    assert(spec_decode_partition(spec_encode_partition(v)) == Some(v)) by {
    }
}
/// The models of a sequence of partitions, or nothing when some
/// element does not decode.
pub open spec fn spec_decode_partition_seq(items: Seq<JsonV>) -> Option<Seq<PartitionV>>
    decreases items.len(),
{
    if items.len() == 0 {
        Some(Seq::empty())
    } else {
        match (spec_decode_partition_seq(items.drop_last()), spec_decode_partition(items.last())) {
            (Option::Some(rest), Option::Some(x)) => Some(rest.push(x)),
            _ => None,
        }
    }
}

/// A sequence with an element that does not decode has no decoding
/// as a whole.
proof fn lemma_decode_partition_seq_none(items: Seq<JsonV>, i: int)
    requires
        0 <= i < items.len(),
        spec_decode_partition(items[i]) is None,
    ensures
        spec_decode_partition_seq(items) is None,
    decreases items.len(),
{
    if i < items.len() - 1 {
        lemma_decode_partition_seq_none(items.drop_last(), i);
    }
}

/// The models of each record of `v`, in order.
pub open spec fn partitions_view(v: Seq<Partition>) -> Seq<PartitionV>
    decreases v.len(),
{
    if v.len() == 0 {
        Seq::empty()
    } else {
        partitions_view(v.drop_last()).push(v.last()@)
    }
}
/// The `partitions` field of the envelope: the empty list when absent,
/// its records when an array of objects, and nothing on a schema
/// mismatch.
pub open spec fn spec_partitions_field(j: JsonV) -> Option<Seq<PartitionV>> {
    match spec_lookup(j, "partitions"@) {
        Option::None => Some(Seq::empty()),
        Option::Some(JsonV::Arr(items)) => spec_decode_partition_seq(items),
        Option::Some(_) => None,
    }
}

/// Read the `partitions` field of the envelope, defaulting to the empty
/// list.
fn partitions_from_envelope(j: &Json) -> (r: Result<Vec<Partition>, JsonError>)
    ensures
        match r {
            Ok(v) => spec_partitions_field(j@) == Some(partitions_view(v@)),
            Err(_) => spec_partitions_field(j@) is None,
        },
{
    match j.lookup("partitions") {
        None => {
            let out: Vec<Partition> = Vec::new();
            Ok(out)
        },
        Some(v) => match v {
            Json::Arr(items) => {
                let ghost vs = v@->Arr_0;
                proof {
                    crate::json::lemma_view_seq_elts(items@);
                }
                let mut out: Vec<Partition> = Vec::new();
                let mut idx: usize = 0;
                while idx < items.len()
                    invariant
                        idx <= items.len(),
                        spec_lookup(j@, "partitions"@) == Some(v@),
                        v@ == JsonV::Arr(vs),
                        vs.len() == items@.len(),
                        forall|i: int| 0 <= i < vs.len() ==> vs[i] == items@[i].model(),
                        spec_decode_partition_seq(vs.take(idx as int)) == Some(partitions_view(out@)),
                    decreases items@.len() - idx,
                {
                    match Partition::from_json(&items[idx]) {
                        Ok(e) => {
                            let ghost out_pre = out@;
                            out.push(e);
                            proof {
                                assert(out@.drop_last() =~= out_pre);
                            }
                        },
                        Err(err) => {
                            proof {
                                lemma_decode_partition_seq_none(vs, idx as int);
                            }
                            return Err(err);
                        },
                    }
                    idx = idx + 1;
                    assert(vs.take(idx as int).drop_last() =~= vs.take(idx as int - 1));
                }
                proof {
                    assert(vs.take(vs.len() as int) =~= vs);
                }
                Ok(out)
            },
            _ => Err(JsonError::new()),
        },
    }
}
/// The partition endpoints' response envelope.
#[derive(Debug, Clone, PartialEq)]
pub struct PartitionsResponse {
    pub meta: Meta,
    pub errors: Vec<Error>,
    pub partitions: Vec<Partition>,
}

/// The model of [`PartitionsResponse`].
pub struct PartitionsResponseV {
    pub meta: MetaV,
    pub errors: Seq<ErrorV>,
    pub partitions: Seq<PartitionV>,
}

impl View for PartitionsResponse {
    type V = PartitionsResponseV;

    open spec fn view(&self) -> PartitionsResponseV {
        PartitionsResponseV {
            meta: self.meta@,
            errors: errors_view(self.errors@),
            partitions: partitions_view(self.partitions@),
        }
    }
}

/// What the whole envelope decodes from, or nothing on a schema
/// mismatch; absent parts decode to empty values.
pub open spec fn spec_decode_partitions_response(j: JsonV) -> Option<PartitionsResponseV> {
    if !(j is Obj) {
        None
    } else if spec_meta_field(j) is None {
        None
    } else if spec_errors_field(j) is None {
        None
    } else if spec_partitions_field(j) is None {
        None
    } else {
        Some(
            PartitionsResponseV {
                meta: spec_meta_field(j).unwrap(),
                errors: spec_errors_field(j).unwrap(),
                partitions: spec_partitions_field(j).unwrap(),
            },
        )
    }
}

impl PartitionsResponse {
    /// Read the whole envelope out of a JSON object.
    pub fn from_json(j: &Json) -> (r: Result<PartitionsResponse, JsonError>)
        ensures
            match r {
                Ok(v) => spec_decode_partitions_response(j@) == Some(v@),
                Err(_) => spec_decode_partitions_response(j@) is None,
            },
    {
        if !j.is_obj() {
            return Err(JsonError::new());
        }
        let meta = Meta::from_envelope(j)?;
        let errors = errors_from_envelope(j)?;
        let partitions = partitions_from_envelope(j)?;
        Ok(PartitionsResponse { meta, errors, partitions })
    }

    /// Turn one HTTP answer into a typed result: any status other
    /// than 200 is a protocol error carrying the status and the raw
    /// body, and the body of a 200 answer is parsed and decoded.
    pub fn from_http(status: u16, body: &str) -> (r: Result<PartitionsResponse, ClientError>)
        ensures
            status != 200 ==> match r {
                Err(ClientError::Protocol { status: s, body: b }) => s == status && b@ == body@,
                _ => false,
            },
            status == 200 ==> match spec_parse_json(body@) {
                Option::None => r == Err::<PartitionsResponse, ClientError>(ClientError::Decode),
                Option::Some(doc) => match spec_decode_partitions_response(doc) {
                    Option::Some(p) => match r {
                        Ok(v) => v@ == p,
                        Err(_) => false,
                    },
                    Option::None => r == Err::<PartitionsResponse, ClientError>(ClientError::Decode),
                },
            },
    {
        if status != 200 {
            return Err(ClientError::Protocol { status, body: body.to_owned() });
        }
        match parse_json(body) {
            None => Err(ClientError::Decode),
            Some(doc) => match PartitionsResponse::from_json(&doc) {
                Ok(p) => Ok(p),
                Err(_) => Err(ClientError::Decode),
            },
        }
    }
}
} // verus!
