//! Compute nodes: a host's hardware and state snapshot.
use vstd::prelude::*;

use crate::error::ClientError;
use crate::json::{
    lemma_lookup_fields_push_all, lemma_strs_round_trip, lemma_view_fields_snoc, lookup_fields, opt_str_view, parse_json,
    spec_enc_opt_i64, spec_enc_opt_str, spec_encode_strs, spec_lookup, spec_opt_i64_field,
    spec_opt_str_field, spec_parse_json, spec_str_list_field, strs_to_json,
    strs_view, Json, JsonError, JsonV,
};
use crate::meta::{
    errors_from_envelope, errors_view, spec_errors_field, spec_meta_field, Error, ErrorV, Meta,
    MetaV,
};

verus! {

/// One compute host's hardware and state snapshot at request time.
#[derive(Debug, Clone, PartialEq)]
pub struct Node {
    pub architecture: Option<String>,
    pub burstbuffer_network_address: Option<String>,
    pub boards: Option<i64>,
    pub boot_time: Option<i64>,
    pub cores: Option<i64>,
    pub cpu_binding: Option<i64>,
    pub cpu_load: Option<i64>,
    pub free_memory: Option<i64>,
    pub cpus: Option<i64>,
    pub features: Option<String>,
    pub active_features: Option<String>,
    pub gres: Option<String>,
    pub gres_drained: Option<String>,
    pub gres_used: Option<String>,
    pub mcs_label: Option<String>,
    pub name: Option<String>,
    pub next_state_after_reboot: Option<String>,
    pub next_state_after_reboot_flags: Vec<String>,
    pub address: Option<String>,
    pub hostname: Option<String>,
    pub state: Option<String>,
    pub state_flags: Vec<String>,
    pub operating_system: Option<String>,
    pub owner: Option<String>,
    pub partitions: Vec<String>,
    pub port: Option<i64>,
    pub real_memory: Option<i64>,
    pub reason: Option<String>,
    pub reason_changed_at: Option<i64>,
    pub reason_set_by_user: Option<String>,
    pub slurmd_start_time: Option<i64>,
    pub sockets: Option<i64>,
    pub threads: Option<i64>,
    pub temporary_disk: Option<i64>,
    pub weight: Option<i64>,
    pub tres: Option<String>,
    pub tres_used: Option<String>,
    pub slurmd_version: Option<String>,
    pub alloc_cpus: Option<i64>,
    pub idle_cpus: Option<i64>,
    pub alloc_memory: Option<i64>,
}

/// The model of [`Node`].
pub struct NodeV {
    pub architecture: Option<Seq<char>>,
    pub burstbuffer_network_address: Option<Seq<char>>,
    pub boards: Option<i64>,
    pub boot_time: Option<i64>,
    pub cores: Option<i64>,
    pub cpu_binding: Option<i64>,
    pub cpu_load: Option<i64>,
    pub free_memory: Option<i64>,
    pub cpus: Option<i64>,
    pub features: Option<Seq<char>>,
    pub active_features: Option<Seq<char>>,
    pub gres: Option<Seq<char>>,
    pub gres_drained: Option<Seq<char>>,
    pub gres_used: Option<Seq<char>>,
    pub mcs_label: Option<Seq<char>>,
    pub name: Option<Seq<char>>,
    pub next_state_after_reboot: Option<Seq<char>>,
    pub next_state_after_reboot_flags: Seq<Seq<char>>,
    pub address: Option<Seq<char>>,
    pub hostname: Option<Seq<char>>,
    pub state: Option<Seq<char>>,
    pub state_flags: Seq<Seq<char>>,
    pub operating_system: Option<Seq<char>>,
    pub owner: Option<Seq<char>>,
    pub partitions: Seq<Seq<char>>,
    pub port: Option<i64>,
    pub real_memory: Option<i64>,
    pub reason: Option<Seq<char>>,
    pub reason_changed_at: Option<i64>,
    pub reason_set_by_user: Option<Seq<char>>,
    pub slurmd_start_time: Option<i64>,
    pub sockets: Option<i64>,
    pub threads: Option<i64>,
    pub temporary_disk: Option<i64>,
    pub weight: Option<i64>,
    pub tres: Option<Seq<char>>,
    pub tres_used: Option<Seq<char>>,
    pub slurmd_version: Option<Seq<char>>,
    pub alloc_cpus: Option<i64>,
    pub idle_cpus: Option<i64>,
    pub alloc_memory: Option<i64>,
}

impl View for Node {
    type V = NodeV;

    open spec fn view(&self) -> NodeV {
        NodeV {
            architecture: opt_str_view(self.architecture),
            burstbuffer_network_address: opt_str_view(self.burstbuffer_network_address),
            boards: self.boards,
            boot_time: self.boot_time,
            cores: self.cores,
            cpu_binding: self.cpu_binding,
            cpu_load: self.cpu_load,
            free_memory: self.free_memory,
            cpus: self.cpus,
            features: opt_str_view(self.features),
            active_features: opt_str_view(self.active_features),
            gres: opt_str_view(self.gres),
            gres_drained: opt_str_view(self.gres_drained),
            gres_used: opt_str_view(self.gres_used),
            mcs_label: opt_str_view(self.mcs_label),
            name: opt_str_view(self.name),
            next_state_after_reboot: opt_str_view(self.next_state_after_reboot),
            next_state_after_reboot_flags: strs_view(self.next_state_after_reboot_flags@),
            address: opt_str_view(self.address),
            hostname: opt_str_view(self.hostname),
            state: opt_str_view(self.state),
            state_flags: strs_view(self.state_flags@),
            operating_system: opt_str_view(self.operating_system),
            owner: opt_str_view(self.owner),
            partitions: strs_view(self.partitions@),
            port: self.port,
            real_memory: self.real_memory,
            reason: opt_str_view(self.reason),
            reason_changed_at: self.reason_changed_at,
            reason_set_by_user: opt_str_view(self.reason_set_by_user),
            slurmd_start_time: self.slurmd_start_time,
            sockets: self.sockets,
            threads: self.threads,
            temporary_disk: self.temporary_disk,
            weight: self.weight,
            tres: opt_str_view(self.tres),
            tres_used: opt_str_view(self.tres_used),
            slurmd_version: opt_str_view(self.slurmd_version),
            alloc_cpus: self.alloc_cpus,
            idle_cpus: self.idle_cpus,
            alloc_memory: self.alloc_memory,
        }
    }
}

/// Whether `j` is an object all of whose present fields have the
/// expected types.
pub open spec fn spec_node_ok(j: JsonV) -> bool {
    &&& j is Obj
    &&& spec_opt_str_field(j, "architecture"@) is Some
    &&& spec_opt_str_field(j, "burstbuffer_network_address"@) is Some
    &&& spec_opt_i64_field(j, "boards"@) is Some
    &&& spec_opt_i64_field(j, "boot_time"@) is Some
    &&& spec_opt_i64_field(j, "cores"@) is Some
    &&& spec_opt_i64_field(j, "cpu_binding"@) is Some
    &&& spec_opt_i64_field(j, "cpu_load"@) is Some
    &&& spec_opt_i64_field(j, "free_memory"@) is Some
    &&& spec_opt_i64_field(j, "cpus"@) is Some
    &&& spec_opt_str_field(j, "features"@) is Some
    &&& spec_opt_str_field(j, "active_features"@) is Some
    &&& spec_opt_str_field(j, "gres"@) is Some
    &&& spec_opt_str_field(j, "gres_drained"@) is Some
    &&& spec_opt_str_field(j, "gres_used"@) is Some
    &&& spec_opt_str_field(j, "mcs_label"@) is Some
    &&& spec_opt_str_field(j, "name"@) is Some
    &&& spec_opt_str_field(j, "next_state_after_reboot"@) is Some
    &&& spec_str_list_field(j, "next_state_after_reboot_flags"@) is Some
    &&& spec_opt_str_field(j, "address"@) is Some
    &&& spec_opt_str_field(j, "hostname"@) is Some
    &&& spec_opt_str_field(j, "state"@) is Some
    &&& spec_str_list_field(j, "state_flags"@) is Some
    &&& spec_opt_str_field(j, "operating_system"@) is Some
    &&& spec_opt_str_field(j, "owner"@) is Some
    &&& spec_str_list_field(j, "partitions"@) is Some
    &&& spec_opt_i64_field(j, "port"@) is Some
    &&& spec_opt_i64_field(j, "real_memory"@) is Some
    &&& spec_opt_str_field(j, "reason"@) is Some
    &&& spec_opt_i64_field(j, "reason_changed_at"@) is Some
    &&& spec_opt_str_field(j, "reason_set_by_user"@) is Some
    &&& spec_opt_i64_field(j, "slurmd_start_time"@) is Some
    &&& spec_opt_i64_field(j, "sockets"@) is Some
    &&& spec_opt_i64_field(j, "threads"@) is Some
    &&& spec_opt_i64_field(j, "temporary_disk"@) is Some
    &&& spec_opt_i64_field(j, "weight"@) is Some
    &&& spec_opt_str_field(j, "tres"@) is Some
    &&& spec_opt_str_field(j, "tres_used"@) is Some
    &&& spec_opt_str_field(j, "slurmd_version"@) is Some
    &&& spec_opt_i64_field(j, "alloc_cpus"@) is Some
    &&& spec_opt_i64_field(j, "idle_cpus"@) is Some
    &&& spec_opt_i64_field(j, "alloc_memory"@) is Some
}

/// What one record decodes from, or nothing on a schema mismatch.
pub open spec fn spec_decode_node(j: JsonV) -> Option<NodeV> {
    if spec_node_ok(j) {
        Some(
            NodeV {
                architecture: spec_opt_str_field(j, "architecture"@).unwrap(),
                burstbuffer_network_address: spec_opt_str_field(j, "burstbuffer_network_address"@).unwrap(),
                boards: spec_opt_i64_field(j, "boards"@).unwrap(),
                boot_time: spec_opt_i64_field(j, "boot_time"@).unwrap(),
                cores: spec_opt_i64_field(j, "cores"@).unwrap(),
                cpu_binding: spec_opt_i64_field(j, "cpu_binding"@).unwrap(),
                cpu_load: spec_opt_i64_field(j, "cpu_load"@).unwrap(),
                free_memory: spec_opt_i64_field(j, "free_memory"@).unwrap(),
                cpus: spec_opt_i64_field(j, "cpus"@).unwrap(),
                features: spec_opt_str_field(j, "features"@).unwrap(),
                active_features: spec_opt_str_field(j, "active_features"@).unwrap(),
                gres: spec_opt_str_field(j, "gres"@).unwrap(),
                gres_drained: spec_opt_str_field(j, "gres_drained"@).unwrap(),
                gres_used: spec_opt_str_field(j, "gres_used"@).unwrap(),
                mcs_label: spec_opt_str_field(j, "mcs_label"@).unwrap(),
                name: spec_opt_str_field(j, "name"@).unwrap(),
                next_state_after_reboot: spec_opt_str_field(j, "next_state_after_reboot"@).unwrap(),
                next_state_after_reboot_flags: spec_str_list_field(j, "next_state_after_reboot_flags"@).unwrap(),
                address: spec_opt_str_field(j, "address"@).unwrap(),
                hostname: spec_opt_str_field(j, "hostname"@).unwrap(),
                state: spec_opt_str_field(j, "state"@).unwrap(),
                state_flags: spec_str_list_field(j, "state_flags"@).unwrap(),
                operating_system: spec_opt_str_field(j, "operating_system"@).unwrap(),
                owner: spec_opt_str_field(j, "owner"@).unwrap(),
                partitions: spec_str_list_field(j, "partitions"@).unwrap(),
                port: spec_opt_i64_field(j, "port"@).unwrap(),
                real_memory: spec_opt_i64_field(j, "real_memory"@).unwrap(),
                reason: spec_opt_str_field(j, "reason"@).unwrap(),
                reason_changed_at: spec_opt_i64_field(j, "reason_changed_at"@).unwrap(),
                reason_set_by_user: spec_opt_str_field(j, "reason_set_by_user"@).unwrap(),
                slurmd_start_time: spec_opt_i64_field(j, "slurmd_start_time"@).unwrap(),
                sockets: spec_opt_i64_field(j, "sockets"@).unwrap(),
                threads: spec_opt_i64_field(j, "threads"@).unwrap(),
                temporary_disk: spec_opt_i64_field(j, "temporary_disk"@).unwrap(),
                weight: spec_opt_i64_field(j, "weight"@).unwrap(),
                tres: spec_opt_str_field(j, "tres"@).unwrap(),
                tres_used: spec_opt_str_field(j, "tres_used"@).unwrap(),
                slurmd_version: spec_opt_str_field(j, "slurmd_version"@).unwrap(),
                alloc_cpus: spec_opt_i64_field(j, "alloc_cpus"@).unwrap(),
                idle_cpus: spec_opt_i64_field(j, "idle_cpus"@).unwrap(),
                alloc_memory: spec_opt_i64_field(j, "alloc_memory"@).unwrap(),
            },
        )
    } else {
        None
    }
}

impl Node {
    /// Read one group of fields.
    #[verifier::rlimit(50)]
    fn from_json_part_0(j: &Json) -> (r: Result<(Option<String>, Option<String>, Option<i64>, Option<i64>, Option<i64>, Option<i64>, Option<i64>, Option<i64>,), JsonError>)
        ensures
            match r {
                Ok(t) => spec_opt_str_field(j@, "architecture"@) == Some(opt_str_view(t.0))
                    && spec_opt_str_field(j@, "burstbuffer_network_address"@) == Some(opt_str_view(t.1))
                    && spec_opt_i64_field(j@, "boards"@) == Some(t.2)
                    && spec_opt_i64_field(j@, "boot_time"@) == Some(t.3)
                    && spec_opt_i64_field(j@, "cores"@) == Some(t.4)
                    && spec_opt_i64_field(j@, "cpu_binding"@) == Some(t.5)
                    && spec_opt_i64_field(j@, "cpu_load"@) == Some(t.6)
                    && spec_opt_i64_field(j@, "free_memory"@) == Some(t.7),
                Err(_) => !spec_node_ok(j@),
            },
    {
        let architecture = j.get_opt_str("architecture")?;
        let burstbuffer_network_address = j.get_opt_str("burstbuffer_network_address")?;
        let boards = j.get_opt_i64("boards")?;
        let boot_time = j.get_opt_i64("boot_time")?;
        let cores = j.get_opt_i64("cores")?;
        let cpu_binding = j.get_opt_i64("cpu_binding")?;
        let cpu_load = j.get_opt_i64("cpu_load")?;
        let free_memory = j.get_opt_i64("free_memory")?;
        Ok((architecture, burstbuffer_network_address, boards, boot_time, cores, cpu_binding, cpu_load, free_memory,))
    }

    /// Read one group of fields.
    #[verifier::rlimit(50)]
    fn from_json_part_1(j: &Json) -> (r: Result<(Option<i64>, Option<String>, Option<String>, Option<String>, Option<String>, Option<String>, Option<String>, Option<String>,), JsonError>)
        ensures
            match r {
                Ok(t) => spec_opt_i64_field(j@, "cpus"@) == Some(t.0)
                    && spec_opt_str_field(j@, "features"@) == Some(opt_str_view(t.1))
                    && spec_opt_str_field(j@, "active_features"@) == Some(opt_str_view(t.2))
                    && spec_opt_str_field(j@, "gres"@) == Some(opt_str_view(t.3))
                    && spec_opt_str_field(j@, "gres_drained"@) == Some(opt_str_view(t.4))
                    && spec_opt_str_field(j@, "gres_used"@) == Some(opt_str_view(t.5))
                    && spec_opt_str_field(j@, "mcs_label"@) == Some(opt_str_view(t.6))
                    && spec_opt_str_field(j@, "name"@) == Some(opt_str_view(t.7)),
                Err(_) => !spec_node_ok(j@),
            },
    {
        let cpus = j.get_opt_i64("cpus")?;
        let features = j.get_opt_str("features")?;
        let active_features = j.get_opt_str("active_features")?;
        let gres = j.get_opt_str("gres")?;
        let gres_drained = j.get_opt_str("gres_drained")?;
        let gres_used = j.get_opt_str("gres_used")?;
        let mcs_label = j.get_opt_str("mcs_label")?;
        let name = j.get_opt_str("name")?;
        Ok((cpus, features, active_features, gres, gres_drained, gres_used, mcs_label, name,))
    }

    /// Read one group of fields.
    #[verifier::rlimit(50)]
    fn from_json_part_2(j: &Json) -> (r: Result<(Option<String>, Vec<String>, Option<String>, Option<String>, Option<String>, Vec<String>, Option<String>, Option<String>,), JsonError>)
        ensures
            match r {
                Ok(t) => spec_opt_str_field(j@, "next_state_after_reboot"@) == Some(opt_str_view(t.0))
                    && spec_str_list_field(j@, "next_state_after_reboot_flags"@) == Some(strs_view(t.1@))
                    && spec_opt_str_field(j@, "address"@) == Some(opt_str_view(t.2))
                    && spec_opt_str_field(j@, "hostname"@) == Some(opt_str_view(t.3))
                    && spec_opt_str_field(j@, "state"@) == Some(opt_str_view(t.4))
                    && spec_str_list_field(j@, "state_flags"@) == Some(strs_view(t.5@))
                    && spec_opt_str_field(j@, "operating_system"@) == Some(opt_str_view(t.6))
                    && spec_opt_str_field(j@, "owner"@) == Some(opt_str_view(t.7)),
                Err(_) => !spec_node_ok(j@),
            },
    {
        let next_state_after_reboot = j.get_opt_str("next_state_after_reboot")?;
        let next_state_after_reboot_flags = j.get_str_list("next_state_after_reboot_flags")?;
        let address = j.get_opt_str("address")?;
        let hostname = j.get_opt_str("hostname")?;
        let state = j.get_opt_str("state")?;
        let state_flags = j.get_str_list("state_flags")?;
        let operating_system = j.get_opt_str("operating_system")?;
        let owner = j.get_opt_str("owner")?;
        Ok((next_state_after_reboot, next_state_after_reboot_flags, address, hostname, state, state_flags, operating_system, owner,))
    }

    /// Read one group of fields.
    #[verifier::rlimit(50)]
    fn from_json_part_3(j: &Json) -> (r: Result<(Vec<String>, Option<i64>, Option<i64>, Option<String>, Option<i64>, Option<String>, Option<i64>, Option<i64>,), JsonError>)
        ensures
            match r {
                Ok(t) => spec_str_list_field(j@, "partitions"@) == Some(strs_view(t.0@))
                    && spec_opt_i64_field(j@, "port"@) == Some(t.1)
                    && spec_opt_i64_field(j@, "real_memory"@) == Some(t.2)
                    && spec_opt_str_field(j@, "reason"@) == Some(opt_str_view(t.3))
                    && spec_opt_i64_field(j@, "reason_changed_at"@) == Some(t.4)
                    && spec_opt_str_field(j@, "reason_set_by_user"@) == Some(opt_str_view(t.5))
                    && spec_opt_i64_field(j@, "slurmd_start_time"@) == Some(t.6)
                    && spec_opt_i64_field(j@, "sockets"@) == Some(t.7),
                Err(_) => !spec_node_ok(j@),
            },
    {
        let partitions = j.get_str_list("partitions")?;
        let port = j.get_opt_i64("port")?;
        let real_memory = j.get_opt_i64("real_memory")?;
        let reason = j.get_opt_str("reason")?;
        let reason_changed_at = j.get_opt_i64("reason_changed_at")?;
        let reason_set_by_user = j.get_opt_str("reason_set_by_user")?;
        let slurmd_start_time = j.get_opt_i64("slurmd_start_time")?;
        let sockets = j.get_opt_i64("sockets")?;
        Ok((partitions, port, real_memory, reason, reason_changed_at, reason_set_by_user, slurmd_start_time, sockets,))
    }

    /// Read one group of fields.
    #[verifier::rlimit(50)]
    fn from_json_part_4(j: &Json) -> (r: Result<(Option<i64>, Option<i64>, Option<i64>, Option<String>, Option<String>, Option<String>, Option<i64>, Option<i64>,), JsonError>)
        ensures
            match r {
                Ok(t) => spec_opt_i64_field(j@, "threads"@) == Some(t.0)
                    && spec_opt_i64_field(j@, "temporary_disk"@) == Some(t.1)
                    && spec_opt_i64_field(j@, "weight"@) == Some(t.2)
                    && spec_opt_str_field(j@, "tres"@) == Some(opt_str_view(t.3))
                    && spec_opt_str_field(j@, "tres_used"@) == Some(opt_str_view(t.4))
                    && spec_opt_str_field(j@, "slurmd_version"@) == Some(opt_str_view(t.5))
                    && spec_opt_i64_field(j@, "alloc_cpus"@) == Some(t.6)
                    && spec_opt_i64_field(j@, "idle_cpus"@) == Some(t.7),
                Err(_) => !spec_node_ok(j@),
            },
    {
        let threads = j.get_opt_i64("threads")?;
        let temporary_disk = j.get_opt_i64("temporary_disk")?;
        let weight = j.get_opt_i64("weight")?;
        let tres = j.get_opt_str("tres")?;
        let tres_used = j.get_opt_str("tres_used")?;
        let slurmd_version = j.get_opt_str("slurmd_version")?;
        let alloc_cpus = j.get_opt_i64("alloc_cpus")?;
        let idle_cpus = j.get_opt_i64("idle_cpus")?;
        Ok((threads, temporary_disk, weight, tres, tres_used, slurmd_version, alloc_cpus, idle_cpus,))
    }

    /// Read one group of fields.
    #[verifier::rlimit(50)]
    fn from_json_part_5(j: &Json) -> (r: Result<(Option<i64>,), JsonError>)
        ensures
            match r {
                Ok(t) => spec_opt_i64_field(j@, "alloc_memory"@) == Some(t.0),
                Err(_) => !spec_node_ok(j@),
            },
    {
        let alloc_memory = j.get_opt_i64("alloc_memory")?;
        Ok((alloc_memory,))
    }

    /// Read one record out of a JSON object; missing fields
    /// decode to their defaults, fields of the wrong type are a
    /// schema mismatch.
    #[verifier::rlimit(100)]
    pub fn from_json(j: &Json) -> (r: Result<Node, JsonError>)
        ensures
            match r {
                Ok(v) => spec_decode_node(j@) == Some(v@),
                Err(_) => spec_decode_node(j@) is None,
            },
    {
        if !j.is_obj() {
            return Err(JsonError::new());
        }
        let t0 = Node::from_json_part_0(j)?;
        let t1 = Node::from_json_part_1(j)?;
        let t2 = Node::from_json_part_2(j)?;
        let t3 = Node::from_json_part_3(j)?;
        let t4 = Node::from_json_part_4(j)?;
        let t5 = Node::from_json_part_5(j)?;
        Ok(
            Node {
                architecture: t0.0,
                burstbuffer_network_address: t0.1,
                boards: t0.2,
                boot_time: t0.3,
                cores: t0.4,
                cpu_binding: t0.5,
                cpu_load: t0.6,
                free_memory: t0.7,
                cpus: t1.0,
                features: t1.1,
                active_features: t1.2,
                gres: t1.3,
                gres_drained: t1.4,
                gres_used: t1.5,
                mcs_label: t1.6,
                name: t1.7,
                next_state_after_reboot: t2.0,
                next_state_after_reboot_flags: t2.1,
                address: t2.2,
                hostname: t2.3,
                state: t2.4,
                state_flags: t2.5,
                operating_system: t2.6,
                owner: t2.7,
                partitions: t3.0,
                port: t3.1,
                real_memory: t3.2,
                reason: t3.3,
                reason_changed_at: t3.4,
                reason_set_by_user: t3.5,
                slurmd_start_time: t3.6,
                sockets: t3.7,
                threads: t4.0,
                temporary_disk: t4.1,
                weight: t4.2,
                tres: t4.3,
                tres_used: t4.4,
                slurmd_version: t4.5,
                alloc_cpus: t4.6,
                idle_cpus: t4.7,
                alloc_memory: t5.0,
            },
        )
    }

    /// Write this record as a JSON object, one field per key,
    /// absent parts as null.
    #[verifier::rlimit(100)]
    pub fn to_json(&self) -> (r: Json)
        ensures
            r@ == spec_encode_node(self@),
    {
        let mut fields: Vec<(String, Json)> = Vec::new();
        let ghost pre_architecture = fields@;
        let key_architecture = "architecture".to_owned();
        let ghost gkey_architecture = key_architecture;
        let val_architecture = match &self.architecture {
            Some(s) => Json::Str(s.clone()),
            None => Json::Null,
        };
        let ghost gval_architecture = val_architecture;
        proof {
            assert(gval_architecture.model() == spec_enc_opt_str(self@.architecture));
        }
        fields.push((key_architecture, val_architecture));
        proof {
            lemma_view_fields_snoc(pre_architecture, gkey_architecture, gval_architecture);
        }
        let ghost pre_burstbuffer_network_address = fields@;
        let key_burstbuffer_network_address = "burstbuffer_network_address".to_owned();
        let ghost gkey_burstbuffer_network_address = key_burstbuffer_network_address;
        let val_burstbuffer_network_address = match &self.burstbuffer_network_address {
            Some(s) => Json::Str(s.clone()),
            None => Json::Null,
        };
        let ghost gval_burstbuffer_network_address = val_burstbuffer_network_address;
        proof {
            assert(gval_burstbuffer_network_address.model() == spec_enc_opt_str(self@.burstbuffer_network_address));
        }
        fields.push((key_burstbuffer_network_address, val_burstbuffer_network_address));
        proof {
            lemma_view_fields_snoc(pre_burstbuffer_network_address, gkey_burstbuffer_network_address, gval_burstbuffer_network_address);
        }
        let ghost pre_boards = fields@;
        let key_boards = "boards".to_owned();
        let ghost gkey_boards = key_boards;
        let val_boards = match self.boards {
            Some(i) => Json::Int(i),
            None => Json::Null,
        };
        let ghost gval_boards = val_boards;
        proof {
            assert(gval_boards.model() == spec_enc_opt_i64(self@.boards));
        }
        fields.push((key_boards, val_boards));
        proof {
            lemma_view_fields_snoc(pre_boards, gkey_boards, gval_boards);
        }
        let ghost pre_boot_time = fields@;
        let key_boot_time = "boot_time".to_owned();
        let ghost gkey_boot_time = key_boot_time;
        let val_boot_time = match self.boot_time {
            Some(i) => Json::Int(i),
            None => Json::Null,
        };
        let ghost gval_boot_time = val_boot_time;
        proof {
            assert(gval_boot_time.model() == spec_enc_opt_i64(self@.boot_time));
        }
        fields.push((key_boot_time, val_boot_time));
        proof {
            lemma_view_fields_snoc(pre_boot_time, gkey_boot_time, gval_boot_time);
        }
        let ghost pre_cores = fields@;
        let key_cores = "cores".to_owned();
        let ghost gkey_cores = key_cores;
        let val_cores = match self.cores {
            Some(i) => Json::Int(i),
            None => Json::Null,
        };
        let ghost gval_cores = val_cores;
        proof {
            assert(gval_cores.model() == spec_enc_opt_i64(self@.cores));
        }
        fields.push((key_cores, val_cores));
        proof {
            lemma_view_fields_snoc(pre_cores, gkey_cores, gval_cores);
        }
        let ghost pre_cpu_binding = fields@;
        let key_cpu_binding = "cpu_binding".to_owned();
        let ghost gkey_cpu_binding = key_cpu_binding;
        let val_cpu_binding = match self.cpu_binding {
            Some(i) => Json::Int(i),
            None => Json::Null,
        };
        let ghost gval_cpu_binding = val_cpu_binding;
        proof {
            assert(gval_cpu_binding.model() == spec_enc_opt_i64(self@.cpu_binding));
        }
        fields.push((key_cpu_binding, val_cpu_binding));
        proof {
            lemma_view_fields_snoc(pre_cpu_binding, gkey_cpu_binding, gval_cpu_binding);
        }
        let ghost pre_cpu_load = fields@;
        let key_cpu_load = "cpu_load".to_owned();
        let ghost gkey_cpu_load = key_cpu_load;
        let val_cpu_load = match self.cpu_load {
            Some(i) => Json::Int(i),
            None => Json::Null,
        };
        let ghost gval_cpu_load = val_cpu_load;
        proof {
            assert(gval_cpu_load.model() == spec_enc_opt_i64(self@.cpu_load));
        }
        fields.push((key_cpu_load, val_cpu_load));
        proof {
            lemma_view_fields_snoc(pre_cpu_load, gkey_cpu_load, gval_cpu_load);
        }
        let ghost pre_free_memory = fields@;
        let key_free_memory = "free_memory".to_owned();
        let ghost gkey_free_memory = key_free_memory;
        let val_free_memory = match self.free_memory {
            Some(i) => Json::Int(i),
            None => Json::Null,
        };
        let ghost gval_free_memory = val_free_memory;
        proof {
            assert(gval_free_memory.model() == spec_enc_opt_i64(self@.free_memory));
        }
        fields.push((key_free_memory, val_free_memory));
        proof {
            lemma_view_fields_snoc(pre_free_memory, gkey_free_memory, gval_free_memory);
        }
        let ghost pre_cpus = fields@;
        let key_cpus = "cpus".to_owned();
        let ghost gkey_cpus = key_cpus;
        let val_cpus = match self.cpus {
            Some(i) => Json::Int(i),
            None => Json::Null,
        };
        let ghost gval_cpus = val_cpus;
        proof {
            assert(gval_cpus.model() == spec_enc_opt_i64(self@.cpus));
        }
        fields.push((key_cpus, val_cpus));
        proof {
            lemma_view_fields_snoc(pre_cpus, gkey_cpus, gval_cpus);
        }
        let ghost pre_features = fields@;
        let key_features = "features".to_owned();
        let ghost gkey_features = key_features;
        let val_features = match &self.features {
            Some(s) => Json::Str(s.clone()),
            None => Json::Null,
        };
        let ghost gval_features = val_features;
        proof {
            assert(gval_features.model() == spec_enc_opt_str(self@.features));
        }
        fields.push((key_features, val_features));
        proof {
            lemma_view_fields_snoc(pre_features, gkey_features, gval_features);
        }
        let ghost pre_active_features = fields@;
        let key_active_features = "active_features".to_owned();
        let ghost gkey_active_features = key_active_features;
        let val_active_features = match &self.active_features {
            Some(s) => Json::Str(s.clone()),
            None => Json::Null,
        };
        let ghost gval_active_features = val_active_features;
        proof {
            assert(gval_active_features.model() == spec_enc_opt_str(self@.active_features));
        }
        fields.push((key_active_features, val_active_features));
        proof {
            lemma_view_fields_snoc(pre_active_features, gkey_active_features, gval_active_features);
        }
        let ghost pre_gres = fields@;
        let key_gres = "gres".to_owned();
        let ghost gkey_gres = key_gres;
        let val_gres = match &self.gres {
            Some(s) => Json::Str(s.clone()),
            None => Json::Null,
        };
        let ghost gval_gres = val_gres;
        proof {
            assert(gval_gres.model() == spec_enc_opt_str(self@.gres));
        }
        fields.push((key_gres, val_gres));
        proof {
            lemma_view_fields_snoc(pre_gres, gkey_gres, gval_gres);
        }
        let ghost pre_gres_drained = fields@;
        let key_gres_drained = "gres_drained".to_owned();
        let ghost gkey_gres_drained = key_gres_drained;
        let val_gres_drained = match &self.gres_drained {
            Some(s) => Json::Str(s.clone()),
            None => Json::Null,
        };
        let ghost gval_gres_drained = val_gres_drained;
        proof {
            assert(gval_gres_drained.model() == spec_enc_opt_str(self@.gres_drained));
        }
        fields.push((key_gres_drained, val_gres_drained));
        proof {
            lemma_view_fields_snoc(pre_gres_drained, gkey_gres_drained, gval_gres_drained);
        }
        let ghost pre_gres_used = fields@;
        let key_gres_used = "gres_used".to_owned();
        let ghost gkey_gres_used = key_gres_used;
        let val_gres_used = match &self.gres_used {
            Some(s) => Json::Str(s.clone()),
            None => Json::Null,
        };
        let ghost gval_gres_used = val_gres_used;
        proof {
            assert(gval_gres_used.model() == spec_enc_opt_str(self@.gres_used));
        }
        fields.push((key_gres_used, val_gres_used));
        proof {
            lemma_view_fields_snoc(pre_gres_used, gkey_gres_used, gval_gres_used);
        }
        let ghost pre_mcs_label = fields@;
        let key_mcs_label = "mcs_label".to_owned();
        let ghost gkey_mcs_label = key_mcs_label;
        let val_mcs_label = match &self.mcs_label {
            Some(s) => Json::Str(s.clone()),
            None => Json::Null,
        };
        let ghost gval_mcs_label = val_mcs_label;
        proof {
            assert(gval_mcs_label.model() == spec_enc_opt_str(self@.mcs_label));
        }
        fields.push((key_mcs_label, val_mcs_label));
        proof {
            lemma_view_fields_snoc(pre_mcs_label, gkey_mcs_label, gval_mcs_label);
        }
        let ghost pre_name = fields@;
        let key_name = "name".to_owned();
        let ghost gkey_name = key_name;
        let val_name = match &self.name {
            Some(s) => Json::Str(s.clone()),
            None => Json::Null,
        };
        let ghost gval_name = val_name;
        proof {
            assert(gval_name.model() == spec_enc_opt_str(self@.name));
        }
        fields.push((key_name, val_name));
        proof {
            lemma_view_fields_snoc(pre_name, gkey_name, gval_name);
        }
        let ghost pre_next_state_after_reboot = fields@;
        let key_next_state_after_reboot = "next_state_after_reboot".to_owned();
        let ghost gkey_next_state_after_reboot = key_next_state_after_reboot;
        let val_next_state_after_reboot = match &self.next_state_after_reboot {
            Some(s) => Json::Str(s.clone()),
            None => Json::Null,
        };
        let ghost gval_next_state_after_reboot = val_next_state_after_reboot;
        proof {
            assert(gval_next_state_after_reboot.model() == spec_enc_opt_str(self@.next_state_after_reboot));
        }
        fields.push((key_next_state_after_reboot, val_next_state_after_reboot));
        proof {
            lemma_view_fields_snoc(pre_next_state_after_reboot, gkey_next_state_after_reboot, gval_next_state_after_reboot);
        }
        let ghost pre_next_state_after_reboot_flags = fields@;
        let key_next_state_after_reboot_flags = "next_state_after_reboot_flags".to_owned();
        let ghost gkey_next_state_after_reboot_flags = key_next_state_after_reboot_flags;
        let val_next_state_after_reboot_flags = Json::Arr(strs_to_json(&self.next_state_after_reboot_flags));
        let ghost gval_next_state_after_reboot_flags = val_next_state_after_reboot_flags;
        proof {
            assert(gval_next_state_after_reboot_flags.model() == JsonV::Arr(spec_encode_strs(self@.next_state_after_reboot_flags)));
        }
        fields.push((key_next_state_after_reboot_flags, val_next_state_after_reboot_flags));
        proof {
            lemma_view_fields_snoc(pre_next_state_after_reboot_flags, gkey_next_state_after_reboot_flags, gval_next_state_after_reboot_flags);
        }
        let ghost pre_address = fields@;
        let key_address = "address".to_owned();
        let ghost gkey_address = key_address;
        let val_address = match &self.address {
            Some(s) => Json::Str(s.clone()),
            None => Json::Null,
        };
        let ghost gval_address = val_address;
        proof {
            assert(gval_address.model() == spec_enc_opt_str(self@.address));
        }
        fields.push((key_address, val_address));
        proof {
            lemma_view_fields_snoc(pre_address, gkey_address, gval_address);
        }
        let ghost pre_hostname = fields@;
        let key_hostname = "hostname".to_owned();
        let ghost gkey_hostname = key_hostname;
        let val_hostname = match &self.hostname {
            Some(s) => Json::Str(s.clone()),
            None => Json::Null,
        };
        let ghost gval_hostname = val_hostname;
        proof {
            assert(gval_hostname.model() == spec_enc_opt_str(self@.hostname));
        }
        fields.push((key_hostname, val_hostname));
        proof {
            lemma_view_fields_snoc(pre_hostname, gkey_hostname, gval_hostname);
        }
        let ghost pre_state = fields@;
        let key_state = "state".to_owned();
        let ghost gkey_state = key_state;
        let val_state = match &self.state {
            Some(s) => Json::Str(s.clone()),
            None => Json::Null,
        };
        let ghost gval_state = val_state;
        proof {
            assert(gval_state.model() == spec_enc_opt_str(self@.state));
        }
        fields.push((key_state, val_state));
        proof {
            lemma_view_fields_snoc(pre_state, gkey_state, gval_state);
        }
        let ghost pre_state_flags = fields@;
        let key_state_flags = "state_flags".to_owned();
        let ghost gkey_state_flags = key_state_flags;
        let val_state_flags = Json::Arr(strs_to_json(&self.state_flags));
        let ghost gval_state_flags = val_state_flags;
        proof {
            assert(gval_state_flags.model() == JsonV::Arr(spec_encode_strs(self@.state_flags)));
        }
        fields.push((key_state_flags, val_state_flags));
        proof {
            lemma_view_fields_snoc(pre_state_flags, gkey_state_flags, gval_state_flags);
        }
        let ghost pre_operating_system = fields@;
        let key_operating_system = "operating_system".to_owned();
        let ghost gkey_operating_system = key_operating_system;
        let val_operating_system = match &self.operating_system {
            Some(s) => Json::Str(s.clone()),
            None => Json::Null,
        };
        let ghost gval_operating_system = val_operating_system;
        proof {
            assert(gval_operating_system.model() == spec_enc_opt_str(self@.operating_system));
        }
        fields.push((key_operating_system, val_operating_system));
        proof {
            lemma_view_fields_snoc(pre_operating_system, gkey_operating_system, gval_operating_system);
        }
        let ghost pre_owner = fields@;
        let key_owner = "owner".to_owned();
        let ghost gkey_owner = key_owner;
        let val_owner = match &self.owner {
            Some(s) => Json::Str(s.clone()),
            None => Json::Null,
        };
        let ghost gval_owner = val_owner;
        proof {
            assert(gval_owner.model() == spec_enc_opt_str(self@.owner));
        }
        fields.push((key_owner, val_owner));
        proof {
            lemma_view_fields_snoc(pre_owner, gkey_owner, gval_owner);
        }
        let ghost pre_partitions = fields@;
        let key_partitions = "partitions".to_owned();
        let ghost gkey_partitions = key_partitions;
        let val_partitions = Json::Arr(strs_to_json(&self.partitions));
        let ghost gval_partitions = val_partitions;
        proof {
            assert(gval_partitions.model() == JsonV::Arr(spec_encode_strs(self@.partitions)));
        }
        fields.push((key_partitions, val_partitions));
        proof {
            lemma_view_fields_snoc(pre_partitions, gkey_partitions, gval_partitions);
        }
        let ghost pre_port = fields@;
        let key_port = "port".to_owned();
        let ghost gkey_port = key_port;
        let val_port = match self.port {
            Some(i) => Json::Int(i),
            None => Json::Null,
        };
        let ghost gval_port = val_port;
        proof {
            assert(gval_port.model() == spec_enc_opt_i64(self@.port));
        }
        fields.push((key_port, val_port));
        proof {
            lemma_view_fields_snoc(pre_port, gkey_port, gval_port);
        }
        let ghost pre_real_memory = fields@;
        let key_real_memory = "real_memory".to_owned();
        let ghost gkey_real_memory = key_real_memory;
        let val_real_memory = match self.real_memory {
            Some(i) => Json::Int(i),
            None => Json::Null,
        };
        let ghost gval_real_memory = val_real_memory;
        proof {
            assert(gval_real_memory.model() == spec_enc_opt_i64(self@.real_memory));
        }
        fields.push((key_real_memory, val_real_memory));
        proof {
            lemma_view_fields_snoc(pre_real_memory, gkey_real_memory, gval_real_memory);
        }
        let ghost pre_reason = fields@;
        let key_reason = "reason".to_owned();
        let ghost gkey_reason = key_reason;
        let val_reason = match &self.reason {
            Some(s) => Json::Str(s.clone()),
            None => Json::Null,
        };
        let ghost gval_reason = val_reason;
        proof {
            assert(gval_reason.model() == spec_enc_opt_str(self@.reason));
        }
        fields.push((key_reason, val_reason));
        proof {
            lemma_view_fields_snoc(pre_reason, gkey_reason, gval_reason);
        }
        let ghost pre_reason_changed_at = fields@;
        let key_reason_changed_at = "reason_changed_at".to_owned();
        let ghost gkey_reason_changed_at = key_reason_changed_at;
        let val_reason_changed_at = match self.reason_changed_at {
            Some(i) => Json::Int(i),
            None => Json::Null,
        };
        let ghost gval_reason_changed_at = val_reason_changed_at;
        proof {
            assert(gval_reason_changed_at.model() == spec_enc_opt_i64(self@.reason_changed_at));
        }
        fields.push((key_reason_changed_at, val_reason_changed_at));
        proof {
            lemma_view_fields_snoc(pre_reason_changed_at, gkey_reason_changed_at, gval_reason_changed_at);
        }
        let ghost pre_reason_set_by_user = fields@;
        let key_reason_set_by_user = "reason_set_by_user".to_owned();
        let ghost gkey_reason_set_by_user = key_reason_set_by_user;
        let val_reason_set_by_user = match &self.reason_set_by_user {
            Some(s) => Json::Str(s.clone()),
            None => Json::Null,
        };
        let ghost gval_reason_set_by_user = val_reason_set_by_user;
        proof {
            assert(gval_reason_set_by_user.model() == spec_enc_opt_str(self@.reason_set_by_user));
        }
        fields.push((key_reason_set_by_user, val_reason_set_by_user));
        proof {
            lemma_view_fields_snoc(pre_reason_set_by_user, gkey_reason_set_by_user, gval_reason_set_by_user);
        }
        let ghost pre_slurmd_start_time = fields@;
        let key_slurmd_start_time = "slurmd_start_time".to_owned();
        let ghost gkey_slurmd_start_time = key_slurmd_start_time;
        let val_slurmd_start_time = match self.slurmd_start_time {
            Some(i) => Json::Int(i),
            None => Json::Null,
        };
        let ghost gval_slurmd_start_time = val_slurmd_start_time;
        proof {
            assert(gval_slurmd_start_time.model() == spec_enc_opt_i64(self@.slurmd_start_time));
        }
        fields.push((key_slurmd_start_time, val_slurmd_start_time));
        proof {
            lemma_view_fields_snoc(pre_slurmd_start_time, gkey_slurmd_start_time, gval_slurmd_start_time);
        }
        let ghost pre_sockets = fields@;
        let key_sockets = "sockets".to_owned();
        let ghost gkey_sockets = key_sockets;
        let val_sockets = match self.sockets {
            Some(i) => Json::Int(i),
            None => Json::Null,
        };
        let ghost gval_sockets = val_sockets;
        proof {
            assert(gval_sockets.model() == spec_enc_opt_i64(self@.sockets));
        }
        fields.push((key_sockets, val_sockets));
        proof {
            lemma_view_fields_snoc(pre_sockets, gkey_sockets, gval_sockets);
        }
        let ghost pre_threads = fields@;
        let key_threads = "threads".to_owned();
        let ghost gkey_threads = key_threads;
        let val_threads = match self.threads {
            Some(i) => Json::Int(i),
            None => Json::Null,
        };
        let ghost gval_threads = val_threads;
        proof {
            assert(gval_threads.model() == spec_enc_opt_i64(self@.threads));
        }
        fields.push((key_threads, val_threads));
        proof {
            lemma_view_fields_snoc(pre_threads, gkey_threads, gval_threads);
        }
        let ghost pre_temporary_disk = fields@;
        let key_temporary_disk = "temporary_disk".to_owned();
        let ghost gkey_temporary_disk = key_temporary_disk;
        let val_temporary_disk = match self.temporary_disk {
            Some(i) => Json::Int(i),
            None => Json::Null,
        };
        let ghost gval_temporary_disk = val_temporary_disk;
        proof {
            assert(gval_temporary_disk.model() == spec_enc_opt_i64(self@.temporary_disk));
        }
        fields.push((key_temporary_disk, val_temporary_disk));
        proof {
            lemma_view_fields_snoc(pre_temporary_disk, gkey_temporary_disk, gval_temporary_disk);
        }
        let ghost pre_weight = fields@;
        let key_weight = "weight".to_owned();
        let ghost gkey_weight = key_weight;
        let val_weight = match self.weight {
            Some(i) => Json::Int(i),
            None => Json::Null,
        };
        let ghost gval_weight = val_weight;
        proof {
            assert(gval_weight.model() == spec_enc_opt_i64(self@.weight));
        }
        fields.push((key_weight, val_weight));
        proof {
            lemma_view_fields_snoc(pre_weight, gkey_weight, gval_weight);
        }
        let ghost pre_tres = fields@;
        let key_tres = "tres".to_owned();
        let ghost gkey_tres = key_tres;
        let val_tres = match &self.tres {
            Some(s) => Json::Str(s.clone()),
            None => Json::Null,
        };
        let ghost gval_tres = val_tres;
        proof {
            assert(gval_tres.model() == spec_enc_opt_str(self@.tres));
        }
        fields.push((key_tres, val_tres));
        proof {
            lemma_view_fields_snoc(pre_tres, gkey_tres, gval_tres);
        }
        let ghost pre_tres_used = fields@;
        let key_tres_used = "tres_used".to_owned();
        let ghost gkey_tres_used = key_tres_used;
        let val_tres_used = match &self.tres_used {
            Some(s) => Json::Str(s.clone()),
            None => Json::Null,
        };
        let ghost gval_tres_used = val_tres_used;
        proof {
            assert(gval_tres_used.model() == spec_enc_opt_str(self@.tres_used));
        }
        fields.push((key_tres_used, val_tres_used));
        proof {
            lemma_view_fields_snoc(pre_tres_used, gkey_tres_used, gval_tres_used);
        }
        let ghost pre_slurmd_version = fields@;
        let key_slurmd_version = "slurmd_version".to_owned();
        let ghost gkey_slurmd_version = key_slurmd_version;
        let val_slurmd_version = match &self.slurmd_version {
            Some(s) => Json::Str(s.clone()),
            None => Json::Null,
        };
        let ghost gval_slurmd_version = val_slurmd_version;
        proof {
            assert(gval_slurmd_version.model() == spec_enc_opt_str(self@.slurmd_version));
        }
        fields.push((key_slurmd_version, val_slurmd_version));
        proof {
            lemma_view_fields_snoc(pre_slurmd_version, gkey_slurmd_version, gval_slurmd_version);
        }
        let ghost pre_alloc_cpus = fields@;
        let key_alloc_cpus = "alloc_cpus".to_owned();
        let ghost gkey_alloc_cpus = key_alloc_cpus;
        let val_alloc_cpus = match self.alloc_cpus {
            Some(i) => Json::Int(i),
            None => Json::Null,
        };
        let ghost gval_alloc_cpus = val_alloc_cpus;
        proof {
            assert(gval_alloc_cpus.model() == spec_enc_opt_i64(self@.alloc_cpus));
        }
        fields.push((key_alloc_cpus, val_alloc_cpus));
        proof {
            lemma_view_fields_snoc(pre_alloc_cpus, gkey_alloc_cpus, gval_alloc_cpus);
        }
        let ghost pre_idle_cpus = fields@;
        let key_idle_cpus = "idle_cpus".to_owned();
        let ghost gkey_idle_cpus = key_idle_cpus;
        let val_idle_cpus = match self.idle_cpus {
            Some(i) => Json::Int(i),
            None => Json::Null,
        };
        let ghost gval_idle_cpus = val_idle_cpus;
        proof {
            assert(gval_idle_cpus.model() == spec_enc_opt_i64(self@.idle_cpus));
        }
        fields.push((key_idle_cpus, val_idle_cpus));
        proof {
            lemma_view_fields_snoc(pre_idle_cpus, gkey_idle_cpus, gval_idle_cpus);
        }
        let ghost pre_alloc_memory = fields@;
        let key_alloc_memory = "alloc_memory".to_owned();
        let ghost gkey_alloc_memory = key_alloc_memory;
        let val_alloc_memory = match self.alloc_memory {
            Some(i) => Json::Int(i),
            None => Json::Null,
        };
        let ghost gval_alloc_memory = val_alloc_memory;
        proof {
            assert(gval_alloc_memory.model() == spec_enc_opt_i64(self@.alloc_memory));
        }
        fields.push((key_alloc_memory, val_alloc_memory));
        proof {
            lemma_view_fields_snoc(pre_alloc_memory, gkey_alloc_memory, gval_alloc_memory);
        }
        let r = Json::Obj(fields);
        proof {
            assert(r@ == spec_encode_node(self@));
        }
        r
    }
}

/// The JSON object that one record encodes to.
pub open spec fn spec_encode_node(v: NodeV) -> JsonV {
    JsonV::Obj(
        Seq::empty()
            .push(("architecture"@, spec_enc_opt_str(v.architecture)))
            .push(("burstbuffer_network_address"@, spec_enc_opt_str(v.burstbuffer_network_address)))
            .push(("boards"@, spec_enc_opt_i64(v.boards)))
            .push(("boot_time"@, spec_enc_opt_i64(v.boot_time)))
            .push(("cores"@, spec_enc_opt_i64(v.cores)))
            .push(("cpu_binding"@, spec_enc_opt_i64(v.cpu_binding)))
            .push(("cpu_load"@, spec_enc_opt_i64(v.cpu_load)))
            .push(("free_memory"@, spec_enc_opt_i64(v.free_memory)))
            .push(("cpus"@, spec_enc_opt_i64(v.cpus)))
            .push(("features"@, spec_enc_opt_str(v.features)))
            .push(("active_features"@, spec_enc_opt_str(v.active_features)))
            .push(("gres"@, spec_enc_opt_str(v.gres)))
            .push(("gres_drained"@, spec_enc_opt_str(v.gres_drained)))
            .push(("gres_used"@, spec_enc_opt_str(v.gres_used)))
            .push(("mcs_label"@, spec_enc_opt_str(v.mcs_label)))
            .push(("name"@, spec_enc_opt_str(v.name)))
            .push(("next_state_after_reboot"@, spec_enc_opt_str(v.next_state_after_reboot)))
            .push(("next_state_after_reboot_flags"@, JsonV::Arr(spec_encode_strs(v.next_state_after_reboot_flags))))
            .push(("address"@, spec_enc_opt_str(v.address)))
            .push(("hostname"@, spec_enc_opt_str(v.hostname)))
            .push(("state"@, spec_enc_opt_str(v.state)))
            .push(("state_flags"@, JsonV::Arr(spec_encode_strs(v.state_flags))))
            .push(("operating_system"@, spec_enc_opt_str(v.operating_system)))
            .push(("owner"@, spec_enc_opt_str(v.owner)))
            .push(("partitions"@, JsonV::Arr(spec_encode_strs(v.partitions))))
            .push(("port"@, spec_enc_opt_i64(v.port)))
            .push(("real_memory"@, spec_enc_opt_i64(v.real_memory)))
            .push(("reason"@, spec_enc_opt_str(v.reason)))
            .push(("reason_changed_at"@, spec_enc_opt_i64(v.reason_changed_at)))
            .push(("reason_set_by_user"@, spec_enc_opt_str(v.reason_set_by_user)))
            .push(("slurmd_start_time"@, spec_enc_opt_i64(v.slurmd_start_time)))
            .push(("sockets"@, spec_enc_opt_i64(v.sockets)))
            .push(("threads"@, spec_enc_opt_i64(v.threads)))
            .push(("temporary_disk"@, spec_enc_opt_i64(v.temporary_disk)))
            .push(("weight"@, spec_enc_opt_i64(v.weight)))
            .push(("tres"@, spec_enc_opt_str(v.tres)))
            .push(("tres_used"@, spec_enc_opt_str(v.tres_used)))
            .push(("slurmd_version"@, spec_enc_opt_str(v.slurmd_version)))
            .push(("alloc_cpus"@, spec_enc_opt_i64(v.alloc_cpus)))
            .push(("idle_cpus"@, spec_enc_opt_i64(v.idle_cpus)))
            .push(("alloc_memory"@, spec_enc_opt_i64(v.alloc_memory)))
    )
}

/// The value at each of a few keys of an encoded record.
#[verifier::rlimit(100)]
proof fn lemma_node_lookups_0(v: NodeV)
    ensures
        lookup_fields(spec_encode_node(v)->Obj_0, "architecture"@) == Some(spec_enc_opt_str(v.architecture)),
        lookup_fields(spec_encode_node(v)->Obj_0, "burstbuffer_network_address"@) == Some(spec_enc_opt_str(v.burstbuffer_network_address)),
        lookup_fields(spec_encode_node(v)->Obj_0, "boards"@) == Some(spec_enc_opt_i64(v.boards)),
        lookup_fields(spec_encode_node(v)->Obj_0, "boot_time"@) == Some(spec_enc_opt_i64(v.boot_time)),
        lookup_fields(spec_encode_node(v)->Obj_0, "cores"@) == Some(spec_enc_opt_i64(v.cores)),
{
    reveal_strlit("active_features");
    reveal_strlit("address");
    reveal_strlit("alloc_cpus");
    reveal_strlit("alloc_memory");
    reveal_strlit("architecture");
    reveal_strlit("boards");
    reveal_strlit("boot_time");
    reveal_strlit("burstbuffer_network_address");
    reveal_strlit("cores");
    reveal_strlit("cpu_binding");
    reveal_strlit("cpu_load");
    reveal_strlit("cpus");
    reveal_strlit("features");
    reveal_strlit("free_memory");
    reveal_strlit("gres");
    reveal_strlit("gres_drained");
    reveal_strlit("gres_used");
    reveal_strlit("hostname");
    reveal_strlit("idle_cpus");
    reveal_strlit("mcs_label");
    reveal_strlit("name");
    reveal_strlit("next_state_after_reboot");
    reveal_strlit("next_state_after_reboot_flags");
    reveal_strlit("operating_system");
    reveal_strlit("owner");
    reveal_strlit("partitions");
    reveal_strlit("port");
    reveal_strlit("real_memory");
    reveal_strlit("reason");
    reveal_strlit("reason_changed_at");
    reveal_strlit("reason_set_by_user");
    reveal_strlit("slurmd_start_time");
    reveal_strlit("slurmd_version");
    reveal_strlit("sockets");
    reveal_strlit("state");
    reveal_strlit("state_flags");
    reveal_strlit("temporary_disk");
    reveal_strlit("threads");
    reveal_strlit("tres");
    reveal_strlit("tres_used");
    reveal_strlit("weight");
    assert("active_features"@.len() == 15);
    assert("address"@.len() == 7);
    assert("alloc_cpus"@.len() == 10);
    assert("alloc_memory"@.len() == 12);
    assert("architecture"@.len() == 12);
    assert("boards"@.len() == 6);
    assert("boot_time"@.len() == 9);
    assert("burstbuffer_network_address"@.len() == 27);
    assert("cores"@.len() == 5);
    assert("cpu_binding"@.len() == 11);
    assert("cpu_load"@.len() == 8);
    assert("cpus"@.len() == 4);
    assert("features"@.len() == 8);
    assert("free_memory"@.len() == 11);
    assert("gres"@.len() == 4);
    assert("gres_drained"@.len() == 12);
    assert("gres_used"@.len() == 9);
    assert("hostname"@.len() == 8);
    assert("idle_cpus"@.len() == 9);
    assert("mcs_label"@.len() == 9);
    assert("name"@.len() == 4);
    assert("next_state_after_reboot"@.len() == 23);
    assert("next_state_after_reboot_flags"@.len() == 29);
    assert("operating_system"@.len() == 16);
    assert("owner"@.len() == 5);
    assert("partitions"@.len() == 10);
    assert("port"@.len() == 4);
    assert("real_memory"@.len() == 11);
    assert("reason"@.len() == 6);
    assert("reason_changed_at"@.len() == 17);
    assert("reason_set_by_user"@.len() == 18);
    assert("slurmd_start_time"@.len() == 17);
    assert("slurmd_version"@.len() == 14);
    assert("sockets"@.len() == 7);
    assert("state"@.len() == 5);
    assert("state_flags"@.len() == 11);
    assert("temporary_disk"@.len() == 14);
    assert("threads"@.len() == 7);
    assert("tres"@.len() == 4);
    assert("tres_used"@.len() == 9);
    assert("weight"@.len() == 6);
    assert("address"@[0] == 'a');
    assert("sockets"@[0] == 's');
    assert("address"@[0] == 'a');
    assert("threads"@[0] == 't');
    assert("alloc_cpus"@[0] == 'a');
    assert("partitions"@[0] == 'p');
    assert("alloc_memory"@[1] == 'l');
    assert("architecture"@[1] == 'r');
    assert("alloc_memory"@[0] == 'a');
    assert("gres_drained"@[0] == 'g');
    assert("architecture"@[0] == 'a');
    assert("gres_drained"@[0] == 'g');
    assert("boards"@[0] == 'b');
    assert("reason"@[0] == 'r');
    assert("boards"@[0] == 'b');
    assert("weight"@[0] == 'w');
    assert("boot_time"@[0] == 'b');
    assert("gres_used"@[0] == 'g');
    assert("boot_time"@[0] == 'b');
    assert("idle_cpus"@[0] == 'i');
    assert("boot_time"@[0] == 'b');
    assert("mcs_label"@[0] == 'm');
    assert("boot_time"@[0] == 'b');
    assert("tres_used"@[0] == 't');
    assert("cores"@[0] == 'c');
    assert("owner"@[0] == 'o');
    assert("cores"@[0] == 'c');
    assert("state"@[0] == 's');
    assert("cpu_binding"@[0] == 'c');
    assert("free_memory"@[0] == 'f');
    assert("cpu_binding"@[0] == 'c');
    assert("real_memory"@[0] == 'r');
    assert("cpu_binding"@[0] == 'c');
    assert("state_flags"@[0] == 's');
    assert("cpu_load"@[0] == 'c');
    assert("features"@[0] == 'f');
    assert("cpu_load"@[0] == 'c');
    assert("hostname"@[0] == 'h');
    assert("cpus"@[0] == 'c');
    assert("gres"@[0] == 'g');
    assert("cpus"@[0] == 'c');
    assert("name"@[0] == 'n');
    assert("cpus"@[0] == 'c');
    assert("port"@[0] == 'p');
    assert("cpus"@[0] == 'c');
    assert("tres"@[0] == 't');
    assert("features"@[0] == 'f');
    assert("hostname"@[0] == 'h');
    assert("free_memory"@[0] == 'f');
    assert("real_memory"@[0] == 'r');
    assert("free_memory"@[0] == 'f');
    assert("state_flags"@[0] == 's');
    assert("gres"@[0] == 'g');
    assert("name"@[0] == 'n');
    assert("gres"@[0] == 'g');
    assert("port"@[0] == 'p');
    assert("gres"@[0] == 'g');
    assert("tres"@[0] == 't');
    assert("gres_used"@[0] == 'g');
    assert("idle_cpus"@[0] == 'i');
    assert("gres_used"@[0] == 'g');
    assert("mcs_label"@[0] == 'm');
    assert("gres_used"@[0] == 'g');
    assert("tres_used"@[0] == 't');
    assert("idle_cpus"@[0] == 'i');
    assert("mcs_label"@[0] == 'm');
    assert("idle_cpus"@[0] == 'i');
    assert("tres_used"@[0] == 't');
    assert("mcs_label"@[0] == 'm');
    assert("tres_used"@[0] == 't');
    assert("name"@[0] == 'n');
    assert("port"@[0] == 'p');
    assert("name"@[0] == 'n');
    assert("tres"@[0] == 't');
    assert("owner"@[0] == 'o');
    assert("state"@[0] == 's');
    assert("port"@[0] == 'p');
    assert("tres"@[0] == 't');
    assert("real_memory"@[0] == 'r');
    assert("state_flags"@[0] == 's');
    assert("reason"@[0] == 'r');
    assert("weight"@[0] == 'w');
    assert("reason_changed_at"@[0] == 'r');
    assert("slurmd_start_time"@[0] == 's');
    assert("slurmd_version"@[0] == 's');
    assert("temporary_disk"@[0] == 't');
    assert("sockets"@[0] == 's');
    assert("threads"@[0] == 't');
    let fs0 = Seq::<(Seq<char>, JsonV)>::empty();
    lemma_lookup_fields_push_all(fs0, "architecture"@, spec_enc_opt_str(v.architecture));
    let fs1 = fs0.push(("architecture"@, spec_enc_opt_str(v.architecture)));
    lemma_lookup_fields_push_all(fs1, "burstbuffer_network_address"@, spec_enc_opt_str(v.burstbuffer_network_address));
    let fs2 = fs1.push(("burstbuffer_network_address"@, spec_enc_opt_str(v.burstbuffer_network_address)));
    lemma_lookup_fields_push_all(fs2, "boards"@, spec_enc_opt_i64(v.boards));
    let fs3 = fs2.push(("boards"@, spec_enc_opt_i64(v.boards)));
    lemma_lookup_fields_push_all(fs3, "boot_time"@, spec_enc_opt_i64(v.boot_time));
    let fs4 = fs3.push(("boot_time"@, spec_enc_opt_i64(v.boot_time)));
    lemma_lookup_fields_push_all(fs4, "cores"@, spec_enc_opt_i64(v.cores));
    let fs5 = fs4.push(("cores"@, spec_enc_opt_i64(v.cores)));
    lemma_lookup_fields_push_all(fs5, "cpu_binding"@, spec_enc_opt_i64(v.cpu_binding));
    let fs6 = fs5.push(("cpu_binding"@, spec_enc_opt_i64(v.cpu_binding)));
    lemma_lookup_fields_push_all(fs6, "cpu_load"@, spec_enc_opt_i64(v.cpu_load));
    let fs7 = fs6.push(("cpu_load"@, spec_enc_opt_i64(v.cpu_load)));
    lemma_lookup_fields_push_all(fs7, "free_memory"@, spec_enc_opt_i64(v.free_memory));
    let fs8 = fs7.push(("free_memory"@, spec_enc_opt_i64(v.free_memory)));
    lemma_lookup_fields_push_all(fs8, "cpus"@, spec_enc_opt_i64(v.cpus));
    let fs9 = fs8.push(("cpus"@, spec_enc_opt_i64(v.cpus)));
    lemma_lookup_fields_push_all(fs9, "features"@, spec_enc_opt_str(v.features));
    let fs10 = fs9.push(("features"@, spec_enc_opt_str(v.features)));
    lemma_lookup_fields_push_all(fs10, "active_features"@, spec_enc_opt_str(v.active_features));
    let fs11 = fs10.push(("active_features"@, spec_enc_opt_str(v.active_features)));
    lemma_lookup_fields_push_all(fs11, "gres"@, spec_enc_opt_str(v.gres));
    let fs12 = fs11.push(("gres"@, spec_enc_opt_str(v.gres)));
    lemma_lookup_fields_push_all(fs12, "gres_drained"@, spec_enc_opt_str(v.gres_drained));
    let fs13 = fs12.push(("gres_drained"@, spec_enc_opt_str(v.gres_drained)));
    lemma_lookup_fields_push_all(fs13, "gres_used"@, spec_enc_opt_str(v.gres_used));
    let fs14 = fs13.push(("gres_used"@, spec_enc_opt_str(v.gres_used)));
    lemma_lookup_fields_push_all(fs14, "mcs_label"@, spec_enc_opt_str(v.mcs_label));
    let fs15 = fs14.push(("mcs_label"@, spec_enc_opt_str(v.mcs_label)));
    lemma_lookup_fields_push_all(fs15, "name"@, spec_enc_opt_str(v.name));
    let fs16 = fs15.push(("name"@, spec_enc_opt_str(v.name)));
    lemma_lookup_fields_push_all(fs16, "next_state_after_reboot"@, spec_enc_opt_str(v.next_state_after_reboot));
    let fs17 = fs16.push(("next_state_after_reboot"@, spec_enc_opt_str(v.next_state_after_reboot)));
    lemma_lookup_fields_push_all(fs17, "next_state_after_reboot_flags"@, JsonV::Arr(spec_encode_strs(v.next_state_after_reboot_flags)));
    let fs18 = fs17.push(("next_state_after_reboot_flags"@, JsonV::Arr(spec_encode_strs(v.next_state_after_reboot_flags))));
    lemma_lookup_fields_push_all(fs18, "address"@, spec_enc_opt_str(v.address));
    let fs19 = fs18.push(("address"@, spec_enc_opt_str(v.address)));
    lemma_lookup_fields_push_all(fs19, "hostname"@, spec_enc_opt_str(v.hostname));
    let fs20 = fs19.push(("hostname"@, spec_enc_opt_str(v.hostname)));
    lemma_lookup_fields_push_all(fs20, "state"@, spec_enc_opt_str(v.state));
    let fs21 = fs20.push(("state"@, spec_enc_opt_str(v.state)));
    lemma_lookup_fields_push_all(fs21, "state_flags"@, JsonV::Arr(spec_encode_strs(v.state_flags)));
    let fs22 = fs21.push(("state_flags"@, JsonV::Arr(spec_encode_strs(v.state_flags))));
    lemma_lookup_fields_push_all(fs22, "operating_system"@, spec_enc_opt_str(v.operating_system));
    let fs23 = fs22.push(("operating_system"@, spec_enc_opt_str(v.operating_system)));
    lemma_lookup_fields_push_all(fs23, "owner"@, spec_enc_opt_str(v.owner));
    let fs24 = fs23.push(("owner"@, spec_enc_opt_str(v.owner)));
    lemma_lookup_fields_push_all(fs24, "partitions"@, JsonV::Arr(spec_encode_strs(v.partitions)));
    let fs25 = fs24.push(("partitions"@, JsonV::Arr(spec_encode_strs(v.partitions))));
    lemma_lookup_fields_push_all(fs25, "port"@, spec_enc_opt_i64(v.port));
    let fs26 = fs25.push(("port"@, spec_enc_opt_i64(v.port)));
    lemma_lookup_fields_push_all(fs26, "real_memory"@, spec_enc_opt_i64(v.real_memory));
    let fs27 = fs26.push(("real_memory"@, spec_enc_opt_i64(v.real_memory)));
    lemma_lookup_fields_push_all(fs27, "reason"@, spec_enc_opt_str(v.reason));
    let fs28 = fs27.push(("reason"@, spec_enc_opt_str(v.reason)));
    lemma_lookup_fields_push_all(fs28, "reason_changed_at"@, spec_enc_opt_i64(v.reason_changed_at));
    let fs29 = fs28.push(("reason_changed_at"@, spec_enc_opt_i64(v.reason_changed_at)));
    lemma_lookup_fields_push_all(fs29, "reason_set_by_user"@, spec_enc_opt_str(v.reason_set_by_user));
    let fs30 = fs29.push(("reason_set_by_user"@, spec_enc_opt_str(v.reason_set_by_user)));
    lemma_lookup_fields_push_all(fs30, "slurmd_start_time"@, spec_enc_opt_i64(v.slurmd_start_time));
    let fs31 = fs30.push(("slurmd_start_time"@, spec_enc_opt_i64(v.slurmd_start_time)));
    lemma_lookup_fields_push_all(fs31, "sockets"@, spec_enc_opt_i64(v.sockets));
    let fs32 = fs31.push(("sockets"@, spec_enc_opt_i64(v.sockets)));
    lemma_lookup_fields_push_all(fs32, "threads"@, spec_enc_opt_i64(v.threads));
    let fs33 = fs32.push(("threads"@, spec_enc_opt_i64(v.threads)));
    lemma_lookup_fields_push_all(fs33, "temporary_disk"@, spec_enc_opt_i64(v.temporary_disk));
    let fs34 = fs33.push(("temporary_disk"@, spec_enc_opt_i64(v.temporary_disk)));
    lemma_lookup_fields_push_all(fs34, "weight"@, spec_enc_opt_i64(v.weight));
    let fs35 = fs34.push(("weight"@, spec_enc_opt_i64(v.weight)));
    lemma_lookup_fields_push_all(fs35, "tres"@, spec_enc_opt_str(v.tres));
    let fs36 = fs35.push(("tres"@, spec_enc_opt_str(v.tres)));
    lemma_lookup_fields_push_all(fs36, "tres_used"@, spec_enc_opt_str(v.tres_used));
    let fs37 = fs36.push(("tres_used"@, spec_enc_opt_str(v.tres_used)));
    lemma_lookup_fields_push_all(fs37, "slurmd_version"@, spec_enc_opt_str(v.slurmd_version));
    let fs38 = fs37.push(("slurmd_version"@, spec_enc_opt_str(v.slurmd_version)));
    lemma_lookup_fields_push_all(fs38, "alloc_cpus"@, spec_enc_opt_i64(v.alloc_cpus));
    let fs39 = fs38.push(("alloc_cpus"@, spec_enc_opt_i64(v.alloc_cpus)));
    lemma_lookup_fields_push_all(fs39, "idle_cpus"@, spec_enc_opt_i64(v.idle_cpus));
    let fs40 = fs39.push(("idle_cpus"@, spec_enc_opt_i64(v.idle_cpus)));
    lemma_lookup_fields_push_all(fs40, "alloc_memory"@, spec_enc_opt_i64(v.alloc_memory));
    let fs41 = fs40.push(("alloc_memory"@, spec_enc_opt_i64(v.alloc_memory)));
    assert(spec_encode_node(v)->Obj_0 == fs41);
}

/// The value at each of a few keys of an encoded record.
#[verifier::rlimit(100)]
proof fn lemma_node_lookups_1(v: NodeV)
    ensures
        lookup_fields(spec_encode_node(v)->Obj_0, "cpu_binding"@) == Some(spec_enc_opt_i64(v.cpu_binding)),
        lookup_fields(spec_encode_node(v)->Obj_0, "cpu_load"@) == Some(spec_enc_opt_i64(v.cpu_load)),
        lookup_fields(spec_encode_node(v)->Obj_0, "free_memory"@) == Some(spec_enc_opt_i64(v.free_memory)),
        lookup_fields(spec_encode_node(v)->Obj_0, "cpus"@) == Some(spec_enc_opt_i64(v.cpus)),
        lookup_fields(spec_encode_node(v)->Obj_0, "features"@) == Some(spec_enc_opt_str(v.features)),
{
    reveal_strlit("active_features");
    reveal_strlit("address");
    reveal_strlit("alloc_cpus");
    reveal_strlit("alloc_memory");
    reveal_strlit("architecture");
    reveal_strlit("boards");
    reveal_strlit("boot_time");
    reveal_strlit("burstbuffer_network_address");
    reveal_strlit("cores");
    reveal_strlit("cpu_binding");
    reveal_strlit("cpu_load");
    reveal_strlit("cpus");
    reveal_strlit("features");
    reveal_strlit("free_memory");
    reveal_strlit("gres");
    reveal_strlit("gres_drained");
    reveal_strlit("gres_used");
    reveal_strlit("hostname");
    reveal_strlit("idle_cpus");
    reveal_strlit("mcs_label");
    reveal_strlit("name");
    reveal_strlit("next_state_after_reboot");
    reveal_strlit("next_state_after_reboot_flags");
    reveal_strlit("operating_system");
    reveal_strlit("owner");
    reveal_strlit("partitions");
    reveal_strlit("port");
    reveal_strlit("real_memory");
    reveal_strlit("reason");
    reveal_strlit("reason_changed_at");
    reveal_strlit("reason_set_by_user");
    reveal_strlit("slurmd_start_time");
    reveal_strlit("slurmd_version");
    reveal_strlit("sockets");
    reveal_strlit("state");
    reveal_strlit("state_flags");
    reveal_strlit("temporary_disk");
    reveal_strlit("threads");
    reveal_strlit("tres");
    reveal_strlit("tres_used");
    reveal_strlit("weight");
    assert("active_features"@.len() == 15);
    assert("address"@.len() == 7);
    assert("alloc_cpus"@.len() == 10);
    assert("alloc_memory"@.len() == 12);
    assert("architecture"@.len() == 12);
    assert("boards"@.len() == 6);
    assert("boot_time"@.len() == 9);
    assert("burstbuffer_network_address"@.len() == 27);
    assert("cores"@.len() == 5);
    assert("cpu_binding"@.len() == 11);
    assert("cpu_load"@.len() == 8);
    assert("cpus"@.len() == 4);
    assert("features"@.len() == 8);
    assert("free_memory"@.len() == 11);
    assert("gres"@.len() == 4);
    assert("gres_drained"@.len() == 12);
    assert("gres_used"@.len() == 9);
    assert("hostname"@.len() == 8);
    assert("idle_cpus"@.len() == 9);
    assert("mcs_label"@.len() == 9);
    assert("name"@.len() == 4);
    assert("next_state_after_reboot"@.len() == 23);
    assert("next_state_after_reboot_flags"@.len() == 29);
    assert("operating_system"@.len() == 16);
    assert("owner"@.len() == 5);
    assert("partitions"@.len() == 10);
    assert("port"@.len() == 4);
    assert("real_memory"@.len() == 11);
    assert("reason"@.len() == 6);
    assert("reason_changed_at"@.len() == 17);
    assert("reason_set_by_user"@.len() == 18);
    assert("slurmd_start_time"@.len() == 17);
    assert("slurmd_version"@.len() == 14);
    assert("sockets"@.len() == 7);
    assert("state"@.len() == 5);
    assert("state_flags"@.len() == 11);
    assert("temporary_disk"@.len() == 14);
    assert("threads"@.len() == 7);
    assert("tres"@.len() == 4);
    assert("tres_used"@.len() == 9);
    assert("weight"@.len() == 6);
    assert("address"@[0] == 'a');
    assert("sockets"@[0] == 's');
    assert("address"@[0] == 'a');
    assert("threads"@[0] == 't');
    assert("alloc_cpus"@[0] == 'a');
    assert("partitions"@[0] == 'p');
    assert("alloc_memory"@[1] == 'l');
    assert("architecture"@[1] == 'r');
    assert("alloc_memory"@[0] == 'a');
    assert("gres_drained"@[0] == 'g');
    assert("architecture"@[0] == 'a');
    assert("gres_drained"@[0] == 'g');
    assert("boards"@[0] == 'b');
    assert("reason"@[0] == 'r');
    assert("boards"@[0] == 'b');
    assert("weight"@[0] == 'w');
    assert("boot_time"@[0] == 'b');
    assert("gres_used"@[0] == 'g');
    assert("boot_time"@[0] == 'b');
    assert("idle_cpus"@[0] == 'i');
    assert("boot_time"@[0] == 'b');
    assert("mcs_label"@[0] == 'm');
    assert("boot_time"@[0] == 'b');
    assert("tres_used"@[0] == 't');
    assert("cores"@[0] == 'c');
    assert("owner"@[0] == 'o');
    assert("cores"@[0] == 'c');
    assert("state"@[0] == 's');
    assert("cpu_binding"@[0] == 'c');
    assert("free_memory"@[0] == 'f');
    assert("cpu_binding"@[0] == 'c');
    assert("real_memory"@[0] == 'r');
    assert("cpu_binding"@[0] == 'c');
    assert("state_flags"@[0] == 's');
    assert("cpu_load"@[0] == 'c');
    assert("features"@[0] == 'f');
    assert("cpu_load"@[0] == 'c');
    assert("hostname"@[0] == 'h');
    assert("cpus"@[0] == 'c');
    assert("gres"@[0] == 'g');
    assert("cpus"@[0] == 'c');
    assert("name"@[0] == 'n');
    assert("cpus"@[0] == 'c');
    assert("port"@[0] == 'p');
    assert("cpus"@[0] == 'c');
    assert("tres"@[0] == 't');
    assert("features"@[0] == 'f');
    assert("hostname"@[0] == 'h');
    assert("free_memory"@[0] == 'f');
    assert("real_memory"@[0] == 'r');
    assert("free_memory"@[0] == 'f');
    assert("state_flags"@[0] == 's');
    assert("gres"@[0] == 'g');
    assert("name"@[0] == 'n');
    assert("gres"@[0] == 'g');
    assert("port"@[0] == 'p');
    assert("gres"@[0] == 'g');
    assert("tres"@[0] == 't');
    assert("gres_used"@[0] == 'g');
    assert("idle_cpus"@[0] == 'i');
    assert("gres_used"@[0] == 'g');
    assert("mcs_label"@[0] == 'm');
    assert("gres_used"@[0] == 'g');
    assert("tres_used"@[0] == 't');
    assert("idle_cpus"@[0] == 'i');
    assert("mcs_label"@[0] == 'm');
    assert("idle_cpus"@[0] == 'i');
    assert("tres_used"@[0] == 't');
    assert("mcs_label"@[0] == 'm');
    assert("tres_used"@[0] == 't');
    assert("name"@[0] == 'n');
    assert("port"@[0] == 'p');
    assert("name"@[0] == 'n');
    assert("tres"@[0] == 't');
    assert("owner"@[0] == 'o');
    assert("state"@[0] == 's');
    assert("port"@[0] == 'p');
    assert("tres"@[0] == 't');
    assert("real_memory"@[0] == 'r');
    assert("state_flags"@[0] == 's');
    assert("reason"@[0] == 'r');
    assert("weight"@[0] == 'w');
    assert("reason_changed_at"@[0] == 'r');
    assert("slurmd_start_time"@[0] == 's');
    assert("slurmd_version"@[0] == 's');
    assert("temporary_disk"@[0] == 't');
    assert("sockets"@[0] == 's');
    assert("threads"@[0] == 't');
    let fs0 = Seq::<(Seq<char>, JsonV)>::empty();
    lemma_lookup_fields_push_all(fs0, "architecture"@, spec_enc_opt_str(v.architecture));
    let fs1 = fs0.push(("architecture"@, spec_enc_opt_str(v.architecture)));
    lemma_lookup_fields_push_all(fs1, "burstbuffer_network_address"@, spec_enc_opt_str(v.burstbuffer_network_address));
    let fs2 = fs1.push(("burstbuffer_network_address"@, spec_enc_opt_str(v.burstbuffer_network_address)));
    lemma_lookup_fields_push_all(fs2, "boards"@, spec_enc_opt_i64(v.boards));
    let fs3 = fs2.push(("boards"@, spec_enc_opt_i64(v.boards)));
    lemma_lookup_fields_push_all(fs3, "boot_time"@, spec_enc_opt_i64(v.boot_time));
    let fs4 = fs3.push(("boot_time"@, spec_enc_opt_i64(v.boot_time)));
    lemma_lookup_fields_push_all(fs4, "cores"@, spec_enc_opt_i64(v.cores));
    let fs5 = fs4.push(("cores"@, spec_enc_opt_i64(v.cores)));
    lemma_lookup_fields_push_all(fs5, "cpu_binding"@, spec_enc_opt_i64(v.cpu_binding));
    let fs6 = fs5.push(("cpu_binding"@, spec_enc_opt_i64(v.cpu_binding)));
    lemma_lookup_fields_push_all(fs6, "cpu_load"@, spec_enc_opt_i64(v.cpu_load));
    let fs7 = fs6.push(("cpu_load"@, spec_enc_opt_i64(v.cpu_load)));
    lemma_lookup_fields_push_all(fs7, "free_memory"@, spec_enc_opt_i64(v.free_memory));
    let fs8 = fs7.push(("free_memory"@, spec_enc_opt_i64(v.free_memory)));
    lemma_lookup_fields_push_all(fs8, "cpus"@, spec_enc_opt_i64(v.cpus));
    let fs9 = fs8.push(("cpus"@, spec_enc_opt_i64(v.cpus)));
    lemma_lookup_fields_push_all(fs9, "features"@, spec_enc_opt_str(v.features));
    let fs10 = fs9.push(("features"@, spec_enc_opt_str(v.features)));
    lemma_lookup_fields_push_all(fs10, "active_features"@, spec_enc_opt_str(v.active_features));
    let fs11 = fs10.push(("active_features"@, spec_enc_opt_str(v.active_features)));
    lemma_lookup_fields_push_all(fs11, "gres"@, spec_enc_opt_str(v.gres));
    let fs12 = fs11.push(("gres"@, spec_enc_opt_str(v.gres)));
    lemma_lookup_fields_push_all(fs12, "gres_drained"@, spec_enc_opt_str(v.gres_drained));
    let fs13 = fs12.push(("gres_drained"@, spec_enc_opt_str(v.gres_drained)));
    lemma_lookup_fields_push_all(fs13, "gres_used"@, spec_enc_opt_str(v.gres_used));
    let fs14 = fs13.push(("gres_used"@, spec_enc_opt_str(v.gres_used)));
    lemma_lookup_fields_push_all(fs14, "mcs_label"@, spec_enc_opt_str(v.mcs_label));
    let fs15 = fs14.push(("mcs_label"@, spec_enc_opt_str(v.mcs_label)));
    lemma_lookup_fields_push_all(fs15, "name"@, spec_enc_opt_str(v.name));
    let fs16 = fs15.push(("name"@, spec_enc_opt_str(v.name)));
    lemma_lookup_fields_push_all(fs16, "next_state_after_reboot"@, spec_enc_opt_str(v.next_state_after_reboot));
    let fs17 = fs16.push(("next_state_after_reboot"@, spec_enc_opt_str(v.next_state_after_reboot)));
    lemma_lookup_fields_push_all(fs17, "next_state_after_reboot_flags"@, JsonV::Arr(spec_encode_strs(v.next_state_after_reboot_flags)));
    let fs18 = fs17.push(("next_state_after_reboot_flags"@, JsonV::Arr(spec_encode_strs(v.next_state_after_reboot_flags))));
    lemma_lookup_fields_push_all(fs18, "address"@, spec_enc_opt_str(v.address));
    let fs19 = fs18.push(("address"@, spec_enc_opt_str(v.address)));
    lemma_lookup_fields_push_all(fs19, "hostname"@, spec_enc_opt_str(v.hostname));
    let fs20 = fs19.push(("hostname"@, spec_enc_opt_str(v.hostname)));
    lemma_lookup_fields_push_all(fs20, "state"@, spec_enc_opt_str(v.state));
    let fs21 = fs20.push(("state"@, spec_enc_opt_str(v.state)));
    lemma_lookup_fields_push_all(fs21, "state_flags"@, JsonV::Arr(spec_encode_strs(v.state_flags)));
    let fs22 = fs21.push(("state_flags"@, JsonV::Arr(spec_encode_strs(v.state_flags))));
    lemma_lookup_fields_push_all(fs22, "operating_system"@, spec_enc_opt_str(v.operating_system));
    let fs23 = fs22.push(("operating_system"@, spec_enc_opt_str(v.operating_system)));
    lemma_lookup_fields_push_all(fs23, "owner"@, spec_enc_opt_str(v.owner));
    let fs24 = fs23.push(("owner"@, spec_enc_opt_str(v.owner)));
    lemma_lookup_fields_push_all(fs24, "partitions"@, JsonV::Arr(spec_encode_strs(v.partitions)));
    let fs25 = fs24.push(("partitions"@, JsonV::Arr(spec_encode_strs(v.partitions))));
    lemma_lookup_fields_push_all(fs25, "port"@, spec_enc_opt_i64(v.port));
    let fs26 = fs25.push(("port"@, spec_enc_opt_i64(v.port)));
    lemma_lookup_fields_push_all(fs26, "real_memory"@, spec_enc_opt_i64(v.real_memory));
    let fs27 = fs26.push(("real_memory"@, spec_enc_opt_i64(v.real_memory)));
    lemma_lookup_fields_push_all(fs27, "reason"@, spec_enc_opt_str(v.reason));
    let fs28 = fs27.push(("reason"@, spec_enc_opt_str(v.reason)));
    lemma_lookup_fields_push_all(fs28, "reason_changed_at"@, spec_enc_opt_i64(v.reason_changed_at));
    let fs29 = fs28.push(("reason_changed_at"@, spec_enc_opt_i64(v.reason_changed_at)));
    lemma_lookup_fields_push_all(fs29, "reason_set_by_user"@, spec_enc_opt_str(v.reason_set_by_user));
    let fs30 = fs29.push(("reason_set_by_user"@, spec_enc_opt_str(v.reason_set_by_user)));
    lemma_lookup_fields_push_all(fs30, "slurmd_start_time"@, spec_enc_opt_i64(v.slurmd_start_time));
    let fs31 = fs30.push(("slurmd_start_time"@, spec_enc_opt_i64(v.slurmd_start_time)));
    lemma_lookup_fields_push_all(fs31, "sockets"@, spec_enc_opt_i64(v.sockets));
    let fs32 = fs31.push(("sockets"@, spec_enc_opt_i64(v.sockets)));
    lemma_lookup_fields_push_all(fs32, "threads"@, spec_enc_opt_i64(v.threads));
    let fs33 = fs32.push(("threads"@, spec_enc_opt_i64(v.threads)));
    lemma_lookup_fields_push_all(fs33, "temporary_disk"@, spec_enc_opt_i64(v.temporary_disk));
    let fs34 = fs33.push(("temporary_disk"@, spec_enc_opt_i64(v.temporary_disk)));
    lemma_lookup_fields_push_all(fs34, "weight"@, spec_enc_opt_i64(v.weight));
    let fs35 = fs34.push(("weight"@, spec_enc_opt_i64(v.weight)));
    lemma_lookup_fields_push_all(fs35, "tres"@, spec_enc_opt_str(v.tres));
    let fs36 = fs35.push(("tres"@, spec_enc_opt_str(v.tres)));
    lemma_lookup_fields_push_all(fs36, "tres_used"@, spec_enc_opt_str(v.tres_used));
    let fs37 = fs36.push(("tres_used"@, spec_enc_opt_str(v.tres_used)));
    lemma_lookup_fields_push_all(fs37, "slurmd_version"@, spec_enc_opt_str(v.slurmd_version));
    let fs38 = fs37.push(("slurmd_version"@, spec_enc_opt_str(v.slurmd_version)));
    lemma_lookup_fields_push_all(fs38, "alloc_cpus"@, spec_enc_opt_i64(v.alloc_cpus));
    let fs39 = fs38.push(("alloc_cpus"@, spec_enc_opt_i64(v.alloc_cpus)));
    lemma_lookup_fields_push_all(fs39, "idle_cpus"@, spec_enc_opt_i64(v.idle_cpus));
    let fs40 = fs39.push(("idle_cpus"@, spec_enc_opt_i64(v.idle_cpus)));
    lemma_lookup_fields_push_all(fs40, "alloc_memory"@, spec_enc_opt_i64(v.alloc_memory));
    let fs41 = fs40.push(("alloc_memory"@, spec_enc_opt_i64(v.alloc_memory)));
    assert(spec_encode_node(v)->Obj_0 == fs41);
}

/// The value at each of a few keys of an encoded record.
#[verifier::rlimit(100)]
proof fn lemma_node_lookups_2(v: NodeV)
    ensures
        lookup_fields(spec_encode_node(v)->Obj_0, "active_features"@) == Some(spec_enc_opt_str(v.active_features)),
        lookup_fields(spec_encode_node(v)->Obj_0, "gres"@) == Some(spec_enc_opt_str(v.gres)),
        lookup_fields(spec_encode_node(v)->Obj_0, "gres_drained"@) == Some(spec_enc_opt_str(v.gres_drained)),
        lookup_fields(spec_encode_node(v)->Obj_0, "gres_used"@) == Some(spec_enc_opt_str(v.gres_used)),
        lookup_fields(spec_encode_node(v)->Obj_0, "mcs_label"@) == Some(spec_enc_opt_str(v.mcs_label)),
{
    reveal_strlit("active_features");
    reveal_strlit("address");
    reveal_strlit("alloc_cpus");
    reveal_strlit("alloc_memory");
    reveal_strlit("architecture");
    reveal_strlit("boards");
    reveal_strlit("boot_time");
    reveal_strlit("burstbuffer_network_address");
    reveal_strlit("cores");
    reveal_strlit("cpu_binding");
    reveal_strlit("cpu_load");
    reveal_strlit("cpus");
    reveal_strlit("features");
    reveal_strlit("free_memory");
    reveal_strlit("gres");
    reveal_strlit("gres_drained");
    reveal_strlit("gres_used");
    reveal_strlit("hostname");
    reveal_strlit("idle_cpus");
    reveal_strlit("mcs_label");
    reveal_strlit("name");
    reveal_strlit("next_state_after_reboot");
    reveal_strlit("next_state_after_reboot_flags");
    reveal_strlit("operating_system");
    reveal_strlit("owner");
    reveal_strlit("partitions");
    reveal_strlit("port");
    reveal_strlit("real_memory");
    reveal_strlit("reason");
    reveal_strlit("reason_changed_at");
    reveal_strlit("reason_set_by_user");
    reveal_strlit("slurmd_start_time");
    reveal_strlit("slurmd_version");
    reveal_strlit("sockets");
    reveal_strlit("state");
    reveal_strlit("state_flags");
    reveal_strlit("temporary_disk");
    reveal_strlit("threads");
    reveal_strlit("tres");
    reveal_strlit("tres_used");
    reveal_strlit("weight");
    assert("active_features"@.len() == 15);
    assert("address"@.len() == 7);
    assert("alloc_cpus"@.len() == 10);
    assert("alloc_memory"@.len() == 12);
    assert("architecture"@.len() == 12);
    assert("boards"@.len() == 6);
    assert("boot_time"@.len() == 9);
    assert("burstbuffer_network_address"@.len() == 27);
    assert("cores"@.len() == 5);
    assert("cpu_binding"@.len() == 11);
    assert("cpu_load"@.len() == 8);
    assert("cpus"@.len() == 4);
    assert("features"@.len() == 8);
    assert("free_memory"@.len() == 11);
    assert("gres"@.len() == 4);
    assert("gres_drained"@.len() == 12);
    assert("gres_used"@.len() == 9);
    assert("hostname"@.len() == 8);
    assert("idle_cpus"@.len() == 9);
    assert("mcs_label"@.len() == 9);
    assert("name"@.len() == 4);
    assert("next_state_after_reboot"@.len() == 23);
    assert("next_state_after_reboot_flags"@.len() == 29);
    assert("operating_system"@.len() == 16);
    assert("owner"@.len() == 5);
    assert("partitions"@.len() == 10);
    assert("port"@.len() == 4);
    assert("real_memory"@.len() == 11);
    assert("reason"@.len() == 6);
    assert("reason_changed_at"@.len() == 17);
    assert("reason_set_by_user"@.len() == 18);
    assert("slurmd_start_time"@.len() == 17);
    assert("slurmd_version"@.len() == 14);
    assert("sockets"@.len() == 7);
    assert("state"@.len() == 5);
    assert("state_flags"@.len() == 11);
    assert("temporary_disk"@.len() == 14);
    assert("threads"@.len() == 7);
    assert("tres"@.len() == 4);
    assert("tres_used"@.len() == 9);
    assert("weight"@.len() == 6);
    assert("address"@[0] == 'a');
    assert("sockets"@[0] == 's');
    assert("address"@[0] == 'a');
    assert("threads"@[0] == 't');
    assert("alloc_cpus"@[0] == 'a');
    assert("partitions"@[0] == 'p');
    assert("alloc_memory"@[1] == 'l');
    assert("architecture"@[1] == 'r');
    assert("alloc_memory"@[0] == 'a');
    assert("gres_drained"@[0] == 'g');
    assert("architecture"@[0] == 'a');
    assert("gres_drained"@[0] == 'g');
    assert("boards"@[0] == 'b');
    assert("reason"@[0] == 'r');
    assert("boards"@[0] == 'b');
    assert("weight"@[0] == 'w');
    assert("boot_time"@[0] == 'b');
    assert("gres_used"@[0] == 'g');
    assert("boot_time"@[0] == 'b');
    assert("idle_cpus"@[0] == 'i');
    assert("boot_time"@[0] == 'b');
    assert("mcs_label"@[0] == 'm');
    assert("boot_time"@[0] == 'b');
    assert("tres_used"@[0] == 't');
    assert("cores"@[0] == 'c');
    assert("owner"@[0] == 'o');
    assert("cores"@[0] == 'c');
    assert("state"@[0] == 's');
    assert("cpu_binding"@[0] == 'c');
    assert("free_memory"@[0] == 'f');
    assert("cpu_binding"@[0] == 'c');
    assert("real_memory"@[0] == 'r');
    assert("cpu_binding"@[0] == 'c');
    assert("state_flags"@[0] == 's');
    assert("cpu_load"@[0] == 'c');
    assert("features"@[0] == 'f');
    assert("cpu_load"@[0] == 'c');
    assert("hostname"@[0] == 'h');
    assert("cpus"@[0] == 'c');
    assert("gres"@[0] == 'g');
    assert("cpus"@[0] == 'c');
    assert("name"@[0] == 'n');
    assert("cpus"@[0] == 'c');
    assert("port"@[0] == 'p');
    assert("cpus"@[0] == 'c');
    assert("tres"@[0] == 't');
    assert("features"@[0] == 'f');
    assert("hostname"@[0] == 'h');
    assert("free_memory"@[0] == 'f');
    assert("real_memory"@[0] == 'r');
    assert("free_memory"@[0] == 'f');
    assert("state_flags"@[0] == 's');
    assert("gres"@[0] == 'g');
    assert("name"@[0] == 'n');
    assert("gres"@[0] == 'g');
    assert("port"@[0] == 'p');
    assert("gres"@[0] == 'g');
    assert("tres"@[0] == 't');
    assert("gres_used"@[0] == 'g');
    assert("idle_cpus"@[0] == 'i');
    assert("gres_used"@[0] == 'g');
    assert("mcs_label"@[0] == 'm');
    assert("gres_used"@[0] == 'g');
    assert("tres_used"@[0] == 't');
    assert("idle_cpus"@[0] == 'i');
    assert("mcs_label"@[0] == 'm');
    assert("idle_cpus"@[0] == 'i');
    assert("tres_used"@[0] == 't');
    assert("mcs_label"@[0] == 'm');
    assert("tres_used"@[0] == 't');
    assert("name"@[0] == 'n');
    assert("port"@[0] == 'p');
    assert("name"@[0] == 'n');
    assert("tres"@[0] == 't');
    assert("owner"@[0] == 'o');
    assert("state"@[0] == 's');
    assert("port"@[0] == 'p');
    assert("tres"@[0] == 't');
    assert("real_memory"@[0] == 'r');
    assert("state_flags"@[0] == 's');
    assert("reason"@[0] == 'r');
    assert("weight"@[0] == 'w');
    assert("reason_changed_at"@[0] == 'r');
    assert("slurmd_start_time"@[0] == 's');
    assert("slurmd_version"@[0] == 's');
    assert("temporary_disk"@[0] == 't');
    assert("sockets"@[0] == 's');
    assert("threads"@[0] == 't');
    let fs0 = Seq::<(Seq<char>, JsonV)>::empty();
    lemma_lookup_fields_push_all(fs0, "architecture"@, spec_enc_opt_str(v.architecture));
    let fs1 = fs0.push(("architecture"@, spec_enc_opt_str(v.architecture)));
    lemma_lookup_fields_push_all(fs1, "burstbuffer_network_address"@, spec_enc_opt_str(v.burstbuffer_network_address));
    let fs2 = fs1.push(("burstbuffer_network_address"@, spec_enc_opt_str(v.burstbuffer_network_address)));
    lemma_lookup_fields_push_all(fs2, "boards"@, spec_enc_opt_i64(v.boards));
    let fs3 = fs2.push(("boards"@, spec_enc_opt_i64(v.boards)));
    lemma_lookup_fields_push_all(fs3, "boot_time"@, spec_enc_opt_i64(v.boot_time));
    let fs4 = fs3.push(("boot_time"@, spec_enc_opt_i64(v.boot_time)));
    lemma_lookup_fields_push_all(fs4, "cores"@, spec_enc_opt_i64(v.cores));
    let fs5 = fs4.push(("cores"@, spec_enc_opt_i64(v.cores)));
    lemma_lookup_fields_push_all(fs5, "cpu_binding"@, spec_enc_opt_i64(v.cpu_binding));
    let fs6 = fs5.push(("cpu_binding"@, spec_enc_opt_i64(v.cpu_binding)));
    lemma_lookup_fields_push_all(fs6, "cpu_load"@, spec_enc_opt_i64(v.cpu_load));
    let fs7 = fs6.push(("cpu_load"@, spec_enc_opt_i64(v.cpu_load)));
    lemma_lookup_fields_push_all(fs7, "free_memory"@, spec_enc_opt_i64(v.free_memory));
    let fs8 = fs7.push(("free_memory"@, spec_enc_opt_i64(v.free_memory)));
    lemma_lookup_fields_push_all(fs8, "cpus"@, spec_enc_opt_i64(v.cpus));
    let fs9 = fs8.push(("cpus"@, spec_enc_opt_i64(v.cpus)));
    lemma_lookup_fields_push_all(fs9, "features"@, spec_enc_opt_str(v.features));
    let fs10 = fs9.push(("features"@, spec_enc_opt_str(v.features)));
    lemma_lookup_fields_push_all(fs10, "active_features"@, spec_enc_opt_str(v.active_features));
    let fs11 = fs10.push(("active_features"@, spec_enc_opt_str(v.active_features)));
    lemma_lookup_fields_push_all(fs11, "gres"@, spec_enc_opt_str(v.gres));
    let fs12 = fs11.push(("gres"@, spec_enc_opt_str(v.gres)));
    lemma_lookup_fields_push_all(fs12, "gres_drained"@, spec_enc_opt_str(v.gres_drained));
    let fs13 = fs12.push(("gres_drained"@, spec_enc_opt_str(v.gres_drained)));
    lemma_lookup_fields_push_all(fs13, "gres_used"@, spec_enc_opt_str(v.gres_used));
    let fs14 = fs13.push(("gres_used"@, spec_enc_opt_str(v.gres_used)));
    lemma_lookup_fields_push_all(fs14, "mcs_label"@, spec_enc_opt_str(v.mcs_label));
    let fs15 = fs14.push(("mcs_label"@, spec_enc_opt_str(v.mcs_label)));
    lemma_lookup_fields_push_all(fs15, "name"@, spec_enc_opt_str(v.name));
    let fs16 = fs15.push(("name"@, spec_enc_opt_str(v.name)));
    lemma_lookup_fields_push_all(fs16, "next_state_after_reboot"@, spec_enc_opt_str(v.next_state_after_reboot));
    let fs17 = fs16.push(("next_state_after_reboot"@, spec_enc_opt_str(v.next_state_after_reboot)));
    lemma_lookup_fields_push_all(fs17, "next_state_after_reboot_flags"@, JsonV::Arr(spec_encode_strs(v.next_state_after_reboot_flags)));
    let fs18 = fs17.push(("next_state_after_reboot_flags"@, JsonV::Arr(spec_encode_strs(v.next_state_after_reboot_flags))));
    lemma_lookup_fields_push_all(fs18, "address"@, spec_enc_opt_str(v.address));
    let fs19 = fs18.push(("address"@, spec_enc_opt_str(v.address)));
    lemma_lookup_fields_push_all(fs19, "hostname"@, spec_enc_opt_str(v.hostname));
    let fs20 = fs19.push(("hostname"@, spec_enc_opt_str(v.hostname)));
    lemma_lookup_fields_push_all(fs20, "state"@, spec_enc_opt_str(v.state));
    let fs21 = fs20.push(("state"@, spec_enc_opt_str(v.state)));
    lemma_lookup_fields_push_all(fs21, "state_flags"@, JsonV::Arr(spec_encode_strs(v.state_flags)));
    let fs22 = fs21.push(("state_flags"@, JsonV::Arr(spec_encode_strs(v.state_flags))));
    lemma_lookup_fields_push_all(fs22, "operating_system"@, spec_enc_opt_str(v.operating_system));
    let fs23 = fs22.push(("operating_system"@, spec_enc_opt_str(v.operating_system)));
    lemma_lookup_fields_push_all(fs23, "owner"@, spec_enc_opt_str(v.owner));
    let fs24 = fs23.push(("owner"@, spec_enc_opt_str(v.owner)));
    lemma_lookup_fields_push_all(fs24, "partitions"@, JsonV::Arr(spec_encode_strs(v.partitions)));
    let fs25 = fs24.push(("partitions"@, JsonV::Arr(spec_encode_strs(v.partitions))));
    lemma_lookup_fields_push_all(fs25, "port"@, spec_enc_opt_i64(v.port));
    let fs26 = fs25.push(("port"@, spec_enc_opt_i64(v.port)));
    lemma_lookup_fields_push_all(fs26, "real_memory"@, spec_enc_opt_i64(v.real_memory));
    let fs27 = fs26.push(("real_memory"@, spec_enc_opt_i64(v.real_memory)));
    lemma_lookup_fields_push_all(fs27, "reason"@, spec_enc_opt_str(v.reason));
    let fs28 = fs27.push(("reason"@, spec_enc_opt_str(v.reason)));
    lemma_lookup_fields_push_all(fs28, "reason_changed_at"@, spec_enc_opt_i64(v.reason_changed_at));
    let fs29 = fs28.push(("reason_changed_at"@, spec_enc_opt_i64(v.reason_changed_at)));
    lemma_lookup_fields_push_all(fs29, "reason_set_by_user"@, spec_enc_opt_str(v.reason_set_by_user));
    let fs30 = fs29.push(("reason_set_by_user"@, spec_enc_opt_str(v.reason_set_by_user)));
    lemma_lookup_fields_push_all(fs30, "slurmd_start_time"@, spec_enc_opt_i64(v.slurmd_start_time));
    let fs31 = fs30.push(("slurmd_start_time"@, spec_enc_opt_i64(v.slurmd_start_time)));
    lemma_lookup_fields_push_all(fs31, "sockets"@, spec_enc_opt_i64(v.sockets));
    let fs32 = fs31.push(("sockets"@, spec_enc_opt_i64(v.sockets)));
    lemma_lookup_fields_push_all(fs32, "threads"@, spec_enc_opt_i64(v.threads));
    let fs33 = fs32.push(("threads"@, spec_enc_opt_i64(v.threads)));
    lemma_lookup_fields_push_all(fs33, "temporary_disk"@, spec_enc_opt_i64(v.temporary_disk));
    let fs34 = fs33.push(("temporary_disk"@, spec_enc_opt_i64(v.temporary_disk)));
    lemma_lookup_fields_push_all(fs34, "weight"@, spec_enc_opt_i64(v.weight));
    let fs35 = fs34.push(("weight"@, spec_enc_opt_i64(v.weight)));
    lemma_lookup_fields_push_all(fs35, "tres"@, spec_enc_opt_str(v.tres));
    let fs36 = fs35.push(("tres"@, spec_enc_opt_str(v.tres)));
    lemma_lookup_fields_push_all(fs36, "tres_used"@, spec_enc_opt_str(v.tres_used));
    let fs37 = fs36.push(("tres_used"@, spec_enc_opt_str(v.tres_used)));
    lemma_lookup_fields_push_all(fs37, "slurmd_version"@, spec_enc_opt_str(v.slurmd_version));
    let fs38 = fs37.push(("slurmd_version"@, spec_enc_opt_str(v.slurmd_version)));
    lemma_lookup_fields_push_all(fs38, "alloc_cpus"@, spec_enc_opt_i64(v.alloc_cpus));
    let fs39 = fs38.push(("alloc_cpus"@, spec_enc_opt_i64(v.alloc_cpus)));
    lemma_lookup_fields_push_all(fs39, "idle_cpus"@, spec_enc_opt_i64(v.idle_cpus));
    let fs40 = fs39.push(("idle_cpus"@, spec_enc_opt_i64(v.idle_cpus)));
    lemma_lookup_fields_push_all(fs40, "alloc_memory"@, spec_enc_opt_i64(v.alloc_memory));
    let fs41 = fs40.push(("alloc_memory"@, spec_enc_opt_i64(v.alloc_memory)));
    assert(spec_encode_node(v)->Obj_0 == fs41);
}

/// The value at each of a few keys of an encoded record.
#[verifier::rlimit(100)]
proof fn lemma_node_lookups_3(v: NodeV)
    ensures
        lookup_fields(spec_encode_node(v)->Obj_0, "name"@) == Some(spec_enc_opt_str(v.name)),
        lookup_fields(spec_encode_node(v)->Obj_0, "next_state_after_reboot"@) == Some(spec_enc_opt_str(v.next_state_after_reboot)),
        lookup_fields(spec_encode_node(v)->Obj_0, "next_state_after_reboot_flags"@) == Some(JsonV::Arr(spec_encode_strs(v.next_state_after_reboot_flags))),
        lookup_fields(spec_encode_node(v)->Obj_0, "address"@) == Some(spec_enc_opt_str(v.address)),
        lookup_fields(spec_encode_node(v)->Obj_0, "hostname"@) == Some(spec_enc_opt_str(v.hostname)),
{
    reveal_strlit("active_features");
    reveal_strlit("address");
    reveal_strlit("alloc_cpus");
    reveal_strlit("alloc_memory");
    reveal_strlit("architecture");
    reveal_strlit("boards");
    reveal_strlit("boot_time");
    reveal_strlit("burstbuffer_network_address");
    reveal_strlit("cores");
    reveal_strlit("cpu_binding");
    reveal_strlit("cpu_load");
    reveal_strlit("cpus");
    reveal_strlit("features");
    reveal_strlit("free_memory");
    reveal_strlit("gres");
    reveal_strlit("gres_drained");
    reveal_strlit("gres_used");
    reveal_strlit("hostname");
    reveal_strlit("idle_cpus");
    reveal_strlit("mcs_label");
    reveal_strlit("name");
    reveal_strlit("next_state_after_reboot");
    reveal_strlit("next_state_after_reboot_flags");
    reveal_strlit("operating_system");
    reveal_strlit("owner");
    reveal_strlit("partitions");
    reveal_strlit("port");
    reveal_strlit("real_memory");
    reveal_strlit("reason");
    reveal_strlit("reason_changed_at");
    reveal_strlit("reason_set_by_user");
    reveal_strlit("slurmd_start_time");
    reveal_strlit("slurmd_version");
    reveal_strlit("sockets");
    reveal_strlit("state");
    reveal_strlit("state_flags");
    reveal_strlit("temporary_disk");
    reveal_strlit("threads");
    reveal_strlit("tres");
    reveal_strlit("tres_used");
    reveal_strlit("weight");
    assert("active_features"@.len() == 15);
    assert("address"@.len() == 7);
    assert("alloc_cpus"@.len() == 10);
    assert("alloc_memory"@.len() == 12);
    assert("architecture"@.len() == 12);
    assert("boards"@.len() == 6);
    assert("boot_time"@.len() == 9);
    assert("burstbuffer_network_address"@.len() == 27);
    assert("cores"@.len() == 5);
    assert("cpu_binding"@.len() == 11);
    assert("cpu_load"@.len() == 8);
    assert("cpus"@.len() == 4);
    assert("features"@.len() == 8);
    assert("free_memory"@.len() == 11);
    assert("gres"@.len() == 4);
    assert("gres_drained"@.len() == 12);
    assert("gres_used"@.len() == 9);
    assert("hostname"@.len() == 8);
    assert("idle_cpus"@.len() == 9);
    assert("mcs_label"@.len() == 9);
    assert("name"@.len() == 4);
    assert("next_state_after_reboot"@.len() == 23);
    assert("next_state_after_reboot_flags"@.len() == 29);
    assert("operating_system"@.len() == 16);
    assert("owner"@.len() == 5);
    assert("partitions"@.len() == 10);
    assert("port"@.len() == 4);
    assert("real_memory"@.len() == 11);
    assert("reason"@.len() == 6);
    assert("reason_changed_at"@.len() == 17);
    assert("reason_set_by_user"@.len() == 18);
    assert("slurmd_start_time"@.len() == 17);
    assert("slurmd_version"@.len() == 14);
    assert("sockets"@.len() == 7);
    assert("state"@.len() == 5);
    assert("state_flags"@.len() == 11);
    assert("temporary_disk"@.len() == 14);
    assert("threads"@.len() == 7);
    assert("tres"@.len() == 4);
    assert("tres_used"@.len() == 9);
    assert("weight"@.len() == 6);
    assert("address"@[0] == 'a');
    assert("sockets"@[0] == 's');
    assert("address"@[0] == 'a');
    assert("threads"@[0] == 't');
    assert("alloc_cpus"@[0] == 'a');
    assert("partitions"@[0] == 'p');
    assert("alloc_memory"@[1] == 'l');
    assert("architecture"@[1] == 'r');
    assert("alloc_memory"@[0] == 'a');
    assert("gres_drained"@[0] == 'g');
    assert("architecture"@[0] == 'a');
    assert("gres_drained"@[0] == 'g');
    assert("boards"@[0] == 'b');
    assert("reason"@[0] == 'r');
    assert("boards"@[0] == 'b');
    assert("weight"@[0] == 'w');
    assert("boot_time"@[0] == 'b');
    assert("gres_used"@[0] == 'g');
    assert("boot_time"@[0] == 'b');
    assert("idle_cpus"@[0] == 'i');
    assert("boot_time"@[0] == 'b');
    assert("mcs_label"@[0] == 'm');
    assert("boot_time"@[0] == 'b');
    assert("tres_used"@[0] == 't');
    assert("cores"@[0] == 'c');
    assert("owner"@[0] == 'o');
    assert("cores"@[0] == 'c');
    assert("state"@[0] == 's');
    assert("cpu_binding"@[0] == 'c');
    assert("free_memory"@[0] == 'f');
    assert("cpu_binding"@[0] == 'c');
    assert("real_memory"@[0] == 'r');
    assert("cpu_binding"@[0] == 'c');
    assert("state_flags"@[0] == 's');
    assert("cpu_load"@[0] == 'c');
    assert("features"@[0] == 'f');
    assert("cpu_load"@[0] == 'c');
    assert("hostname"@[0] == 'h');
    assert("cpus"@[0] == 'c');
    assert("gres"@[0] == 'g');
    assert("cpus"@[0] == 'c');
    assert("name"@[0] == 'n');
    assert("cpus"@[0] == 'c');
    assert("port"@[0] == 'p');
    assert("cpus"@[0] == 'c');
    assert("tres"@[0] == 't');
    assert("features"@[0] == 'f');
    assert("hostname"@[0] == 'h');
    assert("free_memory"@[0] == 'f');
    assert("real_memory"@[0] == 'r');
    assert("free_memory"@[0] == 'f');
    assert("state_flags"@[0] == 's');
    assert("gres"@[0] == 'g');
    assert("name"@[0] == 'n');
    assert("gres"@[0] == 'g');
    assert("port"@[0] == 'p');
    assert("gres"@[0] == 'g');
    assert("tres"@[0] == 't');
    assert("gres_used"@[0] == 'g');
    assert("idle_cpus"@[0] == 'i');
    assert("gres_used"@[0] == 'g');
    assert("mcs_label"@[0] == 'm');
    assert("gres_used"@[0] == 'g');
    assert("tres_used"@[0] == 't');
    assert("idle_cpus"@[0] == 'i');
    assert("mcs_label"@[0] == 'm');
    assert("idle_cpus"@[0] == 'i');
    assert("tres_used"@[0] == 't');
    assert("mcs_label"@[0] == 'm');
    assert("tres_used"@[0] == 't');
    assert("name"@[0] == 'n');
    assert("port"@[0] == 'p');
    assert("name"@[0] == 'n');
    assert("tres"@[0] == 't');
    assert("owner"@[0] == 'o');
    assert("state"@[0] == 's');
    assert("port"@[0] == 'p');
    assert("tres"@[0] == 't');
    assert("real_memory"@[0] == 'r');
    assert("state_flags"@[0] == 's');
    assert("reason"@[0] == 'r');
    assert("weight"@[0] == 'w');
    assert("reason_changed_at"@[0] == 'r');
    assert("slurmd_start_time"@[0] == 's');
    assert("slurmd_version"@[0] == 's');
    assert("temporary_disk"@[0] == 't');
    assert("sockets"@[0] == 's');
    assert("threads"@[0] == 't');
    let fs0 = Seq::<(Seq<char>, JsonV)>::empty();
    lemma_lookup_fields_push_all(fs0, "architecture"@, spec_enc_opt_str(v.architecture));
    let fs1 = fs0.push(("architecture"@, spec_enc_opt_str(v.architecture)));
    lemma_lookup_fields_push_all(fs1, "burstbuffer_network_address"@, spec_enc_opt_str(v.burstbuffer_network_address));
    let fs2 = fs1.push(("burstbuffer_network_address"@, spec_enc_opt_str(v.burstbuffer_network_address)));
    lemma_lookup_fields_push_all(fs2, "boards"@, spec_enc_opt_i64(v.boards));
    let fs3 = fs2.push(("boards"@, spec_enc_opt_i64(v.boards)));
    lemma_lookup_fields_push_all(fs3, "boot_time"@, spec_enc_opt_i64(v.boot_time));
    let fs4 = fs3.push(("boot_time"@, spec_enc_opt_i64(v.boot_time)));
    lemma_lookup_fields_push_all(fs4, "cores"@, spec_enc_opt_i64(v.cores));
    let fs5 = fs4.push(("cores"@, spec_enc_opt_i64(v.cores)));
    lemma_lookup_fields_push_all(fs5, "cpu_binding"@, spec_enc_opt_i64(v.cpu_binding));
    let fs6 = fs5.push(("cpu_binding"@, spec_enc_opt_i64(v.cpu_binding)));
    lemma_lookup_fields_push_all(fs6, "cpu_load"@, spec_enc_opt_i64(v.cpu_load));
    let fs7 = fs6.push(("cpu_load"@, spec_enc_opt_i64(v.cpu_load)));
    lemma_lookup_fields_push_all(fs7, "free_memory"@, spec_enc_opt_i64(v.free_memory));
    let fs8 = fs7.push(("free_memory"@, spec_enc_opt_i64(v.free_memory)));
    lemma_lookup_fields_push_all(fs8, "cpus"@, spec_enc_opt_i64(v.cpus));
    let fs9 = fs8.push(("cpus"@, spec_enc_opt_i64(v.cpus)));
    lemma_lookup_fields_push_all(fs9, "features"@, spec_enc_opt_str(v.features));
    let fs10 = fs9.push(("features"@, spec_enc_opt_str(v.features)));
    lemma_lookup_fields_push_all(fs10, "active_features"@, spec_enc_opt_str(v.active_features));
    let fs11 = fs10.push(("active_features"@, spec_enc_opt_str(v.active_features)));
    lemma_lookup_fields_push_all(fs11, "gres"@, spec_enc_opt_str(v.gres));
    let fs12 = fs11.push(("gres"@, spec_enc_opt_str(v.gres)));
    lemma_lookup_fields_push_all(fs12, "gres_drained"@, spec_enc_opt_str(v.gres_drained));
    let fs13 = fs12.push(("gres_drained"@, spec_enc_opt_str(v.gres_drained)));
    lemma_lookup_fields_push_all(fs13, "gres_used"@, spec_enc_opt_str(v.gres_used));
    let fs14 = fs13.push(("gres_used"@, spec_enc_opt_str(v.gres_used)));
    lemma_lookup_fields_push_all(fs14, "mcs_label"@, spec_enc_opt_str(v.mcs_label));
    let fs15 = fs14.push(("mcs_label"@, spec_enc_opt_str(v.mcs_label)));
    lemma_lookup_fields_push_all(fs15, "name"@, spec_enc_opt_str(v.name));
    let fs16 = fs15.push(("name"@, spec_enc_opt_str(v.name)));
    lemma_lookup_fields_push_all(fs16, "next_state_after_reboot"@, spec_enc_opt_str(v.next_state_after_reboot));
    let fs17 = fs16.push(("next_state_after_reboot"@, spec_enc_opt_str(v.next_state_after_reboot)));
    lemma_lookup_fields_push_all(fs17, "next_state_after_reboot_flags"@, JsonV::Arr(spec_encode_strs(v.next_state_after_reboot_flags)));
    let fs18 = fs17.push(("next_state_after_reboot_flags"@, JsonV::Arr(spec_encode_strs(v.next_state_after_reboot_flags))));
    lemma_lookup_fields_push_all(fs18, "address"@, spec_enc_opt_str(v.address));
    let fs19 = fs18.push(("address"@, spec_enc_opt_str(v.address)));
    lemma_lookup_fields_push_all(fs19, "hostname"@, spec_enc_opt_str(v.hostname));
    let fs20 = fs19.push(("hostname"@, spec_enc_opt_str(v.hostname)));
    lemma_lookup_fields_push_all(fs20, "state"@, spec_enc_opt_str(v.state));
    let fs21 = fs20.push(("state"@, spec_enc_opt_str(v.state)));
    lemma_lookup_fields_push_all(fs21, "state_flags"@, JsonV::Arr(spec_encode_strs(v.state_flags)));
    let fs22 = fs21.push(("state_flags"@, JsonV::Arr(spec_encode_strs(v.state_flags))));
    lemma_lookup_fields_push_all(fs22, "operating_system"@, spec_enc_opt_str(v.operating_system));
    let fs23 = fs22.push(("operating_system"@, spec_enc_opt_str(v.operating_system)));
    lemma_lookup_fields_push_all(fs23, "owner"@, spec_enc_opt_str(v.owner));
    let fs24 = fs23.push(("owner"@, spec_enc_opt_str(v.owner)));
    lemma_lookup_fields_push_all(fs24, "partitions"@, JsonV::Arr(spec_encode_strs(v.partitions)));
    let fs25 = fs24.push(("partitions"@, JsonV::Arr(spec_encode_strs(v.partitions))));
    lemma_lookup_fields_push_all(fs25, "port"@, spec_enc_opt_i64(v.port));
    let fs26 = fs25.push(("port"@, spec_enc_opt_i64(v.port)));
    lemma_lookup_fields_push_all(fs26, "real_memory"@, spec_enc_opt_i64(v.real_memory));
    let fs27 = fs26.push(("real_memory"@, spec_enc_opt_i64(v.real_memory)));
    lemma_lookup_fields_push_all(fs27, "reason"@, spec_enc_opt_str(v.reason));
    let fs28 = fs27.push(("reason"@, spec_enc_opt_str(v.reason)));
    lemma_lookup_fields_push_all(fs28, "reason_changed_at"@, spec_enc_opt_i64(v.reason_changed_at));
    let fs29 = fs28.push(("reason_changed_at"@, spec_enc_opt_i64(v.reason_changed_at)));
    lemma_lookup_fields_push_all(fs29, "reason_set_by_user"@, spec_enc_opt_str(v.reason_set_by_user));
    let fs30 = fs29.push(("reason_set_by_user"@, spec_enc_opt_str(v.reason_set_by_user)));
    lemma_lookup_fields_push_all(fs30, "slurmd_start_time"@, spec_enc_opt_i64(v.slurmd_start_time));
    let fs31 = fs30.push(("slurmd_start_time"@, spec_enc_opt_i64(v.slurmd_start_time)));
    lemma_lookup_fields_push_all(fs31, "sockets"@, spec_enc_opt_i64(v.sockets));
    let fs32 = fs31.push(("sockets"@, spec_enc_opt_i64(v.sockets)));
    lemma_lookup_fields_push_all(fs32, "threads"@, spec_enc_opt_i64(v.threads));
    let fs33 = fs32.push(("threads"@, spec_enc_opt_i64(v.threads)));
    lemma_lookup_fields_push_all(fs33, "temporary_disk"@, spec_enc_opt_i64(v.temporary_disk));
    let fs34 = fs33.push(("temporary_disk"@, spec_enc_opt_i64(v.temporary_disk)));
    lemma_lookup_fields_push_all(fs34, "weight"@, spec_enc_opt_i64(v.weight));
    let fs35 = fs34.push(("weight"@, spec_enc_opt_i64(v.weight)));
    lemma_lookup_fields_push_all(fs35, "tres"@, spec_enc_opt_str(v.tres));
    let fs36 = fs35.push(("tres"@, spec_enc_opt_str(v.tres)));
    lemma_lookup_fields_push_all(fs36, "tres_used"@, spec_enc_opt_str(v.tres_used));
    let fs37 = fs36.push(("tres_used"@, spec_enc_opt_str(v.tres_used)));
    lemma_lookup_fields_push_all(fs37, "slurmd_version"@, spec_enc_opt_str(v.slurmd_version));
    let fs38 = fs37.push(("slurmd_version"@, spec_enc_opt_str(v.slurmd_version)));
    lemma_lookup_fields_push_all(fs38, "alloc_cpus"@, spec_enc_opt_i64(v.alloc_cpus));
    let fs39 = fs38.push(("alloc_cpus"@, spec_enc_opt_i64(v.alloc_cpus)));
    lemma_lookup_fields_push_all(fs39, "idle_cpus"@, spec_enc_opt_i64(v.idle_cpus));
    let fs40 = fs39.push(("idle_cpus"@, spec_enc_opt_i64(v.idle_cpus)));
    lemma_lookup_fields_push_all(fs40, "alloc_memory"@, spec_enc_opt_i64(v.alloc_memory));
    let fs41 = fs40.push(("alloc_memory"@, spec_enc_opt_i64(v.alloc_memory)));
    assert(spec_encode_node(v)->Obj_0 == fs41);
}

/// The value at each of a few keys of an encoded record.
#[verifier::rlimit(100)]
proof fn lemma_node_lookups_4(v: NodeV)
    ensures
        lookup_fields(spec_encode_node(v)->Obj_0, "state"@) == Some(spec_enc_opt_str(v.state)),
        lookup_fields(spec_encode_node(v)->Obj_0, "state_flags"@) == Some(JsonV::Arr(spec_encode_strs(v.state_flags))),
        lookup_fields(spec_encode_node(v)->Obj_0, "operating_system"@) == Some(spec_enc_opt_str(v.operating_system)),
        lookup_fields(spec_encode_node(v)->Obj_0, "owner"@) == Some(spec_enc_opt_str(v.owner)),
        lookup_fields(spec_encode_node(v)->Obj_0, "partitions"@) == Some(JsonV::Arr(spec_encode_strs(v.partitions))),
{
    reveal_strlit("active_features");
    reveal_strlit("address");
    reveal_strlit("alloc_cpus");
    reveal_strlit("alloc_memory");
    reveal_strlit("architecture");
    reveal_strlit("boards");
    reveal_strlit("boot_time");
    reveal_strlit("burstbuffer_network_address");
    reveal_strlit("cores");
    reveal_strlit("cpu_binding");
    reveal_strlit("cpu_load");
    reveal_strlit("cpus");
    reveal_strlit("features");
    reveal_strlit("free_memory");
    reveal_strlit("gres");
    reveal_strlit("gres_drained");
    reveal_strlit("gres_used");
    reveal_strlit("hostname");
    reveal_strlit("idle_cpus");
    reveal_strlit("mcs_label");
    reveal_strlit("name");
    reveal_strlit("next_state_after_reboot");
    reveal_strlit("next_state_after_reboot_flags");
    reveal_strlit("operating_system");
    reveal_strlit("owner");
    reveal_strlit("partitions");
    reveal_strlit("port");
    reveal_strlit("real_memory");
    reveal_strlit("reason");
    reveal_strlit("reason_changed_at");
    reveal_strlit("reason_set_by_user");
    reveal_strlit("slurmd_start_time");
    reveal_strlit("slurmd_version");
    reveal_strlit("sockets");
    reveal_strlit("state");
    reveal_strlit("state_flags");
    reveal_strlit("temporary_disk");
    reveal_strlit("threads");
    reveal_strlit("tres");
    reveal_strlit("tres_used");
    reveal_strlit("weight");
    assert("active_features"@.len() == 15);
    assert("address"@.len() == 7);
    assert("alloc_cpus"@.len() == 10);
    assert("alloc_memory"@.len() == 12);
    assert("architecture"@.len() == 12);
    assert("boards"@.len() == 6);
    assert("boot_time"@.len() == 9);
    assert("burstbuffer_network_address"@.len() == 27);
    assert("cores"@.len() == 5);
    assert("cpu_binding"@.len() == 11);
    assert("cpu_load"@.len() == 8);
    assert("cpus"@.len() == 4);
    assert("features"@.len() == 8);
    assert("free_memory"@.len() == 11);
    assert("gres"@.len() == 4);
    assert("gres_drained"@.len() == 12);
    assert("gres_used"@.len() == 9);
    assert("hostname"@.len() == 8);
    assert("idle_cpus"@.len() == 9);
    assert("mcs_label"@.len() == 9);
    assert("name"@.len() == 4);
    assert("next_state_after_reboot"@.len() == 23);
    assert("next_state_after_reboot_flags"@.len() == 29);
    assert("operating_system"@.len() == 16);
    assert("owner"@.len() == 5);
    assert("partitions"@.len() == 10);
    assert("port"@.len() == 4);
    assert("real_memory"@.len() == 11);
    assert("reason"@.len() == 6);
    assert("reason_changed_at"@.len() == 17);
    assert("reason_set_by_user"@.len() == 18);
    assert("slurmd_start_time"@.len() == 17);
    assert("slurmd_version"@.len() == 14);
    assert("sockets"@.len() == 7);
    assert("state"@.len() == 5);
    assert("state_flags"@.len() == 11);
    assert("temporary_disk"@.len() == 14);
    assert("threads"@.len() == 7);
    assert("tres"@.len() == 4);
    assert("tres_used"@.len() == 9);
    assert("weight"@.len() == 6);
    assert("address"@[0] == 'a');
    assert("sockets"@[0] == 's');
    assert("address"@[0] == 'a');
    assert("threads"@[0] == 't');
    assert("alloc_cpus"@[0] == 'a');
    assert("partitions"@[0] == 'p');
    assert("alloc_memory"@[1] == 'l');
    assert("architecture"@[1] == 'r');
    assert("alloc_memory"@[0] == 'a');
    assert("gres_drained"@[0] == 'g');
    assert("architecture"@[0] == 'a');
    assert("gres_drained"@[0] == 'g');
    assert("boards"@[0] == 'b');
    assert("reason"@[0] == 'r');
    assert("boards"@[0] == 'b');
    assert("weight"@[0] == 'w');
    assert("boot_time"@[0] == 'b');
    assert("gres_used"@[0] == 'g');
    assert("boot_time"@[0] == 'b');
    assert("idle_cpus"@[0] == 'i');
    assert("boot_time"@[0] == 'b');
    assert("mcs_label"@[0] == 'm');
    assert("boot_time"@[0] == 'b');
    assert("tres_used"@[0] == 't');
    assert("cores"@[0] == 'c');
    assert("owner"@[0] == 'o');
    assert("cores"@[0] == 'c');
    assert("state"@[0] == 's');
    assert("cpu_binding"@[0] == 'c');
    assert("free_memory"@[0] == 'f');
    assert("cpu_binding"@[0] == 'c');
    assert("real_memory"@[0] == 'r');
    assert("cpu_binding"@[0] == 'c');
    assert("state_flags"@[0] == 's');
    assert("cpu_load"@[0] == 'c');
    assert("features"@[0] == 'f');
    assert("cpu_load"@[0] == 'c');
    assert("hostname"@[0] == 'h');
    assert("cpus"@[0] == 'c');
    assert("gres"@[0] == 'g');
    assert("cpus"@[0] == 'c');
    assert("name"@[0] == 'n');
    assert("cpus"@[0] == 'c');
    assert("port"@[0] == 'p');
    assert("cpus"@[0] == 'c');
    assert("tres"@[0] == 't');
    assert("features"@[0] == 'f');
    assert("hostname"@[0] == 'h');
    assert("free_memory"@[0] == 'f');
    assert("real_memory"@[0] == 'r');
    assert("free_memory"@[0] == 'f');
    assert("state_flags"@[0] == 's');
    assert("gres"@[0] == 'g');
    assert("name"@[0] == 'n');
    assert("gres"@[0] == 'g');
    assert("port"@[0] == 'p');
    assert("gres"@[0] == 'g');
    assert("tres"@[0] == 't');
    assert("gres_used"@[0] == 'g');
    assert("idle_cpus"@[0] == 'i');
    assert("gres_used"@[0] == 'g');
    assert("mcs_label"@[0] == 'm');
    assert("gres_used"@[0] == 'g');
    assert("tres_used"@[0] == 't');
    assert("idle_cpus"@[0] == 'i');
    assert("mcs_label"@[0] == 'm');
    assert("idle_cpus"@[0] == 'i');
    assert("tres_used"@[0] == 't');
    assert("mcs_label"@[0] == 'm');
    assert("tres_used"@[0] == 't');
    assert("name"@[0] == 'n');
    assert("port"@[0] == 'p');
    assert("name"@[0] == 'n');
    assert("tres"@[0] == 't');
    assert("owner"@[0] == 'o');
    assert("state"@[0] == 's');
    assert("port"@[0] == 'p');
    assert("tres"@[0] == 't');
    assert("real_memory"@[0] == 'r');
    assert("state_flags"@[0] == 's');
    assert("reason"@[0] == 'r');
    assert("weight"@[0] == 'w');
    assert("reason_changed_at"@[0] == 'r');
    assert("slurmd_start_time"@[0] == 's');
    assert("slurmd_version"@[0] == 's');
    assert("temporary_disk"@[0] == 't');
    assert("sockets"@[0] == 's');
    assert("threads"@[0] == 't');
    let fs0 = Seq::<(Seq<char>, JsonV)>::empty();
    lemma_lookup_fields_push_all(fs0, "architecture"@, spec_enc_opt_str(v.architecture));
    let fs1 = fs0.push(("architecture"@, spec_enc_opt_str(v.architecture)));
    lemma_lookup_fields_push_all(fs1, "burstbuffer_network_address"@, spec_enc_opt_str(v.burstbuffer_network_address));
    let fs2 = fs1.push(("burstbuffer_network_address"@, spec_enc_opt_str(v.burstbuffer_network_address)));
    lemma_lookup_fields_push_all(fs2, "boards"@, spec_enc_opt_i64(v.boards));
    let fs3 = fs2.push(("boards"@, spec_enc_opt_i64(v.boards)));
    lemma_lookup_fields_push_all(fs3, "boot_time"@, spec_enc_opt_i64(v.boot_time));
    let fs4 = fs3.push(("boot_time"@, spec_enc_opt_i64(v.boot_time)));
    lemma_lookup_fields_push_all(fs4, "cores"@, spec_enc_opt_i64(v.cores));
    let fs5 = fs4.push(("cores"@, spec_enc_opt_i64(v.cores)));
    lemma_lookup_fields_push_all(fs5, "cpu_binding"@, spec_enc_opt_i64(v.cpu_binding));
    let fs6 = fs5.push(("cpu_binding"@, spec_enc_opt_i64(v.cpu_binding)));
    lemma_lookup_fields_push_all(fs6, "cpu_load"@, spec_enc_opt_i64(v.cpu_load));
    let fs7 = fs6.push(("cpu_load"@, spec_enc_opt_i64(v.cpu_load)));
    lemma_lookup_fields_push_all(fs7, "free_memory"@, spec_enc_opt_i64(v.free_memory));
    let fs8 = fs7.push(("free_memory"@, spec_enc_opt_i64(v.free_memory)));
    lemma_lookup_fields_push_all(fs8, "cpus"@, spec_enc_opt_i64(v.cpus));
    let fs9 = fs8.push(("cpus"@, spec_enc_opt_i64(v.cpus)));
    lemma_lookup_fields_push_all(fs9, "features"@, spec_enc_opt_str(v.features));
    let fs10 = fs9.push(("features"@, spec_enc_opt_str(v.features)));
    lemma_lookup_fields_push_all(fs10, "active_features"@, spec_enc_opt_str(v.active_features));
    let fs11 = fs10.push(("active_features"@, spec_enc_opt_str(v.active_features)));
    lemma_lookup_fields_push_all(fs11, "gres"@, spec_enc_opt_str(v.gres));
    let fs12 = fs11.push(("gres"@, spec_enc_opt_str(v.gres)));
    lemma_lookup_fields_push_all(fs12, "gres_drained"@, spec_enc_opt_str(v.gres_drained));
    let fs13 = fs12.push(("gres_drained"@, spec_enc_opt_str(v.gres_drained)));
    lemma_lookup_fields_push_all(fs13, "gres_used"@, spec_enc_opt_str(v.gres_used));
    let fs14 = fs13.push(("gres_used"@, spec_enc_opt_str(v.gres_used)));
    lemma_lookup_fields_push_all(fs14, "mcs_label"@, spec_enc_opt_str(v.mcs_label));
    let fs15 = fs14.push(("mcs_label"@, spec_enc_opt_str(v.mcs_label)));
    lemma_lookup_fields_push_all(fs15, "name"@, spec_enc_opt_str(v.name));
    let fs16 = fs15.push(("name"@, spec_enc_opt_str(v.name)));
    lemma_lookup_fields_push_all(fs16, "next_state_after_reboot"@, spec_enc_opt_str(v.next_state_after_reboot));
    let fs17 = fs16.push(("next_state_after_reboot"@, spec_enc_opt_str(v.next_state_after_reboot)));
    lemma_lookup_fields_push_all(fs17, "next_state_after_reboot_flags"@, JsonV::Arr(spec_encode_strs(v.next_state_after_reboot_flags)));
    let fs18 = fs17.push(("next_state_after_reboot_flags"@, JsonV::Arr(spec_encode_strs(v.next_state_after_reboot_flags))));
    lemma_lookup_fields_push_all(fs18, "address"@, spec_enc_opt_str(v.address));
    let fs19 = fs18.push(("address"@, spec_enc_opt_str(v.address)));
    lemma_lookup_fields_push_all(fs19, "hostname"@, spec_enc_opt_str(v.hostname));
    let fs20 = fs19.push(("hostname"@, spec_enc_opt_str(v.hostname)));
    lemma_lookup_fields_push_all(fs20, "state"@, spec_enc_opt_str(v.state));
    let fs21 = fs20.push(("state"@, spec_enc_opt_str(v.state)));
    lemma_lookup_fields_push_all(fs21, "state_flags"@, JsonV::Arr(spec_encode_strs(v.state_flags)));
    let fs22 = fs21.push(("state_flags"@, JsonV::Arr(spec_encode_strs(v.state_flags))));
    lemma_lookup_fields_push_all(fs22, "operating_system"@, spec_enc_opt_str(v.operating_system));
    let fs23 = fs22.push(("operating_system"@, spec_enc_opt_str(v.operating_system)));
    lemma_lookup_fields_push_all(fs23, "owner"@, spec_enc_opt_str(v.owner));
    let fs24 = fs23.push(("owner"@, spec_enc_opt_str(v.owner)));
    lemma_lookup_fields_push_all(fs24, "partitions"@, JsonV::Arr(spec_encode_strs(v.partitions)));
    let fs25 = fs24.push(("partitions"@, JsonV::Arr(spec_encode_strs(v.partitions))));
    lemma_lookup_fields_push_all(fs25, "port"@, spec_enc_opt_i64(v.port));
    let fs26 = fs25.push(("port"@, spec_enc_opt_i64(v.port)));
    lemma_lookup_fields_push_all(fs26, "real_memory"@, spec_enc_opt_i64(v.real_memory));
    let fs27 = fs26.push(("real_memory"@, spec_enc_opt_i64(v.real_memory)));
    lemma_lookup_fields_push_all(fs27, "reason"@, spec_enc_opt_str(v.reason));
    let fs28 = fs27.push(("reason"@, spec_enc_opt_str(v.reason)));
    lemma_lookup_fields_push_all(fs28, "reason_changed_at"@, spec_enc_opt_i64(v.reason_changed_at));
    let fs29 = fs28.push(("reason_changed_at"@, spec_enc_opt_i64(v.reason_changed_at)));
    lemma_lookup_fields_push_all(fs29, "reason_set_by_user"@, spec_enc_opt_str(v.reason_set_by_user));
    let fs30 = fs29.push(("reason_set_by_user"@, spec_enc_opt_str(v.reason_set_by_user)));
    lemma_lookup_fields_push_all(fs30, "slurmd_start_time"@, spec_enc_opt_i64(v.slurmd_start_time));
    let fs31 = fs30.push(("slurmd_start_time"@, spec_enc_opt_i64(v.slurmd_start_time)));
    lemma_lookup_fields_push_all(fs31, "sockets"@, spec_enc_opt_i64(v.sockets));
    let fs32 = fs31.push(("sockets"@, spec_enc_opt_i64(v.sockets)));
    lemma_lookup_fields_push_all(fs32, "threads"@, spec_enc_opt_i64(v.threads));
    let fs33 = fs32.push(("threads"@, spec_enc_opt_i64(v.threads)));
    lemma_lookup_fields_push_all(fs33, "temporary_disk"@, spec_enc_opt_i64(v.temporary_disk));
    let fs34 = fs33.push(("temporary_disk"@, spec_enc_opt_i64(v.temporary_disk)));
    lemma_lookup_fields_push_all(fs34, "weight"@, spec_enc_opt_i64(v.weight));
    let fs35 = fs34.push(("weight"@, spec_enc_opt_i64(v.weight)));
    lemma_lookup_fields_push_all(fs35, "tres"@, spec_enc_opt_str(v.tres));
    let fs36 = fs35.push(("tres"@, spec_enc_opt_str(v.tres)));
    lemma_lookup_fields_push_all(fs36, "tres_used"@, spec_enc_opt_str(v.tres_used));
    let fs37 = fs36.push(("tres_used"@, spec_enc_opt_str(v.tres_used)));
    lemma_lookup_fields_push_all(fs37, "slurmd_version"@, spec_enc_opt_str(v.slurmd_version));
    let fs38 = fs37.push(("slurmd_version"@, spec_enc_opt_str(v.slurmd_version)));
    lemma_lookup_fields_push_all(fs38, "alloc_cpus"@, spec_enc_opt_i64(v.alloc_cpus));
    let fs39 = fs38.push(("alloc_cpus"@, spec_enc_opt_i64(v.alloc_cpus)));
    lemma_lookup_fields_push_all(fs39, "idle_cpus"@, spec_enc_opt_i64(v.idle_cpus));
    let fs40 = fs39.push(("idle_cpus"@, spec_enc_opt_i64(v.idle_cpus)));
    lemma_lookup_fields_push_all(fs40, "alloc_memory"@, spec_enc_opt_i64(v.alloc_memory));
    let fs41 = fs40.push(("alloc_memory"@, spec_enc_opt_i64(v.alloc_memory)));
    assert(spec_encode_node(v)->Obj_0 == fs41);
}

/// The value at each of a few keys of an encoded record.
#[verifier::rlimit(100)]
proof fn lemma_node_lookups_5(v: NodeV)
    ensures
        lookup_fields(spec_encode_node(v)->Obj_0, "port"@) == Some(spec_enc_opt_i64(v.port)),
        lookup_fields(spec_encode_node(v)->Obj_0, "real_memory"@) == Some(spec_enc_opt_i64(v.real_memory)),
        lookup_fields(spec_encode_node(v)->Obj_0, "reason"@) == Some(spec_enc_opt_str(v.reason)),
        lookup_fields(spec_encode_node(v)->Obj_0, "reason_changed_at"@) == Some(spec_enc_opt_i64(v.reason_changed_at)),
        lookup_fields(spec_encode_node(v)->Obj_0, "reason_set_by_user"@) == Some(spec_enc_opt_str(v.reason_set_by_user)),
{
    reveal_strlit("active_features");
    reveal_strlit("address");
    reveal_strlit("alloc_cpus");
    reveal_strlit("alloc_memory");
    reveal_strlit("architecture");
    reveal_strlit("boards");
    reveal_strlit("boot_time");
    reveal_strlit("burstbuffer_network_address");
    reveal_strlit("cores");
    reveal_strlit("cpu_binding");
    reveal_strlit("cpu_load");
    reveal_strlit("cpus");
    reveal_strlit("features");
    reveal_strlit("free_memory");
    reveal_strlit("gres");
    reveal_strlit("gres_drained");
    reveal_strlit("gres_used");
    reveal_strlit("hostname");
    reveal_strlit("idle_cpus");
    reveal_strlit("mcs_label");
    reveal_strlit("name");
    reveal_strlit("next_state_after_reboot");
    reveal_strlit("next_state_after_reboot_flags");
    reveal_strlit("operating_system");
    reveal_strlit("owner");
    reveal_strlit("partitions");
    reveal_strlit("port");
    reveal_strlit("real_memory");
    reveal_strlit("reason");
    reveal_strlit("reason_changed_at");
    reveal_strlit("reason_set_by_user");
    reveal_strlit("slurmd_start_time");
    reveal_strlit("slurmd_version");
    reveal_strlit("sockets");
    reveal_strlit("state");
    reveal_strlit("state_flags");
    reveal_strlit("temporary_disk");
    reveal_strlit("threads");
    reveal_strlit("tres");
    reveal_strlit("tres_used");
    reveal_strlit("weight");
    assert("active_features"@.len() == 15);
    assert("address"@.len() == 7);
    assert("alloc_cpus"@.len() == 10);
    assert("alloc_memory"@.len() == 12);
    assert("architecture"@.len() == 12);
    assert("boards"@.len() == 6);
    assert("boot_time"@.len() == 9);
    assert("burstbuffer_network_address"@.len() == 27);
    assert("cores"@.len() == 5);
    assert("cpu_binding"@.len() == 11);
    assert("cpu_load"@.len() == 8);
    assert("cpus"@.len() == 4);
    assert("features"@.len() == 8);
    assert("free_memory"@.len() == 11);
    assert("gres"@.len() == 4);
    assert("gres_drained"@.len() == 12);
    assert("gres_used"@.len() == 9);
    assert("hostname"@.len() == 8);
    assert("idle_cpus"@.len() == 9);
    assert("mcs_label"@.len() == 9);
    assert("name"@.len() == 4);
    assert("next_state_after_reboot"@.len() == 23);
    assert("next_state_after_reboot_flags"@.len() == 29);
    assert("operating_system"@.len() == 16);
    assert("owner"@.len() == 5);
    assert("partitions"@.len() == 10);
    assert("port"@.len() == 4);
    assert("real_memory"@.len() == 11);
    assert("reason"@.len() == 6);
    assert("reason_changed_at"@.len() == 17);
    assert("reason_set_by_user"@.len() == 18);
    assert("slurmd_start_time"@.len() == 17);
    assert("slurmd_version"@.len() == 14);
    assert("sockets"@.len() == 7);
    assert("state"@.len() == 5);
    assert("state_flags"@.len() == 11);
    assert("temporary_disk"@.len() == 14);
    assert("threads"@.len() == 7);
    assert("tres"@.len() == 4);
    assert("tres_used"@.len() == 9);
    assert("weight"@.len() == 6);
    assert("address"@[0] == 'a');
    assert("sockets"@[0] == 's');
    assert("address"@[0] == 'a');
    assert("threads"@[0] == 't');
    assert("alloc_cpus"@[0] == 'a');
    assert("partitions"@[0] == 'p');
    assert("alloc_memory"@[1] == 'l');
    assert("architecture"@[1] == 'r');
    assert("alloc_memory"@[0] == 'a');
    assert("gres_drained"@[0] == 'g');
    assert("architecture"@[0] == 'a');
    assert("gres_drained"@[0] == 'g');
    assert("boards"@[0] == 'b');
    assert("reason"@[0] == 'r');
    assert("boards"@[0] == 'b');
    assert("weight"@[0] == 'w');
    assert("boot_time"@[0] == 'b');
    assert("gres_used"@[0] == 'g');
    assert("boot_time"@[0] == 'b');
    assert("idle_cpus"@[0] == 'i');
    assert("boot_time"@[0] == 'b');
    assert("mcs_label"@[0] == 'm');
    assert("boot_time"@[0] == 'b');
    assert("tres_used"@[0] == 't');
    assert("cores"@[0] == 'c');
    assert("owner"@[0] == 'o');
    assert("cores"@[0] == 'c');
    assert("state"@[0] == 's');
    assert("cpu_binding"@[0] == 'c');
    assert("free_memory"@[0] == 'f');
    assert("cpu_binding"@[0] == 'c');
    assert("real_memory"@[0] == 'r');
    assert("cpu_binding"@[0] == 'c');
    assert("state_flags"@[0] == 's');
    assert("cpu_load"@[0] == 'c');
    assert("features"@[0] == 'f');
    assert("cpu_load"@[0] == 'c');
    assert("hostname"@[0] == 'h');
    assert("cpus"@[0] == 'c');
    assert("gres"@[0] == 'g');
    assert("cpus"@[0] == 'c');
    assert("name"@[0] == 'n');
    assert("cpus"@[0] == 'c');
    assert("port"@[0] == 'p');
    assert("cpus"@[0] == 'c');
    assert("tres"@[0] == 't');
    assert("features"@[0] == 'f');
    assert("hostname"@[0] == 'h');
    assert("free_memory"@[0] == 'f');
    assert("real_memory"@[0] == 'r');
    assert("free_memory"@[0] == 'f');
    assert("state_flags"@[0] == 's');
    assert("gres"@[0] == 'g');
    assert("name"@[0] == 'n');
    assert("gres"@[0] == 'g');
    assert("port"@[0] == 'p');
    assert("gres"@[0] == 'g');
    assert("tres"@[0] == 't');
    assert("gres_used"@[0] == 'g');
    assert("idle_cpus"@[0] == 'i');
    assert("gres_used"@[0] == 'g');
    assert("mcs_label"@[0] == 'm');
    assert("gres_used"@[0] == 'g');
    assert("tres_used"@[0] == 't');
    assert("idle_cpus"@[0] == 'i');
    assert("mcs_label"@[0] == 'm');
    assert("idle_cpus"@[0] == 'i');
    assert("tres_used"@[0] == 't');
    assert("mcs_label"@[0] == 'm');
    assert("tres_used"@[0] == 't');
    assert("name"@[0] == 'n');
    assert("port"@[0] == 'p');
    assert("name"@[0] == 'n');
    assert("tres"@[0] == 't');
    assert("owner"@[0] == 'o');
    assert("state"@[0] == 's');
    assert("port"@[0] == 'p');
    assert("tres"@[0] == 't');
    assert("real_memory"@[0] == 'r');
    assert("state_flags"@[0] == 's');
    assert("reason"@[0] == 'r');
    assert("weight"@[0] == 'w');
    assert("reason_changed_at"@[0] == 'r');
    assert("slurmd_start_time"@[0] == 's');
    assert("slurmd_version"@[0] == 's');
    assert("temporary_disk"@[0] == 't');
    assert("sockets"@[0] == 's');
    assert("threads"@[0] == 't');
    let fs0 = Seq::<(Seq<char>, JsonV)>::empty();
    lemma_lookup_fields_push_all(fs0, "architecture"@, spec_enc_opt_str(v.architecture));
    let fs1 = fs0.push(("architecture"@, spec_enc_opt_str(v.architecture)));
    lemma_lookup_fields_push_all(fs1, "burstbuffer_network_address"@, spec_enc_opt_str(v.burstbuffer_network_address));
    let fs2 = fs1.push(("burstbuffer_network_address"@, spec_enc_opt_str(v.burstbuffer_network_address)));
    lemma_lookup_fields_push_all(fs2, "boards"@, spec_enc_opt_i64(v.boards));
    let fs3 = fs2.push(("boards"@, spec_enc_opt_i64(v.boards)));
    lemma_lookup_fields_push_all(fs3, "boot_time"@, spec_enc_opt_i64(v.boot_time));
    let fs4 = fs3.push(("boot_time"@, spec_enc_opt_i64(v.boot_time)));
    lemma_lookup_fields_push_all(fs4, "cores"@, spec_enc_opt_i64(v.cores));
    let fs5 = fs4.push(("cores"@, spec_enc_opt_i64(v.cores)));
    lemma_lookup_fields_push_all(fs5, "cpu_binding"@, spec_enc_opt_i64(v.cpu_binding));
    let fs6 = fs5.push(("cpu_binding"@, spec_enc_opt_i64(v.cpu_binding)));
    lemma_lookup_fields_push_all(fs6, "cpu_load"@, spec_enc_opt_i64(v.cpu_load));
    let fs7 = fs6.push(("cpu_load"@, spec_enc_opt_i64(v.cpu_load)));
    lemma_lookup_fields_push_all(fs7, "free_memory"@, spec_enc_opt_i64(v.free_memory));
    let fs8 = fs7.push(("free_memory"@, spec_enc_opt_i64(v.free_memory)));
    lemma_lookup_fields_push_all(fs8, "cpus"@, spec_enc_opt_i64(v.cpus));
    let fs9 = fs8.push(("cpus"@, spec_enc_opt_i64(v.cpus)));
    lemma_lookup_fields_push_all(fs9, "features"@, spec_enc_opt_str(v.features));
    let fs10 = fs9.push(("features"@, spec_enc_opt_str(v.features)));
    lemma_lookup_fields_push_all(fs10, "active_features"@, spec_enc_opt_str(v.active_features));
    let fs11 = fs10.push(("active_features"@, spec_enc_opt_str(v.active_features)));
    lemma_lookup_fields_push_all(fs11, "gres"@, spec_enc_opt_str(v.gres));
    let fs12 = fs11.push(("gres"@, spec_enc_opt_str(v.gres)));
    lemma_lookup_fields_push_all(fs12, "gres_drained"@, spec_enc_opt_str(v.gres_drained));
    let fs13 = fs12.push(("gres_drained"@, spec_enc_opt_str(v.gres_drained)));
    lemma_lookup_fields_push_all(fs13, "gres_used"@, spec_enc_opt_str(v.gres_used));
    let fs14 = fs13.push(("gres_used"@, spec_enc_opt_str(v.gres_used)));
    lemma_lookup_fields_push_all(fs14, "mcs_label"@, spec_enc_opt_str(v.mcs_label));
    let fs15 = fs14.push(("mcs_label"@, spec_enc_opt_str(v.mcs_label)));
    lemma_lookup_fields_push_all(fs15, "name"@, spec_enc_opt_str(v.name));
    let fs16 = fs15.push(("name"@, spec_enc_opt_str(v.name)));
    lemma_lookup_fields_push_all(fs16, "next_state_after_reboot"@, spec_enc_opt_str(v.next_state_after_reboot));
    let fs17 = fs16.push(("next_state_after_reboot"@, spec_enc_opt_str(v.next_state_after_reboot)));
    lemma_lookup_fields_push_all(fs17, "next_state_after_reboot_flags"@, JsonV::Arr(spec_encode_strs(v.next_state_after_reboot_flags)));
    let fs18 = fs17.push(("next_state_after_reboot_flags"@, JsonV::Arr(spec_encode_strs(v.next_state_after_reboot_flags))));
    lemma_lookup_fields_push_all(fs18, "address"@, spec_enc_opt_str(v.address));
    let fs19 = fs18.push(("address"@, spec_enc_opt_str(v.address)));
    lemma_lookup_fields_push_all(fs19, "hostname"@, spec_enc_opt_str(v.hostname));
    let fs20 = fs19.push(("hostname"@, spec_enc_opt_str(v.hostname)));
    lemma_lookup_fields_push_all(fs20, "state"@, spec_enc_opt_str(v.state));
    let fs21 = fs20.push(("state"@, spec_enc_opt_str(v.state)));
    lemma_lookup_fields_push_all(fs21, "state_flags"@, JsonV::Arr(spec_encode_strs(v.state_flags)));
    let fs22 = fs21.push(("state_flags"@, JsonV::Arr(spec_encode_strs(v.state_flags))));
    lemma_lookup_fields_push_all(fs22, "operating_system"@, spec_enc_opt_str(v.operating_system));
    let fs23 = fs22.push(("operating_system"@, spec_enc_opt_str(v.operating_system)));
    lemma_lookup_fields_push_all(fs23, "owner"@, spec_enc_opt_str(v.owner));
    let fs24 = fs23.push(("owner"@, spec_enc_opt_str(v.owner)));
    lemma_lookup_fields_push_all(fs24, "partitions"@, JsonV::Arr(spec_encode_strs(v.partitions)));
    let fs25 = fs24.push(("partitions"@, JsonV::Arr(spec_encode_strs(v.partitions))));
    lemma_lookup_fields_push_all(fs25, "port"@, spec_enc_opt_i64(v.port));
    let fs26 = fs25.push(("port"@, spec_enc_opt_i64(v.port)));
    lemma_lookup_fields_push_all(fs26, "real_memory"@, spec_enc_opt_i64(v.real_memory));
    let fs27 = fs26.push(("real_memory"@, spec_enc_opt_i64(v.real_memory)));
    lemma_lookup_fields_push_all(fs27, "reason"@, spec_enc_opt_str(v.reason));
    let fs28 = fs27.push(("reason"@, spec_enc_opt_str(v.reason)));
    lemma_lookup_fields_push_all(fs28, "reason_changed_at"@, spec_enc_opt_i64(v.reason_changed_at));
    let fs29 = fs28.push(("reason_changed_at"@, spec_enc_opt_i64(v.reason_changed_at)));
    lemma_lookup_fields_push_all(fs29, "reason_set_by_user"@, spec_enc_opt_str(v.reason_set_by_user));
    let fs30 = fs29.push(("reason_set_by_user"@, spec_enc_opt_str(v.reason_set_by_user)));
    lemma_lookup_fields_push_all(fs30, "slurmd_start_time"@, spec_enc_opt_i64(v.slurmd_start_time));
    let fs31 = fs30.push(("slurmd_start_time"@, spec_enc_opt_i64(v.slurmd_start_time)));
    lemma_lookup_fields_push_all(fs31, "sockets"@, spec_enc_opt_i64(v.sockets));
    let fs32 = fs31.push(("sockets"@, spec_enc_opt_i64(v.sockets)));
    lemma_lookup_fields_push_all(fs32, "threads"@, spec_enc_opt_i64(v.threads));
    let fs33 = fs32.push(("threads"@, spec_enc_opt_i64(v.threads)));
    lemma_lookup_fields_push_all(fs33, "temporary_disk"@, spec_enc_opt_i64(v.temporary_disk));
    let fs34 = fs33.push(("temporary_disk"@, spec_enc_opt_i64(v.temporary_disk)));
    lemma_lookup_fields_push_all(fs34, "weight"@, spec_enc_opt_i64(v.weight));
    let fs35 = fs34.push(("weight"@, spec_enc_opt_i64(v.weight)));
    lemma_lookup_fields_push_all(fs35, "tres"@, spec_enc_opt_str(v.tres));
    let fs36 = fs35.push(("tres"@, spec_enc_opt_str(v.tres)));
    lemma_lookup_fields_push_all(fs36, "tres_used"@, spec_enc_opt_str(v.tres_used));
    let fs37 = fs36.push(("tres_used"@, spec_enc_opt_str(v.tres_used)));
    lemma_lookup_fields_push_all(fs37, "slurmd_version"@, spec_enc_opt_str(v.slurmd_version));
    let fs38 = fs37.push(("slurmd_version"@, spec_enc_opt_str(v.slurmd_version)));
    lemma_lookup_fields_push_all(fs38, "alloc_cpus"@, spec_enc_opt_i64(v.alloc_cpus));
    let fs39 = fs38.push(("alloc_cpus"@, spec_enc_opt_i64(v.alloc_cpus)));
    lemma_lookup_fields_push_all(fs39, "idle_cpus"@, spec_enc_opt_i64(v.idle_cpus));
    let fs40 = fs39.push(("idle_cpus"@, spec_enc_opt_i64(v.idle_cpus)));
    lemma_lookup_fields_push_all(fs40, "alloc_memory"@, spec_enc_opt_i64(v.alloc_memory));
    let fs41 = fs40.push(("alloc_memory"@, spec_enc_opt_i64(v.alloc_memory)));
    assert(spec_encode_node(v)->Obj_0 == fs41);
}

/// The value at each of a few keys of an encoded record.
#[verifier::rlimit(100)]
proof fn lemma_node_lookups_6(v: NodeV)
    ensures
        lookup_fields(spec_encode_node(v)->Obj_0, "slurmd_start_time"@) == Some(spec_enc_opt_i64(v.slurmd_start_time)),
        lookup_fields(spec_encode_node(v)->Obj_0, "sockets"@) == Some(spec_enc_opt_i64(v.sockets)),
        lookup_fields(spec_encode_node(v)->Obj_0, "threads"@) == Some(spec_enc_opt_i64(v.threads)),
        lookup_fields(spec_encode_node(v)->Obj_0, "temporary_disk"@) == Some(spec_enc_opt_i64(v.temporary_disk)),
        lookup_fields(spec_encode_node(v)->Obj_0, "weight"@) == Some(spec_enc_opt_i64(v.weight)),
{
    reveal_strlit("active_features");
    reveal_strlit("address");
    reveal_strlit("alloc_cpus");
    reveal_strlit("alloc_memory");
    reveal_strlit("architecture");
    reveal_strlit("boards");
    reveal_strlit("boot_time");
    reveal_strlit("burstbuffer_network_address");
    reveal_strlit("cores");
    reveal_strlit("cpu_binding");
    reveal_strlit("cpu_load");
    reveal_strlit("cpus");
    reveal_strlit("features");
    reveal_strlit("free_memory");
    reveal_strlit("gres");
    reveal_strlit("gres_drained");
    reveal_strlit("gres_used");
    reveal_strlit("hostname");
    reveal_strlit("idle_cpus");
    reveal_strlit("mcs_label");
    reveal_strlit("name");
    reveal_strlit("next_state_after_reboot");
    reveal_strlit("next_state_after_reboot_flags");
    reveal_strlit("operating_system");
    reveal_strlit("owner");
    reveal_strlit("partitions");
    reveal_strlit("port");
    reveal_strlit("real_memory");
    reveal_strlit("reason");
    reveal_strlit("reason_changed_at");
    reveal_strlit("reason_set_by_user");
    reveal_strlit("slurmd_start_time");
    reveal_strlit("slurmd_version");
    reveal_strlit("sockets");
    reveal_strlit("state");
    reveal_strlit("state_flags");
    reveal_strlit("temporary_disk");
    reveal_strlit("threads");
    reveal_strlit("tres");
    reveal_strlit("tres_used");
    reveal_strlit("weight");
    assert("active_features"@.len() == 15);
    assert("address"@.len() == 7);
    assert("alloc_cpus"@.len() == 10);
    assert("alloc_memory"@.len() == 12);
    assert("architecture"@.len() == 12);
    assert("boards"@.len() == 6);
    assert("boot_time"@.len() == 9);
    assert("burstbuffer_network_address"@.len() == 27);
    assert("cores"@.len() == 5);
    assert("cpu_binding"@.len() == 11);
    assert("cpu_load"@.len() == 8);
    assert("cpus"@.len() == 4);
    assert("features"@.len() == 8);
    assert("free_memory"@.len() == 11);
    assert("gres"@.len() == 4);
    assert("gres_drained"@.len() == 12);
    assert("gres_used"@.len() == 9);
    assert("hostname"@.len() == 8);
    assert("idle_cpus"@.len() == 9);
    assert("mcs_label"@.len() == 9);
    assert("name"@.len() == 4);
    assert("next_state_after_reboot"@.len() == 23);
    assert("next_state_after_reboot_flags"@.len() == 29);
    assert("operating_system"@.len() == 16);
    assert("owner"@.len() == 5);
    assert("partitions"@.len() == 10);
    assert("port"@.len() == 4);
    assert("real_memory"@.len() == 11);
    assert("reason"@.len() == 6);
    assert("reason_changed_at"@.len() == 17);
    assert("reason_set_by_user"@.len() == 18);
    assert("slurmd_start_time"@.len() == 17);
    assert("slurmd_version"@.len() == 14);
    assert("sockets"@.len() == 7);
    assert("state"@.len() == 5);
    assert("state_flags"@.len() == 11);
    assert("temporary_disk"@.len() == 14);
    assert("threads"@.len() == 7);
    assert("tres"@.len() == 4);
    assert("tres_used"@.len() == 9);
    assert("weight"@.len() == 6);
    assert("address"@[0] == 'a');
    assert("sockets"@[0] == 's');
    assert("address"@[0] == 'a');
    assert("threads"@[0] == 't');
    assert("alloc_cpus"@[0] == 'a');
    assert("partitions"@[0] == 'p');
    assert("alloc_memory"@[1] == 'l');
    assert("architecture"@[1] == 'r');
    assert("alloc_memory"@[0] == 'a');
    assert("gres_drained"@[0] == 'g');
    assert("architecture"@[0] == 'a');
    assert("gres_drained"@[0] == 'g');
    assert("boards"@[0] == 'b');
    assert("reason"@[0] == 'r');
    assert("boards"@[0] == 'b');
    assert("weight"@[0] == 'w');
    assert("boot_time"@[0] == 'b');
    assert("gres_used"@[0] == 'g');
    assert("boot_time"@[0] == 'b');
    assert("idle_cpus"@[0] == 'i');
    assert("boot_time"@[0] == 'b');
    assert("mcs_label"@[0] == 'm');
    assert("boot_time"@[0] == 'b');
    assert("tres_used"@[0] == 't');
    assert("cores"@[0] == 'c');
    assert("owner"@[0] == 'o');
    assert("cores"@[0] == 'c');
    assert("state"@[0] == 's');
    assert("cpu_binding"@[0] == 'c');
    assert("free_memory"@[0] == 'f');
    assert("cpu_binding"@[0] == 'c');
    assert("real_memory"@[0] == 'r');
    assert("cpu_binding"@[0] == 'c');
    assert("state_flags"@[0] == 's');
    assert("cpu_load"@[0] == 'c');
    assert("features"@[0] == 'f');
    assert("cpu_load"@[0] == 'c');
    assert("hostname"@[0] == 'h');
    assert("cpus"@[0] == 'c');
    assert("gres"@[0] == 'g');
    assert("cpus"@[0] == 'c');
    assert("name"@[0] == 'n');
    assert("cpus"@[0] == 'c');
    assert("port"@[0] == 'p');
    assert("cpus"@[0] == 'c');
    assert("tres"@[0] == 't');
    assert("features"@[0] == 'f');
    assert("hostname"@[0] == 'h');
    assert("free_memory"@[0] == 'f');
    assert("real_memory"@[0] == 'r');
    assert("free_memory"@[0] == 'f');
    assert("state_flags"@[0] == 's');
    assert("gres"@[0] == 'g');
    assert("name"@[0] == 'n');
    assert("gres"@[0] == 'g');
    assert("port"@[0] == 'p');
    assert("gres"@[0] == 'g');
    assert("tres"@[0] == 't');
    assert("gres_used"@[0] == 'g');
    assert("idle_cpus"@[0] == 'i');
    assert("gres_used"@[0] == 'g');
    assert("mcs_label"@[0] == 'm');
    assert("gres_used"@[0] == 'g');
    assert("tres_used"@[0] == 't');
    assert("idle_cpus"@[0] == 'i');
    assert("mcs_label"@[0] == 'm');
    assert("idle_cpus"@[0] == 'i');
    assert("tres_used"@[0] == 't');
    assert("mcs_label"@[0] == 'm');
    assert("tres_used"@[0] == 't');
    assert("name"@[0] == 'n');
    assert("port"@[0] == 'p');
    assert("name"@[0] == 'n');
    assert("tres"@[0] == 't');
    assert("owner"@[0] == 'o');
    assert("state"@[0] == 's');
    assert("port"@[0] == 'p');
    assert("tres"@[0] == 't');
    assert("real_memory"@[0] == 'r');
    assert("state_flags"@[0] == 's');
    assert("reason"@[0] == 'r');
    assert("weight"@[0] == 'w');
    assert("reason_changed_at"@[0] == 'r');
    assert("slurmd_start_time"@[0] == 's');
    assert("slurmd_version"@[0] == 's');
    assert("temporary_disk"@[0] == 't');
    assert("sockets"@[0] == 's');
    assert("threads"@[0] == 't');
    let fs0 = Seq::<(Seq<char>, JsonV)>::empty();
    lemma_lookup_fields_push_all(fs0, "architecture"@, spec_enc_opt_str(v.architecture));
    let fs1 = fs0.push(("architecture"@, spec_enc_opt_str(v.architecture)));
    lemma_lookup_fields_push_all(fs1, "burstbuffer_network_address"@, spec_enc_opt_str(v.burstbuffer_network_address));
    let fs2 = fs1.push(("burstbuffer_network_address"@, spec_enc_opt_str(v.burstbuffer_network_address)));
    lemma_lookup_fields_push_all(fs2, "boards"@, spec_enc_opt_i64(v.boards));
    let fs3 = fs2.push(("boards"@, spec_enc_opt_i64(v.boards)));
    lemma_lookup_fields_push_all(fs3, "boot_time"@, spec_enc_opt_i64(v.boot_time));
    let fs4 = fs3.push(("boot_time"@, spec_enc_opt_i64(v.boot_time)));
    lemma_lookup_fields_push_all(fs4, "cores"@, spec_enc_opt_i64(v.cores));
    let fs5 = fs4.push(("cores"@, spec_enc_opt_i64(v.cores)));
    lemma_lookup_fields_push_all(fs5, "cpu_binding"@, spec_enc_opt_i64(v.cpu_binding));
    let fs6 = fs5.push(("cpu_binding"@, spec_enc_opt_i64(v.cpu_binding)));
    lemma_lookup_fields_push_all(fs6, "cpu_load"@, spec_enc_opt_i64(v.cpu_load));
    let fs7 = fs6.push(("cpu_load"@, spec_enc_opt_i64(v.cpu_load)));
    lemma_lookup_fields_push_all(fs7, "free_memory"@, spec_enc_opt_i64(v.free_memory));
    let fs8 = fs7.push(("free_memory"@, spec_enc_opt_i64(v.free_memory)));
    lemma_lookup_fields_push_all(fs8, "cpus"@, spec_enc_opt_i64(v.cpus));
    let fs9 = fs8.push(("cpus"@, spec_enc_opt_i64(v.cpus)));
    lemma_lookup_fields_push_all(fs9, "features"@, spec_enc_opt_str(v.features));
    let fs10 = fs9.push(("features"@, spec_enc_opt_str(v.features)));
    lemma_lookup_fields_push_all(fs10, "active_features"@, spec_enc_opt_str(v.active_features));
    let fs11 = fs10.push(("active_features"@, spec_enc_opt_str(v.active_features)));
    lemma_lookup_fields_push_all(fs11, "gres"@, spec_enc_opt_str(v.gres));
    let fs12 = fs11.push(("gres"@, spec_enc_opt_str(v.gres)));
    lemma_lookup_fields_push_all(fs12, "gres_drained"@, spec_enc_opt_str(v.gres_drained));
    let fs13 = fs12.push(("gres_drained"@, spec_enc_opt_str(v.gres_drained)));
    lemma_lookup_fields_push_all(fs13, "gres_used"@, spec_enc_opt_str(v.gres_used));
    let fs14 = fs13.push(("gres_used"@, spec_enc_opt_str(v.gres_used)));
    lemma_lookup_fields_push_all(fs14, "mcs_label"@, spec_enc_opt_str(v.mcs_label));
    let fs15 = fs14.push(("mcs_label"@, spec_enc_opt_str(v.mcs_label)));
    lemma_lookup_fields_push_all(fs15, "name"@, spec_enc_opt_str(v.name));
    let fs16 = fs15.push(("name"@, spec_enc_opt_str(v.name)));
    lemma_lookup_fields_push_all(fs16, "next_state_after_reboot"@, spec_enc_opt_str(v.next_state_after_reboot));
    let fs17 = fs16.push(("next_state_after_reboot"@, spec_enc_opt_str(v.next_state_after_reboot)));
    lemma_lookup_fields_push_all(fs17, "next_state_after_reboot_flags"@, JsonV::Arr(spec_encode_strs(v.next_state_after_reboot_flags)));
    let fs18 = fs17.push(("next_state_after_reboot_flags"@, JsonV::Arr(spec_encode_strs(v.next_state_after_reboot_flags))));
    lemma_lookup_fields_push_all(fs18, "address"@, spec_enc_opt_str(v.address));
    let fs19 = fs18.push(("address"@, spec_enc_opt_str(v.address)));
    lemma_lookup_fields_push_all(fs19, "hostname"@, spec_enc_opt_str(v.hostname));
    let fs20 = fs19.push(("hostname"@, spec_enc_opt_str(v.hostname)));
    lemma_lookup_fields_push_all(fs20, "state"@, spec_enc_opt_str(v.state));
    let fs21 = fs20.push(("state"@, spec_enc_opt_str(v.state)));
    lemma_lookup_fields_push_all(fs21, "state_flags"@, JsonV::Arr(spec_encode_strs(v.state_flags)));
    let fs22 = fs21.push(("state_flags"@, JsonV::Arr(spec_encode_strs(v.state_flags))));
    lemma_lookup_fields_push_all(fs22, "operating_system"@, spec_enc_opt_str(v.operating_system));
    let fs23 = fs22.push(("operating_system"@, spec_enc_opt_str(v.operating_system)));
    lemma_lookup_fields_push_all(fs23, "owner"@, spec_enc_opt_str(v.owner));
    let fs24 = fs23.push(("owner"@, spec_enc_opt_str(v.owner)));
    lemma_lookup_fields_push_all(fs24, "partitions"@, JsonV::Arr(spec_encode_strs(v.partitions)));
    let fs25 = fs24.push(("partitions"@, JsonV::Arr(spec_encode_strs(v.partitions))));
    lemma_lookup_fields_push_all(fs25, "port"@, spec_enc_opt_i64(v.port));
    let fs26 = fs25.push(("port"@, spec_enc_opt_i64(v.port)));
    lemma_lookup_fields_push_all(fs26, "real_memory"@, spec_enc_opt_i64(v.real_memory));
    let fs27 = fs26.push(("real_memory"@, spec_enc_opt_i64(v.real_memory)));
    lemma_lookup_fields_push_all(fs27, "reason"@, spec_enc_opt_str(v.reason));
    let fs28 = fs27.push(("reason"@, spec_enc_opt_str(v.reason)));
    lemma_lookup_fields_push_all(fs28, "reason_changed_at"@, spec_enc_opt_i64(v.reason_changed_at));
    let fs29 = fs28.push(("reason_changed_at"@, spec_enc_opt_i64(v.reason_changed_at)));
    lemma_lookup_fields_push_all(fs29, "reason_set_by_user"@, spec_enc_opt_str(v.reason_set_by_user));
    let fs30 = fs29.push(("reason_set_by_user"@, spec_enc_opt_str(v.reason_set_by_user)));
    lemma_lookup_fields_push_all(fs30, "slurmd_start_time"@, spec_enc_opt_i64(v.slurmd_start_time));
    let fs31 = fs30.push(("slurmd_start_time"@, spec_enc_opt_i64(v.slurmd_start_time)));
    lemma_lookup_fields_push_all(fs31, "sockets"@, spec_enc_opt_i64(v.sockets));
    let fs32 = fs31.push(("sockets"@, spec_enc_opt_i64(v.sockets)));
    lemma_lookup_fields_push_all(fs32, "threads"@, spec_enc_opt_i64(v.threads));
    let fs33 = fs32.push(("threads"@, spec_enc_opt_i64(v.threads)));
    lemma_lookup_fields_push_all(fs33, "temporary_disk"@, spec_enc_opt_i64(v.temporary_disk));
    let fs34 = fs33.push(("temporary_disk"@, spec_enc_opt_i64(v.temporary_disk)));
    lemma_lookup_fields_push_all(fs34, "weight"@, spec_enc_opt_i64(v.weight));
    let fs35 = fs34.push(("weight"@, spec_enc_opt_i64(v.weight)));
    lemma_lookup_fields_push_all(fs35, "tres"@, spec_enc_opt_str(v.tres));
    let fs36 = fs35.push(("tres"@, spec_enc_opt_str(v.tres)));
    lemma_lookup_fields_push_all(fs36, "tres_used"@, spec_enc_opt_str(v.tres_used));
    let fs37 = fs36.push(("tres_used"@, spec_enc_opt_str(v.tres_used)));
    lemma_lookup_fields_push_all(fs37, "slurmd_version"@, spec_enc_opt_str(v.slurmd_version));
    let fs38 = fs37.push(("slurmd_version"@, spec_enc_opt_str(v.slurmd_version)));
    lemma_lookup_fields_push_all(fs38, "alloc_cpus"@, spec_enc_opt_i64(v.alloc_cpus));
    let fs39 = fs38.push(("alloc_cpus"@, spec_enc_opt_i64(v.alloc_cpus)));
    lemma_lookup_fields_push_all(fs39, "idle_cpus"@, spec_enc_opt_i64(v.idle_cpus));
    let fs40 = fs39.push(("idle_cpus"@, spec_enc_opt_i64(v.idle_cpus)));
    lemma_lookup_fields_push_all(fs40, "alloc_memory"@, spec_enc_opt_i64(v.alloc_memory));
    let fs41 = fs40.push(("alloc_memory"@, spec_enc_opt_i64(v.alloc_memory)));
    assert(spec_encode_node(v)->Obj_0 == fs41);
}

/// The value at each of a few keys of an encoded record.
#[verifier::rlimit(100)]
proof fn lemma_node_lookups_7(v: NodeV)
    ensures
        lookup_fields(spec_encode_node(v)->Obj_0, "tres"@) == Some(spec_enc_opt_str(v.tres)),
        lookup_fields(spec_encode_node(v)->Obj_0, "tres_used"@) == Some(spec_enc_opt_str(v.tres_used)),
        lookup_fields(spec_encode_node(v)->Obj_0, "slurmd_version"@) == Some(spec_enc_opt_str(v.slurmd_version)),
        lookup_fields(spec_encode_node(v)->Obj_0, "alloc_cpus"@) == Some(spec_enc_opt_i64(v.alloc_cpus)),
        lookup_fields(spec_encode_node(v)->Obj_0, "idle_cpus"@) == Some(spec_enc_opt_i64(v.idle_cpus)),
{
    reveal_strlit("active_features");
    reveal_strlit("address");
    reveal_strlit("alloc_cpus");
    reveal_strlit("alloc_memory");
    reveal_strlit("architecture");
    reveal_strlit("boards");
    reveal_strlit("boot_time");
    reveal_strlit("burstbuffer_network_address");
    reveal_strlit("cores");
    reveal_strlit("cpu_binding");
    reveal_strlit("cpu_load");
    reveal_strlit("cpus");
    reveal_strlit("features");
    reveal_strlit("free_memory");
    reveal_strlit("gres");
    reveal_strlit("gres_drained");
    reveal_strlit("gres_used");
    reveal_strlit("hostname");
    reveal_strlit("idle_cpus");
    reveal_strlit("mcs_label");
    reveal_strlit("name");
    reveal_strlit("next_state_after_reboot");
    reveal_strlit("next_state_after_reboot_flags");
    reveal_strlit("operating_system");
    reveal_strlit("owner");
    reveal_strlit("partitions");
    reveal_strlit("port");
    reveal_strlit("real_memory");
    reveal_strlit("reason");
    reveal_strlit("reason_changed_at");
    reveal_strlit("reason_set_by_user");
    reveal_strlit("slurmd_start_time");
    reveal_strlit("slurmd_version");
    reveal_strlit("sockets");
    reveal_strlit("state");
    reveal_strlit("state_flags");
    reveal_strlit("temporary_disk");
    reveal_strlit("threads");
    reveal_strlit("tres");
    reveal_strlit("tres_used");
    reveal_strlit("weight");
    assert("active_features"@.len() == 15);
    assert("address"@.len() == 7);
    assert("alloc_cpus"@.len() == 10);
    assert("alloc_memory"@.len() == 12);
    assert("architecture"@.len() == 12);
    assert("boards"@.len() == 6);
    assert("boot_time"@.len() == 9);
    assert("burstbuffer_network_address"@.len() == 27);
    assert("cores"@.len() == 5);
    assert("cpu_binding"@.len() == 11);
    assert("cpu_load"@.len() == 8);
    assert("cpus"@.len() == 4);
    assert("features"@.len() == 8);
    assert("free_memory"@.len() == 11);
    assert("gres"@.len() == 4);
    assert("gres_drained"@.len() == 12);
    assert("gres_used"@.len() == 9);
    assert("hostname"@.len() == 8);
    assert("idle_cpus"@.len() == 9);
    assert("mcs_label"@.len() == 9);
    assert("name"@.len() == 4);
    assert("next_state_after_reboot"@.len() == 23);
    assert("next_state_after_reboot_flags"@.len() == 29);
    assert("operating_system"@.len() == 16);
    assert("owner"@.len() == 5);
    assert("partitions"@.len() == 10);
    assert("port"@.len() == 4);
    assert("real_memory"@.len() == 11);
    assert("reason"@.len() == 6);
    assert("reason_changed_at"@.len() == 17);
    assert("reason_set_by_user"@.len() == 18);
    assert("slurmd_start_time"@.len() == 17);
    assert("slurmd_version"@.len() == 14);
    assert("sockets"@.len() == 7);
    assert("state"@.len() == 5);
    assert("state_flags"@.len() == 11);
    assert("temporary_disk"@.len() == 14);
    assert("threads"@.len() == 7);
    assert("tres"@.len() == 4);
    assert("tres_used"@.len() == 9);
    assert("weight"@.len() == 6);
    assert("address"@[0] == 'a');
    assert("sockets"@[0] == 's');
    assert("address"@[0] == 'a');
    assert("threads"@[0] == 't');
    assert("alloc_cpus"@[0] == 'a');
    assert("partitions"@[0] == 'p');
    assert("alloc_memory"@[1] == 'l');
    assert("architecture"@[1] == 'r');
    assert("alloc_memory"@[0] == 'a');
    assert("gres_drained"@[0] == 'g');
    assert("architecture"@[0] == 'a');
    assert("gres_drained"@[0] == 'g');
    assert("boards"@[0] == 'b');
    assert("reason"@[0] == 'r');
    assert("boards"@[0] == 'b');
    assert("weight"@[0] == 'w');
    assert("boot_time"@[0] == 'b');
    assert("gres_used"@[0] == 'g');
    assert("boot_time"@[0] == 'b');
    assert("idle_cpus"@[0] == 'i');
    assert("boot_time"@[0] == 'b');
    assert("mcs_label"@[0] == 'm');
    assert("boot_time"@[0] == 'b');
    assert("tres_used"@[0] == 't');
    assert("cores"@[0] == 'c');
    assert("owner"@[0] == 'o');
    assert("cores"@[0] == 'c');
    assert("state"@[0] == 's');
    assert("cpu_binding"@[0] == 'c');
    assert("free_memory"@[0] == 'f');
    assert("cpu_binding"@[0] == 'c');
    assert("real_memory"@[0] == 'r');
    assert("cpu_binding"@[0] == 'c');
    assert("state_flags"@[0] == 's');
    assert("cpu_load"@[0] == 'c');
    assert("features"@[0] == 'f');
    assert("cpu_load"@[0] == 'c');
    assert("hostname"@[0] == 'h');
    assert("cpus"@[0] == 'c');
    assert("gres"@[0] == 'g');
    assert("cpus"@[0] == 'c');
    assert("name"@[0] == 'n');
    assert("cpus"@[0] == 'c');
    assert("port"@[0] == 'p');
    assert("cpus"@[0] == 'c');
    assert("tres"@[0] == 't');
    assert("features"@[0] == 'f');
    assert("hostname"@[0] == 'h');
    assert("free_memory"@[0] == 'f');
    assert("real_memory"@[0] == 'r');
    assert("free_memory"@[0] == 'f');
    assert("state_flags"@[0] == 's');
    assert("gres"@[0] == 'g');
    assert("name"@[0] == 'n');
    assert("gres"@[0] == 'g');
    assert("port"@[0] == 'p');
    assert("gres"@[0] == 'g');
    assert("tres"@[0] == 't');
    assert("gres_used"@[0] == 'g');
    assert("idle_cpus"@[0] == 'i');
    assert("gres_used"@[0] == 'g');
    assert("mcs_label"@[0] == 'm');
    assert("gres_used"@[0] == 'g');
    assert("tres_used"@[0] == 't');
    assert("idle_cpus"@[0] == 'i');
    assert("mcs_label"@[0] == 'm');
    assert("idle_cpus"@[0] == 'i');
    assert("tres_used"@[0] == 't');
    assert("mcs_label"@[0] == 'm');
    assert("tres_used"@[0] == 't');
    assert("name"@[0] == 'n');
    assert("port"@[0] == 'p');
    assert("name"@[0] == 'n');
    assert("tres"@[0] == 't');
    assert("owner"@[0] == 'o');
    assert("state"@[0] == 's');
    assert("port"@[0] == 'p');
    assert("tres"@[0] == 't');
    assert("real_memory"@[0] == 'r');
    assert("state_flags"@[0] == 's');
    assert("reason"@[0] == 'r');
    assert("weight"@[0] == 'w');
    assert("reason_changed_at"@[0] == 'r');
    assert("slurmd_start_time"@[0] == 's');
    assert("slurmd_version"@[0] == 's');
    assert("temporary_disk"@[0] == 't');
    assert("sockets"@[0] == 's');
    assert("threads"@[0] == 't');
    let fs0 = Seq::<(Seq<char>, JsonV)>::empty();
    lemma_lookup_fields_push_all(fs0, "architecture"@, spec_enc_opt_str(v.architecture));
    let fs1 = fs0.push(("architecture"@, spec_enc_opt_str(v.architecture)));
    lemma_lookup_fields_push_all(fs1, "burstbuffer_network_address"@, spec_enc_opt_str(v.burstbuffer_network_address));
    let fs2 = fs1.push(("burstbuffer_network_address"@, spec_enc_opt_str(v.burstbuffer_network_address)));
    lemma_lookup_fields_push_all(fs2, "boards"@, spec_enc_opt_i64(v.boards));
    let fs3 = fs2.push(("boards"@, spec_enc_opt_i64(v.boards)));
    lemma_lookup_fields_push_all(fs3, "boot_time"@, spec_enc_opt_i64(v.boot_time));
    let fs4 = fs3.push(("boot_time"@, spec_enc_opt_i64(v.boot_time)));
    lemma_lookup_fields_push_all(fs4, "cores"@, spec_enc_opt_i64(v.cores));
    let fs5 = fs4.push(("cores"@, spec_enc_opt_i64(v.cores)));
    lemma_lookup_fields_push_all(fs5, "cpu_binding"@, spec_enc_opt_i64(v.cpu_binding));
    let fs6 = fs5.push(("cpu_binding"@, spec_enc_opt_i64(v.cpu_binding)));
    lemma_lookup_fields_push_all(fs6, "cpu_load"@, spec_enc_opt_i64(v.cpu_load));
    let fs7 = fs6.push(("cpu_load"@, spec_enc_opt_i64(v.cpu_load)));
    lemma_lookup_fields_push_all(fs7, "free_memory"@, spec_enc_opt_i64(v.free_memory));
    let fs8 = fs7.push(("free_memory"@, spec_enc_opt_i64(v.free_memory)));
    lemma_lookup_fields_push_all(fs8, "cpus"@, spec_enc_opt_i64(v.cpus));
    let fs9 = fs8.push(("cpus"@, spec_enc_opt_i64(v.cpus)));
    lemma_lookup_fields_push_all(fs9, "features"@, spec_enc_opt_str(v.features));
    let fs10 = fs9.push(("features"@, spec_enc_opt_str(v.features)));
    lemma_lookup_fields_push_all(fs10, "active_features"@, spec_enc_opt_str(v.active_features));
    let fs11 = fs10.push(("active_features"@, spec_enc_opt_str(v.active_features)));
    lemma_lookup_fields_push_all(fs11, "gres"@, spec_enc_opt_str(v.gres));
    let fs12 = fs11.push(("gres"@, spec_enc_opt_str(v.gres)));
    lemma_lookup_fields_push_all(fs12, "gres_drained"@, spec_enc_opt_str(v.gres_drained));
    let fs13 = fs12.push(("gres_drained"@, spec_enc_opt_str(v.gres_drained)));
    lemma_lookup_fields_push_all(fs13, "gres_used"@, spec_enc_opt_str(v.gres_used));
    let fs14 = fs13.push(("gres_used"@, spec_enc_opt_str(v.gres_used)));
    lemma_lookup_fields_push_all(fs14, "mcs_label"@, spec_enc_opt_str(v.mcs_label));
    let fs15 = fs14.push(("mcs_label"@, spec_enc_opt_str(v.mcs_label)));
    lemma_lookup_fields_push_all(fs15, "name"@, spec_enc_opt_str(v.name));
    let fs16 = fs15.push(("name"@, spec_enc_opt_str(v.name)));
    lemma_lookup_fields_push_all(fs16, "next_state_after_reboot"@, spec_enc_opt_str(v.next_state_after_reboot));
    let fs17 = fs16.push(("next_state_after_reboot"@, spec_enc_opt_str(v.next_state_after_reboot)));
    lemma_lookup_fields_push_all(fs17, "next_state_after_reboot_flags"@, JsonV::Arr(spec_encode_strs(v.next_state_after_reboot_flags)));
    let fs18 = fs17.push(("next_state_after_reboot_flags"@, JsonV::Arr(spec_encode_strs(v.next_state_after_reboot_flags))));
    lemma_lookup_fields_push_all(fs18, "address"@, spec_enc_opt_str(v.address));
    let fs19 = fs18.push(("address"@, spec_enc_opt_str(v.address)));
    lemma_lookup_fields_push_all(fs19, "hostname"@, spec_enc_opt_str(v.hostname));
    let fs20 = fs19.push(("hostname"@, spec_enc_opt_str(v.hostname)));
    lemma_lookup_fields_push_all(fs20, "state"@, spec_enc_opt_str(v.state));
    let fs21 = fs20.push(("state"@, spec_enc_opt_str(v.state)));
    lemma_lookup_fields_push_all(fs21, "state_flags"@, JsonV::Arr(spec_encode_strs(v.state_flags)));
    let fs22 = fs21.push(("state_flags"@, JsonV::Arr(spec_encode_strs(v.state_flags))));
    lemma_lookup_fields_push_all(fs22, "operating_system"@, spec_enc_opt_str(v.operating_system));
    let fs23 = fs22.push(("operating_system"@, spec_enc_opt_str(v.operating_system)));
    lemma_lookup_fields_push_all(fs23, "owner"@, spec_enc_opt_str(v.owner));
    let fs24 = fs23.push(("owner"@, spec_enc_opt_str(v.owner)));
    lemma_lookup_fields_push_all(fs24, "partitions"@, JsonV::Arr(spec_encode_strs(v.partitions)));
    let fs25 = fs24.push(("partitions"@, JsonV::Arr(spec_encode_strs(v.partitions))));
    lemma_lookup_fields_push_all(fs25, "port"@, spec_enc_opt_i64(v.port));
    let fs26 = fs25.push(("port"@, spec_enc_opt_i64(v.port)));
    lemma_lookup_fields_push_all(fs26, "real_memory"@, spec_enc_opt_i64(v.real_memory));
    let fs27 = fs26.push(("real_memory"@, spec_enc_opt_i64(v.real_memory)));
    lemma_lookup_fields_push_all(fs27, "reason"@, spec_enc_opt_str(v.reason));
    let fs28 = fs27.push(("reason"@, spec_enc_opt_str(v.reason)));
    lemma_lookup_fields_push_all(fs28, "reason_changed_at"@, spec_enc_opt_i64(v.reason_changed_at));
    let fs29 = fs28.push(("reason_changed_at"@, spec_enc_opt_i64(v.reason_changed_at)));
    lemma_lookup_fields_push_all(fs29, "reason_set_by_user"@, spec_enc_opt_str(v.reason_set_by_user));
    let fs30 = fs29.push(("reason_set_by_user"@, spec_enc_opt_str(v.reason_set_by_user)));
    lemma_lookup_fields_push_all(fs30, "slurmd_start_time"@, spec_enc_opt_i64(v.slurmd_start_time));
    let fs31 = fs30.push(("slurmd_start_time"@, spec_enc_opt_i64(v.slurmd_start_time)));
    lemma_lookup_fields_push_all(fs31, "sockets"@, spec_enc_opt_i64(v.sockets));
    let fs32 = fs31.push(("sockets"@, spec_enc_opt_i64(v.sockets)));
    lemma_lookup_fields_push_all(fs32, "threads"@, spec_enc_opt_i64(v.threads));
    let fs33 = fs32.push(("threads"@, spec_enc_opt_i64(v.threads)));
    lemma_lookup_fields_push_all(fs33, "temporary_disk"@, spec_enc_opt_i64(v.temporary_disk));
    let fs34 = fs33.push(("temporary_disk"@, spec_enc_opt_i64(v.temporary_disk)));
    lemma_lookup_fields_push_all(fs34, "weight"@, spec_enc_opt_i64(v.weight));
    let fs35 = fs34.push(("weight"@, spec_enc_opt_i64(v.weight)));
    lemma_lookup_fields_push_all(fs35, "tres"@, spec_enc_opt_str(v.tres));
    let fs36 = fs35.push(("tres"@, spec_enc_opt_str(v.tres)));
    lemma_lookup_fields_push_all(fs36, "tres_used"@, spec_enc_opt_str(v.tres_used));
    let fs37 = fs36.push(("tres_used"@, spec_enc_opt_str(v.tres_used)));
    lemma_lookup_fields_push_all(fs37, "slurmd_version"@, spec_enc_opt_str(v.slurmd_version));
    let fs38 = fs37.push(("slurmd_version"@, spec_enc_opt_str(v.slurmd_version)));
    lemma_lookup_fields_push_all(fs38, "alloc_cpus"@, spec_enc_opt_i64(v.alloc_cpus));
    let fs39 = fs38.push(("alloc_cpus"@, spec_enc_opt_i64(v.alloc_cpus)));
    lemma_lookup_fields_push_all(fs39, "idle_cpus"@, spec_enc_opt_i64(v.idle_cpus));
    let fs40 = fs39.push(("idle_cpus"@, spec_enc_opt_i64(v.idle_cpus)));
    lemma_lookup_fields_push_all(fs40, "alloc_memory"@, spec_enc_opt_i64(v.alloc_memory));
    let fs41 = fs40.push(("alloc_memory"@, spec_enc_opt_i64(v.alloc_memory)));
    assert(spec_encode_node(v)->Obj_0 == fs41);
}

/// The value at each of a few keys of an encoded record.
#[verifier::rlimit(100)]
proof fn lemma_node_lookups_8(v: NodeV)
    ensures
        lookup_fields(spec_encode_node(v)->Obj_0, "alloc_memory"@) == Some(spec_enc_opt_i64(v.alloc_memory)),
{
    reveal_strlit("active_features");
    reveal_strlit("address");
    reveal_strlit("alloc_cpus");
    reveal_strlit("alloc_memory");
    reveal_strlit("architecture");
    reveal_strlit("boards");
    reveal_strlit("boot_time");
    reveal_strlit("burstbuffer_network_address");
    reveal_strlit("cores");
    reveal_strlit("cpu_binding");
    reveal_strlit("cpu_load");
    reveal_strlit("cpus");
    reveal_strlit("features");
    reveal_strlit("free_memory");
    reveal_strlit("gres");
    reveal_strlit("gres_drained");
    reveal_strlit("gres_used");
    reveal_strlit("hostname");
    reveal_strlit("idle_cpus");
    reveal_strlit("mcs_label");
    reveal_strlit("name");
    reveal_strlit("next_state_after_reboot");
    reveal_strlit("next_state_after_reboot_flags");
    reveal_strlit("operating_system");
    reveal_strlit("owner");
    reveal_strlit("partitions");
    reveal_strlit("port");
    reveal_strlit("real_memory");
    reveal_strlit("reason");
    reveal_strlit("reason_changed_at");
    reveal_strlit("reason_set_by_user");
    reveal_strlit("slurmd_start_time");
    reveal_strlit("slurmd_version");
    reveal_strlit("sockets");
    reveal_strlit("state");
    reveal_strlit("state_flags");
    reveal_strlit("temporary_disk");
    reveal_strlit("threads");
    reveal_strlit("tres");
    reveal_strlit("tres_used");
    reveal_strlit("weight");
    assert("active_features"@.len() == 15);
    assert("address"@.len() == 7);
    assert("alloc_cpus"@.len() == 10);
    assert("alloc_memory"@.len() == 12);
    assert("architecture"@.len() == 12);
    assert("boards"@.len() == 6);
    assert("boot_time"@.len() == 9);
    assert("burstbuffer_network_address"@.len() == 27);
    assert("cores"@.len() == 5);
    assert("cpu_binding"@.len() == 11);
    assert("cpu_load"@.len() == 8);
    assert("cpus"@.len() == 4);
    assert("features"@.len() == 8);
    assert("free_memory"@.len() == 11);
    assert("gres"@.len() == 4);
    assert("gres_drained"@.len() == 12);
    assert("gres_used"@.len() == 9);
    assert("hostname"@.len() == 8);
    assert("idle_cpus"@.len() == 9);
    assert("mcs_label"@.len() == 9);
    assert("name"@.len() == 4);
    assert("next_state_after_reboot"@.len() == 23);
    assert("next_state_after_reboot_flags"@.len() == 29);
    assert("operating_system"@.len() == 16);
    assert("owner"@.len() == 5);
    assert("partitions"@.len() == 10);
    assert("port"@.len() == 4);
    assert("real_memory"@.len() == 11);
    assert("reason"@.len() == 6);
    assert("reason_changed_at"@.len() == 17);
    assert("reason_set_by_user"@.len() == 18);
    assert("slurmd_start_time"@.len() == 17);
    assert("slurmd_version"@.len() == 14);
    assert("sockets"@.len() == 7);
    assert("state"@.len() == 5);
    assert("state_flags"@.len() == 11);
    assert("temporary_disk"@.len() == 14);
    assert("threads"@.len() == 7);
    assert("tres"@.len() == 4);
    assert("tres_used"@.len() == 9);
    assert("weight"@.len() == 6);
    assert("address"@[0] == 'a');
    assert("sockets"@[0] == 's');
    assert("address"@[0] == 'a');
    assert("threads"@[0] == 't');
    assert("alloc_cpus"@[0] == 'a');
    assert("partitions"@[0] == 'p');
    assert("alloc_memory"@[1] == 'l');
    assert("architecture"@[1] == 'r');
    assert("alloc_memory"@[0] == 'a');
    assert("gres_drained"@[0] == 'g');
    assert("architecture"@[0] == 'a');
    assert("gres_drained"@[0] == 'g');
    assert("boards"@[0] == 'b');
    assert("reason"@[0] == 'r');
    assert("boards"@[0] == 'b');
    assert("weight"@[0] == 'w');
    assert("boot_time"@[0] == 'b');
    assert("gres_used"@[0] == 'g');
    assert("boot_time"@[0] == 'b');
    assert("idle_cpus"@[0] == 'i');
    assert("boot_time"@[0] == 'b');
    assert("mcs_label"@[0] == 'm');
    assert("boot_time"@[0] == 'b');
    assert("tres_used"@[0] == 't');
    assert("cores"@[0] == 'c');
    assert("owner"@[0] == 'o');
    assert("cores"@[0] == 'c');
    assert("state"@[0] == 's');
    assert("cpu_binding"@[0] == 'c');
    assert("free_memory"@[0] == 'f');
    assert("cpu_binding"@[0] == 'c');
    assert("real_memory"@[0] == 'r');
    assert("cpu_binding"@[0] == 'c');
    assert("state_flags"@[0] == 's');
    assert("cpu_load"@[0] == 'c');
    assert("features"@[0] == 'f');
    assert("cpu_load"@[0] == 'c');
    assert("hostname"@[0] == 'h');
    assert("cpus"@[0] == 'c');
    assert("gres"@[0] == 'g');
    assert("cpus"@[0] == 'c');
    assert("name"@[0] == 'n');
    assert("cpus"@[0] == 'c');
    assert("port"@[0] == 'p');
    assert("cpus"@[0] == 'c');
    assert("tres"@[0] == 't');
    assert("features"@[0] == 'f');
    assert("hostname"@[0] == 'h');
    assert("free_memory"@[0] == 'f');
    assert("real_memory"@[0] == 'r');
    assert("free_memory"@[0] == 'f');
    assert("state_flags"@[0] == 's');
    assert("gres"@[0] == 'g');
    assert("name"@[0] == 'n');
    assert("gres"@[0] == 'g');
    assert("port"@[0] == 'p');
    assert("gres"@[0] == 'g');
    assert("tres"@[0] == 't');
    assert("gres_used"@[0] == 'g');
    assert("idle_cpus"@[0] == 'i');
    assert("gres_used"@[0] == 'g');
    assert("mcs_label"@[0] == 'm');
    assert("gres_used"@[0] == 'g');
    assert("tres_used"@[0] == 't');
    assert("idle_cpus"@[0] == 'i');
    assert("mcs_label"@[0] == 'm');
    assert("idle_cpus"@[0] == 'i');
    assert("tres_used"@[0] == 't');
    assert("mcs_label"@[0] == 'm');
    assert("tres_used"@[0] == 't');
    assert("name"@[0] == 'n');
    assert("port"@[0] == 'p');
    assert("name"@[0] == 'n');
    assert("tres"@[0] == 't');
    assert("owner"@[0] == 'o');
    assert("state"@[0] == 's');
    assert("port"@[0] == 'p');
    assert("tres"@[0] == 't');
    assert("real_memory"@[0] == 'r');
    assert("state_flags"@[0] == 's');
    assert("reason"@[0] == 'r');
    assert("weight"@[0] == 'w');
    assert("reason_changed_at"@[0] == 'r');
    assert("slurmd_start_time"@[0] == 's');
    assert("slurmd_version"@[0] == 's');
    assert("temporary_disk"@[0] == 't');
    assert("sockets"@[0] == 's');
    assert("threads"@[0] == 't');
    let fs0 = Seq::<(Seq<char>, JsonV)>::empty();
    lemma_lookup_fields_push_all(fs0, "architecture"@, spec_enc_opt_str(v.architecture));
    let fs1 = fs0.push(("architecture"@, spec_enc_opt_str(v.architecture)));
    lemma_lookup_fields_push_all(fs1, "burstbuffer_network_address"@, spec_enc_opt_str(v.burstbuffer_network_address));
    let fs2 = fs1.push(("burstbuffer_network_address"@, spec_enc_opt_str(v.burstbuffer_network_address)));
    lemma_lookup_fields_push_all(fs2, "boards"@, spec_enc_opt_i64(v.boards));
    let fs3 = fs2.push(("boards"@, spec_enc_opt_i64(v.boards)));
    lemma_lookup_fields_push_all(fs3, "boot_time"@, spec_enc_opt_i64(v.boot_time));
    let fs4 = fs3.push(("boot_time"@, spec_enc_opt_i64(v.boot_time)));
    lemma_lookup_fields_push_all(fs4, "cores"@, spec_enc_opt_i64(v.cores));
    let fs5 = fs4.push(("cores"@, spec_enc_opt_i64(v.cores)));
    lemma_lookup_fields_push_all(fs5, "cpu_binding"@, spec_enc_opt_i64(v.cpu_binding));
    let fs6 = fs5.push(("cpu_binding"@, spec_enc_opt_i64(v.cpu_binding)));
    lemma_lookup_fields_push_all(fs6, "cpu_load"@, spec_enc_opt_i64(v.cpu_load));
    let fs7 = fs6.push(("cpu_load"@, spec_enc_opt_i64(v.cpu_load)));
    lemma_lookup_fields_push_all(fs7, "free_memory"@, spec_enc_opt_i64(v.free_memory));
    let fs8 = fs7.push(("free_memory"@, spec_enc_opt_i64(v.free_memory)));
    lemma_lookup_fields_push_all(fs8, "cpus"@, spec_enc_opt_i64(v.cpus));
    let fs9 = fs8.push(("cpus"@, spec_enc_opt_i64(v.cpus)));
    lemma_lookup_fields_push_all(fs9, "features"@, spec_enc_opt_str(v.features));
    let fs10 = fs9.push(("features"@, spec_enc_opt_str(v.features)));
    lemma_lookup_fields_push_all(fs10, "active_features"@, spec_enc_opt_str(v.active_features));
    let fs11 = fs10.push(("active_features"@, spec_enc_opt_str(v.active_features)));
    lemma_lookup_fields_push_all(fs11, "gres"@, spec_enc_opt_str(v.gres));
    let fs12 = fs11.push(("gres"@, spec_enc_opt_str(v.gres)));
    lemma_lookup_fields_push_all(fs12, "gres_drained"@, spec_enc_opt_str(v.gres_drained));
    let fs13 = fs12.push(("gres_drained"@, spec_enc_opt_str(v.gres_drained)));
    lemma_lookup_fields_push_all(fs13, "gres_used"@, spec_enc_opt_str(v.gres_used));
    let fs14 = fs13.push(("gres_used"@, spec_enc_opt_str(v.gres_used)));
    lemma_lookup_fields_push_all(fs14, "mcs_label"@, spec_enc_opt_str(v.mcs_label));
    let fs15 = fs14.push(("mcs_label"@, spec_enc_opt_str(v.mcs_label)));
    lemma_lookup_fields_push_all(fs15, "name"@, spec_enc_opt_str(v.name));
    let fs16 = fs15.push(("name"@, spec_enc_opt_str(v.name)));
    lemma_lookup_fields_push_all(fs16, "next_state_after_reboot"@, spec_enc_opt_str(v.next_state_after_reboot));
    let fs17 = fs16.push(("next_state_after_reboot"@, spec_enc_opt_str(v.next_state_after_reboot)));
    lemma_lookup_fields_push_all(fs17, "next_state_after_reboot_flags"@, JsonV::Arr(spec_encode_strs(v.next_state_after_reboot_flags)));
    let fs18 = fs17.push(("next_state_after_reboot_flags"@, JsonV::Arr(spec_encode_strs(v.next_state_after_reboot_flags))));
    lemma_lookup_fields_push_all(fs18, "address"@, spec_enc_opt_str(v.address));
    let fs19 = fs18.push(("address"@, spec_enc_opt_str(v.address)));
    lemma_lookup_fields_push_all(fs19, "hostname"@, spec_enc_opt_str(v.hostname));
    let fs20 = fs19.push(("hostname"@, spec_enc_opt_str(v.hostname)));
    lemma_lookup_fields_push_all(fs20, "state"@, spec_enc_opt_str(v.state));
    let fs21 = fs20.push(("state"@, spec_enc_opt_str(v.state)));
    lemma_lookup_fields_push_all(fs21, "state_flags"@, JsonV::Arr(spec_encode_strs(v.state_flags)));
    let fs22 = fs21.push(("state_flags"@, JsonV::Arr(spec_encode_strs(v.state_flags))));
    lemma_lookup_fields_push_all(fs22, "operating_system"@, spec_enc_opt_str(v.operating_system));
    let fs23 = fs22.push(("operating_system"@, spec_enc_opt_str(v.operating_system)));
    lemma_lookup_fields_push_all(fs23, "owner"@, spec_enc_opt_str(v.owner));
    let fs24 = fs23.push(("owner"@, spec_enc_opt_str(v.owner)));
    lemma_lookup_fields_push_all(fs24, "partitions"@, JsonV::Arr(spec_encode_strs(v.partitions)));
    let fs25 = fs24.push(("partitions"@, JsonV::Arr(spec_encode_strs(v.partitions))));
    lemma_lookup_fields_push_all(fs25, "port"@, spec_enc_opt_i64(v.port));
    let fs26 = fs25.push(("port"@, spec_enc_opt_i64(v.port)));
    lemma_lookup_fields_push_all(fs26, "real_memory"@, spec_enc_opt_i64(v.real_memory));
    let fs27 = fs26.push(("real_memory"@, spec_enc_opt_i64(v.real_memory)));
    lemma_lookup_fields_push_all(fs27, "reason"@, spec_enc_opt_str(v.reason));
    let fs28 = fs27.push(("reason"@, spec_enc_opt_str(v.reason)));
    lemma_lookup_fields_push_all(fs28, "reason_changed_at"@, spec_enc_opt_i64(v.reason_changed_at));
    let fs29 = fs28.push(("reason_changed_at"@, spec_enc_opt_i64(v.reason_changed_at)));
    lemma_lookup_fields_push_all(fs29, "reason_set_by_user"@, spec_enc_opt_str(v.reason_set_by_user));
    let fs30 = fs29.push(("reason_set_by_user"@, spec_enc_opt_str(v.reason_set_by_user)));
    lemma_lookup_fields_push_all(fs30, "slurmd_start_time"@, spec_enc_opt_i64(v.slurmd_start_time));
    let fs31 = fs30.push(("slurmd_start_time"@, spec_enc_opt_i64(v.slurmd_start_time)));
    lemma_lookup_fields_push_all(fs31, "sockets"@, spec_enc_opt_i64(v.sockets));
    let fs32 = fs31.push(("sockets"@, spec_enc_opt_i64(v.sockets)));
    lemma_lookup_fields_push_all(fs32, "threads"@, spec_enc_opt_i64(v.threads));
    let fs33 = fs32.push(("threads"@, spec_enc_opt_i64(v.threads)));
    lemma_lookup_fields_push_all(fs33, "temporary_disk"@, spec_enc_opt_i64(v.temporary_disk));
    let fs34 = fs33.push(("temporary_disk"@, spec_enc_opt_i64(v.temporary_disk)));
    lemma_lookup_fields_push_all(fs34, "weight"@, spec_enc_opt_i64(v.weight));
    let fs35 = fs34.push(("weight"@, spec_enc_opt_i64(v.weight)));
    lemma_lookup_fields_push_all(fs35, "tres"@, spec_enc_opt_str(v.tres));
    let fs36 = fs35.push(("tres"@, spec_enc_opt_str(v.tres)));
    lemma_lookup_fields_push_all(fs36, "tres_used"@, spec_enc_opt_str(v.tres_used));
    let fs37 = fs36.push(("tres_used"@, spec_enc_opt_str(v.tres_used)));
    lemma_lookup_fields_push_all(fs37, "slurmd_version"@, spec_enc_opt_str(v.slurmd_version));
    let fs38 = fs37.push(("slurmd_version"@, spec_enc_opt_str(v.slurmd_version)));
    lemma_lookup_fields_push_all(fs38, "alloc_cpus"@, spec_enc_opt_i64(v.alloc_cpus));
    let fs39 = fs38.push(("alloc_cpus"@, spec_enc_opt_i64(v.alloc_cpus)));
    lemma_lookup_fields_push_all(fs39, "idle_cpus"@, spec_enc_opt_i64(v.idle_cpus));
    let fs40 = fs39.push(("idle_cpus"@, spec_enc_opt_i64(v.idle_cpus)));
    lemma_lookup_fields_push_all(fs40, "alloc_memory"@, spec_enc_opt_i64(v.alloc_memory));
    let fs41 = fs40.push(("alloc_memory"@, spec_enc_opt_i64(v.alloc_memory)));
    assert(spec_encode_node(v)->Obj_0 == fs41);
}

/// The decoded value of each of a few fields of an encoded
/// record.
#[verifier::rlimit(100)]
proof fn lemma_node_fields_0(v: NodeV)
    ensures
        spec_opt_str_field(spec_encode_node(v), "architecture"@) == Some(v.architecture),
        spec_opt_str_field(spec_encode_node(v), "burstbuffer_network_address"@) == Some(v.burstbuffer_network_address),
        spec_opt_i64_field(spec_encode_node(v), "boards"@) == Some(v.boards),
        spec_opt_i64_field(spec_encode_node(v), "boot_time"@) == Some(v.boot_time),
        spec_opt_i64_field(spec_encode_node(v), "cores"@) == Some(v.cores),
{
    lemma_node_lookups_0(v);
}

/// The decoded value of each of a few fields of an encoded
/// record.
#[verifier::rlimit(100)]
proof fn lemma_node_fields_1(v: NodeV)
    ensures
        spec_opt_i64_field(spec_encode_node(v), "cpu_binding"@) == Some(v.cpu_binding),
        spec_opt_i64_field(spec_encode_node(v), "cpu_load"@) == Some(v.cpu_load),
        spec_opt_i64_field(spec_encode_node(v), "free_memory"@) == Some(v.free_memory),
        spec_opt_i64_field(spec_encode_node(v), "cpus"@) == Some(v.cpus),
        spec_opt_str_field(spec_encode_node(v), "features"@) == Some(v.features),
{
    lemma_node_lookups_1(v);
}

/// The decoded value of each of a few fields of an encoded
/// record.
#[verifier::rlimit(100)]
proof fn lemma_node_fields_2(v: NodeV)
    ensures
        spec_opt_str_field(spec_encode_node(v), "active_features"@) == Some(v.active_features),
        spec_opt_str_field(spec_encode_node(v), "gres"@) == Some(v.gres),
        spec_opt_str_field(spec_encode_node(v), "gres_drained"@) == Some(v.gres_drained),
        spec_opt_str_field(spec_encode_node(v), "gres_used"@) == Some(v.gres_used),
        spec_opt_str_field(spec_encode_node(v), "mcs_label"@) == Some(v.mcs_label),
{
    lemma_node_lookups_2(v);
}

/// The decoded value of each of a few fields of an encoded
/// record.
#[verifier::rlimit(100)]
proof fn lemma_node_fields_3(v: NodeV)
    ensures
        spec_opt_str_field(spec_encode_node(v), "name"@) == Some(v.name),
        spec_opt_str_field(spec_encode_node(v), "next_state_after_reboot"@) == Some(v.next_state_after_reboot),
        spec_str_list_field(spec_encode_node(v), "next_state_after_reboot_flags"@) == Some(v.next_state_after_reboot_flags),
        spec_opt_str_field(spec_encode_node(v), "address"@) == Some(v.address),
        spec_opt_str_field(spec_encode_node(v), "hostname"@) == Some(v.hostname),
{
    lemma_node_lookups_3(v);
    lemma_strs_round_trip(v.next_state_after_reboot_flags);
}

/// The decoded value of each of a few fields of an encoded
/// record.
#[verifier::rlimit(100)]
proof fn lemma_node_fields_4(v: NodeV)
    ensures
        spec_opt_str_field(spec_encode_node(v), "state"@) == Some(v.state),
        spec_str_list_field(spec_encode_node(v), "state_flags"@) == Some(v.state_flags),
        spec_opt_str_field(spec_encode_node(v), "operating_system"@) == Some(v.operating_system),
        spec_opt_str_field(spec_encode_node(v), "owner"@) == Some(v.owner),
        spec_str_list_field(spec_encode_node(v), "partitions"@) == Some(v.partitions),
{
    lemma_node_lookups_4(v);
    lemma_strs_round_trip(v.state_flags);
    lemma_strs_round_trip(v.partitions);
}

/// The decoded value of each of a few fields of an encoded
/// record.
#[verifier::rlimit(100)]
proof fn lemma_node_fields_5(v: NodeV)
    ensures
        spec_opt_i64_field(spec_encode_node(v), "port"@) == Some(v.port),
        spec_opt_i64_field(spec_encode_node(v), "real_memory"@) == Some(v.real_memory),
        spec_opt_str_field(spec_encode_node(v), "reason"@) == Some(v.reason),
        spec_opt_i64_field(spec_encode_node(v), "reason_changed_at"@) == Some(v.reason_changed_at),
        spec_opt_str_field(spec_encode_node(v), "reason_set_by_user"@) == Some(v.reason_set_by_user),
{
    lemma_node_lookups_5(v);
}

/// The decoded value of each of a few fields of an encoded
/// record.
#[verifier::rlimit(100)]
proof fn lemma_node_fields_6(v: NodeV)
    ensures
        spec_opt_i64_field(spec_encode_node(v), "slurmd_start_time"@) == Some(v.slurmd_start_time),
        spec_opt_i64_field(spec_encode_node(v), "sockets"@) == Some(v.sockets),
        spec_opt_i64_field(spec_encode_node(v), "threads"@) == Some(v.threads),
        spec_opt_i64_field(spec_encode_node(v), "temporary_disk"@) == Some(v.temporary_disk),
        spec_opt_i64_field(spec_encode_node(v), "weight"@) == Some(v.weight),
{
    lemma_node_lookups_6(v);
}

/// The decoded value of each of a few fields of an encoded
/// record.
#[verifier::rlimit(100)]
proof fn lemma_node_fields_7(v: NodeV)
    ensures
        spec_opt_str_field(spec_encode_node(v), "tres"@) == Some(v.tres),
        spec_opt_str_field(spec_encode_node(v), "tres_used"@) == Some(v.tres_used),
        spec_opt_str_field(spec_encode_node(v), "slurmd_version"@) == Some(v.slurmd_version),
        spec_opt_i64_field(spec_encode_node(v), "alloc_cpus"@) == Some(v.alloc_cpus),
        spec_opt_i64_field(spec_encode_node(v), "idle_cpus"@) == Some(v.idle_cpus),
{
    lemma_node_lookups_7(v);
}

/// The decoded value of each of a few fields of an encoded
/// record.
#[verifier::rlimit(100)]
proof fn lemma_node_fields_8(v: NodeV)
    ensures
        spec_opt_i64_field(spec_encode_node(v), "alloc_memory"@) == Some(v.alloc_memory),
{
    lemma_node_lookups_8(v);
}

/// Encoding one record and decoding the result gives the record
/// back.
#[verifier::rlimit(100)]
pub proof fn lemma_node_round_trip(v: NodeV)
    ensures
        spec_decode_node(spec_encode_node(v)) == Some(v),
{
    lemma_node_fields_0(v);
    lemma_node_fields_1(v);
    lemma_node_fields_2(v);
    lemma_node_fields_3(v);
    lemma_node_fields_4(v);
    lemma_node_fields_5(v);
    lemma_node_fields_6(v);
    lemma_node_fields_7(v);
    lemma_node_fields_8(v);
    assert(spec_decode_node(spec_encode_node(v)) == Some(v)) by {
    }
}
/// The models of a sequence of nodes, or nothing when some
/// element does not decode.
pub open spec fn spec_decode_node_seq(items: Seq<JsonV>) -> Option<Seq<NodeV>>
    decreases items.len(),
{
    if items.len() == 0 {
        Some(Seq::empty())
    } else {
        match (spec_decode_node_seq(items.drop_last()), spec_decode_node(items.last())) {
            (Option::Some(rest), Option::Some(x)) => Some(rest.push(x)),
            _ => None,
        }
    }
}

/// A sequence with an element that does not decode has no decoding
/// as a whole.
proof fn lemma_decode_node_seq_none(items: Seq<JsonV>, i: int)
    requires
        0 <= i < items.len(),
        spec_decode_node(items[i]) is None,
    ensures
        spec_decode_node_seq(items) is None,
    decreases items.len(),
{
    if i < items.len() - 1 {
        lemma_decode_node_seq_none(items.drop_last(), i);
    }
}

/// The models of each record of `v`, in order.
pub open spec fn nodes_view(v: Seq<Node>) -> Seq<NodeV>
    decreases v.len(),
{
    if v.len() == 0 {
        Seq::empty()
    } else {
        nodes_view(v.drop_last()).push(v.last()@)
    }
}
/// The `nodes` field of the envelope: the empty list when absent,
/// its records when an array of objects, and nothing on a schema
/// mismatch.
pub open spec fn spec_nodes_field(j: JsonV) -> Option<Seq<NodeV>> {
    match spec_lookup(j, "nodes"@) {
        Option::None => Some(Seq::empty()),
        Option::Some(JsonV::Arr(items)) => spec_decode_node_seq(items),
        Option::Some(_) => None,
    }
}

/// Read the `nodes` field of the envelope, defaulting to the empty
/// list.
fn nodes_from_envelope(j: &Json) -> (r: Result<Vec<Node>, JsonError>)
    ensures
        match r {
            Ok(v) => spec_nodes_field(j@) == Some(nodes_view(v@)),
            Err(_) => spec_nodes_field(j@) is None,
        },
{
    match j.lookup("nodes") {
        None => {
            let out: Vec<Node> = Vec::new();
            Ok(out)
        },
        Some(v) => match v {
            Json::Arr(items) => {
                let ghost vs = v@->Arr_0;
                proof {
                    crate::json::lemma_view_seq_elts(items@);
                }
                let mut out: Vec<Node> = Vec::new();
                let mut idx: usize = 0;
                while idx < items.len()
                    invariant
                        idx <= items.len(),
                        spec_lookup(j@, "nodes"@) == Some(v@),
                        v@ == JsonV::Arr(vs),
                        vs.len() == items@.len(),
                        forall|i: int| 0 <= i < vs.len() ==> vs[i] == items@[i].model(),
                        spec_decode_node_seq(vs.take(idx as int)) == Some(nodes_view(out@)),
                    decreases items@.len() - idx,
                {
                    match Node::from_json(&items[idx]) {
                        Ok(e) => {
                            let ghost out_pre = out@;
                            out.push(e);
                            proof {
                                assert(out@.drop_last() =~= out_pre);
                            }
                        },
                        Err(err) => {
                            proof {
                                lemma_decode_node_seq_none(vs, idx as int);
                            }
                            return Err(err);
                        },
                    }
                    idx = idx + 1;
                    assert(vs.take(idx as int).drop_last() =~= vs.take(idx as int - 1));
                }
                proof {
                    assert(vs.take(vs.len() as int) =~= vs);
                }
                Ok(out)
            },
            _ => Err(JsonError::new()),
        },
    }
}
/// The node endpoints' response envelope.
#[derive(Debug, Clone, PartialEq)]
pub struct NodesResponse {
    pub meta: Meta,
    pub errors: Vec<Error>,
    pub nodes: Vec<Node>,
}

/// The model of [`NodesResponse`].
pub struct NodesResponseV {
    pub meta: MetaV,
    pub errors: Seq<ErrorV>,
    pub nodes: Seq<NodeV>,
}

impl View for NodesResponse {
    type V = NodesResponseV;

    open spec fn view(&self) -> NodesResponseV {
        NodesResponseV {
            meta: self.meta@,
            errors: errors_view(self.errors@),
            nodes: nodes_view(self.nodes@),
        }
    }
}

/// What the whole envelope decodes from, or nothing on a schema
/// mismatch; absent parts decode to empty values.
pub open spec fn spec_decode_nodes_response(j: JsonV) -> Option<NodesResponseV> {
    if !(j is Obj) {
        None
    } else if spec_meta_field(j) is None {
        None
    } else if spec_errors_field(j) is None {
        None
    } else if spec_nodes_field(j) is None {
        None
    } else {
        Some(
            NodesResponseV {
                meta: spec_meta_field(j).unwrap(),
                errors: spec_errors_field(j).unwrap(),
                nodes: spec_nodes_field(j).unwrap(),
            },
        )
    }
}

impl NodesResponse {
    /// Read the whole envelope out of a JSON object.
    pub fn from_json(j: &Json) -> (r: Result<NodesResponse, JsonError>)
        ensures
            match r {
                Ok(v) => spec_decode_nodes_response(j@) == Some(v@),
                Err(_) => spec_decode_nodes_response(j@) is None,
            },
    {
        if !j.is_obj() {
            return Err(JsonError::new());
        }
        let meta = Meta::from_envelope(j)?;
        let errors = errors_from_envelope(j)?;
        let nodes = nodes_from_envelope(j)?;
        Ok(NodesResponse { meta, errors, nodes })
    }

    /// Turn one HTTP answer into a typed result: any status other
    /// than 200 is a protocol error carrying the status and the raw
    /// body, and the body of a 200 answer is parsed and decoded.
    pub fn from_http(status: u16, body: &str) -> (r: Result<NodesResponse, ClientError>)
        ensures
            status != 200 ==> match r {
                Err(ClientError::Protocol { status: s, body: b }) => s == status && b@ == body@,
                _ => false,
            },
            status == 200 ==> match spec_parse_json(body@) {
                Option::None => r == Err::<NodesResponse, ClientError>(ClientError::Decode),
                Option::Some(doc) => match spec_decode_nodes_response(doc) {
                    Option::Some(p) => match r {
                        Ok(v) => v@ == p,
                        Err(_) => false,
                    },
                    Option::None => r == Err::<NodesResponse, ClientError>(ClientError::Decode),
                },
            },
    {
        if status != 200 {
            return Err(ClientError::Protocol { status, body: body.to_owned() });
        }
        match parse_json(body) {
            None => Err(ClientError::Decode),
            Some(doc) => match NodesResponse::from_json(&doc) {
                Ok(p) => Ok(p),
                Err(_) => Err(ClientError::Decode),
            },
        }
    }
}
} // verus!
