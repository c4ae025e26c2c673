//! Reservations: time-bounded resource holds.
use vstd::prelude::*;

use crate::error::ClientError;
use crate::json::{
    lemma_lookup_fields_push_all, lemma_strs_round_trip, lemma_view_fields_snoc, lookup_fields, opt_str_view, parse_json,
    spec_enc_opt_i64, spec_enc_opt_str, spec_encode_strs, spec_lookup, spec_opt_i64_field,
    spec_opt_str_field, spec_parse_json, spec_str_list_field, strs_to_json,
    strs_view, Json, JsonError, JsonV,
};
use crate::meta::{
    errors_from_envelope, errors_view, spec_errors_field, spec_meta_field, Error, ErrorV, Meta,
    MetaV,
};

verus! {

/// The purge-on-completion policy of a reservation.
#[derive(Debug, Clone, PartialEq)]
pub struct ReservationPurgeCompleted {
    time: Option<i64>,
}

/// The model of [`ReservationPurgeCompleted`].
pub struct ReservationPurgeCompletedV {
    pub time: Option<i64>,
}

impl View for ReservationPurgeCompleted {
    type V = ReservationPurgeCompletedV;

    closed spec fn view(&self) -> ReservationPurgeCompletedV {
        ReservationPurgeCompletedV {
            time: self.time,
        }
    }
}

impl ReservationPurgeCompletedV {
    /// The value whose parts are all absent or empty.
    pub open spec fn default_v() -> ReservationPurgeCompletedV {
        ReservationPurgeCompletedV {
            time: None,
        }
    }
}

impl Default for ReservationPurgeCompleted {
    /// The value whose parts are all absent or empty.
    fn default() -> (r: ReservationPurgeCompleted)
        ensures
            r@ == ReservationPurgeCompletedV::default_v(),
    {
        ReservationPurgeCompleted {
            time: None,
        }
    }
}

/// Whether `j` is an object all of whose present fields have the
/// expected types.
pub open spec fn spec_reservation_purge_completed_ok(j: JsonV) -> bool {
    &&& j is Obj
    &&& spec_opt_i64_field(j, "time"@) is Some
}

/// What one record decodes from, or nothing on a schema mismatch.
pub open spec fn spec_decode_reservation_purge_completed(j: JsonV) -> Option<ReservationPurgeCompletedV> {
    if spec_reservation_purge_completed_ok(j) {
        Some(
            ReservationPurgeCompletedV {
                time: spec_opt_i64_field(j, "time"@).unwrap(),
            },
        )
    } else {
        None
    }
}

impl ReservationPurgeCompleted {
    /// Read one record out of a JSON object; missing fields
    /// decode to their defaults, fields of the wrong type are a
    /// schema mismatch.
    #[verifier::rlimit(50)]
    pub fn from_json(j: &Json) -> (r: Result<ReservationPurgeCompleted, JsonError>)
        ensures
            match r {
                Ok(v) => spec_decode_reservation_purge_completed(j@) == Some(v@),
                Err(_) => spec_decode_reservation_purge_completed(j@) is None,
            },
    {
        if !j.is_obj() {
            return Err(JsonError::new());
        }
        let time = j.get_opt_i64("time")?;
        Ok(
            ReservationPurgeCompleted {
                time,
            },
        )
    }

    /// Write this record as a JSON object, one field per key,
    /// absent parts as null.
    #[verifier::rlimit(100)]
    pub fn to_json(&self) -> (r: Json)
        ensures
            r@ == spec_encode_reservation_purge_completed(self@),
    {
        let mut fields: Vec<(String, Json)> = Vec::new();
        let ghost pre_time = fields@;
        let key_time = "time".to_owned();
        let ghost gkey_time = key_time;
        let val_time = match self.time {
            Some(i) => Json::Int(i),
            None => Json::Null,
        };
        let ghost gval_time = val_time;
        proof {
            assert(gval_time.model() == spec_enc_opt_i64(self@.time));
        }
        fields.push((key_time, val_time));
        proof {
            lemma_view_fields_snoc(pre_time, gkey_time, gval_time);
        }
        let r = Json::Obj(fields);
        proof {
            assert(r@ == spec_encode_reservation_purge_completed(self@));
        }
        r
    }
}

/// The JSON object that one record encodes to.
pub open spec fn spec_encode_reservation_purge_completed(v: ReservationPurgeCompletedV) -> JsonV {
    JsonV::Obj(
        Seq::empty()
            .push(("time"@, spec_enc_opt_i64(v.time)))
    )
}

/// The value at each of a few keys of an encoded record.
#[verifier::rlimit(100)]
proof fn lemma_reservation_purge_completed_lookups_0(v: ReservationPurgeCompletedV)
    ensures
        lookup_fields(spec_encode_reservation_purge_completed(v)->Obj_0, "time"@) == Some(spec_enc_opt_i64(v.time)),
{
    reveal_strlit("time");
    assert("time"@.len() == 4);
    let fs0 = Seq::<(Seq<char>, JsonV)>::empty();
    lemma_lookup_fields_push_all(fs0, "time"@, spec_enc_opt_i64(v.time));
    let fs1 = fs0.push(("time"@, spec_enc_opt_i64(v.time)));
    assert(spec_encode_reservation_purge_completed(v)->Obj_0 == fs1);
}

/// The decoded value of each of a few fields of an encoded
/// record.
#[verifier::rlimit(100)]
proof fn lemma_reservation_purge_completed_fields_0(v: ReservationPurgeCompletedV)
    ensures
        spec_opt_i64_field(spec_encode_reservation_purge_completed(v), "time"@) == Some(v.time),
{
    lemma_reservation_purge_completed_lookups_0(v);
}

/// Encoding one record and decoding the result gives the record
/// back.
#[verifier::rlimit(100)]
pub proof fn lemma_reservation_purge_completed_round_trip(v: ReservationPurgeCompletedV)
    ensures
        spec_decode_reservation_purge_completed(spec_encode_reservation_purge_completed(v)) == Some(v),
{
    lemma_reservation_purge_completed_fields_0(v);
    assert(spec_decode_reservation_purge_completed(spec_encode_reservation_purge_completed(v)) == Some(v)) by {
    }
}
/// The `purge_completed` field of a reservation, defaulting when it
/// is absent.
pub open spec fn spec_reservation_purge_completed_field(j: JsonV) -> Option<
    ReservationPurgeCompletedV,
> {
    match spec_lookup(j, "purge_completed"@) {
        Option::None => Some(ReservationPurgeCompletedV::default_v()),
        Option::Some(v) => spec_decode_reservation_purge_completed(v),
    }
}

/// A time-bounded hold of nodes for given accounts or users.
#[derive(Debug, Clone, PartialEq)]
pub struct Reservation {
    pub accounts: Option<String>,
    pub burst_buffer: Option<String>,
    pub core_count: Option<i64>,
    pub core_spec_cnt: Option<i64>,
    pub end_time: Option<i64>,
    pub features: Option<String>,
    pub flags: Vec<String>,
    pub groups: Option<String>,
    pub licenses: Option<String>,
    pub max_start_delay: Option<i64>,
    pub name: Option<String>,
    pub node_count: Option<i64>,
    pub node_list: Option<String>,
    pub partition: Option<String>,
    pub purge_completed: ReservationPurgeCompleted,
    pub start_time: Option<i64>,
    pub watts: Option<i64>,
    pub tres: Option<String>,
    pub users: Option<String>,
}

/// The model of [`Reservation`].
pub struct ReservationV {
    pub accounts: Option<Seq<char>>,
    pub burst_buffer: Option<Seq<char>>,
    pub core_count: Option<i64>,
    pub core_spec_cnt: Option<i64>,
    pub end_time: Option<i64>,
    pub features: Option<Seq<char>>,
    pub flags: Seq<Seq<char>>,
    pub groups: Option<Seq<char>>,
    pub licenses: Option<Seq<char>>,
    pub max_start_delay: Option<i64>,
    pub name: Option<Seq<char>>,
    pub node_count: Option<i64>,
    pub node_list: Option<Seq<char>>,
    pub partition: Option<Seq<char>>,
    pub purge_completed: ReservationPurgeCompletedV,
    pub start_time: Option<i64>,
    pub watts: Option<i64>,
    pub tres: Option<Seq<char>>,
    pub users: Option<Seq<char>>,
}

impl View for Reservation {
    type V = ReservationV;

    open spec fn view(&self) -> ReservationV {
        ReservationV {
            accounts: opt_str_view(self.accounts),
            burst_buffer: opt_str_view(self.burst_buffer),
            core_count: self.core_count,
            core_spec_cnt: self.core_spec_cnt,
            end_time: self.end_time,
            features: opt_str_view(self.features),
            flags: strs_view(self.flags@),
            groups: opt_str_view(self.groups),
            licenses: opt_str_view(self.licenses),
            max_start_delay: self.max_start_delay,
            name: opt_str_view(self.name),
            node_count: self.node_count,
            node_list: opt_str_view(self.node_list),
            partition: opt_str_view(self.partition),
            purge_completed: self.purge_completed@,
            start_time: self.start_time,
            watts: self.watts,
            tres: opt_str_view(self.tres),
            users: opt_str_view(self.users),
        }
    }
}

impl ReservationV {
    /// The value whose parts are all absent or empty.
    pub open spec fn default_v() -> ReservationV {
        ReservationV {
            accounts: None,
            burst_buffer: None,
            core_count: None,
            core_spec_cnt: None,
            end_time: None,
            features: None,
            flags: Seq::empty(),
            groups: None,
            licenses: None,
            max_start_delay: None,
            name: None,
            node_count: None,
            node_list: None,
            partition: None,
            purge_completed: ReservationPurgeCompletedV::default_v(),
            start_time: None,
            watts: None,
            tres: None,
            users: None,
        }
    }
}

impl Default for Reservation {
    /// The value whose parts are all absent or empty.
    fn default() -> (r: Reservation)
        ensures
            r@ == ReservationV::default_v(),
    {
        Reservation {
            accounts: None,
            burst_buffer: None,
            core_count: None,
            core_spec_cnt: None,
            end_time: None,
            features: None,
            flags: Vec::new(),
            groups: None,
            licenses: None,
            max_start_delay: None,
            name: None,
            node_count: None,
            node_list: None,
            partition: None,
            purge_completed: ReservationPurgeCompleted::default(),
            start_time: None,
            watts: None,
            tres: None,
            users: None,
        }
    }
}

/// Whether `j` is an object all of whose present fields have the
/// expected types.
pub open spec fn spec_reservation_ok(j: JsonV) -> bool {
    &&& j is Obj
    &&& spec_opt_str_field(j, "accounts"@) is Some
    &&& spec_opt_str_field(j, "burst_buffer"@) is Some
    &&& spec_opt_i64_field(j, "core_count"@) is Some
    &&& spec_opt_i64_field(j, "core_spec_cnt"@) is Some
    &&& spec_opt_i64_field(j, "end_time"@) is Some
    &&& spec_opt_str_field(j, "features"@) is Some
    &&& spec_str_list_field(j, "flags"@) is Some
    &&& spec_opt_str_field(j, "groups"@) is Some
    &&& spec_opt_str_field(j, "licenses"@) is Some
    &&& spec_opt_i64_field(j, "max_start_delay"@) is Some
    &&& spec_opt_str_field(j, "name"@) is Some
    &&& spec_opt_i64_field(j, "node_count"@) is Some
    &&& spec_opt_str_field(j, "node_list"@) is Some
    &&& spec_opt_str_field(j, "partition"@) is Some
    &&& spec_reservation_purge_completed_field(j) is Some
    &&& spec_opt_i64_field(j, "start_time"@) is Some
    &&& spec_opt_i64_field(j, "watts"@) is Some
    &&& spec_opt_str_field(j, "tres"@) is Some
    &&& spec_opt_str_field(j, "users"@) is Some
}

/// What one record decodes from, or nothing on a schema mismatch.
pub open spec fn spec_decode_reservation(j: JsonV) -> Option<ReservationV> {
    if spec_reservation_ok(j) {
        Some(
            ReservationV {
                accounts: spec_opt_str_field(j, "accounts"@).unwrap(),
                burst_buffer: spec_opt_str_field(j, "burst_buffer"@).unwrap(),
                core_count: spec_opt_i64_field(j, "core_count"@).unwrap(),
                core_spec_cnt: spec_opt_i64_field(j, "core_spec_cnt"@).unwrap(),
                end_time: spec_opt_i64_field(j, "end_time"@).unwrap(),
                features: spec_opt_str_field(j, "features"@).unwrap(),
                flags: spec_str_list_field(j, "flags"@).unwrap(),
                groups: spec_opt_str_field(j, "groups"@).unwrap(),
                licenses: spec_opt_str_field(j, "licenses"@).unwrap(),
                max_start_delay: spec_opt_i64_field(j, "max_start_delay"@).unwrap(),
                name: spec_opt_str_field(j, "name"@).unwrap(),
                node_count: spec_opt_i64_field(j, "node_count"@).unwrap(),
                node_list: spec_opt_str_field(j, "node_list"@).unwrap(),
                partition: spec_opt_str_field(j, "partition"@).unwrap(),
                purge_completed: spec_reservation_purge_completed_field(j).unwrap(),
                start_time: spec_opt_i64_field(j, "start_time"@).unwrap(),
                watts: spec_opt_i64_field(j, "watts"@).unwrap(),
                tres: spec_opt_str_field(j, "tres"@).unwrap(),
                users: spec_opt_str_field(j, "users"@).unwrap(),
            },
        )
    } else {
        None
    }
}

impl Reservation {
    /// Read one group of fields.
    #[verifier::rlimit(50)]
    fn from_json_part_0(j: &Json) -> (r: Result<(Option<String>, Option<String>, Option<i64>, Option<i64>, Option<i64>, Option<String>, Vec<String>, Option<String>,), JsonError>)
        ensures
            match r {
                Ok(t) => spec_opt_str_field(j@, "accounts"@) == Some(opt_str_view(t.0))
                    && spec_opt_str_field(j@, "burst_buffer"@) == Some(opt_str_view(t.1))
                    && spec_opt_i64_field(j@, "core_count"@) == Some(t.2)
                    && spec_opt_i64_field(j@, "core_spec_cnt"@) == Some(t.3)
                    && spec_opt_i64_field(j@, "end_time"@) == Some(t.4)
                    && spec_opt_str_field(j@, "features"@) == Some(opt_str_view(t.5))
                    && spec_str_list_field(j@, "flags"@) == Some(strs_view(t.6@))
                    && spec_opt_str_field(j@, "groups"@) == Some(opt_str_view(t.7)),
                Err(_) => !spec_reservation_ok(j@),
            },
    {
        let accounts = j.get_opt_str("accounts")?;
        let burst_buffer = j.get_opt_str("burst_buffer")?;
        let core_count = j.get_opt_i64("core_count")?;
        let core_spec_cnt = j.get_opt_i64("core_spec_cnt")?;
        let end_time = j.get_opt_i64("end_time")?;
        let features = j.get_opt_str("features")?;
        let flags = j.get_str_list("flags")?;
        let groups = j.get_opt_str("groups")?;
        Ok((accounts, burst_buffer, core_count, core_spec_cnt, end_time, features, flags, groups,))
    }

    /// Read one group of fields.
    #[verifier::rlimit(50)]
    fn from_json_part_1(j: &Json) -> (r: Result<(Option<String>, Option<i64>, Option<String>, Option<i64>, Option<String>, Option<String>, ReservationPurgeCompleted, Option<i64>,), JsonError>)
        ensures
            match r {
                Ok(t) => spec_opt_str_field(j@, "licenses"@) == Some(opt_str_view(t.0))
                    && spec_opt_i64_field(j@, "max_start_delay"@) == Some(t.1)
                    && spec_opt_str_field(j@, "name"@) == Some(opt_str_view(t.2))
                    && spec_opt_i64_field(j@, "node_count"@) == Some(t.3)
                    && spec_opt_str_field(j@, "node_list"@) == Some(opt_str_view(t.4))
                    && spec_opt_str_field(j@, "partition"@) == Some(opt_str_view(t.5))
                    && spec_reservation_purge_completed_field(j@) == Some(t.6@)
                    && spec_opt_i64_field(j@, "start_time"@) == Some(t.7),
                Err(_) => !spec_reservation_ok(j@),
            },
    {
        let licenses = j.get_opt_str("licenses")?;
        let max_start_delay = j.get_opt_i64("max_start_delay")?;
        let name = j.get_opt_str("name")?;
        let node_count = j.get_opt_i64("node_count")?;
        let node_list = j.get_opt_str("node_list")?;
        let partition = j.get_opt_str("partition")?;
        let purge_completed = match j.lookup("purge_completed") {
            None => ReservationPurgeCompleted::default(),
            Some(v) => ReservationPurgeCompleted::from_json(v)?,
        };
        let start_time = j.get_opt_i64("start_time")?;
        Ok((licenses, max_start_delay, name, node_count, node_list, partition, purge_completed, start_time,))
    }

    /// Read one group of fields.
    #[verifier::rlimit(50)]
    fn from_json_part_2(j: &Json) -> (r: Result<(Option<i64>, Option<String>, Option<String>,), JsonError>)
        ensures
            match r {
                Ok(t) => spec_opt_i64_field(j@, "watts"@) == Some(t.0)
                    && spec_opt_str_field(j@, "tres"@) == Some(opt_str_view(t.1))
                    && spec_opt_str_field(j@, "users"@) == Some(opt_str_view(t.2)),
                Err(_) => !spec_reservation_ok(j@),
            },
    {
        let watts = j.get_opt_i64("watts")?;
        let tres = j.get_opt_str("tres")?;
        let users = j.get_opt_str("users")?;
        Ok((watts, tres, users,))
    }

    /// Read one record out of a JSON object; missing fields
    /// decode to their defaults, fields of the wrong type are a
    /// schema mismatch.
    #[verifier::rlimit(100)]
    pub fn from_json(j: &Json) -> (r: Result<Reservation, JsonError>)
        ensures
            match r {
                Ok(v) => spec_decode_reservation(j@) == Some(v@),
                Err(_) => spec_decode_reservation(j@) is None,
            },
    {
        if !j.is_obj() {
            return Err(JsonError::new());
        }
        let t0 = Reservation::from_json_part_0(j)?;
        let t1 = Reservation::from_json_part_1(j)?;
        let t2 = Reservation::from_json_part_2(j)?;
        Ok(
            Reservation {
                accounts: t0.0,
                burst_buffer: t0.1,
                core_count: t0.2,
                core_spec_cnt: t0.3,
                end_time: t0.4,
                features: t0.5,
                flags: t0.6,
                groups: t0.7,
                licenses: t1.0,
                max_start_delay: t1.1,
                name: t1.2,
                node_count: t1.3,
                node_list: t1.4,
                partition: t1.5,
                purge_completed: t1.6,
                start_time: t1.7,
                watts: t2.0,
                tres: t2.1,
                users: t2.2,
            },
        )
    }

    /// Write this record as a JSON object, one field per key,
    /// absent parts as null.
    #[verifier::rlimit(100)]
    pub fn to_json(&self) -> (r: Json)
        ensures
            r@ == spec_encode_reservation(self@),
    {
        let mut fields: Vec<(String, Json)> = Vec::new();
        let ghost pre_accounts = fields@;
        let key_accounts = "accounts".to_owned();
        let ghost gkey_accounts = key_accounts;
        let val_accounts = match &self.accounts {
            Some(s) => Json::Str(s.clone()),
            None => Json::Null,
        };
        let ghost gval_accounts = val_accounts;
        proof {
            assert(gval_accounts.model() == spec_enc_opt_str(self@.accounts));
        }
        fields.push((key_accounts, val_accounts));
        proof {
            lemma_view_fields_snoc(pre_accounts, gkey_accounts, gval_accounts);
        }
        let ghost pre_burst_buffer = fields@;
        let key_burst_buffer = "burst_buffer".to_owned();
        let ghost gkey_burst_buffer = key_burst_buffer;
        let val_burst_buffer = match &self.burst_buffer {
            Some(s) => Json::Str(s.clone()),
            None => Json::Null,
        };
        let ghost gval_burst_buffer = val_burst_buffer;
        proof {
            assert(gval_burst_buffer.model() == spec_enc_opt_str(self@.burst_buffer));
        }
        fields.push((key_burst_buffer, val_burst_buffer));
        proof {
            lemma_view_fields_snoc(pre_burst_buffer, gkey_burst_buffer, gval_burst_buffer);
        }
        let ghost pre_core_count = fields@;
        let key_core_count = "core_count".to_owned();
        let ghost gkey_core_count = key_core_count;
        let val_core_count = match self.core_count {
            Some(i) => Json::Int(i),
            None => Json::Null,
        };
        let ghost gval_core_count = val_core_count;
        proof {
            assert(gval_core_count.model() == spec_enc_opt_i64(self@.core_count));
        }
        fields.push((key_core_count, val_core_count));
        proof {
            lemma_view_fields_snoc(pre_core_count, gkey_core_count, gval_core_count);
        }
        let ghost pre_core_spec_cnt = fields@;
        let key_core_spec_cnt = "core_spec_cnt".to_owned();
        let ghost gkey_core_spec_cnt = key_core_spec_cnt;
        let val_core_spec_cnt = match self.core_spec_cnt {
            Some(i) => Json::Int(i),
            None => Json::Null,
        };
        let ghost gval_core_spec_cnt = val_core_spec_cnt;
        proof {
            assert(gval_core_spec_cnt.model() == spec_enc_opt_i64(self@.core_spec_cnt));
        }
        fields.push((key_core_spec_cnt, val_core_spec_cnt));
        proof {
            lemma_view_fields_snoc(pre_core_spec_cnt, gkey_core_spec_cnt, gval_core_spec_cnt);
        }
        let ghost pre_end_time = fields@;
        let key_end_time = "end_time".to_owned();
        let ghost gkey_end_time = key_end_time;
        let val_end_time = match self.end_time {
            Some(i) => Json::Int(i),
            None => Json::Null,
        };
        let ghost gval_end_time = val_end_time;
        proof {
            assert(gval_end_time.model() == spec_enc_opt_i64(self@.end_time));
        }
        fields.push((key_end_time, val_end_time));
        proof {
            lemma_view_fields_snoc(pre_end_time, gkey_end_time, gval_end_time);
        }
        let ghost pre_features = fields@;
        let key_features = "features".to_owned();
        let ghost gkey_features = key_features;
        let val_features = match &self.features {
            Some(s) => Json::Str(s.clone()),
            None => Json::Null,
        };
        let ghost gval_features = val_features;
        proof {
            assert(gval_features.model() == spec_enc_opt_str(self@.features));
        }
        fields.push((key_features, val_features));
        proof {
            lemma_view_fields_snoc(pre_features, gkey_features, gval_features);
        }
        let ghost pre_flags = fields@;
        let key_flags = "flags".to_owned();
        let ghost gkey_flags = key_flags;
        let val_flags = Json::Arr(strs_to_json(&self.flags));
        let ghost gval_flags = val_flags;
        proof {
            assert(gval_flags.model() == JsonV::Arr(spec_encode_strs(self@.flags)));
        }
        fields.push((key_flags, val_flags));
        proof {
            lemma_view_fields_snoc(pre_flags, gkey_flags, gval_flags);
        }
        let ghost pre_groups = fields@;
        let key_groups = "groups".to_owned();
        let ghost gkey_groups = key_groups;
        let val_groups = match &self.groups {
            Some(s) => Json::Str(s.clone()),
            None => Json::Null,
        };
        let ghost gval_groups = val_groups;
        proof {
            assert(gval_groups.model() == spec_enc_opt_str(self@.groups));
        }
        fields.push((key_groups, val_groups));
        proof {
            lemma_view_fields_snoc(pre_groups, gkey_groups, gval_groups);
        }
        let ghost pre_licenses = fields@;
        let key_licenses = "licenses".to_owned();
        let ghost gkey_licenses = key_licenses;
        let val_licenses = match &self.licenses {
            Some(s) => Json::Str(s.clone()),
            None => Json::Null,
        };
        let ghost gval_licenses = val_licenses;
        proof {
            assert(gval_licenses.model() == spec_enc_opt_str(self@.licenses));
        }
        fields.push((key_licenses, val_licenses));
        proof {
            lemma_view_fields_snoc(pre_licenses, gkey_licenses, gval_licenses);
        }
        let ghost pre_max_start_delay = fields@;
        let key_max_start_delay = "max_start_delay".to_owned();
        let ghost gkey_max_start_delay = key_max_start_delay;
        let val_max_start_delay = match self.max_start_delay {
            Some(i) => Json::Int(i),
            None => Json::Null,
        };
        let ghost gval_max_start_delay = val_max_start_delay;
        proof {
            assert(gval_max_start_delay.model() == spec_enc_opt_i64(self@.max_start_delay));
        }
        fields.push((key_max_start_delay, val_max_start_delay));
        proof {
            lemma_view_fields_snoc(pre_max_start_delay, gkey_max_start_delay, gval_max_start_delay);
        }
        let ghost pre_name = fields@;
        let key_name = "name".to_owned();
        let ghost gkey_name = key_name;
        let val_name = match &self.name {
            Some(s) => Json::Str(s.clone()),
            None => Json::Null,
        };
        let ghost gval_name = val_name;
        proof {
            assert(gval_name.model() == spec_enc_opt_str(self@.name));
        }
        fields.push((key_name, val_name));
        proof {
            lemma_view_fields_snoc(pre_name, gkey_name, gval_name);
        }
        let ghost pre_node_count = fields@;
        let key_node_count = "node_count".to_owned();
        let ghost gkey_node_count = key_node_count;
        let val_node_count = match self.node_count {
            Some(i) => Json::Int(i),
            None => Json::Null,
        };
        let ghost gval_node_count = val_node_count;
        proof {
            assert(gval_node_count.model() == spec_enc_opt_i64(self@.node_count));
        }
        fields.push((key_node_count, val_node_count));
        proof {
            lemma_view_fields_snoc(pre_node_count, gkey_node_count, gval_node_count);
        }
        let ghost pre_node_list = fields@;
        let key_node_list = "node_list".to_owned();
        let ghost gkey_node_list = key_node_list;
        let val_node_list = match &self.node_list {
            Some(s) => Json::Str(s.clone()),
            None => Json::Null,
        };
        let ghost gval_node_list = val_node_list;
        proof {
            assert(gval_node_list.model() == spec_enc_opt_str(self@.node_list));
        }
        fields.push((key_node_list, val_node_list));
        proof {
            lemma_view_fields_snoc(pre_node_list, gkey_node_list, gval_node_list);
        }
        let ghost pre_partition = fields@;
        let key_partition = "partition".to_owned();
        let ghost gkey_partition = key_partition;
        let val_partition = match &self.partition {
            Some(s) => Json::Str(s.clone()),
            None => Json::Null,
        };
        let ghost gval_partition = val_partition;
        proof {
            assert(gval_partition.model() == spec_enc_opt_str(self@.partition));
        }
        fields.push((key_partition, val_partition));
        proof {
            lemma_view_fields_snoc(pre_partition, gkey_partition, gval_partition);
        }
        let ghost pre_purge_completed = fields@;
        let key_purge_completed = "purge_completed".to_owned();
        let ghost gkey_purge_completed = key_purge_completed;
        let val_purge_completed = self.purge_completed.to_json();
        let ghost gval_purge_completed = val_purge_completed;
        proof {
            assert(gval_purge_completed.model() == spec_encode_reservation_purge_completed(self@.purge_completed));
        }
        fields.push((key_purge_completed, val_purge_completed));
        proof {
            lemma_view_fields_snoc(pre_purge_completed, gkey_purge_completed, gval_purge_completed);
        }
        let ghost pre_start_time = fields@;
        let key_start_time = "start_time".to_owned();
        let ghost gkey_start_time = key_start_time;
        let val_start_time = match self.start_time {
            Some(i) => Json::Int(i),
            None => Json::Null,
        };
        let ghost gval_start_time = val_start_time;
        proof {
            assert(gval_start_time.model() == spec_enc_opt_i64(self@.start_time));
        }
        fields.push((key_start_time, val_start_time));
        proof {
            lemma_view_fields_snoc(pre_start_time, gkey_start_time, gval_start_time);
        }
        let ghost pre_watts = fields@;
        let key_watts = "watts".to_owned();
        let ghost gkey_watts = key_watts;
        let val_watts = match self.watts {
            Some(i) => Json::Int(i),
            None => Json::Null,
        };
        let ghost gval_watts = val_watts;
        proof {
            assert(gval_watts.model() == spec_enc_opt_i64(self@.watts));
        }
        fields.push((key_watts, val_watts));
        proof {
            lemma_view_fields_snoc(pre_watts, gkey_watts, gval_watts);
        }
        let ghost pre_tres = fields@;
        let key_tres = "tres".to_owned();
        let ghost gkey_tres = key_tres;
        let val_tres = match &self.tres {
            Some(s) => Json::Str(s.clone()),
            None => Json::Null,
        };
        let ghost gval_tres = val_tres;
        proof {
            assert(gval_tres.model() == spec_enc_opt_str(self@.tres));
        }
        fields.push((key_tres, val_tres));
        proof {
            lemma_view_fields_snoc(pre_tres, gkey_tres, gval_tres);
        }
        let ghost pre_users = fields@;
        let key_users = "users".to_owned();
        let ghost gkey_users = key_users;
        let val_users = match &self.users {
            Some(s) => Json::Str(s.clone()),
            None => Json::Null,
        };
        let ghost gval_users = val_users;
        proof {
            assert(gval_users.model() == spec_enc_opt_str(self@.users));
        }
        fields.push((key_users, val_users));
        proof {
            lemma_view_fields_snoc(pre_users, gkey_users, gval_users);
        }
        let r = Json::Obj(fields);
        proof {
            assert(r@ == spec_encode_reservation(self@));
        }
        r
    }
}

/// The JSON object that one record encodes to.
pub open spec fn spec_encode_reservation(v: ReservationV) -> JsonV {
    JsonV::Obj(
        Seq::empty()
            .push(("accounts"@, spec_enc_opt_str(v.accounts)))
            .push(("burst_buffer"@, spec_enc_opt_str(v.burst_buffer)))
            .push(("core_count"@, spec_enc_opt_i64(v.core_count)))
            .push(("core_spec_cnt"@, spec_enc_opt_i64(v.core_spec_cnt)))
            .push(("end_time"@, spec_enc_opt_i64(v.end_time)))
            .push(("features"@, spec_enc_opt_str(v.features)))
            .push(("flags"@, JsonV::Arr(spec_encode_strs(v.flags))))
            .push(("groups"@, spec_enc_opt_str(v.groups)))
            .push(("licenses"@, spec_enc_opt_str(v.licenses)))
            .push(("max_start_delay"@, spec_enc_opt_i64(v.max_start_delay)))
            .push(("name"@, spec_enc_opt_str(v.name)))
            .push(("node_count"@, spec_enc_opt_i64(v.node_count)))
            .push(("node_list"@, spec_enc_opt_str(v.node_list)))
            .push(("partition"@, spec_enc_opt_str(v.partition)))
            .push(("purge_completed"@, spec_encode_reservation_purge_completed(v.purge_completed)))
            .push(("start_time"@, spec_enc_opt_i64(v.start_time)))
            .push(("watts"@, spec_enc_opt_i64(v.watts)))
            .push(("tres"@, spec_enc_opt_str(v.tres)))
            .push(("users"@, spec_enc_opt_str(v.users)))
    )
}

/// The value at each of a few keys of an encoded record.
#[verifier::rlimit(100)]
proof fn lemma_reservation_lookups_0(v: ReservationV)
    ensures
        lookup_fields(spec_encode_reservation(v)->Obj_0, "accounts"@) == Some(spec_enc_opt_str(v.accounts)),
        lookup_fields(spec_encode_reservation(v)->Obj_0, "burst_buffer"@) == Some(spec_enc_opt_str(v.burst_buffer)),
        lookup_fields(spec_encode_reservation(v)->Obj_0, "core_count"@) == Some(spec_enc_opt_i64(v.core_count)),
        lookup_fields(spec_encode_reservation(v)->Obj_0, "core_spec_cnt"@) == Some(spec_enc_opt_i64(v.core_spec_cnt)),
        lookup_fields(spec_encode_reservation(v)->Obj_0, "end_time"@) == Some(spec_enc_opt_i64(v.end_time)),
{
    reveal_strlit("accounts");
    reveal_strlit("burst_buffer");
    reveal_strlit("core_count");
    reveal_strlit("core_spec_cnt");
    reveal_strlit("end_time");
    reveal_strlit("features");
    reveal_strlit("flags");
    reveal_strlit("groups");
    reveal_strlit("licenses");
    reveal_strlit("max_start_delay");
    reveal_strlit("name");
    reveal_strlit("node_count");
    reveal_strlit("node_list");
    reveal_strlit("partition");
    reveal_strlit("purge_completed");
    reveal_strlit("start_time");
    reveal_strlit("tres");
    reveal_strlit("users");
    reveal_strlit("watts");
    assert("accounts"@.len() == 8);
    assert("burst_buffer"@.len() == 12);
    assert("core_count"@.len() == 10);
    assert("core_spec_cnt"@.len() == 13);
    assert("end_time"@.len() == 8);
    assert("features"@.len() == 8);
    assert("flags"@.len() == 5);
    assert("groups"@.len() == 6);
    assert("licenses"@.len() == 8);
    assert("max_start_delay"@.len() == 15);
    assert("name"@.len() == 4);
    assert("node_count"@.len() == 10);
    assert("node_list"@.len() == 9);
    assert("partition"@.len() == 9);
    assert("purge_completed"@.len() == 15);
    assert("start_time"@.len() == 10);
    assert("tres"@.len() == 4);
    assert("users"@.len() == 5);
    assert("watts"@.len() == 5);
    assert("accounts"@[0] == 'a');
    assert("end_time"@[0] == 'e');
    assert("accounts"@[0] == 'a');
    assert("features"@[0] == 'f');
    assert("accounts"@[0] == 'a');
    assert("licenses"@[0] == 'l');
    assert("core_count"@[0] == 'c');
    assert("node_count"@[0] == 'n');
    assert("core_count"@[0] == 'c');
    assert("start_time"@[0] == 's');
    assert("end_time"@[0] == 'e');
    assert("features"@[0] == 'f');
    assert("end_time"@[0] == 'e');
    assert("licenses"@[0] == 'l');
    assert("features"@[0] == 'f');
    assert("licenses"@[0] == 'l');
    assert("flags"@[0] == 'f');
    assert("users"@[0] == 'u');
    assert("flags"@[0] == 'f');
    assert("watts"@[0] == 'w');
    assert("max_start_delay"@[0] == 'm');
    assert("purge_completed"@[0] == 'p');
    assert("name"@[0] == 'n');
    assert("tres"@[0] == 't');
    assert("node_count"@[0] == 'n');
    assert("start_time"@[0] == 's');
    assert("node_list"@[0] == 'n');
    assert("partition"@[0] == 'p');
    assert("users"@[0] == 'u');
    assert("watts"@[0] == 'w');
    let fs0 = Seq::<(Seq<char>, JsonV)>::empty();
    lemma_lookup_fields_push_all(fs0, "accounts"@, spec_enc_opt_str(v.accounts));
    let fs1 = fs0.push(("accounts"@, spec_enc_opt_str(v.accounts)));
    lemma_lookup_fields_push_all(fs1, "burst_buffer"@, spec_enc_opt_str(v.burst_buffer));
    let fs2 = fs1.push(("burst_buffer"@, spec_enc_opt_str(v.burst_buffer)));
    lemma_lookup_fields_push_all(fs2, "core_count"@, spec_enc_opt_i64(v.core_count));
    let fs3 = fs2.push(("core_count"@, spec_enc_opt_i64(v.core_count)));
    lemma_lookup_fields_push_all(fs3, "core_spec_cnt"@, spec_enc_opt_i64(v.core_spec_cnt));
    let fs4 = fs3.push(("core_spec_cnt"@, spec_enc_opt_i64(v.core_spec_cnt)));
    lemma_lookup_fields_push_all(fs4, "end_time"@, spec_enc_opt_i64(v.end_time));
    let fs5 = fs4.push(("end_time"@, spec_enc_opt_i64(v.end_time)));
    lemma_lookup_fields_push_all(fs5, "features"@, spec_enc_opt_str(v.features));
    let fs6 = fs5.push(("features"@, spec_enc_opt_str(v.features)));
    lemma_lookup_fields_push_all(fs6, "flags"@, JsonV::Arr(spec_encode_strs(v.flags)));
    let fs7 = fs6.push(("flags"@, JsonV::Arr(spec_encode_strs(v.flags))));
    lemma_lookup_fields_push_all(fs7, "groups"@, spec_enc_opt_str(v.groups));
    let fs8 = fs7.push(("groups"@, spec_enc_opt_str(v.groups)));
    lemma_lookup_fields_push_all(fs8, "licenses"@, spec_enc_opt_str(v.licenses));
    let fs9 = fs8.push(("licenses"@, spec_enc_opt_str(v.licenses)));
    lemma_lookup_fields_push_all(fs9, "max_start_delay"@, spec_enc_opt_i64(v.max_start_delay));
    let fs10 = fs9.push(("max_start_delay"@, spec_enc_opt_i64(v.max_start_delay)));
    lemma_lookup_fields_push_all(fs10, "name"@, spec_enc_opt_str(v.name));
    let fs11 = fs10.push(("name"@, spec_enc_opt_str(v.name)));
    lemma_lookup_fields_push_all(fs11, "node_count"@, spec_enc_opt_i64(v.node_count));
    let fs12 = fs11.push(("node_count"@, spec_enc_opt_i64(v.node_count)));
    lemma_lookup_fields_push_all(fs12, "node_list"@, spec_enc_opt_str(v.node_list));
    let fs13 = fs12.push(("node_list"@, spec_enc_opt_str(v.node_list)));
    lemma_lookup_fields_push_all(fs13, "partition"@, spec_enc_opt_str(v.partition));
    let fs14 = fs13.push(("partition"@, spec_enc_opt_str(v.partition)));
    lemma_lookup_fields_push_all(fs14, "purge_completed"@, spec_encode_reservation_purge_completed(v.purge_completed));
    let fs15 = fs14.push(("purge_completed"@, spec_encode_reservation_purge_completed(v.purge_completed)));
    lemma_lookup_fields_push_all(fs15, "start_time"@, spec_enc_opt_i64(v.start_time));
    let fs16 = fs15.push(("start_time"@, spec_enc_opt_i64(v.start_time)));
    lemma_lookup_fields_push_all(fs16, "watts"@, spec_enc_opt_i64(v.watts));
    let fs17 = fs16.push(("watts"@, spec_enc_opt_i64(v.watts)));
    lemma_lookup_fields_push_all(fs17, "tres"@, spec_enc_opt_str(v.tres));
    let fs18 = fs17.push(("tres"@, spec_enc_opt_str(v.tres)));
    lemma_lookup_fields_push_all(fs18, "users"@, spec_enc_opt_str(v.users));
    let fs19 = fs18.push(("users"@, spec_enc_opt_str(v.users)));
    assert(spec_encode_reservation(v)->Obj_0 == fs19);
}

/// The value at each of a few keys of an encoded record.
#[verifier::rlimit(100)]
proof fn lemma_reservation_lookups_1(v: ReservationV)
    ensures
        lookup_fields(spec_encode_reservation(v)->Obj_0, "features"@) == Some(spec_enc_opt_str(v.features)),
        lookup_fields(spec_encode_reservation(v)->Obj_0, "flags"@) == Some(JsonV::Arr(spec_encode_strs(v.flags))),
        lookup_fields(spec_encode_reservation(v)->Obj_0, "groups"@) == Some(spec_enc_opt_str(v.groups)),
        lookup_fields(spec_encode_reservation(v)->Obj_0, "licenses"@) == Some(spec_enc_opt_str(v.licenses)),
        lookup_fields(spec_encode_reservation(v)->Obj_0, "max_start_delay"@) == Some(spec_enc_opt_i64(v.max_start_delay)),
{
    reveal_strlit("accounts");
    reveal_strlit("burst_buffer");
    reveal_strlit("core_count");
    reveal_strlit("core_spec_cnt");
    reveal_strlit("end_time");
    reveal_strlit("features");
    reveal_strlit("flags");
    reveal_strlit("groups");
    reveal_strlit("licenses");
    reveal_strlit("max_start_delay");
    reveal_strlit("name");
    reveal_strlit("node_count");
    reveal_strlit("node_list");
    reveal_strlit("partition");
    reveal_strlit("purge_completed");
    reveal_strlit("start_time");
    reveal_strlit("tres");
    reveal_strlit("users");
    reveal_strlit("watts");
    assert("accounts"@.len() == 8);
    assert("burst_buffer"@.len() == 12);
    assert("core_count"@.len() == 10);
    assert("core_spec_cnt"@.len() == 13);
    assert("end_time"@.len() == 8);
    assert("features"@.len() == 8);
    assert("flags"@.len() == 5);
    assert("groups"@.len() == 6);
    assert("licenses"@.len() == 8);
    assert("max_start_delay"@.len() == 15);
    assert("name"@.len() == 4);
    assert("node_count"@.len() == 10);
    assert("node_list"@.len() == 9);
    assert("partition"@.len() == 9);
    assert("purge_completed"@.len() == 15);
    assert("start_time"@.len() == 10);
    assert("tres"@.len() == 4);
    assert("users"@.len() == 5);
    assert("watts"@.len() == 5);
    assert("accounts"@[0] == 'a');
    assert("end_time"@[0] == 'e');
    assert("accounts"@[0] == 'a');
    assert("features"@[0] == 'f');
    assert("accounts"@[0] == 'a');
    assert("licenses"@[0] == 'l');
    assert("core_count"@[0] == 'c');
    assert("node_count"@[0] == 'n');
    assert("core_count"@[0] == 'c');
    assert("start_time"@[0] == 's');
    assert("end_time"@[0] == 'e');
    assert("features"@[0] == 'f');
    assert("end_time"@[0] == 'e');
    assert("licenses"@[0] == 'l');
    assert("features"@[0] == 'f');
    assert("licenses"@[0] == 'l');
    assert("flags"@[0] == 'f');
    assert("users"@[0] == 'u');
    assert("flags"@[0] == 'f');
    assert("watts"@[0] == 'w');
    assert("max_start_delay"@[0] == 'm');
    assert("purge_completed"@[0] == 'p');
    assert("name"@[0] == 'n');
    assert("tres"@[0] == 't');
    assert("node_count"@[0] == 'n');
    assert("start_time"@[0] == 's');
    assert("node_list"@[0] == 'n');
    assert("partition"@[0] == 'p');
    assert("users"@[0] == 'u');
    assert("watts"@[0] == 'w');
    let fs0 = Seq::<(Seq<char>, JsonV)>::empty();
    lemma_lookup_fields_push_all(fs0, "accounts"@, spec_enc_opt_str(v.accounts));
    let fs1 = fs0.push(("accounts"@, spec_enc_opt_str(v.accounts)));
    lemma_lookup_fields_push_all(fs1, "burst_buffer"@, spec_enc_opt_str(v.burst_buffer));
    let fs2 = fs1.push(("burst_buffer"@, spec_enc_opt_str(v.burst_buffer)));
    lemma_lookup_fields_push_all(fs2, "core_count"@, spec_enc_opt_i64(v.core_count));
    let fs3 = fs2.push(("core_count"@, spec_enc_opt_i64(v.core_count)));
    lemma_lookup_fields_push_all(fs3, "core_spec_cnt"@, spec_enc_opt_i64(v.core_spec_cnt));
    let fs4 = fs3.push(("core_spec_cnt"@, spec_enc_opt_i64(v.core_spec_cnt)));
    lemma_lookup_fields_push_all(fs4, "end_time"@, spec_enc_opt_i64(v.end_time));
    let fs5 = fs4.push(("end_time"@, spec_enc_opt_i64(v.end_time)));
    lemma_lookup_fields_push_all(fs5, "features"@, spec_enc_opt_str(v.features));
    let fs6 = fs5.push(("features"@, spec_enc_opt_str(v.features)));
    lemma_lookup_fields_push_all(fs6, "flags"@, JsonV::Arr(spec_encode_strs(v.flags)));
    let fs7 = fs6.push(("flags"@, JsonV::Arr(spec_encode_strs(v.flags))));
    lemma_lookup_fields_push_all(fs7, "groups"@, spec_enc_opt_str(v.groups));
    let fs8 = fs7.push(("groups"@, spec_enc_opt_str(v.groups)));
    lemma_lookup_fields_push_all(fs8, "licenses"@, spec_enc_opt_str(v.licenses));
    let fs9 = fs8.push(("licenses"@, spec_enc_opt_str(v.licenses)));
    lemma_lookup_fields_push_all(fs9, "max_start_delay"@, spec_enc_opt_i64(v.max_start_delay));
    let fs10 = fs9.push(("max_start_delay"@, spec_enc_opt_i64(v.max_start_delay)));
    lemma_lookup_fields_push_all(fs10, "name"@, spec_enc_opt_str(v.name));
    let fs11 = fs10.push(("name"@, spec_enc_opt_str(v.name)));
    lemma_lookup_fields_push_all(fs11, "node_count"@, spec_enc_opt_i64(v.node_count));
    let fs12 = fs11.push(("node_count"@, spec_enc_opt_i64(v.node_count)));
    lemma_lookup_fields_push_all(fs12, "node_list"@, spec_enc_opt_str(v.node_list));
    let fs13 = fs12.push(("node_list"@, spec_enc_opt_str(v.node_list)));
    lemma_lookup_fields_push_all(fs13, "partition"@, spec_enc_opt_str(v.partition));
    let fs14 = fs13.push(("partition"@, spec_enc_opt_str(v.partition)));
    lemma_lookup_fields_push_all(fs14, "purge_completed"@, spec_encode_reservation_purge_completed(v.purge_completed));
    let fs15 = fs14.push(("purge_completed"@, spec_encode_reservation_purge_completed(v.purge_completed)));
    lemma_lookup_fields_push_all(fs15, "start_time"@, spec_enc_opt_i64(v.start_time));
    let fs16 = fs15.push(("start_time"@, spec_enc_opt_i64(v.start_time)));
    lemma_lookup_fields_push_all(fs16, "watts"@, spec_enc_opt_i64(v.watts));
    let fs17 = fs16.push(("watts"@, spec_enc_opt_i64(v.watts)));
    lemma_lookup_fields_push_all(fs17, "tres"@, spec_enc_opt_str(v.tres));
    let fs18 = fs17.push(("tres"@, spec_enc_opt_str(v.tres)));
    lemma_lookup_fields_push_all(fs18, "users"@, spec_enc_opt_str(v.users));
    let fs19 = fs18.push(("users"@, spec_enc_opt_str(v.users)));
    assert(spec_encode_reservation(v)->Obj_0 == fs19);
}

/// The value at each of a few keys of an encoded record.
#[verifier::rlimit(100)]
proof fn lemma_reservation_lookups_2(v: ReservationV)
    ensures
        lookup_fields(spec_encode_reservation(v)->Obj_0, "name"@) == Some(spec_enc_opt_str(v.name)),
        lookup_fields(spec_encode_reservation(v)->Obj_0, "node_count"@) == Some(spec_enc_opt_i64(v.node_count)),
        lookup_fields(spec_encode_reservation(v)->Obj_0, "node_list"@) == Some(spec_enc_opt_str(v.node_list)),
        lookup_fields(spec_encode_reservation(v)->Obj_0, "partition"@) == Some(spec_enc_opt_str(v.partition)),
        lookup_fields(spec_encode_reservation(v)->Obj_0, "purge_completed"@) == Some(spec_encode_reservation_purge_completed(v.purge_completed)),
{
    reveal_strlit("accounts");
    reveal_strlit("burst_buffer");
    reveal_strlit("core_count");
    reveal_strlit("core_spec_cnt");
    reveal_strlit("end_time");
    reveal_strlit("features");
    reveal_strlit("flags");
    reveal_strlit("groups");
    reveal_strlit("licenses");
    reveal_strlit("max_start_delay");
    reveal_strlit("name");
    reveal_strlit("node_count");
    reveal_strlit("node_list");
    reveal_strlit("partition");
    reveal_strlit("purge_completed");
    reveal_strlit("start_time");
    reveal_strlit("tres");
    reveal_strlit("users");
    reveal_strlit("watts");
    assert("accounts"@.len() == 8);
    assert("burst_buffer"@.len() == 12);
    assert("core_count"@.len() == 10);
    assert("core_spec_cnt"@.len() == 13);
    assert("end_time"@.len() == 8);
    assert("features"@.len() == 8);
    assert("flags"@.len() == 5);
    assert("groups"@.len() == 6);
    assert("licenses"@.len() == 8);
    assert("max_start_delay"@.len() == 15);
    assert("name"@.len() == 4);
    assert("node_count"@.len() == 10);
    assert("node_list"@.len() == 9);
    assert("partition"@.len() == 9);
    assert("purge_completed"@.len() == 15);
    assert("start_time"@.len() == 10);
    assert("tres"@.len() == 4);
    assert("users"@.len() == 5);
    assert("watts"@.len() == 5);
    assert("accounts"@[0] == 'a');
    assert("end_time"@[0] == 'e');
    assert("accounts"@[0] == 'a');
    assert("features"@[0] == 'f');
    assert("accounts"@[0] == 'a');
    assert("licenses"@[0] == 'l');
    assert("core_count"@[0] == 'c');
    assert("node_count"@[0] == 'n');
    assert("core_count"@[0] == 'c');
    assert("start_time"@[0] == 's');
    assert("end_time"@[0] == 'e');
    assert("features"@[0] == 'f');
    assert("end_time"@[0] == 'e');
    assert("licenses"@[0] == 'l');
    assert("features"@[0] == 'f');
    assert("licenses"@[0] == 'l');
    assert("flags"@[0] == 'f');
    assert("users"@[0] == 'u');
    assert("flags"@[0] == 'f');
    assert("watts"@[0] == 'w');
    assert("max_start_delay"@[0] == 'm');
    assert("purge_completed"@[0] == 'p');
    assert("name"@[0] == 'n');
    assert("tres"@[0] == 't');
    assert("node_count"@[0] == 'n');
    assert("start_time"@[0] == 's');
    assert("node_list"@[0] == 'n');
    assert("partition"@[0] == 'p');
    assert("users"@[0] == 'u');
    assert("watts"@[0] == 'w');
    let fs0 = Seq::<(Seq<char>, JsonV)>::empty();
    lemma_lookup_fields_push_all(fs0, "accounts"@, spec_enc_opt_str(v.accounts));
    let fs1 = fs0.push(("accounts"@, spec_enc_opt_str(v.accounts)));
    lemma_lookup_fields_push_all(fs1, "burst_buffer"@, spec_enc_opt_str(v.burst_buffer));
    let fs2 = fs1.push(("burst_buffer"@, spec_enc_opt_str(v.burst_buffer)));
    lemma_lookup_fields_push_all(fs2, "core_count"@, spec_enc_opt_i64(v.core_count));
    let fs3 = fs2.push(("core_count"@, spec_enc_opt_i64(v.core_count)));
    lemma_lookup_fields_push_all(fs3, "core_spec_cnt"@, spec_enc_opt_i64(v.core_spec_cnt));
    let fs4 = fs3.push(("core_spec_cnt"@, spec_enc_opt_i64(v.core_spec_cnt)));
    lemma_lookup_fields_push_all(fs4, "end_time"@, spec_enc_opt_i64(v.end_time));
    let fs5 = fs4.push(("end_time"@, spec_enc_opt_i64(v.end_time)));
    lemma_lookup_fields_push_all(fs5, "features"@, spec_enc_opt_str(v.features));
    let fs6 = fs5.push(("features"@, spec_enc_opt_str(v.features)));
    lemma_lookup_fields_push_all(fs6, "flags"@, JsonV::Arr(spec_encode_strs(v.flags)));
    let fs7 = fs6.push(("flags"@, JsonV::Arr(spec_encode_strs(v.flags))));
    lemma_lookup_fields_push_all(fs7, "groups"@, spec_enc_opt_str(v.groups));
    let fs8 = fs7.push(("groups"@, spec_enc_opt_str(v.groups)));
    lemma_lookup_fields_push_all(fs8, "licenses"@, spec_enc_opt_str(v.licenses));
    let fs9 = fs8.push(("licenses"@, spec_enc_opt_str(v.licenses)));
    lemma_lookup_fields_push_all(fs9, "max_start_delay"@, spec_enc_opt_i64(v.max_start_delay));
    let fs10 = fs9.push(("max_start_delay"@, spec_enc_opt_i64(v.max_start_delay)));
    lemma_lookup_fields_push_all(fs10, "name"@, spec_enc_opt_str(v.name));
    let fs11 = fs10.push(("name"@, spec_enc_opt_str(v.name)));
    lemma_lookup_fields_push_all(fs11, "node_count"@, spec_enc_opt_i64(v.node_count));
    let fs12 = fs11.push(("node_count"@, spec_enc_opt_i64(v.node_count)));
    lemma_lookup_fields_push_all(fs12, "node_list"@, spec_enc_opt_str(v.node_list));
    let fs13 = fs12.push(("node_list"@, spec_enc_opt_str(v.node_list)));
    lemma_lookup_fields_push_all(fs13, "partition"@, spec_enc_opt_str(v.partition));
    let fs14 = fs13.push(("partition"@, spec_enc_opt_str(v.partition)));
    lemma_lookup_fields_push_all(fs14, "purge_completed"@, spec_encode_reservation_purge_completed(v.purge_completed));
    let fs15 = fs14.push(("purge_completed"@, spec_encode_reservation_purge_completed(v.purge_completed)));
    lemma_lookup_fields_push_all(fs15, "start_time"@, spec_enc_opt_i64(v.start_time));
    let fs16 = fs15.push(("start_time"@, spec_enc_opt_i64(v.start_time)));
    lemma_lookup_fields_push_all(fs16, "watts"@, spec_enc_opt_i64(v.watts));
    let fs17 = fs16.push(("watts"@, spec_enc_opt_i64(v.watts)));
    lemma_lookup_fields_push_all(fs17, "tres"@, spec_enc_opt_str(v.tres));
    let fs18 = fs17.push(("tres"@, spec_enc_opt_str(v.tres)));
    lemma_lookup_fields_push_all(fs18, "users"@, spec_enc_opt_str(v.users));
    let fs19 = fs18.push(("users"@, spec_enc_opt_str(v.users)));
    assert(spec_encode_reservation(v)->Obj_0 == fs19);
}

/// The value at each of a few keys of an encoded record.
#[verifier::rlimit(100)]
proof fn lemma_reservation_lookups_3(v: ReservationV)
    ensures
        lookup_fields(spec_encode_reservation(v)->Obj_0, "start_time"@) == Some(spec_enc_opt_i64(v.start_time)),
        lookup_fields(spec_encode_reservation(v)->Obj_0, "watts"@) == Some(spec_enc_opt_i64(v.watts)),
        lookup_fields(spec_encode_reservation(v)->Obj_0, "tres"@) == Some(spec_enc_opt_str(v.tres)),
        lookup_fields(spec_encode_reservation(v)->Obj_0, "users"@) == Some(spec_enc_opt_str(v.users)),
{
    reveal_strlit("accounts");
    reveal_strlit("burst_buffer");
    reveal_strlit("core_count");
    reveal_strlit("core_spec_cnt");
    reveal_strlit("end_time");
    reveal_strlit("features");
    reveal_strlit("flags");
    reveal_strlit("groups");
    reveal_strlit("licenses");
    reveal_strlit("max_start_delay");
    reveal_strlit("name");
    reveal_strlit("node_count");
    reveal_strlit("node_list");
    reveal_strlit("partition");
    reveal_strlit("purge_completed");
    reveal_strlit("start_time");
    reveal_strlit("tres");
    reveal_strlit("users");
    reveal_strlit("watts");
    assert("accounts"@.len() == 8);
    assert("burst_buffer"@.len() == 12);
    assert("core_count"@.len() == 10);
    assert("core_spec_cnt"@.len() == 13);
    assert("end_time"@.len() == 8);
    assert("features"@.len() == 8);
    assert("flags"@.len() == 5);
    assert("groups"@.len() == 6);
    assert("licenses"@.len() == 8);
    assert("max_start_delay"@.len() == 15);
    assert("name"@.len() == 4);
    assert("node_count"@.len() == 10);
    assert("node_list"@.len() == 9);
    assert("partition"@.len() == 9);
    assert("purge_completed"@.len() == 15);
    assert("start_time"@.len() == 10);
    assert("tres"@.len() == 4);
    assert("users"@.len() == 5);
    assert("watts"@.len() == 5);
    assert("accounts"@[0] == 'a');
    assert("end_time"@[0] == 'e');
    assert("accounts"@[0] == 'a');
    assert("features"@[0] == 'f');
    assert("accounts"@[0] == 'a');
    assert("licenses"@[0] == 'l');
    assert("core_count"@[0] == 'c');
    assert("node_count"@[0] == 'n');
    assert("core_count"@[0] == 'c');
    assert("start_time"@[0] == 's');
    assert("end_time"@[0] == 'e');
    assert("features"@[0] == 'f');
    assert("end_time"@[0] == 'e');
    assert("licenses"@[0] == 'l');
    assert("features"@[0] == 'f');
    assert("licenses"@[0] == 'l');
    assert("flags"@[0] == 'f');
    assert("users"@[0] == 'u');
    assert("flags"@[0] == 'f');
    assert("watts"@[0] == 'w');
    assert("max_start_delay"@[0] == 'm');
    assert("purge_completed"@[0] == 'p');
    assert("name"@[0] == 'n');
    assert("tres"@[0] == 't');
    assert("node_count"@[0] == 'n');
    assert("start_time"@[0] == 's');
    assert("node_list"@[0] == 'n');
    assert("partition"@[0] == 'p');
    assert("users"@[0] == 'u');
    assert("watts"@[0] == 'w');
    let fs0 = Seq::<(Seq<char>, JsonV)>::empty();
    lemma_lookup_fields_push_all(fs0, "accounts"@, spec_enc_opt_str(v.accounts));
    let fs1 = fs0.push(("accounts"@, spec_enc_opt_str(v.accounts)));
    lemma_lookup_fields_push_all(fs1, "burst_buffer"@, spec_enc_opt_str(v.burst_buffer));
    let fs2 = fs1.push(("burst_buffer"@, spec_enc_opt_str(v.burst_buffer)));
    lemma_lookup_fields_push_all(fs2, "core_count"@, spec_enc_opt_i64(v.core_count));
    let fs3 = fs2.push(("core_count"@, spec_enc_opt_i64(v.core_count)));
    lemma_lookup_fields_push_all(fs3, "core_spec_cnt"@, spec_enc_opt_i64(v.core_spec_cnt));
    let fs4 = fs3.push(("core_spec_cnt"@, spec_enc_opt_i64(v.core_spec_cnt)));
    lemma_lookup_fields_push_all(fs4, "end_time"@, spec_enc_opt_i64(v.end_time));
    let fs5 = fs4.push(("end_time"@, spec_enc_opt_i64(v.end_time)));
    lemma_lookup_fields_push_all(fs5, "features"@, spec_enc_opt_str(v.features));
    let fs6 = fs5.push(("features"@, spec_enc_opt_str(v.features)));
    lemma_lookup_fields_push_all(fs6, "flags"@, JsonV::Arr(spec_encode_strs(v.flags)));
    let fs7 = fs6.push(("flags"@, JsonV::Arr(spec_encode_strs(v.flags))));
    lemma_lookup_fields_push_all(fs7, "groups"@, spec_enc_opt_str(v.groups));
    let fs8 = fs7.push(("groups"@, spec_enc_opt_str(v.groups)));
    lemma_lookup_fields_push_all(fs8, "licenses"@, spec_enc_opt_str(v.licenses));
    let fs9 = fs8.push(("licenses"@, spec_enc_opt_str(v.licenses)));
    lemma_lookup_fields_push_all(fs9, "max_start_delay"@, spec_enc_opt_i64(v.max_start_delay));
    let fs10 = fs9.push(("max_start_delay"@, spec_enc_opt_i64(v.max_start_delay)));
    lemma_lookup_fields_push_all(fs10, "name"@, spec_enc_opt_str(v.name));
    let fs11 = fs10.push(("name"@, spec_enc_opt_str(v.name)));
    lemma_lookup_fields_push_all(fs11, "node_count"@, spec_enc_opt_i64(v.node_count));
    let fs12 = fs11.push(("node_count"@, spec_enc_opt_i64(v.node_count)));
    lemma_lookup_fields_push_all(fs12, "node_list"@, spec_enc_opt_str(v.node_list));
    let fs13 = fs12.push(("node_list"@, spec_enc_opt_str(v.node_list)));
    lemma_lookup_fields_push_all(fs13, "partition"@, spec_enc_opt_str(v.partition));
    let fs14 = fs13.push(("partition"@, spec_enc_opt_str(v.partition)));
    lemma_lookup_fields_push_all(fs14, "purge_completed"@, spec_encode_reservation_purge_completed(v.purge_completed));
    let fs15 = fs14.push(("purge_completed"@, spec_encode_reservation_purge_completed(v.purge_completed)));
    lemma_lookup_fields_push_all(fs15, "start_time"@, spec_enc_opt_i64(v.start_time));
    let fs16 = fs15.push(("start_time"@, spec_enc_opt_i64(v.start_time)));
    lemma_lookup_fields_push_all(fs16, "watts"@, spec_enc_opt_i64(v.watts));
    let fs17 = fs16.push(("watts"@, spec_enc_opt_i64(v.watts)));
    lemma_lookup_fields_push_all(fs17, "tres"@, spec_enc_opt_str(v.tres));
    let fs18 = fs17.push(("tres"@, spec_enc_opt_str(v.tres)));
    lemma_lookup_fields_push_all(fs18, "users"@, spec_enc_opt_str(v.users));
    let fs19 = fs18.push(("users"@, spec_enc_opt_str(v.users)));
    assert(spec_encode_reservation(v)->Obj_0 == fs19);
}

/// The decoded value of each of a few fields of an encoded
/// record.
#[verifier::rlimit(100)]
proof fn lemma_reservation_fields_0(v: ReservationV)
    ensures
        spec_opt_str_field(spec_encode_reservation(v), "accounts"@) == Some(v.accounts),
        spec_opt_str_field(spec_encode_reservation(v), "burst_buffer"@) == Some(v.burst_buffer),
        spec_opt_i64_field(spec_encode_reservation(v), "core_count"@) == Some(v.core_count),
        spec_opt_i64_field(spec_encode_reservation(v), "core_spec_cnt"@) == Some(v.core_spec_cnt),
        spec_opt_i64_field(spec_encode_reservation(v), "end_time"@) == Some(v.end_time),
{
    lemma_reservation_lookups_0(v);
}

/// The decoded value of each of a few fields of an encoded
/// record.
#[verifier::rlimit(100)]
proof fn lemma_reservation_fields_1(v: ReservationV)
    ensures
        spec_opt_str_field(spec_encode_reservation(v), "features"@) == Some(v.features),
        spec_str_list_field(spec_encode_reservation(v), "flags"@) == Some(v.flags),
        spec_opt_str_field(spec_encode_reservation(v), "groups"@) == Some(v.groups),
        spec_opt_str_field(spec_encode_reservation(v), "licenses"@) == Some(v.licenses),
        spec_opt_i64_field(spec_encode_reservation(v), "max_start_delay"@) == Some(v.max_start_delay),
{
    lemma_reservation_lookups_1(v);
    lemma_strs_round_trip(v.flags);
}

/// The decoded value of each of a few fields of an encoded
/// record.
#[verifier::rlimit(100)]
proof fn lemma_reservation_fields_2(v: ReservationV)
    ensures
        spec_opt_str_field(spec_encode_reservation(v), "name"@) == Some(v.name),
        spec_opt_i64_field(spec_encode_reservation(v), "node_count"@) == Some(v.node_count),
        spec_opt_str_field(spec_encode_reservation(v), "node_list"@) == Some(v.node_list),
        spec_opt_str_field(spec_encode_reservation(v), "partition"@) == Some(v.partition),
        spec_reservation_purge_completed_field(spec_encode_reservation(v)) == Some(v.purge_completed),
{
    lemma_reservation_lookups_2(v);
    lemma_reservation_purge_completed_round_trip(v.purge_completed);
}

/// The decoded value of each of a few fields of an encoded
/// record.
#[verifier::rlimit(100)]
proof fn lemma_reservation_fields_3(v: ReservationV)
    ensures
        spec_opt_i64_field(spec_encode_reservation(v), "start_time"@) == Some(v.start_time),
        spec_opt_i64_field(spec_encode_reservation(v), "watts"@) == Some(v.watts),
        spec_opt_str_field(spec_encode_reservation(v), "tres"@) == Some(v.tres),
        spec_opt_str_field(spec_encode_reservation(v), "users"@) == Some(v.users),
{
    lemma_reservation_lookups_3(v);
}

/// Encoding one record and decoding the result gives the record
/// back.
#[verifier::rlimit(100)]
pub proof fn lemma_reservation_round_trip(v: ReservationV)
    ensures
        spec_decode_reservation(spec_encode_reservation(v)) == Some(v),
{
    lemma_reservation_fields_0(v);
    lemma_reservation_fields_1(v);
    lemma_reservation_fields_2(v);
    lemma_reservation_fields_3(v);
    assert(spec_decode_reservation(spec_encode_reservation(v)) == Some(v)) by {
    }
}
/// The models of a sequence of reservations, or nothing when some
/// element does not decode.
pub open spec fn spec_decode_reservation_seq(items: Seq<JsonV>) -> Option<Seq<ReservationV>>
    decreases items.len(),
{
    if items.len() == 0 {
        Some(Seq::empty())
    } else {
        match (spec_decode_reservation_seq(items.drop_last()), spec_decode_reservation(items.last())) {
            (Option::Some(rest), Option::Some(x)) => Some(rest.push(x)),
            _ => None,
        }
    }
}

/// A sequence with an element that does not decode has no decoding
/// as a whole.
proof fn lemma_decode_reservation_seq_none(items: Seq<JsonV>, i: int)
    requires
        0 <= i < items.len(),
        spec_decode_reservation(items[i]) is None,
    ensures
        spec_decode_reservation_seq(items) is None,
    decreases items.len(),
{
    if i < items.len() - 1 {
        lemma_decode_reservation_seq_none(items.drop_last(), i);
    }
}

/// The models of each record of `v`, in order.
pub open spec fn reservations_view(v: Seq<Reservation>) -> Seq<ReservationV>
    decreases v.len(),
{
    if v.len() == 0 {
        Seq::empty()
    } else {
        reservations_view(v.drop_last()).push(v.last()@)
    }
}
/// The `reservation` field of the envelope: the empty list when absent,
/// its records when an array of objects, and nothing on a schema
/// mismatch.
pub open spec fn spec_reservations_field(j: JsonV) -> Option<Seq<ReservationV>> {
    match spec_lookup(j, "reservation"@) {
        Option::None => Some(Seq::empty()),
        Option::Some(JsonV::Arr(items)) => spec_decode_reservation_seq(items),
        Option::Some(_) => None,
    }
}

/// Read the `reservation` field of the envelope, defaulting to the empty
/// list.
fn reservations_from_envelope(j: &Json) -> (r: Result<Vec<Reservation>, JsonError>)
    ensures
        match r {
            Ok(v) => spec_reservations_field(j@) == Some(reservations_view(v@)),
            Err(_) => spec_reservations_field(j@) is None,
        },
{
    match j.lookup("reservation") {
        None => {
            let out: Vec<Reservation> = Vec::new();
            Ok(out)
        },
        Some(v) => match v {
            Json::Arr(items) => {
                let ghost vs = v@->Arr_0;
                proof {
                    crate::json::lemma_view_seq_elts(items@);
                }
                let mut out: Vec<Reservation> = Vec::new();
                let mut idx: usize = 0;
                while idx < items.len()
                    invariant
                        idx <= items.len(),
                        spec_lookup(j@, "reservation"@) == Some(v@),
                        v@ == JsonV::Arr(vs),
                        vs.len() == items@.len(),
                        forall|i: int| 0 <= i < vs.len() ==> vs[i] == items@[i].model(),
                        spec_decode_reservation_seq(vs.take(idx as int)) == Some(reservations_view(out@)),
                    decreases items@.len() - idx,
                {
                    match Reservation::from_json(&items[idx]) {
                        Ok(e) => {
                            let ghost out_pre = out@;
                            out.push(e);
                            proof {
                                assert(out@.drop_last() =~= out_pre);
                            }
                        },
                        Err(err) => {
                            proof {
                                lemma_decode_reservation_seq_none(vs, idx as int);
                            }
                            return Err(err);
                        },
                    }
                    idx = idx + 1;
                    assert(vs.take(idx as int).drop_last() =~= vs.take(idx as int - 1));
                }
                proof {
                    assert(vs.take(vs.len() as int) =~= vs);
                }
                Ok(out)
            },
            _ => Err(JsonError::new()),
        },
    }
}
/// The reservation endpoints' response envelope.
#[derive(Debug, Clone, PartialEq)]
pub struct ReservationsResponse {
    pub meta: Meta,
    pub errors: Vec<Error>,
    pub reservation: Vec<Reservation>,
}

/// The model of [`ReservationsResponse`].
pub struct ReservationsResponseV {
    pub meta: MetaV,
    pub errors: Seq<ErrorV>,
    pub reservation: Seq<ReservationV>,
}

impl View for ReservationsResponse {
    type V = ReservationsResponseV;

    open spec fn view(&self) -> ReservationsResponseV {
        ReservationsResponseV {
            meta: self.meta@,
            errors: errors_view(self.errors@),
            reservation: reservations_view(self.reservation@),
        }
    }
}

/// What the whole envelope decodes from, or nothing on a schema
/// mismatch; absent parts decode to empty values.
pub open spec fn spec_decode_reservations_response(j: JsonV) -> Option<ReservationsResponseV> {
    if !(j is Obj) {
        None
    } else if spec_meta_field(j) is None {
        None
    } else if spec_errors_field(j) is None {
        None
    } else if spec_reservations_field(j) is None {
        None
    } else {
        Some(
            ReservationsResponseV {
                meta: spec_meta_field(j).unwrap(),
                errors: spec_errors_field(j).unwrap(),
                reservation: spec_reservations_field(j).unwrap(),
            },
        )
    }
}

impl ReservationsResponse {
    /// Read the whole envelope out of a JSON object.
    pub fn from_json(j: &Json) -> (r: Result<ReservationsResponse, JsonError>)
        ensures
            match r {
                Ok(v) => spec_decode_reservations_response(j@) == Some(v@),
                Err(_) => spec_decode_reservations_response(j@) is None,
            },
    {
        if !j.is_obj() {
            return Err(JsonError::new());
        }
        let meta = Meta::from_envelope(j)?;
        let errors = errors_from_envelope(j)?;
        let reservation = reservations_from_envelope(j)?;
        Ok(ReservationsResponse { meta, errors, reservation })
    }

    /// Turn one HTTP answer into a typed result: any status other
    /// than 200 is a protocol error carrying the status and the raw
    /// body, and the body of a 200 answer is parsed and decoded.
    pub fn from_http(status: u16, body: &str) -> (r: Result<ReservationsResponse, ClientError>)
        ensures
            status != 200 ==> match r {
                Err(ClientError::Protocol { status: s, body: b }) => s == status && b@ == body@,
                _ => false,
            },
            status == 200 ==> match spec_parse_json(body@) {
                Option::None => r == Err::<ReservationsResponse, ClientError>(ClientError::Decode),
                Option::Some(doc) => match spec_decode_reservations_response(doc) {
                    Option::Some(p) => match r {
                        Ok(v) => v@ == p,
                        Err(_) => false,
                    },
                    Option::None => r == Err::<ReservationsResponse, ClientError>(ClientError::Decode),
                },
            },
    {
        if status != 200 {
            return Err(ClientError::Protocol { status, body: body.to_owned() });
        }
        match parse_json(body) {
            None => Err(ClientError::Decode),
            Some(doc) => match ReservationsResponse::from_json(&doc) {
                Ok(p) => Ok(p),
                Err(_) => Err(ClientError::Decode),
            },
        }
    }
}
} // verus!
