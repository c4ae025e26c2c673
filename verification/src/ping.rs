//! The `ping` endpoint's response: liveness of the controller daemons.
use vstd::prelude::*;

use crate::error::ClientError;
use crate::json::{
    parse_json, spec_i32_field, spec_lookup, spec_parse_json, spec_str_field, Json, JsonError,
    JsonV,
};
use crate::meta::{
    errors_from_envelope, errors_view, spec_errors_field, spec_meta_field, Error, ErrorV, Meta,
    MetaV,
};

verus! {

/// The liveness report of one controller daemon.
#[derive(Debug, Clone, PartialEq)]
pub struct Ping {
    pub hostname: String,
    pub ping: String,
    pub mode: String,
    pub status: i32,
}

/// The model of [`Ping`].
pub struct PingV {
    pub hostname: Seq<char>,
    pub ping: Seq<char>,
    pub mode: Seq<char>,
    pub status: i32,
}

impl View for Ping {
    type V = PingV;

    open spec fn view(&self) -> PingV {
        PingV {
            hostname: self.hostname@,
            ping: self.ping@,
            mode: self.mode@,
            status: self.status,
        }
    }
}

/// What one liveness report decodes from, or nothing on a schema
/// mismatch.
pub open spec fn spec_decode_ping(j: JsonV) -> Option<PingV> {
    if !(j is Obj) {
        None
    } else if spec_str_field(j, "hostname"@) is None {
        None
    } else if spec_str_field(j, "ping"@) is None {
        None
    } else if spec_str_field(j, "mode"@) is None {
        None
    } else if spec_i32_field(j, "status"@) is None {
        None
    } else {
        Some(
            PingV {
                hostname: spec_str_field(j, "hostname"@).unwrap(),
                ping: spec_str_field(j, "ping"@).unwrap(),
                mode: spec_str_field(j, "mode"@).unwrap(),
                status: spec_i32_field(j, "status"@).unwrap(),
            },
        )
    }
}

impl Ping {
    /// Read one liveness report out of a JSON object.
    pub fn from_json(j: &Json) -> (r: Result<Ping, JsonError>)
        ensures
            match r {
                Ok(v) => spec_decode_ping(j@) == Some(v@),
                Err(_) => spec_decode_ping(j@) is None,
            },
    {
        if !j.is_obj() {
            return Err(JsonError::new());
        }
        let hostname = j.get_str("hostname")?;
        let ping = j.get_str("ping")?;
        let mode = j.get_str("mode")?;
        let status = j.get_i32("status")?;
        Ok(Ping { hostname, ping, mode, status })
    }
}

/// The models of a sequence of liveness reports, or nothing when some
/// element does not decode.
pub open spec fn spec_decode_ping_seq(items: Seq<JsonV>) -> Option<Seq<PingV>>
    decreases items.len(),
{
    if items.len() == 0 {
        Some(Seq::empty())
    } else {
        match (spec_decode_ping_seq(items.drop_last()), spec_decode_ping(items.last())) {
            (Option::Some(rest), Option::Some(x)) => Some(rest.push(x)),
            _ => None,
        }
    }
}

/// A sequence with an element that does not decode as a liveness report
/// has no decoding as a whole.
proof fn lemma_decode_ping_seq_none(items: Seq<JsonV>, i: int)
    requires
        0 <= i < items.len(),
        spec_decode_ping(items[i]) is None,
    ensures
        spec_decode_ping_seq(items) is None,
    decreases items.len(),
{
    if i < items.len() - 1 {
        lemma_decode_ping_seq_none(items.drop_last(), i);
    }
}

/// The models of each report of `v`, in order.
pub open spec fn pings_view(v: Seq<Ping>) -> Seq<PingV>
    decreases v.len(),
{
    if v.len() == 0 {
        Seq::empty()
    } else {
        pings_view(v.drop_last()).push(v.last()@)
    }
}

/// The `pings` field of the envelope: the empty list when absent, its
/// reports when an array of report objects, and nothing on a schema
/// mismatch.
pub open spec fn spec_pings_field(j: JsonV) -> Option<Seq<PingV>> {
    match spec_lookup(j, "pings"@) {
        Option::None => Some(Seq::empty()),
        Option::Some(JsonV::Arr(items)) => spec_decode_ping_seq(items),
        Option::Some(_) => None,
    }
}

/// Read the `pings` field of the envelope, defaulting to the empty
/// list.
fn pings_from_envelope(j: &Json) -> (r: Result<Vec<Ping>, JsonError>)
    ensures
        match r {
            Ok(v) => spec_pings_field(j@) == Some(pings_view(v@)),
            Err(_) => spec_pings_field(j@) is None,
        },
{
    match j.lookup("pings") {
        None => {
            let out: Vec<Ping> = Vec::new();
            Ok(out)
        },
        Some(v) => match v {
            Json::Arr(items) => {
                let ghost vs = v@->Arr_0;
                proof {
                    crate::json::lemma_view_seq_elts(items@);
                }
                let mut out: Vec<Ping> = Vec::new();
                let mut idx: usize = 0;
                while idx < items.len()
                    invariant
                        idx <= items.len(),
                        spec_lookup(j@, "pings"@) == Some(v@),
                        v@ == JsonV::Arr(vs),
                        vs.len() == items@.len(),
                        forall|i: int| 0 <= i < vs.len() ==> vs[i] == items@[i].model(),
                        spec_decode_ping_seq(vs.take(idx as int)) == Some(pings_view(out@)),
                    decreases items@.len() - idx,
                {
                    match Ping::from_json(&items[idx]) {
                        Ok(e) => {
                            let ghost out_pre = out@;
                            out.push(e);
                            proof {
                                assert(out@.drop_last() =~= out_pre);
                            }
                        },
                        Err(err) => {
                            proof {
                                lemma_decode_ping_seq_none(vs, idx as int);
                            }
                            return Err(err);
                        },
                    }
                    idx = idx + 1;
                    assert(vs.take(idx as int).drop_last() =~= vs.take(idx as int - 1));
                }
                proof {
                    assert(vs.take(vs.len() as int) =~= vs);
                }
                Ok(out)
            },
            _ => Err(JsonError::new()),
        },
    }
}

/// The `ping` endpoint's response envelope.
#[derive(Debug, Clone, PartialEq)]
pub struct Pings {
    pub meta: Meta,
    pub errors: Vec<Error>,
    pub pings: Vec<Ping>,
}

/// The model of [`Pings`].
pub struct PingsV {
    pub meta: MetaV,
    pub errors: Seq<ErrorV>,
    pub pings: Seq<PingV>,
}

impl View for Pings {
    type V = PingsV;

    open spec fn view(&self) -> PingsV {
        PingsV {
            meta: self.meta@,
            errors: errors_view(self.errors@),
            pings: pings_view(self.pings@),
        }
    }
}

/// What the whole envelope decodes from, or nothing on a schema
/// mismatch; absent parts decode to empty values.
pub open spec fn spec_decode_pings(j: JsonV) -> Option<PingsV> {
    if !(j is Obj) {
        None
    } else if spec_meta_field(j) is None {
        None
    } else if spec_errors_field(j) is None {
        None
    } else if spec_pings_field(j) is None {
        None
    } else {
        Some(
            PingsV {
                meta: spec_meta_field(j).unwrap(),
                errors: spec_errors_field(j).unwrap(),
                pings: spec_pings_field(j).unwrap(),
            },
        )
    }
}

impl Pings {
    /// Read the whole envelope out of a JSON object.
    pub fn from_json(j: &Json) -> (r: Result<Pings, JsonError>)
        ensures
            match r {
                Ok(v) => spec_decode_pings(j@) == Some(v@),
                Err(_) => spec_decode_pings(j@) is None,
            },
    {
        if !j.is_obj() {
            return Err(JsonError::new());
        }
        let meta = Meta::from_envelope(j)?;
        let errors = errors_from_envelope(j)?;
        let pings = pings_from_envelope(j)?;
        Ok(Pings { meta, errors, pings })
    }

    /// Turn one HTTP answer into a typed result: any status other than
    /// 200 is a protocol error carrying the status and the raw body,
    /// and the body of a 200 answer is parsed and decoded.
    pub fn from_http(status: u16, body: &str) -> (r: Result<Pings, ClientError>)
        ensures
            status != 200 ==> match r {
                Err(ClientError::Protocol { status: s, body: b }) => s == status && b@ == body@,
                _ => false,
            },
            status == 200 ==> match spec_parse_json(body@) {
                Option::None => r == Err::<Pings, ClientError>(ClientError::Decode),
                Option::Some(doc) => match spec_decode_pings(doc) {
                    Option::Some(p) => match r {
                        Ok(v) => v@ == p,
                        Err(_) => false,
                    },
                    Option::None => r == Err::<Pings, ClientError>(ClientError::Decode),
                },
            },
    {
        if status != 200 {
            return Err(ClientError::Protocol { status, body: body.to_owned() });
        }
        match parse_json(body) {
            None => Err(ClientError::Decode),
            Some(doc) => match Pings::from_json(&doc) {
                Ok(p) => Ok(p),
                Err(_) => Err(ClientError::Decode),
            },
        }
    }
}

} // verus!
