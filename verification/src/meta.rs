//! The `meta` envelope present on every response, and the per-response
//! error records that Slurm reports inside a successful answer.
use vstd::prelude::*;

use crate::json::{
    spec_i32_field, spec_lookup, spec_str_field, Json, JsonError, JsonV,
};

verus! {

/// The release/version triple of the answering Slurm installation.
#[derive(Debug, Clone, PartialEq)]
pub struct MetaSlurmVersion {
    pub major: i32,
    pub micro: i32,
    pub minor: i32,
}

/// The model of [`MetaSlurmVersion`].
pub struct MetaSlurmVersionV {
    pub major: i32,
    pub micro: i32,
    pub minor: i32,
}

impl View for MetaSlurmVersion {
    type V = MetaSlurmVersionV;

    open spec fn view(&self) -> MetaSlurmVersionV {
        MetaSlurmVersionV { major: self.major, micro: self.micro, minor: self.minor }
    }
}

impl MetaSlurmVersionV {
    /// The value that stands in when the field is absent.
    pub open spec fn default_v() -> MetaSlurmVersionV {
        MetaSlurmVersionV { major: 0, micro: 0, minor: 0 }
    }
}

/// What `version` decodes from, or nothing on a schema mismatch.
pub open spec fn spec_decode_version(j: JsonV) -> Option<MetaSlurmVersionV> {
    if !(j is Obj) {
        None
    } else {
        match (spec_i32_field(j, "major"@), spec_i32_field(j, "micro"@), spec_i32_field(
            j,
            "minor"@,
        )) {
            (Some(ma), Some(mc), Some(mi)) => Some(
                MetaSlurmVersionV { major: ma, micro: mc, minor: mi },
            ),
            _ => None,
        }
    }
}

impl Default for MetaSlurmVersion {
    /// All counters zero.
    fn default() -> (r: MetaSlurmVersion)
        ensures
            r@ == MetaSlurmVersionV::default_v(),
    {
        MetaSlurmVersion { major: 0, micro: 0, minor: 0 }
    }
}

impl MetaSlurmVersion {
    /// Read a version triple out of a JSON object, each part
    /// defaulting to zero.
    pub fn from_json(j: &Json) -> (r: Result<MetaSlurmVersion, JsonError>)
        ensures
            match r {
                Ok(v) => spec_decode_version(j@) == Some(v@),
                Err(_) => spec_decode_version(j@) is None,
            },
    {
        if !j.is_obj() {
            return Err(JsonError::new());
        }
        let major = j.get_i32("major")?;
        let micro = j.get_i32("micro")?;
        let minor = j.get_i32("minor")?;
        Ok(MetaSlurmVersion { major, micro, minor })
    }
}

/// The Slurm release described by a response's metadata.
#[derive(Debug, Clone, PartialEq)]
pub struct MetaSlurm {
    pub version: MetaSlurmVersion,
    pub release: String,
}

/// The model of [`MetaSlurm`].
pub struct MetaSlurmV {
    pub version: MetaSlurmVersionV,
    pub release: Seq<char>,
}

impl View for MetaSlurm {
    type V = MetaSlurmV;

    open spec fn view(&self) -> MetaSlurmV {
        MetaSlurmV { version: self.version@, release: self.release@ }
    }
}

impl MetaSlurmV {
    /// The value that stands in when the field is absent.
    pub open spec fn default_v() -> MetaSlurmV {
        MetaSlurmV { version: MetaSlurmVersionV::default_v(), release: Seq::empty() }
    }
}

/// What `Slurm` metadata decodes from, or nothing on a schema mismatch.
pub open spec fn spec_decode_meta_slurm(j: JsonV) -> Option<MetaSlurmV> {
    if !(j is Obj) {
        None
    } else {
        let version = match spec_lookup(j, "version"@) {
            Option::None => Some(MetaSlurmVersionV::default_v()),
            Option::Some(v) => spec_decode_version(v),
        };
        match (version, spec_str_field(j, "release"@)) {
            (Some(v), Some(rel)) => Some(MetaSlurmV { version: v, release: rel }),
            _ => None,
        }
    }
}

impl Default for MetaSlurm {
    /// A zero version and an empty release.
    fn default() -> (r: MetaSlurm)
        ensures
            r@ == MetaSlurmV::default_v(),
    {
        MetaSlurm { version: MetaSlurmVersion::default(), release: String::new() }
    }
}

impl MetaSlurm {
    /// Read release metadata out of a JSON object; a missing `version`
    /// decodes to the zero triple.
    pub fn from_json(j: &Json) -> (r: Result<MetaSlurm, JsonError>)
        ensures
            match r {
                Ok(v) => spec_decode_meta_slurm(j@) == Some(v@),
                Err(_) => spec_decode_meta_slurm(j@) is None,
            },
    {
        if !j.is_obj() {
            return Err(JsonError::new());
        }
        let version = match j.lookup("version") {
            None => MetaSlurmVersion::default(),
            Some(v) => MetaSlurmVersion::from_json(v)?,
        };
        let release = j.get_str("release")?;
        Ok(MetaSlurm { version, release })
    }
}

/// The plugin that answered a request.
#[derive(Debug, Clone, PartialEq)]
pub struct MetaPlugin {
    pub plugin_type: String,
    pub name: String,
}

/// The model of [`MetaPlugin`].
pub struct MetaPluginV {
    pub plugin_type: Seq<char>,
    pub name: Seq<char>,
}

impl View for MetaPlugin {
    type V = MetaPluginV;

    open spec fn view(&self) -> MetaPluginV {
        MetaPluginV { plugin_type: self.plugin_type@, name: self.name@ }
    }
}

impl MetaPluginV {
    /// The value that stands in when the field is absent.
    pub open spec fn default_v() -> MetaPluginV {
        MetaPluginV { plugin_type: Seq::empty(), name: Seq::empty() }
    }
}

/// What `plugin` decodes from, or nothing on a schema mismatch. The
/// plugin's type is carried under the JSON key `type`.
pub open spec fn spec_decode_plugin(j: JsonV) -> Option<MetaPluginV> {
    if !(j is Obj) {
        None
    } else {
        match (spec_str_field(j, "type"@), spec_str_field(j, "name"@)) {
            (Some(t), Some(n)) => Some(MetaPluginV { plugin_type: t, name: n }),
            _ => None,
        }
    }
}

impl Default for MetaPlugin {
    /// Empty type and name.
    fn default() -> (r: MetaPlugin)
        ensures
            r@ == MetaPluginV::default_v(),
    {
        MetaPlugin { plugin_type: String::new(), name: String::new() }
    }
}

impl MetaPlugin {
    /// Read plugin metadata out of a JSON object.
    pub fn from_json(j: &Json) -> (r: Result<MetaPlugin, JsonError>)
        ensures
            match r {
                Ok(v) => spec_decode_plugin(j@) == Some(v@),
                Err(_) => spec_decode_plugin(j@) is None,
            },
    {
        if !j.is_obj() {
            return Err(JsonError::new());
        }
        let plugin_type = j.get_str("type")?;
        let name = j.get_str("name")?;
        Ok(MetaPlugin { plugin_type, name })
    }
}

/// The metadata envelope present on every response.
#[derive(Debug, Clone, PartialEq)]
pub struct Meta {
    pub plugin: MetaPlugin,
    pub slurm: MetaSlurm,
}

/// The model of [`Meta`].
pub struct MetaV {
    pub plugin: MetaPluginV,
    pub slurm: MetaSlurmV,
}

impl View for Meta {
    type V = MetaV;

    open spec fn view(&self) -> MetaV {
        MetaV { plugin: self.plugin@, slurm: self.slurm@ }
    }
}

impl MetaV {
    /// The value that stands in when a response carries no `meta`.
    pub open spec fn default_v() -> MetaV {
        MetaV { plugin: MetaPluginV::default_v(), slurm: MetaSlurmV::default_v() }
    }
}

/// What `meta` decodes from, or nothing on a schema mismatch. The
/// release metadata is carried under the JSON key `Slurm`.
pub open spec fn spec_decode_meta(j: JsonV) -> Option<MetaV> {
    if !(j is Obj) {
        None
    } else {
        let plugin = match spec_lookup(j, "plugin"@) {
            Option::None => Some(MetaPluginV::default_v()),
            Option::Some(v) => spec_decode_plugin(v),
        };
        let slurm = match spec_lookup(j, "Slurm"@) {
            Option::None => Some(MetaSlurmV::default_v()),
            Option::Some(v) => spec_decode_meta_slurm(v),
        };
        match (plugin, slurm) {
            (Some(p), Some(s)) => Some(MetaV { plugin: p, slurm: s }),
            _ => None,
        }
    }
}

/// The metadata of a response that carries no `meta` field at all.
pub open spec fn spec_meta_field(j: JsonV) -> Option<MetaV> {
    match spec_lookup(j, "meta"@) {
        Option::None => Some(MetaV::default_v()),
        Option::Some(v) => spec_decode_meta(v),
    }
}

impl Default for Meta {
    /// Empty plugin and release metadata.
    fn default() -> (r: Meta)
        ensures
            r@ == MetaV::default_v(),
    {
        Meta { plugin: MetaPlugin::default(), slurm: MetaSlurm::default() }
    }
}

impl Meta {
    /// Read a metadata envelope out of a JSON object; missing parts
    /// decode to their defaults.
    pub fn from_json(j: &Json) -> (r: Result<Meta, JsonError>)
        ensures
            match r {
                Ok(v) => spec_decode_meta(j@) == Some(v@),
                Err(_) => spec_decode_meta(j@) is None,
            },
    {
        if !j.is_obj() {
            return Err(JsonError::new());
        }
        let plugin = match j.lookup("plugin") {
            None => MetaPlugin::default(),
            Some(v) => MetaPlugin::from_json(v)?,
        };
        let slurm = match j.lookup("Slurm") {
            None => MetaSlurm::default(),
            Some(v) => MetaSlurm::from_json(v)?,
        };
        Ok(Meta { plugin, slurm })
    }

    /// Read the `meta` field of a response envelope, defaulting when it
    /// is absent.
    pub fn from_envelope(j: &Json) -> (r: Result<Meta, JsonError>)
        ensures
            match r {
                Ok(v) => spec_meta_field(j@) == Some(v@),
                Err(_) => spec_meta_field(j@) is None,
            },
    {
        match j.lookup("meta") {
            None => Ok(Meta::default()),
            Some(v) => Meta::from_json(v),
        }
    }
}

/// One application-level error reported inside a successful response;
/// collected as data, never fatal to decoding.
#[derive(Debug, Clone, PartialEq)]
pub struct Error {
    pub error: String,
    pub error_number: i32,
}

/// The model of [`Error`].
pub struct ErrorV {
    pub error: Seq<char>,
    pub error_number: i32,
}

impl View for Error {
    type V = ErrorV;

    open spec fn view(&self) -> ErrorV {
        ErrorV { error: self.error@, error_number: self.error_number }
    }
}

/// What one reported error decodes from, or nothing on a schema
/// mismatch.
pub open spec fn spec_decode_error(j: JsonV) -> Option<ErrorV> {
    if !(j is Obj) {
        None
    } else {
        match (spec_str_field(j, "error"@), spec_i32_field(j, "error_number"@)) {
            (Some(e), Some(n)) => Some(ErrorV { error: e, error_number: n }),
            _ => None,
        }
    }
}

impl Error {
    /// Read one reported error out of a JSON object.
    pub fn from_json(j: &Json) -> (r: Result<Error, JsonError>)
        ensures
            match r {
                Ok(v) => spec_decode_error(j@) == Some(v@),
                Err(_) => spec_decode_error(j@) is None,
            },
    {
        if !j.is_obj() {
            return Err(JsonError::new());
        }
        let error = j.get_str("error")?;
        let error_number = j.get_i32("error_number")?;
        Ok(Error { error, error_number })
    }
}

/// The models of a sequence of reported errors, or nothing when some
/// element does not decode.
pub open spec fn spec_decode_error_seq(items: Seq<JsonV>) -> Option<Seq<ErrorV>>
    decreases items.len(),
{
    if items.len() == 0 {
        Some(Seq::empty())
    } else {
        match (spec_decode_error_seq(items.drop_last()), spec_decode_error(items.last())) {
            (Option::Some(rest), Option::Some(x)) => Some(rest.push(x)),
            _ => None,
        }
    }
}

/// A sequence with an element that does not decode as an error record
/// has no decoding as a whole.
pub proof fn lemma_decode_error_seq_none(items: Seq<JsonV>, i: int)
    requires
        0 <= i < items.len(),
        spec_decode_error(items[i]) is None,
    ensures
        spec_decode_error_seq(items) is None,
    decreases items.len(),
{
    if i < items.len() - 1 {
        lemma_decode_error_seq_none(items.drop_last(), i);
    }
}

/// The characters of each error model of `v`, in order.
pub open spec fn errors_view(v: Seq<Error>) -> Seq<ErrorV>
    decreases v.len(),
{
    if v.len() == 0 {
        Seq::empty()
    } else {
        errors_view(v.drop_last()).push(v.last()@)
    }
}

/// The `errors` field of a response envelope: the empty list when it is
/// absent, its records when it is an array of error objects, and
/// nothing on a schema mismatch.
pub open spec fn spec_errors_field(j: JsonV) -> Option<Seq<ErrorV>> {
    match spec_lookup(j, "errors"@) {
        Option::None => Some(Seq::empty()),
        Option::Some(JsonV::Arr(items)) => spec_decode_error_seq(items),
        Option::Some(_) => None,
    }
}

/// Read the `errors` field of a response envelope, defaulting to the
/// empty list when it is absent.
pub fn errors_from_envelope(j: &Json) -> (r: Result<Vec<Error>, JsonError>)
    ensures
        match r {
            Ok(v) => spec_errors_field(j@) == Some(errors_view(v@)),
            Err(_) => spec_errors_field(j@) is None,
        },
{
    match j.lookup("errors") {
        None => {
            let out: Vec<Error> = Vec::new();
            Ok(out)
        },
        Some(v) => match v {
            Json::Arr(items) => {
                let ghost vs = v@->Arr_0;
                proof {
                    crate::json::lemma_view_seq_elts(items@);
                }
                let mut out: Vec<Error> = Vec::new();
                let mut idx: usize = 0;
                while idx < items.len()
                    invariant
                        idx <= items.len(),
                        spec_lookup(j@, "errors"@) == Some(v@),
                        v@ == JsonV::Arr(vs),
                        vs.len() == items@.len(),
                        forall|i: int| 0 <= i < vs.len() ==> vs[i] == items@[i].model(),
                        spec_decode_error_seq(vs.take(idx as int)) == Some(errors_view(out@)),
                    decreases items@.len() - idx,
                {
                    match Error::from_json(&items[idx]) {
                        Ok(e) => {
                            let ghost out_pre = out@;
                            out.push(e);
                            proof {
                                assert(out@.drop_last() =~= out_pre);
                            }
                        },
                        Err(err) => {
                            proof {
                                lemma_decode_error_seq_none(vs, idx as int);
                            }
                            return Err(err);
                        },
                    }
                    idx = idx + 1;
                    assert(vs.take(idx as int).drop_last() =~= vs.take(idx as int - 1));
                }
                proof {
                    assert(vs.take(vs.len() as int) =~= vs);
                }
                Ok(out)
            },
            _ => Err(JsonError::new()),
        },
    }
}

} // verus!
