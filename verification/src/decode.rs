//! Decoding a [`Json`] tree into [`Features`], applying one uniform rule to
//! every optional field: a key absent from the input yields the field's
//! declared default, a key present with an explicit null yields `None`
//! (overriding any default), and a key present with a value yields that
//! value verbatim, subject to type validation.

use vstd::prelude::*;

use crate::features::EndpointProvider;
use crate::features::FeatureDirect;
use crate::features::FeatureDirectV;
use crate::features::FeatureExitDns;
use crate::features::FeatureLana;
use crate::features::FeatureLanaV;
use crate::features::FeatureNurse;
use crate::features::FeatureNurseV;
use crate::features::FeaturePaths;
use crate::features::FeaturePathsV;
use crate::features::FeaturePersistentKeepalive;
use crate::features::FeatureQoS;
use crate::features::FeatureQoSV;
use crate::features::FeatureWireguard;
use crate::features::Features;
use crate::features::FeaturesV;
use crate::features::PathType;
use crate::json::arr_model;
use crate::json::entry;
use crate::json::fields_model;
use crate::json::obj_get;
use crate::json::Json;
use crate::json::JsonV;
use crate::DEFAULT_DIRECT_PERSISTENT_KEEPALIVE_PERIOD;
use crate::DEFAULT_PERSISTENT_KEEPALIVE_PERIOD;

verus! {

/// A structural decode error: the input did not have the shape the schema
/// asks for. No value is ever silently coerced.
#[derive(Clone, Copy, Debug, PartialEq, Eq, Structural)]
pub enum DecodeError {
    /// A value that had to be an object was something else.
    ExpectedObject,
    /// A value that had to be a boolean was something else.
    ExpectedBool,
    /// A value that had to be an unsigned 32-bit integer was something else
    /// or out of range.
    ExpectedU32,
    /// A value that had to be an unsigned 64-bit integer was something else.
    ExpectedU64,
    /// A value that had to be a string was something else.
    ExpectedString,
    /// A value that had to be a list was something else.
    ExpectedList,
    /// A value that had to be a connection-path token (`"relay"` or
    /// `"direct"`) was something else.
    ExpectedPathType,
    /// A value that had to be an endpoint-provider token (`"local"` or
    /// `"stun"`) was something else.
    ExpectedEndpointProvider,
    /// A required field was absent from the input.
    MissingField,
}

/// What an optional `u32` field decodes to: its default when the key is
/// absent, `None` on an explicit null, the value when it is an unsigned
/// integer in range.
pub open spec fn dec_opt_u32(
    fields: Seq<(Seq<char>, JsonV)>,
    key: Seq<char>,
    dflt: Option<u32>,
) -> Result<Option<u32>, DecodeError> {
    match entry(fields, key) {
        Option::None => Ok(dflt),
        Option::Some(JsonV::Null) => Ok(None),
        Option::Some(JsonV::UInt(n)) => if n <= u32::MAX as u64 {
            Ok(Some(n as u32))
        } else {
            Err(DecodeError::ExpectedU32)
        },
        Option::Some(_) => Err(DecodeError::ExpectedU32),
    }
}

/// What a required-with-default `u32` field decodes to: its default when the
/// key is absent; an explicit null is a type error, not a fallback.
pub open spec fn dec_u32_or(fields: Seq<(Seq<char>, JsonV)>, key: Seq<char>, dflt: u32) -> Result<
    u32,
    DecodeError,
> {
    match entry(fields, key) {
        Option::None => Ok(dflt),
        Option::Some(JsonV::UInt(n)) => if n <= u32::MAX as u64 {
            Ok(n as u32)
        } else {
            Err(DecodeError::ExpectedU32)
        },
        Option::Some(_) => Err(DecodeError::ExpectedU32),
    }
}

/// What an optional `u64` field decodes to.
pub open spec fn dec_opt_u64(fields: Seq<(Seq<char>, JsonV)>, key: Seq<char>) -> Result<
    Option<u64>,
    DecodeError,
> {
    match entry(fields, key) {
        Option::None => Ok(None),
        Option::Some(JsonV::Null) => Ok(None),
        Option::Some(JsonV::UInt(n)) => Ok(Some(n)),
        Option::Some(_) => Err(DecodeError::ExpectedU64),
    }
}

/// What an optional boolean field decodes to.
pub open spec fn dec_opt_bool(fields: Seq<(Seq<char>, JsonV)>, key: Seq<char>) -> Result<
    Option<bool>,
    DecodeError,
> {
    match entry(fields, key) {
        Option::None => Ok(None),
        Option::Some(JsonV::Null) => Ok(None),
        Option::Some(JsonV::Bool(b)) => Ok(Some(b)),
        Option::Some(_) => Err(DecodeError::ExpectedBool),
    }
}

/// What a required boolean field decodes to: absence is an error.
pub open spec fn dec_req_bool(fields: Seq<(Seq<char>, JsonV)>, key: Seq<char>) -> Result<
    bool,
    DecodeError,
> {
    match entry(fields, key) {
        Option::None => Err(DecodeError::MissingField),
        Option::Some(JsonV::Bool(b)) => Ok(b),
        Option::Some(_) => Err(DecodeError::ExpectedBool),
    }
}

/// What a required string field decodes to: absence is an error.
pub open spec fn dec_req_string(fields: Seq<(Seq<char>, JsonV)>, key: Seq<char>) -> Result<
    Seq<char>,
    DecodeError,
> {
    match entry(fields, key) {
        Option::None => Err(DecodeError::MissingField),
        Option::Some(JsonV::Str(s)) => Ok(s),
        Option::Some(_) => Err(DecodeError::ExpectedString),
    }
}

/// Whether every item of a list is a string.
pub open spec fn str_items_ok(items: Seq<JsonV>) -> bool {
    forall|i: int| 0 <= i < items.len() ==> items[i] is Str
}

/// The strings a list of string items holds, in order.
pub open spec fn str_items_val(items: Seq<JsonV>) -> Seq<Seq<char>> {
    Seq::new(items.len(), |i: int| items[i]->Str_0)
}

/// What an optional list-of-strings field decodes to.
pub open spec fn dec_opt_strings(fields: Seq<(Seq<char>, JsonV)>, key: Seq<char>) -> Result<
    Option<Seq<Seq<char>>>,
    DecodeError,
> {
    match entry(fields, key) {
        Option::None => Ok(None),
        Option::Some(JsonV::Null) => Ok(None),
        Option::Some(JsonV::Arr(items)) => if str_items_ok(items) {
            Ok(Some(str_items_val(items)))
        } else {
            Err(DecodeError::ExpectedString)
        },
        Option::Some(_) => Err(DecodeError::ExpectedList),
    }
}

/// The connection-path type a wire token denotes, if any. The textual form
/// is fixed: lowercase `"relay"` and `"direct"`.
pub open spec fn path_token(s: Seq<char>) -> Option<PathType> {
    if s == "relay"@ {
        Some(PathType::Relay)
    } else if s == "direct"@ {
        Some(PathType::Direct)
    } else {
        None
    }
}

/// Whether a list item is a valid connection-path token.
pub open spec fn path_item_ok(v: JsonV) -> bool {
    v is Str && path_token(v->Str_0) is Some
}

/// Whether every item of a list is a valid connection-path token.
pub open spec fn path_items_ok(items: Seq<JsonV>) -> bool {
    forall|i: int| 0 <= i < items.len() ==> path_item_ok(#[trigger] items[i])
}

/// The path types a list of tokens denotes, in order.
pub open spec fn path_items_val(items: Seq<JsonV>) -> Seq<PathType> {
    Seq::new(items.len(), |i: int| path_token(items[i]->Str_0)->0)
}

/// The endpoint provider a wire token denotes, if any. The textual form is
/// fixed: lowercase `"local"` and `"stun"`.
pub open spec fn provider_token(s: Seq<char>) -> Option<EndpointProvider> {
    if s == "local"@ {
        Some(EndpointProvider::Local)
    } else if s == "stun"@ {
        Some(EndpointProvider::Stun)
    } else {
        None
    }
}

/// Whether a list item is a valid endpoint-provider token.
pub open spec fn provider_item_ok(v: JsonV) -> bool {
    v is Str && provider_token(v->Str_0) is Some
}

/// Whether every item of a list is a valid endpoint-provider token.
pub open spec fn provider_items_ok(items: Seq<JsonV>) -> bool {
    forall|i: int| 0 <= i < items.len() ==> provider_item_ok(#[trigger] items[i])
}

/// Whether a list of tokens mentions the given provider.
pub open spec fn providers_has(items: Seq<JsonV>, p: EndpointProvider) -> bool {
    exists|i: int|
        0 <= i < items.len() && provider_token(#[trigger] items[i]->Str_0) == Some(p)
}

/// The duplicate-free collection a list of provider tokens denotes, kept in
/// declaration order: `Local` before `Stun`. The collection is unordered in
/// meaning; this is its canonical spelling.
pub open spec fn providers_val(items: Seq<JsonV>) -> Seq<EndpointProvider> {
    if providers_has(items, EndpointProvider::Local) && providers_has(
        items,
        EndpointProvider::Stun,
    ) {
        seq![EndpointProvider::Local, EndpointProvider::Stun]
    } else if providers_has(items, EndpointProvider::Local) {
        seq![EndpointProvider::Local]
    } else if providers_has(items, EndpointProvider::Stun) {
        seq![EndpointProvider::Stun]
    } else {
        Seq::empty()
    }
}

/// What the keepalive group decodes to. Every field has a declared default;
/// `direct` has no optional wrapper, so an explicit null there is an error.
pub open spec fn dec_keepalive(j: JsonV) -> Result<FeaturePersistentKeepalive, DecodeError> {
    match j {
        JsonV::Obj(fs) => match dec_opt_u32(fs, "vpn"@, Some(DEFAULT_PERSISTENT_KEEPALIVE_PERIOD)) {
            Err(e) => Err(e),
            Ok(vpn) => match dec_u32_or(fs, "direct"@, DEFAULT_DIRECT_PERSISTENT_KEEPALIVE_PERIOD) {
                Err(e) => Err(e),
                Ok(direct) => match dec_opt_u32(
                    fs,
                    "proxying"@,
                    Some(DEFAULT_PERSISTENT_KEEPALIVE_PERIOD),
                ) {
                    Err(e) => Err(e),
                    Ok(proxying) => match dec_opt_u32(
                        fs,
                        "stun"@,
                        Some(DEFAULT_PERSISTENT_KEEPALIVE_PERIOD),
                    ) {
                        Err(e) => Err(e),
                        Ok(stun) => Ok(
                            FeaturePersistentKeepalive { vpn, direct, proxying, stun },
                        ),
                    },
                },
            },
        },
        _ => Err(DecodeError::ExpectedObject),
    }
}

/// What the WireGuard group decodes to: an absent keepalive group takes its
/// internal defaults; a present one is decoded recursively, so even an empty
/// object resolves every field inside.
pub open spec fn dec_wireguard(j: JsonV) -> Result<FeatureWireguard, DecodeError> {
    match j {
        JsonV::Obj(fs) => match entry(fs, "persistent_keepalive"@) {
            Option::None => Ok(
                FeatureWireguard {
                    persistent_keepalive: FeaturePersistentKeepalive::spec_default(),
                },
            ),
            Option::Some(v) => match dec_keepalive(v) {
                Err(e) => Err(e),
                Ok(k) => Ok(FeatureWireguard { persistent_keepalive: k }),
            },
        },
        _ => Err(DecodeError::ExpectedObject),
    }
}

/// What the exit-DNS group decodes to.
pub open spec fn dec_exit_dns(j: JsonV) -> Result<FeatureExitDns, DecodeError> {
    match j {
        JsonV::Obj(fs) => match dec_opt_bool(fs, "auto_switch_dns_ips"@) {
            Err(e) => Err(e),
            Ok(auto_switch_dns_ips) => Ok(FeatureExitDns { auto_switch_dns_ips }),
        },
        _ => Err(DecodeError::ExpectedObject),
    }
}

/// What the QoS group decodes to: every field is optional with no default
/// beyond `None`, so an empty object yields a present group with every field
/// `None`.
pub open spec fn dec_qos(j: JsonV) -> Result<FeatureQoSV, DecodeError> {
    match j {
        JsonV::Obj(fs) => match dec_opt_u32(fs, "rtt_interval"@, None) {
            Err(e) => Err(e),
            Ok(rtt_interval) => match dec_opt_u32(fs, "rtt_tries"@, None) {
                Err(e) => Err(e),
                Ok(rtt_tries) => match dec_opt_strings(fs, "rtt_types"@) {
                    Err(e) => Err(e),
                    Ok(rtt_types) => match dec_opt_u32(fs, "buckets"@, None) {
                        Err(e) => Err(e),
                        Ok(buckets) => Ok(
                            FeatureQoSV { rtt_interval, rtt_tries, rtt_types, buckets },
                        ),
                    },
                },
            },
        },
        _ => Err(DecodeError::ExpectedObject),
    }
}

/// What the Nurse group decodes to: the fingerprint is required; the QoS
/// subgroup is absent, explicitly null, or decoded recursively.
pub open spec fn dec_nurse(j: JsonV) -> Result<FeatureNurseV, DecodeError> {
    match j {
        JsonV::Obj(fs) => match dec_req_string(fs, "fingerprint"@) {
            Err(e) => Err(e),
            Ok(fingerprint) => match dec_opt_u32(fs, "heartbeat_interval"@, None) {
                Err(e) => Err(e),
                Ok(heartbeat_interval) => match entry(fs, "qos"@) {
                    Option::None => Ok(
                        FeatureNurseV { fingerprint, heartbeat_interval, qos: None },
                    ),
                    Option::Some(JsonV::Null) => Ok(
                        FeatureNurseV { fingerprint, heartbeat_interval, qos: None },
                    ),
                    Option::Some(v) => match dec_qos(v) {
                        Err(e) => Err(e),
                        Ok(q) => Ok(
                            FeatureNurseV { fingerprint, heartbeat_interval, qos: Some(q) },
                        ),
                    },
                },
            },
        },
        _ => Err(DecodeError::ExpectedObject),
    }
}

/// What the Lana group decodes to: both fields are required.
pub open spec fn dec_lana(j: JsonV) -> Result<FeatureLanaV, DecodeError> {
    match j {
        JsonV::Obj(fs) => match dec_req_string(fs, "event_path"@) {
            Err(e) => Err(e),
            Ok(event_path) => match dec_req_bool(fs, "prod"@) {
                Err(e) => Err(e),
                Ok(prod) => Ok(FeatureLanaV { event_path, prod }),
            },
        },
        _ => Err(DecodeError::ExpectedObject),
    }
}

/// What the paths group decodes to: the priority list is required; the
/// forced path is optional.
pub open spec fn dec_paths_group(j: JsonV) -> Result<FeaturePathsV, DecodeError> {
    match j {
        JsonV::Obj(fs) => match entry(fs, "priority"@) {
            Option::None => Err(DecodeError::MissingField),
            Option::Some(JsonV::Arr(items)) => if path_items_ok(items) {
                match entry(fs, "force"@) {
                    Option::None => Ok(
                        FeaturePathsV { priority: path_items_val(items), force: None },
                    ),
                    Option::Some(JsonV::Null) => Ok(
                        FeaturePathsV { priority: path_items_val(items), force: None },
                    ),
                    Option::Some(JsonV::Str(s)) => match path_token(s) {
                        Option::Some(p) => Ok(
                            FeaturePathsV { priority: path_items_val(items), force: Some(p) },
                        ),
                        Option::None => Err(DecodeError::ExpectedPathType),
                    },
                    Option::Some(_) => Err(DecodeError::ExpectedPathType),
                }
            } else {
                Err(DecodeError::ExpectedPathType)
            },
            Option::Some(_) => Err(DecodeError::ExpectedList),
        },
        _ => Err(DecodeError::ExpectedObject),
    }
}

/// What the direct-connection group decodes to: the provider list becomes an
/// unordered, duplicate-free collection.
pub open spec fn dec_direct(j: JsonV) -> Result<FeatureDirectV, DecodeError> {
    match j {
        JsonV::Obj(fs) => match entry(fs, "providers"@) {
            Option::Some(JsonV::Arr(items)) => if provider_items_ok(items) {
                match dec_opt_u64(fs, "endpoint_interval_secs"@) {
                    Err(e) => Err(e),
                    Ok(endpoint_interval_secs) => Ok(
                        FeatureDirectV {
                            providers: Some(providers_val(items)),
                            endpoint_interval_secs,
                        },
                    ),
                }
            } else {
                Err(DecodeError::ExpectedEndpointProvider)
            },
            Option::Some(JsonV::Null) | Option::None => match dec_opt_u64(
                fs,
                "endpoint_interval_secs"@,
            ) {
                Err(e) => Err(e),
                Ok(endpoint_interval_secs) => Ok(
                    FeatureDirectV { providers: None, endpoint_interval_secs },
                ),
            },
            Option::Some(_) => Err(DecodeError::ExpectedList),
        },
        _ => Err(DecodeError::ExpectedObject),
    }
}

/// What the whole configuration decodes to. The WireGuard group always
/// exists, defaulting internally when absent; every other group is `None`
/// when absent or explicitly null, and decoded recursively when present.
pub open spec fn dec_features(j: JsonV) -> Result<FeaturesV, DecodeError> {
    match j {
        JsonV::Obj(fs) => match dec_wireguard_field(fs) {
            Err(e) => Err(e),
            Ok(wireguard) => match dec_group_nurse(fs) {
                Err(e) => Err(e),
                Ok(nurse) => match dec_group_lana(fs) {
                    Err(e) => Err(e),
                    Ok(lana) => match dec_group_paths(fs) {
                        Err(e) => Err(e),
                        Ok(paths) => match dec_group_exit_dns(fs) {
                            Err(e) => Err(e),
                            Ok(exit_dns) => match dec_group_direct(fs) {
                                Err(e) => Err(e),
                                Ok(direct) => match dec_opt_bool(fs, "macos_sideload"@) {
                                    Err(e) => Err(e),
                                    Ok(macos_sideload) => Ok(
                                        FeaturesV {
                                            wireguard,
                                            nurse,
                                            lana,
                                            paths,
                                            exit_dns,
                                            direct,
                                            macos_sideload,
                                        },
                                    ),
                                },
                            },
                        },
                    },
                },
            },
        },
        _ => Err(DecodeError::ExpectedObject),
    }
}

/// Reads an optional `u32` field.
fn get_opt_u32(fields: &Vec<(String, Json)>, key: &str, dflt: Option<u32>) -> (r: Result<
    Option<u32>,
    DecodeError,
>)
    ensures
        r == dec_opt_u32(fields_model(fields@), key@, dflt),
{
    match obj_get(fields, key) {
        Option::None => Ok(dflt),
        Option::Some(j) => match j {
            Json::Null => Ok(None),
            Json::UInt(n) => if *n <= u32::MAX as u64 {
                Ok(Some(*n as u32))
            } else {
                Err(DecodeError::ExpectedU32)
            },
            _ => Err(DecodeError::ExpectedU32),
        },
    }
}

/// Reads a required-with-default `u32` field.
fn get_u32_or(fields: &Vec<(String, Json)>, key: &str, dflt: u32) -> (r: Result<u32, DecodeError>)
    ensures
        r == dec_u32_or(fields_model(fields@), key@, dflt),
{
    match obj_get(fields, key) {
        Option::None => Ok(dflt),
        Option::Some(j) => match j {
            Json::UInt(n) => if *n <= u32::MAX as u64 {
                Ok(*n as u32)
            } else {
                Err(DecodeError::ExpectedU32)
            },
            _ => Err(DecodeError::ExpectedU32),
        },
    }
}

/// Reads an optional `u64` field.
fn get_opt_u64(fields: &Vec<(String, Json)>, key: &str) -> (r: Result<Option<u64>, DecodeError>)
    ensures
        r == dec_opt_u64(fields_model(fields@), key@),
{
    match obj_get(fields, key) {
        Option::None => Ok(None),
        Option::Some(j) => match j {
            Json::Null => Ok(None),
            Json::UInt(n) => Ok(Some(*n)),
            _ => Err(DecodeError::ExpectedU64),
        },
    }
}

/// Reads an optional boolean field.
fn get_opt_bool(fields: &Vec<(String, Json)>, key: &str) -> (r: Result<Option<bool>, DecodeError>)
    ensures
        r == dec_opt_bool(fields_model(fields@), key@),
{
    match obj_get(fields, key) {
        Option::None => Ok(None),
        Option::Some(j) => match j {
            Json::Null => Ok(None),
            Json::Bool(b) => Ok(Some(*b)),
            _ => Err(DecodeError::ExpectedBool),
        },
    }
}

/// Reads a required boolean field.
fn get_req_bool(fields: &Vec<(String, Json)>, key: &str) -> (r: Result<bool, DecodeError>)
    ensures
        r == dec_req_bool(fields_model(fields@), key@),
{
    match obj_get(fields, key) {
        Option::None => Err(DecodeError::MissingField),
        Option::Some(j) => match j {
            Json::Bool(b) => Ok(*b),
            _ => Err(DecodeError::ExpectedBool),
        },
    }
}

/// Reads a required string field.
fn get_req_string(fields: &Vec<(String, Json)>, key: &str) -> (r: Result<String, DecodeError>)
    ensures
        (match r {
            Ok(s) => dec_req_string(fields_model(fields@), key@) == Ok::<Seq<char>, DecodeError>(
                s@,
            ),
            Err(e) => dec_req_string(fields_model(fields@), key@) == Err::<Seq<char>, DecodeError>(
                e,
            ),
        }),
{
    match obj_get(fields, key) {
        Option::None => Err(DecodeError::MissingField),
        Option::Some(j) => match j {
            Json::Str(s) => Ok(s.clone()),
            _ => Err(DecodeError::ExpectedString),
        },
    }
}

/// Reads the items of a list of strings.
fn get_string_items(items: &Vec<Json>) -> (r: Result<Vec<String>, DecodeError>)
    ensures
        (match r {
            Ok(v) => str_items_ok(arr_model(items@)) && v.deep_view() == str_items_val(
                arr_model(items@),
            ),
            Err(e) => !str_items_ok(arr_model(items@)) && e == DecodeError::ExpectedString,
        }),
{
    let ghost m = arr_model(items@);
    let mut out: Vec<String> = Vec::new();
    let mut i: usize = 0;
    while i < items.len()
        invariant
            0 <= i <= items.len(),
            m == arr_model(items@),
            out@.len() == i,
            forall|k: int| 0 <= k < i ==> (#[trigger] m[k]) is Str,
            forall|k: int| 0 <= k < i ==> (#[trigger] out@[k])@ == m[k]->Str_0,
        decreases items.len() - i,
    {
        proof {
            assert(m[i as int] == items@[i as int].model());
        }
        match &items[i] {
            Json::Str(s) => {
                out.push(s.clone());
            },
            _ => {
                proof {
                    assert(!(m[i as int] is Str));
                }
                return Err(DecodeError::ExpectedString);
            },
        }
        i += 1;
    }
    proof {
        assert(out.deep_view() =~= str_items_val(m));
    }
    Ok(out)
}

/// Reads an optional list-of-strings field.
fn get_opt_strings(fields: &Vec<(String, Json)>, key: &str) -> (r: Result<
    Option<Vec<String>>,
    DecodeError,
>)
    ensures
        (match r {
            Ok(v) => dec_opt_strings(fields_model(fields@), key@) == Ok::<
                Option<Seq<Seq<char>>>,
                DecodeError,
            >(
                match v {
                    Some(x) => Some(x.deep_view()),
                    None => None,
                },
            ),
            Err(e) => dec_opt_strings(fields_model(fields@), key@) == Err::<
                Option<Seq<Seq<char>>>,
                DecodeError,
            >(e),
        }),
{
    match obj_get(fields, key) {
        Option::None => Ok(None),
        Option::Some(j) => match j {
            Json::Null => Ok(None),
            Json::Arr(items) => match get_string_items(items) {
                Ok(v) => Ok(Some(v)),
                Err(e) => Err(e),
            },
            _ => Err(DecodeError::ExpectedList),
        },
    }
}

/// Parses a connection-path wire token.
fn parse_path_token(s: &String) -> (r: Option<PathType>)
    ensures
        r == path_token(s@),
{
    let relay = String::from_str("relay");
    if *s == relay {
        return Some(PathType::Relay);
    }
    let direct = String::from_str("direct");
    if *s == direct {
        return Some(PathType::Direct);
    }
    None
}

/// Parses an endpoint-provider wire token.
fn parse_provider_token(s: &String) -> (r: Option<EndpointProvider>)
    ensures
        r == provider_token(s@),
{
    let local = String::from_str("local");
    if *s == local {
        return Some(EndpointProvider::Local);
    }
    let stun = String::from_str("stun");
    if *s == stun {
        return Some(EndpointProvider::Stun);
    }
    None
}

/// Reads the items of a list of connection-path tokens.
fn get_path_items(items: &Vec<Json>) -> (r: Result<Vec<PathType>, DecodeError>)
    ensures
        (match r {
            Ok(v) => path_items_ok(arr_model(items@)) && v@ == path_items_val(arr_model(items@)),
            Err(e) => !path_items_ok(arr_model(items@)) && e == DecodeError::ExpectedPathType,
        }),
{
    let ghost m = arr_model(items@);
    let mut out: Vec<PathType> = Vec::new();
    let mut i: usize = 0;
    while i < items.len()
        invariant
            0 <= i <= items.len(),
            m == arr_model(items@),
            out@.len() == i,
            forall|k: int| 0 <= k < i ==> path_item_ok(#[trigger] m[k]),
            forall|k: int| 0 <= k < i ==> (#[trigger] out@[k]) == path_token(m[k]->Str_0)->0,
        decreases items.len() - i,
    {
        proof {
            assert(m[i as int] == items@[i as int].model());
        }
        match &items[i] {
            Json::Str(s) => match parse_path_token(s) {
                Some(p) => {
                    out.push(p);
                },
                None => {
                    proof {
                        assert(!path_item_ok(m[i as int]));
                    }
                    return Err(DecodeError::ExpectedPathType);
                },
            },
            _ => {
                proof {
                    assert(!path_item_ok(m[i as int]));
                }
                return Err(DecodeError::ExpectedPathType);
            },
        }
        i += 1;
    }
    proof {
        assert(out@ =~= path_items_val(m));
    }
    Ok(out)
}

/// Reads a list of endpoint-provider tokens, reporting which providers it
/// mentions.
fn get_provider_flags(items: &Vec<Json>) -> (r: Result<(bool, bool), DecodeError>)
    ensures
        (match r {
            Ok(flags) => provider_items_ok(arr_model(items@)) && flags.0 == providers_has(
                arr_model(items@),
                EndpointProvider::Local,
            ) && flags.1 == providers_has(arr_model(items@), EndpointProvider::Stun),
            Err(e) => !provider_items_ok(arr_model(items@)) && e
                == DecodeError::ExpectedEndpointProvider,
        }),
{
    let ghost m = arr_model(items@);
    let mut has_local: bool = false;
    let mut has_stun: bool = false;
    let mut i: usize = 0;
    while i < items.len()
        invariant
            0 <= i <= items.len(),
            m == arr_model(items@),
            forall|k: int| 0 <= k < i ==> provider_item_ok(#[trigger] m[k]),
            has_local == exists|k: int|
                0 <= k < i && provider_token(#[trigger] m[k]->Str_0) == Some(
                    EndpointProvider::Local,
                ),
            has_stun == exists|k: int|
                0 <= k < i && provider_token(#[trigger] m[k]->Str_0) == Some(
                    EndpointProvider::Stun,
                ),
        decreases items.len() - i,
    {
        proof {
            assert(m[i as int] == items@[i as int].model());
        }
        match &items[i] {
            Json::Str(s) => match parse_provider_token(s) {
                Some(EndpointProvider::Local) => {
                    proof {
                        assert(provider_token(m[i as int]->Str_0) == Some(
                            EndpointProvider::Local,
                        ));
                    }
                    has_local = true;
                },
                Some(EndpointProvider::Stun) => {
                    proof {
                        assert(provider_token(m[i as int]->Str_0) == Some(
                            EndpointProvider::Stun,
                        ));
                    }
                    has_stun = true;
                },
                None => {
                    proof {
                        assert(!provider_item_ok(m[i as int]));
                    }
                    return Err(DecodeError::ExpectedEndpointProvider);
                },
            },
            _ => {
                proof {
                    assert(!provider_item_ok(m[i as int]));
                }
                return Err(DecodeError::ExpectedEndpointProvider);
            },
        }
        i += 1;
    }
    Ok((has_local, has_stun))
}

/// Builds the canonical provider collection from mention flags.
fn make_providers(has_local: bool, has_stun: bool) -> (r: Vec<EndpointProvider>)
    ensures
        has_local && has_stun ==> r@ == seq![EndpointProvider::Local, EndpointProvider::Stun],
        has_local && !has_stun ==> r@ == seq![EndpointProvider::Local],
        !has_local && has_stun ==> r@ == seq![EndpointProvider::Stun],
        !has_local && !has_stun ==> r@ == Seq::<EndpointProvider>::empty(),
{
    let mut out: Vec<EndpointProvider> = Vec::new();
    if has_local {
        out.push(EndpointProvider::Local);
    }
    if has_stun {
        out.push(EndpointProvider::Stun);
    }
    proof {
        if has_local && has_stun {
            assert(out@ =~= seq![EndpointProvider::Local, EndpointProvider::Stun]);
        } else if has_local {
            assert(out@ =~= seq![EndpointProvider::Local]);
        } else if has_stun {
            assert(out@ =~= seq![EndpointProvider::Stun]);
        } else {
            assert(out@ =~= Seq::<EndpointProvider>::empty());
        }
    }
    out
}

impl FeaturePersistentKeepalive {
    /// Decodes the keepalive group.
    pub fn from_json(j: &Json) -> (r: Result<Self, DecodeError>)
        ensures
            (match r {
                Ok(v) => dec_keepalive(j@) == Ok::<FeaturePersistentKeepalive, DecodeError>(v),
                Err(e) => dec_keepalive(j@) == Err::<FeaturePersistentKeepalive, DecodeError>(e),
            }),
    {
        match j {
            Json::Obj(fields) => {
                let vpn = match get_opt_u32(
                    fields,
                    "vpn",
                    Some(DEFAULT_PERSISTENT_KEEPALIVE_PERIOD),
                ) {
                    Ok(v) => v,
                    Err(e) => {
                        return Err(e);
                    },
                };
                let direct = match get_u32_or(
                    fields,
                    "direct",
                    DEFAULT_DIRECT_PERSISTENT_KEEPALIVE_PERIOD,
                ) {
                    Ok(v) => v,
                    Err(e) => {
                        return Err(e);
                    },
                };
                let proxying = match get_opt_u32(
                    fields,
                    "proxying",
                    Some(DEFAULT_PERSISTENT_KEEPALIVE_PERIOD),
                ) {
                    Ok(v) => v,
                    Err(e) => {
                        return Err(e);
                    },
                };
                let stun = match get_opt_u32(
                    fields,
                    "stun",
                    Some(DEFAULT_PERSISTENT_KEEPALIVE_PERIOD),
                ) {
                    Ok(v) => v,
                    Err(e) => {
                        return Err(e);
                    },
                };
                Ok(FeaturePersistentKeepalive { vpn, direct, proxying, stun })
            },
            _ => Err(DecodeError::ExpectedObject),
        }
    }
}

impl FeatureWireguard {
    /// Decodes the WireGuard group.
    pub fn from_json(j: &Json) -> (r: Result<Self, DecodeError>)
        ensures
            (match r {
                Ok(v) => dec_wireguard(j@) == Ok::<FeatureWireguard, DecodeError>(v),
                Err(e) => dec_wireguard(j@) == Err::<FeatureWireguard, DecodeError>(e),
            }),
    {
        match j {
            Json::Obj(fields) => match obj_get(fields, "persistent_keepalive") {
                Option::None => Ok(
                    FeatureWireguard { persistent_keepalive: FeaturePersistentKeepalive::default() },
                ),
                Option::Some(v) => match FeaturePersistentKeepalive::from_json(v) {
                    Ok(k) => Ok(FeatureWireguard { persistent_keepalive: k }),
                    Err(e) => Err(e),
                },
            },
            _ => Err(DecodeError::ExpectedObject),
        }
    }
}

impl FeatureExitDns {
    /// Decodes the exit-DNS group.
    pub fn from_json(j: &Json) -> (r: Result<Self, DecodeError>)
        ensures
            (match r {
                Ok(v) => dec_exit_dns(j@) == Ok::<FeatureExitDns, DecodeError>(v),
                Err(e) => dec_exit_dns(j@) == Err::<FeatureExitDns, DecodeError>(e),
            }),
    {
        match j {
            Json::Obj(fields) => match get_opt_bool(fields, "auto_switch_dns_ips") {
                Ok(auto_switch_dns_ips) => Ok(FeatureExitDns { auto_switch_dns_ips }),
                Err(e) => Err(e),
            },
            _ => Err(DecodeError::ExpectedObject),
        }
    }
}

impl FeatureQoS {
    /// Decodes the QoS group.
    pub fn from_json(j: &Json) -> (r: Result<Self, DecodeError>)
        ensures
            (match r {
                Ok(v) => dec_qos(j@) == Ok::<FeatureQoSV, DecodeError>(v@),
                Err(e) => dec_qos(j@) == Err::<FeatureQoSV, DecodeError>(e),
            }),
    {
        match j {
            Json::Obj(fields) => {
                let rtt_interval = match get_opt_u32(fields, "rtt_interval", None) {
                    Ok(v) => v,
                    Err(e) => {
                        return Err(e);
                    },
                };
                let rtt_tries = match get_opt_u32(fields, "rtt_tries", None) {
                    Ok(v) => v,
                    Err(e) => {
                        return Err(e);
                    },
                };
                let rtt_types = match get_opt_strings(fields, "rtt_types") {
                    Ok(v) => v,
                    Err(e) => {
                        return Err(e);
                    },
                };
                let buckets = match get_opt_u32(fields, "buckets", None) {
                    Ok(v) => v,
                    Err(e) => {
                        return Err(e);
                    },
                };
                Ok(FeatureQoS { rtt_interval, rtt_tries, rtt_types, buckets })
            },
            _ => Err(DecodeError::ExpectedObject),
        }
    }
}

impl FeatureNurse {
    /// Decodes the Nurse group.
    pub fn from_json(j: &Json) -> (r: Result<Self, DecodeError>)
        ensures
            (match r {
                Ok(v) => dec_nurse(j@) == Ok::<FeatureNurseV, DecodeError>(v@),
                Err(e) => dec_nurse(j@) == Err::<FeatureNurseV, DecodeError>(e),
            }),
    {
        match j {
            Json::Obj(fields) => {
                let fingerprint = match get_req_string(fields, "fingerprint") {
                    Ok(v) => v,
                    Err(e) => {
                        return Err(e);
                    },
                };
                let heartbeat_interval = match get_opt_u32(fields, "heartbeat_interval", None) {
                    Ok(v) => v,
                    Err(e) => {
                        return Err(e);
                    },
                };
                let qos = match obj_get(fields, "qos") {
                    Option::None => None,
                    Option::Some(v) => match v {
                        Json::Null => None,
                        _ => match FeatureQoS::from_json(v) {
                            Ok(q) => Some(q),
                            Err(e) => {
                                return Err(e);
                            },
                        },
                    },
                };
                Ok(FeatureNurse { fingerprint, heartbeat_interval, qos })
            },
            _ => Err(DecodeError::ExpectedObject),
        }
    }
}

impl FeatureLana {
    /// Decodes the Lana group.
    pub fn from_json(j: &Json) -> (r: Result<Self, DecodeError>)
        ensures
            (match r {
                Ok(v) => dec_lana(j@) == Ok::<FeatureLanaV, DecodeError>(v@),
                Err(e) => dec_lana(j@) == Err::<FeatureLanaV, DecodeError>(e),
            }),
    {
        match j {
            Json::Obj(fields) => {
                let event_path = match get_req_string(fields, "event_path") {
                    Ok(v) => v,
                    Err(e) => {
                        return Err(e);
                    },
                };
                let prod = match get_req_bool(fields, "prod") {
                    Ok(v) => v,
                    Err(e) => {
                        return Err(e);
                    },
                };
                Ok(FeatureLana { event_path, prod })
            },
            _ => Err(DecodeError::ExpectedObject),
        }
    }
}

impl FeaturePaths {
    /// Decodes the paths group.
    pub fn from_json(j: &Json) -> (r: Result<Self, DecodeError>)
        ensures
            (match r {
                Ok(v) => dec_paths_group(j@) == Ok::<FeaturePathsV, DecodeError>(v@),
                Err(e) => dec_paths_group(j@) == Err::<FeaturePathsV, DecodeError>(e),
            }),
    {
        match j {
            Json::Obj(fields) => {
                let priority = match obj_get(fields, "priority") {
                    Option::None => {
                        return Err(DecodeError::MissingField);
                    },
                    Option::Some(v) => match v {
                        Json::Arr(items) => match get_path_items(items) {
                            Ok(p) => p,
                            Err(e) => {
                                return Err(e);
                            },
                        },
                        _ => {
                            return Err(DecodeError::ExpectedList);
                        },
                    },
                };
                let force = match obj_get(fields, "force") {
                    Option::None => None,
                    Option::Some(v) => match v {
                        Json::Null => None,
                        Json::Str(s) => match parse_path_token(s) {
                            Some(p) => Some(p),
                            None => {
                                return Err(DecodeError::ExpectedPathType);
                            },
                        },
                        _ => {
                            return Err(DecodeError::ExpectedPathType);
                        },
                    },
                };
                Ok(FeaturePaths { priority, force })
            },
            _ => Err(DecodeError::ExpectedObject),
        }
    }
}

impl FeatureDirect {
    /// Decodes the direct-connection group.
    pub fn from_json(j: &Json) -> (r: Result<Self, DecodeError>)
        ensures
            (match r {
                Ok(v) => dec_direct(j@) == Ok::<FeatureDirectV, DecodeError>(v@),
                Err(e) => dec_direct(j@) == Err::<FeatureDirectV, DecodeError>(e),
            }),
    {
        match j {
            Json::Obj(fields) => {
                let providers = match obj_get(fields, "providers") {
                    Option::None => None,
                    Option::Some(v) => match v {
                        Json::Null => None,
                        Json::Arr(items) => match get_provider_flags(items) {
                            Ok(flags) => Some(make_providers(flags.0, flags.1)),
                            Err(e) => {
                                return Err(e);
                            },
                        },
                        _ => {
                            return Err(DecodeError::ExpectedList);
                        },
                    },
                };
                let endpoint_interval_secs = match get_opt_u64(fields, "endpoint_interval_secs") {
                    Ok(v) => v,
                    Err(e) => {
                        return Err(e);
                    },
                };
                Ok(FeatureDirect { providers, endpoint_interval_secs })
            },
            _ => Err(DecodeError::ExpectedObject),
        }
    }
}

impl Features {
    /// Decodes the whole configuration from a tree, applying the uniform
    /// default-resolution rules everywhere.
    pub fn from_json(j: &Json) -> (r: Result<Self, DecodeError>)
        ensures
            (match r {
                Ok(v) => dec_features(j@) == Ok::<FeaturesV, DecodeError>(v@),
                Err(e) => dec_features(j@) == Err::<FeaturesV, DecodeError>(e),
            }),
    {
        match j {
            Json::Obj(fields) => {
                let wireguard = match obj_get(fields, "wireguard") {
                    Option::None => FeatureWireguard::default(),
                    Option::Some(v) => match FeatureWireguard::from_json(v) {
                        Ok(w) => w,
                        Err(e) => {
                            return Err(e);
                        },
                    },
                };
                let nurse = match obj_get(fields, "nurse") {
                    Option::None => None,
                    Option::Some(v) => match v {
                        Json::Null => None,
                        _ => match FeatureNurse::from_json(v) {
                            Ok(n) => Some(n),
                            Err(e) => {
                                return Err(e);
                            },
                        },
                    },
                };
                let lana = match obj_get(fields, "lana") {
                    Option::None => None,
                    Option::Some(v) => match v {
                        Json::Null => None,
                        _ => match FeatureLana::from_json(v) {
                            Ok(l) => Some(l),
                            Err(e) => {
                                return Err(e);
                            },
                        },
                    },
                };
                let paths = match obj_get(fields, "paths") {
                    Option::None => None,
                    Option::Some(v) => match v {
                        Json::Null => None,
                        _ => match FeaturePaths::from_json(v) {
                            Ok(p) => Some(p),
                            Err(e) => {
                                return Err(e);
                            },
                        },
                    },
                };
                let exit_dns = match obj_get(fields, "exit_dns") {
                    Option::None => None,
                    Option::Some(v) => match v {
                        Json::Null => None,
                        _ => match FeatureExitDns::from_json(v) {
                            Ok(d) => Some(d),
                            Err(e) => {
                                return Err(e);
                            },
                        },
                    },
                };
                let direct = match obj_get(fields, "direct") {
                    Option::None => None,
                    Option::Some(v) => match v {
                        Json::Null => None,
                        _ => match FeatureDirect::from_json(v) {
                            Ok(d) => Some(d),
                            Err(e) => {
                                return Err(e);
                            },
                        },
                    },
                };
                let macos_sideload = match get_opt_bool(fields, "macos_sideload") {
                    Ok(v) => v,
                    Err(e) => {
                        return Err(e);
                    },
                };
                Ok(
                    Features {
                        wireguard,
                        nurse,
                        lana,
                        paths,
                        exit_dns,
                        direct,
                        macos_sideload,
                    },
                )
            },
            _ => Err(DecodeError::ExpectedObject),
        }
    }
}

/// What the `wireguard` field of the top-level object decodes to: its
/// internal defaults when absent.
pub open spec fn dec_wireguard_field(fields: Seq<(Seq<char>, JsonV)>) -> Result<
    FeatureWireguard,
    DecodeError,
> {
    match entry(fields, "wireguard"@) {
        Option::None => Ok(FeatureWireguard::spec_default()),
        Option::Some(v) => dec_wireguard(v),
    }
}

/// What the `nurse` group field decodes to: `None` when absent or null.
pub open spec fn dec_group_nurse(fields: Seq<(Seq<char>, JsonV)>) -> Result<
    Option<FeatureNurseV>,
    DecodeError,
> {
    match entry(fields, "nurse"@) {
        Option::None => Ok(None),
        Option::Some(JsonV::Null) => Ok(None),
        Option::Some(v) => match dec_nurse(v) {
            Err(e) => Err(e),
            Ok(n) => Ok(Some(n)),
        },
    }
}

/// What the `lana` group field decodes to: `None` when absent or null.
pub open spec fn dec_group_lana(fields: Seq<(Seq<char>, JsonV)>) -> Result<
    Option<FeatureLanaV>,
    DecodeError,
> {
    match entry(fields, "lana"@) {
        Option::None => Ok(None),
        Option::Some(JsonV::Null) => Ok(None),
        Option::Some(v) => match dec_lana(v) {
            Err(e) => Err(e),
            Ok(l) => Ok(Some(l)),
        },
    }
}

/// What the `paths` group field decodes to: `None` when absent or null.
pub open spec fn dec_group_paths(fields: Seq<(Seq<char>, JsonV)>) -> Result<
    Option<FeaturePathsV>,
    DecodeError,
> {
    match entry(fields, "paths"@) {
        Option::None => Ok(None),
        Option::Some(JsonV::Null) => Ok(None),
        Option::Some(v) => match dec_paths_group(v) {
            Err(e) => Err(e),
            Ok(p) => Ok(Some(p)),
        },
    }
}

/// What the `exit_dns` group field decodes to: `None` when absent or null.
pub open spec fn dec_group_exit_dns(fields: Seq<(Seq<char>, JsonV)>) -> Result<
    Option<FeatureExitDns>,
    DecodeError,
> {
    match entry(fields, "exit_dns"@) {
        Option::None => Ok(None),
        Option::Some(JsonV::Null) => Ok(None),
        Option::Some(v) => match dec_exit_dns(v) {
            Err(e) => Err(e),
            Ok(d) => Ok(Some(d)),
        },
    }
}

/// What the `direct` group field decodes to: `None` when absent or null.
pub open spec fn dec_group_direct(fields: Seq<(Seq<char>, JsonV)>) -> Result<
    Option<FeatureDirectV>,
    DecodeError,
> {
    match entry(fields, "direct"@) {
        Option::None => Ok(None),
        Option::Some(JsonV::Null) => Ok(None),
        Option::Some(v) => match dec_direct(v) {
            Err(e) => Err(e),
            Ok(d) => Ok(Some(d)),
        },
    }
}

} // verus!
