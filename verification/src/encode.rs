//! Encoding a [`Features`] value back into a [`Json`] tree. Every field of
//! every present group is written out explicitly — a disabled optional field
//! becomes an explicit null — so that decoding the result cannot fall back
//! to a default the value did not hold.

use vstd::prelude::*;

use crate::features::EndpointProvider;
use crate::features::FeatureDirect;
use crate::features::FeatureDirectV;
use crate::features::FeatureExitDns;
use crate::features::FeatureLana;
use crate::features::FeatureLanaV;
use crate::features::FeatureNurse;
use crate::features::FeatureNurseV;
use crate::features::FeaturePaths;
use crate::features::FeaturePathsV;
use crate::features::FeaturePersistentKeepalive;
use crate::features::FeatureQoS;
use crate::features::FeatureQoSV;
use crate::features::FeatureWireguard;
use crate::features::Features;
use crate::features::FeaturesV;
use crate::features::PathType;
use crate::json::arr_model;
use crate::json::fields_model;
use crate::json::Json;
use crate::json::JsonV;

verus! {

/// How an optional `u32` field is written: an explicit null when disabled.
pub open spec fn enc_opt_u32(v: Option<u32>) -> JsonV {
    match v {
        Some(n) => JsonV::UInt(n as u64),
        None => JsonV::Null,
    }
}

/// How an optional `u64` field is written: an explicit null when disabled.
pub open spec fn enc_opt_u64(v: Option<u64>) -> JsonV {
    match v {
        Some(n) => JsonV::UInt(n),
        None => JsonV::Null,
    }
}

/// How an optional boolean field is written: an explicit null when disabled.
pub open spec fn enc_opt_bool(v: Option<bool>) -> JsonV {
    match v {
        Some(b) => JsonV::Bool(b),
        None => JsonV::Null,
    }
}

/// The fixed wire token of a connection-path type.
pub open spec fn path_token_of(p: PathType) -> Seq<char> {
    match p {
        PathType::Relay => "relay"@,
        PathType::Direct => "direct"@,
    }
}

/// The fixed wire token of an endpoint provider.
pub open spec fn provider_token_of(p: EndpointProvider) -> Seq<char> {
    match p {
        EndpointProvider::Local => "local"@,
        EndpointProvider::Stun => "stun"@,
    }
}

/// How the keepalive group is written.
pub open spec fn enc_keepalive(k: FeaturePersistentKeepalive) -> JsonV {
    JsonV::Obj(
        seq![
            ("vpn"@, enc_opt_u32(k.vpn)),
            ("direct"@, JsonV::UInt(k.direct as u64)),
            ("proxying"@, enc_opt_u32(k.proxying)),
            ("stun"@, enc_opt_u32(k.stun)),
        ],
    )
}

/// How the WireGuard group is written.
pub open spec fn enc_wireguard(w: FeatureWireguard) -> JsonV {
    JsonV::Obj(seq![("persistent_keepalive"@, enc_keepalive(w.persistent_keepalive))])
}

/// How the exit-DNS group is written.
pub open spec fn enc_exit_dns(d: FeatureExitDns) -> JsonV {
    JsonV::Obj(seq![("auto_switch_dns_ips"@, enc_opt_bool(d.auto_switch_dns_ips))])
}

/// How the QoS group is written.
pub open spec fn enc_qos(q: FeatureQoSV) -> JsonV {
    JsonV::Obj(
        seq![
            ("rtt_interval"@, enc_opt_u32(q.rtt_interval)),
            ("rtt_tries"@, enc_opt_u32(q.rtt_tries)),
            (
                "rtt_types"@,
                match q.rtt_types {
                    Some(ts) => JsonV::Arr(Seq::new(ts.len(), |i: int| JsonV::Str(ts[i]))),
                    None => JsonV::Null,
                },
            ),
            ("buckets"@, enc_opt_u32(q.buckets)),
        ],
    )
}

/// How the Nurse group is written.
pub open spec fn enc_nurse(n: FeatureNurseV) -> JsonV {
    JsonV::Obj(
        seq![
            ("fingerprint"@, JsonV::Str(n.fingerprint)),
            ("heartbeat_interval"@, enc_opt_u32(n.heartbeat_interval)),
            (
                "qos"@,
                match n.qos {
                    Some(q) => enc_qos(q),
                    None => JsonV::Null,
                },
            ),
        ],
    )
}

/// How the Lana group is written.
pub open spec fn enc_lana(l: FeatureLanaV) -> JsonV {
    JsonV::Obj(seq![("event_path"@, JsonV::Str(l.event_path)), ("prod"@, JsonV::Bool(l.prod))])
}

/// How the paths group is written.
pub open spec fn enc_paths(p: FeaturePathsV) -> JsonV {
    JsonV::Obj(
        seq![
            (
                "priority"@,
                JsonV::Arr(
                    Seq::new(p.priority.len(), |i: int| JsonV::Str(path_token_of(p.priority[i]))),
                ),
            ),
            (
                "force"@,
                match p.force {
                    Some(x) => JsonV::Str(path_token_of(x)),
                    None => JsonV::Null,
                },
            ),
        ],
    )
}

/// How the direct-connection group is written.
pub open spec fn enc_direct(d: FeatureDirectV) -> JsonV {
    JsonV::Obj(
        seq![
            (
                "providers"@,
                match d.providers {
                    Some(ps) => JsonV::Arr(
                        Seq::new(ps.len(), |i: int| JsonV::Str(provider_token_of(ps[i]))),
                    ),
                    None => JsonV::Null,
                },
            ),
            ("endpoint_interval_secs"@, enc_opt_u64(d.endpoint_interval_secs)),
        ],
    )
}

/// How the whole configuration is written: every top-level key is present,
/// with an explicit null for each disabled group.
pub open spec fn enc_features(f: FeaturesV) -> JsonV {
    JsonV::Obj(
        seq![
            ("wireguard"@, enc_wireguard(f.wireguard)),
            (
                "nurse"@,
                match f.nurse {
                    Some(n) => enc_nurse(n),
                    None => JsonV::Null,
                },
            ),
            (
                "lana"@,
                match f.lana {
                    Some(l) => enc_lana(l),
                    None => JsonV::Null,
                },
            ),
            (
                "paths"@,
                match f.paths {
                    Some(p) => enc_paths(p),
                    None => JsonV::Null,
                },
            ),
            (
                "exit_dns"@,
                match f.exit_dns {
                    Some(d) => enc_exit_dns(d),
                    None => JsonV::Null,
                },
            ),
            (
                "direct"@,
                match f.direct {
                    Some(d) => enc_direct(d),
                    None => JsonV::Null,
                },
            ),
            ("macos_sideload"@, enc_opt_bool(f.macos_sideload)),
        ],
    )
}

/// Writes an optional `u32` value.
fn opt_u32_json(v: Option<u32>) -> (r: Json)
    ensures
        r@ == enc_opt_u32(v),
{
    match v {
        Some(n) => Json::UInt(n as u64),
        None => Json::Null,
    }
}

/// Writes an optional `u64` value.
fn opt_u64_json(v: Option<u64>) -> (r: Json)
    ensures
        r@ == enc_opt_u64(v),
{
    match v {
        Some(n) => Json::UInt(n),
        None => Json::Null,
    }
}

/// Writes an optional boolean value.
fn opt_bool_json(v: Option<bool>) -> (r: Json)
    ensures
        r@ == enc_opt_bool(v),
{
    match v {
        Some(b) => Json::Bool(b),
        None => Json::Null,
    }
}

/// The wire token of a connection-path type.
fn path_token_string(p: PathType) -> (r: String)
    ensures
        r@ == path_token_of(p),
{
    match p {
        PathType::Relay => String::from_str("relay"),
        PathType::Direct => String::from_str("direct"),
    }
}

/// The wire token of an endpoint provider.
fn provider_token_string(p: EndpointProvider) -> (r: String)
    ensures
        r@ == provider_token_of(p),
{
    match p {
        EndpointProvider::Local => String::from_str("local"),
        EndpointProvider::Stun => String::from_str("stun"),
    }
}

impl FeaturePersistentKeepalive {
    /// Writes the keepalive group as a tree.
    pub fn to_json(&self) -> (r: Json)
        ensures
            r@ == enc_keepalive(*self),
    {
        let mut fields: Vec<(String, Json)> = Vec::new();
        fields.push((String::from_str("vpn"), opt_u32_json(self.vpn)));
        fields.push((String::from_str("direct"), Json::UInt(self.direct as u64)));
        fields.push((String::from_str("proxying"), opt_u32_json(self.proxying)));
        fields.push((String::from_str("stun"), opt_u32_json(self.stun)));
        proof {
            assert(fields_model(fields@) =~= enc_keepalive(*self)->Obj_0);
        }
        Json::Obj(fields)
    }
}

impl FeatureWireguard {
    /// Writes the WireGuard group as a tree.
    pub fn to_json(&self) -> (r: Json)
        ensures
            r@ == enc_wireguard(*self),
    {
        let mut fields: Vec<(String, Json)> = Vec::new();
        fields.push(
            (String::from_str("persistent_keepalive"), self.persistent_keepalive.to_json()),
        );
        proof {
            assert(fields_model(fields@) =~= enc_wireguard(*self)->Obj_0);
        }
        Json::Obj(fields)
    }
}

impl FeatureExitDns {
    /// Writes the exit-DNS group as a tree.
    pub fn to_json(&self) -> (r: Json)
        ensures
            r@ == enc_exit_dns(*self),
    {
        let mut fields: Vec<(String, Json)> = Vec::new();
        fields.push(
            (String::from_str("auto_switch_dns_ips"), opt_bool_json(self.auto_switch_dns_ips)),
        );
        proof {
            assert(fields_model(fields@) =~= enc_exit_dns(*self)->Obj_0);
        }
        Json::Obj(fields)
    }
}

impl FeatureQoS {
    /// Writes the QoS group as a tree.
    pub fn to_json(&self) -> (r: Json)
        ensures
            r@ == enc_qos(self@),
    {
        let rtt_types_json = match &self.rtt_types {
            Some(ts) => {
                let mut items: Vec<Json> = Vec::new();
                let mut i: usize = 0;
                while i < ts.len()
                    invariant
                        0 <= i <= ts.len(),
                        items@.len() == i,
                        forall|k: int|
                            0 <= k < i ==> (#[trigger] items@[k]) == Json::Str(ts@[k]),
                    decreases ts.len() - i,
                {
                    items.push(Json::Str(ts[i].clone()));
                    i += 1;
                }
                proof {
                    assert(arr_model(items@) =~= Seq::new(
                        ts.deep_view().len(),
                        |k: int| JsonV::Str(ts.deep_view()[k]),
                    ));
                }
                Json::Arr(items)
            },
            None => Json::Null,
        };
        let mut fields: Vec<(String, Json)> = Vec::new();
        fields.push((String::from_str("rtt_interval"), opt_u32_json(self.rtt_interval)));
        fields.push((String::from_str("rtt_tries"), opt_u32_json(self.rtt_tries)));
        fields.push((String::from_str("rtt_types"), rtt_types_json));
        fields.push((String::from_str("buckets"), opt_u32_json(self.buckets)));
        proof {
            assert(fields_model(fields@) =~= enc_qos(self@)->Obj_0);
        }
        Json::Obj(fields)
    }
}

impl FeatureNurse {
    /// Writes the Nurse group as a tree.
    pub fn to_json(&self) -> (r: Json)
        ensures
            r@ == enc_nurse(self@),
    {
        let qos_json = match &self.qos {
            Some(q) => q.to_json(),
            None => Json::Null,
        };
        let mut fields: Vec<(String, Json)> = Vec::new();
        fields.push((String::from_str("fingerprint"), Json::Str(self.fingerprint.clone())));
        fields.push(
            (String::from_str("heartbeat_interval"), opt_u32_json(self.heartbeat_interval)),
        );
        fields.push((String::from_str("qos"), qos_json));
        proof {
            assert(fields_model(fields@) =~= enc_nurse(self@)->Obj_0);
        }
        Json::Obj(fields)
    }
}

impl FeatureLana {
    /// Writes the Lana group as a tree.
    pub fn to_json(&self) -> (r: Json)
        ensures
            r@ == enc_lana(self@),
    {
        let mut fields: Vec<(String, Json)> = Vec::new();
        fields.push((String::from_str("event_path"), Json::Str(self.event_path.clone())));
        fields.push((String::from_str("prod"), Json::Bool(self.prod)));
        proof {
            assert(fields_model(fields@) =~= enc_lana(self@)->Obj_0);
        }
        Json::Obj(fields)
    }
}

impl FeaturePaths {
    /// Writes the paths group as a tree.
    pub fn to_json(&self) -> (r: Json)
        ensures
            r@ == enc_paths(self@),
    {
        let mut items: Vec<Json> = Vec::new();
        let mut i: usize = 0;
        while i < self.priority.len()
            invariant
                0 <= i <= self.priority.len(),
                items@.len() == i,
                forall|k: int|
                    0 <= k < i ==> (#[trigger] items@[k]).model() == JsonV::Str(
                        path_token_of(self.priority@[k]),
                    ),
            decreases self.priority.len() - i,
        {
            items.push(Json::Str(path_token_string(self.priority[i])));
            i += 1;
        }
        proof {
            assert(arr_model(items@) =~= Seq::new(
                self.priority@.len(),
                |k: int| JsonV::Str(path_token_of(self.priority@[k])),
            ));
        }
        let force_json = match self.force {
            Some(x) => Json::Str(path_token_string(x)),
            None => Json::Null,
        };
        let mut fields: Vec<(String, Json)> = Vec::new();
        fields.push((String::from_str("priority"), Json::Arr(items)));
        fields.push((String::from_str("force"), force_json));
        proof {
            assert(fields_model(fields@) =~= enc_paths(self@)->Obj_0);
        }
        Json::Obj(fields)
    }
}

impl FeatureDirect {
    /// Writes the direct-connection group as a tree.
    pub fn to_json(&self) -> (r: Json)
        ensures
            r@ == enc_direct(self@),
    {
        let providers_json = match &self.providers {
            Some(ps) => {
                let mut items: Vec<Json> = Vec::new();
                let mut i: usize = 0;
                while i < ps.len()
                    invariant
                        0 <= i <= ps.len(),
                        items@.len() == i,
                        forall|k: int|
                            0 <= k < i ==> (#[trigger] items@[k]).model() == JsonV::Str(
                                provider_token_of(ps@[k]),
                            ),
                    decreases ps.len() - i,
                {
                    items.push(Json::Str(provider_token_string(ps[i])));
                    i += 1;
                }
                proof {
                    assert(arr_model(items@) =~= Seq::new(
                        ps@.len(),
                        |k: int| JsonV::Str(provider_token_of(ps@[k])),
                    ));
                }
                Json::Arr(items)
            },
            None => Json::Null,
        };
        let mut fields: Vec<(String, Json)> = Vec::new();
        fields.push((String::from_str("providers"), providers_json));
        fields.push(
            (String::from_str("endpoint_interval_secs"), opt_u64_json(self.endpoint_interval_secs)),
        );
        proof {
            assert(fields_model(fields@) =~= enc_direct(self@)->Obj_0);
        }
        Json::Obj(fields)
    }
}

impl Features {
    /// Writes the whole configuration as a tree. Every top-level key is
    /// present, with an explicit null for each disabled group, so that
    /// decoding the result yields this value back.
    pub fn to_json(&self) -> (r: Json)
        ensures
            r@ == enc_features(self@),
    {
        let nurse_json = match &self.nurse {
            Some(n) => n.to_json(),
            None => Json::Null,
        };
        let lana_json = match &self.lana {
            Some(l) => l.to_json(),
            None => Json::Null,
        };
        let paths_json = match &self.paths {
            Some(p) => p.to_json(),
            None => Json::Null,
        };
        let exit_dns_json = match &self.exit_dns {
            Some(d) => d.to_json(),
            None => Json::Null,
        };
        let direct_json = match &self.direct {
            Some(d) => d.to_json(),
            None => Json::Null,
        };
        let mut fields: Vec<(String, Json)> = Vec::new();
        fields.push((String::from_str("wireguard"), self.wireguard.to_json()));
        fields.push((String::from_str("nurse"), nurse_json));
        fields.push((String::from_str("lana"), lana_json));
        fields.push((String::from_str("paths"), paths_json));
        fields.push((String::from_str("exit_dns"), exit_dns_json));
        fields.push((String::from_str("direct"), direct_json));
        fields.push((String::from_str("macos_sideload"), opt_bool_json(self.macos_sideload)));
        proof {
            assert(fields_model(fields@) =~= enc_features(self@)->Obj_0);
        }
        Json::Obj(fields)
    }
}

} // verus!
