//! The laws the codec obeys, stated over the specification-level decoder
//! and encoder and proved for every input they accept.

use vstd::prelude::*;

use crate::decode::dec_direct;
use crate::decode::dec_exit_dns;
use crate::decode::dec_features;
use crate::decode::dec_keepalive;
use crate::decode::dec_lana;
use crate::decode::dec_nurse;
use crate::decode::dec_paths_group;
use crate::decode::dec_qos;
use crate::decode::dec_wireguard;
use crate::decode::path_item_ok;
use crate::decode::path_items_ok;
use crate::decode::path_items_val;
use crate::decode::path_token;
use crate::decode::provider_item_ok;
use crate::decode::provider_items_ok;
use crate::decode::provider_token;
use crate::decode::providers_has;
use crate::decode::providers_val;
use crate::decode::str_items_ok;
use crate::decode::str_items_val;
use crate::decode::DecodeError;
use crate::encode::enc_direct;
use crate::encode::enc_exit_dns;
use crate::encode::enc_features;
use crate::encode::enc_keepalive;
use crate::encode::enc_lana;
use crate::encode::enc_nurse;
use crate::encode::enc_paths;
use crate::encode::enc_qos;
use crate::encode::enc_wireguard;
use crate::encode::path_token_of;
use crate::encode::provider_token_of;
use crate::features::EndpointProvider;
use crate::features::FeatureDirectV;
use crate::features::FeatureExitDns;
use crate::features::FeatureLanaV;
use crate::features::FeatureNurseV;
use crate::features::FeaturePathsV;
use crate::features::FeaturePersistentKeepalive;
use crate::features::FeatureQoSV;
use crate::features::FeatureWireguard;
use crate::features::Features;
use crate::features::FeaturesV;
use crate::features::PathType;
use crate::json::entry;
use crate::json::JsonV;
use crate::DEFAULT_DIRECT_PERSISTENT_KEEPALIVE_PERIOD;
use crate::DEFAULT_PERSISTENT_KEEPALIVE_PERIOD;

verus! {

/// Law: within the keepalive group, a field absent from the input decodes to
/// its declared default, and an explicitly null optional field decodes to
/// disabled (`None`), overriding the default — the two are never confused.
pub proof fn lemma_keepalive_field_resolution(
    fields: Seq<(Seq<char>, JsonV)>,
    k: FeaturePersistentKeepalive,
)
    requires
        dec_keepalive(JsonV::Obj(fields)) == Ok::<FeaturePersistentKeepalive, DecodeError>(k),
    ensures
        entry(fields, "vpn"@) is None ==> k.vpn == Some(DEFAULT_PERSISTENT_KEEPALIVE_PERIOD),
        entry(fields, "direct"@) is None ==> k.direct == DEFAULT_DIRECT_PERSISTENT_KEEPALIVE_PERIOD,
        entry(fields, "proxying"@) is None ==> k.proxying == Some(
            DEFAULT_PERSISTENT_KEEPALIVE_PERIOD,
        ),
        entry(fields, "stun"@) is None ==> k.stun == Some(DEFAULT_PERSISTENT_KEEPALIVE_PERIOD),
        entry(fields, "vpn"@) == Some(JsonV::Null) ==> k.vpn is None,
        entry(fields, "proxying"@) == Some(JsonV::Null) ==> k.proxying is None,
        entry(fields, "stun"@) == Some(JsonV::Null) ==> k.stun is None,
{
}

/// Law: at the top level, the WireGuard group takes its internal defaults
/// when absent, and every other group is disabled both when absent and when
/// explicitly null.
pub proof fn lemma_features_field_resolution(fields: Seq<(Seq<char>, JsonV)>, f: FeaturesV)
    requires
        dec_features(JsonV::Obj(fields)) == Ok::<FeaturesV, DecodeError>(f),
    ensures
        entry(fields, "wireguard"@) is None ==> f.wireguard == FeatureWireguard::spec_default(),
        entry(fields, "nurse"@) is None ==> f.nurse is None,
        entry(fields, "nurse"@) == Some(JsonV::Null) ==> f.nurse is None,
        entry(fields, "lana"@) is None ==> f.lana is None,
        entry(fields, "lana"@) == Some(JsonV::Null) ==> f.lana is None,
        entry(fields, "paths"@) is None ==> f.paths is None,
        entry(fields, "paths"@) == Some(JsonV::Null) ==> f.paths is None,
        entry(fields, "exit_dns"@) is None ==> f.exit_dns is None,
        entry(fields, "exit_dns"@) == Some(JsonV::Null) ==> f.exit_dns is None,
        entry(fields, "direct"@) is None ==> f.direct is None,
        entry(fields, "direct"@) == Some(JsonV::Null) ==> f.direct is None,
        entry(fields, "macos_sideload"@) is None ==> f.macos_sideload is None,
        entry(fields, "macos_sideload"@) == Some(JsonV::Null) ==> f.macos_sideload is None,
{
}

/// Law: within the QoS group, every field defaults to `None` when absent
/// and is likewise `None` on an explicit null.
pub proof fn lemma_qos_field_resolution(fields: Seq<(Seq<char>, JsonV)>, q: FeatureQoSV)
    requires
        dec_qos(JsonV::Obj(fields)) == Ok::<FeatureQoSV, DecodeError>(q),
    ensures
        entry(fields, "rtt_interval"@) is None ==> q.rtt_interval is None,
        entry(fields, "rtt_interval"@) == Some(JsonV::Null) ==> q.rtt_interval is None,
        entry(fields, "rtt_tries"@) is None ==> q.rtt_tries is None,
        entry(fields, "rtt_tries"@) == Some(JsonV::Null) ==> q.rtt_tries is None,
        entry(fields, "rtt_types"@) is None ==> q.rtt_types is None,
        entry(fields, "rtt_types"@) == Some(JsonV::Null) ==> q.rtt_types is None,
        entry(fields, "buckets"@) is None ==> q.buckets is None,
        entry(fields, "buckets"@) == Some(JsonV::Null) ==> q.buckets is None,
{
}

/// Law: within the Nurse group, the optional fields default to `None` when
/// absent or explicitly null, while an empty object for the QoS subgroup
/// yields a present subgroup with every field `None` — not an absent one.
pub proof fn lemma_nurse_field_resolution(fields: Seq<(Seq<char>, JsonV)>, n: FeatureNurseV)
    requires
        dec_nurse(JsonV::Obj(fields)) == Ok::<FeatureNurseV, DecodeError>(n),
    ensures
        entry(fields, "heartbeat_interval"@) is None ==> n.heartbeat_interval is None,
        entry(fields, "heartbeat_interval"@) == Some(JsonV::Null) ==> n.heartbeat_interval
            is None,
        entry(fields, "qos"@) is None ==> n.qos is None,
        entry(fields, "qos"@) == Some(JsonV::Null) ==> n.qos is None,
        entry(fields, "qos"@) == Some(JsonV::Obj(Seq::empty())) ==> n.qos == Some(
            FeatureQoSV { rtt_interval: None, rtt_tries: None, rtt_types: None, buckets: None },
        ),
{
}

/// Law: within the direct-connection group, both fields default to `None`
/// when absent or explicitly null.
pub proof fn lemma_direct_field_resolution(fields: Seq<(Seq<char>, JsonV)>, d: FeatureDirectV)
    requires
        dec_direct(JsonV::Obj(fields)) == Ok::<FeatureDirectV, DecodeError>(d),
    ensures
        entry(fields, "providers"@) is None ==> d.providers is None,
        entry(fields, "providers"@) == Some(JsonV::Null) ==> d.providers is None,
        entry(fields, "endpoint_interval_secs"@) is None ==> d.endpoint_interval_secs is None,
        entry(fields, "endpoint_interval_secs"@) == Some(JsonV::Null) ==> d.endpoint_interval_secs
            is None,
{
}

/// Law: an empty object for a group still yields a present group, with every
/// field inside resolved to its default — not an absent group.
pub proof fn lemma_empty_group_present()
    ensures
        dec_qos(JsonV::Obj(Seq::empty())) == Ok::<FeatureQoSV, DecodeError>(
            FeatureQoSV { rtt_interval: None, rtt_tries: None, rtt_types: None, buckets: None },
        ),
        dec_exit_dns(JsonV::Obj(Seq::empty())) == Ok::<FeatureExitDns, DecodeError>(
            FeatureExitDns { auto_switch_dns_ips: None },
        ),
        dec_direct(JsonV::Obj(Seq::empty())) == Ok::<FeatureDirectV, DecodeError>(
            FeatureDirectV { providers: None, endpoint_interval_secs: None },
        ),
        dec_keepalive(JsonV::Obj(Seq::empty())) == Ok::<FeaturePersistentKeepalive, DecodeError>(
            FeaturePersistentKeepalive::spec_default(),
        ),
{
}

/// Law: an input with no keys at all decodes to the default configuration:
/// WireGuard at its internal defaults, every other group disabled.
pub proof fn lemma_empty_input_is_default()
    ensures
        dec_features(JsonV::Obj(Seq::empty())) == Ok::<FeaturesV, DecodeError>(
            Features::spec_default(),
        ),
{
}

/// The canonical spelling of the provider collection: duplicate-free, in
/// declaration order.
pub open spec fn providers_canonical(ps: Seq<EndpointProvider>) -> bool {
    ||| ps == seq![EndpointProvider::Local, EndpointProvider::Stun]
    ||| ps == seq![EndpointProvider::Local]
    ||| ps == seq![EndpointProvider::Stun]
    ||| ps == Seq::<EndpointProvider>::empty()
}

/// Whether a configuration value is one the decoder can produce: its
/// provider collection, when present, is canonical.
pub open spec fn features_wf(f: FeaturesV) -> bool {
    match f.direct {
        Some(d) => match d.providers {
            Some(ps) => providers_canonical(ps),
            None => true,
        },
        None => true,
    }
}

/// Every decoded configuration is well-formed.
pub proof fn lemma_decode_wf(j: JsonV, f: FeaturesV)
    requires
        dec_features(j) == Ok::<FeaturesV, DecodeError>(f),
    ensures
        features_wf(f),
{
    let fields = j->Obj_0;
    match entry(fields, "direct"@) {
        Option::None => {},
        Option::Some(JsonV::Null) => {},
        Option::Some(v) => {
            assert(dec_direct(v) is Ok);
        },
    }
}

/// Round trip for the keepalive group.
proof fn lemma_rt_keepalive(k: FeaturePersistentKeepalive)
    ensures
        dec_keepalive(enc_keepalive(k)) == Ok::<FeaturePersistentKeepalive, DecodeError>(k),
{
    reveal_strlit("vpn");
    reveal_strlit("direct");
    reveal_strlit("proxying");
    reveal_strlit("stun");
    assert("vpn"@.len() == 3 && "direct"@.len() == 6 && "proxying"@.len() == 8 && "stun"@.len()
        == 4);
    assert("vpn"@ != "direct"@ && "vpn"@ != "proxying"@ && "vpn"@ != "stun"@ && "direct"@
        != "proxying"@ && "direct"@ != "stun"@ && "proxying"@ != "stun"@);
    let fs = enc_keepalive(k)->Obj_0;
    crate::json::lemma_entry_at(fs, "vpn"@, 0);
    crate::json::lemma_entry_at(fs, "direct"@, 1);
    crate::json::lemma_entry_at(fs, "proxying"@, 2);
    crate::json::lemma_entry_at(fs, "stun"@, 3);
}

/// Round trip for the WireGuard group.
proof fn lemma_rt_wireguard(w: FeatureWireguard)
    ensures
        dec_wireguard(enc_wireguard(w)) == Ok::<FeatureWireguard, DecodeError>(w),
{
    let fs = enc_wireguard(w)->Obj_0;
    crate::json::lemma_entry_at(fs, "persistent_keepalive"@, 0);
    lemma_rt_keepalive(w.persistent_keepalive);
}

/// Round trip for the exit-DNS group.
proof fn lemma_rt_exit_dns(d: FeatureExitDns)
    ensures
        dec_exit_dns(enc_exit_dns(d)) == Ok::<FeatureExitDns, DecodeError>(d),
{
    let fs = enc_exit_dns(d)->Obj_0;
    crate::json::lemma_entry_at(fs, "auto_switch_dns_ips"@, 0);
}

/// Round trip for the QoS group.
proof fn lemma_rt_qos(q: FeatureQoSV)
    ensures
        dec_qos(enc_qos(q)) == Ok::<FeatureQoSV, DecodeError>(q),
{
    reveal_strlit("rtt_interval");
    reveal_strlit("rtt_tries");
    reveal_strlit("rtt_types");
    reveal_strlit("buckets");
    assert("rtt_interval"@.len() == 12 && "rtt_tries"@.len() == 9 && "rtt_types"@.len() == 9
        && "buckets"@.len() == 7);
    assert("rtt_tries"@[5] == 'r' && "rtt_types"@[5] == 'y');
    assert("rtt_interval"@ != "rtt_tries"@ && "rtt_interval"@ != "rtt_types"@ && "rtt_tries"@
        != "rtt_types"@ && "rtt_interval"@ != "buckets"@ && "rtt_tries"@ != "buckets"@
        && "rtt_types"@ != "buckets"@);
    let fs = enc_qos(q)->Obj_0;
    crate::json::lemma_entry_at(fs, "rtt_interval"@, 0);
    crate::json::lemma_entry_at(fs, "rtt_tries"@, 1);
    crate::json::lemma_entry_at(fs, "rtt_types"@, 2);
    crate::json::lemma_entry_at(fs, "buckets"@, 3);
    match q.rtt_types {
        Option::Some(ts) => {
            let items = Seq::new(ts.len(), |i: int| JsonV::Str(ts[i]));
            assert(str_items_ok(items));
            assert(str_items_val(items) =~= ts);
        },
        Option::None => {},
    }
}

/// Round trip for the Nurse group.
proof fn lemma_rt_nurse(n: FeatureNurseV)
    ensures
        dec_nurse(enc_nurse(n)) == Ok::<FeatureNurseV, DecodeError>(n),
{
    reveal_strlit("fingerprint");
    reveal_strlit("heartbeat_interval");
    reveal_strlit("qos");
    assert("fingerprint"@.len() == 11 && "heartbeat_interval"@.len() == 18 && "qos"@.len() == 3);
    assert("fingerprint"@ != "heartbeat_interval"@ && "fingerprint"@ != "qos"@
        && "heartbeat_interval"@ != "qos"@);
    let fs = enc_nurse(n)->Obj_0;
    crate::json::lemma_entry_at(fs, "fingerprint"@, 0);
    crate::json::lemma_entry_at(fs, "heartbeat_interval"@, 1);
    crate::json::lemma_entry_at(fs, "qos"@, 2);
    match n.qos {
        Option::Some(q) => {
            lemma_rt_qos(q);
        },
        Option::None => {},
    }
}

/// Round trip for the Lana group.
proof fn lemma_rt_lana(l: FeatureLanaV)
    ensures
        dec_lana(enc_lana(l)) == Ok::<FeatureLanaV, DecodeError>(l),
{
    reveal_strlit("event_path");
    reveal_strlit("prod");
    assert("event_path"@.len() == 10 && "prod"@.len() == 4);
    assert("event_path"@ != "prod"@);
    let fs = enc_lana(l)->Obj_0;
    crate::json::lemma_entry_at(fs, "event_path"@, 0);
    crate::json::lemma_entry_at(fs, "prod"@, 1);
}

/// A wire token decodes back to the path type it was written from.
proof fn lemma_path_token_rt(p: PathType)
    ensures
        path_token(path_token_of(p)) == Some(p),
{
    reveal_strlit("relay");
    reveal_strlit("direct");
    match p {
        PathType::Relay => {},
        PathType::Direct => {
            assert("direct"@.len() == 6);
        },
    }
}

/// Round trip for the paths group.
proof fn lemma_rt_paths(p: FeaturePathsV)
    ensures
        dec_paths_group(enc_paths(p)) == Ok::<FeaturePathsV, DecodeError>(p),
{
    reveal_strlit("priority");
    reveal_strlit("force");
    assert("priority"@.len() == 8 && "force"@.len() == 5);
    assert("priority"@ != "force"@);
    let fs = enc_paths(p)->Obj_0;
    crate::json::lemma_entry_at(fs, "priority"@, 0);
    crate::json::lemma_entry_at(fs, "force"@, 1);
    let items = Seq::new(p.priority.len(), |i: int| JsonV::Str(path_token_of(p.priority[i])));
    assert forall|i: int| 0 <= i < items.len() implies path_item_ok(#[trigger] items[i]) by {
        lemma_path_token_rt(p.priority[i]);
    }
    assert(path_items_ok(items));
    assert forall|i: int| 0 <= i < items.len() implies path_items_val(items)[i]
        == p.priority[i] by {
        lemma_path_token_rt(p.priority[i]);
    }
    assert(path_items_val(items) =~= p.priority);
    match p.force {
        Option::Some(x) => {
            lemma_path_token_rt(x);
        },
        Option::None => {},
    }
}

/// A wire token decodes back to the endpoint provider it was written from.
proof fn lemma_provider_token_rt(p: EndpointProvider)
    ensures
        provider_token(provider_token_of(p)) == Some(p),
{
    reveal_strlit("local");
    reveal_strlit("stun");
    match p {
        EndpointProvider::Local => {},
        EndpointProvider::Stun => {
            assert("stun"@.len() == 4);
        },
    }
}

/// Round trip for the direct-connection group, for a canonical provider
/// collection.
proof fn lemma_rt_direct(d: FeatureDirectV)
    requires
        match d.providers {
            Some(ps) => providers_canonical(ps),
            None => true,
        },
    ensures
        dec_direct(enc_direct(d)) == Ok::<FeatureDirectV, DecodeError>(d),
{
    reveal_strlit("providers");
    reveal_strlit("endpoint_interval_secs");
    assert("providers"@.len() == 9 && "endpoint_interval_secs"@.len() == 22);
    assert("providers"@ != "endpoint_interval_secs"@);
    let fs = enc_direct(d)->Obj_0;
    crate::json::lemma_entry_at(fs, "providers"@, 0);
    crate::json::lemma_entry_at(fs, "endpoint_interval_secs"@, 1);
    match d.providers {
        Option::Some(ps) => {
            let items = Seq::new(ps.len(), |i: int| JsonV::Str(provider_token_of(ps[i])));
            assert forall|i: int| 0 <= i < items.len() implies provider_item_ok(
                #[trigger] items[i],
            ) by {
                lemma_provider_token_rt(ps[i]);
            }
            assert(provider_items_ok(items));
            assert forall|p: EndpointProvider| providers_has(items, p) == ps.contains(p) by {
                if providers_has(items, p) {
                    let i = choose|i: int|
                        0 <= i < items.len() && provider_token(#[trigger] items[i]->Str_0)
                            == Some(p);
                    lemma_provider_token_rt(ps[i]);
                    assert(ps[i] == p);
                }
                if ps.contains(p) {
                    let i = choose|i: int| 0 <= i < ps.len() && ps[i] == p;
                    lemma_provider_token_rt(ps[i]);
                    assert(provider_token(items[i]->Str_0) == Some(p));
                }
            }
            if ps == seq![EndpointProvider::Local, EndpointProvider::Stun] {
                assert(ps.contains(EndpointProvider::Local)) by {
                    assert(ps[0] == EndpointProvider::Local);
                }
                assert(ps.contains(EndpointProvider::Stun)) by {
                    assert(ps[1] == EndpointProvider::Stun);
                }
                assert(providers_val(items) == ps);
            } else if ps == seq![EndpointProvider::Local] {
                assert(ps.contains(EndpointProvider::Local)) by {
                    assert(ps[0] == EndpointProvider::Local);
                }
                assert(!ps.contains(EndpointProvider::Stun));
                assert(providers_val(items) == ps);
            } else if ps == seq![EndpointProvider::Stun] {
                assert(ps.contains(EndpointProvider::Stun)) by {
                    assert(ps[0] == EndpointProvider::Stun);
                }
                assert(!ps.contains(EndpointProvider::Local));
                assert(providers_val(items) == ps);
            } else {
                assert(ps == Seq::<EndpointProvider>::empty());
                assert(!ps.contains(EndpointProvider::Local));
                assert(!ps.contains(EndpointProvider::Stun));
                assert(providers_val(items) == ps);
            }
        },
        Option::None => {},
    }
}

/// Law: decoding what the encoder wrote yields the value back, for every
/// well-formed configuration.
pub proof fn lemma_round_trip(f: FeaturesV)
    requires
        features_wf(f),
    ensures
        dec_features(enc_features(f)) == Ok::<FeaturesV, DecodeError>(f),
{
    reveal_strlit("wireguard");
    reveal_strlit("nurse");
    reveal_strlit("lana");
    reveal_strlit("paths");
    reveal_strlit("exit_dns");
    reveal_strlit("direct");
    reveal_strlit("macos_sideload");
    assert("wireguard"@.len() == 9 && "nurse"@.len() == 5 && "lana"@.len() == 4 && "paths"@.len()
        == 5 && "exit_dns"@.len() == 8 && "direct"@.len() == 6 && "macos_sideload"@.len() == 14);
    assert("nurse"@[0] == 'n' && "paths"@[0] == 'p');
    assert("wireguard"@ != "nurse"@ && "wireguard"@ != "lana"@ && "wireguard"@ != "paths"@
        && "wireguard"@ != "exit_dns"@ && "wireguard"@ != "direct"@ && "wireguard"@
        != "macos_sideload"@);
    assert("nurse"@ != "lana"@ && "nurse"@ != "paths"@ && "nurse"@ != "exit_dns"@ && "nurse"@
        != "direct"@ && "nurse"@ != "macos_sideload"@);
    assert("lana"@ != "paths"@ && "lana"@ != "exit_dns"@ && "lana"@ != "direct"@ && "lana"@
        != "macos_sideload"@);
    assert("paths"@ != "exit_dns"@ && "paths"@ != "direct"@ && "paths"@ != "macos_sideload"@);
    assert("exit_dns"@ != "direct"@ && "exit_dns"@ != "macos_sideload"@);
    assert("direct"@ != "macos_sideload"@);
    let fs = enc_features(f)->Obj_0;
    crate::json::lemma_entry_at(fs, "wireguard"@, 0);
    crate::json::lemma_entry_at(fs, "nurse"@, 1);
    crate::json::lemma_entry_at(fs, "lana"@, 2);
    crate::json::lemma_entry_at(fs, "paths"@, 3);
    crate::json::lemma_entry_at(fs, "exit_dns"@, 4);
    crate::json::lemma_entry_at(fs, "direct"@, 5);
    crate::json::lemma_entry_at(fs, "macos_sideload"@, 6);
    lemma_rt_wireguard(f.wireguard);
    match f.nurse {
        Option::Some(n) => {
            lemma_rt_nurse(n);
        },
        Option::None => {},
    }
    match f.lana {
        Option::Some(l) => {
            lemma_rt_lana(l);
        },
        Option::None => {},
    }
    match f.paths {
        Option::Some(p) => {
            lemma_rt_paths(p);
        },
        Option::None => {},
    }
    match f.exit_dns {
        Option::Some(d) => {
            lemma_rt_exit_dns(d);
        },
        Option::None => {},
    }
    match f.direct {
        Option::Some(d) => {
            lemma_rt_direct(d);
        },
        Option::None => {},
    }
}

/// Law: every value the decoder produces survives an encode/decode round
/// trip unchanged — encoding a decoded configuration and decoding it again
/// yields an equal value.
pub proof fn lemma_round_trip_decoded(j: JsonV, f: FeaturesV)
    requires
        dec_features(j) == Ok::<FeaturesV, DecodeError>(f),
    ensures
        dec_features(enc_features(f)) == Ok::<FeaturesV, DecodeError>(f),
{
    lemma_decode_wf(j, f);
    lemma_round_trip(f);
}

} // verus!
