//! The feature-configuration data model: a tree of typed records and
//! enumerations describing every configurable feature, the default-value
//! providers applied while decoding, and the connection-path priority
//! resolver.

use vstd::prelude::*;

use crate::DEFAULT_DIRECT_PERSISTENT_KEEPALIVE_PERIOD;
use crate::DEFAULT_PERSISTENT_KEEPALIVE_PERIOD;

verus! {

/// Mesh connection path type.
#[derive(Clone, Copy, Debug, PartialEq, Eq, Hash, Structural)]
pub enum PathType {
    /// Nodes connected via a middle-man relay.
    Relay,
    /// Nodes connected directly over WireGuard.
    Direct,
}

/// Available endpoint providers for meshnet direct connections.
#[derive(Clone, Copy, Debug, PartialEq, Eq, Hash, Structural)]
pub enum EndpointProvider {
    /// Use local interface addresses as possible endpoints.
    Local,
    /// Use STUN results as possible endpoints.
    Stun,
}

/// Configurable persistent keepalive periods for different classes of peers.
#[derive(Clone, Copy, Debug, PartialEq, Eq)]
pub struct FeaturePersistentKeepalive {
    /// Keepalive period for VPN peers, in seconds; `None` disables it.
    pub vpn: Option<u32>,
    /// Keepalive period for direct peers, in seconds; never disabled.
    pub direct: u32,
    /// Keepalive period for proxying peers, in seconds; `None` disables it.
    pub proxying: Option<u32>,
    /// Keepalive period for STUN peers, in seconds; `None` disables it.
    pub stun: Option<u32>,
}

/// Configurable features for WireGuard peers.
#[derive(Clone, Copy, Debug, PartialEq, Eq)]
pub struct FeatureWireguard {
    /// Persistent keepalive periods for WireGuard peers.
    pub persistent_keepalive: FeaturePersistentKeepalive,
}

/// QoS configuration options.
#[derive(Clone, Debug, PartialEq, Eq)]
pub struct FeatureQoS {
    /// How often to collect round-trip-time data, in seconds.
    pub rtt_interval: Option<u32>,
    /// Number of round-trip-time tries for each node.
    pub rtt_tries: Option<u32>,
    /// Types of round-trip-time analytics.
    pub rtt_types: Option<Vec<String>>,
    /// Number of buckets used for round-trip time and throughput.
    pub buckets: Option<u32>,
}

/// Configurable features for the Nurse telemetry module.
#[derive(Clone, Debug, PartialEq, Eq)]
pub struct FeatureNurse {
    /// The unique identifier of the device, used for the meshnet identity.
    pub fingerprint: String,
    /// Heartbeat interval, in seconds.
    pub heartbeat_interval: Option<u32>,
    /// QoS configuration for Nurse.
    pub qos: Option<FeatureQoS>,
}

/// Configurable features for the Lana event-logging module.
#[derive(Clone, Debug, PartialEq, Eq)]
pub struct FeatureLana {
    /// Path of the file where events will be stored.
    pub event_path: String,
    /// Whether the events should be sent to production or not.
    pub prod: bool,
}

/// Configurable features for exit DNS.
#[derive(Clone, Copy, Debug, PartialEq, Eq)]
pub struct FeatureExitDns {
    /// Controls if the DNS peer may be reconfigured when an exit node is
    /// (dis)connected.
    pub auto_switch_dns_ips: Option<bool>,
}

/// Enabled connection paths.
#[derive(Clone, Debug, PartialEq, Eq)]
pub struct FeaturePaths {
    /// Paths in increasing priority: the first entry is the worst;
    /// [`PathType::Relay`] is always taken to sit at a priority below all of them.
    pub priority: Vec<PathType>,
    /// Force only one specific path to be used.
    pub force: Option<PathType>,
}

/// Enable meshnet direct connections.
#[derive(Clone, Debug, PartialEq, Eq)]
pub struct FeatureDirect {
    /// Endpoint providers to use; a duplicate-free collection kept in
    /// declaration order ([`EndpointProvider::Local`] before
    /// [`EndpointProvider::Stun`]) by the decoder.
    pub providers: Option<Vec<EndpointProvider>>,
    /// Polling interval for endpoints, in seconds.
    pub endpoint_interval_secs: Option<u64>,
}

/// Encompasses all of the features that can be enabled.
#[derive(Clone, Debug, PartialEq, Eq)]
pub struct Features {
    /// Additional WireGuard configuration; always present.
    pub wireguard: FeatureWireguard,
    /// Nurse telemetry features; absent means disabled.
    pub nurse: Option<FeatureNurse>,
    /// Event-logging features; absent means disabled.
    pub lana: Option<FeatureLana>,
    /// Connection-path preference; absent means disabled.
    pub paths: Option<FeaturePaths>,
    /// Exit DNS options; absent means disabled.
    pub exit_dns: Option<FeatureExitDns>,
    /// Direct WireGuard connection options; absent means disabled.
    pub direct: Option<FeatureDirect>,
    /// Should only be set for macOS sideload.
    pub macos_sideload: Option<bool>,
}

/// Model of [`FeatureQoS`].
pub struct FeatureQoSV {
    /// Model of the `rtt_interval` field.
    pub rtt_interval: Option<u32>,
    /// Model of the `rtt_tries` field.
    pub rtt_tries: Option<u32>,
    /// Model of the `rtt_types` field.
    pub rtt_types: Option<Seq<Seq<char>>>,
    /// Model of the `buckets` field.
    pub buckets: Option<u32>,
}

/// Model of [`FeatureNurse`].
pub struct FeatureNurseV {
    /// Model of the `fingerprint` field.
    pub fingerprint: Seq<char>,
    /// Model of the `heartbeat_interval` field.
    pub heartbeat_interval: Option<u32>,
    /// Model of the `qos` field.
    pub qos: Option<FeatureQoSV>,
}

/// Model of [`FeatureLana`].
pub struct FeatureLanaV {
    /// Model of the `event_path` field.
    pub event_path: Seq<char>,
    /// Model of the `prod` field.
    pub prod: bool,
}

/// Model of [`FeaturePaths`].
pub struct FeaturePathsV {
    /// Model of the `priority` field.
    pub priority: Seq<PathType>,
    /// Model of the `force` field.
    pub force: Option<PathType>,
}

/// Model of [`FeatureDirect`].
pub struct FeatureDirectV {
    /// Model of the `providers` field.
    pub providers: Option<Seq<EndpointProvider>>,
    /// Model of the `endpoint_interval_secs` field.
    pub endpoint_interval_secs: Option<u64>,
}

/// Model of [`Features`].
pub struct FeaturesV {
    /// Model of the `wireguard` field.
    pub wireguard: FeatureWireguard,
    /// Model of the `nurse` field.
    pub nurse: Option<FeatureNurseV>,
    /// Model of the `lana` field.
    pub lana: Option<FeatureLanaV>,
    /// Model of the `paths` field.
    pub paths: Option<FeaturePathsV>,
    /// Model of the `exit_dns` field.
    pub exit_dns: Option<FeatureExitDns>,
    /// Model of the `direct` field.
    pub direct: Option<FeatureDirectV>,
    /// Model of the `macos_sideload` field.
    pub macos_sideload: Option<bool>,
}

impl View for FeatureQoS {
    type V = FeatureQoSV;

    open spec fn view(&self) -> FeatureQoSV {
        FeatureQoSV {
            rtt_interval: self.rtt_interval,
            rtt_tries: self.rtt_tries,
            rtt_types: match self.rtt_types {
                Some(v) => Some(v.deep_view()),
                None => None,
            },
            buckets: self.buckets,
        }
    }
}

impl View for FeatureNurse {
    type V = FeatureNurseV;

    open spec fn view(&self) -> FeatureNurseV {
        FeatureNurseV {
            fingerprint: self.fingerprint@,
            heartbeat_interval: self.heartbeat_interval,
            qos: match self.qos {
                Some(q) => Some(q@),
                None => None,
            },
        }
    }
}

impl View for FeatureLana {
    type V = FeatureLanaV;

    open spec fn view(&self) -> FeatureLanaV {
        FeatureLanaV { event_path: self.event_path@, prod: self.prod }
    }
}

impl View for FeaturePaths {
    type V = FeaturePathsV;

    open spec fn view(&self) -> FeaturePathsV {
        FeaturePathsV { priority: self.priority@, force: self.force }
    }
}

impl View for FeatureDirect {
    type V = FeatureDirectV;

    open spec fn view(&self) -> FeatureDirectV {
        FeatureDirectV {
            providers: match self.providers {
                Some(v) => Some(v@),
                None => None,
            },
            endpoint_interval_secs: self.endpoint_interval_secs,
        }
    }
}

impl View for Features {
    type V = FeaturesV;

    open spec fn view(&self) -> FeaturesV {
        FeaturesV {
            wireguard: self.wireguard,
            nurse: match self.nurse {
                Some(n) => Some(n@),
                None => None,
            },
            lana: match self.lana {
                Some(l) => Some(l@),
                None => None,
            },
            paths: match self.paths {
                Some(p) => Some(p@),
                None => None,
            },
            exit_dns: self.exit_dns,
            direct: match self.direct {
                Some(d) => Some(d@),
                None => None,
            },
            macos_sideload: self.macos_sideload,
        }
    }
}

impl FeaturePersistentKeepalive {
    /// The keepalive periods used when the whole group is absent from input.
    pub open spec fn spec_default() -> FeaturePersistentKeepalive {
        FeaturePersistentKeepalive {
            vpn: Some(DEFAULT_PERSISTENT_KEEPALIVE_PERIOD),
            direct: DEFAULT_DIRECT_PERSISTENT_KEEPALIVE_PERIOD,
            proxying: Some(DEFAULT_PERSISTENT_KEEPALIVE_PERIOD),
            stun: Some(DEFAULT_PERSISTENT_KEEPALIVE_PERIOD),
        }
    }

    /// Default keepalive period for VPN, proxying and STUN peers.
    pub fn get_default_keepalive_period() -> (r: Option<u32>)
        ensures
            r == Some(DEFAULT_PERSISTENT_KEEPALIVE_PERIOD),
    {
        Some(DEFAULT_PERSISTENT_KEEPALIVE_PERIOD)
    }

    /// Default keepalive period for direct peers.
    pub fn get_default_direct_keepalive_period() -> (r: u32)
        ensures
            r == DEFAULT_DIRECT_PERSISTENT_KEEPALIVE_PERIOD,
    {
        DEFAULT_DIRECT_PERSISTENT_KEEPALIVE_PERIOD
    }
}

impl Default for FeaturePersistentKeepalive {
    /// The keepalive periods used when the whole group is absent from input.
    fn default() -> (r: Self)
        ensures
            r == FeaturePersistentKeepalive::spec_default(),
    {
        FeaturePersistentKeepalive {
            vpn: Some(DEFAULT_PERSISTENT_KEEPALIVE_PERIOD),
            direct: DEFAULT_DIRECT_PERSISTENT_KEEPALIVE_PERIOD,
            proxying: Some(DEFAULT_PERSISTENT_KEEPALIVE_PERIOD),
            stun: Some(DEFAULT_PERSISTENT_KEEPALIVE_PERIOD),
        }
    }
}

impl FeatureWireguard {
    /// The WireGuard configuration used when the group is absent from input.
    pub open spec fn spec_default() -> FeatureWireguard {
        FeatureWireguard { persistent_keepalive: FeaturePersistentKeepalive::spec_default() }
    }
}

impl Default for FeatureWireguard {
    /// The WireGuard configuration used when the group is absent from input.
    fn default() -> (r: Self)
        ensures
            r == FeatureWireguard::spec_default(),
    {
        FeatureWireguard { persistent_keepalive: FeaturePersistentKeepalive::default() }
    }
}

impl Default for PathType {
    /// The path type conceptually always available at lowest priority.
    fn default() -> (r: Self)
        ensures
            r == PathType::Relay,
    {
        PathType::Relay
    }
}

impl Features {
    /// The configuration that decoding an input with no keys at all yields:
    /// WireGuard at its internal defaults, every other group disabled.
    pub open spec fn spec_default() -> FeaturesV {
        FeaturesV {
            wireguard: FeatureWireguard::spec_default(),
            nurse: None,
            lana: None,
            paths: None,
            exit_dns: None,
            direct: None,
            macos_sideload: None,
        }
    }
}

impl Default for Features {
    /// The configuration that decoding an input with no keys at all yields.
    fn default() -> (r: Self)
        ensures
            r@ == Features::spec_default(),
    {
        Features {
            wireguard: FeatureWireguard::default(),
            nurse: None,
            lana: None,
            paths: None,
            exit_dns: None,
            direct: None,
            macos_sideload: None,
        }
    }
}

/// `s` without duplicates, keeping the first occurrence of each element:
/// scanning left to right, an element is kept only if it has not been kept
/// already.
pub open spec fn dedup_first(s: Seq<PathType>) -> Seq<PathType>
    decreases s.len(),
{
    if s.len() == 0 {
        Seq::empty()
    } else {
        let pre = dedup_first(s.drop_last());
        if pre.contains(s.last()) {
            pre
        } else {
            pre.push(s.last())
        }
    }
}

/// What the path resolver returns: the forced path alone when one is set,
/// otherwise `Relay` followed by the user's priority list, deduplicated
/// keeping first occurrences.
pub open spec fn spec_paths(p: FeaturePathsV) -> Seq<PathType> {
    match p.force {
        Some(path) => seq![path],
        None => dedup_first(seq![PathType::Relay] + p.priority),
    }
}

/// Whether `v` holds `p`.
fn contains_path(v: &Vec<PathType>, p: PathType) -> (r: bool)
    ensures
        r == v@.contains(p),
{
    let mut i: usize = 0;
    while i < v.len()
        invariant
            0 <= i <= v.len(),
            forall|k: int| 0 <= k < i ==> v@[k] != p,
        decreases v.len() - i,
    {
        if v[i] == p {
            return true;
        }
        i += 1;
    }
    false
}

impl FeaturePaths {
    /// Returns a vector of [`PathType`] sorted according to the priority:
    /// the forced path alone when `force` is set, otherwise `Relay` followed
    /// by the `priority` list in order, without duplicates (first occurrence
    /// wins).
    pub fn paths(&self) -> (r: Vec<PathType>)
        ensures
            r@ == spec_paths(self@),
    {
        if let Some(path) = self.force {
            let mut v: Vec<PathType> = Vec::new();
            v.push(path);
            assert(v@ =~= seq![path]);
            v
        } else {
            let ghost full: Seq<PathType> = seq![PathType::Relay] + self.priority@;
            let mut v: Vec<PathType> = Vec::new();
            v.push(PathType::Relay);
            proof {
                assert(full.subrange(0, 1) =~= seq![PathType::Relay]);
                lemma_dedup_singleton_relay();
                assert(v@ =~= dedup_first(full.subrange(0, 1)));
            }
            let mut i: usize = 0;
            while i < self.priority.len()
                invariant
                    0 <= i <= self.priority.len(),
                    full == seq![PathType::Relay] + self.priority@,
                    v@ == dedup_first(full.subrange(0, 1 + i as int)),
                decreases self.priority.len() - i,
            {
                let p = self.priority[i];
                let ghost prefix = full.subrange(0, 1 + i as int);
                let ghost next = full.subrange(0, 2 + i as int);
                proof {
                    assert(next.drop_last() =~= prefix);
                    assert(next.last() == p);
                }
                if !contains_path(&v, p) {
                    v.push(p);
                }
                i += 1;
            }
            proof {
                assert(full.subrange(0, full.len() as int) =~= full);
            }
            v
        }
    }
}

/// Deduplicating the one-element list `[Relay]` keeps it unchanged.
proof fn lemma_dedup_singleton_relay()
    ensures
        dedup_first(seq![PathType::Relay]) == seq![PathType::Relay],
{
    let s = seq![PathType::Relay];
    assert(s.drop_last() =~= Seq::<PathType>::empty());
    assert(dedup_first(Seq::<PathType>::empty()) == Seq::<PathType>::empty());
    assert(!Seq::<PathType>::empty().contains(PathType::Relay));
    assert(dedup_first(s) == Seq::<PathType>::empty().push(PathType::Relay));
    assert(Seq::<PathType>::empty().push(PathType::Relay) =~= s);
}

/// Law: resolution is decided completely by `force` and by whether `Direct`
/// occurs in the priority list. A forced path is the whole result; otherwise
/// the result is `[Relay, Direct]` when the list mentions `Direct` anywhere,
/// and `[Relay]` when it does not. In particular the result always holds
/// `Relay` exactly once unless a different path was forced, and later
/// duplicate mentions have no effect.
pub proof fn lemma_paths_resolution(p: FeaturePathsV)
    ensures
        p.force is Some ==> spec_paths(p) == seq![p.force->0],
        p.force is None && p.priority.contains(PathType::Direct) ==> spec_paths(p) == seq![
            PathType::Relay,
            PathType::Direct,
        ],
        p.force is None && !p.priority.contains(PathType::Direct) ==> spec_paths(p) == seq![
            PathType::Relay,
        ],
{
    if p.force is None {
        lemma_dedup_after_relay(p.priority);
    }
}

/// `dedup_first` on `Relay` followed by any list yields `[Relay, Direct]` or
/// `[Relay]`, depending only on whether the list mentions `Direct`.
proof fn lemma_dedup_after_relay(s: Seq<PathType>)
    ensures
        s.contains(PathType::Direct) ==> dedup_first(seq![PathType::Relay] + s) == seq![
            PathType::Relay,
            PathType::Direct,
        ],
        !s.contains(PathType::Direct) ==> dedup_first(seq![PathType::Relay] + s) == seq![
            PathType::Relay,
        ],
    decreases s.len(),
{
    let t = seq![PathType::Relay] + s;
    if s.len() == 0 {
        assert(t =~= seq![PathType::Relay]);
        lemma_dedup_singleton_relay();
    } else {
        let init = s.drop_last();
        let last = s.last();
        lemma_dedup_after_relay(init);
        assert(t.drop_last() =~= seq![PathType::Relay] + init);
        assert(t.last() == last);
        let pre = dedup_first(t.drop_last());
        // Either form of the deduplicated prefix holds `Relay`.
        assert(pre.contains(PathType::Relay)) by {
            assert(pre[0] == PathType::Relay);
        }
        if init.contains(PathType::Direct) {
            assert(pre == seq![PathType::Relay, PathType::Direct]);
            assert(pre.contains(last)) by {
                match last {
                    PathType::Relay => assert(pre[0] == last),
                    PathType::Direct => assert(pre[1] == last),
                }
            }
            assert(dedup_first(t) == pre);
            assert(s.contains(PathType::Direct)) by {
                let k = choose|k: int| 0 <= k < init.len() && init[k] == PathType::Direct;
                assert(init[k] == s[k]);
                assert(s[k] == PathType::Direct);
            }
        } else {
            assert(pre == seq![PathType::Relay]);
            match last {
                PathType::Relay => {
                    assert(pre.contains(last)) by {
                        assert(pre[0] == last);
                    }
                    assert(dedup_first(t) == pre);
                    assert(!s.contains(PathType::Direct)) by {
                        if s.contains(PathType::Direct) {
                            let k = choose|k: int|
                                0 <= k < s.len() && s[k] == PathType::Direct;
                            if k < s.len() - 1 {
                                assert(init[k] == s[k]);
                                assert(init.contains(PathType::Direct));
                            } else {
                                assert(s[k] == last);
                            }
                        }
                    }
                },
                PathType::Direct => {
                    assert(!pre.contains(last)) by {
                        if pre.contains(last) {
                            let k = choose|k: int| 0 <= k < pre.len() && pre[k] == last;
                            assert(pre[0] == PathType::Relay);
                        }
                    }
                    assert(dedup_first(t) == pre.push(last));
                    assert(pre.push(last) =~= seq![PathType::Relay, PathType::Direct]);
                    assert(s.contains(PathType::Direct)) by {
                        assert(s[s.len() - 1] == PathType::Direct);
                    }
                },
            }
        }
    }
}

/// When two direct-connection groups are the same configuration: the
/// provider collections are unordered, so they are compared as sets; every
/// other field is compared by value.
pub open spec fn direct_equiv(a: FeatureDirectV, b: FeatureDirectV) -> bool {
    &&& (match (a.providers, b.providers) {
        (Option::None, Option::None) => true,
        (Option::Some(x), Option::Some(y)) => x.to_set() == y.to_set(),
        _ => false,
    })
    &&& a.endpoint_interval_secs == b.endpoint_interval_secs
}

/// When two configurations are the same: every field, at every nesting
/// level, equal under value equality — sequences in order, provider sets
/// without order.
pub open spec fn features_equiv(a: FeaturesV, b: FeaturesV) -> bool {
    &&& a.wireguard == b.wireguard
    &&& a.nurse == b.nurse
    &&& a.lana == b.lana
    &&& a.paths == b.paths
    &&& a.exit_dns == b.exit_dns
    &&& (match (a.direct, b.direct) {
        (Option::None, Option::None) => true,
        (Option::Some(x), Option::Some(y)) => direct_equiv(x, y),
        _ => false,
    })
    &&& a.macos_sideload == b.macos_sideload
}

/// Whether two optional `u32` values are equal.
fn eq_opt_u32(a: &Option<u32>, b: &Option<u32>) -> (r: bool)
    ensures
        r == (a == b),
{
    match (a, b) {
        (Some(x), Some(y)) => *x == *y,
        (None, None) => true,
        _ => false,
    }
}

/// Whether two optional `u64` values are equal.
fn eq_opt_u64(a: &Option<u64>, b: &Option<u64>) -> (r: bool)
    ensures
        r == (a == b),
{
    match (a, b) {
        (Some(x), Some(y)) => *x == *y,
        (None, None) => true,
        _ => false,
    }
}

/// Whether two optional boolean values are equal.
fn eq_opt_bool(a: &Option<bool>, b: &Option<bool>) -> (r: bool)
    ensures
        r == (a == b),
{
    match (a, b) {
        (Some(x), Some(y)) => *x == *y,
        (None, None) => true,
        _ => false,
    }
}

/// Whether two keepalive groups are equal.
fn eq_keepalive(a: &FeaturePersistentKeepalive, b: &FeaturePersistentKeepalive) -> (r: bool)
    ensures
        r == (a == b),
{
    eq_opt_u32(&a.vpn, &b.vpn) && a.direct == b.direct && eq_opt_u32(&a.proxying, &b.proxying)
        && eq_opt_u32(&a.stun, &b.stun)
}

/// Whether two string lists are equal element by element.
fn eq_string_vec(a: &Vec<String>, b: &Vec<String>) -> (r: bool)
    ensures
        r == (a.deep_view() == b.deep_view()),
{
    if a.len() != b.len() {
        proof {
            assert(a.deep_view().len() != b.deep_view().len());
        }
        return false;
    }
    let mut i: usize = 0;
    while i < a.len()
        invariant
            0 <= i <= a.len(),
            a@.len() == b@.len(),
            forall|k: int| 0 <= k < i ==> (#[trigger] a@[k])@ == b@[k]@,
        decreases a.len() - i,
    {
        if !(a[i] == b[i]) {
            proof {
                assert(a.deep_view()[i as int] != b.deep_view()[i as int]);
            }
            return false;
        }
        i += 1;
    }
    proof {
        assert(a.deep_view() =~= b.deep_view());
    }
    true
}

/// Whether two QoS groups are equal.
fn eq_qos(a: &FeatureQoS, b: &FeatureQoS) -> (r: bool)
    ensures
        r == (a@ == b@),
{
    let types_eq = match (&a.rtt_types, &b.rtt_types) {
        (Some(x), Some(y)) => eq_string_vec(x, y),
        (None, None) => true,
        _ => false,
    };
    let r = eq_opt_u32(&a.rtt_interval, &b.rtt_interval) && eq_opt_u32(&a.rtt_tries, &b.rtt_tries)
        && types_eq && eq_opt_u32(&a.buckets, &b.buckets);
    proof {
        if r {
            assert(a@ == b@);
        } else {
            assert(a@ != b@);
        }
    }
    r
}

/// Whether two Nurse groups are equal.
fn eq_nurse(a: &FeatureNurse, b: &FeatureNurse) -> (r: bool)
    ensures
        r == (a@ == b@),
{
    let qos_eq = match (&a.qos, &b.qos) {
        (Some(x), Some(y)) => eq_qos(x, y),
        (None, None) => true,
        _ => false,
    };
    let r = a.fingerprint == b.fingerprint && eq_opt_u32(
        &a.heartbeat_interval,
        &b.heartbeat_interval,
    ) && qos_eq;
    proof {
        if r {
            assert(a@ == b@);
        } else {
            assert(a@ != b@);
        }
    }
    r
}

/// Whether two Lana groups are equal.
fn eq_lana(a: &FeatureLana, b: &FeatureLana) -> (r: bool)
    ensures
        r == (a@ == b@),
{
    let r = a.event_path == b.event_path && a.prod == b.prod;
    proof {
        if r {
            assert(a@ == b@);
        } else {
            assert(a@ != b@);
        }
    }
    r
}

/// Whether two path lists are equal element by element.
fn eq_path_vec(a: &Vec<PathType>, b: &Vec<PathType>) -> (r: bool)
    ensures
        r == (a@ == b@),
{
    if a.len() != b.len() {
        return false;
    }
    let mut i: usize = 0;
    while i < a.len()
        invariant
            0 <= i <= a.len(),
            a@.len() == b@.len(),
            forall|k: int| 0 <= k < i ==> a@[k] == b@[k],
        decreases a.len() - i,
    {
        if !(a[i] == b[i]) {
            return false;
        }
        i += 1;
    }
    proof {
        assert(a@ =~= b@);
    }
    true
}

/// Whether two paths groups are equal.
fn eq_paths(a: &FeaturePaths, b: &FeaturePaths) -> (r: bool)
    ensures
        r == (a@ == b@),
{
    let force_eq = match (a.force, b.force) {
        (Some(x), Some(y)) => x == y,
        (None, None) => true,
        _ => false,
    };
    let r = eq_path_vec(&a.priority, &b.priority) && force_eq;
    proof {
        if r {
            assert(a@ == b@);
        } else {
            assert(a@ != b@);
        }
    }
    r
}

/// Whether `v` holds `p`.
fn contains_provider(v: &Vec<EndpointProvider>, p: EndpointProvider) -> (r: bool)
    ensures
        r == v@.contains(p),
{
    let mut i: usize = 0;
    while i < v.len()
        invariant
            0 <= i <= v.len(),
            forall|k: int| 0 <= k < i ==> v@[k] != p,
        decreases v.len() - i,
    {
        if v[i] == p {
            return true;
        }
        i += 1;
    }
    false
}

/// Whether two provider collections hold the same providers, in any order.
fn eq_provider_sets(a: &Vec<EndpointProvider>, b: &Vec<EndpointProvider>) -> (r: bool)
    ensures
        r == (a@.to_set() == b@.to_set()),
{
    let r = contains_provider(a, EndpointProvider::Local) == contains_provider(
        b,
        EndpointProvider::Local,
    ) && contains_provider(a, EndpointProvider::Stun) == contains_provider(
        b,
        EndpointProvider::Stun,
    );
    proof {
        if r {
            assert forall|p: EndpointProvider| a@.to_set().contains(p) == b@.to_set().contains(
                p,
            ) by {
                match p {
                    EndpointProvider::Local => {},
                    EndpointProvider::Stun => {},
                }
            }
            assert(a@.to_set() =~= b@.to_set());
        } else {
            if a@.contains(EndpointProvider::Local) != b@.contains(EndpointProvider::Local) {
                assert(a@.to_set().contains(EndpointProvider::Local) != b@.to_set().contains(
                    EndpointProvider::Local,
                ));
            } else {
                assert(a@.to_set().contains(EndpointProvider::Stun) != b@.to_set().contains(
                    EndpointProvider::Stun,
                ));
            }
        }
    }
    r
}

/// Whether two direct-connection groups are the same configuration, with
/// the provider collections compared as unordered sets.
fn eq_direct(a: &FeatureDirect, b: &FeatureDirect) -> (r: bool)
    ensures
        r == direct_equiv(a@, b@),
{
    let providers_eq = match (&a.providers, &b.providers) {
        (Some(x), Some(y)) => eq_provider_sets(x, y),
        (None, None) => true,
        _ => false,
    };
    providers_eq && eq_opt_u64(&a.endpoint_interval_secs, &b.endpoint_interval_secs)
}

/// Whether two configurations are the same, per the equality contract:
/// every field at every nesting level equal under value equality, with
/// provider collections compared as unordered sets. Used to detect whether
/// a reconfiguration actually changed anything.
pub fn features_eq(a: &Features, b: &Features) -> (r: bool)
    ensures
        r == features_equiv(a@, b@),
{
    let nurse_eq = match (&a.nurse, &b.nurse) {
        (Some(x), Some(y)) => eq_nurse(x, y),
        (None, None) => true,
        _ => false,
    };
    let lana_eq = match (&a.lana, &b.lana) {
        (Some(x), Some(y)) => eq_lana(x, y),
        (None, None) => true,
        _ => false,
    };
    let paths_eq = match (&a.paths, &b.paths) {
        (Some(x), Some(y)) => eq_paths(x, y),
        (None, None) => true,
        _ => false,
    };
    let exit_dns_eq = match (&a.exit_dns, &b.exit_dns) {
        (Some(x), Some(y)) => eq_opt_bool(&x.auto_switch_dns_ips, &y.auto_switch_dns_ips),
        (None, None) => true,
        _ => false,
    };
    let direct_eq = match (&a.direct, &b.direct) {
        (Some(x), Some(y)) => eq_direct(x, y),
        (None, None) => true,
        _ => false,
    };
    eq_keepalive(&a.wireguard.persistent_keepalive, &b.wireguard.persistent_keepalive) && nurse_eq
        && lana_eq && paths_eq && exit_dns_eq && direct_eq && eq_opt_bool(
        &a.macos_sideload,
        &b.macos_sideload,
    )
}

/// Law: resolution is idempotent. Feeding a resolved list back as the
/// priority list, with the same forced choice, resolves to the same list.
pub proof fn lemma_paths_idempotent(p: FeaturePathsV)
    ensures
        spec_paths(FeaturePathsV { priority: spec_paths(p), force: p.force }) == spec_paths(p),
{
    lemma_paths_resolution(p);
    let r = spec_paths(p);
    let q = FeaturePathsV { priority: r, force: p.force };
    lemma_paths_resolution(q);
    if p.force is None {
        if p.priority.contains(PathType::Direct) {
            assert(r.contains(PathType::Direct)) by {
                assert(r[1] == PathType::Direct);
            }
        } else {
            assert(!r.contains(PathType::Direct)) by {
                if r.contains(PathType::Direct) {
                    let k = choose|k: int| 0 <= k < r.len() && r[k] == PathType::Direct;
                    assert(r[0] == PathType::Relay);
                }
            }
        }
    }
}

} // verus!
