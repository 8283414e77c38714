use telio_model::decode::DecodeError;
use telio_model::features::EndpointProvider;
use telio_model::features::FeatureDirect;
use telio_model::features::FeatureExitDns;
use telio_model::features::FeatureLana;
use telio_model::features::FeatureNurse;
use telio_model::features::FeaturePaths;
use telio_model::features::FeaturePersistentKeepalive;
use telio_model::features::FeatureQoS;
use telio_model::features::FeatureWireguard;
use telio_model::features::Features;
use telio_model::features::PathType;
use telio_model::features::features_eq;
use telio_model::json::Json;

fn obj(fields: Vec<(&str, Json)>) -> Json {
    Json::Obj(fields.into_iter().map(|(k, v)| (k.to_string(), v)).collect())
}

fn js(x: &str) -> Json {
    Json::Str(x.to_string())
}

#[test]
fn test_json_direct_feature_set() {
    let full_json = obj(vec![
        ("providers", Json::Arr(vec![js("local"), js("stun")])),
        ("endpoint_interval_secs", Json::UInt(30)),
    ]);

    let partial_json = obj(vec![("providers", Json::Arr(vec![js("local")]))]);

    let full_features = FeatureDirect {
        providers: Some(vec![EndpointProvider::Local, EndpointProvider::Stun]),
        endpoint_interval_secs: Some(30),
    };

    let partial_features = FeatureDirect {
        providers: Some(vec![EndpointProvider::Local]),
        endpoint_interval_secs: None,
    };

    assert_eq!(FeatureDirect::from_json(&full_json).unwrap(), full_features);
    assert_eq!(
        FeatureDirect::from_json(&partial_json).unwrap(),
        partial_features
    );
}

#[test]
fn test_json_to_qos_feature_set() {
    let full_json = obj(vec![
        ("rtt_interval", Json::UInt(3600)),
        ("rtt_tries", Json::UInt(5)),
        ("rtt_types", Json::Arr(vec![js("Ping")])),
        ("buckets", Json::UInt(5)),
    ]);

    let partial_json = obj(vec![("rtt_interval", Json::UInt(3600))]);

    let full_features = FeatureQoS {
        rtt_interval: Some(3600),
        rtt_tries: Some(5),
        rtt_types: Some(vec![String::from("Ping")]),
        buckets: Some(5),
    };

    let partial_features = FeatureQoS {
        rtt_interval: Some(3600),
        rtt_tries: None,
        rtt_types: None,
        buckets: None,
    };

    assert_eq!(FeatureQoS::from_json(&full_json).unwrap(), full_features);
    assert_eq!(FeatureQoS::from_json(&partial_json).unwrap(), partial_features);
}

#[test]
fn test_json_to_nurse_feature_set() {
    let full_json = obj(vec![(
        "nurse",
        obj(vec![
            ("fingerprint", js("fingerprint_test")),
            ("heartbeat_interval", Json::UInt(3600)),
            (
                "qos",
                obj(vec![
                    ("rtt_interval", Json::UInt(3600)),
                    ("rtt_tries", Json::UInt(5)),
                    ("rtt_types", Json::Arr(vec![js("Ping")])),
                    ("buckets", Json::UInt(5)),
                ]),
            ),
        ]),
    )]);

    let empty_qos_json = obj(vec![(
        "nurse",
        obj(vec![
            ("fingerprint", js("fingerprint_test")),
            ("qos", obj(vec![])),
        ]),
    )]);

    let no_qos_json = obj(vec![(
        "nurse",
        obj(vec![("fingerprint", js("fingerprint_test"))]),
    )]);

    let full_features = Features {
        wireguard: Default::default(),
        nurse: Some(FeatureNurse {
            fingerprint: String::from("fingerprint_test"),
            heartbeat_interval: Some(3600),
            qos: Some(FeatureQoS {
                rtt_interval: Some(3600),
                rtt_tries: Some(5),
                rtt_types: Some(vec![String::from("Ping")]),
                buckets: Some(5),
            }),
        }),
        lana: None,
        paths: None,
        direct: None,
        exit_dns: None,
        macos_sideload: None,
    };

    let empty_qos_features = Features {
        wireguard: Default::default(),
        nurse: Some(FeatureNurse {
            fingerprint: String::from("fingerprint_test"),
            heartbeat_interval: None,
            qos: Some(FeatureQoS {
                rtt_interval: None,
                rtt_tries: None,
                rtt_types: None,
                buckets: None,
            }),
        }),
        lana: None,
        paths: None,
        direct: None,
        exit_dns: None,
        macos_sideload: None,
    };

    let no_qos_features = Features {
        wireguard: Default::default(),
        nurse: Some(FeatureNurse {
            fingerprint: String::from("fingerprint_test"),
            heartbeat_interval: None,
            qos: None,
        }),
        lana: None,
        paths: None,
        direct: None,
        exit_dns: None,
        macos_sideload: None,
    };

    assert_eq!(Features::from_json(&full_json).unwrap(), full_features);
    assert_eq!(Features::from_json(&empty_qos_json).unwrap(), empty_qos_features);
    assert_eq!(Features::from_json(&no_qos_json).unwrap(), no_qos_features);
}

#[test]
fn test_json_to_exit_dns_feature_set() {
    let full_json = obj(vec![(
        "exit_dns",
        obj(vec![("auto_switch_dns_ips", Json::Bool(true))]),
    )]);

    let empty_json = obj(vec![("exit_dns", obj(vec![]))]);

    let full_features = Features {
        wireguard: Default::default(),
        nurse: None,
        lana: None,
        paths: None,
        direct: None,
        exit_dns: Some(FeatureExitDns {
            auto_switch_dns_ips: Some(true),
        }),
        macos_sideload: None,
    };

    let empty_features = Features {
        wireguard: Default::default(),
        nurse: None,
        lana: None,
        paths: None,
        direct: None,
        exit_dns: Some(FeatureExitDns {
            auto_switch_dns_ips: None,
        }),
        macos_sideload: None,
    };

    assert_eq!(Features::from_json(&full_json).unwrap(), full_features);
    assert_eq!(Features::from_json(&empty_json).unwrap(), empty_features);
}

#[test]
fn test_json_to_feature_set() {
    let json = obj(vec![
        (
            "wireguard",
            obj(vec![(
                "persistent_keepalive",
                obj(vec![("vpn", Json::Null), ("stun", Json::UInt(50))]),
            )]),
        ),
        ("nurse", obj(vec![("fingerprint", js("fingerprint_test"))])),
        (
            "lana",
            obj(vec![
                ("event_path", js("path/to/some/event/data")),
                ("prod", Json::Bool(true)),
            ]),
        ),
        (
            "paths",
            obj(vec![
                ("priority", Json::Arr(vec![js("relay"), js("direct")])),
                ("force", js("relay")),
            ]),
        ),
        ("direct", obj(vec![])),
        ("exit_dns", obj(vec![])),
        ("macos_sideload", Json::Bool(true)),
    ]);

    let features = Features {
        wireguard: FeatureWireguard {
            persistent_keepalive: FeaturePersistentKeepalive {
                vpn: None,
                direct: 5,
                proxying: Some(25),
                stun: Some(50),
            },
        },
        nurse: Some(FeatureNurse {
            fingerprint: "fingerprint_test".to_string(),
            heartbeat_interval: None,
            qos: None,
        }),
        lana: Some(FeatureLana {
            event_path: "path/to/some/event/data".to_string(),
            prod: true,
        }),
        paths: Some(FeaturePaths {
            priority: vec![PathType::Relay, PathType::Direct],
            force: Some(PathType::Relay),
        }),
        direct: Some(FeatureDirect {
            providers: None,
            endpoint_interval_secs: None,
        }),
        exit_dns: Some(FeatureExitDns {
            auto_switch_dns_ips: None,
        }),
        macos_sideload: Some(true),
    };

    assert_eq!(Features::from_json(&json).unwrap(), features);
}

#[test]
fn test_default_features() {
    let expected_defaults = Features {
        wireguard: Default::default(),
        nurse: None,
        lana: None,
        paths: None,
        exit_dns: None,
        direct: None,
        macos_sideload: None,
    };

    assert_eq!(Features::default(), expected_defaults);
}

#[test]
fn get_paths_from_feature_paths() {
    assert_eq!(
        FeaturePaths {
            priority: vec![PathType::Direct],
            force: None
        }
        .paths(),
        vec![PathType::Relay, PathType::Direct]
    );
    assert_eq!(
        FeaturePaths {
            priority: vec![PathType::Direct, PathType::Relay, PathType::Direct],
            force: None
        }
        .paths(),
        vec![PathType::Relay, PathType::Direct]
    );
    assert_eq!(
        FeaturePaths {
            priority: vec![PathType::Direct, PathType::Relay, PathType::Direct],
            force: Some(PathType::Direct)
        }
        .paths(),
        vec![PathType::Direct]
    );
}

#[test]
fn paths_resolution_is_idempotent() {
    let first = FeaturePaths {
        priority: vec![PathType::Direct, PathType::Relay, PathType::Direct],
        force: None,
    }
    .paths();
    let second = FeaturePaths {
        priority: first.clone(),
        force: None,
    }
    .paths();
    assert_eq!(first, second);
}

#[test]
fn absent_keepalive_fields_take_defaults() {
    let json = obj(vec![("stun", Json::UInt(50))]);
    let expected = FeaturePersistentKeepalive {
        vpn: Some(25),
        direct: 5,
        proxying: Some(25),
        stun: Some(50),
    };
    assert_eq!(FeaturePersistentKeepalive::from_json(&json).unwrap(), expected);
}

#[test]
fn null_keepalive_field_disables_instead_of_defaulting() {
    let json = obj(vec![("vpn", Json::Null), ("stun", Json::UInt(50))]);
    let expected = FeaturePersistentKeepalive {
        vpn: None,
        direct: 5,
        proxying: Some(25),
        stun: Some(50),
    };
    assert_eq!(FeaturePersistentKeepalive::from_json(&json).unwrap(), expected);
}

#[test]
fn empty_input_decodes_to_default_features() {
    let json = obj(vec![]);
    assert_eq!(Features::from_json(&json).unwrap(), Features::default());
}

#[test]
fn round_trip_preserves_decoded_features() {
    let json = obj(vec![
        (
            "wireguard",
            obj(vec![(
                "persistent_keepalive",
                obj(vec![("vpn", Json::Null), ("stun", Json::UInt(50))]),
            )]),
        ),
        (
            "nurse",
            obj(vec![
                ("fingerprint", js("fingerprint_test")),
                ("qos", obj(vec![("rtt_types", Json::Arr(vec![js("Ping")]))])),
            ]),
        ),
        (
            "paths",
            obj(vec![("priority", Json::Arr(vec![js("direct")]))]),
        ),
        (
            "direct",
            obj(vec![(
                "providers",
                Json::Arr(vec![js("stun"), js("local"), js("stun")]),
            )]),
        ),
        ("macos_sideload", Json::Bool(false)),
    ]);
    let decoded = Features::from_json(&json).unwrap();
    let reencoded = decoded.to_json();
    let redecoded = Features::from_json(&reencoded).unwrap();
    assert_eq!(decoded, redecoded);
    assert!(features_eq(&decoded, &redecoded));
}

#[test]
fn provider_list_is_deduplicated_and_canonical() {
    let json = obj(vec![(
        "providers",
        Json::Arr(vec![js("stun"), js("local"), js("stun")]),
    )]);
    let expected = FeatureDirect {
        providers: Some(vec![EndpointProvider::Local, EndpointProvider::Stun]),
        endpoint_interval_secs: None,
    };
    assert_eq!(FeatureDirect::from_json(&json).unwrap(), expected);
}

#[test]
fn equality_ignores_provider_order() {
    let a = Features {
        direct: Some(FeatureDirect {
            providers: Some(vec![EndpointProvider::Local, EndpointProvider::Stun]),
            endpoint_interval_secs: Some(10),
        }),
        ..Features::default()
    };
    let b = Features {
        direct: Some(FeatureDirect {
            providers: Some(vec![EndpointProvider::Stun, EndpointProvider::Local]),
            endpoint_interval_secs: Some(10),
        }),
        ..Features::default()
    };
    let c = Features {
        direct: Some(FeatureDirect {
            providers: Some(vec![EndpointProvider::Stun]),
            endpoint_interval_secs: Some(10),
        }),
        ..Features::default()
    };
    assert!(features_eq(&a, &b));
    assert!(!features_eq(&a, &c));
    assert!(!features_eq(&a, &Features::default()));
}

#[test]
fn default_keepalive_providers() {
    assert_eq!(
        FeaturePersistentKeepalive::get_default_keepalive_period(),
        Some(25)
    );
    assert_eq!(
        FeaturePersistentKeepalive::get_default_direct_keepalive_period(),
        5
    );
    assert_eq!(PathType::default(), PathType::Relay);
    assert_eq!(
        FeaturePersistentKeepalive::default(),
        FeaturePersistentKeepalive {
            vpn: Some(25),
            direct: 5,
            proxying: Some(25),
            stun: Some(25),
        }
    );
}

#[test]
fn decode_errors_name_the_broken_shape() {
    assert_eq!(
        Features::from_json(&Json::UInt(5)),
        Err(DecodeError::ExpectedObject)
    );
    assert_eq!(
        Features::from_json(&obj(vec![("nurse", Json::UInt(5))])),
        Err(DecodeError::ExpectedObject)
    );
    assert_eq!(
        Features::from_json(&obj(vec![("macos_sideload", Json::UInt(5))])),
        Err(DecodeError::ExpectedBool)
    );
    assert_eq!(
        FeaturePersistentKeepalive::from_json(&obj(vec![("vpn", js("soon"))])),
        Err(DecodeError::ExpectedU32)
    );
    assert_eq!(
        FeaturePersistentKeepalive::from_json(&obj(vec![(
            "vpn",
            Json::UInt(1 << 33)
        )])),
        Err(DecodeError::ExpectedU32)
    );
    assert_eq!(
        FeaturePersistentKeepalive::from_json(&obj(vec![("direct", Json::Null)])),
        Err(DecodeError::ExpectedU32)
    );
    assert_eq!(
        FeatureDirect::from_json(&obj(vec![(
            "endpoint_interval_secs",
            Json::Bool(true)
        )])),
        Err(DecodeError::ExpectedU64)
    );
    assert_eq!(
        FeatureNurse::from_json(&obj(vec![("fingerprint", Json::UInt(5))])),
        Err(DecodeError::ExpectedString)
    );
    assert_eq!(
        FeatureQoS::from_json(&obj(vec![("rtt_types", Json::UInt(5))])),
        Err(DecodeError::ExpectedList)
    );
    assert_eq!(
        FeatureQoS::from_json(&obj(vec![(
            "rtt_types",
            Json::Arr(vec![Json::UInt(5)])
        )])),
        Err(DecodeError::ExpectedString)
    );
    assert_eq!(
        FeaturePaths::from_json(&obj(vec![(
            "priority",
            Json::Arr(vec![js("bogus")])
        )])),
        Err(DecodeError::ExpectedPathType)
    );
    assert_eq!(
        FeaturePaths::from_json(&obj(vec![
            ("priority", Json::Arr(vec![])),
            ("force", js("bogus")),
        ])),
        Err(DecodeError::ExpectedPathType)
    );
    assert_eq!(
        FeatureDirect::from_json(&obj(vec![(
            "providers",
            Json::Arr(vec![js("bogus")])
        )])),
        Err(DecodeError::ExpectedEndpointProvider)
    );
    assert_eq!(
        FeatureNurse::from_json(&obj(vec![])),
        Err(DecodeError::MissingField)
    );
    assert_eq!(
        FeatureLana::from_json(&obj(vec![("event_path", js("p"))])),
        Err(DecodeError::MissingField)
    );
    assert_eq!(
        FeaturePaths::from_json(&obj(vec![])),
        Err(DecodeError::MissingField)
    );
}

#[test]
fn explicit_null_group_stays_disabled() {
    let json = obj(vec![("nurse", Json::Null), ("exit_dns", Json::Null)]);
    let decoded = Features::from_json(&json).unwrap();
    assert_eq!(decoded.nurse, None);
    assert_eq!(decoded.exit_dns, None);
}

#[test]
fn encode_then_decode_default_features() {
    let f = Features::default();
    let tree = f.to_json();
    assert_eq!(Features::from_json(&tree).unwrap(), f);
}
