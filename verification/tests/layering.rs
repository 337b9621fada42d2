use rpc_config::config::{
    BigtableConfig, CoinsLayer, NameServiceLayer, ObjectsLayer, PackageResolverLayer, RpcConfig,
    TransactionsLayer,
};
use rpc_config::extras::{check_extra, Section};
use rpc_config::resolved::{
    CoinsConfig, Limits, NameServiceConfig, ObjectID, ObjectsConfig, SuiAddress,
    TransactionsConfig,
};

fn base_objects() -> ObjectsConfig {
    ObjectsConfig {
        max_multi_get_objects: 50,
        default_page_size: 50,
        max_page_size: 50,
    }
}

fn base_transactions() -> TransactionsConfig {
    TransactionsConfig {
        default_page_size: 50,
        max_page_size: 50,
    }
}

fn base_coins() -> CoinsConfig {
    CoinsConfig {
        default_page_size: 50,
        max_page_size: 50,
    }
}

fn base_name_service() -> NameServiceConfig {
    NameServiceConfig {
        package_address: SuiAddress { hi: 0xA, lo: 0xA1 },
        registry_id: ObjectID { hi: 0xB, lo: 0xB2 },
        reverse_registry_id: ObjectID { hi: 0xC, lo: 0xC3 },
    }
}

fn empty_root() -> RpcConfig {
    RpcConfig {
        objects: ObjectsLayer::default(),
        transactions: TransactionsLayer::default(),
        name_service: NameServiceLayer::default(),
        coins: CoinsLayer::default(),
        bigtable_config: None,
        package_resolver: PackageResolverLayer::from_protocol(16, 32, 256, 128),
        extra: toml::Table::new(),
    }
}

#[test]
fn empty_root_overlay_inherits_baselines() {
    let (root, warning) = empty_root().finish();
    assert!(warning.is_none());
    assert!(root.bigtable_config.is_none());

    let (objects, w) = root.objects.finish(base_objects());
    assert!(w.is_none());
    assert_eq!(objects, base_objects());

    let (transactions, w) = root.transactions.finish(base_transactions());
    assert!(w.is_none());
    assert_eq!(transactions, base_transactions());

    let (coins, w) = root.coins.finish(base_coins());
    assert!(w.is_none());
    assert_eq!(coins, base_coins());

    let (name_service, w) = root.name_service.finish(base_name_service());
    assert!(w.is_none());
    assert_eq!(name_service, base_name_service());
}

#[test]
fn objects_overlay_overrides_one_field() {
    let overlay = ObjectsLayer {
        max_page_size: Some(200),
        ..ObjectsLayer::default()
    };
    let (resolved, warning) = overlay.finish(base_objects());
    assert!(warning.is_none());
    assert_eq!(
        resolved,
        ObjectsConfig {
            max_multi_get_objects: 50,
            default_page_size: 50,
            max_page_size: 200,
        }
    );
}

#[test]
fn misspelled_top_level_key_warns() {
    let mut extra = toml::Table::new();
    extra.insert(
        "objets".to_string(),
        toml::Value::Table(toml::Table::new()),
    );
    let root = RpcConfig { extra, ..empty_root() };

    let (root, warning) = root.finish();
    let warning = warning.expect("a non-empty top-level extras bucket must warn");
    assert_eq!(warning.section, Section::TopLevel);
    assert_eq!(warning.section.name(), "top-level");
    assert_eq!(warning.entries.len(), 1);
    assert_eq!(warning.entries[0].0, "objets");

    let (objects, w) = root.objects.finish(base_objects());
    assert!(w.is_none());
    assert_eq!(objects, base_objects());
    let (transactions, w) = root.transactions.finish(base_transactions());
    assert!(w.is_none());
    assert_eq!(transactions, base_transactions());
    let (coins, w) = root.coins.finish(base_coins());
    assert!(w.is_none());
    assert_eq!(coins, base_coins());
    let (name_service, w) = root.name_service.finish(base_name_service());
    assert!(w.is_none());
    assert_eq!(name_service, base_name_service());
}

#[test]
fn objects_extras_warn_with_both_keys() {
    let mut extra = toml::Table::new();
    extra.insert("max_page_sizes".to_string(), toml::Value::Integer(100));
    extra.insert("foo".to_string(), toml::Value::String("bar".to_string()));
    let overlay = ObjectsLayer {
        max_multi_get_objects: None,
        default_page_size: None,
        max_page_size: None,
        extra,
    };

    let (resolved, warning) = overlay.finish(base_objects());
    assert_eq!(resolved, base_objects());

    let warning = warning.expect("a non-empty extras bucket must warn");
    assert_eq!(warning.section, Section::Objects);
    assert_eq!(warning.section.name(), "objects");
    assert_eq!(warning.field_word(), "fields");
    assert_eq!(warning.entries.len(), 2);
    assert!(warning
        .entries
        .iter()
        .any(|(k, v)| k == "max_page_sizes" && v == "100"));
    assert!(warning
        .entries
        .iter()
        .any(|(k, v)| k == "foo" && v == "\"bar\""));
}

#[test]
fn bigtable_config_passes_through() {
    let root = RpcConfig {
        bigtable_config: Some(BigtableConfig {
            instance_id: "prod-1".to_string(),
        }),
        ..empty_root()
    };
    let (root, warning) = root.finish();
    assert!(warning.is_none());
    assert_eq!(
        root.bigtable_config,
        Some(BigtableConfig {
            instance_id: "prod-1".to_string(),
        })
    );
}

#[test]
fn package_resolver_defaults_finish() {
    let overlay = PackageResolverLayer::from_protocol(16, 32, 256, 128);
    assert_eq!(overlay.max_type_argument_depth, 16);
    assert_eq!(overlay.max_type_argument_width, 32);
    assert_eq!(overlay.max_type_nodes, 256);
    assert_eq!(overlay.max_move_value_depth, 128);

    let (limits, warning) = overlay.finish();
    assert!(warning.is_none());
    assert_eq!(
        limits,
        Limits {
            max_type_argument_depth: 16,
            max_type_argument_width: 32,
            max_type_nodes: 256,
            max_move_value_depth: 128,
        }
    );
}

#[test]
fn example_round_trip_yields_baselines() {
    let example = RpcConfig::example(PackageResolverLayer::from_protocol(16, 32, 256, 128));
    let (example, warning) = example.finish();
    assert!(warning.is_none());
    assert!(example.bigtable_config.is_none());

    let (objects, w) = example.objects.finish(ObjectsConfig::default());
    assert!(w.is_none());
    assert_eq!(objects, ObjectsConfig::default());

    let (transactions, w) = example.transactions.finish(TransactionsConfig::default());
    assert!(w.is_none());
    assert_eq!(transactions, TransactionsConfig::default());

    let (name_service, w) = example.name_service.finish(NameServiceConfig::default());
    assert!(w.is_none());
    assert_eq!(name_service, NameServiceConfig::default());

    let (coins, w) = example.coins.finish(CoinsConfig::default());
    assert!(w.is_none());
    assert_eq!(coins, CoinsConfig::default());
}

#[test]
fn lifted_overlay_merges_back_against_any_baseline() {
    let lifted = ObjectsConfig {
        max_multi_get_objects: 7,
        default_page_size: 8,
        max_page_size: 9,
    };
    let unrelated = ObjectsConfig {
        max_multi_get_objects: 1000,
        default_page_size: 2000,
        max_page_size: 3000,
    };
    let (resolved, warning) = ObjectsLayer::from(lifted).finish(unrelated);
    assert!(warning.is_none());
    assert_eq!(resolved, lifted);
}

#[test]
fn mixed_override_and_inheritance_are_independent() {
    let overlay = CoinsLayer {
        default_page_size: Some(25),
        max_page_size: None,
        extra: toml::Table::new(),
    };
    let (resolved, warning) = overlay.finish(base_coins());
    assert!(warning.is_none());
    assert_eq!(
        resolved,
        CoinsConfig {
            default_page_size: 25,
            max_page_size: 50,
        }
    );
}

#[test]
fn merged_field_ignores_unrelated_fields() {
    let first = ObjectsLayer {
        max_multi_get_objects: Some(1),
        default_page_size: None,
        max_page_size: None,
        extra: toml::Table::new(),
    };
    let second = ObjectsLayer {
        max_multi_get_objects: Some(999),
        default_page_size: Some(777),
        max_page_size: None,
        extra: toml::Table::new(),
    };
    let other_base = ObjectsConfig {
        max_multi_get_objects: 60,
        default_page_size: 70,
        max_page_size: 50,
    };
    let (from_first, _) = first.finish(base_objects());
    let (from_second, _) = second.finish(other_base);
    assert_eq!(from_first.max_page_size, from_second.max_page_size);
}

#[test]
fn name_service_overrides_identifiers() {
    let package_address = SuiAddress { hi: 0xDEAD, lo: 0xBEEF };
    let overlay = NameServiceLayer {
        package_address: Some(package_address),
        registry_id: None,
        reverse_registry_id: None,
        extra: toml::Table::new(),
    };
    let (resolved, warning) = overlay.finish(base_name_service());
    assert!(warning.is_none());
    assert_eq!(resolved.package_address, package_address);
    assert_eq!(resolved.registry_id, base_name_service().registry_id);
    assert_eq!(
        resolved.reverse_registry_id,
        base_name_service().reverse_registry_id
    );
}

#[test]
fn out_of_range_datetime_still_warns_not_fails() {
    let mut extra = toml::Table::new();
    extra.insert(
        "when".to_string(),
        toml::Value::Datetime(toml::value::Datetime {
            date: Some(toml::value::Date {
                year: 2024,
                month: 13,
                day: 1,
            }),
            time: None,
            offset: None,
        }),
    );
    let overlay = CoinsLayer {
        default_page_size: None,
        max_page_size: None,
        extra,
    };
    let (resolved, warning) = overlay.finish(base_coins());
    assert_eq!(resolved, base_coins());
    let warning = warning.expect("a non-empty extras bucket must warn");
    assert_eq!(warning.entries.len(), 1);
    assert_eq!(warning.entries[0].0, "when");
    assert!(!warning.entries[0].1.is_empty());
}

#[test]
fn check_extra_empty_bucket_is_silent() {
    assert!(check_extra(Section::Coins, toml::Table::new()).is_none());
}

#[test]
fn check_extra_names_its_section() {
    let mut extra = toml::Table::new();
    extra.insert("unknown".to_string(), toml::Value::Boolean(true));
    let warning = check_extra(Section::Coins, extra).expect("non-empty bucket must warn");
    assert_eq!(warning.section, Section::Coins);
    assert_eq!(warning.section.name(), "coins");
    assert_eq!(warning.field_word(), "field");
    assert_eq!(warning.entries.len(), 1);
    assert_eq!(warning.entries[0], ("unknown".to_string(), "true".to_string()));
}

#[test]
fn section_names_match_diagnostic_wording() {
    assert_eq!(Section::TopLevel.name(), "top-level");
    assert_eq!(Section::Objects.name(), "objects");
    assert_eq!(Section::Transactions.name(), "transactions");
    assert_eq!(Section::NameService.name(), "name service");
    assert_eq!(Section::Coins.name(), "coins");
    assert_eq!(Section::PackageResolver.name(), "package-resolver");
}

#[test]
fn transactions_overlay_overrides_all_fields() {
    let overlay = TransactionsLayer {
        default_page_size: Some(10),
        max_page_size: Some(500),
        extra: toml::Table::new(),
    };
    let (resolved, warning) = overlay.finish(base_transactions());
    assert!(warning.is_none());
    assert_eq!(
        resolved,
        TransactionsConfig {
            default_page_size: 10,
            max_page_size: 500,
        }
    );
}
