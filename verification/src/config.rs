//! Overlay records and their mergers.
//!
//! An overlay mirrors a resolved record, but every field it can override is
//! optional: absence means "inherit from the baseline". Each overlay's
//! `finish` merges it onto a baseline and drains its extras bucket, yielding
//! the resolved record together with at most one warning diagnostic.

use vstd::prelude::*;

use crate::extras::{check_extra, extras_entries, new_table, warning_for, ExtrasWarning, Section};
use crate::resolved::{
    coins_defaults, name_service_defaults, objects_defaults, transactions_defaults, CoinsConfig,
    Limits, NameServiceConfig, ObjectID, ObjectsConfig, SuiAddress, TransactionsConfig,
};

verus! {

/// The value a field resolves to: the overlay's, if it supplied one, else the
/// baseline's.
pub open spec fn layered<T>(field: Option<T>, base: T) -> T {
    match field {
        Option::Some(v) => v,
        Option::None => base,
    }
}

/// Overlay for the object-related RPC methods.
#[derive(Clone, Debug)]
pub struct ObjectsLayer {
    pub max_multi_get_objects: Option<usize>,
    pub default_page_size: Option<usize>,
    pub max_page_size: Option<usize>,

    /// Keys of the objects section that match no declared field.
    pub extra: toml::map::Map<String, toml::Value>,
}

/// Overlay for the transaction-related RPC methods.
#[derive(Clone, Debug)]
pub struct TransactionsLayer {
    pub default_page_size: Option<usize>,
    pub max_page_size: Option<usize>,

    /// Keys of the transactions section that match no declared field.
    pub extra: toml::map::Map<String, toml::Value>,
}

/// Overlay for the name-service RPC methods.
#[derive(Clone, Debug)]
pub struct NameServiceLayer {
    pub package_address: Option<SuiAddress>,
    pub registry_id: Option<ObjectID>,
    pub reverse_registry_id: Option<ObjectID>,

    /// Keys of the name-service section that match no declared field.
    pub extra: toml::map::Map<String, toml::Value>,
}

/// Overlay for the coin-related RPC methods.
#[derive(Clone, Debug)]
pub struct CoinsLayer {
    pub default_page_size: Option<usize>,
    pub max_page_size: Option<usize>,

    /// Keys of the coins section that match no declared field.
    pub extra: toml::map::Map<String, toml::Value>,
}

/// Overlay for the package type-resolver's limits.
///
/// Unlike the other overlays its fields are mandatory: their defaults come
/// from the protocol catalog, not from a subsystem-supplied baseline, so a
/// value of this type always carries all four bounds.
#[derive(Clone, Debug)]
pub struct PackageResolverLayer {
    pub max_type_argument_depth: usize,
    pub max_type_argument_width: usize,
    pub max_type_nodes: usize,
    pub max_move_value_depth: usize,

    /// Keys of the package-resolver section that match no declared field.
    pub extra: toml::map::Map<String, toml::Value>,
}

/// Configuration for the wide-column KV backend. Present iff that backend is
/// enabled; not layered, so it carries no extras bucket.
#[derive(Clone, PartialEq, Eq, Debug)]
pub struct BigtableConfig {
    /// The instance id of the Bigtable instance to connect to.
    pub instance_id: String,
}

/// The root overlay: one child overlay per subsystem, the optional
/// wide-column backend configuration, and the top-level extras bucket.
#[derive(Clone, Debug)]
pub struct RpcConfig {
    /// Configuration for object-related RPC methods.
    pub objects: ObjectsLayer,

    /// Configuration for transaction-related RPC methods.
    pub transactions: TransactionsLayer,

    /// Configuration for name-service RPC methods.
    pub name_service: NameServiceLayer,

    /// Configuration for coin-related RPC methods.
    pub coins: CoinsLayer,

    /// Configuration for the bigtable KV store, if it is used.
    pub bigtable_config: Option<BigtableConfig>,

    /// Limits for the package resolver.
    pub package_resolver: PackageResolverLayer,

    /// Top-level keys that match no declared section.
    pub extra: toml::map::Map<String, toml::Value>,
}

/// The resolved record `merge(o, base)`: each field the overlay supplies
/// overrides the baseline's; the rest inherit.
pub open spec fn merged_objects(o: ObjectsLayer, base: ObjectsConfig) -> ObjectsConfig {
    ObjectsConfig {
        max_multi_get_objects: layered(o.max_multi_get_objects, base.max_multi_get_objects),
        default_page_size: layered(o.default_page_size, base.default_page_size),
        max_page_size: layered(o.max_page_size, base.max_page_size),
    }
}

/// The resolved record `merge(o, base)` for the transactions overlay.
pub open spec fn merged_transactions(o: TransactionsLayer, base: TransactionsConfig) -> TransactionsConfig {
    TransactionsConfig {
        default_page_size: layered(o.default_page_size, base.default_page_size),
        max_page_size: layered(o.max_page_size, base.max_page_size),
    }
}

/// The resolved record `merge(o, base)` for the name-service overlay.
pub open spec fn merged_name_service(o: NameServiceLayer, base: NameServiceConfig) -> NameServiceConfig {
    NameServiceConfig {
        package_address: layered(o.package_address, base.package_address),
        registry_id: layered(o.registry_id, base.registry_id),
        reverse_registry_id: layered(o.reverse_registry_id, base.reverse_registry_id),
    }
}

/// The resolved record `merge(o, base)` for the coins overlay.
pub open spec fn merged_coins(o: CoinsLayer, base: CoinsConfig) -> CoinsConfig {
    CoinsConfig {
        default_page_size: layered(o.default_page_size, base.default_page_size),
        max_page_size: layered(o.max_page_size, base.max_page_size),
    }
}

/// The resolved limits of a package-resolver overlay: its four bounds,
/// unchanged.
pub open spec fn resolved_limits(o: PackageResolverLayer) -> Limits {
    Limits {
        max_type_argument_depth: o.max_type_argument_depth,
        max_type_argument_width: o.max_type_argument_width,
        max_type_nodes: o.max_type_nodes,
        max_move_value_depth: o.max_move_value_depth,
    }
}

/// `o` lifts the resolved record `c`: every field supplied as `Some` of `c`'s
/// value.
pub open spec fn is_lift_objects(o: ObjectsLayer, c: ObjectsConfig) -> bool {
    &&& o.max_multi_get_objects == Some(c.max_multi_get_objects)
    &&& o.default_page_size == Some(c.default_page_size)
    &&& o.max_page_size == Some(c.max_page_size)
}

/// `o` lifts the resolved record `c`.
pub open spec fn is_lift_transactions(o: TransactionsLayer, c: TransactionsConfig) -> bool {
    &&& o.default_page_size == Some(c.default_page_size)
    &&& o.max_page_size == Some(c.max_page_size)
}

/// `o` lifts the resolved record `c`.
pub open spec fn is_lift_name_service(o: NameServiceLayer, c: NameServiceConfig) -> bool {
    &&& o.package_address == Some(c.package_address)
    &&& o.registry_id == Some(c.registry_id)
    &&& o.reverse_registry_id == Some(c.reverse_registry_id)
}

/// `o` lifts the resolved record `c`.
pub open spec fn is_lift_coins(o: CoinsLayer, c: CoinsConfig) -> bool {
    &&& o.default_page_size == Some(c.default_page_size)
    &&& o.max_page_size == Some(c.max_page_size)
}

impl ObjectsLayer {
    /// Merge this overlay onto `base` and drain the extras bucket: each field
    /// this overlay supplies overrides the baseline's, the rest inherit, and a
    /// non-empty bucket yields exactly one warning.
    pub fn finish(self, base: ObjectsConfig) -> (r: (ObjectsConfig, Option<ExtrasWarning>))
        ensures
            r.0 == merged_objects(self, base),
            r.1 is Some <==> extras_entries(self.extra).len() != 0,
            r.1 matches Some(w) ==> warning_for(w, Section::Objects, extras_entries(self.extra)),
    {
        let ObjectsLayer { max_multi_get_objects, default_page_size, max_page_size, extra } = self;
        let warning = check_extra(Section::Objects, extra);
        (
            ObjectsConfig {
                max_multi_get_objects: max_multi_get_objects.unwrap_or(base.max_multi_get_objects),
                default_page_size: default_page_size.unwrap_or(base.default_page_size),
                max_page_size: max_page_size.unwrap_or(base.max_page_size),
            },
            warning,
        )
    }

    /// Lift a resolved record into an overlay: every field supplied, extras
    /// empty.
    pub fn from(config: ObjectsConfig) -> (r: Self)
        ensures
            is_lift_objects(r, config),
            extras_entries(r.extra).len() == 0,
    {
        ObjectsLayer {
            max_multi_get_objects: Some(config.max_multi_get_objects),
            default_page_size: Some(config.default_page_size),
            max_page_size: Some(config.max_page_size),
            extra: new_table(),
        }
    }
}

impl TransactionsLayer {
    /// Merge this overlay onto `base` and drain the extras bucket.
    pub fn finish(self, base: TransactionsConfig) -> (r: (TransactionsConfig, Option<ExtrasWarning>))
        ensures
            r.0 == merged_transactions(self, base),
            r.1 is Some <==> extras_entries(self.extra).len() != 0,
            r.1 matches Some(w) ==> warning_for(w, Section::Transactions, extras_entries(self.extra)),
    {
        let TransactionsLayer { default_page_size, max_page_size, extra } = self;
        let warning = check_extra(Section::Transactions, extra);
        (
            TransactionsConfig {
                default_page_size: default_page_size.unwrap_or(base.default_page_size),
                max_page_size: max_page_size.unwrap_or(base.max_page_size),
            },
            warning,
        )
    }

    /// Lift a resolved record into an overlay: every field supplied, extras
    /// empty.
    pub fn from(config: TransactionsConfig) -> (r: Self)
        ensures
            is_lift_transactions(r, config),
            extras_entries(r.extra).len() == 0,
    {
        TransactionsLayer {
            default_page_size: Some(config.default_page_size),
            max_page_size: Some(config.max_page_size),
            extra: new_table(),
        }
    }
}

impl NameServiceLayer {
    /// Merge this overlay onto `base` and drain the extras bucket.
    pub fn finish(self, base: NameServiceConfig) -> (r: (NameServiceConfig, Option<ExtrasWarning>))
        ensures
            r.0 == merged_name_service(self, base),
            r.1 is Some <==> extras_entries(self.extra).len() != 0,
            r.1 matches Some(w) ==> warning_for(w, Section::NameService, extras_entries(self.extra)),
    {
        let NameServiceLayer { package_address, registry_id, reverse_registry_id, extra } = self;
        let warning = check_extra(Section::NameService, extra);
        (
            NameServiceConfig {
                package_address: package_address.unwrap_or(base.package_address),
                registry_id: registry_id.unwrap_or(base.registry_id),
                reverse_registry_id: reverse_registry_id.unwrap_or(base.reverse_registry_id),
            },
            warning,
        )
    }

    /// Lift a resolved record into an overlay: every field supplied, extras
    /// empty.
    pub fn from(config: NameServiceConfig) -> (r: Self)
        ensures
            is_lift_name_service(r, config),
            extras_entries(r.extra).len() == 0,
    {
        NameServiceLayer {
            package_address: Some(config.package_address),
            registry_id: Some(config.registry_id),
            reverse_registry_id: Some(config.reverse_registry_id),
            extra: new_table(),
        }
    }
}

impl CoinsLayer {
    /// Merge this overlay onto `base` and drain the extras bucket.
    pub fn finish(self, base: CoinsConfig) -> (r: (CoinsConfig, Option<ExtrasWarning>))
        ensures
            r.0 == merged_coins(self, base),
            r.1 is Some <==> extras_entries(self.extra).len() != 0,
            r.1 matches Some(w) ==> warning_for(w, Section::Coins, extras_entries(self.extra)),
    {
        let CoinsLayer { default_page_size, max_page_size, extra } = self;
        let warning = check_extra(Section::Coins, extra);
        (
            CoinsConfig {
                default_page_size: default_page_size.unwrap_or(base.default_page_size),
                max_page_size: max_page_size.unwrap_or(base.max_page_size),
            },
            warning,
        )
    }

    /// Lift a resolved record into an overlay: every field supplied, extras
    /// empty.
    pub fn from(config: CoinsConfig) -> (r: Self)
        ensures
            is_lift_coins(r, config),
            extras_entries(r.extra).len() == 0,
    {
        CoinsLayer {
            default_page_size: Some(config.default_page_size),
            max_page_size: Some(config.max_page_size),
            extra: new_table(),
        }
    }
}

impl PackageResolverLayer {
    /// Build the default package-resolver overlay from the four bounds the
    /// protocol catalog reports for the maximum protocol version the binary
    /// knows: using that version rather than the live chain's is sound here
    /// because these values only seed defaults that callers may override.
    pub fn from_protocol(
        max_type_argument_depth: u64,
        max_type_argument_width: u64,
        max_type_nodes: u64,
        max_move_value_depth: u64,
    ) -> (r: Self)
        requires
            max_type_argument_depth <= usize::MAX,
            max_type_argument_width <= usize::MAX,
            max_type_nodes <= usize::MAX,
            max_move_value_depth <= usize::MAX,
        ensures
            r.max_type_argument_depth == max_type_argument_depth,
            r.max_type_argument_width == max_type_argument_width,
            r.max_type_nodes == max_type_nodes,
            r.max_move_value_depth == max_move_value_depth,
            extras_entries(r.extra).len() == 0,
    {
        PackageResolverLayer {
            max_type_argument_depth: max_type_argument_depth as usize,
            max_type_argument_width: max_type_argument_width as usize,
            max_type_nodes: max_type_nodes as usize,
            max_move_value_depth: max_move_value_depth as usize,
            extra: new_table(),
        }
    }

    /// Turn this overlay into the resolver's limits and drain the extras
    /// bucket. The four bounds pass through unchanged.
    pub fn finish(self) -> (r: (Limits, Option<ExtrasWarning>))
        ensures
            r.0 == resolved_limits(self),
            r.1 is Some <==> extras_entries(self.extra).len() != 0,
            r.1 matches Some(w) ==> warning_for(w, Section::PackageResolver, extras_entries(self.extra)),
    {
        let PackageResolverLayer {
            max_type_argument_depth,
            max_type_argument_width,
            max_type_nodes,
            max_move_value_depth,
            extra,
        } = self;
        let warning = check_extra(Section::PackageResolver, extra);
        (
            Limits {
                max_type_argument_depth,
                max_type_argument_width,
                max_type_nodes,
                max_move_value_depth,
            },
            warning,
        )
    }
}

impl RpcConfig {
    /// Generate an example configuration, suitable for demonstrating the
    /// fields available to configure: every child overlay lifts its
    /// subsystem's baseline default, the wide-column backend is absent, and
    /// every extras bucket is empty. The package-resolver child, whose
    /// defaults come from the protocol catalog, is handed in by the caller.
    pub fn example(package_resolver: PackageResolverLayer) -> (r: Self)
        ensures
            is_lift_objects(r.objects, objects_defaults()),
            extras_entries(r.objects.extra).len() == 0,
            is_lift_transactions(r.transactions, transactions_defaults()),
            extras_entries(r.transactions.extra).len() == 0,
            is_lift_name_service(r.name_service, name_service_defaults()),
            extras_entries(r.name_service.extra).len() == 0,
            is_lift_coins(r.coins, coins_defaults()),
            extras_entries(r.coins.extra).len() == 0,
            r.bigtable_config is None,
            r.package_resolver == package_resolver,
            extras_entries(r.extra).len() == 0,
    {
        RpcConfig {
            objects: ObjectsLayer::from(ObjectsConfig::default()),
            transactions: TransactionsLayer::from(TransactionsConfig::default()),
            name_service: NameServiceLayer::from(NameServiceConfig::default()),
            coins: CoinsLayer::from(CoinsConfig::default()),
            bigtable_config: None,
            package_resolver,
            extra: new_table(),
        }
    }

    /// Drain the top-level extras bucket, warning if it is non-empty. Every
    /// child overlay and the wide-column backend configuration are forwarded
    /// untouched, each to be finished by its own merger.
    pub fn finish(self) -> (r: (RpcConfig, Option<ExtrasWarning>))
        ensures
            r.0.objects == self.objects,
            r.0.transactions == self.transactions,
            r.0.name_service == self.name_service,
            r.0.coins == self.coins,
            r.0.bigtable_config == self.bigtable_config,
            r.0.package_resolver == self.package_resolver,
            extras_entries(r.0.extra).len() == 0,
            r.1 is Some <==> extras_entries(self.extra).len() != 0,
            r.1 matches Some(w) ==> warning_for(w, Section::TopLevel, extras_entries(self.extra)),
    {
        let RpcConfig {
            objects,
            transactions,
            name_service,
            coins,
            bigtable_config,
            package_resolver,
            extra,
        } = self;
        let warning = check_extra(Section::TopLevel, extra);
        (
            RpcConfig {
                objects,
                transactions,
                name_service,
                coins,
                bigtable_config,
                package_resolver,
                extra: new_table(),
            },
            warning,
        )
    }
}

impl Default for ObjectsLayer {
    /// The empty overlay: every field inherits, extras empty.
    fn default() -> (r: Self)
        ensures
            r.max_multi_get_objects is None,
            r.default_page_size is None,
            r.max_page_size is None,
            extras_entries(r.extra).len() == 0,
    {
        ObjectsLayer {
            max_multi_get_objects: None,
            default_page_size: None,
            max_page_size: None,
            extra: new_table(),
        }
    }
}

impl Default for TransactionsLayer {
    /// The empty overlay: every field inherits, extras empty.
    fn default() -> (r: Self)
        ensures
            r.default_page_size is None,
            r.max_page_size is None,
            extras_entries(r.extra).len() == 0,
    {
        TransactionsLayer {
            default_page_size: None,
            max_page_size: None,
            extra: new_table(),
        }
    }
}

impl Default for NameServiceLayer {
    /// The empty overlay: every field inherits, extras empty.
    fn default() -> (r: Self)
        ensures
            r.package_address is None,
            r.registry_id is None,
            r.reverse_registry_id is None,
            extras_entries(r.extra).len() == 0,
    {
        NameServiceLayer {
            package_address: None,
            registry_id: None,
            reverse_registry_id: None,
            extra: new_table(),
        }
    }
}

impl Default for CoinsLayer {
    /// The empty overlay: every field inherits, extras empty.
    fn default() -> (r: Self)
        ensures
            r.default_page_size is None,
            r.max_page_size is None,
            extras_entries(r.extra).len() == 0,
    {
        CoinsLayer {
            default_page_size: None,
            max_page_size: None,
            extra: new_table(),
        }
    }
}

impl Default for BigtableConfig {
    /// The empty instance id.
    fn default() -> (r: Self)
        ensures
            r.instance_id@.len() == 0,
    {
        BigtableConfig { instance_id: String::new() }
    }
}

} // verus!
