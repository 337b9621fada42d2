//! The laws the mergers obey, stated and proved once for all inputs.

use vstd::prelude::*;

use crate::config::{
    is_lift_coins, is_lift_name_service, is_lift_objects, is_lift_transactions, merged_coins,
    merged_name_service, merged_objects, merged_transactions, CoinsLayer, NameServiceLayer,
    ObjectsLayer, RpcConfig, TransactionsLayer,
};
use crate::resolved::{
    coins_defaults, name_service_defaults, objects_defaults, transactions_defaults, CoinsConfig,
    NameServiceConfig, ObjectsConfig, TransactionsConfig,
};

verus! {

/// Inheritance: a field the overlay leaves absent resolves to the baseline's
/// value, and a field it supplies resolves to the supplied value.
pub proof fn lemma_objects_inheritance(o: ObjectsLayer, base: ObjectsConfig)
    ensures
        o.max_multi_get_objects is None ==> merged_objects(o, base).max_multi_get_objects
            == base.max_multi_get_objects,
        o.max_multi_get_objects matches Some(v) ==> merged_objects(o, base).max_multi_get_objects == v,
        o.default_page_size is None ==> merged_objects(o, base).default_page_size
            == base.default_page_size,
        o.default_page_size matches Some(v) ==> merged_objects(o, base).default_page_size == v,
        o.max_page_size is None ==> merged_objects(o, base).max_page_size == base.max_page_size,
        o.max_page_size matches Some(v) ==> merged_objects(o, base).max_page_size == v,
{
}

/// Inheritance for the transactions overlay.
pub proof fn lemma_transactions_inheritance(o: TransactionsLayer, base: TransactionsConfig)
    ensures
        o.default_page_size is None ==> merged_transactions(o, base).default_page_size
            == base.default_page_size,
        o.default_page_size matches Some(v) ==> merged_transactions(o, base).default_page_size == v,
        o.max_page_size is None ==> merged_transactions(o, base).max_page_size == base.max_page_size,
        o.max_page_size matches Some(v) ==> merged_transactions(o, base).max_page_size == v,
{
}

/// Inheritance for the name-service overlay.
pub proof fn lemma_name_service_inheritance(o: NameServiceLayer, base: NameServiceConfig)
    ensures
        o.package_address is None ==> merged_name_service(o, base).package_address
            == base.package_address,
        o.package_address matches Some(v) ==> merged_name_service(o, base).package_address == v,
        o.registry_id is None ==> merged_name_service(o, base).registry_id == base.registry_id,
        o.registry_id matches Some(v) ==> merged_name_service(o, base).registry_id == v,
        o.reverse_registry_id is None ==> merged_name_service(o, base).reverse_registry_id
            == base.reverse_registry_id,
        o.reverse_registry_id matches Some(v) ==> merged_name_service(o, base).reverse_registry_id
            == v,
{
}

/// Inheritance for the coins overlay.
pub proof fn lemma_coins_inheritance(o: CoinsLayer, base: CoinsConfig)
    ensures
        o.default_page_size is None ==> merged_coins(o, base).default_page_size
            == base.default_page_size,
        o.default_page_size matches Some(v) ==> merged_coins(o, base).default_page_size == v,
        o.max_page_size is None ==> merged_coins(o, base).max_page_size == base.max_page_size,
        o.max_page_size matches Some(v) ==> merged_coins(o, base).max_page_size == v,
{
}

/// Field independence: each field of the merged record depends only on that
/// same field of the overlay and of the baseline, never on any other field.
pub proof fn lemma_objects_field_independence(
    o1: ObjectsLayer,
    o2: ObjectsLayer,
    b1: ObjectsConfig,
    b2: ObjectsConfig,
)
    ensures
        o1.max_multi_get_objects == o2.max_multi_get_objects && b1.max_multi_get_objects
            == b2.max_multi_get_objects ==> merged_objects(o1, b1).max_multi_get_objects
            == merged_objects(o2, b2).max_multi_get_objects,
        o1.default_page_size == o2.default_page_size && b1.default_page_size == b2.default_page_size
            ==> merged_objects(o1, b1).default_page_size == merged_objects(o2, b2).default_page_size,
        o1.max_page_size == o2.max_page_size && b1.max_page_size == b2.max_page_size
            ==> merged_objects(o1, b1).max_page_size == merged_objects(o2, b2).max_page_size,
{
}

/// Field independence for the transactions overlay.
pub proof fn lemma_transactions_field_independence(
    o1: TransactionsLayer,
    o2: TransactionsLayer,
    b1: TransactionsConfig,
    b2: TransactionsConfig,
)
    ensures
        o1.default_page_size == o2.default_page_size && b1.default_page_size == b2.default_page_size
            ==> merged_transactions(o1, b1).default_page_size
            == merged_transactions(o2, b2).default_page_size,
        o1.max_page_size == o2.max_page_size && b1.max_page_size == b2.max_page_size
            ==> merged_transactions(o1, b1).max_page_size == merged_transactions(o2, b2).max_page_size,
{
}

/// Field independence for the name-service overlay.
pub proof fn lemma_name_service_field_independence(
    o1: NameServiceLayer,
    o2: NameServiceLayer,
    b1: NameServiceConfig,
    b2: NameServiceConfig,
)
    ensures
        o1.package_address == o2.package_address && b1.package_address == b2.package_address
            ==> merged_name_service(o1, b1).package_address
            == merged_name_service(o2, b2).package_address,
        o1.registry_id == o2.registry_id && b1.registry_id == b2.registry_id
            ==> merged_name_service(o1, b1).registry_id == merged_name_service(o2, b2).registry_id,
        o1.reverse_registry_id == o2.reverse_registry_id && b1.reverse_registry_id
            == b2.reverse_registry_id ==> merged_name_service(o1, b1).reverse_registry_id
            == merged_name_service(o2, b2).reverse_registry_id,
{
}

/// Field independence for the coins overlay.
pub proof fn lemma_coins_field_independence(
    o1: CoinsLayer,
    o2: CoinsLayer,
    b1: CoinsConfig,
    b2: CoinsConfig,
)
    ensures
        o1.default_page_size == o2.default_page_size && b1.default_page_size == b2.default_page_size
            ==> merged_coins(o1, b1).default_page_size == merged_coins(o2, b2).default_page_size,
        o1.max_page_size == o2.max_page_size && b1.max_page_size == b2.max_page_size
            ==> merged_coins(o1, b1).max_page_size == merged_coins(o2, b2).max_page_size,
{
}

/// Left inverse: an overlay that lifts a resolved record merges back to that
/// record against any baseline at all, since every field is supplied.
pub proof fn lemma_objects_left_inverse(o: ObjectsLayer, lifted: ObjectsConfig, base: ObjectsConfig)
    requires
        is_lift_objects(o, lifted),
    ensures
        merged_objects(o, base) == lifted,
{
}

/// Left inverse for the transactions overlay.
pub proof fn lemma_transactions_left_inverse(
    o: TransactionsLayer,
    lifted: TransactionsConfig,
    base: TransactionsConfig,
)
    requires
        is_lift_transactions(o, lifted),
    ensures
        merged_transactions(o, base) == lifted,
{
}

/// Left inverse for the name-service overlay.
pub proof fn lemma_name_service_left_inverse(
    o: NameServiceLayer,
    lifted: NameServiceConfig,
    base: NameServiceConfig,
)
    requires
        is_lift_name_service(o, lifted),
    ensures
        merged_name_service(o, base) == lifted,
{
}

/// Left inverse for the coins overlay.
pub proof fn lemma_coins_left_inverse(o: CoinsLayer, lifted: CoinsConfig, base: CoinsConfig)
    requires
        is_lift_coins(o, lifted),
    ensures
        merged_coins(o, base) == lifted,
{
}

/// Round trip: a root overlay shaped like the example — every child lifting
/// its subsystem's baseline default — merges back to exactly those baselines.
pub proof fn lemma_example_round_trip(cfg: RpcConfig)
    requires
        is_lift_objects(cfg.objects, objects_defaults()),
        is_lift_transactions(cfg.transactions, transactions_defaults()),
        is_lift_name_service(cfg.name_service, name_service_defaults()),
        is_lift_coins(cfg.coins, coins_defaults()),
    ensures
        merged_objects(cfg.objects, objects_defaults()) == objects_defaults(),
        merged_transactions(cfg.transactions, transactions_defaults()) == transactions_defaults(),
        merged_name_service(cfg.name_service, name_service_defaults()) == name_service_defaults(),
        merged_coins(cfg.coins, coins_defaults()) == coins_defaults(),
{
    lemma_objects_left_inverse(cfg.objects, objects_defaults(), objects_defaults());
    lemma_transactions_left_inverse(cfg.transactions, transactions_defaults(), transactions_defaults());
    lemma_name_service_left_inverse(cfg.name_service, name_service_defaults(), name_service_defaults());
    lemma_coins_left_inverse(cfg.coins, coins_defaults(), coins_defaults());
}

} // verus!
