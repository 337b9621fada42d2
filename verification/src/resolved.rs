//! Fully resolved configuration records, one per subsystem.
//!
//! Every field of a resolved record is mandatory: it is the value the
//! subsystem will actually use. Baselines handed in by the subsystems at
//! start-up are values of these same types.

use vstd::prelude::*;

verus! {

/// A 32-byte account address, as the name service identifies its package,
/// split into its high and low 16-byte halves.
#[derive(Clone, Copy, PartialEq, Eq, Debug)]
pub struct SuiAddress {
    pub hi: u128,
    pub lo: u128,
}

/// A 32-byte object identifier, as the name service identifies its registries,
/// split into its high and low 16-byte halves.
#[derive(Clone, Copy, PartialEq, Eq, Debug)]
pub struct ObjectID {
    pub hi: u128,
    pub lo: u128,
}

/// Resolved configuration for object-related RPC methods.
#[derive(Clone, Copy, PartialEq, Eq, Debug)]
pub struct ObjectsConfig {
    pub max_multi_get_objects: usize,
    pub default_page_size: usize,
    pub max_page_size: usize,
}

/// Resolved configuration for transaction-related RPC methods.
#[derive(Clone, Copy, PartialEq, Eq, Debug)]
pub struct TransactionsConfig {
    pub default_page_size: usize,
    pub max_page_size: usize,
}

/// Resolved configuration for the name-service RPC methods.
#[derive(Clone, Copy, PartialEq, Eq, Debug)]
pub struct NameServiceConfig {
    pub package_address: SuiAddress,
    pub registry_id: ObjectID,
    pub reverse_registry_id: ObjectID,
}

/// Resolved configuration for coin-related RPC methods.
#[derive(Clone, Copy, PartialEq, Eq, Debug)]
pub struct CoinsConfig {
    pub default_page_size: usize,
    pub max_page_size: usize,
}

/// Resolved limits for the package type-resolver.
#[derive(Clone, Copy, PartialEq, Eq, Debug)]
pub struct Limits {
    pub max_type_argument_depth: usize,
    pub max_type_argument_width: usize,
    pub max_type_nodes: usize,
    pub max_move_value_depth: usize,
}

/// The baseline the objects subsystem supplies when the host does not hand in
/// another.
pub open spec fn objects_defaults() -> ObjectsConfig {
    ObjectsConfig {
        max_multi_get_objects: 50,
        default_page_size: 50,
        max_page_size: 100,
    }
}

/// The baseline the transactions subsystem supplies when the host does not
/// hand in another.
pub open spec fn transactions_defaults() -> TransactionsConfig {
    TransactionsConfig {
        default_page_size: 50,
        max_page_size: 100,
    }
}

/// The all-zero identifier: the name service's placeholder baseline.
pub open spec fn zero_address() -> SuiAddress {
    SuiAddress { hi: 0, lo: 0 }
}

/// The all-zero object identifier.
pub open spec fn zero_object_id() -> ObjectID {
    ObjectID { hi: 0, lo: 0 }
}

/// The baseline the name-service subsystem supplies when the host does not
/// hand in another.
pub open spec fn name_service_defaults() -> NameServiceConfig {
    NameServiceConfig {
        package_address: zero_address(),
        registry_id: zero_object_id(),
        reverse_registry_id: zero_object_id(),
    }
}

/// The baseline the coins subsystem supplies when the host does not hand in
/// another.
pub open spec fn coins_defaults() -> CoinsConfig {
    CoinsConfig {
        default_page_size: 50,
        max_page_size: 100,
    }
}

impl Default for ObjectsConfig {
    fn default() -> (r: Self)
        ensures
            r == objects_defaults(),
    {
        ObjectsConfig {
            max_multi_get_objects: 50,
            default_page_size: 50,
            max_page_size: 100,
        }
    }
}

impl Default for TransactionsConfig {
    fn default() -> (r: Self)
        ensures
            r == transactions_defaults(),
    {
        TransactionsConfig {
            default_page_size: 50,
            max_page_size: 100,
        }
    }
}

impl Default for NameServiceConfig {
    fn default() -> (r: Self)
        ensures
            r == name_service_defaults(),
    {
        NameServiceConfig {
            package_address: SuiAddress { hi: 0, lo: 0 },
            registry_id: ObjectID { hi: 0, lo: 0 },
            reverse_registry_id: ObjectID { hi: 0, lo: 0 },
        }
    }
}

impl Default for CoinsConfig {
    fn default() -> (r: Self)
        ensures
            r == coins_defaults(),
    {
        CoinsConfig {
            default_page_size: 50,
            max_page_size: 100,
        }
    }
}

} // verus!
