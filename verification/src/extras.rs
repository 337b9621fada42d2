//! The extras bucket and the unrecognized-field policy.
//!
//! Keys of the configuration document that match no declared field are
//! collected by the parser into a per-section `toml` table. Draining that
//! table is the mergers' final act: a non-empty bucket yields exactly one
//! warning diagnostic enumerating the unrecognized entries, and never an
//! error. The host renders and emits the diagnostic.

use vstd::prelude::*;

verus! {

#[verifier::external_type_specification]
#[verifier::external_body]
#[verifier::reject_recursive_types(K)]
#[verifier::reject_recursive_types(V)]
pub struct ExTomlMapKV<K, V>(toml::map::Map<K, V>);

#[verifier::external_type_specification]
#[verifier::external_body]
pub struct ExTomlValue(toml::Value);

/// What an extras table holds: each entry as its key and the toml text of its
/// value (a fixed placeholder where the value has none, such as a hand-built
/// out-of-range datetime), in the order the table's iterator yields them.
pub uninterp spec fn extras_entries(t: toml::map::Map<String, toml::Value>) -> Seq<(Seq<char>, Seq<char>)>;

/// Relies on toml::map::Map's own Clone impl, which copies the table entry by
/// entry, so the copy holds the same entries.
pub assume_specification[ <toml::map::Map<String, toml::Value> as Clone>::clone ](
    m: &toml::map::Map<String, toml::Value>,
) -> (r: toml::map::Map<String, toml::Value>)
    ensures
        extras_entries(r) == extras_entries(*m),
;

/// Relies on toml::map::Map::new: the new table holds no entries.
#[verifier::external_body]
pub(crate) fn new_table() -> (r: toml::map::Map<String, toml::Value>)
    ensures
        extras_entries(r).len() == 0,
{
    toml::map::Map::new()
}

/// Relies on toml::map::Map::iter, which yields every entry of the table
/// once, and on toml's value serializer, whose toml text is a function of the
/// value alone. The serializer refuses a value outside the toml text format
/// with an error rather than text; such a value is rendered as a fixed
/// placeholder, so every table renders and the call returns on every input.
#[verifier::external_body]
fn table_entries_rendered(t: &toml::map::Map<String, toml::Value>) -> (r: Vec<(String, String)>)
    ensures
        r@.len() == extras_entries(*t).len(),
        forall|i: int|
            0 <= i < r@.len() ==> {
                &&& (#[trigger] r@[i]).0@ == extras_entries(*t)[i].0
                &&& r@[i].1@ == extras_entries(*t)[i].1
            },
{
    t.iter()
        .map(|(key, value)| {
            let mut text = String::new();
            let result = serde::Serialize::serialize(value, toml::ser::ValueSerializer::new(&mut text));
            if result.is_err() {
                text = "<unrenderable value>".to_string();
            }
            (key.clone(), text)
        })
        .collect()
}

/// The configuration sections whose extras buckets are drained.
#[derive(Clone, Copy, PartialEq, Eq, Debug)]
pub enum Section {
    TopLevel,
    Objects,
    Transactions,
    NameService,
    Coins,
    PackageResolver,
}

/// The human-readable name of a section, as diagnostics use it.
pub open spec fn section_name(s: Section) -> Seq<char> {
    match s {
        Section::TopLevel => "top-level"@,
        Section::Objects => "objects"@,
        Section::Transactions => "transactions"@,
        Section::NameService => "name service"@,
        Section::Coins => "coins"@,
        Section::PackageResolver => "package-resolver"@,
    }
}

impl Section {
    /// The human-readable name of this section, as diagnostics use it.
    pub fn name(&self) -> (r: &'static str)
        ensures
            r@ == section_name(*self),
    {
        match self {
            Section::TopLevel => "top-level",
            Section::Objects => "objects",
            Section::Transactions => "transactions",
            Section::NameService => "name service",
            Section::Coins => "coins",
            Section::PackageResolver => "package-resolver",
        }
    }
}

/// A warning diagnostic about unrecognized keys found in one section.
#[derive(Clone, Debug)]
pub struct ExtrasWarning {
    /// The section the unrecognized keys were found in.
    pub section: Section,
    /// The unrecognized entries: each key with the toml text of its value.
    pub entries: Vec<(String, String)>,
}

impl ExtrasWarning {
    /// The grammatical number of "field" in this warning's message: "field"
    /// for exactly one unrecognized entry, "fields" otherwise.
    pub fn field_word(&self) -> (r: &'static str)
        ensures
            self.entries@.len() == 1 ==> r@ == "field"@,
            self.entries@.len() != 1 ==> r@ == "fields"@,
    {
        if self.entries.len() == 1 {
            "field"
        } else {
            "fields"
        }
    }
}

/// `w` is the warning diagnostic for section `section` whose unrecognized
/// entries are exactly `entries`.
pub open spec fn warning_for(w: ExtrasWarning, section: Section, entries: Seq<(Seq<char>, Seq<char>)>) -> bool {
    &&& w.section == section
    &&& w.entries@.len() == entries.len()
    &&& forall|i: int|
        0 <= i < entries.len() ==> {
            &&& (#[trigger] w.entries@[i]).0@ == entries[i].0
            &&& w.entries@[i].1@ == entries[i].1
        }
}

/// Drain one section's extras bucket: a non-empty bucket yields exactly one
/// warning diagnostic naming the section and enumerating its entries; an empty
/// bucket yields none. Never an error.
pub fn check_extra(section: Section, extra: toml::map::Map<String, toml::Value>) -> (w: Option<ExtrasWarning>)
    ensures
        w is Some <==> extras_entries(extra).len() != 0,
        w matches Some(warning) ==> warning_for(warning, section, extras_entries(extra)),
{
    let entries = table_entries_rendered(&extra);
    if entries.len() == 0 {
        None
    } else {
        Some(ExtrasWarning { section, entries })
    }
}

} // verus!
