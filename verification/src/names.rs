//! The naming conventions shared by the two transformation passes.
//!
//! These constants are the only coupling between the struct pass and the
//! method pass: the struct pass appends a storage field under a fixed name,
//! and the bodies generated by the method pass read and write that field.

use vstd::prelude::*;

verus! {

/// Prefix prepended to a record's name to form its storage record's name.
pub open spec fn spec_storage_struct_prefix() -> Seq<char> {
    "CachedPropertyStorageFor"@
}

/// Name of the field appended to an annotated record, holding the storage record.
pub open spec fn spec_storage_field_name() -> Seq<char> {
    "cached_properties"@
}

/// Prefix prepended to a method's name to form the renamed original's name.
pub open spec fn spec_renamed_method_prefix() -> Seq<char> {
    "__cached_property_method_"@
}

/// Prefix prepended to a method's name to form the prefetch variant's name.
pub open spec fn spec_prefetch_prefix() -> Seq<char> {
    "prefetch_"@
}

/// The storage record's name for a record of the given name.
pub open spec fn spec_storage_struct_name(record_name: Seq<char>) -> Seq<char> {
    spec_storage_struct_prefix() + record_name
}

/// The renamed original's name for a method of the given name.
pub open spec fn spec_renamed_method_name(method_name: Seq<char>) -> Seq<char> {
    spec_renamed_method_prefix() + method_name
}

/// The prefetch variant's name for a method of the given name.
pub open spec fn spec_prefetch_method_name(method_name: Seq<char>) -> Seq<char> {
    spec_prefetch_prefix() + method_name
}

/// The name of the field that the struct pass appends to the annotated record.
pub fn storage_field_name() -> (r: String)
    ensures
        r@ == spec_storage_field_name(),
{
    "cached_properties".to_owned()
}

/// The storage record's name for a record of the given name.
pub fn storage_struct_name(record_name: &str) -> (r: String)
    ensures
        r@ == spec_storage_struct_name(record_name@),
{
    let mut s: String = "CachedPropertyStorageFor".to_owned();
    s.append(record_name);
    s
}

/// The renamed original's name for a method of the given name.
pub fn renamed_method_name(method_name: &str) -> (r: String)
    ensures
        r@ == spec_renamed_method_name(method_name@),
{
    let mut s: String = "__cached_property_method_".to_owned();
    s.append(method_name);
    s
}

/// The prefetch variant's name for a method of the given name.
pub fn prefetch_method_name(method_name: &str) -> (r: String)
    ensures
        r@ == spec_prefetch_method_name(method_name@),
{
    let mut s: String = "prefetch_".to_owned();
    s.append(method_name);
    s
}

} // verus!
