//! The struct pass: synthesize a storage record for a list of properties and
//! append the storage field to the annotated record.

use vstd::prelude::*;

use crate::model::{
    FieldDecl, FieldDeclV, PropertyEntry, PropertyEntryV, RecordDecl, RecordDeclV, RecordFields,
    RecordFieldsV, TransformError, TypeExpr, TypeExprV, entries_view, fields_view, named_fields_of,
};
use crate::names::{
    spec_storage_field_name, spec_storage_struct_name, storage_field_name, storage_struct_name,
};

verus! {

/// The two declarations the struct pass emits.
#[derive(Debug, PartialEq, Eq)]
pub struct StructExpansion {
    /// The synthesized storage record: one optional slot per property.
    pub storage: RecordDecl,
    /// The annotated record with the storage field appended.
    pub augmented: RecordDecl,
}

/// Whether every entry of the payload carries a name.
pub open spec fn spec_payload_well_formed(payload: Seq<PropertyEntryV>) -> bool {
    forall|i: int| 0 <= i < payload.len() ==> payload[i].name is Some
}

/// The storage field for one property: named like the property, typed as the
/// optional form of the property's type.
pub open spec fn spec_slot_field(entry: PropertyEntryV) -> FieldDeclV {
    FieldDeclV {
        name: match entry.name {
            Option::Some(n) => n,
            Option::None => Seq::empty(),
        },
        ty: TypeExprV::OptionOf(entry.ty),
    }
}

/// The storage record's fields: one slot per payload entry, in payload order.
pub open spec fn spec_slot_fields(payload: Seq<PropertyEntryV>) -> Seq<FieldDeclV> {
    payload.map_values(|e: PropertyEntryV| spec_slot_field(e))
}

/// The storage record synthesized for a record of the given name.
pub open spec fn spec_storage_decl(
    record_name: Seq<char>,
    payload: Seq<PropertyEntryV>,
) -> RecordDeclV {
    RecordDeclV {
        name: spec_storage_struct_name(record_name),
        fields: RecordFieldsV::Named(spec_slot_fields(payload)),
    }
}

/// The field appended to the annotated record, linking it to its storage.
pub open spec fn spec_storage_link_field(record_name: Seq<char>) -> FieldDeclV {
    FieldDeclV {
        name: spec_storage_field_name(),
        ty: TypeExprV::Name(spec_storage_struct_name(record_name)),
    }
}

/// The annotated record after augmentation: its own fields, in order, then
/// the storage field.
pub open spec fn spec_augmented_decl(record: RecordDeclV) -> RecordDeclV {
    RecordDeclV {
        name: record.name,
        fields: RecordFieldsV::Named(
            named_fields_of(record.fields) + seq![spec_storage_link_field(record.name)],
        ),
    }
}

/// Augment a record declaration with cached-property storage.
///
/// On success the result holds the synthesized storage record and the
/// augmented record. The input record must use named fields, and every
/// payload entry must carry a name; otherwise the matching error is
/// returned and nothing is emitted.
pub fn cached_property_struct(
    payload: &Vec<PropertyEntry>,
    record: RecordDecl,
) -> (r: Result<StructExpansion, TransformError>)
    ensures
        match r {
            Result::Ok(exp) => {
                &&& record@.fields is Named
                &&& spec_payload_well_formed(entries_view(payload@))
                &&& exp.storage@ == spec_storage_decl(record@.name, entries_view(payload@))
                &&& exp.augmented@ == spec_augmented_decl(record@)
            },
            Result::Err(e) => match e {
                TransformError::UnsupportedShape => !(record@.fields is Named),
                TransformError::MalformedPropertyList => record@.fields is Named
                    && !spec_payload_well_formed(entries_view(payload@)),
                _ => false,
            },
        },
{
    let RecordDecl { name: record_name, fields } = record;
    match fields {
        RecordFields::Named(mut record_fields) => {
            let mut slots: Vec<FieldDecl> = Vec::new();
            let mut i: usize = 0;
            while i < payload.len()
                invariant
                    record@.fields is Named,
                    i <= payload@.len(),
                    slots@.len() == i,
                    forall|j: int| 0 <= j < i ==> entries_view(payload@)[j].name is Some,
                    forall|j: int| 0 <= j < i ==> slots@[j]@ == spec_slot_field(
                        entries_view(payload@)[j],
                    ),
                decreases payload@.len() - i,
            {
                match &payload[i].name {
                    Option::Some(prop_name) => {
                        let slot = FieldDecl {
                            name: prop_name.clone(),
                            ty: TypeExpr::OptionOf(payload[i].ty.clone()),
                        };
                        slots.push(slot);
                        proof {
                            assert(entries_view(payload@)[i as int] == payload@[i as int]@);
                        }
                    },
                    Option::None => {
                        proof {
                            assert(entries_view(payload@)[i as int] == payload@[i as int]@);
                            assert(!(entries_view(payload@)[i as int].name is Some));
                        }
                        return Result::Err(TransformError::MalformedPropertyList);
                    },
                }
                i += 1;
            }
            proof {
                let pv = entries_view(payload@);
                assert forall|k: int| 0 <= k < pv.len() implies fields_view(slots@)[k]
                    == spec_slot_fields(pv)[k] by {
                    assert(fields_view(slots@)[k] == slots@[k]@);
                    assert(spec_slot_fields(pv)[k] == spec_slot_field(pv[k]));
                }
                assert(fields_view(slots@) =~= spec_slot_fields(pv));
            }
            let storage_name = storage_struct_name(record_name.as_str());
            let link = FieldDecl {
                name: storage_field_name(),
                ty: TypeExpr::Name(storage_name.clone()),
            };
            let storage = RecordDecl { name: storage_name, fields: RecordFields::Named(slots) };
            record_fields.push(link);
            let augmented = RecordDecl {
                name: record_name,
                fields: RecordFields::Named(record_fields),
            };
            let exp = StructExpansion { storage, augmented };
            proof {
                assert(exp.storage@ =~~= spec_storage_decl(record@.name, entries_view(payload@)));
                assert(exp.augmented@ =~~= spec_augmented_decl(record@));
            }
            Result::Ok(exp)
        },
        RecordFields::Tuple(_) => Result::Err(TransformError::UnsupportedShape),
        RecordFields::Unit => Result::Err(TransformError::UnsupportedShape),
    }
}

impl StructExpansion {
    /// The emitted declarations in splice order: the storage record first,
    /// then the augmented record.
    pub fn emit(self) -> (r: Vec<RecordDecl>)
        ensures
            r@.len() == 2,
            r@[0] == self.storage,
            r@[1] == self.augmented,
    {
        let mut out: Vec<RecordDecl> = Vec::new();
        out.push(self.storage);
        out.push(self.augmented);
        out
    }
}

} // verus!
