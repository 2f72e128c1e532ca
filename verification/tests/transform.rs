use cached_property::augment::{StructExpansion, cached_property_struct};
use cached_property::model::{
    FieldDecl, MethodBody, MethodDecl, Param, PropertyEntry, RecordDecl, RecordFields,
    ReceiverDecl, Signature, TransformError, TypeExpr,
};
use cached_property::split::{MethodExpansion, cached_property};

fn shape_record() -> RecordDecl {
    RecordDecl {
        name: String::from("Shape"),
        fields: RecordFields::Named(vec![
            FieldDecl { name: String::from("width"), ty: TypeExpr::Name(String::from("u64")) },
            FieldDecl { name: String::from("height"), ty: TypeExpr::Name(String::from("u64")) },
        ]),
    }
}

fn shape_payload() -> Vec<PropertyEntry> {
    vec![
        PropertyEntry { name: Some(String::from("area")), ty: String::from("u64") },
        PropertyEntry { name: Some(String::from("perimeter")), ty: String::from("u32") },
    ]
}

fn area_method(mutable: bool) -> MethodDecl {
    MethodDecl {
        sig: Signature {
            name: String::from("area"),
            inputs: vec![Param::Receiver(ReceiverDecl { by_reference: true, mutable })],
        },
        body: MethodBody::Opaque(String::from("{ self.width * self.height }")),
    }
}

#[test]
fn it_works() {
    assert_eq!(2 + 2, 4);
}

#[test]
fn storage_record_has_one_slot_per_property_in_order() {
    let exp = cached_property_struct(&shape_payload(), shape_record()).unwrap();
    assert_eq!(exp.storage.name, "CachedPropertyStorageForShape");
    match &exp.storage.fields {
        RecordFields::Named(fields) => {
            assert_eq!(fields.len(), 2);
            assert_eq!(fields[0].name, "area");
            assert_eq!(fields[0].ty, TypeExpr::OptionOf(String::from("u64")));
            assert_eq!(fields[1].name, "perimeter");
            assert_eq!(fields[1].ty, TypeExpr::OptionOf(String::from("u32")));
        }
        other => panic!("storage record should have named fields, got {:?}", other),
    }
}

#[test]
fn augmented_record_gains_exactly_the_storage_field() {
    let exp = cached_property_struct(&shape_payload(), shape_record()).unwrap();
    assert_eq!(exp.augmented.name, "Shape");
    match &exp.augmented.fields {
        RecordFields::Named(fields) => {
            assert_eq!(fields.len(), 3);
            assert_eq!(fields[0].name, "width");
            assert_eq!(fields[1].name, "height");
            assert_eq!(fields[2].name, "cached_properties");
            assert_eq!(
                fields[2].ty,
                TypeExpr::Name(String::from("CachedPropertyStorageForShape"))
            );
        }
        other => panic!("augmented record should have named fields, got {:?}", other),
    }
}

#[test]
fn empty_payload_gives_empty_storage_record() {
    let exp = cached_property_struct(&Vec::new(), shape_record()).unwrap();
    assert_eq!(exp.storage.fields, RecordFields::Named(Vec::new()));
    match &exp.augmented.fields {
        RecordFields::Named(fields) => assert_eq!(fields.len(), 3),
        other => panic!("augmented record should have named fields, got {:?}", other),
    }
}

#[test]
fn struct_expansion_emits_storage_then_augmented() {
    let exp = cached_property_struct(&shape_payload(), shape_record()).unwrap();
    let again = cached_property_struct(&shape_payload(), shape_record()).unwrap();
    let decls = exp.emit();
    assert_eq!(decls.len(), 2);
    assert_eq!(decls[0], again.storage);
    assert_eq!(decls[1], again.augmented);
}

#[test]
fn tuple_record_is_unsupported_shape() {
    let record = RecordDecl {
        name: String::from("Pair"),
        fields: RecordFields::Tuple(vec![
            TypeExpr::Name(String::from("u64")),
            TypeExpr::Name(String::from("u64")),
        ]),
    };
    let r = cached_property_struct(&shape_payload(), record);
    assert_eq!(r, Err(TransformError::UnsupportedShape));
}

#[test]
fn unit_record_is_unsupported_shape() {
    let record = RecordDecl { name: String::from("Marker"), fields: RecordFields::Unit };
    let r = cached_property_struct(&Vec::new(), record);
    assert_eq!(r, Err(TransformError::UnsupportedShape));
}

#[test]
fn nameless_payload_entry_is_malformed_property_list() {
    let payload = vec![
        PropertyEntry { name: Some(String::from("area")), ty: String::from("u64") },
        PropertyEntry { name: None, ty: String::from("u32") },
    ];
    let r = cached_property_struct(&payload, shape_record());
    assert_eq!(r, Err(TransformError::MalformedPropertyList));
}

#[test]
fn shape_error_takes_precedence_over_payload_error() {
    let record = RecordDecl { name: String::from("Marker"), fields: RecordFields::Unit };
    let payload = vec![PropertyEntry { name: None, ty: String::from("u32") }];
    let r = cached_property_struct(&payload, record);
    assert_eq!(r, Err(TransformError::UnsupportedShape));
}

#[test]
fn method_pass_emits_three_methods_with_exact_names() {
    let exp: MethodExpansion = cached_property("", area_method(false)).unwrap();
    assert_eq!(exp.renamed.sig.name, "__cached_property_method_area");
    assert_eq!(exp.prefetch.sig.name, "prefetch_area");
    assert_eq!(exp.cached_read.sig.name, "area");
}

#[test]
fn renamed_original_keeps_receiver_and_body() {
    let exp = cached_property("", area_method(false)).unwrap();
    assert_eq!(
        exp.renamed.sig.inputs,
        vec![Param::Receiver(ReceiverDecl { by_reference: true, mutable: false })]
    );
    assert_eq!(
        exp.renamed.body,
        MethodBody::Opaque(String::from("{ self.width * self.height }"))
    );
}

#[test]
fn prefetch_variant_forces_mutable_reference_receiver() {
    let exp = cached_property("", area_method(false)).unwrap();
    assert_eq!(
        exp.prefetch.sig.inputs,
        vec![Param::Receiver(ReceiverDecl { by_reference: true, mutable: true })]
    );
    assert_eq!(exp.prefetch.body, MethodBody::Prefetch(String::from("area")));
}

#[test]
fn cached_read_variant_keeps_declared_receiver() {
    let exp = cached_property("", area_method(false)).unwrap();
    assert_eq!(
        exp.cached_read.sig.inputs,
        vec![Param::Receiver(ReceiverDecl { by_reference: true, mutable: false })]
    );
    assert_eq!(exp.cached_read.body, MethodBody::CachedRead(String::from("area")));
}

#[test]
fn mutable_input_receiver_is_kept_on_cached_read_and_prefetch() {
    let exp = cached_property("", area_method(true)).unwrap();
    assert_eq!(
        exp.renamed.sig.inputs,
        vec![Param::Receiver(ReceiverDecl { by_reference: true, mutable: true })]
    );
    assert_eq!(
        exp.prefetch.sig.inputs,
        vec![Param::Receiver(ReceiverDecl { by_reference: true, mutable: true })]
    );
    assert_eq!(
        exp.cached_read.sig.inputs,
        vec![Param::Receiver(ReceiverDecl { by_reference: true, mutable: true })]
    );
}

#[test]
fn method_expansion_emits_renamed_prefetch_cached_read() {
    let exp = cached_property("", area_method(false)).unwrap();
    let again = cached_property("", area_method(false)).unwrap();
    let decls = exp.emit();
    assert_eq!(decls.len(), 3);
    assert_eq!(decls[0], again.renamed);
    assert_eq!(decls[1], again.prefetch);
    assert_eq!(decls[2], again.cached_read);
}

#[test]
fn extra_parameter_is_unsupported_signature() {
    let method = MethodDecl {
        sig: Signature {
            name: String::from("scaled"),
            inputs: vec![
                Param::Receiver(ReceiverDecl { by_reference: true, mutable: false }),
                Param::Typed(String::from("factor"), TypeExpr::Name(String::from("u64"))),
            ],
        },
        body: MethodBody::Opaque(String::from("{ self.width * factor }")),
    };
    let r = cached_property("", method);
    assert_eq!(r, Err(TransformError::UnsupportedSignature));
}

#[test]
fn by_value_receiver_is_unsupported_signature() {
    let method = MethodDecl {
        sig: Signature {
            name: String::from("area"),
            inputs: vec![Param::Receiver(ReceiverDecl { by_reference: false, mutable: false })],
        },
        body: MethodBody::Opaque(String::from("{ 0 }")),
    };
    let r = cached_property("", method);
    assert_eq!(r, Err(TransformError::UnsupportedSignature));
}

#[test]
fn no_receiver_is_unsupported_signature() {
    let method = MethodDecl {
        sig: Signature {
            name: String::from("area"),
            inputs: vec![Param::Typed(String::from("x"), TypeExpr::Name(String::from("u64")))],
        },
        body: MethodBody::Opaque(String::from("{ x }")),
    };
    let r = cached_property("", method);
    assert_eq!(r, Err(TransformError::UnsupportedSignature));
}

#[test]
fn nonempty_payload_is_unexpected_arguments() {
    let r = cached_property("area: u64", area_method(false));
    assert_eq!(r, Err(TransformError::UnexpectedArguments));
}

#[test]
fn payload_error_takes_precedence_over_signature_error() {
    let method = MethodDecl {
        sig: Signature { name: String::from("area"), inputs: Vec::new() },
        body: MethodBody::Opaque(String::from("{ 0 }")),
    };
    let r = cached_property("stray", method);
    assert_eq!(r, Err(TransformError::UnexpectedArguments));
}

#[test]
fn error_messages_are_descriptive() {
    assert_eq!(
        TransformError::UnsupportedShape.message(),
        "`cached_property_struct` may only be used on structs with named fields"
    );
    assert_eq!(
        TransformError::MalformedPropertyList.message(),
        "`cached_property_struct` requires a name for every property in its payload"
    );
    assert_eq!(
        TransformError::UnexpectedArguments.message(),
        "`cached_property` does not take any arguments"
    );
    assert_eq!(
        TransformError::UnsupportedSignature.message(),
        "`cached_property` may only be used on methods that only take `&mut self` as argument"
    );
}

#[test]
fn storage_names_follow_the_convention_on_another_record() {
    let record = RecordDecl {
        name: String::from("Invoice"),
        fields: RecordFields::Named(vec![FieldDecl {
            name: String::from("total"),
            ty: TypeExpr::Name(String::from("i64")),
        }]),
    };
    let payload = vec![PropertyEntry {
        name: Some(String::from("tax")),
        ty: String::from("i64"),
    }];
    let exp: StructExpansion = cached_property_struct(&payload, record).unwrap();
    assert_eq!(exp.storage.name, "CachedPropertyStorageForInvoice");
    match &exp.augmented.fields {
        RecordFields::Named(fields) => {
            assert_eq!(
                fields.last().unwrap().ty,
                TypeExpr::Name(String::from("CachedPropertyStorageForInvoice"))
            );
        }
        other => panic!("augmented record should have named fields, got {:?}", other),
    }
}
