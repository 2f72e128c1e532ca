//! The abstract-syntax model that the transformation passes operate on.
//!
//! Declarations are plain value data: identifiers and opaque type text are
//! strings, and every type carries a mathematical view (`@`) over `Seq<char>`
//! that the contracts of the passes are stated on.

use vstd::prelude::*;

verus! {

// ------------------------------------------------------------------
// Type expressions
// ------------------------------------------------------------------

/// A type expression as it appears in a declaration.
///
/// The transformer never inspects a type: user-written types are carried
/// through as opaque text, and the only type it builds is the optional
/// wrapping of such text.
#[derive(Debug, PartialEq, Eq)]
pub enum TypeExpr {
    /// Opaque type text, carried through unchanged.
    Name(String),
    /// The optional form of a type, holding the wrapped type's text.
    OptionOf(String),
}

/// Mathematical view of a [`TypeExpr`].
#[verifier::ext_equal]
pub enum TypeExprV {
    Name(Seq<char>),
    OptionOf(Seq<char>),
}

impl View for TypeExpr {
    type V = TypeExprV;

    open spec fn view(&self) -> TypeExprV {
        match self {
            TypeExpr::Name(s) => TypeExprV::Name(s@),
            TypeExpr::OptionOf(s) => TypeExprV::OptionOf(s@),
        }
    }
}

impl Clone for TypeExpr {
    fn clone(&self) -> (r: Self)
        ensures
            r@ == self@,
    {
        match self {
            TypeExpr::Name(s) => TypeExpr::Name(s.clone()),
            TypeExpr::OptionOf(s) => TypeExpr::OptionOf(s.clone()),
        }
    }
}

// ------------------------------------------------------------------
// Records and their fields
// ------------------------------------------------------------------

/// A named field of a record declaration.
#[derive(Debug, PartialEq, Eq)]
pub struct FieldDecl {
    pub name: String,
    pub ty: TypeExpr,
}

/// Mathematical view of a [`FieldDecl`].
#[verifier::ext_equal]
pub struct FieldDeclV {
    pub name: Seq<char>,
    pub ty: TypeExprV,
}

impl View for FieldDecl {
    type V = FieldDeclV;

    open spec fn view(&self) -> FieldDeclV {
        FieldDeclV { name: self.name@, ty: self.ty@ }
    }
}

impl Clone for FieldDecl {
    fn clone(&self) -> (r: Self)
        ensures
            r@ == self@,
    {
        FieldDecl { name: self.name.clone(), ty: self.ty.clone() }
    }
}

/// The view of a sequence of fields, element by element.
pub open spec fn fields_view(fields: Seq<FieldDecl>) -> Seq<FieldDeclV> {
    fields.map_values(|f: FieldDecl| f@)
}

/// The view of a sequence of type expressions, element by element.
pub open spec fn types_view(types: Seq<TypeExpr>) -> Seq<TypeExprV> {
    types.map_values(|t: TypeExpr| t@)
}

/// The shape of a record declaration's field list.
#[derive(Debug, PartialEq, Eq)]
pub enum RecordFields {
    /// A record with named fields.
    Named(Vec<FieldDecl>),
    /// A tuple-like record: positional, unnamed fields.
    Tuple(Vec<TypeExpr>),
    /// A unit record with no fields at all.
    Unit,
}

/// Mathematical view of [`RecordFields`].
#[verifier::ext_equal]
pub enum RecordFieldsV {
    Named(Seq<FieldDeclV>),
    Tuple(Seq<TypeExprV>),
    Unit,
}

impl View for RecordFields {
    type V = RecordFieldsV;

    open spec fn view(&self) -> RecordFieldsV {
        match self {
            RecordFields::Named(fields) => RecordFieldsV::Named(fields_view(fields@)),
            RecordFields::Tuple(types) => RecordFieldsV::Tuple(types_view(types@)),
            RecordFields::Unit => RecordFieldsV::Unit,
        }
    }
}

/// The field sequence of a named-field shape; empty for the other shapes.
pub open spec fn named_fields_of(fields: RecordFieldsV) -> Seq<FieldDeclV> {
    match fields {
        RecordFieldsV::Named(fs) => fs,
        _ => Seq::empty(),
    }
}

/// A record declaration.
#[derive(Debug, PartialEq, Eq)]
pub struct RecordDecl {
    pub name: String,
    pub fields: RecordFields,
}

/// Mathematical view of a [`RecordDecl`].
#[verifier::ext_equal]
pub struct RecordDeclV {
    pub name: Seq<char>,
    pub fields: RecordFieldsV,
}

impl View for RecordDecl {
    type V = RecordDeclV;

    open spec fn view(&self) -> RecordDeclV {
        RecordDeclV { name: self.name@, fields: self.fields@ }
    }
}

// ------------------------------------------------------------------
// Annotation payload of the struct pass
// ------------------------------------------------------------------

/// One entry of the struct annotation's payload: a property to cache.
///
/// The name is optional because the payload is written like a field list,
/// and an entry may lack a usable name; such a payload is rejected.
#[derive(Debug, PartialEq, Eq)]
pub struct PropertyEntry {
    pub name: Option<String>,
    /// The property's value type, as opaque type text.
    pub ty: String,
}

/// Mathematical view of a [`PropertyEntry`].
#[verifier::ext_equal]
pub struct PropertyEntryV {
    pub name: Option<Seq<char>>,
    pub ty: Seq<char>,
}

impl View for PropertyEntry {
    type V = PropertyEntryV;

    open spec fn view(&self) -> PropertyEntryV {
        PropertyEntryV {
            name: match self.name {
                Option::Some(n) => Option::Some(n@),
                Option::None => Option::None,
            },
            ty: self.ty@,
        }
    }
}

/// The view of a payload, entry by entry.
pub open spec fn entries_view(entries: Seq<PropertyEntry>) -> Seq<PropertyEntryV> {
    entries.map_values(|e: PropertyEntry| e@)
}

// ------------------------------------------------------------------
// Methods
// ------------------------------------------------------------------

/// A method's receiver descriptor.
#[derive(Debug, PartialEq, Eq, Clone, Copy, Structural)]
pub struct ReceiverDecl {
    /// Whether the receiver is taken by reference.
    pub by_reference: bool,
    /// Whether the receiver is mutable.
    pub mutable: bool,
}

/// One input of a method's signature.
#[derive(Debug, PartialEq, Eq)]
pub enum Param {
    /// The receiver.
    Receiver(ReceiverDecl),
    /// An ordinary named, typed parameter.
    Typed(String, TypeExpr),
}

/// Mathematical view of a [`Param`].
#[verifier::ext_equal]
pub enum ParamV {
    Receiver(ReceiverDecl),
    Typed(Seq<char>, TypeExprV),
}

impl View for Param {
    type V = ParamV;

    open spec fn view(&self) -> ParamV {
        match self {
            Param::Receiver(rec) => ParamV::Receiver(*rec),
            Param::Typed(name, ty) => ParamV::Typed(name@, ty@),
        }
    }
}

impl Clone for Param {
    fn clone(&self) -> (r: Self)
        ensures
            r@ == self@,
    {
        match self {
            Param::Receiver(rec) => Param::Receiver(*rec),
            Param::Typed(name, ty) => Param::Typed(name.clone(), ty.clone()),
        }
    }
}

/// The view of a sequence of parameters, element by element.
pub open spec fn params_view(params: Seq<Param>) -> Seq<ParamV> {
    params.map_values(|p: Param| p@)
}

/// A method's signature: its name and its inputs, in declaration order.
#[derive(Debug, PartialEq, Eq)]
pub struct Signature {
    pub name: String,
    pub inputs: Vec<Param>,
}

/// Mathematical view of a [`Signature`].
#[verifier::ext_equal]
pub struct SignatureV {
    pub name: Seq<char>,
    pub inputs: Seq<ParamV>,
}

impl View for Signature {
    type V = SignatureV;

    open spec fn view(&self) -> SignatureV {
        SignatureV { name: self.name@, inputs: params_view(self.inputs@) }
    }
}

/// A method's body.
///
/// A user-written body is opaque text. The method pass synthesizes the two
/// caching bodies in structured form: each is determined, through the naming
/// conventions, by the name of the property it caches. Their runtime
/// behaviour is modelled in [`crate::cache`].
#[derive(Debug, PartialEq, Eq)]
pub enum MethodBody {
    /// A user-written body, carried through unchanged.
    Opaque(String),
    /// Return the cached value for the named property, or compute it by the
    /// renamed original, store a copy, and return it.
    Prefetch(String),
    /// Return the cached value for the named property, or compute it by the
    /// renamed original and return it without storing.
    CachedRead(String),
}

/// Mathematical view of a [`MethodBody`].
#[verifier::ext_equal]
pub enum MethodBodyV {
    Opaque(Seq<char>),
    Prefetch(Seq<char>),
    CachedRead(Seq<char>),
}

impl View for MethodBody {
    type V = MethodBodyV;

    open spec fn view(&self) -> MethodBodyV {
        match self {
            MethodBody::Opaque(s) => MethodBodyV::Opaque(s@),
            MethodBody::Prefetch(s) => MethodBodyV::Prefetch(s@),
            MethodBody::CachedRead(s) => MethodBodyV::CachedRead(s@),
        }
    }
}

/// A method declaration.
#[derive(Debug, PartialEq, Eq)]
pub struct MethodDecl {
    pub sig: Signature,
    pub body: MethodBody,
}

/// Mathematical view of a [`MethodDecl`].
#[verifier::ext_equal]
pub struct MethodDeclV {
    pub sig: SignatureV,
    pub body: MethodBodyV,
}

impl View for MethodDecl {
    type V = MethodDeclV;

    open spec fn view(&self) -> MethodDeclV {
        MethodDeclV { sig: self.sig@, body: self.body@ }
    }
}

// ------------------------------------------------------------------
// Errors
// ------------------------------------------------------------------

/// The reasons a transformation refuses its input. Every failure is fatal
/// for the declaration at hand: nothing is emitted alongside an error.
#[derive(Debug, PartialEq, Eq, Clone, Copy, Structural)]
pub enum TransformError {
    /// The annotated record does not use named fields.
    UnsupportedShape,
    /// An entry of the struct annotation's payload lacks a usable name.
    MalformedPropertyList,
    /// The method annotation was given a non-empty payload.
    UnexpectedArguments,
    /// The method's signature is not exactly one reference receiver.
    UnsupportedSignature,
}

impl TransformError {
    /// The diagnostic text for this error.
    pub open spec fn spec_message(self) -> Seq<char> {
        match self {
            TransformError::UnsupportedShape => "`cached_property_struct` may only be used on structs with named fields"@,
            TransformError::MalformedPropertyList => "`cached_property_struct` requires a name for every property in its payload"@,
            TransformError::UnexpectedArguments => "`cached_property` does not take any arguments"@,
            TransformError::UnsupportedSignature => "`cached_property` may only be used on methods that only take `&mut self` as argument"@,
        }
    }

    /// The diagnostic text for this error, for the host compiler to report.
    pub fn message(&self) -> (r: String)
        ensures
            r@ == self.spec_message(),
    {
        match self {
            TransformError::UnsupportedShape => "`cached_property_struct` may only be used on structs with named fields".to_owned(),
            TransformError::MalformedPropertyList => "`cached_property_struct` requires a name for every property in its payload".to_owned(),
            TransformError::UnexpectedArguments => "`cached_property` does not take any arguments".to_owned(),
            TransformError::UnsupportedSignature => "`cached_property` may only be used on methods that only take `&mut self` as argument".to_owned(),
        }
    }
}

} // verus!
