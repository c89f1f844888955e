use vstd::prelude::*;

verus! {

// ---------------------------------------------------------------------------
// The parsed structure description that the attribute-parsing collaborator
// hands to the engine: the structure's name, its generic parameters, its
// attribute list, and an ordered list of named fields.  Everything is held
// as plain values; the engine never sees host-compiler syntax trees.
// ---------------------------------------------------------------------------
/// The declared type of a source field, as far as the engine reads it:
/// either the fixed optional-type convention (with the inner type kept as
/// text) or any other type (kept as text, opaque to the engine).
pub enum FieldTy {
    Optional(String),
    Plain(String),
}

/// Ghost image of `FieldTy`: type text as character sequences.
pub enum FieldTyV {
    Optional(Seq<char>),
    Plain(Seq<char>),
}

impl View for FieldTy {
    type V = FieldTyV;

    open spec fn view(&self) -> FieldTyV {
        match self {
            FieldTy::Optional(inner) => FieldTyV::Optional(inner@),
            FieldTy::Plain(text) => FieldTyV::Plain(text@),
        }
    }
}

impl DeepView for FieldTy {
    type V = FieldTyV;

    open spec fn deep_view(&self) -> FieldTyV {
        self.view()
    }
}

impl FieldTy {
    /// Structure-preserving copy.
    pub fn dup(&self) -> (r: FieldTy)
        ensures
            r@ == self@,
    {
        match self {
            FieldTy::Optional(inner) => FieldTy::Optional(inner.clone()),
            FieldTy::Plain(text) => FieldTy::Plain(text.clone()),
        }
    }
}

/// Check whether a declared type is the optional-type convention, and hand
/// back the inner type text if it is.
pub fn is_option_type(ty: &FieldTy) -> (r: Option<&String>)
    ensures
        match r {
            Some(inner) => ty@ is Optional && inner@ == ty@->Optional_0,
            None => ty@ is Plain,
        },
{
    match ty {
        FieldTy::Optional(inner) => Some(inner),
        FieldTy::Plain(_) => None,
    }
}

/// One named field of the source structure, together with its parsed
/// per-field directive: `skip` excludes the field from the generated
/// structure, `default` is a custom fallback value for the wrap direction.
pub struct FieldDef {
    pub name: String,
    pub ty: FieldTy,
    pub skip: bool,
    pub default: Option<crate::values::Value>,
}

/// Ghost image of `FieldDef`.
pub struct FieldDefV {
    pub name: Seq<char>,
    pub ty: FieldTyV,
    pub skip: bool,
    pub default: Option<crate::values::ValueV>,
}

impl View for FieldDef {
    type V = FieldDefV;

    open spec fn view(&self) -> FieldDefV {
        FieldDefV {
            name: self.name@,
            ty: self.ty@,
            skip: self.skip,
            default: match self.default {
                Some(v) => Some(v@),
                None => None,
            },
        }
    }
}

/// A generic parameter of the source structure, by kind and name.  The
/// engine only needs the names: it reuses the list verbatim and scans it
/// when synthesizing a fresh parameter for the builder bridge.
pub enum GenericParamDef {
    Type(String),
    Lifetime(String),
    Const(String),
}

/// Ghost image of `GenericParamDef`.
pub enum GenericParamDefV {
    Type(Seq<char>),
    Lifetime(Seq<char>),
    Const(Seq<char>),
}

impl View for GenericParamDef {
    type V = GenericParamDefV;

    open spec fn view(&self) -> GenericParamDefV {
        match self {
            GenericParamDef::Type(n) => GenericParamDefV::Type(n@),
            GenericParamDef::Lifetime(n) => GenericParamDefV::Lifetime(n@),
            GenericParamDef::Const(n) => GenericParamDefV::Const(n@),
        }
    }
}

impl GenericParamDefV {
    /// The bare name of the parameter, whatever its kind.
    pub open spec fn name(self) -> Seq<char> {
        match self {
            GenericParamDefV::Type(n) => n,
            GenericParamDefV::Lifetime(n) => n,
            GenericParamDefV::Const(n) => n,
        }
    }
}

/// The value side of a `key = value` attribute item.  Identifier
/// validation belongs to the parsing collaborator: a value that names an
/// identifier — a path, or a string literal whose content parses as one —
/// arrives as `Ident`.
pub enum MetaValue {
    /// A value naming an identifier: a path's kept segment, or a string
    /// literal already validated as an identifier.
    Ident(String),
    /// A string literal whose content is not an identifier.
    Str(String),
    /// Any other expression.
    Other,
}

/// Ghost image of `MetaValue`.
pub enum MetaValueV {
    Ident(Seq<char>),
    Str(Seq<char>),
    Other,
}

impl View for MetaValue {
    type V = MetaValueV;

    open spec fn view(&self) -> MetaValueV {
        match self {
            MetaValue::Ident(s) => MetaValueV::Ident(s@),
            MetaValue::Str(s) => MetaValueV::Str(s@),
            MetaValue::Other => MetaValueV::Other,
        }
    }
}

/// An item inside a doubly-nested attribute list, such as the `name = ...`
/// entries of `builder_type(name = ...)`.  The engine reads nothing deeper.
pub enum MetaArg {
    /// `key = value` with a single-segment key.
    NameValue(String, MetaValue),
    /// Any other shape.
    Opaque,
}

/// Ghost image of `MetaArg`.
pub enum MetaArgV {
    NameValue(Seq<char>, MetaValueV),
    Opaque,
}

impl View for MetaArg {
    type V = MetaArgV;

    open spec fn view(&self) -> MetaArgV {
        match self {
            MetaArg::NameValue(key, value) => MetaArgV::NameValue(key@, value@),
            MetaArg::Opaque => MetaArgV::Opaque,
        }
    }
}

/// An item inside a top-level attribute list, such as the entries of
/// `#[derive(...)]` or `#[builder(...)]`.
pub enum MetaNested {
    /// A bare path, kept as its segments.
    Path(Vec<String>),
    /// `key = value` with a single-segment key.
    NameValue(String, MetaValue),
    /// `key(...)` with a single-segment key.
    List(String, Vec<MetaArg>),
    /// Any other shape.
    Opaque,
}

/// Ghost image of `MetaNested`.
pub enum MetaNestedV {
    Path(Seq<Seq<char>>),
    NameValue(Seq<char>, MetaValueV),
    List(Seq<char>, Seq<MetaArgV>),
    Opaque,
}

impl View for MetaNested {
    type V = MetaNestedV;

    open spec fn view(&self) -> MetaNestedV {
        match self {
            MetaNested::Path(segs) => MetaNestedV::Path(
                Seq::new(segs@.len(), |i: int| segs@[i]@),
            ),
            MetaNested::NameValue(key, value) => MetaNestedV::NameValue(key@, value@),
            MetaNested::List(key, items) => MetaNestedV::List(
                key@,
                Seq::new(items@.len(), |i: int| items@[i]@),
            ),
            MetaNested::Opaque => MetaNestedV::Opaque,
        }
    }
}

/// A structure-level attribute, parsed down to the shapes the engine
/// inspects.  Anything the engine does not read arrives as `Opaque`.
pub enum AttrDef {
    /// A bare path attribute, kept as its segments.
    Path(Vec<String>),
    /// `key = value` with a single-segment key.
    NameValue(String, MetaValue),
    /// `key(...)` with a single-segment key.
    List(String, Vec<MetaNested>),
    /// Any other attribute shape.
    Opaque,
}

/// Ghost image of `AttrDef`.
pub enum AttrDefV {
    Path(Seq<Seq<char>>),
    NameValue(Seq<char>, MetaValueV),
    List(Seq<char>, Seq<MetaNestedV>),
    Opaque,
}

impl View for AttrDef {
    type V = AttrDefV;

    open spec fn view(&self) -> AttrDefV {
        match self {
            AttrDef::Path(segs) => AttrDefV::Path(
                Seq::new(segs@.len(), |i: int| segs@[i]@),
            ),
            AttrDef::NameValue(key, value) => AttrDefV::NameValue(key@, value@),
            AttrDef::List(key, items) => AttrDefV::List(
                key@,
                Seq::new(items@.len(), |i: int| items@[i]@),
            ),
            AttrDef::Opaque => AttrDefV::Opaque,
        }
    }
}

/// The source structure definition supplied for one generation call.
pub struct SourceStruct {
    pub name: String,
    pub generics: Vec<GenericParamDef>,
    pub attrs: Vec<AttrDef>,
    pub fields: Vec<FieldDef>,
}

/// Ghost image of `SourceStruct`.
pub struct SourceStructV {
    pub name: Seq<char>,
    pub generics: Seq<GenericParamDefV>,
    pub attrs: Seq<AttrDefV>,
    pub fields: Seq<FieldDefV>,
}

/// Ghost image of an attribute list.
pub open spec fn attrs_view(attrs: Seq<AttrDef>) -> Seq<AttrDefV> {
    Seq::new(attrs.len(), |i: int| attrs[i]@)
}

/// Ghost image of a generic-parameter list.
pub open spec fn generics_view(generics: Seq<GenericParamDef>) -> Seq<GenericParamDefV> {
    Seq::new(generics.len(), |i: int| generics[i]@)
}

/// Ghost image of a field list.
pub open spec fn fields_view(fields: Seq<FieldDef>) -> Seq<FieldDefV> {
    Seq::new(fields.len(), |i: int| fields[i]@)
}

impl View for SourceStruct {
    type V = SourceStructV;

    open spec fn view(&self) -> SourceStructV {
        SourceStructV {
            name: self.name@,
            generics: generics_view(self.generics@),
            attrs: attrs_view(self.attrs@),
            fields: fields_view(self.fields@),
        }
    }
}

} // verus!
