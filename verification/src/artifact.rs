use vstd::prelude::*;

use crate::model::{FieldTy, FieldTyV, GenericParamDef, GenericParamDefV};
use crate::utils::{pairs_view, strings_view};
use crate::values::{Value, ValueV};

verus! {

// ---------------------------------------------------------------------------
// The generated artifact: the structure declaration, the conversion
// routines, and the optional builder bridge, all as plain data that the
// calling context renders into code.
// ---------------------------------------------------------------------------
/// The per-field classification result.
#[derive(Clone, Copy, PartialEq, Eq, Structural)]
pub enum Disposition {
    Unchanged,
    Transformed,
    Excluded,
}

/// The per-field action of one conversion routine.
pub enum FieldConv {
    /// The value passes through unchanged.
    PassThrough,
    /// A required value is injected into the optional wrapper.
    WrapSome,
    /// An optional value is unwrapped; when absent, the type's zero value.
    UnwrapOrZero,
    /// An optional value is unwrapped; when absent, the given custom value.
    UnwrapOrValue(Value),
    /// An optional value is unwrapped; when absent, the routine fails
    /// naming the field.
    UnwrapOrFail,
    /// A required value is stored as absent when it equals the given
    /// custom default, else injected into the optional wrapper.
    CollapseIfValue(Value),
    /// The value comes from a caller-supplied reconstruction parameter.
    FromParam,
}

/// Ghost image of `FieldConv`.
pub enum FieldConvV {
    PassThrough,
    WrapSome,
    UnwrapOrZero,
    UnwrapOrValue(ValueV),
    UnwrapOrFail,
    CollapseIfValue(ValueV),
    FromParam,
}

impl View for FieldConv {
    type V = FieldConvV;

    open spec fn view(&self) -> FieldConvV {
        match self {
            FieldConv::PassThrough => FieldConvV::PassThrough,
            FieldConv::WrapSome => FieldConvV::WrapSome,
            FieldConv::UnwrapOrZero => FieldConvV::UnwrapOrZero,
            FieldConv::UnwrapOrValue(v) => FieldConvV::UnwrapOrValue(v@),
            FieldConv::UnwrapOrFail => FieldConvV::UnwrapOrFail,
            FieldConv::CollapseIfValue(v) => FieldConvV::CollapseIfValue(v@),
            FieldConv::FromParam => FieldConvV::FromParam,
        }
    }
}

/// One field's entry in a conversion routine: the field's name and its
/// action.
pub struct ConvEntry {
    pub name: String,
    pub conv: FieldConv,
}

/// Ghost image of `ConvEntry`.
pub struct ConvEntryV {
    pub name: Seq<char>,
    pub conv: FieldConvV,
}

impl View for ConvEntry {
    type V = ConvEntryV;

    open spec fn view(&self) -> ConvEntryV {
        ConvEntryV { name: self.name@, conv: self.conv@ }
    }
}

/// Ghost image of a conversion routine.
pub open spec fn convs_view(convs: Seq<ConvEntry>) -> Seq<ConvEntryV> {
    Seq::new(convs.len(), |i: int| convs[i]@)
}

/// One field of the generated structure: its attributes, name, and
/// declared type.
pub struct GeneratedField {
    pub attrs: Vec<String>,
    pub name: String,
    pub ty: FieldTy,
}

/// Ghost image of `GeneratedField`.
pub struct GeneratedFieldV {
    pub attrs: Seq<Seq<char>>,
    pub name: Seq<char>,
    pub ty: FieldTyV,
}

impl View for GeneratedField {
    type V = GeneratedFieldV;

    open spec fn view(&self) -> GeneratedFieldV {
        GeneratedFieldV { attrs: strings_view(self.attrs@), name: self.name@, ty: self.ty@ }
    }
}

/// Ghost image of the generated field list.
pub open spec fn gen_fields_view(fields: Seq<GeneratedField>) -> Seq<GeneratedFieldV> {
    Seq::new(fields.len(), |i: int| fields[i]@)
}

/// The generated structure declaration.
pub struct GeneratedStruct {
    pub attrs: Vec<String>,
    pub derives: Vec<String>,
    pub name: String,
    pub generics: Vec<GenericParamDef>,
    pub fields: Vec<GeneratedField>,
}

/// Ghost image of `GeneratedStruct`.
pub struct GeneratedStructV {
    pub attrs: Seq<Seq<char>>,
    pub derives: Seq<Seq<char>>,
    pub name: Seq<char>,
    pub generics: Seq<GenericParamDefV>,
    pub fields: Seq<GeneratedFieldV>,
}

impl View for GeneratedStruct {
    type V = GeneratedStructV;

    open spec fn view(&self) -> GeneratedStructV {
        GeneratedStructV {
            attrs: strings_view(self.attrs@),
            derives: strings_view(self.derives@),
            name: self.name@,
            generics: crate::model::generics_view(self.generics@),
            fields: gen_fields_view(self.fields@),
        }
    }
}

/// The parameterized reconstruction routine: one caller-supplied parameter
/// per excluded field, in source order, and one action per original field.
pub struct Reconstruction {
    pub params: Vec<(String, FieldTy)>,
    pub fields: Vec<ConvEntry>,
    pub fallible: bool,
}

/// Ghost image of `Reconstruction`.
pub struct ReconstructionV {
    pub params: Seq<(Seq<char>, FieldTyV)>,
    pub fields: Seq<ConvEntryV>,
    pub fallible: bool,
}

impl View for Reconstruction {
    type V = ReconstructionV;

    open spec fn view(&self) -> ReconstructionV {
        ReconstructionV {
            params: pairs_view(self.params@),
            fields: convs_view(self.fields@),
            fallible: self.fallible,
        }
    }
}

/// One setter call of the builder bridge: the setter's name and the
/// typestate transition marker its call composes onto the builder state.
pub struct SetterCall {
    pub setter: String,
    pub state_marker: String,
}

/// Ghost image of `SetterCall`.
pub struct SetterCallV {
    pub setter: Seq<char>,
    pub state_marker: Seq<char>,
}

impl View for SetterCall {
    type V = SetterCallV;

    open spec fn view(&self) -> SetterCallV {
        SetterCallV { setter: self.setter@, state_marker: self.state_marker@ }
    }
}

/// The builder bridge: pre-fills the source structure's fluent builder
/// from an instance of the generated structure, leaving only the excluded
/// fields to be supplied.
pub struct BuilderBridge {
    pub builder_ident: String,
    pub state_mod_ident: String,
    pub state_param: String,
    pub type_args: Vec<String>,
    pub setters: Vec<SetterCall>,
}

/// Ghost image of `BuilderBridge`.
pub struct BuilderBridgeV {
    pub builder_ident: Seq<char>,
    pub state_mod_ident: Seq<char>,
    pub state_param: Seq<char>,
    pub type_args: Seq<Seq<char>>,
    pub setters: Seq<SetterCallV>,
}

impl View for BuilderBridge {
    type V = BuilderBridgeV;

    open spec fn view(&self) -> BuilderBridgeV {
        BuilderBridgeV {
            builder_ident: self.builder_ident@,
            state_mod_ident: self.state_mod_ident@,
            state_param: self.state_param@,
            type_args: strings_view(self.type_args@),
            setters: Seq::new(self.setters@.len(), |i: int| self.setters@[i]@),
        }
    }
}

/// The whole generated artifact of one generation call.
pub struct Artifact {
    pub generated: GeneratedStruct,
    pub original_name: String,
    pub lib_path: String,
    /// Original to generated, infallible (absent values replaced).
    pub direct: Option<Vec<ConvEntry>>,
    /// Generated to original, infallible; omitted when fields are excluded.
    pub inverse: Option<Vec<ConvEntry>>,
    /// The fallible conversion, failing on the first absent required value.
    pub fallible: Option<Vec<ConvEntry>>,
    /// The parameterized reconstruction; present when fields are excluded.
    pub reconstruction: Option<Reconstruction>,
    /// The builder bridge; present in the unwrap direction when fields are
    /// excluded and the source structure carries the builder marker.
    pub bridge: Option<BuilderBridge>,
}

/// Ghost image of `Artifact`.
pub struct ArtifactV {
    pub generated: GeneratedStructV,
    pub original_name: Seq<char>,
    pub lib_path: Seq<char>,
    pub direct: Option<Seq<ConvEntryV>>,
    pub inverse: Option<Seq<ConvEntryV>>,
    pub fallible: Option<Seq<ConvEntryV>>,
    pub reconstruction: Option<ReconstructionV>,
    pub bridge: Option<BuilderBridgeV>,
}

impl View for Artifact {
    type V = ArtifactV;

    open spec fn view(&self) -> ArtifactV {
        ArtifactV {
            generated: self.generated@,
            original_name: self.original_name@,
            lib_path: self.lib_path@,
            direct: match self.direct {
                Some(v) => Some(convs_view(v@)),
                None => None,
            },
            inverse: match self.inverse {
                Some(v) => Some(convs_view(v@)),
                None => None,
            },
            fallible: match self.fallible {
                Some(v) => Some(convs_view(v@)),
                None => None,
            },
            reconstruction: match self.reconstruction {
                Some(rec) => Some(rec@),
                None => None,
            },
            bridge: match self.bridge {
                Some(b) => Some(b@),
                None => None,
            },
        }
    }
}

} // verus!
