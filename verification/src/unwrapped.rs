use vstd::prelude::*;

use crate::artifact::{
    Artifact, ArtifactV, BuilderBridge, BuilderBridgeV, ConvEntry, ConvEntryV, Disposition,
    FieldConv, FieldConvV, GeneratedField, GeneratedFieldV, GeneratedStruct, Reconstruction,
    SetterCall, SetterCallV, convs_view, gen_fields_view,
};
use crate::builder::{
    bon_builder_info, generic_args, pascal_case_of, spec_bon_builder_info, spec_dec_rep,
    spec_param_names, spec_raw_ident_name, spec_state_base, unique_state_ident,
};
use crate::model::{FieldDef, FieldDefV, FieldTy, FieldTyV, SourceStruct, SourceStructV};
use crate::utils::{
    CommonOpts, CommonOptsV, ProcUsageOpts, ProcUsageOptsV, collect_field_attrs, opt_view,
    pairs_view, spec_add_field_attr, spec_assoc_set, spec_collect_field_attrs, spec_derive_list,
    spec_generate_ident, spec_lib_path, spec_should_transform, strings_view,
};

verus! {

// ---------------------------------------------------------------------------
// The unwrap direction: every optional field of the source structure
// becomes a required field of the generated structure.
// ---------------------------------------------------------------------------
/// The classification of one field in the unwrap direction: excluded when
/// its directive says skip; transformed when its type is the optional
/// convention and the usage options do not veto it; unchanged otherwise.
pub open spec fn spec_unwrap_disposition(f: FieldDefV, usage: ProcUsageOptsV) -> Disposition {
    if f.skip {
        Disposition::Excluded
    } else if f.ty is Optional && spec_should_transform(usage, f.name) {
        Disposition::Transformed
    } else {
        Disposition::Unchanged
    }
}

/// Classify one field in the unwrap direction.
pub fn unwrap_disposition(f: &FieldDef, usage: &ProcUsageOpts) -> (r: Disposition)
    ensures
        r == spec_unwrap_disposition(f@, usage@),
{
    if f.skip {
        Disposition::Excluded
    } else {
        let is_opt = matches!(&f.ty, FieldTy::Optional(_));
        if is_opt && crate::utils::should_transform(usage, f.name.as_str()) {
            Disposition::Transformed
        } else {
            Disposition::Unchanged
        }
    }
}

/// Whether any field is excluded.
pub open spec fn spec_has_excluded(fields: Seq<FieldDefV>) -> bool {
    exists|i: int| 0 <= i < fields.len() && (#[trigger] fields[i]).skip
}

/// Check whether any field carries the skip directive.
pub fn has_excluded(fields: &Vec<FieldDef>) -> (r: bool)
    ensures
        r == spec_has_excluded(crate::model::fields_view(fields@)),
{
    let ghost fv = crate::model::fields_view(fields@);
    let n = fields.len();
    for i in 0..n
        invariant
            n == fields@.len(),
            fv == crate::model::fields_view(fields@),
            forall|j: int| 0 <= j < i ==> !(#[trigger] fv[j]).skip,
    {
        proof {
            assert(fv[i as int] == fields@[i as int]@);
        }
        if fields[i].skip {
            return true;
        }
    }
    false
}

/// The type a field is emitted with in the unwrap direction: the inner
/// type when the field is transformed, the declared type otherwise.
pub open spec fn spec_unwrap_emit_ty(f: FieldDefV, usage: ProcUsageOptsV) -> FieldTyV {
    if spec_unwrap_disposition(f, usage) is Transformed {
        FieldTyV::Plain(f.ty->Optional_0)
    } else {
        f.ty
    }
}

/// The generated structure's field list in the unwrap direction: the
/// source fields in order, minus excluded ones, each with its collected
/// attributes and emitted type.
pub open spec fn spec_unwrap_fields(
    fields: Seq<FieldDefV>,
    opts: CommonOptsV,
    usage: ProcUsageOptsV,
) -> Seq<GeneratedFieldV>
    decreases fields.len(),
{
    if fields.len() == 0 {
        Seq::empty()
    } else {
        let init = spec_unwrap_fields(fields.drop_last(), opts, usage);
        let f = fields.last();
        if spec_unwrap_disposition(f, usage) is Excluded {
            init
        } else {
            init.push(
                GeneratedFieldV {
                    attrs: spec_collect_field_attrs(f.name, opts, usage),
                    name: f.name,
                    ty: spec_unwrap_emit_ty(f, usage),
                },
            )
        }
    }
}

/// The direct conversion (generated from original, infallible): absent
/// transformed values fall back to the type's zero value.
pub open spec fn spec_unwrap_direct(fields: Seq<FieldDefV>, usage: ProcUsageOptsV) -> Seq<
    ConvEntryV,
>
    decreases fields.len(),
{
    if fields.len() == 0 {
        Seq::empty()
    } else {
        let init = spec_unwrap_direct(fields.drop_last(), usage);
        let f = fields.last();
        match spec_unwrap_disposition(f, usage) {
            Disposition::Excluded => init,
            Disposition::Transformed => init.push(
                ConvEntryV { name: f.name, conv: FieldConvV::UnwrapOrZero },
            ),
            Disposition::Unchanged => init.push(
                ConvEntryV { name: f.name, conv: FieldConvV::PassThrough },
            ),
        }
    }
}

/// The inverse direct conversion (original from generated, infallible):
/// transformed values are wrapped back into the optional convention.
pub open spec fn spec_unwrap_inverse(fields: Seq<FieldDefV>, usage: ProcUsageOptsV) -> Seq<
    ConvEntryV,
>
    decreases fields.len(),
{
    if fields.len() == 0 {
        Seq::empty()
    } else {
        let init = spec_unwrap_inverse(fields.drop_last(), usage);
        let f = fields.last();
        match spec_unwrap_disposition(f, usage) {
            Disposition::Excluded => init,
            Disposition::Transformed => init.push(
                ConvEntryV { name: f.name, conv: FieldConvV::WrapSome },
            ),
            Disposition::Unchanged => init.push(
                ConvEntryV { name: f.name, conv: FieldConvV::PassThrough },
            ),
        }
    }
}

/// The fallible conversion (generated from original): an absent
/// transformed value fails the conversion, naming the field.
pub open spec fn spec_unwrap_fallible(fields: Seq<FieldDefV>, usage: ProcUsageOptsV) -> Seq<
    ConvEntryV,
>
    decreases fields.len(),
{
    if fields.len() == 0 {
        Seq::empty()
    } else {
        let init = spec_unwrap_fallible(fields.drop_last(), usage);
        let f = fields.last();
        match spec_unwrap_disposition(f, usage) {
            Disposition::Excluded => init,
            Disposition::Transformed => init.push(
                ConvEntryV { name: f.name, conv: FieldConvV::UnwrapOrFail },
            ),
            Disposition::Unchanged => init.push(
                ConvEntryV { name: f.name, conv: FieldConvV::PassThrough },
            ),
        }
    }
}

/// The reconstruction's per-field actions, one per original field:
/// excluded fields come from the caller-supplied parameters, transformed
/// fields are wrapped back, unchanged fields pass through.
pub open spec fn spec_unwrap_recon_fields(fields: Seq<FieldDefV>, usage: ProcUsageOptsV) -> Seq<
    ConvEntryV,
>
    decreases fields.len(),
{
    if fields.len() == 0 {
        Seq::empty()
    } else {
        let init = spec_unwrap_recon_fields(fields.drop_last(), usage);
        let f = fields.last();
        init.push(
            ConvEntryV {
                name: f.name,
                conv: match spec_unwrap_disposition(f, usage) {
                    Disposition::Excluded => FieldConvV::FromParam,
                    Disposition::Transformed => FieldConvV::WrapSome,
                    Disposition::Unchanged => FieldConvV::PassThrough,
                },
            },
        )
    }
}

/// The reconstruction's parameters: the excluded fields, in source order,
/// with their declared types.
pub open spec fn spec_excluded_params(fields: Seq<FieldDefV>) -> Seq<(Seq<char>, FieldTyV)>
    decreases fields.len(),
{
    if fields.len() == 0 {
        Seq::empty()
    } else {
        let init = spec_excluded_params(fields.drop_last());
        let f = fields.last();
        if f.skip {
            init.push((f.name, f.ty))
        } else {
            init
        }
    }
}

/// Build the generated field list in the unwrap direction.
fn build_unwrap_fields(fields: &Vec<FieldDef>, opts: &CommonOpts, usage: &ProcUsageOpts) -> (r:
    Vec<GeneratedField>)
    ensures
        gen_fields_view(r@) == spec_unwrap_fields(
            crate::model::fields_view(fields@),
            opts@,
            usage@,
        ),
{
    let ghost fv = crate::model::fields_view(fields@);
    let mut out: Vec<GeneratedField> = Vec::new();
    let n = fields.len();
    proof {
        assert(fv.take(0) =~= Seq::<FieldDefV>::empty());
    }
    for i in 0..n
        invariant
            n == fields@.len(),
            fv == crate::model::fields_view(fields@),
            gen_fields_view(out@) == spec_unwrap_fields(fv.take(i as int), opts@, usage@),
    {
        proof {
            assert(fv[i as int] == fields@[i as int]@);
            assert(fv.take(i + 1 as int).drop_last() =~= fv.take(i as int));
            assert(fv.take(i + 1 as int).last() == fv[i as int]);
        }
        let f = &fields[i];
        let disp = unwrap_disposition(f, usage);
        if !matches!(disp, Disposition::Excluded) {
            let attrs = collect_field_attrs(f.name.as_str(), opts, usage);
            let ty = if matches!(disp, Disposition::Transformed) {
                match &f.ty {
                    FieldTy::Optional(inner) => FieldTy::Plain(inner.clone()),
                    FieldTy::Plain(text) => FieldTy::Plain(text.clone()),
                }
            } else {
                f.ty.dup()
            };
            let ghost prev = out@;
            out.push(GeneratedField { attrs, name: f.name.clone(), ty });
            proof {
                assert(gen_fields_view(out@) =~~= gen_fields_view(prev).push(
                    GeneratedFieldV {
                        attrs: spec_collect_field_attrs(fv[i as int].name, opts@, usage@),
                        name: fv[i as int].name,
                        ty: spec_unwrap_emit_ty(fv[i as int], usage@),
                    },
                ));
            }
        }
    }
    proof {
        assert(fv.take(n as int) =~= fv);
    }
    out
}

/// Which routine's entries are being synthesized for the unwrap direction.
enum UnwrapRoutine {
    Direct,
    Inverse,
    Fallible,
    Recon,
}

/// The spec list for one unwrap-direction routine.
pub open spec fn spec_unwrap_routine(
    kind: int,
    fields: Seq<FieldDefV>,
    usage: ProcUsageOptsV,
) -> Seq<ConvEntryV> {
    if kind == 0 {
        spec_unwrap_direct(fields, usage)
    } else if kind == 1 {
        spec_unwrap_inverse(fields, usage)
    } else if kind == 2 {
        spec_unwrap_fallible(fields, usage)
    } else {
        spec_unwrap_recon_fields(fields, usage)
    }
}

impl UnwrapRoutine {
    spec fn kind(self) -> int {
        match self {
            UnwrapRoutine::Direct => 0,
            UnwrapRoutine::Inverse => 1,
            UnwrapRoutine::Fallible => 2,
            UnwrapRoutine::Recon => 3,
        }
    }
}

/// Build the entry list of one unwrap-direction routine.
fn build_unwrap_routine(kind: UnwrapRoutine, fields: &Vec<FieldDef>, usage: &ProcUsageOpts) -> (r:
    Vec<ConvEntry>)
    ensures
        convs_view(r@) == spec_unwrap_routine(
            kind.kind(),
            crate::model::fields_view(fields@),
            usage@,
        ),
{
    let ghost fv = crate::model::fields_view(fields@);
    let ghost k = kind.kind();
    let mut out: Vec<ConvEntry> = Vec::new();
    let n = fields.len();
    proof {
        assert(fv.take(0) =~= Seq::<FieldDefV>::empty());
    }
    for i in 0..n
        invariant
            n == fields@.len(),
            fv == crate::model::fields_view(fields@),
            k == kind.kind(),
            convs_view(out@) == spec_unwrap_routine(k, fv.take(i as int), usage@),
    {
        proof {
            assert(fv[i as int] == fields@[i as int]@);
            assert(fv.take(i + 1 as int).drop_last() =~= fv.take(i as int));
            assert(fv.take(i + 1 as int).last() == fv[i as int]);
        }
        let f = &fields[i];
        let disp = unwrap_disposition(f, usage);
        let entry: Option<FieldConv> = match disp {
            Disposition::Excluded => {
                if matches!(kind, UnwrapRoutine::Recon) {
                    Some(FieldConv::FromParam)
                } else {
                    None
                }
            },
            Disposition::Transformed => {
                match kind {
                    UnwrapRoutine::Direct => Some(FieldConv::UnwrapOrZero),
                    UnwrapRoutine::Inverse => Some(FieldConv::WrapSome),
                    UnwrapRoutine::Fallible => Some(FieldConv::UnwrapOrFail),
                    UnwrapRoutine::Recon => Some(FieldConv::WrapSome),
                }
            },
            Disposition::Unchanged => Some(FieldConv::PassThrough),
        };
        if let Some(conv) = entry {
            let ghost prev = out@;
            let ghost conv_v = conv@;
            out.push(ConvEntry { name: f.name.clone(), conv });
            proof {
                assert(convs_view(out@) =~~= convs_view(prev).push(
                    ConvEntryV { name: fv[i as int].name, conv: conv_v },
                ));
            }
        }
    }
    proof {
        assert(fv.take(n as int) =~= fv);
    }
    out
}

/// Build the reconstruction's parameter list: the excluded fields in order.
pub fn build_excluded_params(fields: &Vec<FieldDef>) -> (r: Vec<(String, FieldTy)>)
    ensures
        pairs_view(r@) == spec_excluded_params(crate::model::fields_view(fields@)),
{
    let ghost fv = crate::model::fields_view(fields@);
    let mut out: Vec<(String, FieldTy)> = Vec::new();
    let n = fields.len();
    proof {
        assert(fv.take(0) =~= Seq::<FieldDefV>::empty());
    }
    for i in 0..n
        invariant
            n == fields@.len(),
            fv == crate::model::fields_view(fields@),
            pairs_view(out@) == spec_excluded_params(fv.take(i as int)),
    {
        proof {
            assert(fv[i as int] == fields@[i as int]@);
            assert(fv.take(i + 1 as int).drop_last() =~= fv.take(i as int));
            assert(fv.take(i + 1 as int).last() == fv[i as int]);
        }
        let f = &fields[i];
        if f.skip {
            let ghost prev = out@;
            out.push((f.name.clone(), f.ty.dup()));
            proof {
                assert(pairs_view(out@) =~~= pairs_view(prev).push(
                    (fv[i as int].name, fv[i as int].ty),
                ));
            }
        }
    }
    proof {
        assert(fv.take(n as int) =~= fv);
    }
    out
}

// ---------------------------------------------------------------------------
// The builder bridge.
// ---------------------------------------------------------------------------
/// The bridge's setter calls: one per non-excluded field, in order.  A
/// field kept optional against the type convention is set through its
/// `maybe_`-prefixed setter; each call composes a `Set...` typestate
/// marker named after the field.
pub open spec fn spec_bridge_setters(fields: Seq<FieldDefV>, usage: ProcUsageOptsV) -> Seq<
    SetterCallV,
>
    decreases fields.len(),
{
    if fields.len() == 0 {
        Seq::empty()
    } else {
        let init = spec_bridge_setters(fields.drop_last(), usage);
        let f = fields.last();
        if f.skip {
            init
        } else {
            init.push(
                SetterCallV {
                    setter: if f.ty is Optional && !spec_should_transform(usage, f.name) {
                        "maybe_"@ + spec_raw_ident_name(f.name)
                    } else {
                        f.name
                    },
                    state_marker: "Set"@ + pascal_case_of(spec_raw_ident_name(f.name)),
                },
            )
        }
    }
}

/// Everything the bridge promises about its identifiers and setters.
pub open spec fn spec_bridge_ok(
    b: BuilderBridgeV,
    s: SourceStructV,
    usage: ProcUsageOptsV,
) -> bool {
    &&& spec_bon_builder_info(s) == Some((b.builder_ident, b.state_mod_ident))
    &&& b.type_args == spec_param_names(s.generics)
    &&& b.setters == spec_bridge_setters(s.fields, usage)
    &&& !spec_param_names(s.generics).contains(b.state_param)
    &&& (!spec_param_names(s.generics).contains(spec_state_base()) ==> b.state_param
        == spec_state_base())
    &&& (spec_param_names(s.generics).contains(spec_state_base()) ==> exists|k: nat|
        b.state_param == spec_state_base() + spec_dec_rep(k) && (forall|k2: nat|
            k2 < k ==> spec_param_names(s.generics).contains(
                spec_state_base() + #[trigger] spec_dec_rep(k2),
            )))
}

/// Build the bridge's setter calls.
fn build_bridge_setters(fields: &Vec<FieldDef>, usage: &ProcUsageOpts) -> (r: Vec<SetterCall>)
    ensures
        Seq::new(r@.len(), |i: int| r@[i]@) == spec_bridge_setters(
            crate::model::fields_view(fields@),
            usage@,
        ),
{
    let ghost fv = crate::model::fields_view(fields@);
    let mut out: Vec<SetterCall> = Vec::new();
    let n = fields.len();
    proof {
        assert(fv.take(0) =~= Seq::<FieldDefV>::empty());
    }
    for i in 0..n
        invariant
            n == fields@.len(),
            fv == crate::model::fields_view(fields@),
            Seq::new(out@.len(), |j: int| out@[j]@) == spec_bridge_setters(
                fv.take(i as int),
                usage@,
            ),
    {
        proof {
            assert(fv[i as int] == fields@[i as int]@);
            assert(fv.take(i + 1 as int).drop_last() =~= fv.take(i as int));
            assert(fv.take(i + 1 as int).last() == fv[i as int]);
        }
        let f = &fields[i];
        if !f.skip {
            let is_opt = matches!(&f.ty, FieldTy::Optional(_));
            let transform = crate::utils::should_transform(usage, f.name.as_str());
            let setter: String = if is_opt && !transform {
                let mut s = String::from_str("maybe_");
                let raw = crate::builder::raw_ident_name(&f.name);
                s.append(raw.as_str());
                s
            } else {
                f.name.clone()
            };
            let mut marker = String::from_str("Set");
            let pascal = crate::builder::snake_to_pascal_ident(&f.name);
            marker.append(pascal.as_str());
            let ghost prev = out@;
            let ghost setter_v = setter@;
            let ghost marker_v = marker@;
            out.push(SetterCall { setter, state_marker: marker });
            proof {
                assert(Seq::new(out@.len(), |j: int| out@[j]@) =~= Seq::new(
                    prev.len(),
                    |j: int| prev[j]@,
                ).push(SetterCallV { setter: setter_v, state_marker: marker_v }));
            }
        }
    }
    proof {
        assert(fv.take(n as int) =~= fv);
    }
    out
}

/// Build the builder bridge when the source structure carries the builder
/// marker.
fn build_bridge(input: &SourceStruct, usage: &ProcUsageOpts) -> (r: Option<BuilderBridge>)
    ensures
        match r {
            Some(b) => spec_bon_builder_info(input@) is Some && spec_bridge_ok(
                b@,
                input@,
                usage@,
            ),
            None => spec_bon_builder_info(input@) is None,
        },
{
    match bon_builder_info(input) {
        Some(info) => {
            let state_param = unique_state_ident(&input.generics);
            let type_args = generic_args(&input.generics);
            let setters = build_bridge_setters(&input.fields, usage);
            proof {
                assert(crate::model::generics_view(input.generics@) == input@.generics);
                assert(crate::model::fields_view(input.fields@) == input@.fields);
            }
            Some(
                BuilderBridge {
                    builder_ident: info.builder_ident,
                    state_mod_ident: info.state_mod_ident,
                    state_param,
                    type_args,
                    setters,
                },
            )
        },
        None => None,
    }
}

// ---------------------------------------------------------------------------
// Options for the unwrap direction.
// ---------------------------------------------------------------------------
/// Struct-level options for the unwrap direction, parsed from the source
/// annotations or built programmatically.
pub struct Opts {
    pub name: Option<String>,
    pub prefix: Option<String>,
    pub suffix: Option<String>,
    pub struct_derives: Vec<String>,
    pub struct_attrs: Vec<String>,
    pub field_attrs: Vec<(String, Vec<String>)>,
}

impl View for Opts {
    type V = CommonOptsV;

    open spec fn view(&self) -> CommonOptsV {
        CommonOptsV {
            name: opt_view(self.name),
            prefix: opt_view(self.prefix),
            suffix: opt_view(self.suffix),
            struct_derives: strings_view(self.struct_derives@),
            struct_attrs: strings_view(self.struct_attrs@),
            field_attrs: pairs_view(self.field_attrs@),
        }
    }
}

impl Opts {
    /// Empty option set.
    pub fn new() -> (r: Opts)
        ensures
            r@ == (CommonOptsV {
                name: None,
                prefix: None,
                suffix: None,
                struct_derives: Seq::empty(),
                struct_attrs: Seq::empty(),
                field_attrs: Seq::empty(),
            }),
    {
        let r = Opts {
            name: None,
            prefix: None,
            suffix: None,
            struct_derives: Vec::new(),
            struct_attrs: Vec::new(),
            field_attrs: Vec::new(),
        };
        proof {
            assert(r@.struct_derives =~= Seq::<Seq<char>>::empty());
            assert(r@.struct_attrs =~= Seq::<Seq<char>>::empty());
            assert(r@.field_attrs =~= Seq::<(Seq<char>, Seq<Seq<char>>)>::empty());
        }
        r
    }

    /// The identifier of the generated structure, with the unwrap
    /// direction's collision-avoiding fallback suffix.
    pub fn unwrapped_ident(&self, original_ident: &String) -> (r: String)
        ensures
            r@ == spec_generate_ident(self@, original_ident@, "Uw"@),
    {
        self.to_common().generate_ident(original_ident, "Uw")
    }

    /// Add a derive to the generated struct.
    pub fn with_derive(self, tokens: String) -> (r: Self)
        ensures
            r@ == (CommonOptsV { struct_derives: self@.struct_derives.push(tokens@), ..self@ }),
    {
        let mut updated = self;
        let ghost before = updated@;
        updated.struct_derives.push(tokens);
        proof {
            assert(updated@.struct_derives =~= before.struct_derives.push(tokens@));
        }
        updated
    }

    /// Add multiple derives at once, as one token string.
    pub fn with_derives(self, tokens: String) -> (r: Self)
        ensures
            r@ == (CommonOptsV { struct_derives: self@.struct_derives.push(tokens@), ..self@ }),
    {
        self.with_derive(tokens)
    }

    /// Add a struct-level attribute.
    pub fn with_attr(self, tokens: String) -> (r: Self)
        ensures
            r@ == (CommonOptsV { struct_attrs: self@.struct_attrs.push(tokens@), ..self@ }),
    {
        let mut updated = self;
        let ghost before = updated@;
        updated.struct_attrs.push(tokens);
        proof {
            assert(updated@.struct_attrs =~= before.struct_attrs.push(tokens@));
        }
        updated
    }

    /// Add an attribute to a specific field by name.
    pub fn with_field_attr(self, field_name: &str, tokens: String) -> (r: Self)
        ensures
            r@ == (CommonOptsV {
                field_attrs: spec_add_field_attr(self@.field_attrs, field_name@, tokens@),
                ..self@
            }),
    {
        let common = self.to_common();
        let updated = common.with_field_attr(field_name, tokens);
        Opts {
            name: updated.name,
            prefix: updated.prefix,
            suffix: updated.suffix,
            struct_derives: updated.struct_derives,
            struct_attrs: updated.struct_attrs,
            field_attrs: updated.field_attrs,
        }
    }

    /// The shared option form both directions assemble from.
    fn to_common(&self) -> (r: CommonOpts)
        ensures
            r@ == self@,
    {
        CommonOpts {
            name: crate::utils::clone_opt_string(&self.name),
            prefix: crate::utils::clone_opt_string(&self.prefix),
            suffix: crate::utils::clone_opt_string(&self.suffix),
            struct_derives: crate::utils::clone_strings(&self.struct_derives),
            struct_attrs: crate::utils::clone_strings(&self.struct_attrs),
            field_attrs: crate::utils::clone_string_vec_pairs(&self.field_attrs),
        }
    }
}

/// Per-field options for procedural usage of the unwrap direction.
pub struct UnwrappedFieldProcOpts {
    pub unwrap: bool,
    pub attrs: Vec<String>,
}

impl View for UnwrappedFieldProcOpts {
    type V = crate::utils::FieldProcOptsV;

    open spec fn view(&self) -> crate::utils::FieldProcOptsV {
        crate::utils::FieldProcOptsV {
            transform: self.unwrap,
            attrs: strings_view(self.attrs@),
            default_expr: None,
        }
    }
}

impl DeepView for UnwrappedFieldProcOpts {
    type V = crate::utils::FieldProcOptsV;

    open spec fn deep_view(&self) -> crate::utils::FieldProcOptsV {
        self.view()
    }
}

impl UnwrappedFieldProcOpts {
    /// Options that only set whether the field is unwrapped.
    pub fn new(unwrap: bool) -> (r: Self)
        ensures
            r@ == (crate::utils::FieldProcOptsV {
                transform: unwrap,
                attrs: Seq::empty(),
                default_expr: None,
            }),
    {
        let r = UnwrappedFieldProcOpts { unwrap, attrs: Vec::new() };
        proof {
            assert(r@.attrs =~= Seq::<Seq<char>>::empty());
        }
        r
    }

    /// Add an attribute to emit on this field.
    pub fn with_attr(self, tokens: String) -> (r: Self)
        ensures
            r@ == (crate::utils::FieldProcOptsV { attrs: self@.attrs.push(tokens@), ..self@ }),
    {
        let mut updated = self;
        let ghost before = updated@;
        updated.attrs.push(tokens);
        proof {
            assert(updated@.attrs =~= before.attrs.push(tokens@));
        }
        updated
    }
}

/// Usage options for procedural usage of the unwrap direction.
pub struct UnwrappedProcUsageOpts {
    pub fields_to_unwrap: Vec<(String, bool)>,
    pub lib_holder_name: Option<String>,
    pub field_opts: Vec<(String, UnwrappedFieldProcOpts)>,
    pub computed_attrs: Vec<(String, String)>,
}

impl View for UnwrappedProcUsageOpts {
    type V = ProcUsageOptsV;

    open spec fn view(&self) -> ProcUsageOptsV {
        ProcUsageOptsV {
            fields_to_transform: pairs_view(self.fields_to_unwrap@),
            lib_holder_name: opt_view(self.lib_holder_name),
            field_opts: pairs_view(self.field_opts@),
            computed_attrs: pairs_view(self.computed_attrs@),
        }
    }
}

impl UnwrappedProcUsageOpts {
    /// Usage options with an unwrap override table and an optional
    /// holder-crate name.
    pub fn new(fields_to_unwrap: Vec<(String, bool)>, lib_holder_name: Option<String>) -> (r:
        Self)
        ensures
            r@ == (ProcUsageOptsV {
                fields_to_transform: pairs_view(fields_to_unwrap@),
                lib_holder_name: opt_view(lib_holder_name),
                field_opts: Seq::empty(),
                computed_attrs: Seq::empty(),
            }),
    {
        let r = UnwrappedProcUsageOpts {
            fields_to_unwrap,
            lib_holder_name,
            field_opts: Vec::new(),
            computed_attrs: Vec::new(),
        };
        proof {
            assert(r@.field_opts =~= Seq::<(Seq<char>, crate::utils::FieldProcOptsV)>::empty());
            assert(r@.computed_attrs =~= Seq::<(Seq<char>, Seq<char>)>::empty());
        }
        r
    }

    /// The path under which generated code reaches this library.
    pub fn lib_path(&self) -> (r: String)
        ensures
            r@ == spec_lib_path(self@.lib_holder_name),
    {
        match &self.lib_holder_name {
            Some(n) => {
                let mut path = n.clone();
                path.append("::unwrapped");
                path
            },
            None => String::from_str("unwrapped"),
        }
    }

    /// Set options for a specific field, replacing earlier options for it.
    pub fn with_field_opts(self, field_name: &str, opts: UnwrappedFieldProcOpts) -> (r: Self)
        ensures
            r@ == (ProcUsageOptsV {
                field_opts: spec_assoc_set(self@.field_opts, field_name@, opts@),
                ..self@
            }),
    {
        let mut updated = self;
        let ghost m = updated@.field_opts;
        let i = crate::utils::find_entry_index(&updated.field_opts, field_name);
        if i < updated.field_opts.len() {
            updated.field_opts.remove(i);
            updated.field_opts.insert(i, (String::from_str(field_name), opts));
            proof {
                let k = crate::utils::assoc_index_of(m, field_name@);
                assert(pairs_view(updated.field_opts@) =~~= m.update(k, (field_name@, opts@)));
            }
        } else {
            updated.field_opts.push((String::from_str(field_name), opts));
            proof {
                assert(pairs_view(updated.field_opts@) =~~= m.push((field_name@, opts@)));
            }
        }
        updated
    }

    /// Record an attribute the caller computed for a specific field,
    /// replacing an earlier computed attribute for it.
    pub fn with_computed_attr(self, field_name: &str, tokens: String) -> (r: Self)
        ensures
            r@ == (ProcUsageOptsV {
                computed_attrs: spec_assoc_set(self@.computed_attrs, field_name@, tokens@),
                ..self@
            }),
    {
        let mut updated = self;
        let ghost m = updated@.computed_attrs;
        let i = crate::utils::find_entry_index(&updated.computed_attrs, field_name);
        if i < updated.computed_attrs.len() {
            updated.computed_attrs.remove(i);
            updated.computed_attrs.insert(i, (String::from_str(field_name), tokens));
            proof {
                let k = crate::utils::assoc_index_of(m, field_name@);
                assert(pairs_view(updated.computed_attrs@) =~~= m.update(
                    k,
                    (field_name@, tokens@),
                ));
            }
        } else {
            updated.computed_attrs.push((String::from_str(field_name), tokens));
            proof {
                assert(pairs_view(updated.computed_attrs@) =~~= m.push((field_name@, tokens@)));
            }
        }
        updated
    }

    /// The shared usage-option form both directions assemble from.
    fn to_common(&self) -> (r: ProcUsageOpts)
        ensures
            r@ == self@,
    {
        let mut field_opts: Vec<(String, crate::utils::FieldProcOpts)> = Vec::new();
        let n = self.field_opts.len();
        for i in 0..n
            invariant
                n == self.field_opts@.len(),
                field_opts@.len() == i as int,
                pairs_view(field_opts@) == pairs_view(self.field_opts@).take(i as int),
        {
            let entry = &self.field_opts[i];
            let converted = crate::utils::FieldProcOpts {
                transform: entry.1.unwrap,
                attrs: crate::utils::clone_strings(&entry.1.attrs),
                default_expr: None,
            };
            let ghost prev = field_opts@;
            field_opts.push((entry.0.clone(), converted));
            proof {
                assert(pairs_view(field_opts@) =~~= pairs_view(self.field_opts@).take(
                    i + 1 as int,
                ));
            }
        }
        proof {
            assert(pairs_view(self.field_opts@).take(n as int) =~= pairs_view(self.field_opts@));
        }
        ProcUsageOpts {
            fields_to_transform: crate::utils::clone_bool_pairs(&self.fields_to_unwrap),
            lib_holder_name: crate::utils::clone_opt_string(&self.lib_holder_name),
            field_opts,
            computed_attrs: crate::utils::clone_string_pairs(&self.computed_attrs),
        }
    }
}

// ---------------------------------------------------------------------------
// The generation entry point for the unwrap direction.
// ---------------------------------------------------------------------------
/// Everything the unwrap direction promises of its artifact.
pub open spec fn spec_unwrapped_ok(
    a: ArtifactV,
    s: SourceStructV,
    opts: CommonOptsV,
    usage: ProcUsageOptsV,
) -> bool {
    let excluded = spec_has_excluded(s.fields);
    &&& a.generated.name == spec_generate_ident(opts, s.name, "Uw"@)
    &&& a.generated.attrs == opts.struct_attrs
    &&& a.generated.derives == spec_derive_list(opts.struct_derives)
    &&& a.generated.generics == s.generics
    &&& a.generated.fields == spec_unwrap_fields(s.fields, opts, usage)
    &&& a.original_name == s.name
    &&& a.lib_path == spec_lib_path(usage.lib_holder_name)
    &&& a.fallible == Some(spec_unwrap_fallible(s.fields, usage))
    &&& if excluded {
        &&& a.direct is None
        &&& a.inverse is None
        &&& (a.reconstruction matches Some(rec) && rec.params == spec_excluded_params(s.fields)
            && rec.fields == spec_unwrap_recon_fields(s.fields, usage) && rec.fallible == false)
        &&& (match a.bridge {
            Some(b) => spec_bon_builder_info(s) is Some && spec_bridge_ok(b, s, usage),
            None => spec_bon_builder_info(s) is None,
        })
    } else {
        &&& a.direct == Some(spec_unwrap_direct(s.fields, usage))
        &&& a.inverse == Some(spec_unwrap_inverse(s.fields, usage))
        &&& a.reconstruction is None
        &&& a.bridge is None
    }
}

/// Generate the unwrap-direction artifact for a source structure: the
/// generated structure declaration, the conversion routines (the inverse
/// direct conversion is omitted as soon as one field is excluded), the
/// parameterized reconstruction when fields are excluded, and the builder
/// bridge when the structure also carries the builder marker.  When no
/// options are supplied, an empty option set is used.
pub fn unwrapped(
    input: &SourceStruct,
    options: Option<Opts>,
    proc_usage_opts: UnwrappedProcUsageOpts,
) -> (r: Artifact)
    ensures
        spec_unwrapped_ok(
            r@,
            input@,
            match options {
                Some(o) => o@,
                None => (CommonOptsV {
                    name: None,
                    prefix: None,
                    suffix: None,
                    struct_derives: Seq::empty(),
                    struct_attrs: Seq::empty(),
                    field_attrs: Seq::empty(),
                }),
            },
            proc_usage_opts@,
        ),
{
    let opts = match options {
        Some(o) => o,
        None => Opts::new(),
    };
    let lib_path = proc_usage_opts.lib_path();
    let common_opts = opts.to_common();
    let common_usage = proc_usage_opts.to_common();

    let unwrapped_ident = opts.unwrapped_ident(&input.name);
    let gen_fields = build_unwrap_fields(&input.fields, &common_opts, &common_usage);
    let derives = crate::utils::build_derive_output(&common_opts.struct_derives);
    let struct_attrs = crate::utils::clone_strings(&common_opts.struct_attrs);
    let generics = clone_generics(&input.generics);
    let excluded = has_excluded(&input.fields);
    let fallible = build_unwrap_routine(UnwrapRoutine::Fallible, &input.fields, &common_usage);

    proof {
        assert(crate::model::fields_view(input.fields@) == input@.fields);
        assert(strings_view(struct_attrs@) == common_opts@.struct_attrs);
    }

    let generated = GeneratedStruct {
        attrs: struct_attrs,
        derives,
        name: unwrapped_ident,
        generics,
        fields: gen_fields,
    };

    if excluded {
        let recon = Reconstruction {
            params: build_excluded_params(&input.fields),
            fields: build_unwrap_routine(UnwrapRoutine::Recon, &input.fields, &common_usage),
            fallible: false,
        };
        let bridge = build_bridge(input, &common_usage);
        Artifact {
            generated,
            original_name: input.name.clone(),
            lib_path,
            direct: None,
            inverse: None,
            fallible: Some(fallible),
            reconstruction: Some(recon),
            bridge,
        }
    } else {
        let direct = build_unwrap_routine(UnwrapRoutine::Direct, &input.fields, &common_usage);
        let inverse = build_unwrap_routine(UnwrapRoutine::Inverse, &input.fields, &common_usage);
        Artifact {
            generated,
            original_name: input.name.clone(),
            lib_path,
            direct: Some(direct),
            inverse: Some(inverse),
            fallible: Some(fallible),
            reconstruction: None,
            bridge: None,
        }
    }
}

/// Copy the generic-parameter list.
pub fn clone_generics(generics: &Vec<crate::model::GenericParamDef>) -> (r: Vec<
    crate::model::GenericParamDef,
>)
    ensures
        crate::model::generics_view(r@) == crate::model::generics_view(generics@),
{
    let mut out: Vec<crate::model::GenericParamDef> = Vec::new();
    let n = generics.len();
    for i in 0..n
        invariant
            n == generics@.len(),
            out@.len() == i as int,
            crate::model::generics_view(out@) == crate::model::generics_view(generics@).take(
                i as int,
            ),
    {
        let copy = match &generics[i] {
            crate::model::GenericParamDef::Type(name) => crate::model::GenericParamDef::Type(
                name.clone(),
            ),
            crate::model::GenericParamDef::Lifetime(name) =>
                crate::model::GenericParamDef::Lifetime(name.clone()),
            crate::model::GenericParamDef::Const(name) => crate::model::GenericParamDef::Const(
                name.clone(),
            ),
        };
        proof {
            assert(copy@ == generics@[i as int]@);
        }
        let ghost prev = out@;
        out.push(copy);
        proof {
            assert(crate::model::generics_view(out@) =~= crate::model::generics_view(
                generics@,
            ).take(i + 1 as int));
        }
    }
    proof {
        assert(crate::model::generics_view(generics@).take(n as int)
            =~= crate::model::generics_view(generics@));
    }
    out
}

} // verus!
