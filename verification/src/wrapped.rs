use vstd::prelude::*;

use crate::artifact::{
    Artifact, ArtifactV, ConvEntry, ConvEntryV, Disposition, FieldConv, FieldConvV,
    GeneratedField, GeneratedFieldV, GeneratedStruct, Reconstruction, convs_view,
    gen_fields_view,
};
use crate::model::{FieldDef, FieldDefV, FieldTy, FieldTyV, SourceStruct, SourceStructV};
use crate::unwrapped::{has_excluded, spec_has_excluded};
use crate::utils::{
    CommonOpts, CommonOptsV, ProcUsageOpts, ProcUsageOptsV, assoc_find, collect_field_attrs,
    opt_view, pairs_view, spec_add_field_attr, spec_assoc_set, spec_collect_field_attrs,
    spec_derive_list, spec_generate_ident, spec_lib_path, spec_should_transform, strings_view,
};
use crate::values::{Value, ValueV};

verus! {

// ---------------------------------------------------------------------------
// The wrap direction: every required field of the source structure becomes
// an optional field of the generated structure.
// ---------------------------------------------------------------------------
/// The classification of one field in the wrap direction: excluded when
/// its directive says skip; unchanged when its type is already the
/// optional convention or the usage options veto the transformation;
/// transformed otherwise.
pub open spec fn spec_wrap_disposition(f: FieldDefV, usage: ProcUsageOptsV) -> Disposition {
    if f.skip {
        Disposition::Excluded
    } else if f.ty is Optional || !spec_should_transform(usage, f.name) {
        Disposition::Unchanged
    } else {
        Disposition::Transformed
    }
}

/// Classify one field in the wrap direction.
pub fn wrap_disposition(f: &FieldDef, usage: &ProcUsageOpts) -> (r: Disposition)
    ensures
        r == spec_wrap_disposition(f@, usage@),
{
    if f.skip {
        Disposition::Excluded
    } else {
        let is_opt = matches!(&f.ty, FieldTy::Optional(_));
        if is_opt || !crate::utils::should_transform(usage, f.name.as_str()) {
            Disposition::Unchanged
        } else {
            Disposition::Transformed
        }
    }
}

/// The custom default for a field as the inverse direct conversion sees
/// it: the directive's default when present, else the one from the usage
/// options' per-field table.
pub open spec fn spec_effective_default(f: FieldDefV, usage: ProcUsageOptsV) -> Option<ValueV> {
    match f.default {
        Some(d) => Some(d),
        None => match assoc_find(usage.field_opts, f.name) {
            Some(fo) => fo.default_expr,
            None => None,
        },
    }
}

/// Resolve the custom default for a field.
fn effective_default(f: &FieldDef, usage: &ProcUsageOpts) -> (r: Option<Value>)
    ensures
        opt_view(r) == spec_effective_default(f@, usage@),
{
    match &f.default {
        Some(d) => Some(d.dup()),
        None => {
            match crate::utils::assoc_get(&usage.field_opts, f.name.as_str()) {
                Some(fo) => match &fo.default_expr {
                    Some(d) => Some(d.dup()),
                    None => None,
                },
                None => None,
            }
        },
    }
}

/// The type a field is emitted with in the wrap direction: the optional
/// convention around the declared type when the field is transformed, the
/// declared type otherwise.
pub open spec fn spec_wrap_emit_ty(f: FieldDefV, usage: ProcUsageOptsV) -> FieldTyV {
    if spec_wrap_disposition(f, usage) is Transformed {
        FieldTyV::Optional(f.ty->Plain_0)
    } else {
        f.ty
    }
}

/// The generated structure's field list in the wrap direction.
pub open spec fn spec_wrap_fields(
    fields: Seq<FieldDefV>,
    opts: CommonOptsV,
    usage: ProcUsageOptsV,
) -> Seq<GeneratedFieldV>
    decreases fields.len(),
{
    if fields.len() == 0 {
        Seq::empty()
    } else {
        let init = spec_wrap_fields(fields.drop_last(), opts, usage);
        let f = fields.last();
        if spec_wrap_disposition(f, usage) is Excluded {
            init
        } else {
            init.push(
                GeneratedFieldV {
                    attrs: spec_collect_field_attrs(f.name, opts, usage),
                    name: f.name,
                    ty: spec_wrap_emit_ty(f, usage),
                },
            )
        }
    }
}

/// The direct conversion (generated from original, infallible): a
/// transformed value is injected into the optional wrapper; when the
/// field's directive carries a custom default, a value equal to it is
/// stored as absent instead.
pub open spec fn spec_wrap_direct(fields: Seq<FieldDefV>, usage: ProcUsageOptsV) -> Seq<
    ConvEntryV,
>
    decreases fields.len(),
{
    if fields.len() == 0 {
        Seq::empty()
    } else {
        let init = spec_wrap_direct(fields.drop_last(), usage);
        let f = fields.last();
        match spec_wrap_disposition(f, usage) {
            Disposition::Excluded => init,
            Disposition::Transformed => init.push(
                ConvEntryV {
                    name: f.name,
                    conv: match f.default {
                        Some(d) => FieldConvV::CollapseIfValue(d),
                        None => FieldConvV::WrapSome,
                    },
                },
            ),
            Disposition::Unchanged => init.push(
                ConvEntryV { name: f.name, conv: FieldConvV::PassThrough },
            ),
        }
    }
}

/// The inverse direct conversion (original from generated, infallible):
/// an absent transformed value falls back to the custom default when the
/// directive or the usage options supply one, else to the type's zero
/// value.
pub open spec fn spec_wrap_inverse(fields: Seq<FieldDefV>, usage: ProcUsageOptsV) -> Seq<
    ConvEntryV,
>
    decreases fields.len(),
{
    if fields.len() == 0 {
        Seq::empty()
    } else {
        let init = spec_wrap_inverse(fields.drop_last(), usage);
        let f = fields.last();
        match spec_wrap_disposition(f, usage) {
            Disposition::Excluded => init,
            Disposition::Transformed => init.push(
                ConvEntryV {
                    name: f.name,
                    conv: match spec_effective_default(f, usage) {
                        Some(d) => FieldConvV::UnwrapOrValue(d),
                        None => FieldConvV::UnwrapOrZero,
                    },
                },
            ),
            Disposition::Unchanged => init.push(
                ConvEntryV { name: f.name, conv: FieldConvV::PassThrough },
            ),
        }
    }
}

/// The fallible conversion (original from generated): an absent
/// transformed value fails the conversion, naming the field.
pub open spec fn spec_wrap_fallible(fields: Seq<FieldDefV>, usage: ProcUsageOptsV) -> Seq<
    ConvEntryV,
>
    decreases fields.len(),
{
    if fields.len() == 0 {
        Seq::empty()
    } else {
        let init = spec_wrap_fallible(fields.drop_last(), usage);
        let f = fields.last();
        match spec_wrap_disposition(f, usage) {
            Disposition::Excluded => init,
            Disposition::Transformed => init.push(
                ConvEntryV { name: f.name, conv: FieldConvV::UnwrapOrFail },
            ),
            Disposition::Unchanged => init.push(
                ConvEntryV { name: f.name, conv: FieldConvV::PassThrough },
            ),
        }
    }
}

/// The reconstruction's per-field actions in the wrap direction: excluded
/// fields come from the caller-supplied parameters; an absent transformed
/// value falls back to its directive's custom default when the directive
/// carries one, else the reconstruction fails naming the field.  Only the
/// field directive's default applies here; the usage-options default
/// serves the inverse direct conversion alone.
pub open spec fn spec_wrap_recon_fields(fields: Seq<FieldDefV>, usage: ProcUsageOptsV) -> Seq<
    ConvEntryV,
>
    decreases fields.len(),
{
    if fields.len() == 0 {
        Seq::empty()
    } else {
        let init = spec_wrap_recon_fields(fields.drop_last(), usage);
        let f = fields.last();
        init.push(
            ConvEntryV {
                name: f.name,
                conv: match spec_wrap_disposition(f, usage) {
                    Disposition::Excluded => FieldConvV::FromParam,
                    Disposition::Transformed => match f.default {
                        Some(d) => FieldConvV::UnwrapOrValue(d),
                        None => FieldConvV::UnwrapOrFail,
                    },
                    Disposition::Unchanged => FieldConvV::PassThrough,
                },
            },
        )
    }
}

/// Build the generated field list in the wrap direction.
fn build_wrap_fields(fields: &Vec<FieldDef>, opts: &CommonOpts, usage: &ProcUsageOpts) -> (r: Vec<
    GeneratedField,
>)
    ensures
        gen_fields_view(r@) == spec_wrap_fields(crate::model::fields_view(fields@), opts@, usage@),
{
    let ghost fv = crate::model::fields_view(fields@);
    let mut out: Vec<GeneratedField> = Vec::new();
    let n = fields.len();
    proof {
        assert(fv.take(0) =~= Seq::<FieldDefV>::empty());
    }
    for i in 0..n
        invariant
            n == fields@.len(),
            fv == crate::model::fields_view(fields@),
            gen_fields_view(out@) == spec_wrap_fields(fv.take(i as int), opts@, usage@),
    {
        proof {
            assert(fv[i as int] == fields@[i as int]@);
            assert(fv.take(i + 1 as int).drop_last() =~= fv.take(i as int));
            assert(fv.take(i + 1 as int).last() == fv[i as int]);
        }
        let f = &fields[i];
        let disp = wrap_disposition(f, usage);
        if !matches!(disp, Disposition::Excluded) {
            let attrs = collect_field_attrs(f.name.as_str(), opts, usage);
            let ty = if matches!(disp, Disposition::Transformed) {
                match &f.ty {
                    FieldTy::Plain(text) => FieldTy::Optional(text.clone()),
                    FieldTy::Optional(inner) => FieldTy::Optional(inner.clone()),
                }
            } else {
                f.ty.dup()
            };
            let ghost prev = out@;
            out.push(GeneratedField { attrs, name: f.name.clone(), ty });
            proof {
                assert(gen_fields_view(out@) =~~= gen_fields_view(prev).push(
                    GeneratedFieldV {
                        attrs: spec_collect_field_attrs(fv[i as int].name, opts@, usage@),
                        name: fv[i as int].name,
                        ty: spec_wrap_emit_ty(fv[i as int], usage@),
                    },
                ));
            }
        }
    }
    proof {
        assert(fv.take(n as int) =~= fv);
    }
    out
}

/// Which routine's entries are being synthesized for the wrap direction.
enum WrapRoutine {
    Direct,
    Inverse,
    Fallible,
    Recon,
}

/// The spec list for one wrap-direction routine.
pub open spec fn spec_wrap_routine(
    kind: int,
    fields: Seq<FieldDefV>,
    usage: ProcUsageOptsV,
) -> Seq<ConvEntryV> {
    if kind == 0 {
        spec_wrap_direct(fields, usage)
    } else if kind == 1 {
        spec_wrap_inverse(fields, usage)
    } else if kind == 2 {
        spec_wrap_fallible(fields, usage)
    } else {
        spec_wrap_recon_fields(fields, usage)
    }
}

impl WrapRoutine {
    spec fn kind(self) -> int {
        match self {
            WrapRoutine::Direct => 0,
            WrapRoutine::Inverse => 1,
            WrapRoutine::Fallible => 2,
            WrapRoutine::Recon => 3,
        }
    }
}

/// Build the entry list of one wrap-direction routine.
fn build_wrap_routine(kind: WrapRoutine, fields: &Vec<FieldDef>, usage: &ProcUsageOpts) -> (r:
    Vec<ConvEntry>)
    ensures
        convs_view(r@) == spec_wrap_routine(
            kind.kind(),
            crate::model::fields_view(fields@),
            usage@,
        ),
{
    let ghost fv = crate::model::fields_view(fields@);
    let ghost k = kind.kind();
    let mut out: Vec<ConvEntry> = Vec::new();
    let n = fields.len();
    proof {
        assert(fv.take(0) =~= Seq::<FieldDefV>::empty());
    }
    for i in 0..n
        invariant
            n == fields@.len(),
            fv == crate::model::fields_view(fields@),
            k == kind.kind(),
            convs_view(out@) == spec_wrap_routine(k, fv.take(i as int), usage@),
    {
        proof {
            assert(fv[i as int] == fields@[i as int]@);
            assert(fv.take(i + 1 as int).drop_last() =~= fv.take(i as int));
            assert(fv.take(i + 1 as int).last() == fv[i as int]);
        }
        let f = &fields[i];
        let disp = wrap_disposition(f, usage);
        let entry: Option<FieldConv> = match disp {
            Disposition::Excluded => {
                if matches!(kind, WrapRoutine::Recon) {
                    Some(FieldConv::FromParam)
                } else {
                    None
                }
            },
            Disposition::Transformed => {
                match kind {
                    WrapRoutine::Direct => {
                        match &f.default {
                            Some(d) => Some(FieldConv::CollapseIfValue(d.dup())),
                            None => Some(FieldConv::WrapSome),
                        }
                    },
                    WrapRoutine::Inverse => {
                        match effective_default(f, usage) {
                            Some(d) => Some(FieldConv::UnwrapOrValue(d)),
                            None => Some(FieldConv::UnwrapOrZero),
                        }
                    },
                    WrapRoutine::Fallible => Some(FieldConv::UnwrapOrFail),
                    WrapRoutine::Recon => {
                        match &f.default {
                            Some(d) => Some(FieldConv::UnwrapOrValue(d.dup())),
                            None => Some(FieldConv::UnwrapOrFail),
                        }
                    },
                }
            },
            Disposition::Unchanged => Some(FieldConv::PassThrough),
        };
        if let Some(conv) = entry {
            let ghost prev = out@;
            let ghost conv_v = conv@;
            out.push(ConvEntry { name: f.name.clone(), conv });
            proof {
                assert(convs_view(out@) =~~= convs_view(prev).push(
                    ConvEntryV { name: fv[i as int].name, conv: conv_v },
                ));
            }
        }
    }
    proof {
        assert(fv.take(n as int) =~= fv);
    }
    out
}

// ---------------------------------------------------------------------------
// Options for the wrap direction.
// ---------------------------------------------------------------------------
/// Struct-level options for the wrap direction.
pub struct WrappedOpts {
    pub name: Option<String>,
    pub prefix: Option<String>,
    pub suffix: Option<String>,
    pub struct_derives: Vec<String>,
    pub struct_attrs: Vec<String>,
    pub field_attrs: Vec<(String, Vec<String>)>,
}

impl View for WrappedOpts {
    type V = CommonOptsV;

    open spec fn view(&self) -> CommonOptsV {
        CommonOptsV {
            name: opt_view(self.name),
            prefix: opt_view(self.prefix),
            suffix: opt_view(self.suffix),
            struct_derives: strings_view(self.struct_derives@),
            struct_attrs: strings_view(self.struct_attrs@),
            field_attrs: pairs_view(self.field_attrs@),
        }
    }
}

impl WrappedOpts {
    /// Empty option set.
    pub fn new() -> (r: WrappedOpts)
        ensures
            r@ == (CommonOptsV {
                name: None,
                prefix: None,
                suffix: None,
                struct_derives: Seq::empty(),
                struct_attrs: Seq::empty(),
                field_attrs: Seq::empty(),
            }),
    {
        let r = WrappedOpts {
            name: None,
            prefix: None,
            suffix: None,
            struct_derives: Vec::new(),
            struct_attrs: Vec::new(),
            field_attrs: Vec::new(),
        };
        proof {
            assert(r@.struct_derives =~= Seq::<Seq<char>>::empty());
            assert(r@.struct_attrs =~= Seq::<Seq<char>>::empty());
            assert(r@.field_attrs =~= Seq::<(Seq<char>, Seq<Seq<char>>)>::empty());
        }
        r
    }

    /// The identifier of the generated structure, with the wrap
    /// direction's collision-avoiding fallback suffix.
    pub fn wrapped_ident(&self, original_ident: &String) -> (r: String)
        ensures
            r@ == spec_generate_ident(self@, original_ident@, "W"@),
    {
        self.to_common().generate_ident(original_ident, "W")
    }

    /// Add a derive to the generated struct.
    pub fn with_derive(self, tokens: String) -> (r: Self)
        ensures
            r@ == (CommonOptsV { struct_derives: self@.struct_derives.push(tokens@), ..self@ }),
    {
        let mut updated = self;
        let ghost before = updated@;
        updated.struct_derives.push(tokens);
        proof {
            assert(updated@.struct_derives =~= before.struct_derives.push(tokens@));
        }
        updated
    }

    /// Add multiple derives at once, as one token string.
    pub fn with_derives(self, tokens: String) -> (r: Self)
        ensures
            r@ == (CommonOptsV { struct_derives: self@.struct_derives.push(tokens@), ..self@ }),
    {
        self.with_derive(tokens)
    }

    /// Add a struct-level attribute.
    pub fn with_attr(self, tokens: String) -> (r: Self)
        ensures
            r@ == (CommonOptsV { struct_attrs: self@.struct_attrs.push(tokens@), ..self@ }),
    {
        let mut updated = self;
        let ghost before = updated@;
        updated.struct_attrs.push(tokens);
        proof {
            assert(updated@.struct_attrs =~= before.struct_attrs.push(tokens@));
        }
        updated
    }

    /// Add an attribute to a specific field by name.
    pub fn with_field_attr(self, field_name: &str, tokens: String) -> (r: Self)
        ensures
            r@ == (CommonOptsV {
                field_attrs: spec_add_field_attr(self@.field_attrs, field_name@, tokens@),
                ..self@
            }),
    {
        let common = self.to_common();
        let updated = common.with_field_attr(field_name, tokens);
        WrappedOpts {
            name: updated.name,
            prefix: updated.prefix,
            suffix: updated.suffix,
            struct_derives: updated.struct_derives,
            struct_attrs: updated.struct_attrs,
            field_attrs: updated.field_attrs,
        }
    }

    /// The shared option form both directions assemble from.
    fn to_common(&self) -> (r: CommonOpts)
        ensures
            r@ == self@,
    {
        CommonOpts {
            name: crate::utils::clone_opt_string(&self.name),
            prefix: crate::utils::clone_opt_string(&self.prefix),
            suffix: crate::utils::clone_opt_string(&self.suffix),
            struct_derives: crate::utils::clone_strings(&self.struct_derives),
            struct_attrs: crate::utils::clone_strings(&self.struct_attrs),
            field_attrs: crate::utils::clone_string_vec_pairs(&self.field_attrs),
        }
    }
}

/// Per-field options for procedural usage of the wrap direction.
pub struct FieldProcOpts {
    pub wrap: bool,
    pub attrs: Vec<String>,
    pub default_expr: Option<Value>,
}

impl View for FieldProcOpts {
    type V = crate::utils::FieldProcOptsV;

    open spec fn view(&self) -> crate::utils::FieldProcOptsV {
        crate::utils::FieldProcOptsV {
            transform: self.wrap,
            attrs: strings_view(self.attrs@),
            default_expr: opt_view(self.default_expr),
        }
    }
}

impl DeepView for FieldProcOpts {
    type V = crate::utils::FieldProcOptsV;

    open spec fn deep_view(&self) -> crate::utils::FieldProcOptsV {
        self.view()
    }
}

impl FieldProcOpts {
    /// Options that only set whether the field is wrapped.
    pub fn new(wrap: bool) -> (r: Self)
        ensures
            r@ == (crate::utils::FieldProcOptsV {
                transform: wrap,
                attrs: Seq::empty(),
                default_expr: None,
            }),
    {
        let r = FieldProcOpts { wrap, attrs: Vec::new(), default_expr: None };
        proof {
            assert(r@.attrs =~= Seq::<Seq<char>>::empty());
        }
        r
    }

    /// Add an attribute to emit on this field.
    pub fn with_attr(self, tokens: String) -> (r: Self)
        ensures
            r@ == (crate::utils::FieldProcOptsV { attrs: self@.attrs.push(tokens@), ..self@ }),
    {
        let mut updated = self;
        let ghost before = updated@;
        updated.attrs.push(tokens);
        proof {
            assert(updated@.attrs =~= before.attrs.push(tokens@));
        }
        updated
    }

    /// Set the custom default value for this field.
    pub fn with_default(self, value: Value) -> (r: Self)
        ensures
            r@ == (crate::utils::FieldProcOptsV { default_expr: Some(value@), ..self@ }),
    {
        let mut updated = self;
        updated.default_expr = Some(value);
        updated
    }
}

/// Usage options for procedural usage of the wrap direction.
pub struct WrappedProcUsageOpts {
    pub fields_to_wrap: Vec<(String, bool)>,
    pub lib_holder_name: Option<String>,
    pub field_opts: Vec<(String, FieldProcOpts)>,
    pub computed_attrs: Vec<(String, String)>,
}

impl View for WrappedProcUsageOpts {
    type V = ProcUsageOptsV;

    open spec fn view(&self) -> ProcUsageOptsV {
        ProcUsageOptsV {
            fields_to_transform: pairs_view(self.fields_to_wrap@),
            lib_holder_name: opt_view(self.lib_holder_name),
            field_opts: pairs_view(self.field_opts@),
            computed_attrs: pairs_view(self.computed_attrs@),
        }
    }
}

impl WrappedProcUsageOpts {
    /// Usage options with a wrap override table and an optional
    /// holder-crate name.
    pub fn new(fields_to_wrap: Vec<(String, bool)>, lib_holder_name: Option<String>) -> (r: Self)
        ensures
            r@ == (ProcUsageOptsV {
                fields_to_transform: pairs_view(fields_to_wrap@),
                lib_holder_name: opt_view(lib_holder_name),
                field_opts: Seq::empty(),
                computed_attrs: Seq::empty(),
            }),
    {
        let r = WrappedProcUsageOpts {
            fields_to_wrap,
            lib_holder_name,
            field_opts: Vec::new(),
            computed_attrs: Vec::new(),
        };
        proof {
            assert(r@.field_opts =~= Seq::<(Seq<char>, crate::utils::FieldProcOptsV)>::empty());
            assert(r@.computed_attrs =~= Seq::<(Seq<char>, Seq<char>)>::empty());
        }
        r
    }

    /// The path under which generated code reaches this library.
    pub fn lib_path(&self) -> (r: String)
        ensures
            r@ == spec_lib_path(self@.lib_holder_name),
    {
        match &self.lib_holder_name {
            Some(n) => {
                let mut path = n.clone();
                path.append("::unwrapped");
                path
            },
            None => String::from_str("unwrapped"),
        }
    }

    /// Set options for a specific field, replacing earlier options for it.
    pub fn with_field_opts(self, field_name: &str, opts: FieldProcOpts) -> (r: Self)
        ensures
            r@ == (ProcUsageOptsV {
                field_opts: spec_assoc_set(self@.field_opts, field_name@, opts@),
                ..self@
            }),
    {
        let mut updated = self;
        let ghost m = updated@.field_opts;
        let i = crate::utils::find_entry_index(&updated.field_opts, field_name);
        if i < updated.field_opts.len() {
            updated.field_opts.remove(i);
            updated.field_opts.insert(i, (String::from_str(field_name), opts));
            proof {
                let k = crate::utils::assoc_index_of(m, field_name@);
                assert(pairs_view(updated.field_opts@) =~~= m.update(k, (field_name@, opts@)));
            }
        } else {
            updated.field_opts.push((String::from_str(field_name), opts));
            proof {
                assert(pairs_view(updated.field_opts@) =~~= m.push((field_name@, opts@)));
            }
        }
        updated
    }

    /// Record an attribute the caller computed for a specific field,
    /// replacing an earlier computed attribute for it.
    pub fn with_computed_attr(self, field_name: &str, tokens: String) -> (r: Self)
        ensures
            r@ == (ProcUsageOptsV {
                computed_attrs: spec_assoc_set(self@.computed_attrs, field_name@, tokens@),
                ..self@
            }),
    {
        let mut updated = self;
        let ghost m = updated@.computed_attrs;
        let i = crate::utils::find_entry_index(&updated.computed_attrs, field_name);
        if i < updated.computed_attrs.len() {
            updated.computed_attrs.remove(i);
            updated.computed_attrs.insert(i, (String::from_str(field_name), tokens));
            proof {
                let k = crate::utils::assoc_index_of(m, field_name@);
                assert(pairs_view(updated.computed_attrs@) =~~= m.update(
                    k,
                    (field_name@, tokens@),
                ));
            }
        } else {
            updated.computed_attrs.push((String::from_str(field_name), tokens));
            proof {
                assert(pairs_view(updated.computed_attrs@) =~~= m.push((field_name@, tokens@)));
            }
        }
        updated
    }

    /// The shared usage-option form both directions assemble from.
    fn to_common(&self) -> (r: ProcUsageOpts)
        ensures
            r@ == self@,
    {
        let mut field_opts: Vec<(String, crate::utils::FieldProcOpts)> = Vec::new();
        let n = self.field_opts.len();
        for i in 0..n
            invariant
                n == self.field_opts@.len(),
                field_opts@.len() == i as int,
                pairs_view(field_opts@) == pairs_view(self.field_opts@).take(i as int),
        {
            let entry = &self.field_opts[i];
            let converted = crate::utils::FieldProcOpts {
                transform: entry.1.wrap,
                attrs: crate::utils::clone_strings(&entry.1.attrs),
                default_expr: match &entry.1.default_expr {
                    Some(d) => Some(d.dup()),
                    None => None,
                },
            };
            let ghost prev = field_opts@;
            field_opts.push((entry.0.clone(), converted));
            proof {
                assert(pairs_view(field_opts@) =~~= pairs_view(self.field_opts@).take(
                    i + 1 as int,
                ));
            }
        }
        proof {
            assert(pairs_view(self.field_opts@).take(n as int) =~= pairs_view(self.field_opts@));
        }
        ProcUsageOpts {
            fields_to_transform: crate::utils::clone_bool_pairs(&self.fields_to_wrap),
            lib_holder_name: crate::utils::clone_opt_string(&self.lib_holder_name),
            field_opts,
            computed_attrs: crate::utils::clone_string_pairs(&self.computed_attrs),
        }
    }
}

// ---------------------------------------------------------------------------
// The generation entry point for the wrap direction.
// ---------------------------------------------------------------------------
/// Everything the wrap direction promises of its artifact.
pub open spec fn spec_wrapped_ok(
    a: ArtifactV,
    s: SourceStructV,
    opts: CommonOptsV,
    usage: ProcUsageOptsV,
) -> bool {
    let excluded = spec_has_excluded(s.fields);
    &&& a.generated.name == spec_generate_ident(opts, s.name, "W"@)
    &&& a.generated.attrs == opts.struct_attrs
    &&& a.generated.derives == spec_derive_list(opts.struct_derives)
    &&& a.generated.generics == s.generics
    &&& a.generated.fields == spec_wrap_fields(s.fields, opts, usage)
    &&& a.original_name == s.name
    &&& a.lib_path == spec_lib_path(usage.lib_holder_name)
    &&& a.direct == Some(spec_wrap_direct(s.fields, usage))
    &&& a.bridge is None
    &&& if excluded {
        &&& a.inverse is None
        &&& a.fallible is None
        &&& (a.reconstruction matches Some(rec) && rec.params
            == crate::unwrapped::spec_excluded_params(s.fields) && rec.fields
            == spec_wrap_recon_fields(s.fields, usage) && rec.fallible == true)
    } else {
        &&& a.inverse == Some(spec_wrap_inverse(s.fields, usage))
        &&& a.fallible == Some(spec_wrap_fallible(s.fields, usage))
        &&& a.reconstruction is None
    }
}

/// Generate the wrap-direction artifact for a source structure: the
/// generated structure declaration and the conversion routines.  The
/// infallible inverse and the fallible conversion are omitted as soon as
/// one field is excluded; the parameterized reconstruction, which may fail
/// on absent values without a custom default, takes their place.  When no
/// options are supplied, an empty option set is used.
pub fn wrapped(
    input: &SourceStruct,
    options: Option<WrappedOpts>,
    proc_usage_opts: WrappedProcUsageOpts,
) -> (r: Artifact)
    ensures
        spec_wrapped_ok(
            r@,
            input@,
            match options {
                Some(o) => o@,
                None => (CommonOptsV {
                    name: None,
                    prefix: None,
                    suffix: None,
                    struct_derives: Seq::empty(),
                    struct_attrs: Seq::empty(),
                    field_attrs: Seq::empty(),
                }),
            },
            proc_usage_opts@,
        ),
{
    let opts = match options {
        Some(o) => o,
        None => WrappedOpts::new(),
    };
    let lib_path = proc_usage_opts.lib_path();
    let common_opts = opts.to_common();
    let common_usage = proc_usage_opts.to_common();

    let wrapped_ident = opts.wrapped_ident(&input.name);
    let gen_fields = build_wrap_fields(&input.fields, &common_opts, &common_usage);
    let derives = crate::utils::build_derive_output(&common_opts.struct_derives);
    let struct_attrs = crate::utils::clone_strings(&common_opts.struct_attrs);
    let generics = crate::unwrapped::clone_generics(&input.generics);
    let excluded = has_excluded(&input.fields);
    let direct = build_wrap_routine(WrapRoutine::Direct, &input.fields, &common_usage);

    proof {
        assert(crate::model::fields_view(input.fields@) == input@.fields);
        assert(strings_view(struct_attrs@) == common_opts@.struct_attrs);
    }

    let generated = GeneratedStruct {
        attrs: struct_attrs,
        derives,
        name: wrapped_ident,
        generics,
        fields: gen_fields,
    };

    if excluded {
        let recon = Reconstruction {
            params: crate::unwrapped::build_excluded_params(&input.fields),
            fields: build_wrap_routine(WrapRoutine::Recon, &input.fields, &common_usage),
            fallible: true,
        };
        Artifact {
            generated,
            original_name: input.name.clone(),
            lib_path,
            direct: Some(direct),
            inverse: None,
            fallible: None,
            reconstruction: Some(recon),
            bridge: None,
        }
    } else {
        let inverse = build_wrap_routine(WrapRoutine::Inverse, &input.fields, &common_usage);
        let fallible = build_wrap_routine(WrapRoutine::Fallible, &input.fields, &common_usage);
        Artifact {
            generated,
            original_name: input.name.clone(),
            lib_path,
            direct: Some(direct),
            inverse: Some(inverse),
            fallible: Some(fallible),
            reconstruction: None,
            bridge: None,
        }
    }
}

} // verus!
