use vstd::prelude::*;

verus! {

// ---------------------------------------------------------------------------
// Shared option structures and helpers used by both generation directions.
// ---------------------------------------------------------------------------
/// Ghost image of an optional value.
pub open spec fn opt_view<T: View>(o: Option<T>) -> Option<T::V> {
    match o {
        Some(v) => Some(v@),
        None => None,
    }
}

/// Ghost image of a sequence of strings.
pub open spec fn strings_view(v: Seq<String>) -> Seq<Seq<char>> {
    Seq::new(v.len(), |i: int| v[i]@)
}

/// Ghost image of an association list keyed by field name.
pub open spec fn pairs_view<V: DeepView>(m: Seq<(String, V)>) -> Seq<(Seq<char>, V::V)> {
    Seq::new(m.len(), |i: int| (m[i].0@, m[i].1.deep_view()))
}

/// First value bound to `key`, if any.
pub open spec fn assoc_find<V>(m: Seq<(Seq<char>, V)>, key: Seq<char>) -> Option<V>
    decreases m.len(),
{
    if m.len() == 0 {
        None
    } else if m[0].0 == key {
        Some(m[0].1)
    } else {
        assoc_find(m.drop_first(), key)
    }
}

/// Index of the first entry bound to `key`, or the length when there is none.
pub open spec fn assoc_index_of<V>(m: Seq<(Seq<char>, V)>, key: Seq<char>) -> int
    decreases m.len(),
{
    if m.len() == 0 {
        0
    } else if m[0].0 == key {
        0
    } else {
        1 + assoc_index_of(m.drop_first(), key)
    }
}

pub proof fn lemma_assoc_index_of<V>(m: Seq<(Seq<char>, V)>, key: Seq<char>)
    ensures
        0 <= assoc_index_of(m, key) <= m.len(),
        assoc_index_of(m, key) < m.len() ==> m[assoc_index_of(m, key)].0 == key,
        forall|j: int| 0 <= j < assoc_index_of(m, key) ==> m[j].0 != key,
        assoc_find(m, key) == (if assoc_index_of(m, key) < m.len() {
            Some(m[assoc_index_of(m, key)].1)
        } else {
            None::<V>
        }),
    decreases m.len(),
{
    if m.len() > 0 && m[0].0 != key {
        lemma_assoc_index_of(m.drop_first(), key);
        assert forall|j: int| 0 <= j < assoc_index_of(m, key) implies m[j].0 != key by {
            if j > 0 {
                assert(m.drop_first()[j - 1] == m[j]);
            }
        }
    }
}

/// Compare two string slices character by character.
pub fn str_eq(a: &str, b: &str) -> (r: bool)
    ensures
        r == (a@ == b@),
{
    let la = a.unicode_len();
    let lb = b.unicode_len();
    if la != lb {
        proof {
            assert(a@ != b@);
        }
        return false;
    }
    for i in 0..la
        invariant
            la == a@.len(),
            lb == b@.len(),
            la == lb,
            forall|j: int| 0 <= j < i ==> a@[j] == b@[j],
    {
        if a.get_char(i) != b.get_char(i) {
            return false;
        }
    }
    proof {
        assert(a@ =~= b@);
    }
    true
}

/// Copy a vector of strings.
pub fn clone_strings(v: &Vec<String>) -> (r: Vec<String>)
    ensures
        r@ == v@,
{
    let mut out: Vec<String> = Vec::new();
    for i in 0..v.len()
        invariant
            out@ == v@.subrange(0, i as int),
    {
        out.push(v[i].clone());
        proof {
            assert(out@ =~= v@.subrange(0, i + 1 as int));
        }
    }
    proof {
        assert(out@ =~= v@);
    }
    out
}

/// Append copies of all strings in `src` to `dst`.
pub fn extend_strings(dst: &mut Vec<String>, src: &Vec<String>)
    ensures
        final(dst)@ == old(dst)@ + src@,
{
    let ghost dst0 = dst@;
    for i in 0..src.len()
        invariant
            dst@ == dst0 + src@.subrange(0, i as int),
    {
        dst.push(src[i].clone());
        proof {
            assert(dst@ =~= dst0 + src@.subrange(0, i + 1 as int));
        }
    }
    proof {
        assert(dst@ =~= dst0 + src@);
    }
}

/// Look up the first value bound to `key` in an association list.
pub fn assoc_get<'a, V: DeepView>(m: &'a Vec<(String, V)>, key: &str) -> (r: Option<&'a V>)
    ensures
        match r {
            Some(v) => assoc_find(pairs_view(m@), key@) == Some(v.deep_view()),
            None => assoc_find(pairs_view(m@), key@) is None,
        },
{
    proof {
        lemma_assoc_index_of(pairs_view(m@), key@);
    }
    for i in 0..m.len()
        invariant
            forall|j: int| 0 <= j < i ==> pairs_view(m@)[j].0 != key@,
            assoc_index_of(pairs_view(m@), key@) >= i,
            assoc_find(pairs_view(m@), key@) == (if assoc_index_of(pairs_view(m@), key@)
                < m@.len() {
                Some(pairs_view(m@)[assoc_index_of(pairs_view(m@), key@)].1)
            } else {
                None::<V::V>
            }),
            forall|j: int| 0 <= j < assoc_index_of(pairs_view(m@), key@) ==> pairs_view(m@)[j].0
                != key@,
            assoc_index_of(pairs_view(m@), key@) < m@.len() ==> pairs_view(m@)[assoc_index_of(
                pairs_view(m@),
                key@,
            )].0 == key@,
            assoc_index_of(pairs_view(m@), key@) <= m@.len(),
    {
        if str_eq(m[i].0.as_str(), key) {
            proof {
                assert(pairs_view(m@)[i as int].0 == key@);
                assert(assoc_index_of(pairs_view(m@), key@) == i as int);
            }
            return Some(&m[i].1);
        }
    }
    None
}

// ---------------------------------------------------------------------------
// Struct-level options shared by both directions.
// ---------------------------------------------------------------------------
/// Naming options, extra derives, extra attributes and per-field attributes
/// for the generated structure, shared by both generation directions.
pub struct CommonOpts {
    pub name: Option<String>,
    pub prefix: Option<String>,
    pub suffix: Option<String>,
    pub struct_derives: Vec<String>,
    pub struct_attrs: Vec<String>,
    pub field_attrs: Vec<(String, Vec<String>)>,
}

/// Ghost image of `CommonOpts`.
pub struct CommonOptsV {
    pub name: Option<Seq<char>>,
    pub prefix: Option<Seq<char>>,
    pub suffix: Option<Seq<char>>,
    pub struct_derives: Seq<Seq<char>>,
    pub struct_attrs: Seq<Seq<char>>,
    pub field_attrs: Seq<(Seq<char>, Seq<Seq<char>>)>,
}

impl View for CommonOpts {
    type V = CommonOptsV;

    open spec fn view(&self) -> CommonOptsV {
        CommonOptsV {
            name: opt_view(self.name),
            prefix: opt_view(self.prefix),
            suffix: opt_view(self.suffix),
            struct_derives: strings_view(self.struct_derives@),
            struct_attrs: strings_view(self.struct_attrs@),
            field_attrs: pairs_view(self.field_attrs@),
        }
    }
}

/// The identifier of the generated structure: prefix ++ base ++ suffix,
/// where base is the override name or the source name; when the candidate
/// collides with the source name, source name ++ fallback suffix instead.
pub open spec fn spec_generate_ident(
    opts: CommonOptsV,
    original: Seq<char>,
    fallback: Seq<char>,
) -> Seq<char> {
    let base = match opts.name {
        Some(n) => n,
        None => original,
    };
    let prefix = match opts.prefix {
        Some(p) => p,
        None => Seq::empty(),
    };
    let suffix = match opts.suffix {
        Some(s) => s,
        None => Seq::empty(),
    };
    let candidate = prefix + base + suffix;
    if candidate == original {
        original + fallback
    } else {
        candidate
    }
}

/// Add `key -> attr`: append to the first entry with that key, or add a new
/// entry at the end when the key is absent.
pub open spec fn spec_add_field_attr(
    m: Seq<(Seq<char>, Seq<Seq<char>>)>,
    key: Seq<char>,
    attr: Seq<char>,
) -> Seq<(Seq<char>, Seq<Seq<char>>)> {
    let i = assoc_index_of(m, key);
    if i < m.len() {
        m.update(i, (key, m[i].1.push(attr)))
    } else {
        m.push((key, seq![attr]))
    }
}

/// Bind `key -> value`: replace the first entry with that key, or add a new
/// entry at the end when the key is absent.
pub open spec fn spec_assoc_set<V>(
    m: Seq<(Seq<char>, V)>,
    key: Seq<char>,
    value: V,
) -> Seq<(Seq<char>, V)> {
    let i = assoc_index_of(m, key);
    if i < m.len() {
        m.update(i, (key, value))
    } else {
        m.push((key, value))
    }
}

/// Find the first entry whose key equals `key`, as an index.
pub fn find_entry_index<V: DeepView>(m: &Vec<(String, V)>, key: &str) -> (r: usize)
    ensures
        r == assoc_index_of(pairs_view(m@), key@),
{
    proof {
        lemma_assoc_index_of(pairs_view(m@), key@);
    }
    let n = m.len();
    for i in 0..n
        invariant
            n == m@.len(),
            forall|j: int| 0 <= j < i ==> pairs_view(m@)[j].0 != key@,
            forall|j: int| 0 <= j < assoc_index_of(pairs_view(m@), key@) ==> pairs_view(m@)[j].0
                != key@,
            assoc_index_of(pairs_view(m@), key@) < m@.len() ==> pairs_view(m@)[assoc_index_of(
                pairs_view(m@),
                key@,
            )].0 == key@,
            0 <= assoc_index_of(pairs_view(m@), key@) <= m@.len(),
    {
        if str_eq(m[i].0.as_str(), key) {
            proof {
                assert(pairs_view(m@)[i as int].0 == key@);
            }
            return i;
        }
    }
    n
}

impl CommonOpts {
    /// Generate the identifier of the generated structure from the naming
    /// options, with the direction's fallback suffix against collisions.
    pub fn generate_ident(&self, original_ident: &String, fallback_suffix: &str) -> (r: String)
        ensures
            r@ == spec_generate_ident(self@, original_ident@, fallback_suffix@),
    {
        let mut candidate = String::new();
        if let Some(p) = &self.prefix {
            candidate.append(p.as_str());
        }
        match &self.name {
            Some(n) => candidate.append(n.as_str()),
            None => candidate.append(original_ident.as_str()),
        }
        if let Some(s) = &self.suffix {
            candidate.append(s.as_str());
        }
        proof {
            let base = match self@.name {
                Some(n) => n,
                None => original_ident@,
            };
            let prefix = match self@.prefix {
                Some(p) => p,
                None => Seq::<char>::empty(),
            };
            let suffix = match self@.suffix {
                Some(s) => s,
                None => Seq::<char>::empty(),
            };
            assert(candidate@ =~= prefix + base + suffix);
        }
        if candidate.eq(original_ident) {
            let mut renamed = original_ident.clone();
            renamed.append(fallback_suffix);
            renamed
        } else {
            candidate
        }
    }

    /// Add a derive to the generated struct.
    pub fn with_derive(self, tokens: String) -> (r: Self)
        ensures
            r@ == (CommonOptsV { struct_derives: self@.struct_derives.push(tokens@), ..self@ }),
    {
        let mut updated = self;
        updated.struct_derives.push(tokens);
        proof {
            assert(updated@.struct_derives =~= self@.struct_derives.push(tokens@));
        }
        updated
    }

    /// Add multiple derives at once, as one token string.
    pub fn with_derives(self, tokens: String) -> (r: Self)
        ensures
            r@ == (CommonOptsV { struct_derives: self@.struct_derives.push(tokens@), ..self@ }),
    {
        let mut updated = self;
        updated.struct_derives.push(tokens);
        proof {
            assert(updated@.struct_derives =~= self@.struct_derives.push(tokens@));
        }
        updated
    }

    /// Add a struct-level attribute.
    pub fn with_attr(self, tokens: String) -> (r: Self)
        ensures
            r@ == (CommonOptsV { struct_attrs: self@.struct_attrs.push(tokens@), ..self@ }),
    {
        let mut updated = self;
        updated.struct_attrs.push(tokens);
        proof {
            assert(updated@.struct_attrs =~= self@.struct_attrs.push(tokens@));
        }
        updated
    }

    /// Add an attribute to a specific field by name.
    pub fn with_field_attr(self, field_name: &str, tokens: String) -> (r: Self)
        ensures
            r@ == (CommonOptsV {
                field_attrs: spec_add_field_attr(self@.field_attrs, field_name@, tokens@),
                ..self@
            }),
    {
        let mut updated = self;
        let i = find_entry_index(&updated.field_attrs, field_name);
        if i < updated.field_attrs.len() {
            let mut entry = updated.field_attrs.remove(i);
            entry.1.push(tokens);
            updated.field_attrs.insert(i, entry);
            proof {
                let m = self@.field_attrs;
                let k = assoc_index_of(m, field_name@);
                assert(pairs_view(updated.field_attrs@) =~~= m.update(
                    k,
                    (m[k].0, m[k].1.push(tokens@)),
                ));
                lemma_assoc_index_of(m, field_name@);
                assert(m[k].0 == field_name@);
            }
        } else {
            let mut attrs: Vec<String> = Vec::new();
            attrs.push(tokens);
            updated.field_attrs.push((String::from_str(field_name), attrs));
            proof {
                assert(strings_view(attrs@) =~= seq![tokens@]);
                assert(pairs_view(updated.field_attrs@) =~~= self@.field_attrs.push(
                    (field_name@, seq![tokens@]),
                ));
            }
        }
        updated
    }
}

// ---------------------------------------------------------------------------
// Per-field options supplied programmatically by the calling context.
// ---------------------------------------------------------------------------
/// Per-field usage options: whether to transform the field, extra
/// attributes, and an optional custom default value.
pub struct FieldProcOpts {
    pub transform: bool,
    pub attrs: Vec<String>,
    pub default_expr: Option<crate::values::Value>,
}

/// Ghost image of `FieldProcOpts`.
pub struct FieldProcOptsV {
    pub transform: bool,
    pub attrs: Seq<Seq<char>>,
    pub default_expr: Option<crate::values::ValueV>,
}

impl View for FieldProcOpts {
    type V = FieldProcOptsV;

    open spec fn view(&self) -> FieldProcOptsV {
        FieldProcOptsV {
            transform: self.transform,
            attrs: strings_view(self.attrs@),
            default_expr: opt_view(self.default_expr),
        }
    }
}

impl DeepView for FieldProcOpts {
    type V = FieldProcOptsV;

    open spec fn deep_view(&self) -> FieldProcOptsV {
        self.view()
    }
}

impl FieldProcOpts {
    /// Options that only set whether the field is transformed.
    pub fn new(transform: bool) -> (r: Self)
        ensures
            r@ == (FieldProcOptsV {
                transform,
                attrs: Seq::empty(),
                default_expr: None,
            }),
    {
        let r = FieldProcOpts { transform, attrs: Vec::new(), default_expr: None };
        proof {
            assert(r@.attrs =~= Seq::<Seq<char>>::empty());
        }
        r
    }

    /// Add an attribute to emit on this field.
    pub fn with_attr(self, tokens: String) -> (r: Self)
        ensures
            r@ == (FieldProcOptsV { attrs: self@.attrs.push(tokens@), ..self@ }),
    {
        let mut updated = self;
        updated.attrs.push(tokens);
        proof {
            assert(updated@.attrs =~= self@.attrs.push(tokens@));
        }
        updated
    }
}

/// Usage options supplied by the calling context rather than parsed from
/// source annotations: a per-field transform override table, the name of
/// the crate that re-exports this library, per-field options, and
/// per-field attributes computed by the caller at generation time.
pub struct ProcUsageOpts {
    pub fields_to_transform: Vec<(String, bool)>,
    pub lib_holder_name: Option<String>,
    pub field_opts: Vec<(String, FieldProcOpts)>,
    pub computed_attrs: Vec<(String, String)>,
}

/// Ghost image of `ProcUsageOpts`.
pub struct ProcUsageOptsV {
    pub fields_to_transform: Seq<(Seq<char>, bool)>,
    pub lib_holder_name: Option<Seq<char>>,
    pub field_opts: Seq<(Seq<char>, FieldProcOptsV)>,
    pub computed_attrs: Seq<(Seq<char>, Seq<char>)>,
}

impl View for ProcUsageOpts {
    type V = ProcUsageOptsV;

    open spec fn view(&self) -> ProcUsageOptsV {
        ProcUsageOptsV {
            fields_to_transform: pairs_view(self.fields_to_transform@),
            lib_holder_name: opt_view(self.lib_holder_name),
            field_opts: pairs_view(self.field_opts@),
            computed_attrs: pairs_view(self.computed_attrs@),
        }
    }
}

/// The path under which generated code reaches this library: the holder
/// crate's name followed by `::unwrapped`, or plain `unwrapped`.
pub open spec fn spec_lib_path(lib_holder_name: Option<Seq<char>>) -> Seq<char> {
    match lib_holder_name {
        Some(n) => n + "::unwrapped"@,
        None => "unwrapped"@,
    }
}

impl ProcUsageOpts {
    /// Usage options with a transform override table and an optional
    /// holder-crate name.
    pub fn new(fields_to_transform: Vec<(String, bool)>, lib_holder_name: Option<String>) -> (r:
        Self)
        ensures
            r@ == (ProcUsageOptsV {
                fields_to_transform: pairs_view(fields_to_transform@),
                lib_holder_name: opt_view(lib_holder_name),
                field_opts: Seq::empty(),
                computed_attrs: Seq::empty(),
            }),
    {
        let r = ProcUsageOpts {
            fields_to_transform,
            lib_holder_name,
            field_opts: Vec::new(),
            computed_attrs: Vec::new(),
        };
        proof {
            assert(r@.field_opts =~= Seq::<(Seq<char>, FieldProcOptsV)>::empty());
            assert(r@.computed_attrs =~= Seq::<(Seq<char>, Seq<char>)>::empty());
        }
        r
    }

    /// The path under which generated code reaches this library.
    pub fn lib_path(&self) -> (r: String)
        ensures
            r@ == spec_lib_path(self@.lib_holder_name),
    {
        match &self.lib_holder_name {
            Some(n) => {
                let mut path = n.clone();
                path.append("::unwrapped");
                path
            },
            None => String::from_str("unwrapped"),
        }
    }

    /// Set options for a specific field, replacing earlier options for it.
    pub fn with_field_opts(self, field_name: &str, opts: FieldProcOpts) -> (r: Self)
        ensures
            r@ == (ProcUsageOptsV {
                field_opts: spec_assoc_set(self@.field_opts, field_name@, opts@),
                ..self@
            }),
    {
        let mut updated = self;
        let i = find_entry_index(&updated.field_opts, field_name);
        if i < updated.field_opts.len() {
            updated.field_opts.remove(i);
            updated.field_opts.insert(i, (String::from_str(field_name), opts));
            proof {
                let m = self@.field_opts;
                let k = assoc_index_of(m, field_name@);
                assert(pairs_view(updated.field_opts@) =~~= m.update(k, (field_name@, opts@)));
            }
        } else {
            updated.field_opts.push((String::from_str(field_name), opts));
            proof {
                assert(pairs_view(updated.field_opts@) =~~= self@.field_opts.push(
                    (field_name@, opts@),
                ));
            }
        }
        updated
    }

    /// Record an attribute the caller computed for a specific field,
    /// replacing an earlier computed attribute for it.
    pub fn with_computed_attr(self, field_name: &str, tokens: String) -> (r: Self)
        ensures
            r@ == (ProcUsageOptsV {
                computed_attrs: spec_assoc_set(self@.computed_attrs, field_name@, tokens@),
                ..self@
            }),
    {
        let mut updated = self;
        let i = find_entry_index(&updated.computed_attrs, field_name);
        if i < updated.computed_attrs.len() {
            updated.computed_attrs.remove(i);
            updated.computed_attrs.insert(i, (String::from_str(field_name), tokens));
            proof {
                let m = self@.computed_attrs;
                let k = assoc_index_of(m, field_name@);
                assert(pairs_view(updated.computed_attrs@) =~~= m.update(
                    k,
                    (field_name@, tokens@),
                ));
            }
        } else {
            updated.computed_attrs.push((String::from_str(field_name), tokens));
            proof {
                assert(pairs_view(updated.computed_attrs@) =~~= self@.computed_attrs.push(
                    (field_name@, tokens@),
                ));
            }
        }
        updated
    }
}

/// Whether the usage options ask for the named field to be transformed:
/// the override table's entry, or yes when the field is absent from it.
pub open spec fn spec_should_transform(usage: ProcUsageOptsV, name: Seq<char>) -> bool {
    match assoc_find(usage.fields_to_transform, name) {
        Some(b) => b,
        None => true,
    }
}

/// Look up whether the named field should be transformed.
pub fn should_transform(usage: &ProcUsageOpts, name: &str) -> (r: bool)
    ensures
        r == spec_should_transform(usage@, name@),
{
    match assoc_get(&usage.fields_to_transform, name) {
        Some(b) => *b,
        None => true,
    }
}

/// Copy an optional string.
pub fn clone_opt_string(o: &Option<String>) -> (r: Option<String>)
    ensures
        opt_view(r) == opt_view(*o),
{
    match o {
        Some(s) => Some(s.clone()),
        None => None,
    }
}

/// Copy an association list of string lists.
pub fn clone_string_vec_pairs(m: &Vec<(String, Vec<String>)>) -> (r: Vec<(String, Vec<String>)>)
    ensures
        pairs_view(r@) == pairs_view(m@),
{
    let mut out: Vec<(String, Vec<String>)> = Vec::new();
    let n = m.len();
    for i in 0..n
        invariant
            n == m@.len(),
            out@.len() == i as int,
            pairs_view(out@) == pairs_view(m@).take(i as int),
    {
        out.push((m[i].0.clone(), clone_strings(&m[i].1)));
        proof {
            assert(pairs_view(out@) =~~= pairs_view(m@).take(i + 1 as int));
        }
    }
    proof {
        assert(pairs_view(m@).take(n as int) =~= pairs_view(m@));
    }
    out
}

/// Copy an association list of booleans.
pub fn clone_bool_pairs(m: &Vec<(String, bool)>) -> (r: Vec<(String, bool)>)
    ensures
        pairs_view(r@) == pairs_view(m@),
{
    let mut out: Vec<(String, bool)> = Vec::new();
    let n = m.len();
    for i in 0..n
        invariant
            n == m@.len(),
            out@.len() == i as int,
            pairs_view(out@) == pairs_view(m@).take(i as int),
    {
        out.push((m[i].0.clone(), m[i].1));
        proof {
            assert(pairs_view(out@) =~~= pairs_view(m@).take(i + 1 as int));
        }
    }
    proof {
        assert(pairs_view(m@).take(n as int) =~= pairs_view(m@));
    }
    out
}

/// Copy an association list of strings.
pub fn clone_string_pairs(m: &Vec<(String, String)>) -> (r: Vec<(String, String)>)
    ensures
        pairs_view(r@) == pairs_view(m@),
{
    let mut out: Vec<(String, String)> = Vec::new();
    let n = m.len();
    for i in 0..n
        invariant
            n == m@.len(),
            out@.len() == i as int,
            pairs_view(out@) == pairs_view(m@).take(i as int),
    {
        out.push((m[i].0.clone(), m[i].1.clone()));
        proof {
            assert(pairs_view(out@) =~~= pairs_view(m@).take(i + 1 as int));
        }
    }
    proof {
        assert(pairs_view(m@).take(n as int) =~= pairs_view(m@));
    }
    out
}

// ---------------------------------------------------------------------------
// Field attribute collection and the derive list.
// ---------------------------------------------------------------------------
/// All attributes to emit on the field named `name`: those from the
/// struct-level options, then those from the per-field usage options, then
/// the one the caller computed for it, in that order.
pub open spec fn spec_collect_field_attrs(
    name: Seq<char>,
    opts: CommonOptsV,
    proc_opts: ProcUsageOptsV,
) -> Seq<Seq<char>> {
    (match assoc_find(opts.field_attrs, name) {
        Some(attrs) => attrs,
        None => Seq::empty(),
    }) + (match assoc_find(proc_opts.field_opts, name) {
        Some(fo) => fo.attrs,
        None => Seq::empty(),
    }) + (match assoc_find(proc_opts.computed_attrs, name) {
        Some(attr) => seq![attr],
        None => Seq::empty(),
    })
}

/// Collect the attributes to emit on one field from all three sources.
pub fn collect_field_attrs(name: &str, opts: &CommonOpts, proc_opts: &ProcUsageOpts) -> (r: Vec<
    String,
>)
    ensures
        strings_view(r@) == spec_collect_field_attrs(name@, opts@, proc_opts@),
{
    let mut attrs: Vec<String> = Vec::new();
    let ghost part1: Seq<Seq<char>> = match assoc_find(opts@.field_attrs, name@) {
        Some(a) => a,
        None => Seq::empty(),
    };
    let ghost part2: Seq<Seq<char>> = match assoc_find(proc_opts@.field_opts, name@) {
        Some(fo) => fo.attrs,
        None => Seq::empty(),
    };
    let ghost part3: Seq<Seq<char>> = match assoc_find(proc_opts@.computed_attrs, name@) {
        Some(attr) => seq![attr],
        None => Seq::empty(),
    };
    if let Some(opts_attrs) = assoc_get(&opts.field_attrs, name) {
        extend_strings(&mut attrs, opts_attrs);
    }
    proof {
        assert(strings_view(attrs@) =~= part1);
    }
    let ghost after1 = attrs@;
    if let Some(field_opts) = assoc_get(&proc_opts.field_opts, name) {
        extend_strings(&mut attrs, &field_opts.attrs);
    }
    proof {
        assert(strings_view(attrs@) =~= part1 + part2);
    }
    if let Some(attr) = assoc_get(&proc_opts.computed_attrs, name) {
        attrs.push(attr.clone());
    }
    proof {
        assert(strings_view(attrs@) =~= part1 + part2 + part3);
    }
    attrs
}

/// The derive list of the generated structure: the minimal baseline
/// (`Clone`, `Debug`, `Default`) followed by the caller's extra derives,
/// duplicate-free.
pub open spec fn spec_dedup_append(acc: Seq<Seq<char>>, xs: Seq<Seq<char>>) -> Seq<Seq<char>>
    decreases xs.len(),
{
    if xs.len() == 0 {
        acc
    } else {
        spec_dedup_append(
            if acc.contains(xs[0]) {
                acc
            } else {
                acc.push(xs[0])
            },
            xs.drop_first(),
        )
    }
}

/// The baseline derives every generated structure carries.
pub open spec fn spec_baseline_derives() -> Seq<Seq<char>> {
    seq!["Clone"@, "Debug"@, "Default"@]
}

/// The full derive list for the generated structure.
pub open spec fn spec_derive_list(struct_derives: Seq<Seq<char>>) -> Seq<Seq<char>> {
    spec_dedup_append(spec_baseline_derives(), struct_derives)
}

/// Whether a vector of strings contains `s`.
fn contains_string(v: &Vec<String>, s: &String) -> (r: bool)
    ensures
        r == strings_view(v@).contains(s@),
{
    for i in 0..v.len()
        invariant
            forall|j: int| 0 <= j < i ==> strings_view(v@)[j] != s@,
    {
        if v[i].eq(s) {
            proof {
                assert(strings_view(v@)[i as int] == s@);
            }
            return true;
        }
    }
    proof {
        assert forall|j: int| 0 <= j < strings_view(v@).len() implies strings_view(v@)[j]
            != s@ by {}
    }
    false
}

/// Build the derive list of the generated structure: the baseline derives
/// followed by the caller's extras, duplicate-free.
pub fn build_derive_output(struct_derives: &Vec<String>) -> (r: Vec<String>)
    ensures
        strings_view(r@) == spec_derive_list(strings_view(struct_derives@)),
{
    let mut out: Vec<String> = Vec::new();
    out.push(String::from_str("Clone"));
    out.push(String::from_str("Debug"));
    out.push(String::from_str("Default"));
    proof {
        assert(strings_view(out@) =~= spec_baseline_derives());
        assert(strings_view(struct_derives@).skip(0) =~= strings_view(struct_derives@));
    }
    let n = struct_derives.len();
    for i in 0..n
        invariant
            n == struct_derives@.len(),
            spec_dedup_append(strings_view(out@), strings_view(struct_derives@).skip(i as int))
                == spec_derive_list(strings_view(struct_derives@)),
    {
        let ghost before = strings_view(out@);
        let ghost rest = strings_view(struct_derives@).skip(i as int);
        if !contains_string(&out, &struct_derives[i]) {
            out.push(struct_derives[i].clone());
            proof {
                assert(strings_view(out@) =~= before.push(strings_view(struct_derives@)[i as int]));
            }
        }
        proof {
            assert(rest[0] == strings_view(struct_derives@)[i as int]);
            assert(rest.drop_first() =~= strings_view(struct_derives@).skip(i + 1 as int));
        }
    }
    proof {
        assert(strings_view(struct_derives@).skip(n as int) =~= Seq::<Seq<char>>::empty());
    }
    out
}

} // verus!
