use vstd::prelude::*;

use crate::model::{
    AttrDef, AttrDefV, GenericParamDef, MetaArg, MetaArgV, MetaNested, MetaNestedV, MetaValue,
    MetaValueV, SourceStructV,
};
use crate::utils::str_eq;

verus! {

// ---------------------------------------------------------------------------
// Identifier helpers for the builder bridge: raw-identifier stripping, case
// conversion, decimal numbering, and the synthesis of a generic parameter
// that does not collide with the source structure's own parameters.
// ---------------------------------------------------------------------------
/// What `snake_case` conversion returns; the result depends on the
/// characters of the input alone.  It is named rather than stated: the
/// conversion turns on the Unicode upper-case property.
pub uninterp spec fn snake_case_of(s: Seq<char>) -> Seq<char>;

/// The ASCII upper-case equivalent of a character: the letters `a` to `z`
/// map to `A` to `Z`, every other character is unchanged.
pub open spec fn spec_ascii_upper(c: char) -> char {
    if c == 'a' {
        'A'
    } else if c == 'b' {
        'B'
    } else if c == 'c' {
        'C'
    } else if c == 'd' {
        'D'
    } else if c == 'e' {
        'E'
    } else if c == 'f' {
        'F'
    } else if c == 'g' {
        'G'
    } else if c == 'h' {
        'H'
    } else if c == 'i' {
        'I'
    } else if c == 'j' {
        'J'
    } else if c == 'k' {
        'K'
    } else if c == 'l' {
        'L'
    } else if c == 'm' {
        'M'
    } else if c == 'n' {
        'N'
    } else if c == 'o' {
        'O'
    } else if c == 'p' {
        'P'
    } else if c == 'q' {
        'Q'
    } else if c == 'r' {
        'R'
    } else if c == 's' {
        'S'
    } else if c == 't' {
        'T'
    } else if c == 'u' {
        'U'
    } else if c == 'v' {
        'V'
    } else if c == 'w' {
        'W'
    } else if c == 'x' {
        'X'
    } else if c == 'y' {
        'Y'
    } else if c == 'z' {
        'Z'
    } else {
        c
    }
}

/// The `PascalCase` fold over an identifier: an underscore is dropped and
/// capitalizes the character after it; the first character is capitalized
/// too.
pub open spec fn spec_pascal_step(s: Seq<char>, capitalize: bool) -> Seq<char>
    decreases s.len(),
{
    if s.len() == 0 {
        Seq::empty()
    } else if s[0] == '_' {
        spec_pascal_step(s.drop_first(), true)
    } else if capitalize {
        seq![spec_ascii_upper(s[0])] + spec_pascal_step(s.drop_first(), false)
    } else {
        seq![s[0]] + spec_pascal_step(s.drop_first(), false)
    }
}

/// What `PascalCase` conversion returns.
pub open spec fn pascal_case_of(s: Seq<char>) -> Seq<char> {
    spec_pascal_step(s, true)
}

/// Relies on ident_case::RenameRule::SnakeCase::apply_to_variant: a pure
/// function from the input characters to snake_case.
#[verifier::external_body]
fn apply_snake_case(s: &str) -> (r: String)
    ensures
        r@ == snake_case_of(s@),
{
    ident_case::RenameRule::SnakeCase.apply_to_variant(s)
}

/// Relies on ident_case::RenameRule::PascalCase::apply_to_field: a fold
/// over the input characters that drops underscores and capitalizes the
/// character after each of them, stated exactly by `pascal_case_of`.
#[verifier::external_body]
fn apply_pascal_case(s: &str) -> (r: String)
    ensures
        r@ == pascal_case_of(s@),
{
    ident_case::RenameRule::PascalCase.apply_to_field(s)
}

/// An identifier with a raw-identifier marker stripped.
pub open spec fn spec_raw_ident_name(s: Seq<char>) -> Seq<char> {
    if s.len() >= 2 && s[0] == 'r' && s[1] == '#' {
        s.skip(2)
    } else {
        s
    }
}

/// Strip the raw-identifier marker from an identifier, if present.
pub fn raw_ident_name(ident: &String) -> (r: String)
    ensures
        r@ == spec_raw_ident_name(ident@),
{
    let s = ident.as_str();
    let n = s.unicode_len();
    if n >= 2 && s.get_char(0) == 'r' && s.get_char(1) == '#' {
        let rest = s.substring_char(2, n);
        proof {
            assert(rest@ =~= ident@.skip(2));
        }
        rest.to_owned()
    } else {
        ident.clone()
    }
}

/// Convert a PascalCase identifier to snake_case, stripping a
/// raw-identifier marker first.
pub fn pascal_to_snake_ident(ident: &String) -> (r: String)
    ensures
        r@ == snake_case_of(spec_raw_ident_name(ident@)),
{
    let raw = raw_ident_name(ident);
    apply_snake_case(raw.as_str())
}

/// Convert a snake_case identifier to PascalCase, stripping a
/// raw-identifier marker first.
pub fn snake_to_pascal_ident(ident: &String) -> (r: String)
    ensures
        r@ == pascal_case_of(spec_raw_ident_name(ident@)),
{
    let raw = raw_ident_name(ident);
    apply_pascal_case(raw.as_str())
}

/// The identifier named by an attribute value.  Identifier validation is
/// the parsing collaborator's job: a string literal whose value is a
/// valid identifier arrives as `Ident`, so a `Str` or any other
/// expression names none.
pub open spec fn spec_parse_meta_value_ident(v: MetaValueV) -> Option<Seq<char>> {
    match v {
        MetaValueV::Ident(s) => Some(s),
        MetaValueV::Str(_) => None,
        MetaValueV::Other => None,
    }
}

/// Extract the identifier named by an attribute value, if any.
pub fn parse_meta_value_ident(v: &MetaValue) -> (r: Option<String>)
    ensures
        crate::utils::opt_view(r) == spec_parse_meta_value_ident(v@),
{
    match v {
        MetaValue::Ident(s) => Some(s.clone()),
        MetaValue::Str(_) => None,
        MetaValue::Other => None,
    }
}

// ---------------------------------------------------------------------------
// Decimal numbering for synthesized identifiers.
// ---------------------------------------------------------------------------
/// The decimal digit character for 0 through 9.
pub open spec fn spec_digit_char(d: int) -> char {
    if d == 0 {
        '0'
    } else if d == 1 {
        '1'
    } else if d == 2 {
        '2'
    } else if d == 3 {
        '3'
    } else if d == 4 {
        '4'
    } else if d == 5 {
        '5'
    } else if d == 6 {
        '6'
    } else if d == 7 {
        '7'
    } else if d == 8 {
        '8'
    } else {
        '9'
    }
}

/// The decimal representation of a natural number.
pub open spec fn spec_dec_rep(n: nat) -> Seq<char>
    decreases n,
{
    if n < 10 {
        seq![spec_digit_char(n as int)]
    } else {
        spec_dec_rep(n / 10) + seq![spec_digit_char((n % 10) as int)]
    }
}

proof fn lemma_dec_rep_len(n: nat)
    ensures
        spec_dec_rep(n).len() >= 1,
        n >= 10 ==> spec_dec_rep(n).len() >= 2,
    decreases n,
{
    if n >= 10 {
        lemma_dec_rep_len(n / 10);
    }
}

/// Distinct numbers have distinct decimal representations.
proof fn lemma_dec_rep_injective(a: nat, b: nat)
    requires
        spec_dec_rep(a) == spec_dec_rep(b),
    ensures
        a == b,
    decreases a,
{
    lemma_dec_rep_len(a);
    lemma_dec_rep_len(b);
    if a < 10 && b < 10 {
        assert(spec_dec_rep(a)[0] == spec_digit_char(a as int));
        assert(spec_dec_rep(b)[0] == spec_digit_char(b as int));
    } else if a >= 10 && b >= 10 {
        assert(spec_dec_rep(a).last() == spec_digit_char((a % 10) as int));
        assert(spec_dec_rep(b).last() == spec_digit_char((b % 10) as int));
        assert(spec_dec_rep(a).drop_last() =~= spec_dec_rep(a / 10));
        assert(spec_dec_rep(b).drop_last() =~= spec_dec_rep(b / 10));
        lemma_dec_rep_injective(a / 10, b / 10);
        assert(a == (a / 10) * 10 + a % 10);
        assert(b == (b / 10) * 10 + b % 10);
    } else if a < 10 {
        assert(spec_dec_rep(a).len() == 1);
        assert(false);
    } else {
        assert(spec_dec_rep(b).len() == 1);
        assert(false);
    }
}

/// The single-character string for a decimal digit.
fn digit_string(d: u64) -> (r: String)
    requires
        d < 10,
    ensures
        r@ == seq![spec_digit_char(d as int)],
{
    let s: String = if d == 0 {
        String::from_str("0")
    } else if d == 1 {
        String::from_str("1")
    } else if d == 2 {
        String::from_str("2")
    } else if d == 3 {
        String::from_str("3")
    } else if d == 4 {
        String::from_str("4")
    } else if d == 5 {
        String::from_str("5")
    } else if d == 6 {
        String::from_str("6")
    } else if d == 7 {
        String::from_str("7")
    } else if d == 8 {
        String::from_str("8")
    } else {
        String::from_str("9")
    };
    proof {
        reveal_strlit("0");
        reveal_strlit("1");
        reveal_strlit("2");
        reveal_strlit("3");
        reveal_strlit("4");
        reveal_strlit("5");
        reveal_strlit("6");
        reveal_strlit("7");
        reveal_strlit("8");
        reveal_strlit("9");
        assert(s@ =~= seq![spec_digit_char(d as int)]);
    }
    s
}

/// Render a number in decimal.
pub fn u64_to_string(n: u64) -> (r: String)
    ensures
        r@ == spec_dec_rep(n as nat),
    decreases n,
{
    let d = n % 10;
    if n < 10 {
        digit_string(d)
    } else {
        let mut s = u64_to_string(n / 10);
        let ds = digit_string(d);
        s.append(ds.as_str());
        proof {
            assert(s@ =~= spec_dec_rep((n / 10) as nat) + seq![spec_digit_char((n % 10) as int)]);
        }
        s
    }
}

// ---------------------------------------------------------------------------
// Detection and configuration of the incremental-construction helper, read
// off the source structure's own attribute list.
// ---------------------------------------------------------------------------
/// Whether a list item is a path whose last segment is `Builder`.
pub open spec fn spec_path_is_builder(item: MetaNestedV) -> bool {
    match item {
        MetaNestedV::Path(segs) => segs.len() > 0 && segs.last() == "Builder"@,
        _ => false,
    }
}

/// Whether the attribute list contains a derive of the builder helper.
pub open spec fn spec_derives_builder(attrs: Seq<AttrDefV>) -> bool {
    exists|i: int|
        0 <= i < attrs.len() && match #[trigger] attrs[i] {
            AttrDefV::List(key, items) => key == "derive"@ && exists|j: int|
                0 <= j < items.len() && spec_path_is_builder(#[trigger] items[j]),
            _ => false,
        }
}

/// Whether an attribute's own key is the given single-segment name.
pub open spec fn spec_attr_key_is(attr: AttrDefV, key: Seq<char>) -> bool {
    match attr {
        AttrDefV::Path(segs) => segs.len() == 1 && segs[0] == key,
        AttrDefV::NameValue(k, _) => k == key,
        AttrDefV::List(k, _) => k == key,
        AttrDefV::Opaque => false,
    }
}

/// Whether the attribute list contains a `builder` attribute of any shape.
pub open spec fn spec_has_builder_attr(attrs: Seq<AttrDefV>) -> bool {
    exists|i: int| 0 <= i < attrs.len() && spec_attr_key_is(#[trigger] attrs[i], "builder"@)
}

/// Check whether a derive list item is a path ending in `Builder`.
fn path_is_builder(item: &MetaNested) -> (r: bool)
    ensures
        r == spec_path_is_builder(item@),
{
    match item {
        MetaNested::Path(segs) => {
            if segs.len() == 0 {
                return false;
            }
            let last = &segs[segs.len() - 1];
            str_eq(last.as_str(), "Builder")
        },
        _ => false,
    }
}

/// Check whether the attribute list derives the builder helper.
pub fn derives_builder(attrs: &Vec<AttrDef>) -> (r: bool)
    ensures
        r == spec_derives_builder(crate::model::attrs_view(attrs@)),
{
    let ghost av = crate::model::attrs_view(attrs@);
    let n = attrs.len();
    for i in 0..n
        invariant
            n == attrs@.len(),
            av == crate::model::attrs_view(attrs@),
            forall|i2: int|
                0 <= i2 < i ==> !match #[trigger] av[i2] {
                    AttrDefV::List(key, items) => key == "derive"@ && exists|j: int|
                        0 <= j < items.len() && spec_path_is_builder(#[trigger] items[j]),
                    _ => false,
                },
    {
        if let AttrDef::List(key, items) = &attrs[i] {
            if str_eq(key.as_str(), "derive") {
                let m = items.len();
                for j in 0..m
                    invariant
                        i < n,
                        n == attrs@.len(),
                        m == items@.len(),
                        av == crate::model::attrs_view(attrs@),
                        key@ == "derive"@,
                        av[i as int] == (AttrDefV::List(
                            key@,
                            Seq::new(items@.len(), |jj: int| items@[jj]@),
                        )),
                        forall|j2: int|
                            0 <= j2 < j ==> !spec_path_is_builder(
                                #[trigger] av[i as int]->List_1[j2],
                            ),
                {
                    if path_is_builder(&items[j]) {
                        proof {
                            assert(av[i as int]->List_1[j as int] == items@[j as int]@);
                            assert(spec_path_is_builder(av[i as int]->List_1[j as int]));
                            assert(match av[i as int] {
                                AttrDefV::List(key2, items2) => key2 == "derive"@ && exists|
                                    j2: int,
                                |
                                    0 <= j2 < items2.len() && spec_path_is_builder(
                                        #[trigger] items2[j2],
                                    ),
                                _ => false,
                            });
                        }
                        return true;
                    }
                    proof {
                        assert(av[i as int]->List_1[j as int] == items@[j as int]@);
                    }
                }
            }
        }
        proof {
            assert(av[i as int] == attrs@[i as int]@);
        }
    }
    false
}

/// Check whether the attribute list holds a `builder` attribute.
pub fn has_builder_attr(attrs: &Vec<AttrDef>) -> (r: bool)
    ensures
        r == spec_has_builder_attr(crate::model::attrs_view(attrs@)),
{
    let ghost av = crate::model::attrs_view(attrs@);
    let n = attrs.len();
    for i in 0..n
        invariant
            n == attrs@.len(),
            av == crate::model::attrs_view(attrs@),
            forall|i2: int| 0 <= i2 < i ==> !spec_attr_key_is(#[trigger] av[i2], "builder"@),
    {
        let hit = match &attrs[i] {
            AttrDef::Path(segs) => segs.len() == 1 && str_eq(segs[0].as_str(), "builder"),
            AttrDef::NameValue(k, _) => str_eq(k.as_str(), "builder"),
            AttrDef::List(k, _) => str_eq(k.as_str(), "builder"),
            AttrDef::Opaque => false,
        };
        proof {
            assert(av[i as int] == attrs@[i as int]@);
        }
        if hit {
            proof {
                assert(spec_attr_key_is(av[i as int], "builder"@));
            }
            return true;
        }
    }
    false
}

/// The identifier an item inside a nested list yields for `name = ...`.
pub open spec fn spec_arg_name_ident(arg: MetaArgV) -> Option<Seq<char>> {
    match arg {
        MetaArgV::NameValue(k, v) => if k == "name"@ {
            spec_parse_meta_value_ident(v)
        } else {
            None
        },
        MetaArgV::Opaque => None,
    }
}

/// The first identifier a nested list yields for `name = ...`.
pub open spec fn spec_first_name_arg(args: Seq<MetaArgV>) -> Option<Seq<char>>
    decreases args.len(),
{
    if args.len() == 0 {
        None
    } else if spec_arg_name_ident(args[0]) is Some {
        spec_arg_name_ident(args[0])
    } else {
        spec_first_name_arg(args.drop_first())
    }
}

proof fn lemma_first_name_arg_skip(args: Seq<MetaArgV>, i: int)
    requires
        0 <= i <= args.len(),
        forall|j: int| 0 <= j < i ==> spec_arg_name_ident(#[trigger] args[j]) is None,
    ensures
        spec_first_name_arg(args) == spec_first_name_arg(args.skip(i)),
    decreases i,
{
    if i == 0 {
        assert(args.skip(0) =~= args);
    } else {
        lemma_first_name_arg_skip(args, i - 1);
        let s = args.skip(i - 1);
        assert(s[0] == args[i - 1]);
        assert(s.drop_first() =~= args.skip(i));
    }
}

/// The identifier a builder configuration item yields for `key`: either
/// `key = ident-or-string`, or `key(name = ident-or-string)`.
pub open spec fn spec_parse_builder_item_ident(item: MetaNestedV, key: Seq<char>) -> Option<
    Seq<char>,
> {
    match item {
        MetaNestedV::NameValue(k, v) => if k == key {
            spec_parse_meta_value_ident(v)
        } else {
            None
        },
        MetaNestedV::List(k, args) => if k == key {
            spec_first_name_arg(args)
        } else {
            None
        },
        _ => None,
    }
}

/// Extract the identifier a builder configuration item names for `key`.
pub fn parse_builder_item_ident(item: &MetaNested, key: &str) -> (r: Option<String>)
    ensures
        crate::utils::opt_view(r) == spec_parse_builder_item_ident(item@, key@),
{
    match item {
        MetaNested::NameValue(k, v) => {
            if str_eq(k.as_str(), key) {
                parse_meta_value_ident(v)
            } else {
                None
            }
        },
        MetaNested::List(k, args) => {
            if str_eq(k.as_str(), key) {
                let ghost argsv = Seq::new(args@.len(), |i: int| args@[i]@);
                let m = args.len();
                for i in 0..m
                    invariant
                        m == args@.len(),
                        k@ == key@,
                        item@ == (MetaNestedV::List(k@, argsv)),
                        argsv == Seq::new(args@.len(), |i2: int| args@[i2]@),
                        forall|j: int|
                            0 <= j < i ==> spec_arg_name_ident(#[trigger] argsv[j]) is None,
                {
                    proof {
                        assert(argsv[i as int] == args@[i as int]@);
                    }
                    if let MetaArg::NameValue(k2, v) = &args[i] {
                        if str_eq(k2.as_str(), "name") {
                            if let Some(ident) = parse_meta_value_ident(v) {
                                proof {
                                    lemma_first_name_arg_skip(argsv, i as int);
                                    assert(argsv.skip(i as int)[0] == argsv[i as int]);
                                    assert(spec_arg_name_ident(argsv[i as int]) == Some(ident@));
                                    assert(spec_first_name_arg(argsv) == Some(ident@));
                                }
                                return Some(ident);
                            }
                        }
                    }
                }
                proof {
                    lemma_first_name_arg_skip(argsv, m as int);
                    assert(argsv.skip(m as int) =~= Seq::<MetaArgV>::empty());
                }
                None
            } else {
                None
            }
        },
        _ => None,
    }
}

/// The builder helper's configured type and state-module names, read off
/// one configuration item and merged into the configuration so far.
pub open spec fn spec_config_item(
    cfg: (Option<Seq<char>>, Option<Seq<char>>),
    item: MetaNestedV,
) -> (Option<Seq<char>>, Option<Seq<char>>) {
    let bt = spec_parse_builder_item_ident(item, "builder_type"@);
    let sm = spec_parse_builder_item_ident(item, "state_mod"@);
    (
        if bt is Some {
            bt
        } else {
            cfg.0
        },
        if sm is Some {
            sm
        } else {
            cfg.1
        },
    )
}

/// Fold a whole `builder(...)` item list into the configuration.
pub open spec fn spec_config_items(
    cfg: (Option<Seq<char>>, Option<Seq<char>>),
    items: Seq<MetaNestedV>,
) -> (Option<Seq<char>>, Option<Seq<char>>)
    decreases items.len(),
{
    if items.len() == 0 {
        cfg
    } else {
        spec_config_items(spec_config_item(cfg, items[0]), items.drop_first())
    }
}

/// Fold one attribute into the configuration: only `builder(...)` lists
/// contribute.
pub open spec fn spec_config_attr(
    cfg: (Option<Seq<char>>, Option<Seq<char>>),
    attr: AttrDefV,
) -> (Option<Seq<char>>, Option<Seq<char>>) {
    match attr {
        AttrDefV::List(key, items) => if key == "builder"@ {
            spec_config_items(cfg, items)
        } else {
            cfg
        },
        _ => cfg,
    }
}

/// The builder helper's configured names after reading the whole attribute
/// list, in order.
pub open spec fn spec_parse_builder_config(attrs: Seq<AttrDefV>) -> (Option<Seq<char>>, Option<
    Seq<char>,
>)
    decreases attrs.len(),
{
    if attrs.len() == 0 {
        (None, None)
    } else {
        spec_config_attr(spec_parse_builder_config(attrs.drop_last()), attrs.last())
    }
}

/// The builder helper's configured type and state-module names.
pub struct BuilderConfig {
    pub builder_type: Option<String>,
    pub state_mod: Option<String>,
}

/// Read the builder helper's configuration out of the attribute list.
pub fn parse_builder_config(attrs: &Vec<AttrDef>) -> (r: BuilderConfig)
    ensures
        crate::utils::opt_view(r.builder_type) == spec_parse_builder_config(
            crate::model::attrs_view(attrs@),
        ).0,
        crate::utils::opt_view(r.state_mod) == spec_parse_builder_config(
            crate::model::attrs_view(attrs@),
        ).1,
{
    let ghost av = crate::model::attrs_view(attrs@);
    let mut config = BuilderConfig { builder_type: None, state_mod: None };
    let n = attrs.len();
    for i in 0..n
        invariant
            n == attrs@.len(),
            av == crate::model::attrs_view(attrs@),
            crate::utils::opt_view(config.builder_type) == spec_parse_builder_config(
                av.take(i as int),
            ).0,
            crate::utils::opt_view(config.state_mod) == spec_parse_builder_config(
                av.take(i as int),
            ).1,
    {
        let ghost cfg0 = (
            crate::utils::opt_view(config.builder_type),
            crate::utils::opt_view(config.state_mod),
        );
        proof {
            assert(av[i as int] == attrs@[i as int]@);
            assert(av.take(i + 1 as int).drop_last() =~= av.take(i as int));
            assert(av.take(i + 1 as int).last() == av[i as int]);
        }
        if let AttrDef::List(key, items) = &attrs[i] {
            if str_eq(key.as_str(), "builder") {
                let ghost itemsv = av[i as int]->List_1;
                proof {
                    assert(itemsv.skip(0) =~= itemsv);
                }
                let m = items.len();
                for j in 0..m
                    invariant
                        i < n,
                        n == attrs@.len(),
                        m == items@.len(),
                        av == crate::model::attrs_view(attrs@),
                        key@ == "builder"@,
                        av[i as int] == (AttrDefV::List(
                            key@,
                            Seq::new(items@.len(), |jj: int| items@[jj]@),
                        )),
                        itemsv == av[i as int]->List_1,
                        spec_config_items(
                            (
                                crate::utils::opt_view(config.builder_type),
                                crate::utils::opt_view(config.state_mod),
                            ),
                            itemsv.skip(j as int),
                        ) == spec_config_items(cfg0, itemsv),
                {
                    let ghost cfg_before = (
                        crate::utils::opt_view(config.builder_type),
                        crate::utils::opt_view(config.state_mod),
                    );
                    proof {
                        assert(itemsv[j as int] == items@[j as int]@);
                        assert(itemsv.skip(j as int)[0] == itemsv[j as int]);
                        assert(itemsv.skip(j as int).drop_first() =~= itemsv.skip(j + 1 as int));
                    }
                    if let Some(ident) = parse_builder_item_ident(&items[j], "builder_type") {
                        config.builder_type = Some(ident);
                    }
                    if let Some(ident) = parse_builder_item_ident(&items[j], "state_mod") {
                        config.state_mod = Some(ident);
                    }
                    proof {
                        assert((
                            crate::utils::opt_view(config.builder_type),
                            crate::utils::opt_view(config.state_mod),
                        ) == spec_config_item(cfg_before, itemsv[j as int]));
                    }
                }
                proof {
                    assert(itemsv.skip(m as int) =~= Seq::<MetaNestedV>::empty());
                    assert(spec_config_attr(cfg0, av[i as int]) == spec_config_items(
                        cfg0,
                        itemsv,
                    ));
                }
            }
        }
    }
    proof {
        assert(av.take(n as int) =~= av);
    }
    config
}

/// The names of the builder helper type and its typestate module for the
/// source structure, when the structure carries the builder marker.
pub open spec fn spec_bon_builder_info(s: SourceStructV) -> Option<(Seq<char>, Seq<char>)> {
    if !spec_derives_builder(s.attrs) && !spec_has_builder_attr(s.attrs) {
        None
    } else {
        let cfg = spec_parse_builder_config(s.attrs);
        let builder = match cfg.0 {
            Some(b) => b,
            None => s.name + "Builder"@,
        };
        let state_mod = match cfg.1 {
            Some(m) => m,
            None => snake_case_of(spec_raw_ident_name(builder)),
        };
        Some((builder, state_mod))
    }
}

/// The builder helper's identifiers for the source structure.
pub struct BuilderInfo {
    pub builder_ident: String,
    pub state_mod_ident: String,
}

/// Detect the builder marker on the source structure and resolve the
/// builder type and typestate module identifiers.
pub fn bon_builder_info(input: &crate::model::SourceStruct) -> (r: Option<BuilderInfo>)
    ensures
        match r {
            Some(info) => spec_bon_builder_info(input@) == Some(
                (info.builder_ident@, info.state_mod_ident@),
            ),
            None => spec_bon_builder_info(input@) is None,
        },
{
    proof {
        assert(crate::model::attrs_view(input.attrs@) == input@.attrs);
    }
    if !derives_builder(&input.attrs) && !has_builder_attr(&input.attrs) {
        return None;
    }
    let config = parse_builder_config(&input.attrs);
    let builder_ident = match config.builder_type {
        Some(b) => b,
        None => {
            let mut name = input.name.clone();
            name.append("Builder");
            name
        },
    };
    let state_mod_ident = match config.state_mod {
        Some(m) => m,
        None => pascal_to_snake_ident(&builder_ident),
    };
    Some(BuilderInfo { builder_ident, state_mod_ident })
}

// ---------------------------------------------------------------------------
// Generic-parameter helpers.
// ---------------------------------------------------------------------------
/// The names of the source structure's generic parameters, in order.
pub open spec fn spec_param_names(g: Seq<crate::model::GenericParamDefV>) -> Seq<Seq<char>> {
    Seq::new(g.len(), |i: int| g[i].name())
}

/// List the names of the generic parameters, in order.
pub fn generic_args(generics: &Vec<GenericParamDef>) -> (r: Vec<String>)
    ensures
        crate::utils::strings_view(r@) == spec_param_names(crate::model::generics_view(generics@)),
{
    let mut out: Vec<String> = Vec::new();
    let n = generics.len();
    for i in 0..n
        invariant
            n == generics@.len(),
            out@.len() == i as int,
            crate::utils::strings_view(out@) == spec_param_names(crate::model::generics_view(generics@)).take(i as int),
    {
        let name = match &generics[i] {
            GenericParamDef::Type(name) => name.clone(),
            GenericParamDef::Lifetime(name) => name.clone(),
            GenericParamDef::Const(name) => name.clone(),
        };
        proof {
            assert(name@ == generics@[i as int]@.name());
        }
        let ghost prev = out@;
        out.push(name);
        proof {
            assert(out@ == prev.push(name));
            assert forall|j: int| 0 <= j < i implies out@[j]@ == spec_param_names(crate::model::generics_view(generics@))[j] by {
                assert(out@[j] == prev[j]);
                assert(crate::utils::strings_view(prev)[j] == spec_param_names(crate::model::generics_view(generics@)).take(
                    i as int,
                )[j]);
            }
            assert(out@[i as int]@ == name@);
            assert(crate::utils::strings_view(out@) =~= spec_param_names(crate::model::generics_view(generics@)).take(
                i + 1 as int,
            ));
        }
    }
    proof {
        assert(spec_param_names(crate::model::generics_view(generics@)).take(n as int) =~= spec_param_names(crate::model::generics_view(generics@)));
    }
    out
}

/// Whether the generic-parameter list contains a parameter named `s`.
fn params_contain(generics: &Vec<GenericParamDef>, s: &str) -> (r: bool)
    ensures
        r == spec_param_names(crate::model::generics_view(generics@)).contains(s@),
{
    let n = generics.len();
    for i in 0..n
        invariant
            n == generics@.len(),
            forall|j: int| 0 <= j < i ==> spec_param_names(crate::model::generics_view(generics@))[j] != s@,
    {
        let name = match &generics[i] {
            GenericParamDef::Type(name) => name,
            GenericParamDef::Lifetime(name) => name,
            GenericParamDef::Const(name) => name,
        };
        if str_eq(name.as_str(), s) {
            proof {
                assert(spec_param_names(crate::model::generics_view(generics@))[i as int] == s@);
            }
            return true;
        }
    }
    proof {
        assert(forall|j: int|
            0 <= j < spec_param_names(crate::model::generics_view(generics@)).len() ==> spec_param_names(crate::model::generics_view(generics@))[j] != s@);
    }
    false
}

/// The base name for the synthesized builder-state parameter.
pub open spec fn spec_state_base() -> Seq<char> {
    "__UnwrappedBuilderState"@
}

proof fn lemma_concat_left_cancel(a: Seq<char>, x: Seq<char>, y: Seq<char>)
    requires
        a + x == a + y,
    ensures
        x == y,
{
    assert((a + x).len() == a.len() + x.len());
    assert((a + y).len() == a.len() + y.len());
    assert(x.len() == y.len());
    assert forall|i: int| 0 <= i < x.len() implies x[i] == y[i] by {
        assert((a + x)[a.len() + i] == x[i]);
        assert((a + y)[a.len() + i] == y[i]);
    }
    assert(x =~= y);
}

/// When the base name and the first `m` numbered candidates are all taken,
/// the name list has more than `m` entries: base and candidates are
/// pairwise distinct.
proof fn lemma_candidate_pigeonhole(names: Seq<Seq<char>>, m: nat)
    requires
        names.contains(spec_state_base()),
        forall|k: nat| k < m ==> names.contains(spec_state_base() + spec_dec_rep(k)),
    ensures
        m < names.len(),
{
    broadcast use vstd::seq_lib::seq_to_set_is_finite;

    let base = spec_state_base();
    let cs = Seq::new(
        (m + 1) as nat,
        |k: int|
            if k == 0 {
                base
            } else {
                base + spec_dec_rep((k - 1) as nat)
            },
    );
    assert forall|i: int, j: int| 0 <= i < j < cs.len() implies cs[i] != cs[j] by {
        if i == 0 {
            lemma_dec_rep_len((j - 1) as nat);
            assert(cs[j].len() == base.len() + spec_dec_rep((j - 1) as nat).len());
        } else if cs[i] == cs[j] {
            lemma_concat_left_cancel(
                base,
                spec_dec_rep((i - 1) as nat),
                spec_dec_rep((j - 1) as nat),
            );
            lemma_dec_rep_injective((i - 1) as nat, (j - 1) as nat);
        }
    }
    assert(cs.no_duplicates());
    cs.unique_seq_to_set();
    assert forall|x: Seq<char>| cs.to_set().contains(x) implies names.to_set().contains(x) by {
        let i = choose|i: int| 0 <= i < cs.len() && cs[i] == x;
        assert(names.contains(cs[i]));
    }
    assert(cs.to_set().subset_of(names.to_set()));
    vstd::set_lib::lemma_len_subset(cs.to_set(), names.to_set());
    names.lemma_cardinality_of_set();
}

/// Synthesize a generic parameter name for the builder state that does not
/// collide with any of the structure's own generic parameters: the base
/// name when it is free, else the base name with the least free decimal
/// number appended.
pub fn unique_state_ident(generics: &Vec<GenericParamDef>) -> (r: String)
    ensures
        !spec_param_names(crate::model::generics_view(generics@)).contains(r@),
        !spec_param_names(crate::model::generics_view(generics@)).contains(spec_state_base()) ==> r@ == spec_state_base(),
        spec_param_names(crate::model::generics_view(generics@)).contains(spec_state_base()) ==> exists|k: nat|
            r@ == spec_state_base() + spec_dec_rep(k) && (forall|k2: nat|
                k2 < k ==> spec_param_names(crate::model::generics_view(generics@)).contains(
                    spec_state_base() + #[trigger] spec_dec_rep(k2),
                )),
{
    let ghost names = spec_param_names(crate::model::generics_view(generics@));
    let base = String::from_str("__UnwrappedBuilderState");
    if !params_contain(generics, base.as_str()) {
        return base;
    }
    let n = generics.len();
    for k in 0..n
        invariant
            n == generics@.len(),
            names == spec_param_names(crate::model::generics_view(generics@)),
            names.contains(spec_state_base()),
            base@ == spec_state_base(),
            forall|k2: nat|
                k2 < k ==> names.contains(spec_state_base() + #[trigger] spec_dec_rep(k2)),
    {
        let mut candidate = base.clone();
        let num = u64_to_string(k as u64);
        candidate.append(num.as_str());
        proof {
            assert(candidate@ == spec_state_base() + spec_dec_rep(k as nat));
        }
        if !params_contain(generics, candidate.as_str()) {
            proof {
                assert(candidate@ == spec_state_base() + spec_dec_rep(k as nat) && (forall|
                    k2: nat,
                |
                    k2 < k as nat ==> names.contains(
                        spec_state_base() + #[trigger] spec_dec_rep(k2),
                    )));
            }
            return candidate;
        }
    }
    proof {
        lemma_candidate_pigeonhole(names, n as nat);
        assert(names.len() == n);
    }
    base
}

} // verus!
