use vstd::prelude::*;

use crate::UnwrappedError;
use crate::artifact::{ConvEntry, ConvEntryV, FieldConv, FieldConvV, convs_view};
use crate::values::{FieldVal, FieldValV, ValueKind, record_view, spec_zero_value, zero_value};

verus! {

// ---------------------------------------------------------------------------
// The meaning of the synthesized conversion routines: applying a routine's
// per-field actions to a structure instance, one value per field.
// ---------------------------------------------------------------------------
/// Whether a record value has the shape one conversion action reads.
pub open spec fn spec_conv_input_ok(conv: FieldConvV, v: FieldValV) -> bool {
    match conv {
        FieldConvV::PassThrough => true,
        FieldConvV::WrapSome => v is Req,
        FieldConvV::UnwrapOrZero => v is Opt,
        FieldConvV::UnwrapOrValue(_) => v is Opt,
        FieldConvV::UnwrapOrFail => v is Opt,
        FieldConvV::CollapseIfValue(_) => v is Req,
        FieldConvV::FromParam => true,
    }
}

/// The value one conversion action produces from a record value, or
/// nothing when the action fails on it.  A caller-supplied reconstruction
/// parameter passes through unchanged.
pub open spec fn spec_conv_value(conv: FieldConvV, v: FieldValV, kind: ValueKind) -> Option<
    FieldValV,
> {
    match conv {
        FieldConvV::PassThrough => Some(v),
        FieldConvV::WrapSome => Some(FieldValV::Opt(Some(v->Req_0))),
        FieldConvV::UnwrapOrZero => match v->Opt_0 {
            Some(x) => Some(FieldValV::Req(x)),
            None => Some(FieldValV::Req(spec_zero_value(kind))),
        },
        FieldConvV::UnwrapOrValue(d) => match v->Opt_0 {
            Some(x) => Some(FieldValV::Req(x)),
            None => Some(FieldValV::Req(d)),
        },
        FieldConvV::UnwrapOrFail => match v->Opt_0 {
            Some(x) => Some(FieldValV::Req(x)),
            None => None,
        },
        FieldConvV::CollapseIfValue(d) => Some(
            FieldValV::Opt(
                if v->Req_0 == d {
                    None
                } else {
                    Some(v->Req_0)
                },
            ),
        ),
        FieldConvV::FromParam => Some(v),
    }
}

/// The result of a whole routine on a record: the per-field results in
/// order, or the name of the first field whose action fails.
pub open spec fn spec_apply_routine(
    convs: Seq<ConvEntryV>,
    rec: Seq<FieldValV>,
    kinds: Seq<ValueKind>,
) -> Result<Seq<FieldValV>, Seq<char>>
    decreases convs.len(),
{
    if convs.len() == 0 {
        Ok(Seq::empty())
    } else {
        match spec_conv_value(convs[0].conv, rec[0], kinds[0]) {
            None => Err(convs[0].name),
            Some(v) => match spec_apply_routine(
                convs.drop_first(),
                rec.drop_first(),
                kinds.drop_first(),
            ) {
                Ok(tail) => Ok(seq![v] + tail),
                Err(e) => Err(e),
            },
        }
    }
}

/// Apply one conversion action to one record value.
fn apply_conv(conv: &FieldConv, v: &FieldVal, kind: ValueKind) -> (r: Option<FieldVal>)
    requires
        spec_conv_input_ok(conv@, v@),
    ensures
        match r {
            Some(out) => spec_conv_value(conv@, v@, kind) == Some(out@),
            None => spec_conv_value(conv@, v@, kind) is None,
        },
{
    match conv {
        FieldConv::PassThrough => Some(v.dup()),
        FieldConv::FromParam => Some(v.dup()),
        FieldConv::WrapSome => {
            match v {
                FieldVal::Req(x) => Some(FieldVal::Opt(Some(x.dup()))),
                FieldVal::Opt(_) => {
                    proof {
                        assert(false);
                    }
                    Some(v.dup())
                },
            }
        },
        FieldConv::UnwrapOrZero => {
            match v {
                FieldVal::Opt(Some(x)) => Some(FieldVal::Req(x.dup())),
                FieldVal::Opt(None) => Some(FieldVal::Req(zero_value(kind))),
                FieldVal::Req(_) => {
                    proof {
                        assert(false);
                    }
                    Some(v.dup())
                },
            }
        },
        FieldConv::UnwrapOrValue(d) => {
            match v {
                FieldVal::Opt(Some(x)) => Some(FieldVal::Req(x.dup())),
                FieldVal::Opt(None) => Some(FieldVal::Req(d.dup())),
                FieldVal::Req(_) => {
                    proof {
                        assert(false);
                    }
                    Some(v.dup())
                },
            }
        },
        FieldConv::UnwrapOrFail => {
            match v {
                FieldVal::Opt(Some(x)) => Some(FieldVal::Req(x.dup())),
                FieldVal::Opt(None) => None,
                FieldVal::Req(_) => {
                    proof {
                        assert(false);
                    }
                    Some(v.dup())
                },
            }
        },
        FieldConv::CollapseIfValue(d) => {
            match v {
                FieldVal::Req(x) => {
                    if x.same_as(d) {
                        Some(FieldVal::Opt(None))
                    } else {
                        Some(FieldVal::Opt(Some(x.dup())))
                    }
                },
                FieldVal::Opt(_) => {
                    proof {
                        assert(false);
                    }
                    Some(v.dup())
                },
            }
        },
    }
}

/// Apply a routine to a record, field by field and in order: the results
/// in order, or the failure naming the first field whose required value
/// was absent.
pub fn apply_routine(convs: &Vec<ConvEntry>, rec: &Vec<FieldVal>, kinds: &Vec<ValueKind>) -> (r:
    Result<Vec<FieldVal>, UnwrappedError>)
    requires
        convs@.len() == rec@.len(),
        kinds@.len() == rec@.len(),
        forall|i: int|
            0 <= i < convs@.len() ==> spec_conv_input_ok((#[trigger] convs@[i])@.conv, rec@[i]@),
    ensures
        match r {
            Ok(out) => spec_apply_routine(convs_view(convs@), record_view(rec@), kinds@)
                == Ok::<Seq<FieldValV>, Seq<char>>(record_view(out@)),
            Err(e) => spec_apply_routine(convs_view(convs@), record_view(rec@), kinds@)
                == Err::<Seq<FieldValV>, Seq<char>>(e.field_name@),
        },
{
    let ghost cv = convs_view(convs@);
    let ghost rv = record_view(rec@);
    let ghost kv = kinds@;
    let mut out: Vec<FieldVal> = Vec::new();
    let n = convs.len();
    proof {
        assert(cv.skip(0) =~= cv);
        assert(rv.skip(0) =~= rv);
        assert(kv.skip(0) =~= kv);
        assert(record_view(out@) =~= Seq::<FieldValV>::empty());
    }
    for i in 0..n
        invariant
            n == convs@.len(),
            n == rec@.len(),
            n == kinds@.len(),
            cv == convs_view(convs@),
            rv == record_view(rec@),
            kv == kinds@,
            out@.len() == i as int,
            forall|j: int|
                0 <= j < n ==> spec_conv_input_ok((#[trigger] convs@[j])@.conv, rec@[j]@),
            spec_apply_routine(cv, rv, kv) == (match spec_apply_routine(
                cv.skip(i as int),
                rv.skip(i as int),
                kv.skip(i as int),
            ) {
                Ok(tail) => Ok::<Seq<FieldValV>, Seq<char>>(record_view(out@) + tail),
                Err(e) => Err(e),
            }),
    {
        proof {
            assert(cv[i as int] == convs@[i as int]@);
            assert(rv[i as int] == rec@[i as int]@);
            assert(cv.skip(i as int)[0] == cv[i as int]);
            assert(rv.skip(i as int)[0] == rv[i as int]);
            assert(kv.skip(i as int)[0] == kv[i as int]);
            assert(cv.skip(i as int).drop_first() =~= cv.skip(i + 1 as int));
            assert(rv.skip(i as int).drop_first() =~= rv.skip(i + 1 as int));
            assert(kv.skip(i as int).drop_first() =~= kv.skip(i + 1 as int));
        }
        match apply_conv(&convs[i].conv, &rec[i], kinds[i]) {
            Some(v) => {
                let ghost prev = out@;
                let ghost v_view = v@;
                out.push(v);
                proof {
                    assert(record_view(out@) =~= record_view(prev).push(v_view));
                    match spec_apply_routine(
                        cv.skip(i + 1 as int),
                        rv.skip(i + 1 as int),
                        kv.skip(i + 1 as int),
                    ) {
                        Ok(tail) => {
                            assert(record_view(prev) + (seq![v_view] + tail) =~= record_view(
                                out@,
                            ) + tail);
                        },
                        Err(_) => {},
                    }
                }
            },
            None => {
                proof {
                    assert(spec_apply_routine(
                        cv.skip(i as int),
                        rv.skip(i as int),
                        kv.skip(i as int),
                    ) == Err::<Seq<FieldValV>, Seq<char>>(cv[i as int].name));
                }
                return Err(UnwrappedError { field_name: convs[i].name.clone() });
            },
        }
    }
    proof {
        assert(cv.skip(n as int) =~= Seq::<ConvEntryV>::empty());
        assert(spec_apply_routine(
            cv.skip(n as int),
            rv.skip(n as int),
            kv.skip(n as int),
        ) == Ok::<Seq<FieldValV>, Seq<char>>(Seq::empty()));
        assert(record_view(out@) + Seq::<FieldValV>::empty() =~= record_view(out@));
    }
    Ok(out)
}

// ---------------------------------------------------------------------------
// The parameterized reconstruction: the generated structure's values plus
// one caller-supplied value per excluded field.
// ---------------------------------------------------------------------------
/// How many of a routine's entries take a caller-supplied parameter.
pub open spec fn spec_param_count(convs: Seq<ConvEntryV>) -> int
    decreases convs.len(),
{
    if convs.len() == 0 {
        0int
    } else {
        spec_param_count(convs.drop_first()) + if convs[0].conv is FromParam {
            1int
        } else {
            0int
        }
    }
}

pub proof fn lemma_param_count_bounds(convs: Seq<ConvEntryV>)
    ensures
        0 <= spec_param_count(convs) <= convs.len(),
    decreases convs.len(),
{
    if convs.len() > 0 {
        lemma_param_count_bounds(convs.drop_first());
    }
}

pub proof fn lemma_param_count_split(convs: Seq<ConvEntryV>, j: int)
    requires
        0 <= j <= convs.len(),
    ensures
        spec_param_count(convs) == spec_param_count(convs.take(j)) + spec_param_count(
            convs.skip(j),
        ),
    decreases j,
{
    if j == 0 {
        assert(convs.take(0) =~= Seq::<ConvEntryV>::empty());
        assert(convs.skip(0) =~= convs);
    } else {
        lemma_param_count_split(convs, j - 1);
        let s = convs.skip(j - 1);
        assert(s[0] == convs[j - 1]);
        assert(s.drop_first() =~= convs.skip(j));
        assert(spec_param_count(s) == spec_param_count(convs.skip(j)) + if convs[j
            - 1].conv is FromParam {
            1int
        } else {
            0int
        });
        lemma_param_count_snoc(convs.take(j - 1), convs[j - 1]);
        assert(convs.take(j - 1).push(convs[j - 1]) =~= convs.take(j));
    }
}

pub proof fn lemma_param_count_snoc(convs: Seq<ConvEntryV>, e: ConvEntryV)
    ensures
        spec_param_count(convs.push(e)) == spec_param_count(convs) + if e.conv is FromParam {
            1int
        } else {
            0int
        },
    decreases convs.len(),
{
    let p = convs.push(e);
    assert(spec_param_count(p) == spec_param_count(p.drop_first()) + if p[0].conv is FromParam {
        1int
    } else {
        0int
    });
    if convs.len() == 0 {
        assert(p[0] == e);
        assert(p.drop_first() =~= Seq::<ConvEntryV>::empty());
        assert(spec_param_count(p.drop_first()) == 0);
    } else {
        assert(p[0] == convs[0]);
        assert(p.drop_first() =~= convs.drop_first().push(e));
        lemma_param_count_snoc(convs.drop_first(), e);
        assert(spec_param_count(convs) == spec_param_count(convs.drop_first()) + if convs[0].conv
            is FromParam {
            1int
        } else {
            0int
        });
    }
}

/// The full input record of a reconstruction: the generated structure's
/// values, with the caller-supplied parameters spliced in at the excluded
/// fields' positions, in order.
pub open spec fn spec_merge_inputs(
    convs: Seq<ConvEntryV>,
    gen: Seq<FieldValV>,
    params: Seq<FieldValV>,
) -> Seq<FieldValV>
    decreases convs.len(),
{
    if convs.len() == 0 {
        Seq::empty()
    } else if convs[0].conv is FromParam {
        seq![params[0]] + spec_merge_inputs(convs.drop_first(), gen, params.drop_first())
    } else {
        seq![gen[0]] + spec_merge_inputs(convs.drop_first(), gen.drop_first(), params)
    }
}

pub proof fn lemma_merge_inputs_len(
    convs: Seq<ConvEntryV>,
    gen: Seq<FieldValV>,
    params: Seq<FieldValV>,
)
    ensures
        spec_merge_inputs(convs, gen, params).len() == convs.len(),
    decreases convs.len(),
{
    if convs.len() > 0 {
        if convs[0].conv is FromParam {
            lemma_merge_inputs_len(convs.drop_first(), gen, params.drop_first());
        } else {
            lemma_merge_inputs_len(convs.drop_first(), gen.drop_first(), params);
        }
    }
}

/// Build the full input record of a reconstruction.
fn merge_inputs(convs: &Vec<ConvEntry>, gen: &Vec<FieldVal>, params: &Vec<FieldVal>) -> (r: Vec<
    FieldVal,
>)
    requires
        params@.len() == spec_param_count(convs_view(convs@)),
        gen@.len() == convs@.len() - spec_param_count(convs_view(convs@)),
    ensures
        record_view(r@) == spec_merge_inputs(
            convs_view(convs@),
            record_view(gen@),
            record_view(params@),
        ),
{
    let ghost cv = convs_view(convs@);
    let ghost gv = record_view(gen@);
    let ghost pv = record_view(params@);
    let mut out: Vec<FieldVal> = Vec::new();
    let mut gi: usize = 0;
    let mut pi: usize = 0;
    let n = convs.len();
    proof {
        assert(cv.skip(0) =~= cv);
        assert(gv.skip(0) =~= gv);
        assert(pv.skip(0) =~= pv);
        assert(record_view(out@) =~= Seq::<FieldValV>::empty());
        assert(cv.take(0) =~= Seq::<ConvEntryV>::empty());
    }
    for i in 0..n
        invariant
            n == convs@.len(),
            cv == convs_view(convs@),
            gv == record_view(gen@),
            pv == record_view(params@),
            pv.len() == spec_param_count(cv),
            gv.len() == cv.len() - spec_param_count(cv),
            gi + pi == i,
            pi == spec_param_count(cv.take(i as int)),
            spec_merge_inputs(cv, gv, pv) == record_view(out@) + spec_merge_inputs(
                cv.skip(i as int),
                gv.skip(gi as int),
                pv.skip(pi as int),
            ),
    {
        proof {
            assert(cv[i as int] == convs@[i as int]@);
            assert(cv.skip(i as int)[0] == cv[i as int]);
            assert(cv.skip(i as int).drop_first() =~= cv.skip(i + 1 as int));
            lemma_param_count_split(cv, i as int);
            lemma_param_count_bounds(cv.skip(i as int));
            lemma_param_count_bounds(cv.skip(i + 1 as int));
            assert(cv.skip(i as int).drop_first() =~= cv.skip(i + 1 as int));
            assert(spec_param_count(cv.skip(i as int)) == spec_param_count(cv.skip(i + 1 as int))
                + if cv[i as int].conv is FromParam {
                1int
            } else {
                0int
            });
            lemma_param_count_snoc(cv.take(i as int), cv[i as int]);
            assert(cv.take(i as int).push(cv[i as int]) =~= cv.take(i + 1 as int));
        }
        let is_param = matches!(&convs[i].conv, FieldConv::FromParam);
        if is_param {
            proof {
                assert(pi < pv.len());
                assert(pv.skip(pi as int)[0] == pv[pi as int]);
                assert(pv.skip(pi as int).drop_first() =~= pv.skip(pi + 1 as int));
            }
            let ghost prev = out@;
            let ghost v_view = params@[pi as int]@;
            out.push(params[pi].dup());
            pi = pi + 1;
            proof {
                assert(record_view(out@) =~= record_view(prev).push(v_view));
                assert(record_view(prev) + (seq![v_view] + spec_merge_inputs(
                    cv.skip(i + 1 as int),
                    gv.skip(gi as int),
                    pv.skip(pi as int),
                )) =~= record_view(out@) + spec_merge_inputs(
                    cv.skip(i + 1 as int),
                    gv.skip(gi as int),
                    pv.skip(pi as int),
                ));
            }
        } else {
            proof {
                assert(gi < gv.len());
                assert(gv.skip(gi as int)[0] == gv[gi as int]);
                assert(gv.skip(gi as int).drop_first() =~= gv.skip(gi + 1 as int));
            }
            let ghost prev = out@;
            let ghost v_view = gen@[gi as int]@;
            out.push(gen[gi].dup());
            gi = gi + 1;
            proof {
                assert(record_view(out@) =~= record_view(prev).push(v_view));
                assert(record_view(prev) + (seq![v_view] + spec_merge_inputs(
                    cv.skip(i + 1 as int),
                    gv.skip(gi as int),
                    pv.skip(pi as int),
                )) =~= record_view(out@) + spec_merge_inputs(
                    cv.skip(i + 1 as int),
                    gv.skip(gi as int),
                    pv.skip(pi as int),
                ));
            }
        }
    }
    proof {
        lemma_param_count_split(cv, n as int);
        assert(cv.skip(n as int) =~= Seq::<ConvEntryV>::empty());
        assert(cv.take(n as int) =~= cv);
        assert(gi as int == gv.len());
        assert(pi as int == pv.len());
        assert(spec_merge_inputs(
            cv.skip(n as int),
            gv.skip(gi as int),
            pv.skip(pi as int),
        ) =~= Seq::<FieldValV>::empty());
        assert(record_view(out@) + Seq::<FieldValV>::empty() =~= record_view(out@));
    }
    out
}

/// Apply a reconstruction: the generated structure's values plus one
/// caller-supplied value per excluded field, in source order, give the
/// original structure's values; a transformed value that is absent and
/// has no custom default fails, naming its field.
pub fn apply_reconstruction(
    convs: &Vec<ConvEntry>,
    gen: &Vec<FieldVal>,
    params: &Vec<FieldVal>,
    kinds: &Vec<ValueKind>,
) -> (r: Result<Vec<FieldVal>, UnwrappedError>)
    requires
        params@.len() == spec_param_count(convs_view(convs@)),
        gen@.len() == convs@.len() - spec_param_count(convs_view(convs@)),
        kinds@.len() == convs@.len(),
        forall|i: int|
            0 <= i < convs@.len() ==> spec_conv_input_ok(
                (#[trigger] convs@[i])@.conv,
                spec_merge_inputs(
                    convs_view(convs@),
                    record_view(gen@),
                    record_view(params@),
                )[i],
            ),
    ensures
        match r {
            Ok(out) => spec_apply_routine(
                convs_view(convs@),
                spec_merge_inputs(convs_view(convs@), record_view(gen@), record_view(params@)),
                kinds@,
            ) == Ok::<Seq<FieldValV>, Seq<char>>(record_view(out@)),
            Err(e) => spec_apply_routine(
                convs_view(convs@),
                spec_merge_inputs(convs_view(convs@), record_view(gen@), record_view(params@)),
                kinds@,
            ) == Err::<Seq<FieldValV>, Seq<char>>(e.field_name@),
        },
{
    proof {
        lemma_merge_inputs_len(convs_view(convs@), record_view(gen@), record_view(params@));
    }
    let merged = merge_inputs(convs, gen, params);
    apply_routine(convs, &merged, kinds)
}

} // verus!
