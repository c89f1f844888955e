use vstd::prelude::*;

use crate::artifact::{ConvEntryV, FieldConvV};
use crate::convert::{lemma_param_count_snoc, spec_apply_routine, spec_conv_value, spec_param_count};
use crate::model::FieldDefV;
use crate::utils::{CommonOptsV, ProcUsageOptsV, spec_generate_ident};
use crate::unwrapped::{
    spec_excluded_params, spec_unwrap_disposition, spec_unwrap_fallible, spec_unwrap_inverse,
    spec_unwrap_recon_fields,
};
use crate::values::{FieldValV, ValueKind};
use crate::wrapped::spec_wrap_recon_fields;

verus! {

// ---------------------------------------------------------------------------
// Laws of the library, stated over the same spec functions the engine's
// contracts use.
// ---------------------------------------------------------------------------
/// A routine whose actions all succeed produces one value per entry, in
/// order.
pub proof fn lemma_apply_routine_pointwise(
    convs: Seq<ConvEntryV>,
    rec: Seq<FieldValV>,
    kinds: Seq<ValueKind>,
)
    requires
        convs.len() == rec.len(),
        convs.len() == kinds.len(),
        forall|i: int|
            0 <= i < convs.len() ==> spec_conv_value(
                (#[trigger] convs[i]).conv,
                rec[i],
                kinds[i],
            ) is Some,
    ensures
        spec_apply_routine(convs, rec, kinds) == Ok::<Seq<FieldValV>, Seq<char>>(
            Seq::new(convs.len(), |i: int| spec_conv_value(convs[i].conv, rec[i], kinds[i])->0),
        ),
    decreases convs.len(),
{
    if convs.len() == 0 {
        assert(Seq::new(
            convs.len(),
            |i: int| spec_conv_value(convs[i].conv, rec[i], kinds[i])->0,
        ) =~= Seq::<FieldValV>::empty());
    } else {
        lemma_apply_routine_pointwise(convs.drop_first(), rec.drop_first(), kinds.drop_first());
        assert forall|i: int| 0 <= i < convs.drop_first().len() implies spec_conv_value(
            (#[trigger] convs.drop_first()[i]).conv,
            rec.drop_first()[i],
            kinds.drop_first()[i],
        ) is Some by {
            assert(convs.drop_first()[i] == convs[i + 1]);
        }
        let v0 = spec_conv_value(convs[0].conv, rec[0], kinds[0])->0;
        let tail = Seq::new(
            convs.drop_first().len(),
            |i: int| spec_conv_value(
                convs.drop_first()[i].conv,
                rec.drop_first()[i],
                kinds.drop_first()[i],
            )->0,
        );
        assert(seq![v0] + tail =~= Seq::new(
            convs.len(),
            |i: int| spec_conv_value(convs[i].conv, rec[i], kinds[i])->0,
        ));
    }
}

/// A routine with a failing action fails, and the reported name is the
/// name of the first entry whose action fails.
pub proof fn lemma_apply_routine_first_failure(
    convs: Seq<ConvEntryV>,
    rec: Seq<FieldValV>,
    kinds: Seq<ValueKind>,
)
    requires
        convs.len() == rec.len(),
        convs.len() == kinds.len(),
        exists|i: int|
            0 <= i < convs.len() && spec_conv_value(
                (#[trigger] convs[i]).conv,
                rec[i],
                kinds[i],
            ) is None,
    ensures
        spec_apply_routine(convs, rec, kinds) is Err,
        exists|i: int|
            0 <= i < convs.len() && spec_conv_value((#[trigger] convs[i]).conv, rec[i], kinds[i])
                is None && (forall|j: int|
                0 <= j < i ==> spec_conv_value(
                    (#[trigger] convs[j]).conv,
                    rec[j],
                    kinds[j],
                ) is Some) && spec_apply_routine(convs, rec, kinds)->Err_0 == convs[i].name,
    decreases convs.len(),
{
    if spec_conv_value(convs[0].conv, rec[0], kinds[0]) is None {
        assert(spec_apply_routine(convs, rec, kinds) == Err::<Seq<FieldValV>, Seq<char>>(
            convs[0].name,
        ));
        assert(0 <= 0 < convs.len() && spec_conv_value(convs[0].conv, rec[0], kinds[0]) is None
            && (forall|j: int|
            0 <= j < 0 ==> spec_conv_value((#[trigger] convs[j]).conv, rec[j], kinds[j]) is Some)
            && spec_apply_routine(convs, rec, kinds)->Err_0 == convs[0].name);
    } else {
        let w = choose|i: int|
            0 <= i < convs.len() && spec_conv_value(
                (#[trigger] convs[i]).conv,
                rec[i],
                kinds[i],
            ) is None;
        assert(w != 0);
        assert(convs.drop_first()[w - 1] == convs[w]);
        assert(spec_conv_value(
            convs.drop_first()[w - 1].conv,
            rec.drop_first()[w - 1],
            kinds.drop_first()[w - 1],
        ) is None);
        lemma_apply_routine_first_failure(
            convs.drop_first(),
            rec.drop_first(),
            kinds.drop_first(),
        );
        let i2 = choose|i: int|
            0 <= i < convs.drop_first().len() && spec_conv_value(
                (#[trigger] convs.drop_first()[i]).conv,
                rec.drop_first()[i],
                kinds.drop_first()[i],
            ) is None && (forall|j: int|
                0 <= j < i ==> spec_conv_value(
                    (#[trigger] convs.drop_first()[j]).conv,
                    rec.drop_first()[j],
                    kinds.drop_first()[j],
                ) is Some) && spec_apply_routine(
                convs.drop_first(),
                rec.drop_first(),
                kinds.drop_first(),
            )->Err_0 == convs.drop_first()[i].name;
        let i = i2 + 1;
        assert(convs.drop_first()[i2] == convs[i]);
        assert forall|j: int| 0 <= j < i implies spec_conv_value(
            (#[trigger] convs[j]).conv,
            rec[j],
            kinds[j],
        ) is Some by {
            if j > 0 {
                assert(convs.drop_first()[j - 1] == convs[j]);
            }
        }
        assert(spec_apply_routine(convs, rec, kinds)->Err_0 == convs[i].name);
        assert(0 <= i < convs.len() && spec_conv_value(convs[i].conv, rec[i], kinds[i]) is None
            && (forall|j: int|
            0 <= j < i ==> spec_conv_value((#[trigger] convs[j]).conv, rec[j], kinds[j]) is Some)
            && spec_apply_routine(convs, rec, kinds)->Err_0 == convs[i].name);
    }
}

/// With no excluded field, the fallible routine has one entry per field,
/// in order: unwrap-or-fail for transformed fields, pass-through for
/// unchanged ones.
pub proof fn lemma_unwrap_fallible_entries(fields: Seq<FieldDefV>, usage: ProcUsageOptsV)
    requires
        forall|i: int| 0 <= i < fields.len() ==> !(#[trigger] fields[i]).skip,
    ensures
        spec_unwrap_fallible(fields, usage).len() == fields.len(),
        forall|i: int|
            0 <= i < fields.len() ==> spec_unwrap_fallible(fields, usage)[i] == (ConvEntryV {
                name: (#[trigger] fields[i]).name,
                conv: if spec_unwrap_disposition(fields[i], usage) is Transformed {
                    FieldConvV::UnwrapOrFail
                } else {
                    FieldConvV::PassThrough
                },
            }),
    decreases fields.len(),
{
    if fields.len() > 0 {
        assert forall|i: int| 0 <= i < fields.drop_last().len() implies !(
        #[trigger] fields.drop_last()[i]).skip by {
            assert(fields.drop_last()[i] == fields[i]);
        }
        lemma_unwrap_fallible_entries(fields.drop_last(), usage);
        assert(!fields.last().skip);
        assert forall|i: int| 0 <= i < fields.len() implies spec_unwrap_fallible(
            fields,
            usage,
        )[i] == (ConvEntryV {
            name: (#[trigger] fields[i]).name,
            conv: if spec_unwrap_disposition(fields[i], usage) is Transformed {
                FieldConvV::UnwrapOrFail
            } else {
                FieldConvV::PassThrough
            },
        }) by {
            if i < fields.len() - 1 {
                assert(fields.drop_last()[i] == fields[i]);
            }
        }
    }
}

/// With no excluded field, the inverse routine has one entry per field,
/// in order: wrap for transformed fields, pass-through for unchanged ones.
pub proof fn lemma_unwrap_inverse_entries(fields: Seq<FieldDefV>, usage: ProcUsageOptsV)
    requires
        forall|i: int| 0 <= i < fields.len() ==> !(#[trigger] fields[i]).skip,
    ensures
        spec_unwrap_inverse(fields, usage).len() == fields.len(),
        forall|i: int|
            0 <= i < fields.len() ==> spec_unwrap_inverse(fields, usage)[i] == (ConvEntryV {
                name: (#[trigger] fields[i]).name,
                conv: if spec_unwrap_disposition(fields[i], usage) is Transformed {
                    FieldConvV::WrapSome
                } else {
                    FieldConvV::PassThrough
                },
            }),
    decreases fields.len(),
{
    if fields.len() > 0 {
        assert forall|i: int| 0 <= i < fields.drop_last().len() implies !(
        #[trigger] fields.drop_last()[i]).skip by {
            assert(fields.drop_last()[i] == fields[i]);
        }
        lemma_unwrap_inverse_entries(fields.drop_last(), usage);
        assert(!fields.last().skip);
        assert forall|i: int| 0 <= i < fields.len() implies spec_unwrap_inverse(
            fields,
            usage,
        )[i] == (ConvEntryV {
            name: (#[trigger] fields[i]).name,
            conv: if spec_unwrap_disposition(fields[i], usage) is Transformed {
                FieldConvV::WrapSome
            } else {
                FieldConvV::PassThrough
            },
        }) by {
            if i < fields.len() - 1 {
                assert(fields.drop_last()[i] == fields[i]);
            }
        }
    }
}

/// Round trip: for a structure with no excluded fields, converting an
/// original record through the fallible routine and back through the
/// inverse direct routine reproduces the record exactly, whenever every
/// transformed field was present in it.
pub proof fn lemma_unwrap_round_trip(
    fields: Seq<FieldDefV>,
    usage: ProcUsageOptsV,
    rec: Seq<FieldValV>,
    kinds: Seq<ValueKind>,
)
    requires
        rec.len() == fields.len(),
        kinds.len() == fields.len(),
        forall|i: int| 0 <= i < fields.len() ==> !(#[trigger] fields[i]).skip,
        forall|i: int|
            0 <= i < fields.len() ==> (spec_unwrap_disposition(#[trigger] fields[i], usage)
                is Transformed ==> rec[i] is Opt && rec[i]->Opt_0 is Some),
    ensures
        spec_apply_routine(spec_unwrap_fallible(fields, usage), rec, kinds) is Ok,
        spec_apply_routine(
            spec_unwrap_inverse(fields, usage),
            spec_apply_routine(spec_unwrap_fallible(fields, usage), rec, kinds)->Ok_0,
            kinds,
        ) == Ok::<Seq<FieldValV>, Seq<char>>(rec),
{
    let fal = spec_unwrap_fallible(fields, usage);
    let inv = spec_unwrap_inverse(fields, usage);
    lemma_unwrap_fallible_entries(fields, usage);
    lemma_unwrap_inverse_entries(fields, usage);
    assert forall|i: int| 0 <= i < fal.len() implies spec_conv_value(
        (#[trigger] fal[i]).conv,
        rec[i],
        kinds[i],
    ) is Some by {
        assert(fal[i].conv == if spec_unwrap_disposition(fields[i], usage) is Transformed {
            FieldConvV::UnwrapOrFail
        } else {
            FieldConvV::PassThrough
        });
    }
    lemma_apply_routine_pointwise(fal, rec, kinds);
    let mid = Seq::new(fal.len(), |i: int| spec_conv_value(fal[i].conv, rec[i], kinds[i])->0);
    assert forall|i: int| 0 <= i < inv.len() implies spec_conv_value(
        (#[trigger] inv[i]).conv,
        mid[i],
        kinds[i],
    ) is Some by {
        assert(mid[i] == spec_conv_value(fal[i].conv, rec[i], kinds[i])->0);
        if spec_unwrap_disposition(fields[i], usage) is Transformed {
            assert(rec[i] is Opt && rec[i]->Opt_0 is Some);
            assert(mid[i] == FieldValV::Req(rec[i]->Opt_0->0));
        }
    }
    lemma_apply_routine_pointwise(inv, mid, kinds);
    assert forall|i: int| 0 <= i < inv.len() implies spec_conv_value(
        (#[trigger] inv[i]).conv,
        mid[i],
        kinds[i],
    )->0 == rec[i] by {
        assert(mid[i] == spec_conv_value(fal[i].conv, rec[i], kinds[i])->0);
        if spec_unwrap_disposition(fields[i], usage) is Transformed {
            assert(rec[i] is Opt && rec[i]->Opt_0 is Some);
            assert(mid[i] == FieldValV::Req(rec[i]->Opt_0->0));
            assert(spec_conv_value(inv[i].conv, mid[i], kinds[i])->0 == FieldValV::Opt(
                Some(rec[i]->Opt_0->0),
            ));
            assert(rec[i] == FieldValV::Opt(rec[i]->Opt_0));
        }
    }
    assert(Seq::new(inv.len(), |i: int| spec_conv_value(inv[i].conv, mid[i], kinds[i])->0)
        =~= rec);
}

/// Failure naming: for a structure with no excluded fields, when some
/// transformed field is absent from the input record, the fallible
/// routine fails and reports the name of the first such field.
pub proof fn lemma_unwrap_fallible_names_first_absent(
    fields: Seq<FieldDefV>,
    usage: ProcUsageOptsV,
    rec: Seq<FieldValV>,
    kinds: Seq<ValueKind>,
)
    requires
        rec.len() == fields.len(),
        kinds.len() == fields.len(),
        forall|i: int| 0 <= i < fields.len() ==> !(#[trigger] fields[i]).skip,
        forall|i: int|
            0 <= i < fields.len() ==> (spec_unwrap_disposition(#[trigger] fields[i], usage)
                is Transformed ==> rec[i] is Opt),
        exists|i: int|
            0 <= i < fields.len() && spec_unwrap_disposition(#[trigger] fields[i], usage)
                is Transformed && rec[i]->Opt_0 is None,
    ensures
        spec_apply_routine(spec_unwrap_fallible(fields, usage), rec, kinds) is Err,
        exists|i: int|
            0 <= i < fields.len() && spec_unwrap_disposition(#[trigger] fields[i], usage)
                is Transformed && rec[i]->Opt_0 is None && (forall|j: int|
                0 <= j < i ==> !(spec_unwrap_disposition(#[trigger] fields[j], usage)
                    is Transformed && rec[j]->Opt_0 is None)) && spec_apply_routine(
                spec_unwrap_fallible(fields, usage),
                rec,
                kinds,
            )->Err_0 == fields[i].name,
{
    let fal = spec_unwrap_fallible(fields, usage);
    lemma_unwrap_fallible_entries(fields, usage);
    let w = choose|i: int|
        0 <= i < fields.len() && spec_unwrap_disposition(#[trigger] fields[i], usage)
            is Transformed && rec[i]->Opt_0 is None;
    assert(spec_conv_value(fal[w].conv, rec[w], kinds[w]) is None);
    lemma_apply_routine_first_failure(fal, rec, kinds);
    let i = choose|i: int|
        0 <= i < fal.len() && spec_conv_value((#[trigger] fal[i]).conv, rec[i], kinds[i]) is None
            && (forall|j: int|
            0 <= j < i ==> spec_conv_value((#[trigger] fal[j]).conv, rec[j], kinds[j]) is Some)
            && spec_apply_routine(fal, rec, kinds)->Err_0 == fal[i].name;
    assert(spec_unwrap_disposition(fields[i], usage) is Transformed && rec[i]->Opt_0 is None);
    assert forall|j: int| 0 <= j < i implies !(spec_unwrap_disposition(
        #[trigger] fields[j],
        usage,
    ) is Transformed && rec[j]->Opt_0 is None) by {
        assert(spec_conv_value(fal[j].conv, rec[j], kinds[j]) is Some);
    }
    assert(0 <= i < fields.len() && spec_unwrap_disposition(fields[i], usage) is Transformed
        && rec[i]->Opt_0 is None && (forall|j: int|
        0 <= j < i ==> !(spec_unwrap_disposition(#[trigger] fields[j], usage) is Transformed
            && rec[j]->Opt_0 is None)) && spec_apply_routine(fal, rec, kinds)->Err_0
        == fields[i].name);
}

/// Identifier synthesis is a pure function: identical inputs give
/// identical identifiers.
pub proof fn lemma_ident_synthesis_deterministic(
    opts1: CommonOptsV,
    opts2: CommonOptsV,
    original1: Seq<char>,
    original2: Seq<char>,
    fallback1: Seq<char>,
    fallback2: Seq<char>,
)
    requires
        opts1 == opts2,
        original1 == original2,
        fallback1 == fallback2,
    ensures
        spec_generate_ident(opts1, original1, fallback1) == spec_generate_ident(
            opts2,
            original2,
            fallback2,
        ),
{
}

/// Collision guarantee: with no name override, prefix or suffix set, the
/// synthesized identifier never equals the source identifier, for any
/// non-empty fallback suffix.
pub proof fn lemma_ident_synthesis_avoids_collision(
    opts: CommonOptsV,
    original: Seq<char>,
    fallback: Seq<char>,
)
    requires
        opts.name is None,
        opts.prefix is None,
        opts.suffix is None,
        fallback.len() > 0,
    ensures
        spec_generate_ident(opts, original, fallback) != original,
{
    let candidate = Seq::<char>::empty() + original + Seq::<char>::empty();
    assert(candidate =~= original);
    assert(spec_generate_ident(opts, original, fallback) == original + fallback);
    assert((original + fallback).len() == original.len() + fallback.len());
}

/// Exclusion invariant, parameter side: the reconstruction asks for
/// exactly one caller-supplied value per excluded field, in source order,
/// in both directions.  (That the infallible inverse conversion is absent
/// as soon as a field is excluded is part of the generation entry points'
/// contracts.)
pub proof fn lemma_reconstruction_param_for_each_excluded(
    fields: Seq<FieldDefV>,
    usage: ProcUsageOptsV,
)
    ensures
        spec_param_count(spec_unwrap_recon_fields(fields, usage)) == spec_excluded_params(
            fields,
        ).len(),
        spec_param_count(spec_wrap_recon_fields(fields, usage)) == spec_excluded_params(
            fields,
        ).len(),
    decreases fields.len(),
{
    if fields.len() > 0 {
        lemma_reconstruction_param_for_each_excluded(fields.drop_last(), usage);
        lemma_param_count_snoc(
            spec_unwrap_recon_fields(fields.drop_last(), usage),
            spec_unwrap_recon_fields(fields, usage).last(),
        );
        lemma_param_count_snoc(
            spec_wrap_recon_fields(fields.drop_last(), usage),
            spec_wrap_recon_fields(fields, usage).last(),
        );
    }
}

} // verus!
