//! Properties of the model catalogue that hold across its operations.
use vstd::prelude::*;

use crate::text::{basename_outcome, contains, ends_with, starts_with};

use crate::model_manager::{
    compatible_spec, entry_outcomes, first_entry_error, installed_entry_spec, installed_models_outcome,
    installed_outcome, is_model_entry, present, with_name, CacheEntry, CacheListing,
    curated_models_spec, dedup_file_names, has_file_name, lemma_dedup_last, lex_le,
    merge_installed_spec, resolve_url_spec, search_found, sorted_by_name, stably_sorted_by_name,
    HfModel, SummaryView, WhisperModelSource,
};

verus! {

/// No two neighbouring models share a file name.
pub open spec fn no_adjacent_repeats(s: Seq<SummaryView>) -> bool {
    forall|i: int| 0 <= i < s.len() - 1 ==> #[trigger] s[i].file_name != s[i + 1].file_name
}

proof fn lemma_dedup_members(s: Seq<SummaryView>)
    ensures
        forall|i: int|
            0 <= i < dedup_file_names(s).len() ==> exists|j: int|
                0 <= j < s.len() && #[trigger] dedup_file_names(s)[i] == s[j],
        dedup_file_names(s).len() <= s.len(),
    decreases s.len(),
{
    if s.len() > 1 {
        let p = s.drop_last();
        lemma_dedup_members(p);
        let d = dedup_file_names(p);
        assert forall|i: int| 0 <= i < dedup_file_names(s).len() implies exists|j: int|
            0 <= j < s.len() && #[trigger] dedup_file_names(s)[i] == s[j] by {
            if i < d.len() {
                let j = choose|j: int| 0 <= j < p.len() && d[i] == p[j];
                assert(s[j] == p[j]);
            } else {
                assert(dedup_file_names(s)[i] == s[s.len() - 1]);
            }
        }
    }
}

proof fn lemma_dedup_sorted(s: Seq<SummaryView>)
    requires
        sorted_by_name(s),
    ensures
        sorted_by_name(dedup_file_names(s)),
        no_adjacent_repeats(dedup_file_names(s)),
    decreases s.len(),
{
    if s.len() > 1 {
        let p = s.drop_last();
        assert(sorted_by_name(p));
        lemma_dedup_sorted(p);
        lemma_dedup_members(p);
        lemma_dedup_last(p);
        let d = dedup_file_names(p);
        if s[s.len() - 2].file_name != s.last().file_name {
            let r = d.push(s.last());
            assert(dedup_file_names(s) == r);
            assert forall|i: int, j: int| 0 <= i < j < r.len() implies lex_le(
                r[i].name,
                r[j].name,
            ) by {
                if j == r.len() - 1 {
                    let k = choose|k: int| 0 <= k < p.len() && d[i] == p[k];
                    assert(s[k] == p[k]);
                } else {
                    assert(r[i] == d[i] && r[j] == d[j]);
                }
            }
            assert forall|i: int| 0 <= i < r.len() - 1 implies #[trigger] r[i].file_name != r[i
                + 1].file_name by {
                if i == r.len() - 2 {
                    assert(r[i] == d.last());
                } else {
                    assert(r[i] == d[i] && r[i + 1] == d[i + 1]);
                }
            }
        }
    }
}

/// Search results are at most 25 models, sorted by name, and no two
/// neighbouring results share a file name.
pub proof fn law_search_results_shape(ms: Seq<HfModel>, found: Seq<SummaryView>)
    requires
        search_found(ms, found),
    ensures
        found.len() <= 25,
        sorted_by_name(found),
        no_adjacent_repeats(found),
{
    let (outs, sorted) = choose|outs: Seq<Option<SummaryView>>, sorted: Seq<SummaryView>|
        {
            &&& outs.len() == crate::model_manager::search_entries(ms).len()
            &&& forall|i: int|
                0 <= i < outs.len() ==> #[trigger] crate::model_manager::candidate_outcome(
                    crate::model_manager::search_entries(ms)[i],
                    outs[i],
                )
            &&& stably_sorted_by_name(crate::model_manager::present(outs), sorted)
            &&& found == {
                let d = dedup_file_names(sorted);
                d.subrange(0, if 25 < d.len() { 25 } else { d.len() as int })
            }
        };
    lemma_dedup_sorted(sorted);
    let d = dedup_file_names(sorted);
    assert forall|i: int| 0 <= i < found.len() - 1 implies #[trigger] found[i].file_name
        != found[i + 1].file_name by {
        assert(found[i] == d[i] && found[i + 1] == d[i + 1]);
    }
}

proof fn lemma_merge_prefix(models: Seq<SummaryView>, installed: Seq<SummaryView>)
    ensures
        merge_installed_spec(models, installed).len() >= models.len(),
        merge_installed_spec(models, installed).subrange(0, models.len() as int) == models,
    decreases installed.len(),
{
    if installed.len() > 0 {
        lemma_merge_prefix(models, installed.drop_last());
        let m = merge_installed_spec(models, installed.drop_last());
        assert(m.push(installed.last()).subrange(0, models.len() as int) =~= m.subrange(
            0,
            models.len() as int,
        ));
    }
}

proof fn lemma_merge_covers(models: Seq<SummaryView>, installed: Seq<SummaryView>)
    ensures
        forall|i: int|
            0 <= i < installed.len() ==> has_file_name(
                merge_installed_spec(models, installed),
                #[trigger] installed[i].file_name,
            ),
        forall|i: int|
            0 <= i < models.len() ==> has_file_name(
                merge_installed_spec(models, installed),
                #[trigger] models[i].file_name,
            ),
    decreases installed.len(),
{
    lemma_merge_prefix(models, installed);
    let r = merge_installed_spec(models, installed);
    assert forall|i: int| 0 <= i < models.len() implies has_file_name(
        r,
        #[trigger] models[i].file_name,
    ) by {
        assert(r.subrange(0, models.len() as int)[i] == r[i]);
        assert(r[i].file_name == models[i].file_name);
    }
    if installed.len() > 0 {
        let p = installed.drop_last();
        lemma_merge_covers(models, p);
        let m = merge_installed_spec(models, p);
        assert forall|i: int| 0 <= i < installed.len() implies has_file_name(
            r,
            #[trigger] installed[i].file_name,
        ) by {
            if i < p.len() {
                assert(p[i] == installed[i]);
                assert(has_file_name(m, p[i].file_name));
                let k = choose|k: int| 0 <= k < m.len() && #[trigger] m[k].file_name
                    == p[i].file_name;
                if !has_file_name(m, installed.last().file_name) {
                    assert(r[k] == m[k]);
                }
            } else {
                if !has_file_name(m, installed.last().file_name) {
                    assert(r[m.len() as int] == installed.last());
                }
            }
        }
    }
}

proof fn lemma_merge_no_new_repeats(models: Seq<SummaryView>, installed: Seq<SummaryView>)
    ensures
        forall|i: int, j: int|
            models.len() <= j < merge_installed_spec(models, installed).len() && 0 <= i < j
                ==> #[trigger] merge_installed_spec(models, installed)[i].file_name
                != #[trigger] merge_installed_spec(models, installed)[j].file_name,
    decreases installed.len(),
{
    if installed.len() > 0 {
        let p = installed.drop_last();
        lemma_merge_no_new_repeats(models, p);
        lemma_merge_prefix(models, p);
        let m = merge_installed_spec(models, p);
        let r = merge_installed_spec(models, installed);
        if !has_file_name(m, installed.last().file_name) {
            assert forall|i: int, j: int|
                models.len() <= j < r.len() && 0 <= i < j implies #[trigger] r[i].file_name
                != #[trigger] r[j].file_name by {
                if j == r.len() - 1 {
                    assert(r[i] == m[i]);
                    assert(r[j] == installed.last());
                } else {
                    assert(r[i] == m[i] && r[j] == m[j]);
                }
            }
        }
    }
}

/// Listing the catalogue keeps the curated models first, in their order,
/// lists every file name of the installed models, and adds no model whose
/// file name is already listed.
pub proof fn law_catalogue_merge(models: Seq<SummaryView>, installed: Seq<SummaryView>)
    ensures
        merge_installed_spec(models, installed).subrange(0, models.len() as int) == models,
        forall|i: int|
            0 <= i < installed.len() ==> has_file_name(
                merge_installed_spec(models, installed),
                #[trigger] installed[i].file_name,
            ),
        forall|i: int, j: int|
            models.len() <= j < merge_installed_spec(models, installed).len() && 0 <= i < j
                ==> #[trigger] merge_installed_spec(models, installed)[i].file_name
                != #[trigger] merge_installed_spec(models, installed)[j].file_name,
{
    lemma_merge_prefix(models, installed);
    lemma_merge_covers(models, installed);
    lemma_merge_no_new_repeats(models, installed);
}


/// The curated models: `large-v3-turbo-q5_0` (the recommended one) first,
/// then `base.en`, `small.en` and `medium.en`; each is kept in the file named
/// after its identifier with `.bin`, comes from the whisper.cpp repository's
/// `ggml-` file of that name, and is neither installed nor located before
/// the cache is looked at.
pub proof fn law_curated_models_shape()
    ensures
        curated_models_spec().len() == 4,
        curated_models_spec()[0].id == "large-v3-turbo-q5_0"@,
        curated_models_spec()[1].id == "base.en"@,
        curated_models_spec()[2].id == "small.en"@,
        curated_models_spec()[3].id == "medium.en"@,
        forall|i: int|
            0 <= i < 4 ==> {
                let m = #[trigger] curated_models_spec()[i];
                &&& m.file_name == m.id + ".bin"@
                &&& m.source == WhisperModelSource::Curated
                &&& !m.installed
                &&& m.path is None
                &&& m.url == Some(
                    resolve_url_spec("ggerganov/whisper.cpp"@, "ggml-"@ + m.file_name),
                )
            },
{
    reveal_strlit("large-v3-turbo-q5_0");
    reveal_strlit("large-v3-turbo-q5_0.bin");
    reveal_strlit("ggml-large-v3-turbo-q5_0.bin");
    reveal_strlit("base.en");
    reveal_strlit("base.en.bin");
    reveal_strlit("ggml-base.en.bin");
    reveal_strlit("small.en");
    reveal_strlit("small.en.bin");
    reveal_strlit("ggml-small.en.bin");
    reveal_strlit("medium.en");
    reveal_strlit("medium.en.bin");
    reveal_strlit("ggml-medium.en.bin");
    reveal_strlit(".bin");
    reveal_strlit("ggml-");
    let c = curated_models_spec();
    assert("large-v3-turbo-q5_0"@ + ".bin"@ =~= "large-v3-turbo-q5_0.bin"@);
    assert("ggml-"@ + "large-v3-turbo-q5_0.bin"@ =~= "ggml-large-v3-turbo-q5_0.bin"@);
    assert("base.en"@ + ".bin"@ =~= "base.en.bin"@);
    assert("ggml-"@ + "base.en.bin"@ =~= "ggml-base.en.bin"@);
    assert("small.en"@ + ".bin"@ =~= "small.en.bin"@);
    assert("ggml-"@ + "small.en.bin"@ =~= "ggml-small.en.bin"@);
    assert("medium.en"@ + ".bin"@ =~= "medium.en.bin"@);
    assert("ggml-"@ + "medium.en.bin"@ =~= "ggml-medium.en.bin"@);
    assert forall|i: int| 0 <= i < 4 implies {
        let m = #[trigger] curated_models_spec()[i];
        &&& m.file_name == m.id + ".bin"@
        &&& m.source == WhisperModelSource::Curated
        &&& !m.installed
        &&& m.path is None
        &&& m.url == Some(resolve_url_spec("ggerganov/whisper.cpp"@, "ggml-"@ + m.file_name))
    } by {
        if i == 0 {
        } else if i == 1 {
        } else if i == 2 {
        } else {
        }
    }
}


/// The Whisper model families whose whisper.cpp files Yap can run.
pub open spec fn whisper_families() -> Seq<Seq<char>> {
    seq!["tiny"@, "base"@, "small"@, "medium"@, "large"@, "distil"@]
}

/// A remote file is a compatible model exactly when its lower-cased name
/// ends in `.bin`, does not mention `encoder`, and its base name is
/// `ggml-` followed by one of the Whisper families (`tiny`, `base`,
/// `small`, `medium`, `large`, `distil`), such as `ggml-large-v3.bin`.
pub proof fn law_compatible_files(lower: Seq<char>, base: Seq<char>)
    ensures
        compatible_spec(lower, base) <==> (ends_with(lower, ".bin"@) && !contains(
            lower,
            "encoder"@,
        ) && exists|i: int|
            0 <= i < whisper_families().len() && starts_with(
                base,
                "ggml-"@ + #[trigger] whisper_families()[i],
            )),
{
    reveal_strlit("ggml-");
    reveal_strlit("tiny");
    reveal_strlit("base");
    reveal_strlit("small");
    reveal_strlit("medium");
    reveal_strlit("large");
    reveal_strlit("distil");
    reveal_strlit("ggml-tiny");
    reveal_strlit("ggml-base");
    reveal_strlit("ggml-small");
    reveal_strlit("ggml-medium");
    reveal_strlit("ggml-large");
    reveal_strlit("ggml-distil");
    let f = whisper_families();
    assert("ggml-"@ + f[0] =~= "ggml-tiny"@);
    assert("ggml-"@ + f[1] =~= "ggml-base"@);
    assert("ggml-"@ + f[2] =~= "ggml-small"@);
    assert("ggml-"@ + f[3] =~= "ggml-medium"@);
    assert("ggml-"@ + f[4] =~= "ggml-large"@);
    assert("ggml-"@ + f[5] =~= "ggml-distil"@);
}

proof fn lemma_present_members(outs: Seq<Option<SummaryView>>)
    ensures
        forall|m: SummaryView|
            present(outs).contains(m) ==> exists|i: int|
                0 <= i < outs.len() && #[trigger] outs[i] == Some(m),
    decreases outs.len(),
{
    if outs.len() > 0 {
        let p = outs.drop_last();
        lemma_present_members(p);
        assert forall|m: SummaryView| present(outs).contains(m) implies exists|i: int|
            0 <= i < outs.len() && #[trigger] outs[i] == Some(m) by {
            let k = choose|k: int| 0 <= k < present(outs).len() && present(outs)[k] == m;
            if k < present(p).len() {
                assert(present(p)[k] == m);
                assert(present(p).contains(m));
                let i = choose|i: int| 0 <= i < p.len() && #[trigger] p[i] == Some(m);
                assert(outs[i] == p[i]);
            } else {
                assert(outs[outs.len() - 1] == Some(m));
            }
        }
    }
}

proof fn lemma_no_error_all_ok(es: Seq<Result<CacheEntry, String>>)
    requires
        first_entry_error(es) is None,
    ensures
        forall|i: int| 0 <= i < es.len() ==> (#[trigger] es[i]) is Ok,
    decreases es.len(),
{
    if es.len() > 0 {
        lemma_no_error_all_ok(es.drop_last());
        assert forall|i: int| 0 <= i < es.len() implies (#[trigger] es[i]) is Ok by {
            if i < es.len() - 1 {
                assert(es.drop_last()[i] == es[i]);
            }
        }
    }
}

/// Whether `m` has the path and file name of the entry `r`, a regular
/// `.bin` file that the listing read.
pub open spec fn listed_model_file(r: Result<CacheEntry, String>, m: SummaryView) -> bool {
    match r {
        Ok(e) => is_model_entry(e) && m.path == Some(e.path@) && m.file_name == e.file_name@,
        Err(_) => false,
    }
}

/// Every model that a listing of the cache directory shows is an installed
/// model file of the cache: it is marked installed, comes from the cache,
/// has no download URL, and has the path and file name of a regular `.bin`
/// file that the listing found.
pub proof fn law_cache_models_are_installed(l: CacheListing, ms: Seq<SummaryView>)
    requires
        installed_models_outcome(l, Ok(ms)),
    ensures
        forall|k: int|
            0 <= k < ms.len() ==> {
                &&& (#[trigger] ms[k]).installed
                &&& ms[k].source == WhisperModelSource::Installed
                &&& ms[k].url is None
                &&& l matches CacheListing::Entries(es) && exists|j: int|
                    0 <= j < es@.len() && #[trigger] listed_model_file(es@[j], ms[k])
            },
{
    match l {
        CacheListing::Missing => {},
        CacheListing::Unreadable(_) => {},
        CacheListing::Entries(es) => {
            let outs = choose|outs: Seq<Option<SummaryView>>|
                entry_outcomes(es@, outs) && stably_sorted_by_name(present(outs), ms);
            lemma_no_error_all_ok(es@);
            lemma_present_members(outs);
            assert forall|k: int| 0 <= k < ms.len() implies {
                &&& (#[trigger] ms[k]).installed
                &&& ms[k].source == WhisperModelSource::Installed
                &&& ms[k].url is None
                &&& exists|j: int|
                    0 <= j < es@.len() && #[trigger] listed_model_file(es@[j], ms[k])
            } by {
                let m = ms[k];
                let pred = |x: SummaryView| x.name == m.name;
                assert(with_name(ms, m.name) == with_name(present(outs), m.name));
                ms.lemma_filter_contains(pred, k);
                present(outs).lemma_filter_contains_rev(pred, m);
                let i = choose|i: int| 0 <= i < outs.len() && #[trigger] outs[i] == Some(m);
                assert(es@[i] is Ok);
                let e = es@[i]->Ok_0;
                assert(installed_outcome(e, outs[i]));
                let b = choose|b: Seq<char>|
                    basename_outcome(e.file_name@, b) && m == installed_entry_spec(e, b);
                assert(listed_model_file(es@[i], m));
            }
        },
    }
}

} // verus!
