//! The commands the settings window sends to the core about Whisper models.
use vstd::prelude::*;

use crate::model_manager::{
    self, delete_outcome, list_outcome, reveal_outcome, search_outcome, CacheListing, FileProbe,
    SearchResponse, WhisperModelList, WhisperModelSearchRequest, WhisperModelSummary,
};

verus! {

/// Lists the Whisper models (see `model_manager::list_whisper_models`).
pub fn list_whisper_models<F: Fn(String) -> Option<FileProbe>, L: FnOnce() -> CacheListing>(
    cache_dir: String,
    created: Result<(), String>,
    probe: F,
    listing: L,
) -> (r: Result<WhisperModelList, String>)
    requires
        forall|s: String| probe.requires((s,)),
        listing.requires(()),
    ensures
        list_outcome(cache_dir, created, probe, listing, r),
{
    model_manager::list_whisper_models(cache_dir, created, probe, listing)
}

/// Searches Hugging Face for Whisper models (see
/// `model_manager::search_whisper_models`).
pub fn search_whisper_models<Q: FnOnce(String) -> SearchResponse, F: Fn(String) -> Option<FileProbe>>(
    request: WhisperModelSearchRequest,
    fetch: Q,
    probe: F,
) -> (r: Result<Vec<WhisperModelSummary>, String>)
    requires
        forall|s: String| fetch.requires((s,)),
        forall|s: String| probe.requires((s,)),
    ensures
        search_outcome(request, fetch, probe, r),
{
    model_manager::search_whisper_models(request, fetch, probe)
}

/// Deletes a model file from the cache (see
/// `model_manager::delete_whisper_model`).
pub fn delete_whisper_model<R: FnOnce(String) -> Result<(), String>>(file_name: &str, remove: R) -> (r:
    Result<(), String>)
    requires
        forall|s: String| remove.requires((s,)),
    ensures
        delete_outcome(file_name@, remove, r),
{
    model_manager::delete_whisper_model(file_name, remove)
}

/// Shows the model folder (see `model_manager::reveal_whisper_models`).
pub fn reveal_whisper_models<O: FnOnce() -> Result<bool, String>>(created: Result<(), String>, open: O) -> (r:
    Result<(), String>)
    requires
        open.requires(()),
    ensures
        reveal_outcome(created, open, r),
{
    model_manager::reveal_whisper_models(created, open)
}

} // verus!
