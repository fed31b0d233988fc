use vstd::prelude::*;

use crate::diagnostic::{InternalError, Severity};
use crate::loader::{
    get_builtin_loader, JsLoaderAdapter, JsLoaderRunner, Loader, LoaderView,
    ThreadsafeFunctionCallMode,
};
use crate::loader_context::{
    answer_completed, answer_refused, answer_taken, dedup, first_occurrences,
    sync_loader_context, JsLoaderContext, JsLoaderResult, LoaderContext, LoaderItem, WorkerCall,
};
use crate::source::{bytes_to_text, source_map_refusal, utf8_lossy, Content, SourceMap};
use crate::text::{concat, strings_view};

verus! {

/// How a call into the worker ended.
#[derive(Debug)]
pub enum WorkerAnswer {
    /// The channel was closed before an answer came; with the reason.
    Lost(String),
    /// The worker reported an error.
    Failed(InternalError),
    /// The worker answered. `None` says that nothing changed.
    Answered(Option<JsLoaderResult>),
}

/// The steps of `before` with the current one marked as run in the normal
/// phase.
pub open spec fn marked_as_run(before: LoaderContext) -> Seq<LoaderItem> {
    before.loader_items@.update(
        before.loader_index as int,
        LoaderItem {
            loader: before.loader_items@[before.loader_index as int].loader,
            pitch_executed: before.loader_items@[before.loader_index as int].pitch_executed,
            normal_executed: true,
        },
    )
}

/// What an answer of the worker does to the context. Nothing, where the
/// call ended without a result. A result is taken over as
/// `sync_loader_context` says. With `pitching` set, a result that says that
/// the worker left the pitch phase also marks the current step as run in
/// the normal phase, so that it is not run again.
pub open spec fn answer_applied(
    after: LoaderContext,
    before: LoaderContext,
    answer: WorkerAnswer,
    pitching: bool,
    r: Result<(), InternalError>,
) -> bool {
    match answer {
        WorkerAnswer::Lost(reason) => {
            &&& after == before
            &&& r matches Err(e)
            &&& e.message@ == "Failed to call loader: "@ + reason@
            &&& e.severity == Severity::Error
        },
        WorkerAnswer::Failed(error) => after == before && r == Err::<(), InternalError>(error),
        WorkerAnswer::Answered(None) => after == before && r is Ok,
        WorkerAnswer::Answered(Some(result)) => {
            &&& answer_taken(after, before, result)
            &&& after.loader_items@ == if pitching && !result.is_pitching {
                marked_as_run(before)
            } else {
                before.loader_items@
            }
            &&& match r {
                Ok(_) => answer_completed(after, result),
                Err(e) => answer_refused(after, before, result, e),
            }
        },
    }
}

fn apply_answer(cx: &mut LoaderContext, answer: WorkerAnswer, pitching: bool) -> (r: Result<
    (),
    InternalError,
>)
    requires
        old(cx).loader_index < old(cx).loader_items@.len(),
    ensures
        answer_applied(*final(cx), *old(cx), answer, pitching, r),
{
    let result = match answer {
        WorkerAnswer::Lost(reason) => {
            return Err(
                InternalError::new(
                    concat("Failed to call loader: ", reason.as_str()),
                    Severity::Error,
                ),
            );
        },
        WorkerAnswer::Failed(error) => {
            return Err(error);
        },
        WorkerAnswer::Answered(None) => {
            return Ok(());
        },
        WorkerAnswer::Answered(Some(result)) => result,
    };
    if pitching && !result.is_pitching {
        let index = cx.loader_index;
        cx.loader_items[index].normal_executed = true;
        assert(cx.loader_items@ == marked_as_run(*old(cx)));
    }
    sync_loader_context(result, cx)
}

impl JsLoaderAdapter {
    /// The call that lets the worker pitch the steps that this adapter
    /// stands for: the context in the form in which it crosses over, marked
    /// as pitching, to be queued without blocking.
    pub fn pitch(&self, loader_context: &LoaderContext) -> (r: Result<WorkerCall, InternalError>)
        requires
            loader_context.loader_index < loader_context.loader_items@.len(),
            self.runner is ThreadsafeFunction,
        ensures
            r matches Ok(call) && JsLoaderContext::carries(call.value, *loader_context)
                && call.value.is_pitching && call.mode == ThreadsafeFunctionCallMode::NonBlocking
                && self.runner == JsLoaderRunner::ThreadsafeFunction(call.channel),
    {
        let mut js_loader_context = match JsLoaderContext::try_from(loader_context) {
            Ok(c) => c,
            Err(e) => {
                return Err(e);
            },
        };
        js_loader_context.is_pitching = true;
        Ok(self.runner.call(js_loader_context, ThreadsafeFunctionCallMode::NonBlocking))
    }

    /// Takes over what the worker answered to a pitch call.
    pub fn pitch_answered(&self, loader_context: &mut LoaderContext, answer: WorkerAnswer) -> (r:
        Result<(), InternalError>)
        requires
            old(loader_context).loader_index < old(loader_context).loader_items@.len(),
        ensures
            answer_applied(*final(loader_context), *old(loader_context), answer, true, r),
    {
        apply_answer(loader_context, answer, true)
    }

    /// The call that lets the worker run the steps that this adapter stands
    /// for, last to first: as for pitching, but not marked as pitching.
    pub fn run(&self, loader_context: &LoaderContext) -> (r: Result<WorkerCall, InternalError>)
        requires
            loader_context.loader_index < loader_context.loader_items@.len(),
            self.runner is ThreadsafeFunction,
        ensures
            r matches Ok(call) && JsLoaderContext::carries(call.value, *loader_context)
                && !call.value.is_pitching && call.mode
                == ThreadsafeFunctionCallMode::NonBlocking && self.runner
                == JsLoaderRunner::ThreadsafeFunction(call.channel),
    {
        let mut js_loader_context = match JsLoaderContext::try_from(loader_context) {
            Ok(c) => c,
            Err(e) => {
                return Err(e);
            },
        };
        js_loader_context.is_pitching = false;
        Ok(self.runner.call(js_loader_context, ThreadsafeFunctionCallMode::NonBlocking))
    }

    /// Takes over what the worker answered to a run call.
    pub fn run_answered(&self, loader_context: &mut LoaderContext, answer: WorkerAnswer) -> (r:
        Result<(), InternalError>)
        requires
            old(loader_context).loader_index < old(loader_context).loader_items@.len(),
        ensures
            answer_applied(*final(loader_context), *old(loader_context), answer, false, r),
    {
        apply_answer(loader_context, answer, false)
    }
}

/// A builtin transform that is to be run for the other runtime.
#[derive(Debug)]
pub struct BuiltinRun {
    pub loader: Loader,
    pub context: LoaderContext,
    /// Whether the transform is to pitch; it is to run otherwise.
    pub pitching: bool,
}

/// `cx` holds what `js` carried, with `loader` as its only step and nothing
/// run yet: content as bytes, additional data as text, dependency lists
/// without repetitions, and no diagnostics.
pub open spec fn context_restored(cx: LoaderContext, js: JsLoaderContext, loader: Loader) -> bool {
    &&& cx.content == match js.content {
        Some(bytes) => Some(Content::Buffer(bytes)),
        None => None,
    }
    &&& cx.resource == js.resource
    &&& cx.resource_path == js.resource_path
    &&& cx.resource_query == js.resource_query
    &&& cx.resource_fragment == js.resource_fragment
    &&& match (cx.source_map, js.source_map) {
        (Some(map), Some(bytes)) => map@ == bytes@,
        (None, None) => true,
        _ => false,
    }
    &&& match (cx.additional_data, js.additional_data) {
        (Some(text), Some(bytes)) => text@ == utf8_lossy(bytes@),
        (None, None) => true,
        _ => false,
    }
    &&& cx.cacheable == js.cacheable
    &&& strings_view(cx.file_dependencies@) == first_occurrences(
        strings_view(js.file_dependencies@),
    )
    &&& strings_view(cx.context_dependencies@) == first_occurrences(
        strings_view(js.context_dependencies@),
    )
    &&& strings_view(cx.missing_dependencies@) == first_occurrences(
        strings_view(js.missing_dependencies@),
    )
    &&& strings_view(cx.build_dependencies@) == first_occurrences(
        strings_view(js.build_dependencies@),
    )
    &&& strings_view(cx.asset_filenames@) == first_occurrences(strings_view(js.asset_filenames@))
    &&& cx.diagnostics@.len() == 0
    &&& cx.loader_index == 0
    &&& cx.loader_items@.len() == 1
    &&& cx.loader_items@[0].loader == loader
    &&& !cx.loader_items@[0].pitch_executed
    &&& !cx.loader_items@[0].normal_executed
}

/// Prepares the run of a builtin transform on a context that came from the
/// other runtime: the transform that `builtin` names, the context for it,
/// and whether it is to pitch or to run, as the context says. Fails, with
/// the message of the refusal, exactly where the context carries a source
/// map that is refused. What the transform leaves in the context goes
/// back as `JsLoaderContext::try_from` says.
pub fn run_builtin_loader(
    builtin: String,
    options: Option<&str>,
    loader_context: JsLoaderContext,
) -> (r: Result<BuiltinRun, InternalError>)
    ensures
        match r {
            Ok(run) => {
                &&& run.loader@ == (LoaderView::Builtin {
                    identifier: builtin@,
                    options: match options {
                        Some(o) => Some(o@),
                        None => None,
                    },
                })
                &&& run.pitching == loader_context.is_pitching
                &&& context_restored(run.context, loader_context, run.loader)
            },
            Err(e) => loader_context.source_map matches Some(bytes) && source_map_refusal(bytes@)
                == Some(e.message@) && e.severity == Severity::Error,
        },
        r is Err <==> (loader_context.source_map matches Some(bytes) && source_map_refusal(bytes@)
            is Some),
{
    let loader = get_builtin_loader(builtin.as_str(), options);
    let JsLoaderContext {
        content,
        additional_data,
        source_map,
        resource,
        resource_path,
        resource_query,
        resource_fragment,
        cacheable,
        file_dependencies,
        context_dependencies,
        missing_dependencies,
        build_dependencies,
        asset_filenames,
        current_loader,
        is_pitching,
        diagnostics,
    } = loader_context;
    let map = match source_map {
        Some(bytes) => match SourceMap::from_slice(&bytes) {
            Ok(m) => Some(m),
            Err(e) => {
                return Err(e);
            },
        },
        None => None,
    };
    let mut items: Vec<LoaderItem> = Vec::new();
    items.push(
        LoaderItem { loader: loader.duplicate(), pitch_executed: false, normal_executed: false },
    );
    let context = LoaderContext {
        content: match content {
            Some(bytes) => Some(Content::Buffer(bytes)),
            None => None,
        },
        resource,
        resource_path,
        resource_query,
        resource_fragment,
        source_map: map,
        additional_data: match additional_data {
            Some(bytes) => Some(bytes_to_text(&bytes)),
            None => None,
        },
        cacheable,
        file_dependencies: dedup(file_dependencies),
        context_dependencies: dedup(context_dependencies),
        missing_dependencies: dedup(missing_dependencies),
        build_dependencies: dedup(build_dependencies),
        asset_filenames: dedup(asset_filenames),
        diagnostics: Vec::new(),
        loader_items: items,
        loader_index: 0,
    };
    Ok(BuiltinRun { loader, context, pitching: is_pitching })
}

} // verus!
