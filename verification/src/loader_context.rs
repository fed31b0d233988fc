use vstd::prelude::*;

use crate::diagnostic::{Diagnostic, InternalError, Severity};
use crate::loader::{JsLoaderRunner, Loader, ThreadsafeFunctionCallMode};
use crate::source::{
    bytes_to_text, source_map_refusal, source_map_written, text_to_bytes, utf8_lossy,
};
use crate::source::{Content, SourceMap};
use crate::text::{clone_strings, strings_view};

verus! {

/// A step of a chain with the record of what has been run of it.
#[derive(Debug)]
pub struct LoaderItem {
    pub loader: Loader,
    pub pitch_executed: bool,
    pub normal_executed: bool,
}

/// What the steps of a chain work on, handed from step to step.
#[derive(Debug)]
pub struct LoaderContext {
    pub content: Option<Content>,
    pub resource: String,
    pub resource_path: String,
    pub resource_query: Option<String>,
    pub resource_fragment: Option<String>,
    pub source_map: Option<SourceMap>,
    pub additional_data: Option<String>,
    pub cacheable: bool,
    pub file_dependencies: Vec<String>,
    pub context_dependencies: Vec<String>,
    pub missing_dependencies: Vec<String>,
    pub build_dependencies: Vec<String>,
    pub asset_filenames: Vec<String>,
    pub diagnostics: Vec<Diagnostic>,
    pub loader_items: Vec<LoaderItem>,
    pub loader_index: usize,
}

/// The loader context as it crosses to the other runtime.
#[derive(Debug)]
pub struct JsLoaderContext {
    /// May be absent while pitching.
    pub content: Option<Vec<u8>>,
    pub additional_data: Option<Vec<u8>>,
    pub source_map: Option<Vec<u8>>,
    pub resource: String,
    pub resource_path: String,
    pub resource_query: Option<String>,
    pub resource_fragment: Option<String>,
    pub cacheable: bool,
    pub file_dependencies: Vec<String>,
    pub context_dependencies: Vec<String>,
    pub missing_dependencies: Vec<String>,
    pub build_dependencies: Vec<String>,
    pub asset_filenames: Vec<String>,
    pub current_loader: String,
    pub is_pitching: bool,
    pub diagnostics: Vec<Diagnostic>,
}

/// What the other runtime answers to a call.
#[derive(Debug)]
pub struct JsLoaderResult {
    /// May be absent while pitching.
    pub content: Option<Vec<u8>>,
    pub file_dependencies: Vec<String>,
    pub context_dependencies: Vec<String>,
    pub missing_dependencies: Vec<String>,
    pub build_dependencies: Vec<String>,
    pub source_map: Option<Vec<u8>>,
    pub additional_data: Option<Vec<u8>>,
    pub cacheable: bool,
    /// Whether the other runtime stopped while still pitching.
    pub is_pitching: bool,
}

/// A call that is to be queued on the channel to the worker.
#[derive(Debug)]
pub struct WorkerCall {
    pub channel: u64,
    pub value: JsLoaderContext,
    pub mode: ThreadsafeFunctionCallMode,
}

impl JsLoaderRunner {
    /// The call that hands `value` to the worker behind this runner.
    pub fn call(&self, value: JsLoaderContext, mode: ThreadsafeFunctionCallMode) -> (c: WorkerCall)
        requires
            *self is ThreadsafeFunction,
        ensures
            *self == JsLoaderRunner::ThreadsafeFunction(c.channel),
            c.value == value,
            c.mode == mode,
    {
        match self {
            JsLoaderRunner::ThreadsafeFunction(channel) => WorkerCall {
                channel: *channel,
                value,
                mode,
            },
            JsLoaderRunner::Noop => {
                proof {
                    assert(false);
                }
                unreached()
            },
        }
    }
}

/// The texts of a list without repetitions: each text where it first occurs.
pub open spec fn first_occurrences(list: Seq<Seq<char>>) -> Seq<Seq<char>>
    decreases list.len(),
{
    if list.len() == 0 {
        list
    } else {
        let head = first_occurrences(list.drop_last());
        if head.contains(list.last()) {
            head
        } else {
            head.push(list.last())
        }
    }
}

/// `first_occurrences` holds nothing twice, and holds exactly what the list
/// holds.
pub proof fn lemma_first_occurrences(list: Seq<Seq<char>>)
    ensures
        first_occurrences(list).no_duplicates(),
        forall|t: Seq<char>| first_occurrences(list).contains(t) <==> list.contains(t),
    decreases list.len(),
{
    if list.len() > 0 {
        let init = list.drop_last();
        let head = first_occurrences(init);
        lemma_first_occurrences(init);
        assert forall|t: Seq<char>| first_occurrences(list).contains(t) <==> list.contains(
            t,
        ) by {
            if list.contains(t) {
                let i = choose|i: int| 0 <= i < list.len() && list[i] == t;
                if i < list.len() - 1 {
                    assert(init[i] == t);
                    assert(init.contains(t));
                    assert(head.contains(t));
                    if !head.contains(list.last()) {
                        let j = choose|j: int| 0 <= j < head.len() && head[j] == t;
                        assert(head.push(list.last())[j] == t);
                    }
                } else {
                    if !head.contains(list.last()) {
                        assert(head.push(list.last())[head.len() as int] == t);
                    }
                }
            }
            if first_occurrences(list).contains(t) {
                let j = choose|j: int|
                    0 <= j < first_occurrences(list).len() && first_occurrences(list)[j] == t;
                if j < head.len() {
                    assert(head[j] == t);
                    assert(head.contains(t));
                    assert(init.contains(t));
                    let i = choose|i: int| 0 <= i < init.len() && init[i] == t;
                    assert(list[i] == t);
                } else {
                    assert(list[list.len() - 1] == t);
                }
            }
        }
    }
}

fn holds_text(list: &Vec<String>, text: &String) -> (r: bool)
    ensures
        r == strings_view(list@).contains(text@),
{
    let mut i: usize = 0;
    while i < list.len()
        invariant
            0 <= i <= list.len(),
            forall|j: int| 0 <= j < i ==> list@[j]@ != text@,
        decreases list.len() - i,
    {
        if list[i] == *text {
            assert(strings_view(list@)[i as int] == text@);
            return true;
        }
        i = i + 1;
    }
    false
}

/// The list without repetitions: each text is kept where it first occurs.
pub fn dedup(list: Vec<String>) -> (r: Vec<String>)
    ensures
        strings_view(r@) == first_occurrences(strings_view(list@)),
{
    let mut r: Vec<String> = Vec::new();
    let mut i: usize = 0;
    proof {
        assert(strings_view(list@).take(0) == Seq::<Seq<char>>::empty());
        assert(strings_view(r@) == Seq::<Seq<char>>::empty());
    }
    while i < list.len()
        invariant
            0 <= i <= list.len(),
            strings_view(r@) == first_occurrences(strings_view(list@).take(i as int)),
        decreases list.len() - i,
    {
        let ghost kept = strings_view(r@);
        if !holds_text(&r, &list[i]) {
            r.push(list[i].clone());
            assert(strings_view(r@) == kept.push(list@[i as int]@));
        }
        i = i + 1;
        proof {
            let now = strings_view(list@).take(i as int);
            assert(now.drop_last() == strings_view(list@).take(i - 1));
            assert(now.last() == list@[i - 1]@);
        }
    }
    proof {
        assert(strings_view(list@).take(i as int) == strings_view(list@));
    }
    r
}

fn clone_opt_text(text: &Option<String>) -> (r: Option<String>)
    ensures
        r == *text,
{
    match text {
        Some(t) => Some(t.clone()),
        None => None,
    }
}

fn clone_diagnostics(list: &Vec<Diagnostic>) -> (r: Vec<Diagnostic>)
    ensures
        r@ == list@,
{
    let mut r: Vec<Diagnostic> = Vec::new();
    let mut i: usize = 0;
    while i < list.len()
        invariant
            0 <= i <= list.len(),
            r@ == list@.take(i as int),
        decreases list.len() - i,
    {
        r.push(list[i].clone());
        i = i + 1;
        assert(list@.take(i as int) == list@.take(i - 1).push(list@[i - 1]));
    }
    assert(list@.take(i as int) == list@);
    r
}

impl LoaderContext {
    /// The context at the start of a run: the resource, the steps of the
    /// chain with nothing run yet, and nothing produced.
    pub fn new(
        resource: String,
        resource_path: String,
        resource_query: Option<String>,
        resource_fragment: Option<String>,
        loaders: Vec<Loader>,
    ) -> (cx: Self)
        ensures
            cx.content is None,
            cx.source_map is None,
            cx.additional_data is None,
            cx.cacheable,
            cx.resource == resource,
            cx.resource_path == resource_path,
            cx.resource_query == resource_query,
            cx.resource_fragment == resource_fragment,
            cx.file_dependencies@.len() == 0,
            cx.context_dependencies@.len() == 0,
            cx.missing_dependencies@.len() == 0,
            cx.build_dependencies@.len() == 0,
            cx.asset_filenames@.len() == 0,
            cx.diagnostics@.len() == 0,
            cx.loader_index == 0,
            cx.loader_items@.len() == loaders@.len(),
            forall|i: int|
                0 <= i < loaders@.len() ==> (#[trigger] cx.loader_items@[i]).loader == loaders@[i]
                    && !cx.loader_items@[i].pitch_executed && !cx.loader_items@[i].normal_executed,
    {
        let ghost all = loaders@;
        let mut loaders = loaders;
        let mut reversed: Vec<LoaderItem> = Vec::new();
        while loaders.len() > 0
            invariant
                loaders@ == all.take(loaders@.len() as int),
                loaders@.len() + reversed@.len() == all.len(),
                forall|j: int|
                    0 <= j < reversed@.len() ==> (#[trigger] reversed@[j]).loader == all[all.len()
                        - 1 - j] && !reversed@[j].pitch_executed && !reversed@[j].normal_executed,
            decreases loaders@.len(),
        {
            let loader = loaders.pop().unwrap();
            assert(loaders@ == all.take(loaders@.len() as int));
            reversed.push(LoaderItem { loader, pitch_executed: false, normal_executed: false });
        }
        let mut items: Vec<LoaderItem> = Vec::new();
        while reversed.len() > 0
            invariant
                items@.len() + reversed@.len() == all.len(),
                forall|j: int|
                    0 <= j < reversed@.len() ==> (#[trigger] reversed@[j]).loader == all[all.len()
                        - 1 - j] && !reversed@[j].pitch_executed && !reversed@[j].normal_executed,
                forall|j: int|
                    0 <= j < items@.len() ==> (#[trigger] items@[j]).loader == all[j]
                        && !items@[j].pitch_executed && !items@[j].normal_executed,
            decreases reversed@.len(),
        {
            let ghost n = reversed@.len();
            let item = reversed.pop().unwrap();
            assert(item.loader == all[all.len() - 1 - (n - 1)]);
            items.push(item);
        }
        LoaderContext {
            content: None,
            resource,
            resource_path,
            resource_query,
            resource_fragment,
            source_map: None,
            additional_data: None,
            cacheable: true,
            file_dependencies: Vec::new(),
            context_dependencies: Vec::new(),
            missing_dependencies: Vec::new(),
            build_dependencies: Vec::new(),
            asset_filenames: Vec::new(),
            diagnostics: Vec::new(),
            loader_items: items,
            loader_index: 0,
        }
    }

    /// The step that the run has reached.
    pub fn current_loader(&self) -> (item: &LoaderItem)
        requires
            self.loader_index < self.loader_items@.len(),
        ensures
            *item == self.loader_items@[self.loader_index as int],
    {
        &self.loader_items[self.loader_index]
    }
}

/// The bytes that cross to the other runtime for a content.
pub open spec fn content_bytes(content: Option<Content>) -> Option<Seq<u8>> {
    match content {
        Some(c) => Some(c.bytes()),
        None => None,
    }
}

/// The bytes of an optional buffer.
pub open spec fn opt_bytes(buffer: Option<Vec<u8>>) -> Option<Seq<u8>> {
    match buffer {
        Some(b) => Some(b@),
        None => None,
    }
}

impl JsLoaderContext {
    /// `js` carries what `cx` holds: content and additional data as bytes,
    /// the source map as the source-map writer writes it, the resource, the dependency lists, the identifier of
    /// the current step and the diagnostics.
    pub open spec fn carries(js: JsLoaderContext, cx: LoaderContext) -> bool {
        &&& opt_bytes(js.content) == content_bytes(cx.content)
        &&& opt_bytes(js.additional_data) == match cx.additional_data {
            Some(d) => Some(vstd::utf8::encode_utf8(d@)),
            None => None,
        }
        &&& opt_bytes(js.source_map) == match cx.source_map {
            Some(m) => Some(vstd::utf8::encode_utf8(source_map_written(m@))),
            None => None,
        }
        &&& js.resource == cx.resource
        &&& js.resource_path == cx.resource_path
        &&& js.resource_query == cx.resource_query
        &&& js.resource_fragment == cx.resource_fragment
        &&& js.cacheable == cx.cacheable
        &&& js.file_dependencies@ == cx.file_dependencies@
        &&& js.context_dependencies@ == cx.context_dependencies@
        &&& js.missing_dependencies@ == cx.missing_dependencies@
        &&& js.build_dependencies@ == cx.build_dependencies@
        &&& js.asset_filenames@ == cx.asset_filenames@
        &&& js.current_loader@ == cx.loader_items@[cx.loader_index as int].loader.id()
        &&& js.diagnostics@ == cx.diagnostics@
    }

    /// The form in which a loader context crosses to the other runtime. The
    /// result is marked as pitching.
    pub fn try_from(cx: &LoaderContext) -> (r: Result<JsLoaderContext, InternalError>)
        requires
            cx.loader_index < cx.loader_items@.len(),
        ensures
            r is Ok,
            JsLoaderContext::carries(r->Ok_0, *cx),
            r->Ok_0.is_pitching,
    {
        Ok(
            JsLoaderContext {
                content: match &cx.content {
                    Some(c) => Some(c.duplicate().into_bytes()),
                    None => None,
                },
                additional_data: match &cx.additional_data {
                    Some(d) => Some(text_to_bytes(d.as_str())),
                    None => None,
                },
                source_map: match &cx.source_map {
                    Some(m) => Some(text_to_bytes(m.to_json().as_str())),
                    None => None,
                },
                resource: cx.resource.clone(),
                resource_path: cx.resource_path.clone(),
                resource_query: clone_opt_text(&cx.resource_query),
                resource_fragment: clone_opt_text(&cx.resource_fragment),
                cacheable: cx.cacheable,
                file_dependencies: clone_strings(&cx.file_dependencies),
                context_dependencies: clone_strings(&cx.context_dependencies),
                missing_dependencies: clone_strings(&cx.missing_dependencies),
                build_dependencies: clone_strings(&cx.build_dependencies),
                asset_filenames: clone_strings(&cx.asset_filenames),
                current_loader: cx.current_loader().loader.identifier().to_owned(),
                is_pitching: true,
                diagnostics: clone_diagnostics(&cx.diagnostics),
            },
        )
    }
}

/// What the context becomes when an answer of the other runtime is taken
/// over, up to the source map and the steps: the flag, the dependency lists
/// without repetitions, and the content replace what was there.
pub open spec fn answer_taken(after: LoaderContext, before: LoaderContext, answer: JsLoaderResult) -> bool {
    &&& after.cacheable == answer.cacheable
    &&& strings_view(after.file_dependencies@) == first_occurrences(
        strings_view(answer.file_dependencies@),
    )
    &&& strings_view(after.context_dependencies@) == first_occurrences(
        strings_view(answer.context_dependencies@),
    )
    &&& strings_view(after.missing_dependencies@) == first_occurrences(
        strings_view(answer.missing_dependencies@),
    )
    &&& strings_view(after.build_dependencies@) == first_occurrences(
        strings_view(answer.build_dependencies@),
    )
    &&& after.content == match answer.content {
        Some(bytes) => Some(Content::Buffer(bytes)),
        None => None,
    }
    &&& after.resource == before.resource
    &&& after.resource_path == before.resource_path
    &&& after.resource_query == before.resource_query
    &&& after.resource_fragment == before.resource_fragment
    &&& after.asset_filenames == before.asset_filenames
    &&& after.diagnostics == before.diagnostics
    &&& after.loader_index == before.loader_index
}

/// Source map and additional data of the context are what the answer
/// carried: the map as the reader read it, the data as text.
pub open spec fn answer_completed(after: LoaderContext, answer: JsLoaderResult) -> bool {
    &&& match (after.source_map, answer.source_map) {
        (Some(map), Some(bytes)) => map@ == bytes@,
        (None, None) => true,
        _ => false,
    }
    &&& match (after.additional_data, answer.additional_data) {
        (Some(text), Some(bytes)) => text@ == utf8_lossy(bytes@),
        (None, None) => true,
        _ => false,
    }
}

/// The answer's source map was refused with the message of `e`, and source
/// map and additional data of the context are as they were.
pub open spec fn answer_refused(
    after: LoaderContext,
    before: LoaderContext,
    answer: JsLoaderResult,
    e: InternalError,
) -> bool {
    &&& answer.source_map matches Some(bytes) && source_map_refusal(bytes@) == Some(e.message@)
    &&& e.severity == Severity::Error
    &&& after.source_map == before.source_map
    &&& after.additional_data == before.additional_data
}

/// Whether an answer carries a source map that is refused.
pub open spec fn answer_map_refused(answer: JsLoaderResult) -> bool {
    answer.source_map matches Some(bytes) && source_map_refusal(bytes@) is Some
}

/// Takes the answer of the other runtime over into the context. Whatever
/// the answer holds replaces what the context held. Where the answer's
/// source map is refused, the call fails with the message of the refusal; flag,
/// dependency lists and content are replaced by then, source map and
/// additional data are not.
pub fn sync_loader_context(loader_result: JsLoaderResult, loader_context: &mut LoaderContext) -> (r:
    Result<(), InternalError>)
    ensures
        answer_taken(*final(loader_context), *old(loader_context), loader_result),
        final(loader_context).loader_items == old(loader_context).loader_items,
        r is Err <==> answer_map_refused(loader_result),
        match r {
            Ok(_) => answer_completed(*final(loader_context), loader_result),
            Err(e) => answer_refused(
                *final(loader_context),
                *old(loader_context),
                loader_result,
                e,
            ),
        },
{
    let JsLoaderResult {
        content,
        file_dependencies,
        context_dependencies,
        missing_dependencies,
        build_dependencies,
        source_map,
        additional_data,
        cacheable,
        is_pitching,
    } = loader_result;
    loader_context.cacheable = cacheable;
    loader_context.file_dependencies = dedup(file_dependencies);
    loader_context.context_dependencies = dedup(context_dependencies);
    loader_context.missing_dependencies = dedup(missing_dependencies);
    loader_context.build_dependencies = dedup(build_dependencies);
    loader_context.content = match content {
        Some(bytes) => Some(Content::Buffer(bytes)),
        None => None,
    };
    let map = match source_map {
        Some(bytes) => match SourceMap::from_slice(&bytes) {
            Ok(m) => Some(m),
            Err(e) => {
                return Err(e);
            },
        },
        None => None,
    };
    loader_context.source_map = map;
    loader_context.additional_data = match additional_data {
        Some(bytes) => Some(bytes_to_text(&bytes)),
        None => None,
    };
    Ok(())
}

} // verus!
