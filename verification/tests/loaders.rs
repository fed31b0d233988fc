use module_pipeline::diagnostic::Severity;
use module_pipeline::js_loader::{run_builtin_loader, WorkerAnswer};
use module_pipeline::loader::{
    get_builtin_loader, JsLoaderAdapter, JsLoaderRunner, Loader, ThreadsafeFunctionCallMode,
};
use module_pipeline::loader_context::{
    dedup, sync_loader_context, JsLoaderContext, JsLoaderResult, LoaderContext,
};
use module_pipeline::loader_plugin::{JsLoaderResolver, LoaderPlan};
use module_pipeline::loader_runner::{LoaderRun, LoaderStep, RunPhase};
use module_pipeline::resolver::{EngineError, Resolution, Resolve, ResolveOptionsWithDependencyType};
use module_pipeline::resolver::{DependencyCategory, DependencyType, ResolverFactory};
use module_pipeline::source::Content;

fn builtin(name: &str) -> Loader {
    get_builtin_loader(name, None)
}

fn js(identifier: &str) -> Loader {
    Loader::Js(JsLoaderAdapter {
        runner: JsLoaderRunner::ThreadsafeFunction(1),
        identifier: identifier.to_string(),
    })
}

fn ids(chain: &[Loader]) -> Vec<String> {
    chain.iter().map(|l| l.identifier().to_string()).collect()
}

fn plugin() -> JsLoaderResolver {
    JsLoaderResolver { js_loader_runner: JsLoaderRunner::ThreadsafeFunction(4) }
}

fn context(chain: Vec<Loader>) -> LoaderContext {
    LoaderContext::new(
        "/p/a.js?q".to_string(),
        "/p/a.js".to_string(),
        Some("?q".to_string()),
        None,
        chain,
    )
}

fn answer(content: Option<&str>, is_pitching: bool) -> JsLoaderResult {
    JsLoaderResult {
        content: content.map(|c| c.as_bytes().to_vec()),
        file_dependencies: vec!["/p/a.js".to_string(), "/p/b.js".to_string(), "/p/a.js".to_string()],
        context_dependencies: vec![],
        missing_dependencies: vec!["/p/m".to_string()],
        build_dependencies: vec![],
        source_map: None,
        additional_data: Some(vec![104, 105]),
        cacheable: false,
        is_pitching,
    }
}

#[test]
fn short_chains_are_never_rewritten() {
    assert!(plugin().select_loaders(vec![], true).is_empty());
    let one = plugin().select_loaders(vec![js("/p/loader.js")], true);
    assert_eq!(ids(&one), vec!["/p/loader.js"]);
    assert!(matches!(&one[0], Loader::Js(a) if a.runner == JsLoaderRunner::ThreadsafeFunction(1)));
}

#[test]
fn builtin_chain_stays_as_it_is() {
    let chain = plugin().select_loaders(vec![builtin("builtin:a"), builtin("builtin:b")], false);
    assert_eq!(ids(&chain), vec!["builtin:a", "builtin:b"]);
    assert!(chain.iter().all(|l| matches!(l, Loader::Builtin { .. })));
}

#[test]
fn mixed_chain_is_collapsed_to_one_step() {
    let chain = plugin().select_loaders(
        vec![builtin("builtin:a"), js("/p/b.js"), builtin("builtin:c?x")],
        false,
    );
    assert_eq!(chain.len(), 1);
    assert_eq!(chain[0].identifier(), "builtin:a$/p/b.js$builtin:c?x");
    assert!(matches!(&chain[0], Loader::Js(a) if a.runner == JsLoaderRunner::ThreadsafeFunction(4)));
}

#[test]
fn inline_chain_is_collapsed_even_if_builtin() {
    let chain = plugin().select_loaders(vec![builtin("builtin:a"), builtin("builtin:b")], true);
    assert_eq!(chain.len(), 1);
    assert_eq!(chain[0].identifier(), "builtin:a$builtin:b");
}

#[test]
fn builtin_request_is_planned_without_resolution() {
    match plugin().plan_loader("builtin:sass-loader?x=1", Some("{}")) {
        LoaderPlan::Builtin(Loader::Builtin { identifier, options }) => {
            assert_eq!(identifier, "builtin:sass-loader?x=1");
            assert_eq!(options.as_deref(), Some("{}"));
        }
        _ => panic!("a builtin request names a builtin transform"),
    }
}

#[test]
fn other_request_is_split_at_its_query() {
    match plugin().plan_loader("./loaders/a.js?mode=x?y", None) {
        LoaderPlan::Resolve { path, query } => {
            assert_eq!(path, "./loaders/a.js");
            assert_eq!(query, "?mode=x?y");
        }
        _ => panic!("resolve"),
    }
    match plugin().plan_loader("babel-loader", None) {
        LoaderPlan::Resolve { path, query } => {
            assert_eq!(path, "babel-loader");
            assert_eq!(query, "");
        }
        _ => panic!("resolve"),
    }
}

fn some_resolver() -> std::sync::Arc<module_pipeline::resolver::Resolver> {
    let mut factory = ResolverFactory::new(Resolve::empty());
    factory.get(ResolveOptionsWithDependencyType {
        resolve_options: None,
        resolve_to_context: false,
        dependency_type: DependencyType::CjsRequire,
        dependency_category: DependencyCategory::CommonJS,
    })
}

#[test]
fn resolved_loader_gets_its_query_back() {
    let found = Resolution {
        path: "/p/node_modules/x/index.js".to_string(),
        query: None,
        fragment: None,
    };
    let loader = plugin()
        .resolve_loader("/p", &some_resolver(), "x", "?a=1", Ok(found))
        .unwrap()
        .unwrap();
    assert_eq!(loader.identifier(), "/p/node_modules/x/index.js?a=1");
    assert!(matches!(loader, Loader::Js(a) if a.runner == JsLoaderRunner::ThreadsafeFunction(4)));
}

#[test]
fn ignored_loader_is_an_error() {
    let err = plugin()
        .resolve_loader("/p", &some_resolver(), "x", "", Err(EngineError::Ignored))
        .unwrap_err();
    assert_eq!(err.message, "Failed to resolve loader: x");
    assert_eq!(err.severity, Severity::Error);
}

#[test]
fn failed_loader_resolution_names_path_and_context() {
    let err = plugin()
        .resolve_loader("/p", &some_resolver(), "x", "", Err(EngineError::Other("NotFound(\"x\")".to_string())))
        .unwrap_err();
    assert_eq!(err.message, "Failed to resolve loader: x in /p NotFound(\"x\")");
    let err = plugin()
        .resolve_loader("/p", &some_resolver(), "x", "", Err(EngineError::Recursion))
        .unwrap_err();
    assert_eq!(err.message, "Failed to resolve loader: x in /p Recursion");
}

#[test]
fn dedup_keeps_first_occurrences() {
    let list = vec!["b", "a", "b", "c", "a"].into_iter().map(|s| s.to_string()).collect();
    assert_eq!(dedup(list), vec!["b", "a", "c"]);
    assert!(dedup(vec![]).is_empty());
}

#[test]
fn context_crosses_as_bytes_and_texts() {
    let mut cx = context(vec![builtin("builtin:a"), js("/p/b.js")]);
    cx.content = Some(Content::String("let a".to_string()));
    cx.additional_data = Some("extra".to_string());
    cx.file_dependencies = vec!["/p/a.js".to_string()];
    cx.loader_index = 1;
    let js_cx = JsLoaderContext::try_from(&cx).unwrap();
    assert_eq!(js_cx.content, Some(b"let a".to_vec()));
    assert_eq!(js_cx.additional_data, Some(b"extra".to_vec()));
    assert_eq!(js_cx.source_map, None);
    assert_eq!(js_cx.resource, "/p/a.js?q");
    assert_eq!(js_cx.resource_path, "/p/a.js");
    assert_eq!(js_cx.resource_query.as_deref(), Some("?q"));
    assert_eq!(js_cx.resource_fragment, None);
    assert!(js_cx.cacheable);
    assert_eq!(js_cx.file_dependencies, vec!["/p/a.js"]);
    assert_eq!(js_cx.current_loader, "/p/b.js");
    assert!(js_cx.is_pitching);
}

#[test]
fn answer_replaces_what_the_context_held() {
    let mut cx = context(vec![js("/p/b.js")]);
    cx.content = Some(Content::String("old".to_string()));
    cx.file_dependencies = vec!["/old".to_string()];
    cx.build_dependencies = vec!["/old-build".to_string()];
    sync_loader_context(answer(Some("new"), true), &mut cx).unwrap();
    assert!(!cx.cacheable);
    assert_eq!(cx.file_dependencies, vec!["/p/a.js", "/p/b.js"]);
    assert_eq!(cx.missing_dependencies, vec!["/p/m"]);
    assert!(cx.build_dependencies.is_empty());
    assert_eq!(cx.content.unwrap().into_bytes(), b"new".to_vec());
    assert_eq!(cx.additional_data.as_deref(), Some("hi"));
    assert!(cx.source_map.is_none());
    assert_eq!(cx.resource, "/p/a.js?q");
}

#[test]
fn answer_with_refused_source_map_fails_half_way() {
    let mut cx = context(vec![js("/p/b.js")]);
    cx.additional_data = Some("kept".to_string());
    let mut bad = answer(None, true);
    bad.source_map = Some(b"{".to_vec());
    let err = sync_loader_context(bad, &mut cx).unwrap_err();
    assert!(!err.message.is_empty());
    assert!(!cx.cacheable);
    assert!(cx.content.is_none());
    assert_eq!(cx.additional_data.as_deref(), Some("kept"));
}

#[test]
fn adapter_calls_the_worker_without_blocking() {
    let adapter = JsLoaderAdapter {
        runner: JsLoaderRunner::ThreadsafeFunction(7),
        identifier: "a$b".to_string(),
    };
    let cx = context(vec![js("a$b")]);
    let call = adapter.pitch(&cx).unwrap();
    assert_eq!(call.channel, 7);
    assert_eq!(call.mode, ThreadsafeFunctionCallMode::NonBlocking);
    assert!(call.value.is_pitching);
    assert_eq!(call.value.current_loader, "a$b");
    let call = adapter.run(&cx).unwrap();
    assert!(!call.value.is_pitching);
    assert_eq!(call.channel, 7);
}

#[test]
fn pitch_answer_after_normal_phase_marks_the_step() {
    let adapter = JsLoaderAdapter { runner: JsLoaderRunner::Noop, identifier: "a$b".to_string() };
    let mut cx = context(vec![js("a$b")]);
    adapter
        .pitch_answered(&mut cx, WorkerAnswer::Answered(Some(answer(Some("out"), false))))
        .unwrap();
    assert!(cx.loader_items[0].normal_executed);
    assert_eq!(cx.content.unwrap().into_bytes(), b"out".to_vec());

    let mut cx = context(vec![js("a$b")]);
    adapter
        .pitch_answered(&mut cx, WorkerAnswer::Answered(Some(answer(None, true))))
        .unwrap();
    assert!(!cx.loader_items[0].normal_executed);

    let mut cx = context(vec![js("a$b")]);
    adapter
        .run_answered(&mut cx, WorkerAnswer::Answered(Some(answer(Some("out"), false))))
        .unwrap();
    assert!(!cx.loader_items[0].normal_executed);
}

#[test]
fn lost_or_failed_calls_leave_the_context() {
    let adapter = JsLoaderAdapter { runner: JsLoaderRunner::Noop, identifier: "a".to_string() };
    let mut cx = context(vec![js("a")]);
    let err = adapter.pitch_answered(&mut cx, WorkerAnswer::Lost("closed".to_string())).unwrap_err();
    assert_eq!(err.message, "Failed to call loader: closed");
    assert!(cx.cacheable);
    let failed = module_pipeline::diagnostic::InternalError::new("boom".to_string(), Severity::Error);
    let err = adapter.run_answered(&mut cx, WorkerAnswer::Failed(failed)).unwrap_err();
    assert_eq!(err.message, "boom");
    adapter.run_answered(&mut cx, WorkerAnswer::Answered(None)).unwrap();
    assert!(cx.content.is_none());
    assert!(cx.cacheable);
}

#[test]
fn builtin_run_is_prepared_from_the_crossing_context() {
    let cx = context(vec![js("x")]);
    let mut js_cx = JsLoaderContext::try_from(&cx).unwrap();
    js_cx.content = Some(b"body".to_vec());
    js_cx.is_pitching = false;
    js_cx.file_dependencies = vec!["a".to_string(), "a".to_string()];
    let run = run_builtin_loader("builtin:sass-loader".to_string(), Some("{}"), js_cx).unwrap();
    assert!(!run.pitching);
    assert_eq!(run.loader.identifier(), "builtin:sass-loader");
    assert_eq!(run.context.loader_items.len(), 1);
    assert_eq!(run.context.loader_items[0].loader.identifier(), "builtin:sass-loader");
    assert_eq!(run.context.loader_index, 0);
    assert_eq!(run.context.file_dependencies, vec!["a"]);
    assert_eq!(run.context.resource, "/p/a.js?q");
    assert!(run.context.diagnostics.is_empty());
    assert_eq!(run.context.content.unwrap().into_bytes(), b"body".to_vec());
}

#[test]
fn builtin_run_with_refused_source_map_fails() {
    let cx = context(vec![js("x")]);
    let mut js_cx = JsLoaderContext::try_from(&cx).unwrap();
    js_cx.source_map = Some(b"[".to_vec());
    let err = run_builtin_loader("builtin:x".to_string(), None, js_cx).unwrap_err();
    assert!(!err.message.is_empty());
}

fn steps(cx: &mut LoaderContext, produce_at: Option<usize>) -> Vec<LoaderStep> {
    let mut run = LoaderRun::new();
    let mut taken = Vec::new();
    loop {
        let step = run.next(cx);
        taken.push(step);
        match step {
            LoaderStep::Pitch(at) => {
                if produce_at == Some(at) {
                    cx.content = Some(Content::String("pitched".to_string()));
                }
            }
            LoaderStep::ProcessResource => cx.content = Some(Content::String("read".to_string())),
            LoaderStep::Normal(_) => {}
            LoaderStep::Finish => break,
        }
        assert!(taken.len() < 100);
    }
    assert_eq!(run.phase, RunPhase::Done);
    taken
}

#[test]
fn chain_pitches_forward_and_runs_backward() {
    let mut cx = context(vec![builtin("builtin:a"), builtin("builtin:b"), builtin("builtin:c")]);
    assert_eq!(
        steps(&mut cx, None),
        vec![
            LoaderStep::Pitch(0),
            LoaderStep::Pitch(1),
            LoaderStep::Pitch(2),
            LoaderStep::ProcessResource,
            LoaderStep::Normal(2),
            LoaderStep::Normal(1),
            LoaderStep::Normal(0),
            LoaderStep::Finish,
        ]
    );
    assert!(cx.loader_items.iter().all(|i| i.pitch_executed && i.normal_executed));
}

#[test]
fn pitch_with_content_skips_the_rest() {
    let mut cx = context(vec![builtin("builtin:a"), builtin("builtin:b"), builtin("builtin:c")]);
    assert_eq!(
        steps(&mut cx, Some(1)),
        vec![LoaderStep::Pitch(0), LoaderStep::Pitch(1), LoaderStep::Normal(0), LoaderStep::Finish]
    );
    assert!(!cx.loader_items[2].pitch_executed);
    assert!(!cx.loader_items[1].normal_executed);
    let mut cx = context(vec![builtin("builtin:a")]);
    assert_eq!(steps(&mut cx, Some(0)), vec![LoaderStep::Pitch(0), LoaderStep::Finish]);
}

#[test]
fn empty_chain_only_reads_the_resource() {
    let mut cx = context(vec![]);
    assert_eq!(steps(&mut cx, None), vec![LoaderStep::ProcessResource, LoaderStep::Finish]);
    let (result, diagnostics) = cx.into_result().unwrap();
    assert_eq!(result.content.into_string_lossy(), "read");
    assert!(diagnostics.is_empty());
}

#[test]
fn steps_marked_as_run_are_not_run_again() {
    let mut cx = context(vec![builtin("builtin:a"), js("b$c")]);
    let mut run = LoaderRun::new();
    assert_eq!(run.next(&mut cx), LoaderStep::Pitch(0));
    assert_eq!(run.next(&mut cx), LoaderStep::Pitch(1));
    cx.loader_items[1].normal_executed = true;
    assert_eq!(run.next(&mut cx), LoaderStep::ProcessResource);
    cx.content = Some(Content::Buffer(vec![1]));
    assert_eq!(run.next(&mut cx), LoaderStep::Normal(0));
    assert_eq!(cx.loader_index, 0);
    assert_eq!(run.next(&mut cx), LoaderStep::Finish);
    assert_eq!(run.next(&mut cx), LoaderStep::Finish);
}

#[test]
fn run_without_content_has_failed() {
    let err = context(vec![]).into_result().unwrap_err();
    assert_eq!(err.message, "Content should be available");
}

#[test]
fn noop_runner_is_not_connected() {
    assert_eq!(JsLoaderRunner::noop(), JsLoaderRunner::Noop);
    assert!(!JsLoaderRunner::noop().is_connected());
    assert!(JsLoaderRunner::ThreadsafeFunction(0).is_connected());
}
