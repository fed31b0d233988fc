use module_pipeline::build_info::{AnalyzeResult, BuildMeta, BuildResult};
use module_pipeline::diagnostic::{Diagnostic, InternalError, Severity};
use module_pipeline::js_loader::WorkerAnswer;
use module_pipeline::loader::{get_builtin_loader, JsLoaderAdapter, JsLoaderRunner, Loader};
use module_pipeline::loader_context::{JsLoaderResult, WorkerCall};
use module_pipeline::loader_plugin::JsLoaderResolver;
use module_pipeline::loader_runner::{LoaderRun, LoaderStep};
use module_pipeline::module_type::{ModuleType, SourceType};
use module_pipeline::normal_module::{
    NormalModule, NormalModuleSource, ParseContext, ParseResult, ParserAndGenerator,
};
use module_pipeline::options::{CompilerOptions, Devtool, OutputOptions};
use module_pipeline::resource::ResourceData;
use module_pipeline::source::{Content, Source};
use std::sync::Arc;

struct PassThrough;

impl ParserAndGenerator for PassThrough {
    fn source_types(&self) -> Vec<SourceType> {
        vec![SourceType::JavaScript]
    }

    fn size(&self, _source: &NormalModuleSource, _source_type: SourceType) -> i64 {
        0
    }

    fn parse(&mut self, context: ParseContext) -> Result<ParseResult, InternalError> {
        Ok(ParseResult {
            source: context.source,
            dependencies: vec![],
            presentational_dependencies: vec![],
            code_generation_dependencies: vec![],
            analyze_result: AnalyzeResult { entries: vec!["seen".to_string()] },
            build_meta: BuildMeta::new(),
            diagnostics: vec![],
        })
    }

    fn generate(&self, source: &Source, _requested: SourceType) -> Result<Source, InternalError> {
        Ok(source.duplicate())
    }
}

struct MockChannel {
    calls: Vec<(u64, String, bool)>,
    fail: bool,
}

impl MockChannel {
    fn call(&mut self, call: WorkerCall) -> WorkerAnswer {
        self.calls.push((call.channel, call.value.current_loader.clone(), call.value.is_pitching));
        if self.fail {
            return WorkerAnswer::Failed(InternalError::new("worker threw".to_string(), Severity::Error));
        }
        WorkerAnswer::Answered(Some(JsLoaderResult {
            content: Some(format!("js({})", call.value.resource).into_bytes()),
            file_dependencies: call.value.file_dependencies,
            context_dependencies: vec![],
            missing_dependencies: vec![],
            build_dependencies: vec![],
            source_map: None,
            additional_data: None,
            cacheable: true,
            is_pitching: false,
        }))
    }
}

fn run_chain(
    module: &mut NormalModule<PassThrough>,
    hook: &JsLoaderResolver,
    channel: &mut MockChannel,
    native_runs: &mut Vec<String>,
) -> Result<(module_pipeline::build_info::LoaderResult, Vec<Diagnostic>), InternalError> {
    let mut cx = module.begin_build(hook)?;
    let mut run = LoaderRun::new();
    loop {
        match run.next(&mut cx) {
            LoaderStep::Pitch(at) => {
                if let Loader::Js(adapter) = cx.loader_items[at].loader.duplicate() {
                    let call = adapter.pitch(&cx)?;
                    let answer = channel.call(call);
                    adapter.pitch_answered(&mut cx, answer)?;
                }
            }
            LoaderStep::ProcessResource => {
                cx.content = Some(Content::String(format!("read({})", cx.resource_path)));
            }
            LoaderStep::Normal(at) => match cx.loader_items[at].loader.duplicate() {
                Loader::Js(adapter) => {
                    let call = adapter.run(&cx)?;
                    let answer = channel.call(call);
                    adapter.run_answered(&mut cx, answer)?;
                }
                Loader::Builtin { identifier, .. } => {
                    native_runs.push(identifier.clone());
                    let before = cx.content.take().unwrap().into_string_lossy();
                    cx.content = Some(Content::String(format!("{identifier}({before})")));
                }
            },
            LoaderStep::Finish => break,
        }
    }
    cx.into_result()
}

fn build(
    loaders: Vec<Loader>,
    channel: &mut MockChannel,
    native_runs: &mut Vec<String>,
) -> (NormalModule<PassThrough>, BuildResult, Vec<Diagnostic>) {
    let options = Arc::new(CompilerOptions {
        context: "/project".to_string(),
        devtool: Devtool { enabled: false, source_map: false },
        output: OutputOptions { hash_salt: None },
    });
    let mut module = NormalModule::new(
        "/project/a.js".to_string(),
        "./a.js".to_string(),
        "./a.js".to_string(),
        ModuleType::Js,
        PassThrough,
        None,
        None,
        None,
        ResourceData::new("/project/a.js".to_string(), "/project/a.js".to_string()),
        None,
        loaders,
        options,
        false,
        7,
    );
    let hook = JsLoaderResolver { js_loader_runner: JsLoaderRunner::ThreadsafeFunction(3) };
    let outcome = run_chain(&mut module, &hook, channel, native_runs);
    let (result, diagnostics) = module.build(outcome).unwrap();
    (module, result, diagnostics)
}

fn js_b() -> Loader {
    Loader::Js(JsLoaderAdapter {
        runner: JsLoaderRunner::ThreadsafeFunction(3),
        identifier: "jsB".to_string(),
    })
}

#[test]
fn native_chain_builds_without_the_channel() {
    let mut channel = MockChannel { calls: vec![], fail: false };
    let mut native_runs = vec![];
    let (module, result, diagnostics) =
        build(vec![get_builtin_loader("nativeA", None)], &mut channel, &mut native_runs);
    assert!(channel.calls.is_empty());
    assert_eq!(native_runs, vec!["nativeA"]);
    assert!(matches!(
        module.source(),
        NormalModuleSource::BuiltSucceed(Source::RawText(t)) if t == "nativeA(read(/project/a.js))"
    ));
    assert!(diagnostics.is_empty());
    assert_eq!(result.build_info.hash.unwrap().len(), 16);
}

#[test]
fn mixed_chain_crosses_to_the_worker_once() {
    let mut channel = MockChannel { calls: vec![], fail: false };
    let mut native_runs = vec![];
    let (module, _, _) =
        build(vec![get_builtin_loader("nativeA", None), js_b()], &mut channel, &mut native_runs);
    assert_eq!(channel.calls, vec![(3, "nativeA$jsB".to_string(), true)]);
    assert!(native_runs.is_empty());
    assert_eq!(module.loaders().len(), 1);
    assert_eq!(module.loaders()[0].identifier(), "nativeA$jsB");
    assert!(matches!(
        module.source(),
        NormalModuleSource::BuiltSucceed(Source::RawText(t)) if t == "js(/project/a.js)"
    ));
}

#[test]
fn failing_worker_fails_the_module_not_the_build() {
    let mut channel = MockChannel { calls: vec![], fail: true };
    let mut native_runs = vec![];
    let (module, result, diagnostics) =
        build(vec![get_builtin_loader("nativeA", None), js_b()], &mut channel, &mut native_runs);
    assert_eq!(channel.calls.len(), 1);
    assert!(matches!(module.source(), NormalModuleSource::BuiltFailed(m) if m == "worker threw"));
    assert_eq!(diagnostics.len(), 1);
    assert_eq!(diagnostics[0].message, "worker threw");
    assert!(!result.build_info.hash.unwrap().is_empty());
    let generated = module.code_generation().unwrap();
    assert!(matches!(
        &generated.inner[0].source,
        Source::RawText(script) if script == "throw new Error(\"worker threw\");\n"
    ));
}
