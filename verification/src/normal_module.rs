use dashmap::DashMap;
use std::collections::hash_map::RandomState;
use std::sync::Arc;
use vstd::prelude::*;
use vstd::std_specs::cmp::PartialEqSpecImpl;
use vstd::utf8::encode_utf8;

use crate::build_info::{
    AnalyzeResult, BuildInfo, BuildMeta, BuildResult, Dependency, LoaderResult,
};
use crate::diagnostic::{error_messages, has_error, Diagnostic, InternalError, Severity};
use crate::hash::{absorb, digest_of, ContentHasher, FNV_OFFSET};
use crate::identifier::{
    identifier_of, identifiers_collide, lemma_identifier_distinguishes_requests, make_identifier,
    ModuleIdentifier,
};
use crate::loader::{chain_view, clone_loaders, Loader};
use crate::loader_context::LoaderContext;
use crate::loader_plugin::{selected_chain, JsLoaderResolver};
use crate::module_graph::ModuleGraph;
use crate::module_type::{contains_source_type, ModuleType, SourceType};
use crate::options::{CompilerOptions, Devtool};
use crate::resolver::Resolve;
use crate::contextify::{contextified, contextify};
use crate::path::{is_absolute, join_segments, parent_of};
use crate::resource::{get_context, ResourceData};
use crate::size_cache::{cache_clear, cache_get, cache_insert, cached_sizes, new_cache};
use crate::source::{same_source, Content, Source, SourceMap};
use crate::text::{concat, first_index_of, find_char, slice_chars};

verus! {

/// The least size that a module reports.
pub const MIN_SIZE: i64 = 1;

/// The text that opens the content hash of every module.
pub const MODULE_MARKER: &'static str = "__rspack_internal__NormalModule";

/// The JSON text of a string, as the JSON writer makes it.
pub uninterp spec fn json_text(text: Seq<char>) -> Seq<char>;

/// Makes a `serde_json::Value` of the text and calls its `to_string`. The
/// contract claims that the JSON text depends on the text alone.
#[verifier::external_body]
fn to_json_text(text: &str) -> (json: String)
    ensures
        json@ == json_text(text@),
{
    serde_json::Value::from(text).to_string()
}

/// No size of the cache is below the least size.
pub open spec fn sizes_floored(sizes: Map<u64, i64>) -> bool {
    forall|k: u64| (#[trigger] sizes.dom().contains(k)) ==> sizes[k] >= MIN_SIZE
}

/// The size that a module answers for a source type: the remembered size
/// where there is one; else what the generator reports, but never less than
/// the least size.
pub open spec fn size_answer(sizes: Map<u64, i64>, code: u64, reported: i64) -> i64 {
    if sizes.dom().contains(code) {
        sizes[code]
    } else if reported < MIN_SIZE {
        MIN_SIZE
    } else {
        reported
    }
}

/// A size that was answered once is answered again, whatever the generator
/// would report by then, and no answer is below the least size.
pub proof fn lemma_size_is_remembered(sizes: Map<u64, i64>, code: u64, first: i64, second: i64)
    requires
        sizes_floored(sizes),
    ensures
        size_answer(sizes, code, first) >= MIN_SIZE,
        size_answer(sizes.insert(code, size_answer(sizes, code, first)), code, second)
            == size_answer(sizes, code, first),
        sizes_floored(sizes.insert(code, size_answer(sizes, code, first))),
{
}

/// The JSON text of a failure message stands in the script that raises it,
/// behind the sixteen characters that open the script.
pub proof fn lemma_failure_script_holds_message(message: Seq<char>)
    ensures
        failure_script(message).len() == 16 + json_text(message).len() + 3,
        failure_script(message).subrange(16, 16 + json_text(message).len() as int) == json_text(
            message,
        ),
{
    reveal_strlit("throw new Error(");
    reveal_strlit(");\n");
}

/// The script that raises a failure message where it is run.
pub open spec fn failure_script(message: Seq<char>) -> Seq<char> {
    "throw new Error("@ + json_text(message) + ");\n"@
}

/// The kinds of source that a module can be given.
#[derive(Clone, Copy, Debug, PartialEq, Eq, Structural)]
pub enum SourceKind {
    RawBuffer,
    WithSourceMap,
    Original,
    RawText,
}

/// The kind of source that is made of what the loaders produced: bytes stay
/// raw; text gets its source map where debugging output is on and a map is
/// there, remembers its origin where source maps are generated, and is raw
/// otherwise.
pub open spec fn source_kind_for(is_buffer: bool, has_map: bool, devtool: Devtool) -> SourceKind {
    if is_buffer {
        SourceKind::RawBuffer
    } else if devtool.enabled && has_map {
        SourceKind::WithSourceMap
    } else if devtool.source_map {
        SourceKind::Original
    } else {
        SourceKind::RawText
    }
}

/// `source` is the source of the given kind for the content, the map and
/// the request.
pub open spec fn source_made_of(
    source: Source,
    kind: SourceKind,
    content: Content,
    source_map: Option<SourceMap>,
    request: Seq<char>,
) -> bool {
    match source {
        Source::RawBuffer(bytes) => kind == SourceKind::RawBuffer && bytes@ == content.bytes(),
        Source::WithSourceMap { value, name, source_map: map } => kind
            == SourceKind::WithSourceMap && value@ == content.text() && name@ == request
            && source_map == Some(map),
        Source::Original { value, name } => kind == SourceKind::Original && value@
            == content.text() && name@ == request,
        Source::RawText(text) => kind == SourceKind::RawText && text@ == content.text(),
    }
}

/// The state of the content hash of a module: salt, marker, the content of
/// the original source where there is one, and the build meta.
pub open spec fn module_hash_state(
    salt: Option<String>,
    original: Option<Source>,
    meta: BuildMeta,
) -> u64 {
    let salted = match salt {
        Some(s) => absorb(FNV_OFFSET, encode_utf8(s@)),
        None => FNV_OFFSET,
    };
    let marked = absorb(salted, encode_utf8(MODULE_MARKER@));
    let sourced = match original {
        Some(source) => absorb(marked, source.content()),
        None => marked,
    };
    absorb(sourced, meta.bytes())
}

/// One generated artifact.
#[derive(Debug)]
pub struct GeneratedSource {
    pub source_type: SourceType,
    pub source: Source,
    /// Whether the artifact is kept for later generations.
    pub cached: bool,
}

/// What code generation hands back: the artifacts, and a hash over them.
#[derive(Debug)]
pub struct CodeGenerationResult {
    pub inner: Vec<GeneratedSource>,
    pub hash: Option<String>,
}

/// The state of the hash over artifacts: after the salt, for each artifact
/// the code of its source type and its content.
pub open spec fn artifacts_hash_state(salt: Option<String>, artifacts: Seq<GeneratedSource>) -> u64
    decreases artifacts.len(),
{
    if artifacts.len() == 0 {
        match salt {
            Some(s) => absorb(FNV_OFFSET, encode_utf8(s@)),
            None => FNV_OFFSET,
        }
    } else {
        let last = artifacts.last();
        absorb(
            absorb(
                artifacts_hash_state(salt, artifacts.drop_last()),
                seq![last.source_type.code() as u8],
            ),
            last.source.content(),
        )
    }
}

/// The artifacts that are made of what the generator returned: for each
/// source type, in order, the source that was generated for it, kept.
pub open spec fn packaged(types: Seq<SourceType>, generated: Seq<Source>) -> Seq<GeneratedSource> {
    Seq::new(
        generated.len(),
        |i: int| GeneratedSource { source_type: types[i], source: generated[i], cached: true },
    )
}

impl CodeGenerationResult {
    /// Packages what the generator returned for the source types of a
    /// module: one kept artifact for each source type, in order, holding
    /// the source that was generated for it, and the hash over them.
    pub fn package(types: &Vec<SourceType>, generated: Vec<Source>, salt: &Option<String>) -> (r:
        Self)
        requires
            generated@.len() == types@.len(),
        ensures
            r.inner@ == packaged(types@, generated@),
            r.hash matches Some(h) && h@ == digest_of(artifacts_hash_state(*salt, r.inner@)),
    {
        let ghost all = generated@;
        let mut rest = generated;
        // Sources are taken from the back and put in place afterwards.
        let mut taken: Vec<Source> = Vec::new();
        while rest.len() > 0
            invariant
                rest@ == all.take(rest@.len() as int),
                rest@.len() + taken@.len() == all.len(),
                forall|j: int| 0 <= j < taken@.len() ==> taken@[j] == all[all.len() - 1 - j],
            decreases rest@.len(),
        {
            let source = rest.pop().unwrap();
            assert(rest@ == all.take(rest@.len() as int));
            taken.push(source);
        }
        let mut result = CodeGenerationResult::new();
        let mut i: usize = 0;
        while i < types.len()
            invariant
                0 <= i <= types@.len(),
                all.len() == types@.len(),
                i + taken@.len() == all.len(),
                forall|j: int| 0 <= j < taken@.len() ==> taken@[j] == all[all.len() - 1 - j],
                result.hash is None,
                result.inner@ == packaged(types@, all.take(i as int)),
            decreases types@.len() - i,
        {
            let ghost n = taken@.len();
            let source = taken.pop().unwrap();
            assert(source == all[i as int]);
            result.add(types[i], source, true);
            i = i + 1;
            assert(result.inner@ == packaged(types@, all.take(i as int)));
        }
        proof {
            assert(all.take(i as int) == all);
        }
        result.set_hash(salt);
        result
    }

    pub fn new() -> (r: Self)
        ensures
            r.inner@.len() == 0,
            r.hash is None,
    {
        CodeGenerationResult { inner: Vec::new(), hash: None }
    }

    /// Adds an artifact behind those that are there.
    pub fn add(&mut self, source_type: SourceType, source: Source, cached: bool)
        ensures
            final(self).inner@ == old(self).inner@.push(
                GeneratedSource { source_type, source, cached },
            ),
            final(self).hash == old(self).hash,
    {
        self.inner.push(GeneratedSource { source_type, source, cached });
    }

    /// Stamps the result with the hash over its artifacts.
    pub fn set_hash(&mut self, salt: &Option<String>)
        ensures
            final(self).inner == old(self).inner,
            final(self).hash matches Some(h) && h@ == digest_of(
                artifacts_hash_state(*salt, old(self).inner@),
            ),
    {
        let mut hasher = ContentHasher::with_salt(salt);
        let mut i: usize = 0;
        while i < self.inner.len()
            invariant
                0 <= i <= self.inner@.len(),
                self.inner == old(self).inner,
                hasher.state == artifacts_hash_state(*salt, self.inner@.take(i as int)),
            decreases self.inner@.len() - i,
        {
            let mut tag: Vec<u8> = Vec::new();
            tag.push(code_byte(self.inner[i].source_type));
            hasher.write(tag.as_slice());
            let content = self.inner[i].source.content_bytes();
            hasher.write(content.as_slice());
            i = i + 1;
            proof {
                let now = self.inner@.take(i as int);
                assert(now.drop_last() == self.inner@.take(i - 1));
                assert(now.last() == self.inner@[i - 1]);
                assert(tag@ == seq![self.inner@[i - 1].source_type.code() as u8]);
            }
        }
        proof {
            assert(self.inner@.take(i as int) == self.inner@);
        }
        self.hash = Some(hasher.digest());
    }
}

fn code_byte(source_type: SourceType) -> (b: u8)
    ensures
        b == source_type.code() as u8,
{
    match source_type {
        SourceType::JavaScript => 0,
        SourceType::Css => 1,
        SourceType::Wasm => 2,
        SourceType::Asset => 3,
        SourceType::Unknown => 4,
    }
}

/// What the name of a module for libraries is made with.
#[derive(Debug)]
pub struct LibIdentOptions {
    /// The directory from which the module is named.
    pub context: String,
}

/// The module that asked for a module.
#[derive(Debug)]
pub enum ModuleIssuer {
    /// Not known yet.
    Unset,
    /// The module was asked for by no module: it is an entry.
    Null,
    Identifier(ModuleIdentifier),
}

impl ModuleIssuer {
    pub fn from_identifier(identifier: Option<ModuleIdentifier>) -> (issuer: Self)
        ensures
            issuer == match identifier {
                Some(id) => ModuleIssuer::Identifier(id),
                None => ModuleIssuer::Null,
            },
    {
        match identifier {
            Some(id) => ModuleIssuer::Identifier(id),
            None => ModuleIssuer::Null,
        }
    }

    pub fn identifier(&self) -> (id: Option<&ModuleIdentifier>)
        ensures
            id == match *self {
                ModuleIssuer::Identifier(id) => Some(&id),
                _ => None,
            },
    {
        match self {
            ModuleIssuer::Identifier(id) => Some(id),
            _ => None,
        }
    }

    /// The issuing module, where it is known and the graph holds it.
    pub fn get_module<'a, G: ParserAndGenerator>(&self, module_graph: &'a ModuleGraph<G>) -> (m:
        Option<&'a NormalModule<G>>)
        requires
            module_graph.wf(),
        ensures
            m == match *self {
                ModuleIssuer::Identifier(id) => module_graph.spec_module_by_identifier(id@),
                _ => None,
            },
    {
        match self.identifier() {
            Some(id) => module_graph.module_by_identifier(id),
            None => None,
        }
    }
}

/// What a parser is given.
#[derive(Debug)]
pub struct ParseContext {
    pub source: Source,
    pub module_identifier: ModuleIdentifier,
    pub module_type: ModuleType,
    pub module_user_request: String,
    pub module_parser_options: Option<String>,
    pub resource_data: ResourceData,
    pub additional_data: Option<String>,
}

/// What a parser hands back.
#[derive(Debug)]
pub struct ParseResult {
    pub source: Source,
    pub dependencies: Vec<Dependency>,
    pub presentational_dependencies: Vec<Dependency>,
    pub code_generation_dependencies: Vec<Dependency>,
    pub build_meta: BuildMeta,
    pub analyze_result: AnalyzeResult,
    pub diagnostics: Vec<Diagnostic>,
}

/// The parser and the code generator of a module type. The pipeline calls
/// them and promises nothing about what they return.
pub trait ParserAndGenerator {
    /// The source types that modules of this kind can be generated as.
    fn source_types(&self) -> Vec<SourceType>;

    /// The size of what would be generated for the source type.
    fn size(&self, source: &NormalModuleSource, source_type: SourceType) -> i64;

    /// Finds the dependencies of a source.
    fn parse(&mut self, context: ParseContext) -> Result<ParseResult, InternalError>;

    /// Generates the code of the requested source type.
    fn generate(&self, source: &Source, requested_source_type: SourceType) -> Result<
        Source,
        InternalError,
    >;
}

/// The build state of a module.
#[derive(Debug)]
pub enum NormalModuleSource {
    Unbuild,
    BuiltSucceed(Source),
    BuiltFailed(String),
}

/// The build state of a module, as plain values.
pub enum BuildState {
    Unbuilt,
    Succeeded(Source),
    Failed(Seq<char>),
}

impl View for NormalModuleSource {
    type V = BuildState;

    open spec fn view(&self) -> BuildState {
        match *self {
            NormalModuleSource::Unbuild => BuildState::Unbuilt,
            NormalModuleSource::BuiltSucceed(source) => BuildState::Succeeded(source),
            NormalModuleSource::BuiltFailed(message) => BuildState::Failed(message@),
        }
    }
}

/// The state that a finished build leaves: failed, with the messages of the
/// errors one per line, where the diagnostics hold an error; else succeeded.
pub open spec fn built_state(source: Source, diagnostics: Seq<Diagnostic>) -> BuildState {
    if has_error(diagnostics) {
        BuildState::Failed(join_segments(error_messages(diagnostics), '\n'))
    } else {
        BuildState::Succeeded(source)
    }
}

impl NormalModuleSource {
    pub fn new_built(source: Source, diagnostics: &Vec<Diagnostic>) -> (state: Self)
        ensures
            state@ == built_state(source, diagnostics@),
    {
        let mut message = String::new();
        let mut failed = false;
        let mut i: usize = 0;
        while i < diagnostics.len()
            invariant
                0 <= i <= diagnostics.len(),
                failed == (error_messages(diagnostics@.take(i as int)).len() > 0),
                message@ == join_segments(error_messages(diagnostics@.take(i as int)), '\n'),
            decreases diagnostics.len() - i,
        {
            let ghost before = error_messages(diagnostics@.take(i as int));
            let ghost text = message@;
            if matches!(diagnostics[i].severity, Severity::Error) {
                if failed {
                    proof {
                        reveal_strlit("\n");
                    }
                    message.append("\n");
                    assert(message@ == text.push('\n'));
                }
                message.append(diagnostics[i].message.as_str());
                failed = true;
            }
            i = i + 1;
            proof {
                let now = diagnostics@.take(i as int);
                assert(now.drop_last() == diagnostics@.take(i - 1));
                assert(now.last() == diagnostics@[i - 1]);
                let after = error_messages(now);
                if diagnostics@[i - 1].severity == Severity::Error {
                    assert(after == before.push(diagnostics@[i - 1].message@));
                    assert(after.drop_last() == before);
                    if before.len() == 0 {
                        assert(text == Seq::<char>::empty());
                        assert(message@ == diagnostics@[i - 1].message@);
                    }
                }
            }
        }
        proof {
            assert(diagnostics@.take(i as int) == diagnostics@);
            crate::diagnostic::lemma_has_error_messages(diagnostics@);
        }
        if failed {
            NormalModuleSource::BuiltFailed(message)
        } else {
            NormalModuleSource::BuiltSucceed(source)
        }
    }
}

/// A module that is read from a resource, passed through loaders, parsed
/// and generated.
pub struct NormalModule<G> {
    id: ModuleIdentifier,
    context: String,
    request: String,
    user_request: String,
    raw_request: String,
    module_type: ModuleType,
    parser_and_generator: G,
    source_types: Vec<SourceType>,
    match_resource: Option<ResourceData>,
    resource_data: ResourceData,
    loaders: Vec<Loader>,
    contains_inline_loader: bool,
    original_source: Option<Source>,
    source: NormalModuleSource,
    resolve_options: Option<Resolve>,
    parser_options: Option<String>,
    generator_options: Option<String>,
    options: Arc<CompilerOptions>,
    debug_id: usize,
    cached_source_sizes: DashMap<u64, i64, RandomState>,
    code_generation_dependencies: Option<Vec<Dependency>>,
    presentational_dependencies: Option<Vec<Dependency>>,
}

/// What a module holds, as plain values.
pub struct ModuleView {
    pub identifier: Seq<char>,
    pub context: Seq<char>,
    pub request: Seq<char>,
    pub user_request: Seq<char>,
    pub raw_request: Seq<char>,
    pub module_type: ModuleType,
    pub source_types: Seq<SourceType>,
    pub match_resource: Option<ResourceData>,
    pub resource_data: ResourceData,
    pub loaders: Seq<Loader>,
    pub contains_inline_loader: bool,
    pub original_source: Option<Source>,
    pub state: BuildState,
    pub resolve_options: Option<Resolve>,
    pub parser_options: Option<String>,
    pub generator_options: Option<String>,
    pub options: CompilerOptions,
    pub debug_id: usize,
    pub sizes: Map<u64, i64>,
    pub code_generation_dependencies: Option<Vec<Dependency>>,
    pub presentational_dependencies: Option<Vec<Dependency>>,
}

impl<G: ParserAndGenerator> View for NormalModule<G> {
    type V = ModuleView;

    closed spec fn view(&self) -> ModuleView {
        ModuleView {
            identifier: self.id@,
            context: self.context@,
            request: self.request@,
            user_request: self.user_request@,
            raw_request: self.raw_request@,
            module_type: self.module_type,
            source_types: self.source_types@,
            match_resource: self.match_resource,
            resource_data: self.resource_data,
            loaders: self.loaders@,
            contains_inline_loader: self.contains_inline_loader,
            original_source: self.original_source,
            state: self.source@,
            resolve_options: self.resolve_options,
            parser_options: self.parser_options,
            generator_options: self.generator_options,
            options: *self.options,
            debug_id: self.debug_id,
            sizes: cached_sizes(self.cached_source_sizes),
            code_generation_dependencies: self.code_generation_dependencies,
            presentational_dependencies: self.presentational_dependencies,
        }
    }
}

/// The module after a build whose loader chain failed with `message`: in
/// the failed state, without original source, dependencies or remembered
/// sizes, and otherwise as before.
pub open spec fn failed_module(before: ModuleView, message: Seq<char>) -> ModuleView {
    ModuleView {
        state: BuildState::Failed(message),
        original_source: None,
        code_generation_dependencies: None,
        presentational_dependencies: None,
        sizes: crate::size_cache::no_sizes(),
        ..before
    }
}

/// The module after a build that ended with what the parser handed back:
/// in the state that the parsed source and all diagnostics give, with the
/// original source and the dependencies kept, without remembered sizes,
/// and otherwise as before.
pub open spec fn built_module(
    before: ModuleView,
    original: Source,
    loader_diagnostics: Seq<Diagnostic>,
    parsed: ParseResult,
) -> ModuleView {
    ModuleView {
        state: built_state(parsed.source, loader_diagnostics + parsed.diagnostics@),
        original_source: Some(original),
        code_generation_dependencies: Some(parsed.code_generation_dependencies),
        presentational_dependencies: Some(parsed.presentational_dependencies),
        sizes: crate::size_cache::no_sizes(),
        ..before
    }
}

impl<G: ParserAndGenerator> PartialEq for NormalModule<G> {
    fn eq(&self, other: &Self) -> (r: bool) {
        self.id == other.id
    }
}

impl<G: ParserAndGenerator> PartialEqSpecImpl for NormalModule<G> {
    open spec fn obeys_eq_spec() -> bool {
        true
    }

    open spec fn eq_spec(&self, other: &Self) -> bool {
        self.spec_identifier() == other.spec_identifier()
    }
}

impl<G: ParserAndGenerator> Eq for NormalModule<G> {

}

impl<G: ParserAndGenerator> NormalModule<G> {
    /// The identifier of the module.
    pub open spec fn spec_identifier(&self) -> Seq<char> {
        self@.identifier
    }

    pub open spec fn spec_module_type(&self) -> ModuleType {
        self@.module_type
    }

    pub open spec fn spec_request(&self) -> Seq<char> {
        self@.request
    }

    pub open spec fn spec_user_request(&self) -> Seq<char> {
        self@.user_request
    }

    pub open spec fn spec_raw_request(&self) -> Seq<char> {
        self@.raw_request
    }

    pub open spec fn spec_context(&self) -> Seq<char> {
        self@.context
    }

    pub open spec fn spec_resource_data(&self) -> ResourceData {
        self@.resource_data
    }

    pub open spec fn spec_match_resource(&self) -> Option<ResourceData> {
        self@.match_resource
    }

    /// The loader chain of the module.
    pub open spec fn spec_loaders(&self) -> Seq<Loader> {
        self@.loaders
    }

    pub open spec fn spec_contains_inline_loader(&self) -> bool {
        self@.contains_inline_loader
    }

    /// The source types that the module can be generated as.
    pub open spec fn spec_source_types(&self) -> Seq<SourceType> {
        self@.source_types
    }

    /// The build state of the module.
    pub open spec fn state(&self) -> BuildState {
        self@.state
    }

    /// The source that the loaders produced in the last successful build.
    pub open spec fn spec_original_source(&self) -> Option<Source> {
        self@.original_source
    }

    /// The sizes that the module remembers, by the code of the source type.
    pub open spec fn sizes(&self) -> Map<u64, i64> {
        self@.sizes
    }

    pub open spec fn spec_options(&self) -> CompilerOptions {
        self@.options
    }

    pub open spec fn spec_debug_id(&self) -> usize {
        self@.debug_id
    }

    pub open spec fn spec_code_generation_dependencies(&self) -> Option<Vec<Dependency>> {
        self@.code_generation_dependencies
    }

    pub open spec fn spec_presentational_dependencies(&self) -> Option<Vec<Dependency>> {
        self@.presentational_dependencies
    }

    /// The identifier is the one that the module's type and request give,
    /// and no remembered size is below the least size.
    pub open spec fn wf(&self) -> bool {
        &&& self@.identifier == identifier_of(self@.module_type, self@.request)
        &&& sizes_floored(self@.sizes)
    }

    /// A module that has not been built. Its identifier is computed here,
    /// from its type and request, and stays as it is.
    pub fn new(
        request: String,
        user_request: String,
        raw_request: String,
        module_type: ModuleType,
        parser_and_generator: G,
        parser_options: Option<String>,
        generator_options: Option<String>,
        match_resource: Option<ResourceData>,
        resource_data: ResourceData,
        resolve_options: Option<Resolve>,
        loaders: Vec<Loader>,
        options: Arc<CompilerOptions>,
        contains_inline_loader: bool,
        debug_id: usize,
    ) -> (m: Self)
        ensures
            m.wf(),
            m.spec_identifier() == identifier_of(module_type, request@),
            m.spec_module_type() == module_type,
            m.spec_request() == request@,
            m.spec_user_request() == user_request@,
            m.spec_raw_request() == raw_request@,
            m.spec_context() == parent_of(resource_data.resource_path@),
            m.spec_resource_data() == resource_data,
            m.spec_match_resource() == match_resource,
            m.spec_loaders() == loaders@,
            m.spec_contains_inline_loader() == contains_inline_loader,
            m.state() == BuildState::Unbuilt,
            m.spec_original_source() is None,
            m.sizes() == crate::size_cache::no_sizes(),
            m.spec_options() == *options,
            m.spec_debug_id() == debug_id,
            m.spec_code_generation_dependencies() is None,
            m.spec_presentational_dependencies() is None,
            m.spec_resolve_options() == resolve_options,
            m@.parser_options == parser_options,
            m@.generator_options == generator_options,
    {
        let id = make_identifier(module_type, request.as_str());
        let source_types = parser_and_generator.source_types();
        NormalModule {
            id,
            context: get_context(&resource_data),
            request,
            user_request,
            raw_request,
            module_type,
            parser_and_generator,
            source_types,
            parser_options,
            generator_options,
            match_resource,
            resource_data,
            resolve_options,
            loaders,
            contains_inline_loader,
            original_source: None,
            source: NormalModuleSource::Unbuild,
            debug_id,
            options,
            cached_source_sizes: new_cache(),
            code_generation_dependencies: None,
            presentational_dependencies: None,
        }
    }

    pub fn identifier(&self) -> (id: &ModuleIdentifier)
        ensures
            id@ == self.spec_identifier(),
    {
        &self.id
    }

    pub fn match_resource(&self) -> (r: Option<&ResourceData>)
        ensures
            r == match self.spec_match_resource() {
                Some(d) => Some(&d),
                None => None,
            },
    {
        self.match_resource.as_ref()
    }

    pub fn resource_resolved_data(&self) -> (r: &ResourceData)
        ensures
            *r == self.spec_resource_data(),
    {
        &self.resource_data
    }

    pub fn request(&self) -> (r: &str)
        ensures
            r@ == self.spec_request(),
    {
        self.request.as_str()
    }

    pub fn user_request(&self) -> (r: &str)
        ensures
            r@ == self.spec_user_request(),
    {
        self.user_request.as_str()
    }

    pub fn raw_request(&self) -> (r: &str)
        ensures
            r@ == self.spec_raw_request(),
    {
        self.raw_request.as_str()
    }

    pub fn source(&self) -> (r: &NormalModuleSource)
        ensures
            r@ == self.state(),
    {
        &self.source
    }

    pub fn contains_inline_loader(&self) -> (r: bool)
        ensures
            r == self.spec_contains_inline_loader(),
    {
        self.contains_inline_loader
    }

    pub fn module_type(&self) -> (r: &ModuleType)
        ensures
            *r == self.spec_module_type(),
    {
        &self.module_type
    }

    pub fn source_types(&self) -> (r: &Vec<SourceType>)
        ensures
            r@ == self.spec_source_types(),
    {
        &self.source_types
    }

    pub fn loaders(&self) -> (r: &Vec<Loader>)
        ensures
            r@ == self.spec_loaders(),
    {
        &self.loaders
    }

    pub fn get_context(&self) -> (r: Option<&str>)
        ensures
            r matches Some(c) && c@ == self.spec_context(),
    {
        Some(self.context.as_str())
    }

    pub open spec fn spec_resolve_options(&self) -> Option<Resolve> {
        self@.resolve_options
    }

    pub fn get_resolve_options(&self) -> (r: Option<&Resolve>)
        ensures
            r == match self.spec_resolve_options() {
                Some(o) => Some(&o),
                None => None,
            },
    {
        self.resolve_options.as_ref()
    }

    /// This module with another loader chain.
    pub closed spec fn with_loaders(self, loaders: Vec<Loader>) -> Self {
        NormalModule { loaders, ..self }
    }

    /// This module with another build state.
    pub closed spec fn with_source(self, source: NormalModuleSource) -> Self {
        NormalModule { source, ..self }
    }

    /// The build state, for the owner of the module to replace.
    pub fn source_mut(&mut self) -> (r: &mut NormalModuleSource)
        ensures
            r@ == old(self).state(),
            *final(self) == old(self).with_source(*final(r)),
    {
        &mut self.source
    }

    /// The loader chain, for the loader-selection policy to replace.
    pub fn loaders_mut_vec(&mut self) -> (r: &mut Vec<Loader>)
        ensures
            r@ == old(self).spec_loaders(),
            *final(self) == old(self).with_loaders(*final(r)),
    {
        &mut self.loaders
    }

    /// The source that is made of what the loaders produced.
    pub fn create_source(&self, content: Content, source_map: Option<SourceMap>) -> (r: Result<
        Source,
        InternalError,
    >)
        ensures
            r matches Ok(source) && source_made_of(
                source,
                source_kind_for(
                    content is Buffer,
                    source_map is Some,
                    self.spec_options().devtool,
                ),
                content,
                source_map,
                self.spec_request(),
            ),
    {
        if content.is_buffer() {
            return Ok(Source::RawBuffer(content.into_bytes()));
        }
        if self.options.devtool.enabled() {
            if let Some(map) = source_map {
                return Ok(
                    Source::WithSourceMap {
                        value: content.into_string_lossy(),
                        name: self.request.clone(),
                        source_map: map,
                    },
                );
            }
        }
        if self.options.devtool.source_map() {
            return Ok(
                Source::Original { value: content.into_string_lossy(), name: self.request.clone() },
            );
        }
        Ok(Source::RawText(content.into_string_lossy()))
    }

    /// Answers the size of the module for a source type from what the
    /// generator reported, and remembers the answer: the remembered size
    /// where there is one, else the report, but never less than the least
    /// size. Nothing else of the module changes.
    pub fn remember_size(&mut self, source_type: &SourceType, reported: i64) -> (size: i64)
        requires
            old(self).wf(),
        ensures
            final(self).wf(),
            size == size_answer(old(self).sizes(), source_type.code(), reported),
            final(self)@ == (ModuleView {
                sizes: old(self).sizes().insert(source_type.code(), size),
                ..old(self)@
            }),
    {
        let key = source_type.cache_key();
        let size = match cache_get(&self.cached_source_sizes, key) {
            Some(remembered) => remembered,
            None => if reported < MIN_SIZE {
                MIN_SIZE
            } else {
                reported
            },
        };
        cache_insert(&mut self.cached_source_sizes, key, size);
        assert(sizes_floored(self.sizes()));
        size
    }

    /// The size of the module for a source type: what the generator says,
    /// but never less than the least size. The answer is remembered, and a
    /// remembered answer is given again without asking the generator. The
    /// generator is asked with the build state of the module and the source
    /// type, and what it reports is answered as `remember_size` says.
    pub fn size(&mut self, source_type: &SourceType) -> (size: i64)
        requires
            old(self).wf(),
        ensures
            final(self).wf(),
            size >= MIN_SIZE,
            exists|reported: i64| size == size_answer(old(self).sizes(), source_type.code(), reported),
            old(self).sizes().dom().contains(source_type.code()) ==> size == old(
                self,
            ).sizes()[source_type.code()],
            final(self)@ == (ModuleView {
                sizes: old(self).sizes().insert(source_type.code(), size),
                ..old(self)@
            }),
    {
        match cache_get(&self.cached_source_sizes, source_type.cache_key()) {
            Some(size) => {
                assert(self.sizes().insert(source_type.code(), size) == self.sizes());
                assert(size == size_answer(self.sizes(), source_type.code(), size));
                size
            },
            None => {
                let reported = self.parser_and_generator.size(&self.source, *source_type);
                self.remember_size(source_type, reported)
            },
        }
    }

    /// The size that the module remembers for a source type.
    pub fn cached_size(&self, source_type: &SourceType) -> (size: Option<i64>)
        ensures
            size == if self.sizes().dom().contains(source_type.code()) {
                Some(self.sizes()[source_type.code()])
            } else {
                None
            },
    {
        cache_get(&self.cached_source_sizes, source_type.cache_key())
    }

    fn content_hash(&self, meta: &BuildMeta) -> (digest: String)
        ensures
            digest@ == digest_of(
                module_hash_state(self.options.output.hash_salt, self.original_source, *meta),
            ),
            digest@.len() == 16,
    {
        let mut hasher = ContentHasher::with_salt(&self.options.output.hash_salt);
        hasher.write_str(MODULE_MARKER);
        match &self.original_source {
            Some(source) => {
                let bytes = source.content_bytes();
                hasher.write(bytes.as_slice());
            },
            None => {},
        }
        let meta_bytes = meta.to_bytes();
        hasher.write(meta_bytes.as_slice());
        hasher.digest()
    }

    /// The content hash that a build with the given original source and
    /// meta stamps on this module.
    pub open spec fn hash_for(&self, original: Option<Source>, meta: BuildMeta) -> Seq<char> {
        digest_of(module_hash_state(self@.options.output.hash_salt, original, meta))
    }

    /// Every content hash has sixteen digits.
    pub proof fn lemma_hash_not_empty(&self, original: Option<Source>, meta: BuildMeta)
        ensures
            self.hash_for(original, meta).len() == 16,
    {
    }

    /// Starts a build. The loader-selection policy is applied to the
    /// module, whatever its chain, and only then the context for the run of
    /// the chain is made: for the resource of the module and the steps of
    /// the chain as the policy left it, with nothing run and nothing
    /// produced.
    pub fn begin_build(&mut self, hook: &JsLoaderResolver) -> (r: Result<
        LoaderContext,
        InternalError,
    >)
        requires
            old(self).wf(),
        ensures
            final(self).wf(),
            chain_view(final(self).spec_loaders()) == selected_chain(
                old(self).spec_loaders(),
                old(self).spec_contains_inline_loader(),
                hook.js_loader_runner,
            ),
            final(self)@ == (ModuleView { loaders: final(self).spec_loaders(), ..old(self)@ }),
            r matches Ok(cx) && {
                &&& cx.content is None
                &&& cx.source_map is None
                &&& cx.additional_data is None
                &&& cx.resource == final(self).spec_resource_data().resource
                &&& cx.resource_path == final(self).spec_resource_data().resource_path
                &&& cx.resource_query == final(self).spec_resource_data().resource_query
                &&& cx.resource_fragment == final(self).spec_resource_data().resource_fragment
                &&& cx.loader_index == 0
                &&& cx.diagnostics@.len() == 0
                &&& cx.loader_items@.len() == final(self).spec_loaders().len()
                &&& forall|i: int|
                    0 <= i < cx.loader_items@.len() ==> (#[trigger] cx.loader_items@[i]).loader
                        == final(self).spec_loaders()[i] && !cx.loader_items@[i].pitch_executed
                        && !cx.loader_items@[i].normal_executed
            },
    {
        match hook.before_loaders(self) {
            Ok(_) => {},
            Err(e) => {
                return Err(e);
            },
        }
        let data = self.resource_data.clone();
        Ok(
            LoaderContext::new(
                data.resource,
                data.resource_path,
                data.resource_query,
                data.resource_fragment,
                clone_loaders(&self.loaders),
            ),
        )
    }

    /// What the parser is given for a source that the loaders produced: a
    /// copy of the source, the identity, type, user request and resource of
    /// the module, the parser options of its rule, and the additional data
    /// of the loaders.
    pub fn parse_context(&self, original: &Source, additional_data: Option<String>) -> (cx:
        ParseContext)
        ensures
            same_source(cx.source, *original),
            cx.module_identifier@ == self.spec_identifier(),
            cx.module_type == self.spec_module_type(),
            cx.module_user_request@ == self.spec_user_request(),
            cx.module_parser_options == self@.parser_options,
            cx.resource_data == self.spec_resource_data(),
            cx.additional_data == additional_data,
    {
        ParseContext {
            source: original.duplicate(),
            module_identifier: self.id.duplicate(),
            module_type: self.module_type,
            module_user_request: self.user_request.clone(),
            module_parser_options: match &self.parser_options {
                Some(o) => Some(o.clone()),
                None => None,
            },
            resource_data: self.resource_data.clone(),
            additional_data,
        }
    }

    /// Records that the loader chain failed. The module is left in the
    /// failed state with the message of the failure, without original
    /// source, dependencies or remembered sizes. The build itself succeeds:
    /// it carries a hash of the failed state, and the failure as its only
    /// diagnostic.
    pub fn fail_build(&mut self, failure: InternalError) -> (r: (BuildResult, Vec<Diagnostic>))
        requires
            old(self).wf(),
        ensures
            final(self).wf(),
            final(self)@ == failed_module(old(self)@, failure.message@),
            r.0.build_info.hash matches Some(h) && h@ == old(self).hash_for(
                None,
                BuildMeta::initial(),
            ) && h@.len() == 16,
            r.0.analyze_result.entries@.len() == 0,
            r.0.build_info.cacheable,
            r.0.build_info.file_dependencies@.len() == 0,
            r.0.build_info.context_dependencies@.len() == 0,
            r.0.build_info.missing_dependencies@.len() == 0,
            r.0.build_info.build_dependencies@.len() == 0,
            r.0.build_info.asset_filenames@.len() == 0,
            r.0.build_meta == BuildMeta::initial(),
            r.0.dependencies@.len() == 0,
            r.1@.len() == 1,
            r.1@[0].message == failure.message,
            r.1@[0].severity == failure.severity,
    {
        cache_clear(&mut self.cached_source_sizes);
        self.source = NormalModuleSource::BuiltFailed(failure.message.clone());
        self.original_source = None;
        self.code_generation_dependencies = None;
        self.presentational_dependencies = None;
        let build_meta = BuildMeta::new();
        let mut build_info = BuildInfo::new();
        build_info.hash = Some(self.content_hash(&build_meta));
        let mut diagnostics: Vec<Diagnostic> = Vec::new();
        diagnostics.push(failure.into_diagnostic());
        (
            BuildResult {
                build_info,
                build_meta,
                dependencies: Vec::new(),
                analyze_result: AnalyzeResult::new(),
            },
            diagnostics,
        )
    }

    /// Records what loaders and parser produced. The module keeps the
    /// original source and the dependencies for code generation, and is in
    /// the state that the parsed source and all diagnostics give: failed if
    /// one of them is an error, succeeded otherwise. The result carries
    /// what the loaders recorded, stamped with the hash over the original
    /// source and the meta, and the diagnostics of the loaders followed by
    /// the parser's.
    pub fn finish_build(
        &mut self,
        recorded: BuildInfo,
        loader_diagnostics: Vec<Diagnostic>,
        original_source: Source,
        parsed: ParseResult,
    ) -> (r: (BuildResult, Vec<Diagnostic>))
        requires
            old(self).wf(),
        ensures
            final(self).wf(),
            final(self)@ == built_module(
                old(self)@,
                original_source,
                loader_diagnostics@,
                parsed,
            ),
            r.0.build_info.hash matches Some(h) && h@ == old(self).hash_for(
                Some(original_source),
                parsed.build_meta,
            ) && h@.len() == 16,
            r.0.analyze_result == parsed.analyze_result,
            r.0.build_info.cacheable == recorded.cacheable,
            r.0.build_info.file_dependencies == recorded.file_dependencies,
            r.0.build_info.context_dependencies == recorded.context_dependencies,
            r.0.build_info.missing_dependencies == recorded.missing_dependencies,
            r.0.build_info.build_dependencies == recorded.build_dependencies,
            r.0.build_info.asset_filenames == recorded.asset_filenames,
            r.0.build_meta == parsed.build_meta,
            r.0.dependencies == parsed.dependencies,
            r.1@ == loader_diagnostics@ + parsed.diagnostics@,
    {
        let ParseResult {
            source,
            dependencies,
            presentational_dependencies,
            code_generation_dependencies,
            build_meta,
            analyze_result,
            diagnostics: parse_diagnostics,
        } = parsed;
        let mut diagnostics = loader_diagnostics;
        let mut parse_diagnostics = parse_diagnostics;
        diagnostics.append(&mut parse_diagnostics);
        cache_clear(&mut self.cached_source_sizes);
        self.original_source = Some(original_source);
        self.source = NormalModuleSource::new_built(source, &diagnostics);
        self.code_generation_dependencies = Some(code_generation_dependencies);
        self.presentational_dependencies = Some(presentational_dependencies);
        let mut build_info = recorded;
        build_info.hash = Some(self.content_hash(&build_meta));
        (BuildResult { build_info, build_meta, dependencies, analyze_result }, diagnostics)
    }

    /// Builds the module from the outcome of its loader chain. A chain that
    /// failed leaves the module failed and the build successful, as
    /// `fail_build` says. Of a chain that succeeded the source is made, of
    /// bytes for a binary module type and of text otherwise, and handed to
    /// the parser, as `parse_context` says; where the parser fails, so does
    /// the build, and the module stays as it was; else the build ends as
    /// `finish_build` says of what the parser handed back. After every
    /// build that ends, no size is remembered.
    pub fn build(
        &mut self,
        loader_outcome: Result<(LoaderResult, Vec<Diagnostic>), InternalError>,
    ) -> (r: Result<(BuildResult, Vec<Diagnostic>), InternalError>)
        requires
            old(self).wf(),
        ensures
            final(self).wf(),
            match loader_outcome {
                Err(failure) => {
                    &&& r matches Ok(built)
                    &&& final(self)@ == failed_module(old(self)@, failure.message@)
                    &&& built.0.build_info.hash matches Some(h) && h@ == old(self).hash_for(
                        None,
                        BuildMeta::initial(),
                    ) && h@.len() == 16
                    &&& built.0.build_meta == BuildMeta::initial()
                    &&& built.0.dependencies@.len() == 0
                    &&& built.0.analyze_result.entries@.len() == 0
                    &&& built.1@.len() == 1
                    &&& built.1@[0].message == failure.message
                    &&& built.1@[0].severity == failure.severity
                },
                Ok(loaded) => match r {
                    Ok(built) => {
                        &&& final(self).spec_original_source() matches Some(original)
                            && source_made_of(
                            original,
                            source_kind_for(
                                old(self).spec_module_type().binary(),
                                loaded.0.source_map is Some,
                                old(self).spec_options().devtool,
                            ),
                            loaded.0.content,
                            loaded.0.source_map,
                            old(self).spec_request(),
                        )
                        &&& built.0.build_info.cacheable == loaded.0.cacheable
                        &&& built.0.build_info.file_dependencies == loaded.0.file_dependencies
                        &&& built.0.build_info.context_dependencies
                            == loaded.0.context_dependencies
                        &&& built.0.build_info.missing_dependencies
                            == loaded.0.missing_dependencies
                        &&& built.0.build_info.build_dependencies == loaded.0.build_dependencies
                        &&& built.0.build_info.asset_filenames == loaded.0.asset_filenames
                        &&& exists|parsed: ParseResult|
                            {
                                &&& final(self)@ == #[trigger] built_module(
                                    old(self)@,
                                    final(self).spec_original_source()->0,
                                    loaded.1@,
                                    parsed,
                                )
                                &&& built.0.build_info.hash matches Some(h) && h@ == old(
                                    self,
                                ).hash_for(
                                    final(self).spec_original_source(),
                                    parsed.build_meta,
                                ) && h@.len() == 16
                                &&& built.1@ == loaded.1@ + parsed.diagnostics@
                                &&& built.0.build_meta == parsed.build_meta
                                &&& built.0.dependencies == parsed.dependencies
                                &&& built.0.analyze_result == parsed.analyze_result
                            }
                    },
                    Err(_) => final(self)@ == old(self)@,
                },
            },
    {
        let (loader_result, loader_diagnostics) = match loader_outcome {
            Ok(loaded) => loaded,
            Err(failure) => {
                return Ok(self.fail_build(failure));
            },
        };
        let LoaderResult {
            content,
            source_map,
            additional_data,
            cacheable,
            file_dependencies,
            context_dependencies,
            missing_dependencies,
            build_dependencies,
            asset_filenames,
        } = loader_result;
        let content = if self.module_type.is_binary() {
            Content::Buffer(content.into_bytes())
        } else {
            Content::String(content.into_string_lossy())
        };
        let original_source = match self.create_source(content, source_map) {
            Ok(source) => source,
            Err(e) => {
                return Err(e);
            },
        };
        let context = self.parse_context(&original_source, additional_data);
        let parsed = match self.parser_and_generator.parse(context) {
            Ok(parsed) => parsed,
            Err(e) => {
                return Err(e);
            },
        };
        let recorded = BuildInfo {
            hash: None,
            cacheable,
            file_dependencies,
            context_dependencies,
            missing_dependencies,
            build_dependencies,
            asset_filenames,
        };
        let ghost handed = parsed;
        let ghost before = self@;
        let built = self.finish_build(recorded, loader_diagnostics, original_source, parsed);
        proof {
            assert(self@ == built_module(before, original_source, loader_diagnostics@, handed));
            assert(built.1@ == loader_diagnostics@ + handed.diagnostics@);
        }
        Ok(built)
    }

    /// Generates the artifacts of a built module. For a module that was
    /// built successfully the generator is asked for each of its source
    /// types, in their order, and what it returned is packaged as
    /// `CodeGenerationResult::package` says; where the generator fails, so
    /// does the generation, and with no source type there is nothing that
    /// could fail. A module whose build failed gets, if it can be
    /// generated as a script, the one script that raises the failure
    /// message, and nothing otherwise. The result is stamped with a hash
    /// over its artifacts. A module that was never built cannot be
    /// generated: that is an error, which names the request.
    pub fn code_generation(&self) -> (r: Result<CodeGenerationResult, InternalError>)
        ensures
            match self.state() {
                BuildState::Unbuilt => r matches Err(e) && e.message@ == (
                "Failed to generate code because ast or source is not set for module "@
                    + self.spec_request()) && e.severity == Severity::Error,
                BuildState::Failed(message) => {
                    &&& r matches Ok(generated)
                    &&& if self.spec_source_types().contains(SourceType::JavaScript) {
                        &&& generated.inner@.len() == 1
                        &&& generated.inner@[0].source_type == SourceType::JavaScript
                        &&& !generated.inner@[0].cached
                        &&& generated.inner@[0].source matches Source::RawText(script)
                            && script@ == failure_script(message)
                    } else {
                        generated.inner@.len() == 0
                    }
                    &&& generated.hash matches Some(h) && h@ == digest_of(
                        artifacts_hash_state(
                            self.spec_options().output.hash_salt,
                            generated.inner@,
                        ),
                    )
                },
                BuildState::Succeeded(_) => {
                    &&& self.spec_source_types().len() == 0 ==> r is Ok
                    &&& r matches Ok(generated) ==> {
                        &&& exists|sources: Seq<Source>|
                            sources.len() == self.spec_source_types().len() && generated.inner@
                                == #[trigger] packaged(self.spec_source_types(), sources)
                        &&& generated.hash matches Some(h) && h@ == digest_of(
                            artifacts_hash_state(
                                self.spec_options().output.hash_salt,
                                generated.inner@,
                            ),
                        )
                    }
                },
            },
    {
        match &self.source {
            NormalModuleSource::BuiltSucceed(source) => {
                let mut sources: Vec<Source> = Vec::new();
                let mut i: usize = 0;
                while i < self.source_types.len()
                    invariant
                        0 <= i <= self.source_types@.len(),
                        self.state() is Succeeded,
                        sources@.len() == i,
                    decreases self.source_types@.len() - i,
                {
                    match self.parser_and_generator.generate(source, self.source_types[i]) {
                        Ok(generated) => {
                            sources.push(generated);
                        },
                        Err(e) => {
                            return Err(e);
                        },
                    }
                    i = i + 1;
                }
                let ghost handed = sources@;
                let result = CodeGenerationResult::package(
                    &self.source_types,
                    sources,
                    &self.options.output.hash_salt,
                );
                proof {
                    assert(result.inner@ == packaged(self.spec_source_types(), handed));
                }
                Ok(result)
            },
            NormalModuleSource::BuiltFailed(message) => {
                let mut result = CodeGenerationResult::new();
                if contains_source_type(&self.source_types, SourceType::JavaScript) {
                    let json = to_json_text(message.as_str());
                    let head = concat("throw new Error(", json.as_str());
                    let script = concat(head.as_str(), ");\n");
                    result.add(SourceType::JavaScript, Source::RawText(script), false);
                }
                result.set_hash(&self.options.output.hash_salt);
                Ok(result)
            },
            NormalModuleSource::Unbuild => Err(
                InternalError::new(
                    concat(
                        "Failed to generate code because ast or source is not set for module ",
                        self.request.as_str(),
                    ),
                    Severity::Error,
                ),
            ),
        }
    }

    /// The name of the module for readers: its user request as it is named
    /// from the directory `context`.
    pub fn readable_identifier(&self, context: &str) -> (r: String)
        ensures
            is_absolute(context@) ==> r@ == contextified(context@, self.spec_user_request()),
    {
        contextify(context, self.user_request.as_str())
    }

    /// The name of the module for libraries: its user request as it is
    /// named from the directory of the options.
    pub fn lib_ident(&self, options: LibIdentOptions) -> (r: Option<String>)
        ensures
            r is Some,
            is_absolute(options.context@) ==> r->0@ == contextified(
                options.context@,
                self.spec_user_request(),
            ),
    {
        Some(contextify(options.context.as_str(), self.user_request.as_str()))
    }

    /// The text by which rules recognise the module: its resource without
    /// the query.
    pub fn name_for_condition(&self) -> (r: Option<String>)
        ensures
            r matches Some(name) && name@ == self.spec_resource_data().resource@.subrange(
                0,
                first_index_of(self.spec_resource_data().resource@, '?'),
            ),
    {
        let resource = self.resource_data.resource.as_str();
        proof {
            crate::text::lemma_first_index_of(resource@, '?');
        }
        match find_char(resource, '?') {
            Some(idx) => Some(slice_chars(resource, 0, idx)),
            None => {
                assert(resource@.subrange(0, resource@.len() as int) == resource@);
                Some(resource.to_owned())
            },
        }
    }

    /// The dependencies that code generation needs, where there are any.
    pub fn get_code_generation_dependencies(&self) -> (r: Option<&Vec<Dependency>>)
        ensures
            r == match self.spec_code_generation_dependencies() {
                Some(deps) => if deps@.len() > 0 {
                    Some(&deps)
                } else {
                    None
                },
                None => None,
            },
    {
        match &self.code_generation_dependencies {
            Some(deps) => if deps.len() > 0 {
                Some(deps)
            } else {
                None
            },
            None => None,
        }
    }

    /// The dependencies that only shape the output, where there are any.
    pub fn get_presentational_dependencies(&self) -> (r: Option<&Vec<Dependency>>)
        ensures
            r == match self.spec_presentational_dependencies() {
                Some(deps) => if deps@.len() > 0 {
                    Some(&deps)
                } else {
                    None
                },
                None => None,
            },
    {
        match &self.presentational_dependencies {
            Some(deps) => if deps.len() > 0 {
                Some(deps)
            } else {
                None
            },
            None => None,
        }
    }

    /// The source that the loaders produced in the last successful build.
    pub fn original_source(&self) -> (r: Option<&Source>)
        ensures
            r == match self.spec_original_source() {
                Some(s) => Some(&s),
                None => None,
            },
    {
        self.original_source.as_ref()
    }

    /// Replacing the loader chain changes nothing else of the module.
    pub proof fn lemma_with_loaders(self, loaders: Vec<Loader>)
        ensures
            self.with_loaders(loaders)@ == (ModuleView { loaders: loaders@, ..self@ }),
    {
    }

    /// Replacing the build state changes nothing else of the module.
    pub proof fn lemma_with_source(self, source: NormalModuleSource)
        ensures
            self.with_source(source)@ == (ModuleView { state: source@, ..self@ }),
    {
    }
}

/// Two modules that were made of the same type and request are equal,
/// whatever else they hold.
pub proof fn lemma_same_origin_same_module<G: ParserAndGenerator>(
    a: NormalModule<G>,
    b: NormalModule<G>,
)
    requires
        a.wf(),
        b.wf(),
        a.spec_module_type() == b.spec_module_type(),
        a.spec_request() == b.spec_request(),
    ensures
        a.spec_identifier() == b.spec_identifier(),
        vstd::std_specs::cmp::PartialEqSpec::eq_spec(&a, &b),
{
}

/// Two modules with different requests are never equal, whatever else they
/// hold, but for the pairs of origins that share one identifier.
pub proof fn lemma_other_request_other_module<G: ParserAndGenerator>(
    a: NormalModule<G>,
    b: NormalModule<G>,
)
    requires
        a.wf(),
        b.wf(),
        a.spec_request() != b.spec_request(),
        !identifiers_collide(
            a.spec_module_type(),
            a.spec_request(),
            b.spec_module_type(),
            b.spec_request(),
        ),
    ensures
        a.spec_identifier() != b.spec_identifier(),
        !vstd::std_specs::cmp::PartialEqSpec::eq_spec(&a, &b),
{
    lemma_identifier_distinguishes_requests(
        a.spec_module_type(),
        a.spec_request(),
        b.spec_module_type(),
        b.spec_request(),
    );
}

} // verus!
