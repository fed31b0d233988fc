use std::sync::Arc;
use vstd::prelude::*;

use crate::diagnostic::{InternalError, Severity};
use crate::options::CompilerOptions;
use crate::path::{is_absolute, normalize_path, relative_path};
use crate::resolver::{
    DependencyCategory, DependencyType, EngineError, Resolution, Resolve, ResolveKey,
    ResolveOptionsWithDependencyType, ResolveResult, Resolver, ResolverFactory,
};
use crate::text::concat;

verus! {

/// The place in a source text that an error is about.
#[derive(Clone, Copy, Debug, PartialEq, Eq, Structural)]
pub struct ErrorSpan {
    pub start: u32,
    pub end: u32,
}

/// An error that points into a source file.
#[derive(Debug)]
pub struct TraceableError {
    pub path: String,
    pub start: usize,
    pub end: usize,
    pub title: String,
    pub message: String,
    pub severity: Severity,
}

/// An error of the pipeline, with or without a place in a source file.
#[derive(Debug)]
pub enum Error {
    InternalError(InternalError),
    TraceableError(TraceableError),
}

/// A failed resolution: the message for the generated code, which names
/// paths relative to the project, and the error for reports.
#[derive(Debug)]
pub struct ResolveError(pub String, pub Error);

/// A request for resolution.
#[derive(Debug)]
pub struct ResolveArgs {
    /// The module that asks, where there is one.
    pub importer: Option<String>,
    /// The directory from which the specifier is resolved.
    pub context: String,
    pub specifier: String,
    pub dependency_type: DependencyType,
    pub dependency_category: DependencyCategory,
    pub span: Option<ErrorSpan>,
    pub resolve_options: Option<Resolve>,
    pub resolve_to_context: bool,
    /// Whether the program can do without the dependency.
    pub optional: bool,
    pub file_dependencies: Vec<String>,
    pub missing_dependencies: Vec<String>,
}

/// How `Debug` of std writes a text: in quotes, with escapes.
pub uninterp spec fn debug_text(text: Seq<char>) -> Seq<char>;

/// Formats the text with `{:?}`, that is with `Debug` of std for `str`. The
/// contract claims that the result depends on the text alone.
#[verifier::external_body]
fn quote_debug(text: &str) -> (quoted: String)
    ensures
        quoted@ == debug_text(text@),
{
    format!("{:?}", text)
}

/// The key under which the factory keeps the resolver for a request.
pub open spec fn key_of(args: ResolveArgs) -> ResolveKey {
    ResolveKey {
        resolve_options: match args.resolve_options {
            Some(o) => Some(o@),
            None => None,
        },
        resolve_to_context: args.resolve_to_context,
        dependency_type: args.dependency_type,
        dependency_category: args.dependency_category,
    }
}

/// The severity of a failed resolution: a warning where the dependency is
/// optional, an error otherwise.
pub open spec fn failure_severity(optional: bool) -> Severity {
    if optional {
        Severity::Warn
    } else {
        Severity::Error
    }
}

/// The message of a failed resolution for the generated code. It names
/// places by the paths that lead to them from the project root: the
/// importer where aliases lead back to themselves, and the directory from
/// which the specifier was resolved otherwise.
pub open spec fn runtime_message(
    args: ResolveArgs,
    error: EngineError,
    relative_importer: Seq<char>,
    relative_context: Seq<char>,
) -> Seq<char> {
    if args.importer is None {
        "Failed to resolve "@ + args.specifier@ + " in project root"@
    } else if error is Recursion {
        "Can't resolve "@ + debug_text(args.specifier@) + " in "@ + relative_importer
            + " , maybe it had cycle alias"@
    } else {
        "Failed to resolve "@ + args.specifier@ + " in "@ + relative_context
    }
}

/// The message of a failed resolution for reports.
pub open spec fn internal_message(args: ResolveArgs, error: EngineError) -> Seq<char> {
    match args.importer {
        None => "Failed to resolve "@ + args.specifier@ + " in project root"@,
        Some(importer) => if error is Recursion {
            "Can't resolve "@ + debug_text(args.specifier@) + " in "@ + importer@
                + " , maybe it had cycle alias"@
        } else {
            "Failed to resolve "@ + args.specifier@ + " in "@ + importer@
        },
    }
}

/// `failure` is the report of the failed resolution: both messages, and an
/// error that points at the span in the importer where its source can be
/// shown, and is a plain error otherwise. A request without importer is
/// always a plain error. The failure of an optional dependency is a
/// warning, every other one an error.
pub open spec fn failure_reported(
    failure: ResolveError,
    args: ResolveArgs,
    error: EngineError,
    relative_importer: Seq<char>,
    relative_context: Seq<char>,
    source_readable: bool,
) -> bool {
    &&& failure.0@ == runtime_message(args, error, relative_importer, relative_context)
    &&& match failure.1 {
        Error::TraceableError(e) => {
            &&& args.importer matches Some(importer)
            &&& source_readable
            &&& e.path@ == importer@
            &&& e.start == match args.span {
                Some(span) => span.start as usize,
                None => 0,
            }
            &&& e.end == match args.span {
                Some(span) => span.end as usize,
                None => 0,
            }
            &&& e.title@ == "Resolve error"@
            &&& e.message@ == internal_message(args, error)
            &&& e.severity == failure_severity(args.optional)
        },
        Error::InternalError(e) => {
            &&& args.importer is None || !source_readable
            &&& e.message@ == internal_message(args, error)
            &&& e.severity == failure_severity(args.optional)
        },
    }
}

/// Two requests that say the same and have recorded the same dependencies.
pub open spec fn request_kept(after: ResolveArgs, before: ResolveArgs) -> bool {
    &&& after.importer == before.importer
    &&& after.context == before.context
    &&& after.specifier == before.specifier
    &&& after.dependency_type == before.dependency_type
    &&& after.dependency_category == before.dependency_category
    &&& after.span == before.span
    &&& after.resolve_options == before.resolve_options
    &&& after.resolve_to_context == before.resolve_to_context
    &&& after.optional == before.optional
    &&& after.file_dependencies@ == before.file_dependencies@
    &&& after.missing_dependencies@ == before.missing_dependencies@
}

/// The key under which the factory keeps the resolver for a request.
pub fn resolve_key(args: &ResolveArgs) -> (key: ResolveOptionsWithDependencyType)
    ensures
        key@ == key_of(*args),
{
    ResolveOptionsWithDependencyType {
        resolve_options: match &args.resolve_options {
            Some(o) => Some(o.duplicate()),
            None => None,
        },
        resolve_to_context: args.resolve_to_context,
        dependency_type: args.dependency_type,
        dependency_category: args.dependency_category,
    }
}

/// Reports a failed resolution. `relative_importer` and `relative_context`
/// are the paths that lead from the project root to the importer and to the
/// directory of the request; `source_readable` says whether the source of
/// the importer can be shown with the error.
pub fn report_failure(
    args: &ResolveArgs,
    error: &EngineError,
    relative_importer: &str,
    relative_context: &str,
    source_readable: bool,
) -> (failure: ResolveError)
    ensures
        failure_reported(
            failure,
            *args,
            *error,
            relative_importer@,
            relative_context@,
            source_readable,
        ),
{
    let severity = if args.optional {
        Severity::Warn
    } else {
        Severity::Error
    };
    match &args.importer {
        Some(importer) => {
            let (start, end) = match args.span {
                Some(span) => (span.start as usize, span.end as usize),
                None => (0usize, 0usize),
            };
            let (runtime, internal) = if matches!(error, EngineError::Recursion) {
                let head = concat("Can't resolve ", quote_debug(args.specifier.as_str()).as_str());
                let head = concat(head.as_str(), " in ");
                let runtime = concat(head.as_str(), relative_importer);
                let internal = concat(head.as_str(), importer.as_str());
                (
                    concat(runtime.as_str(), " , maybe it had cycle alias"),
                    concat(internal.as_str(), " , maybe it had cycle alias"),
                )
            } else {
                let head = concat("Failed to resolve ", args.specifier.as_str());
                let head = concat(head.as_str(), " in ");
                (concat(head.as_str(), relative_context), concat(head.as_str(), importer.as_str()))
            };
            let report = if source_readable {
                Error::TraceableError(
                    TraceableError {
                        path: importer.clone(),
                        start,
                        end,
                        title: "Resolve error".to_owned(),
                        message: internal,
                        severity,
                    },
                )
            } else {
                Error::InternalError(InternalError::new(internal, severity))
            };
            ResolveError(runtime, report)
        },
        None => {
            let head = concat("Failed to resolve ", args.specifier.as_str());
            let runtime = concat(head.as_str(), " in project root");
            let internal = concat(head.as_str(), " in project root");
            ResolveError(runtime, Error::InternalError(InternalError::new(internal, severity)))
        },
    }
}

/// Resolves a request from what the resolution engine reported for it.
/// The resolver is the one that the factory keeps for the key of the
/// request. What the engine found is the result; a request that the engine
/// ignores resolves to nothing, and that is a success. Every other failure
/// is reported as `report_failure` says, with the importer and the
/// directory of the request named relative to the project root. No
/// dependency of the file system is recorded.
pub fn resolve(
    args: &mut ResolveArgs,
    resolver_factory: &mut ResolverFactory,
    options: &CompilerOptions,
    outcome: Result<Resolution, EngineError>,
    source_readable: bool,
) -> (r: Result<ResolveResult, ResolveError>)
    requires
        old(resolver_factory).wf(),
    ensures
        final(resolver_factory).wf(),
        final(resolver_factory).base() == old(resolver_factory).base(),
        final(resolver_factory).cached(key_of(*old(args))) is Some,
        old(resolver_factory).cached(key_of(*old(args))) is Some ==> final(resolver_factory).keys()
            == old(resolver_factory).keys(),
        request_kept(*final(args), *old(args)),
        match outcome {
            Ok(found) => r == Ok::<ResolveResult, ResolveError>(ResolveResult::Resource(found)),
            Err(EngineError::Ignored) => r == Ok::<ResolveResult, ResolveError>(
                ResolveResult::Ignored,
            ),
            Err(error) => r matches Err(failure) && exists|importer: Seq<char>, context: Seq<char>|
                failure_reported(failure, *old(args), error, importer, context, source_readable),
        },
        match (outcome, old(args).importer) {
            (Err(error), Some(importer)) => !(error is Ignored) && is_absolute(importer@)
                && is_absolute(old(args).context@) && is_absolute(options.context@) ==> (
            r matches Err(failure) && failure_reported(
                failure,
                *old(args),
                error,
                relative_path(options.context@, importer@),
                relative_path(options.context@, old(args).context@),
                source_readable,
            )),
            (Err(error), None) => !(error is Ignored) ==> (r matches Err(failure)
                && failure_reported(
                failure,
                *old(args),
                error,
                Seq::empty(),
                Seq::empty(),
                source_readable,
            )),
            _ => true,
        },
{
    let resolver: Arc<Resolver> = resolver_factory.get(resolve_key(args));
    let result = resolver.resolve(outcome);
    let (mut file_dependencies, mut missing_dependencies) = resolver.dependencies();
    let ghost files = args.file_dependencies@;
    let ghost missing = args.missing_dependencies@;
    args.file_dependencies.append(&mut file_dependencies);
    args.missing_dependencies.append(&mut missing_dependencies);
    proof {
        assert(args.file_dependencies@ == files);
        assert(args.missing_dependencies@ == missing);
    }
    match result {
        Ok(found) => Ok(found),
        Err(error) => {
            let (relative, directory) = match &args.importer {
                Some(importer) => (
                    normalize_path(importer.as_str(), options.context.as_str()),
                    normalize_path(args.context.as_str(), options.context.as_str()),
                ),
                None => (String::new(), String::new()),
            };
            let failure = report_failure(
                args,
                &error,
                relative.as_str(),
                directory.as_str(),
                source_readable,
            );
            proof {
                assert(runtime_message(*args, error, relative@, directory@) == runtime_message(
                    *old(args),
                    error,
                    relative@,
                    directory@,
                ));
                assert(internal_message(*args, error) == internal_message(*old(args), error));
                assert(failure_reported(
                    failure,
                    *old(args),
                    error,
                    relative@,
                    directory@,
                    source_readable,
                ));
            }
            Err(failure)
        },
    }
}

} // verus!
