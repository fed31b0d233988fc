use vstd::prelude::*;

use crate::diagnostic::{InternalError, Severity};
use crate::loader::{
    chain_ids, chain_view, get_builtin_loader, is_builtin, JsLoaderAdapter, JsLoaderRunner, Loader,
    LoaderView, BUILTIN_LOADER_PREFIX,
};
use crate::normal_module::{ModuleView, NormalModule, ParserAndGenerator};
use crate::path::join_segments;
use crate::resolver::{EngineError, Resolution, ResolveResult, Resolver};
use crate::text::{concat, find_char, first_index_of, lemma_first_index_of, slice_chars, starts_with};

verus! {

/// Every identifier names a builtin transform.
pub open spec fn all_builtin(ids: Seq<Seq<char>>) -> bool {
    forall|i: int| 0 <= i < ids.len() ==> is_builtin(#[trigger] ids[i])
}

/// Whether a chain must be handed to the other runtime as a whole: it has
/// two steps or more, and it came with inline loaders or holds a step that
/// is no builtin transform.
pub open spec fn must_collapse(ids: Seq<Seq<char>>, contains_inline: bool) -> bool {
    ids.len() >= 2 && (contains_inline || !all_builtin(ids))
}

/// The identifier of the one step that stands for a whole chain: the
/// identifiers of its steps, in order, with `$` between them.
pub open spec fn collapsed_identifier(ids: Seq<Seq<char>>) -> Seq<char> {
    join_segments(ids, '$')
}

/// The chain that is run in place of `chain`: the one step that hands the
/// whole chain to the other runtime where it must be collapsed, and the
/// chain itself otherwise.
pub open spec fn selected_chain(
    chain: Seq<Loader>,
    contains_inline: bool,
    runner: JsLoaderRunner,
) -> Seq<LoaderView> {
    if must_collapse(chain_ids(chain), contains_inline) {
        seq![
            LoaderView::Js { runner, identifier: collapsed_identifier(chain_ids(chain)) },
        ]
    } else {
        chain_view(chain)
    }
}

/// A chain of no step or one step is never rewritten.
pub proof fn lemma_short_chain_is_kept(
    chain: Seq<Loader>,
    contains_inline: bool,
    runner: JsLoaderRunner,
)
    requires
        chain.len() <= 1,
    ensures
        selected_chain(chain, contains_inline, runner) == chain_view(chain),
{
}

/// A chain of two steps or more that came with inline loaders, or that
/// holds a step that is no builtin transform, is collapsed to exactly one
/// step, whose identifier is the identifiers of the chain in their order,
/// joined by `$`.
pub proof fn lemma_mixed_chain_is_collapsed(
    chain: Seq<Loader>,
    contains_inline: bool,
    runner: JsLoaderRunner,
    step: int,
)
    requires
        chain.len() >= 2,
        contains_inline || (0 <= step < chain.len() && !is_builtin(chain[step].id())),
    ensures
        selected_chain(chain, contains_inline, runner).len() == 1,
        selected_chain(chain, contains_inline, runner)[0] == (LoaderView::Js {
            runner,
            identifier: join_segments(chain_ids(chain), '$'),
        }),
{
    if !contains_inline {
        assert(!is_builtin(chain_ids(chain)[step]));
    }
}

/// A chain of builtin transforms that came without inline loaders is never
/// rewritten.
pub proof fn lemma_builtin_chain_is_kept(chain: Seq<Loader>, runner: JsLoaderRunner)
    requires
        all_builtin(chain_ids(chain)),
    ensures
        selected_chain(chain, false, runner) == chain_view(chain),
{
}

/// The part of a loader request before its first `?`.
pub open spec fn bare_request(request: Seq<char>) -> Seq<char> {
    request.subrange(0, first_index_of(request, '?'))
}

/// The part of a loader request from its first `?` on; empty without one.
pub open spec fn query_suffix(request: Seq<char>) -> Seq<char> {
    request.subrange(first_index_of(request, '?'), request.len() as int)
}

/// What is to be done to resolve a loader request.
#[derive(Debug)]
pub enum LoaderPlan {
    /// The request names a builtin transform: this is its step. Nothing
    /// is looked up in the file system.
    Builtin(Loader),
    /// The path is to be resolved by the resolution engine; the query is
    /// put back behind what it finds.
    Resolve { path: String, query: String },
}

/// The message of a loader resolution that the engine failed.
pub open spec fn loader_failure_message(
    path: Seq<char>,
    context: Seq<char>,
    error: EngineError,
) -> Seq<char> {
    "Failed to resolve loader: "@ + path + " in "@ + context + " "@ + match error {
        EngineError::Ignored => "Ignored"@,
        EngineError::Recursion => "Recursion"@,
        EngineError::Other(detail) => detail@,
    }
}

/// The selection of loaders for the other runtime, and the resolution of
/// loader requests.
#[derive(Debug)]
pub struct JsLoaderResolver {
    pub js_loader_runner: JsLoaderRunner,
}

fn join_identifiers(loaders: &Vec<Loader>) -> (r: String)
    ensures
        r@ == collapsed_identifier(chain_ids(loaders@)),
{
    let ghost all = chain_ids(loaders@);
    let mut out = String::new();
    let mut k: usize = 0;
    while k < loaders.len()
        invariant
            0 <= k <= loaders.len(),
            all == chain_ids(loaders@),
            out@ == join_segments(all.take(k as int), '$'),
        decreases loaders.len() - k,
    {
        let ghost before = out@;
        if k > 0 {
            proof {
                reveal_strlit("$");
            }
            out.append("$");
            assert(out@ == before.push('$'));
        }
        out.append(loaders[k].identifier());
        proof {
            let now = all.take(k + 1);
            assert(now.drop_last() == all.take(k as int));
            assert(now.last() == loaders@[k as int].id());
            if k == 0 {
                assert(before == Seq::<char>::empty());
                assert(out@ == loaders@[k as int].id());
            }
        }
        k = k + 1;
    }
    proof {
        assert(all.take(k as int) == all);
    }
    out
}

fn every_step_builtin(loaders: &Vec<Loader>) -> (r: bool)
    ensures
        r == all_builtin(chain_ids(loaders@)),
{
    let mut i: usize = 0;
    while i < loaders.len()
        invariant
            0 <= i <= loaders.len(),
            forall|j: int| 0 <= j < i ==> is_builtin(#[trigger] chain_ids(loaders@)[j]),
        decreases loaders.len() - i,
    {
        if !loaders[i].is_builtin() {
            assert(!is_builtin(chain_ids(loaders@)[i as int]));
            return false;
        }
        i = i + 1;
    }
    true
}

impl JsLoaderResolver {
    /// The chain that is run in place of the given one.
    pub fn select_loaders(&self, loaders: Vec<Loader>, contains_inline: bool) -> (r: Vec<Loader>)
        ensures
            chain_view(r@) == selected_chain(loaders@, contains_inline, self.js_loader_runner),
            !must_collapse(chain_ids(loaders@), contains_inline) ==> r == loaders,
    {
        if loaders.len() <= 1 {
            return loaders;
        }
        if contains_inline || !every_step_builtin(&loaders) {
            let adapter = JsLoaderAdapter {
                runner: self.js_loader_runner,
                identifier: join_identifiers(&loaders),
            };
            let r = vec![Loader::Js(adapter)];
            assert(chain_view(r@) == selected_chain(
                loaders@,
                contains_inline,
                self.js_loader_runner,
            ));
            r
        } else {
            loaders
        }
    }

    /// Decides, before the loaders of a module are run, whether they run
    /// here or in the other runtime, and rewrites the chain of the module
    /// accordingly. The module afterwards is the module as it was, with the
    /// chain that was selected.
    pub fn before_loaders<G: ParserAndGenerator>(&self, module: &mut NormalModule<G>) -> (r: Result<
        (),
        InternalError,
    >)
        ensures
            r is Ok,
            chain_view(final(module).spec_loaders()) == selected_chain(
                old(module).spec_loaders(),
                old(module).spec_contains_inline_loader(),
                self.js_loader_runner,
            ),
            !must_collapse(
                chain_ids(old(module).spec_loaders()),
                old(module).spec_contains_inline_loader(),
            ) ==> *final(module) == *old(module),
            final(module)@ == (ModuleView {
                loaders: final(module).spec_loaders(),
                ..old(module)@
            }),
    {
        let contains_inline = module.contains_inline_loader();
        let old_loaders = module.loaders();
        if old_loaders.len() <= 1 {
            return Ok(());
        }
        if contains_inline || !every_step_builtin(old_loaders) {
            let adapter = JsLoaderAdapter {
                runner: self.js_loader_runner,
                identifier: join_identifiers(old_loaders),
            };
            let chain = vec![Loader::Js(adapter)];
            proof {
                assert(chain_view(chain@) == selected_chain(
                    module.spec_loaders(),
                    contains_inline,
                    self.js_loader_runner,
                ));
                module.lemma_with_loaders(chain);
            }
            *module.loaders_mut_vec() = chain;
        }
        Ok(())
    }

    /// Decides how a loader request is resolved. A request with the builtin
    /// prefix names a builtin transform and is answered at once, with a
    /// step that carries the whole request as its identifier. Every other
    /// request is split at its first `?` into the path that the engine is
    /// to resolve and the query that is kept for later.
    pub fn plan_loader(&self, loader_request: &str, loader_options: Option<&str>) -> (plan:
        LoaderPlan)
        ensures
            match plan {
                LoaderPlan::Builtin(loader) => is_builtin(loader_request@) && loader@ == (
                LoaderView::Builtin {
                    identifier: loader_request@,
                    options: match loader_options {
                        Some(o) => Some(o@),
                        None => None,
                    },
                }),
                LoaderPlan::Resolve { path, query } => !is_builtin(loader_request@) && path@
                    == bare_request(loader_request@) && query@ == query_suffix(loader_request@),
            },
    {
        if starts_with(loader_request, BUILTIN_LOADER_PREFIX) {
            return LoaderPlan::Builtin(get_builtin_loader(loader_request, loader_options));
        }
        proof {
            lemma_first_index_of(loader_request@, '?');
        }
        let n = crate::text::char_len(loader_request);
        match find_char(loader_request, '?') {
            Some(index) => LoaderPlan::Resolve {
                path: slice_chars(loader_request, 0, index),
                query: slice_chars(loader_request, index, n),
            },
            None => LoaderPlan::Resolve {
                path: slice_chars(loader_request, 0, n),
                query: slice_chars(loader_request, n, n),
            },
        }
    }

    /// Makes the loader step of what the engine found for the path of a
    /// loader request. What was found, with the query of the request behind
    /// its path, becomes the identifier of a step for the other runtime. A
    /// loader must name a real resource: a path that the engine ignores is
    /// an error, and so is every failure of the engine, reported with the
    /// path, the context and the engine's own words.
    pub fn resolve_loader(
        &self,
        context: &str,
        resolver: &Resolver,
        path: &str,
        query: &str,
        outcome: Result<Resolution, EngineError>,
    ) -> (r: Result<Option<Loader>, InternalError>)
        ensures
            match outcome {
                Ok(found) => r matches Ok(Some(loader)) && loader@ == (LoaderView::Js {
                    runner: self.js_loader_runner,
                    identifier: found.path@ + query@,
                }),
                Err(EngineError::Ignored) => r matches Err(e) && e.message@
                    == "Failed to resolve loader: "@ + path@ && e.severity == Severity::Error,
                Err(error) => r matches Err(e) && e.message@ == loader_failure_message(
                    path@,
                    context@,
                    error,
                ) && e.severity == Severity::Error,
            },
    {
        match resolver.resolve(outcome) {
            Ok(ResolveResult::Resource(found)) => {
                let identifier = concat(found.path.as_str(), query);
                Ok(Some(Loader::Js(JsLoaderAdapter { identifier, runner: self.js_loader_runner })))
            },
            Ok(ResolveResult::Ignored) => Err(
                InternalError::new(concat("Failed to resolve loader: ", path), Severity::Error),
            ),
            Err(error) => {
                let head = concat("Failed to resolve loader: ", path);
                let head = concat(head.as_str(), " in ");
                let head = concat(head.as_str(), context);
                let head = concat(head.as_str(), " ");
                let message = match &error {
                    EngineError::Ignored => concat(head.as_str(), "Ignored"),
                    EngineError::Recursion => concat(head.as_str(), "Recursion"),
                    EngineError::Other(detail) => concat(head.as_str(), detail.as_str()),
                };
                Err(InternalError::new(message, Severity::Error))
            },
        }
    }
}

} // verus!
