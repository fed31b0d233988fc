use vstd::prelude::*;

use crate::text::{opt_text, starts_with};

verus! {

/// The prefix that marks a loader request as one for a builtin transform.
pub const BUILTIN_LOADER_PREFIX: &'static str = "builtin:";

/// Whether a loader identifier names a builtin transform.
pub open spec fn is_builtin(identifier: Seq<char>) -> bool {
    BUILTIN_LOADER_PREFIX@.is_prefix_of(identifier)
}

/// How a call into the worker is queued.
#[derive(Clone, Copy, Debug, PartialEq, Eq, Structural)]
pub enum ThreadsafeFunctionCallMode {
    NonBlocking,
    Blocking,
}

/// The channel to the worker in the other runtime.
#[derive(Clone, Copy, Debug, PartialEq, Eq, Structural)]
pub enum JsLoaderRunner {
    /// The channel with the given handle.
    ThreadsafeFunction(u64),
    /// No channel: for use without the other runtime.
    Noop,
}

impl JsLoaderRunner {
    pub fn noop() -> (r: Self)
        ensures
            r == JsLoaderRunner::Noop,
    {
        JsLoaderRunner::Noop
    }

    /// Whether calls can be made through this runner.
    pub fn is_connected(&self) -> (r: bool)
        ensures
            r == (*self is ThreadsafeFunction),
    {
        matches!(self, JsLoaderRunner::ThreadsafeFunction(_))
    }
}

/// The step that hands a loader chain over to the other runtime.
#[derive(Debug)]
pub struct JsLoaderAdapter {
    pub runner: JsLoaderRunner,
    pub identifier: String,
}

impl JsLoaderAdapter {
    pub fn identifier(&self) -> (id: &str)
        ensures
            id@ == self.identifier@,
    {
        self.identifier.as_str()
    }
}

/// One transform step of a loader chain.
#[derive(Debug)]
pub enum Loader {
    /// A transform that runs in this runtime, looked up by its name.
    Builtin { identifier: String, options: Option<String> },
    /// Steps that run in the other runtime.
    Js(JsLoaderAdapter),
}

/// What a loader step says, as plain values.
pub enum LoaderView {
    Builtin { identifier: Seq<char>, options: Option<Seq<char>> },
    Js { runner: JsLoaderRunner, identifier: Seq<char> },
}

impl View for Loader {
    type V = LoaderView;

    open spec fn view(&self) -> LoaderView {
        match *self {
            Loader::Builtin { identifier, options } => LoaderView::Builtin {
                identifier: identifier@,
                options: opt_text(options),
            },
            Loader::Js(adapter) => LoaderView::Js {
                runner: adapter.runner,
                identifier: adapter.identifier@,
            },
        }
    }
}

/// What the steps of a chain say, in order.
pub open spec fn chain_view(loaders: Seq<Loader>) -> Seq<LoaderView> {
    Seq::new(loaders.len(), |i: int| loaders[i]@)
}

impl Loader {
    /// The identifier of the step.
    pub open spec fn id(self) -> Seq<char> {
        match self {
            Loader::Builtin { identifier, options } => identifier@,
            Loader::Js(adapter) => adapter.identifier@,
        }
    }

    pub fn identifier(&self) -> (id: &str)
        ensures
            id@ == self.id(),
    {
        match self {
            Loader::Builtin { identifier, options } => identifier.as_str(),
            Loader::Js(adapter) => adapter.identifier.as_str(),
        }
    }

    /// Whether the identifier of the step names a builtin transform.
    pub fn is_builtin(&self) -> (r: bool)
        ensures
            r == is_builtin(self.id()),
    {
        starts_with(self.identifier(), BUILTIN_LOADER_PREFIX)
    }

    pub fn duplicate(&self) -> (r: Self)
        ensures
            r == *self,
    {
        match self {
            Loader::Builtin { identifier, options } => Loader::Builtin {
                identifier: identifier.clone(),
                options: match options {
                    Some(o) => Some(o.clone()),
                    None => None,
                },
            },
            Loader::Js(adapter) => Loader::Js(
                JsLoaderAdapter { runner: adapter.runner, identifier: adapter.identifier.clone() },
            ),
        }
    }
}

/// The identifiers of the steps of a chain, in order.
pub open spec fn chain_ids(loaders: Seq<Loader>) -> Seq<Seq<char>> {
    Seq::new(loaders.len(), |i: int| loaders[i].id())
}

/// A copy of a chain.
pub fn clone_loaders(loaders: &Vec<Loader>) -> (r: Vec<Loader>)
    ensures
        r@ == loaders@,
{
    let mut r: Vec<Loader> = Vec::new();
    let mut i: usize = 0;
    while i < loaders.len()
        invariant
            0 <= i <= loaders.len(),
            r@ == loaders@.take(i as int),
        decreases loaders.len() - i,
    {
        r.push(loaders[i].duplicate());
        i = i + 1;
        assert(loaders@.take(i as int) == loaders@.take(i - 1).push(loaders@[i - 1]));
    }
    assert(loaders@.take(i as int) == loaders@);
    r
}

/// The builtin transform that a request names. The request, whatever query
/// it carries, is the identifier of the step.
pub fn get_builtin_loader(builtin: &str, options: Option<&str>) -> (loader: Loader)
    ensures
        loader@ == (LoaderView::Builtin {
            identifier: builtin@,
            options: match options {
                Some(o) => Some(o@),
                None => None,
            },
        }),
{
    Loader::Builtin {
        identifier: builtin.to_owned(),
        options: match options {
            Some(o) => Some(o.to_owned()),
            None => None,
        },
    }
}

} // verus!
