use dashmap::DashMap;
use std::collections::hash_map::RandomState;
use std::sync::Arc;
use vstd::prelude::*;
use vstd::std_specs::cmp::PartialEqSpecImpl;

use crate::text::{
    clone_opt_strings, opt_strings_view, opt_text, same_opt_strings, same_opt_text,
};

verus! {

/// The broad family of a dependency, by which resolution may differ.
#[derive(Clone, Copy, Debug, PartialEq, Eq, Structural)]
pub enum DependencyCategory {
    Unknown,
    Esm,
    CommonJS,
    Url,
    CssImport,
    CssCompose,
    Wasm,
    Worker,
}

/// What kind of reference asked for a module.
#[derive(Clone, Copy, Debug, PartialEq, Eq, Structural)]
pub enum DependencyType {
    Unknown,
    Entry,
    EsmImport,
    EsmExport,
    DynamicImport,
    CjsRequire,
    NewUrl,
    ImportMetaHotAccept,
    ModuleHotAccept,
    CssUrl,
    CssImport,
    CssCompose,
    ContextElement,
    WasmImport,
    NewWorker,
}

/// The resolution options that can be set one by one: each may be left
/// open.
#[derive(Debug)]
pub struct ResolveFields {
    pub extensions: Option<Vec<String>>,
    pub main_files: Option<Vec<String>>,
    pub main_fields: Option<Vec<String>>,
    pub condition_names: Option<Vec<String>>,
    pub modules: Option<Vec<String>>,
    pub tsconfig: Option<String>,
    pub prefer_relative: Option<bool>,
    pub symlinks: Option<bool>,
    pub browser_field: Option<bool>,
    pub fully_specified: Option<bool>,
}

/// Options that hold for dependencies of one category only; without a
/// category they hold for every category that has no options of its own.
#[derive(Debug)]
pub struct ByDependency {
    pub category: Option<DependencyCategory>,
    pub resolve: ResolveFields,
}

/// Resolution options: each may be left open. `by_dependency` holds
/// options that override the others for dependencies of a category.
#[derive(Debug)]
pub struct Resolve {
    pub extensions: Option<Vec<String>>,
    pub main_files: Option<Vec<String>>,
    pub main_fields: Option<Vec<String>>,
    pub condition_names: Option<Vec<String>>,
    pub modules: Option<Vec<String>>,
    pub tsconfig: Option<String>,
    pub prefer_relative: Option<bool>,
    pub symlinks: Option<bool>,
    pub browser_field: Option<bool>,
    pub fully_specified: Option<bool>,
    pub by_dependency: Option<Vec<ByDependency>>,
}

/// What options that are set one by one say, as plain values.
pub struct FieldsView {
    pub extensions: Option<Seq<Seq<char>>>,
    pub main_files: Option<Seq<Seq<char>>>,
    pub main_fields: Option<Seq<Seq<char>>>,
    pub condition_names: Option<Seq<Seq<char>>>,
    pub modules: Option<Seq<Seq<char>>>,
    pub tsconfig: Option<Seq<char>>,
    pub prefer_relative: Option<bool>,
    pub symlinks: Option<bool>,
    pub browser_field: Option<bool>,
    pub fully_specified: Option<bool>,
}

/// What resolution options say, as plain values.
pub struct ResolveView {
    pub extensions: Option<Seq<Seq<char>>>,
    pub main_files: Option<Seq<Seq<char>>>,
    pub main_fields: Option<Seq<Seq<char>>>,
    pub condition_names: Option<Seq<Seq<char>>>,
    pub modules: Option<Seq<Seq<char>>>,
    pub tsconfig: Option<Seq<char>>,
    pub prefer_relative: Option<bool>,
    pub symlinks: Option<bool>,
    pub browser_field: Option<bool>,
    pub fully_specified: Option<bool>,
    pub by_dependency: Option<Seq<(Option<DependencyCategory>, FieldsView)>>,
}

impl View for ResolveFields {
    type V = FieldsView;

    open spec fn view(&self) -> FieldsView {
        FieldsView {
            extensions: opt_strings_view(self.extensions),
            main_files: opt_strings_view(self.main_files),
            main_fields: opt_strings_view(self.main_fields),
            condition_names: opt_strings_view(self.condition_names),
            modules: opt_strings_view(self.modules),
            tsconfig: opt_text(self.tsconfig),
            prefer_relative: self.prefer_relative,
            symlinks: self.symlinks,
            browser_field: self.browser_field,
            fully_specified: self.fully_specified,
        }
    }
}

/// What a list of options by category says, as plain values.
pub open spec fn by_dependency_view(list: Seq<ByDependency>) -> Seq<
    (Option<DependencyCategory>, FieldsView),
> {
    Seq::new(list.len(), |i: int| (list[i].category, list[i].resolve@))
}

impl View for Resolve {
    type V = ResolveView;

    open spec fn view(&self) -> ResolveView {
        ResolveView {
            extensions: opt_strings_view(self.extensions),
            main_files: opt_strings_view(self.main_files),
            main_fields: opt_strings_view(self.main_fields),
            condition_names: opt_strings_view(self.condition_names),
            modules: opt_strings_view(self.modules),
            tsconfig: opt_text(self.tsconfig),
            prefer_relative: self.prefer_relative,
            symlinks: self.symlinks,
            browser_field: self.browser_field,
            fully_specified: self.fully_specified,
            by_dependency: match self.by_dependency {
                Some(list) => Some(by_dependency_view(list@)),
                None => None,
            },
        }
    }
}

/// The second value where it is set, else the first.
pub open spec fn prefer<T>(base: Option<T>, over: Option<T>) -> Option<T> {
    if over is Some {
        over
    } else {
        base
    }
}

/// The options that are set one by one in `view`.
pub open spec fn fields_of(view: ResolveView) -> FieldsView {
    FieldsView {
        extensions: view.extensions,
        main_files: view.main_files,
        main_fields: view.main_fields,
        condition_names: view.condition_names,
        modules: view.modules,
        tsconfig: view.tsconfig,
        prefer_relative: view.prefer_relative,
        symlinks: view.symlinks,
        browser_field: view.browser_field,
        fully_specified: view.fully_specified,
    }
}

/// The options that result when `over` is laid onto `base`: what `over`
/// sets wins, what it leaves open is taken from `base`. The options by
/// category stay those of `base`.
pub open spec fn overlaid(base: ResolveView, over: FieldsView) -> ResolveView {
    ResolveView {
        extensions: prefer(base.extensions, over.extensions),
        main_files: prefer(base.main_files, over.main_files),
        main_fields: prefer(base.main_fields, over.main_fields),
        condition_names: prefer(base.condition_names, over.condition_names),
        modules: prefer(base.modules, over.modules),
        tsconfig: prefer(base.tsconfig, over.tsconfig),
        prefer_relative: prefer(base.prefer_relative, over.prefer_relative),
        symlinks: prefer(base.symlinks, over.symlinks),
        browser_field: prefer(base.browser_field, over.browser_field),
        fully_specified: prefer(base.fully_specified, over.fully_specified),
        by_dependency: base.by_dependency,
    }
}

/// The options that result when `over` is laid onto `base`: what `over`
/// sets wins, the options by category included, and what it leaves open is
/// taken from `base`.
pub open spec fn merged(base: ResolveView, over: ResolveView) -> ResolveView {
    ResolveView {
        by_dependency: prefer(base.by_dependency, over.by_dependency),
        ..overlaid(base, fields_of(over))
    }
}

/// The first options of the list that are given for `category`.
pub open spec fn first_for(
    list: Seq<(Option<DependencyCategory>, FieldsView)>,
    category: Option<DependencyCategory>,
) -> Option<FieldsView>
    decreases list.len(),
{
    if list.len() == 0 {
        None
    } else {
        match first_for(list.drop_last(), category) {
            Some(found) => Some(found),
            None => if list.last().0 == category {
                Some(list.last().1)
            } else {
                None
            },
        }
    }
}

/// The options of the list that hold for dependencies of `category`: those
/// given for it, else those given for no category.
pub open spec fn chosen_for(
    list: Seq<(Option<DependencyCategory>, FieldsView)>,
    category: DependencyCategory,
) -> Option<FieldsView> {
    match first_for(list, Some(category)) {
        Some(found) => Some(found),
        None => first_for(list, None),
    }
}

/// The options as they hold for dependencies of `category`: the options by
/// category that hold for it are laid onto the others, and no options by
/// category are left.
pub open spec fn for_category(view: ResolveView, category: DependencyCategory) -> ResolveView {
    let flat = ResolveView { by_dependency: None, ..view };
    match view.by_dependency {
        Some(list) => match chosen_for(list, category) {
            Some(over) => overlaid(flat, over),
            None => flat,
        },
        None => flat,
    }
}

fn prefer_list(base: Option<Vec<String>>, over: Option<Vec<String>>) -> (r: Option<Vec<String>>)
    ensures
        opt_strings_view(r) == prefer(opt_strings_view(base), opt_strings_view(over)),
{
    match over {
        Some(o) => Some(o),
        None => base,
    }
}

fn prefer_flag(base: Option<bool>, over: Option<bool>) -> (r: Option<bool>)
    ensures
        r == prefer(base, over),
{
    match over {
        Some(o) => Some(o),
        None => base,
    }
}

/// What options say that leave everything open.
pub open spec fn empty_options() -> ResolveView {
    ResolveView {
        extensions: None,
        main_files: None,
        main_fields: None,
        condition_names: None,
        modules: None,
        tsconfig: None,
        prefer_relative: None,
        symlinks: None,
        browser_field: None,
        fully_specified: None,
        by_dependency: None,
    }
}

impl ResolveFields {
    pub fn duplicate(&self) -> (r: ResolveFields)
        ensures
            r@ == self@,
    {
        ResolveFields {
            extensions: clone_opt_strings(&self.extensions),
            main_files: clone_opt_strings(&self.main_files),
            main_fields: clone_opt_strings(&self.main_fields),
            condition_names: clone_opt_strings(&self.condition_names),
            modules: clone_opt_strings(&self.modules),
            tsconfig: match &self.tsconfig {
                Some(t) => Some(t.clone()),
                None => None,
            },
            prefer_relative: self.prefer_relative,
            symlinks: self.symlinks,
            browser_field: self.browser_field,
            fully_specified: self.fully_specified,
        }
    }

    /// Whether two sets of options say the same.
    pub fn same(&self, other: &ResolveFields) -> (r: bool)
        ensures
            r == (self@ == other@),
    {
        same_opt_strings(&self.extensions, &other.extensions) && same_opt_strings(
            &self.main_files,
            &other.main_files,
        ) && same_opt_strings(&self.main_fields, &other.main_fields) && same_opt_strings(
            &self.condition_names,
            &other.condition_names,
        ) && same_opt_strings(&self.modules, &other.modules) && same_opt_text(
            &self.tsconfig,
            &other.tsconfig,
        ) && self.prefer_relative == other.prefer_relative && self.symlinks == other.symlinks
            && self.browser_field == other.browser_field && self.fully_specified
            == other.fully_specified
    }
}

fn clone_by_dependency(list: &Vec<ByDependency>) -> (r: Vec<ByDependency>)
    ensures
        by_dependency_view(r@) == by_dependency_view(list@),
{
    let mut r: Vec<ByDependency> = Vec::new();
    let mut i: usize = 0;
    while i < list.len()
        invariant
            0 <= i <= list.len(),
            r@.len() == i,
            forall|j: int|
                0 <= j < i ==> (#[trigger] r@[j]).category == list@[j].category && r@[j].resolve@
                    == list@[j].resolve@,
        decreases list.len() - i,
    {
        r.push(ByDependency { category: list[i].category, resolve: list[i].resolve.duplicate() });
        i = i + 1;
    }
    assert(by_dependency_view(r@) =~= by_dependency_view(list@));
    r
}

fn same_by_dependency(a: &Vec<ByDependency>, b: &Vec<ByDependency>) -> (r: bool)
    ensures
        r == (by_dependency_view(a@) == by_dependency_view(b@)),
{
    if a.len() != b.len() {
        assert(by_dependency_view(a@).len() != by_dependency_view(b@).len());
        return false;
    }
    let mut i: usize = 0;
    while i < a.len()
        invariant
            0 <= i <= a.len(),
            a.len() == b.len(),
            forall|j: int|
                0 <= j < i ==> (#[trigger] a@[j]).category == b@[j].category && a@[j].resolve@
                    == b@[j].resolve@,
        decreases a.len() - i,
    {
        if !(a[i].category == b[i].category && a[i].resolve.same(&b[i].resolve)) {
            assert(by_dependency_view(a@)[i as int] != by_dependency_view(b@)[i as int]);
            return false;
        }
        i = i + 1;
    }
    assert(by_dependency_view(a@) =~= by_dependency_view(b@));
    true
}

fn find_for(list: &Vec<ByDependency>, category: Option<DependencyCategory>) -> (r: Option<
    ResolveFields,
>)
    ensures
        match r {
            Some(found) => first_for(by_dependency_view(list@), category) == Some(found@),
            None => first_for(by_dependency_view(list@), category) is None,
        },
{
    let ghost all = by_dependency_view(list@);
    let mut found: Option<ResolveFields> = None;
    let mut i: usize = 0;
    while i < list.len()
        invariant
            0 <= i <= list.len(),
            all == by_dependency_view(list@),
            match found {
                Some(f) => first_for(all.take(i as int), category) == Some(f@),
                None => first_for(all.take(i as int), category) is None,
            },
        decreases list.len() - i,
    {
        if found.is_none() && list[i].category == category {
            found = Some(list[i].resolve.duplicate());
        }
        i = i + 1;
        proof {
            let now = all.take(i as int);
            assert(now.drop_last() == all.take(i - 1));
            assert(now.last() == all[i - 1]);
        }
    }
    proof {
        assert(all.take(i as int) == all);
    }
    found
}

impl Resolve {
    /// Options that leave everything open.
    pub fn empty() -> (r: Self)
        ensures
            r@ == empty_options(),
    {
        Resolve {
            extensions: None,
            main_files: None,
            main_fields: None,
            condition_names: None,
            modules: None,
            tsconfig: None,
            prefer_relative: None,
            symlinks: None,
            browser_field: None,
            fully_specified: None,
            by_dependency: None,
        }
    }

    /// Lays `over` onto these options, one by one. The options by category
    /// stay as they are.
    pub fn overlay(self, over: ResolveFields) -> (r: Resolve)
        ensures
            r@ == overlaid(self@, over@),
    {
        Resolve {
            extensions: prefer_list(self.extensions, over.extensions),
            main_files: prefer_list(self.main_files, over.main_files),
            main_fields: prefer_list(self.main_fields, over.main_fields),
            condition_names: prefer_list(self.condition_names, over.condition_names),
            modules: prefer_list(self.modules, over.modules),
            tsconfig: match over.tsconfig {
                Some(t) => Some(t),
                None => self.tsconfig,
            },
            prefer_relative: prefer_flag(self.prefer_relative, over.prefer_relative),
            symlinks: prefer_flag(self.symlinks, over.symlinks),
            browser_field: prefer_flag(self.browser_field, over.browser_field),
            fully_specified: prefer_flag(self.fully_specified, over.fully_specified),
            by_dependency: self.by_dependency,
        }
    }

    /// Lays `over` onto these options.
    pub fn merge(self, over: Resolve) -> (r: Resolve)
        ensures
            r@ == merged(self@, over@),
    {
        let Resolve {
            extensions,
            main_files,
            main_fields,
            condition_names,
            modules,
            tsconfig,
            prefer_relative,
            symlinks,
            browser_field,
            fully_specified,
            by_dependency,
        } = over;
        let fields = ResolveFields {
            extensions,
            main_files,
            main_fields,
            condition_names,
            modules,
            tsconfig,
            prefer_relative,
            symlinks,
            browser_field,
            fully_specified,
        };
        let mut r = self.overlay(fields);
        match by_dependency {
            Some(list) => {
                r.by_dependency = Some(list);
            },
            None => {},
        }
        r
    }

    /// The options as they hold for dependencies of `category`.
    pub fn merge_by_dependency(self, category: DependencyCategory) -> (r: Resolve)
        ensures
            r@ == for_category(self@, category),
    {
        let mut flat = self;
        let chosen = match &flat.by_dependency {
            Some(list) => match find_for(list, Some(category)) {
                Some(found) => Some(found),
                None => find_for(list, None),
            },
            None => None,
        };
        flat.by_dependency = None;
        match chosen {
            Some(over) => flat.overlay(over),
            None => flat,
        }
    }

    pub fn duplicate(&self) -> (r: Resolve)
        ensures
            r@ == self@,
    {
        Resolve {
            extensions: clone_opt_strings(&self.extensions),
            main_files: clone_opt_strings(&self.main_files),
            main_fields: clone_opt_strings(&self.main_fields),
            condition_names: clone_opt_strings(&self.condition_names),
            modules: clone_opt_strings(&self.modules),
            tsconfig: match &self.tsconfig {
                Some(t) => Some(t.clone()),
                None => None,
            },
            prefer_relative: self.prefer_relative,
            symlinks: self.symlinks,
            browser_field: self.browser_field,
            fully_specified: self.fully_specified,
            by_dependency: match &self.by_dependency {
                Some(list) => Some(clone_by_dependency(list)),
                None => None,
            },
        }
    }

    /// Whether two sets of options say the same.
    pub fn same(&self, other: &Resolve) -> (r: bool)
        ensures
            r == (self@ == other@),
    {
        let same_lists = match (&self.by_dependency, &other.by_dependency) {
            (Some(a), Some(b)) => same_by_dependency(a, b),
            (None, None) => true,
            _ => false,
        };
        same_lists && same_opt_strings(&self.extensions, &other.extensions) && same_opt_strings(
            &self.main_files,
            &other.main_files,
        ) && same_opt_strings(&self.main_fields, &other.main_fields) && same_opt_strings(
            &self.condition_names,
            &other.condition_names,
        ) && same_opt_strings(&self.modules, &other.modules) && same_opt_text(
            &self.tsconfig,
            &other.tsconfig,
        ) && self.prefer_relative == other.prefer_relative && self.symlinks == other.symlinks
            && self.browser_field == other.browser_field && self.fully_specified
            == other.fully_specified
    }
}

/// The key under which the factory keeps a resolver: the overrides of the
/// rule, whether a directory is wanted, and the kind of the dependency.
#[derive(Debug)]
pub struct ResolveOptionsWithDependencyType {
    pub resolve_options: Option<Resolve>,
    pub resolve_to_context: bool,
    pub dependency_type: DependencyType,
    pub dependency_category: DependencyCategory,
}

/// What a key says, as plain values.
pub struct ResolveKey {
    pub resolve_options: Option<ResolveView>,
    pub resolve_to_context: bool,
    pub dependency_type: DependencyType,
    pub dependency_category: DependencyCategory,
}

impl View for ResolveOptionsWithDependencyType {
    type V = ResolveKey;

    open spec fn view(&self) -> ResolveKey {
        ResolveKey {
            resolve_options: match self.resolve_options {
                Some(o) => Some(o@),
                None => None,
            },
            resolve_to_context: self.resolve_to_context,
            dependency_type: self.dependency_type,
            dependency_category: self.dependency_category,
        }
    }
}

impl PartialEq for ResolveOptionsWithDependencyType {
    fn eq(&self, other: &Self) -> (r: bool) {
        let same_options = match (&self.resolve_options, &other.resolve_options) {
            (Some(a), Some(b)) => a.same(b),
            (None, None) => true,
            _ => false,
        };
        same_options && self.resolve_to_context == other.resolve_to_context
            && self.dependency_type == other.dependency_type && self.dependency_category
            == other.dependency_category
    }
}

impl PartialEqSpecImpl for ResolveOptionsWithDependencyType {
    open spec fn obeys_eq_spec() -> bool {
        true
    }

    open spec fn eq_spec(&self, other: &Self) -> bool {
        self@ == other@
    }
}

impl Eq for ResolveOptionsWithDependencyType {

}

impl ResolveOptionsWithDependencyType {
    pub fn duplicate(&self) -> (r: Self)
        ensures
            r@ == self@,
    {
        ResolveOptionsWithDependencyType {
            resolve_options: match &self.resolve_options {
                Some(o) => Some(o.duplicate()),
                None => None,
            },
            resolve_to_context: self.resolve_to_context,
            dependency_type: self.dependency_type,
            dependency_category: self.dependency_category,
        }
    }
}

/// What the resolution engine found for a request.
#[derive(Debug)]
pub struct Resolution {
    pub path: String,
    pub query: Option<String>,
    pub fragment: Option<String>,
}

/// How the resolution engine failed.
#[derive(Debug)]
pub enum EngineError {
    /// The request resolves to nothing on purpose.
    Ignored,
    /// Aliases lead back to themselves.
    Recursion,
    /// Any other failure, with the engine's description of it.
    Other(String),
}

/// The outcome of a resolution that did not fail.
#[derive(Debug)]
pub enum ResolveResult {
    Resource(Resolution),
    Ignored,
}

/// The configuration that a resolver works with.
pub struct ResolverConfig {
    pub options: ResolveView,
    pub resolve_to_context: bool,
    pub dependency_category: DependencyCategory,
}

/// The configuration of the resolver for a key: the overrides of the key
/// laid onto the base options, as they hold for dependencies of the key's
/// category, with the key's flag and category.
pub open spec fn config_for(base: ResolveView, key: ResolveKey) -> ResolverConfig {
    ResolverConfig {
        options: for_category(
            match key.resolve_options {
                Some(over) => merged(base, over),
                None => base,
            },
            key.dependency_category,
        ),
        resolve_to_context: key.resolve_to_context,
        dependency_category: key.dependency_category,
    }
}

/// A resolver: the configuration that the resolution engine is run with, and
/// the number under which the factory made it.
#[derive(Debug)]
pub struct Resolver {
    options: Resolve,
    resolve_to_context: bool,
    dependency_category: DependencyCategory,
    instance: usize,
}

impl Resolver {
    /// The configuration of this resolver.
    pub closed spec fn config(&self) -> ResolverConfig {
        ResolverConfig {
            options: self.options@,
            resolve_to_context: self.resolve_to_context,
            dependency_category: self.dependency_category,
        }
    }

    /// The number of this resolver among those its factory made.
    pub closed spec fn spec_instance(&self) -> usize {
        self.instance
    }

    /// Turns what the engine reported into the result of the resolution: a
    /// request that the engine ignores is a success, every other failure
    /// stays one.
    pub fn resolve(&self, outcome: Result<Resolution, EngineError>) -> (r: Result<
        ResolveResult,
        EngineError,
    >)
        ensures
            r == match outcome {
                Ok(found) => Ok::<ResolveResult, EngineError>(ResolveResult::Resource(found)),
                Err(EngineError::Ignored) => Ok(ResolveResult::Ignored),
                Err(e) => Err(e),
            },
    {
        match outcome {
            Ok(found) => Ok(ResolveResult::Resource(found)),
            Err(EngineError::Ignored) => Ok(ResolveResult::Ignored),
            Err(e) => Err(e),
        }
    }

    /// The options that the engine is run with.
    pub fn options(&self) -> (r: &Resolve)
        ensures
            r@ == self.config().options,
    {
        &self.options
    }

    #[verifier::when_used_as_spec(spec_resolve_to_context)]
    pub fn resolve_to_context(&self) -> (r: bool)
        ensures
            r == self.config().resolve_to_context,
    {
        self.resolve_to_context
    }

    pub closed spec fn spec_resolve_to_context(&self) -> bool {
        self.resolve_to_context
    }

    pub fn dependency_category(&self) -> (r: DependencyCategory)
        ensures
            r == self.config().dependency_category,
    {
        self.dependency_category
    }

    #[verifier::when_used_as_spec(spec_instance)]
    pub fn instance(&self) -> (r: usize)
        ensures
            r == self.spec_instance(),
    {
        self.instance
    }

    /// The files that were checked and the directories that were missing
    /// during the last resolution. The engine does not report them, so both
    /// lists are empty.
    pub fn dependencies(&self) -> (r: (Vec<String>, Vec<String>))
        ensures
            r.0@.len() == 0,
            r.1@.len() == 0,
    {
        (Vec::new(), Vec::new())
    }
}

/// The resolvers that a store holds, by the numbers under which they were
/// made.
pub uninterp spec fn kept_resolvers(store: DashMap<u64, Arc<Resolver>, RandomState>) -> Map<
    u64,
    Resolver,
>;

/// The store that holds no resolver.
pub open spec fn no_resolvers() -> Map<u64, Resolver> {
    Map::empty()
}

/// Calls `DashMap::new` of dashmap. The contract claims that the new map
/// holds nothing.
#[verifier::external_body]
fn new_store() -> (store: DashMap<u64, Arc<Resolver>, RandomState>)
    ensures
        kept_resolvers(store) == no_resolvers(),
{
    DashMap::new()
}

/// Calls `DashMap::get` of dashmap and clones the pointer that it finds.
/// The contract claims that a pointer to the resolver under the number is
/// returned where the map holds the number, and nothing where it does not.
#[verifier::external_body]
fn store_get(store: &DashMap<u64, Arc<Resolver>, RandomState>, number: u64) -> (r: Option<
    Arc<Resolver>,
>)
    ensures
        r is Some <==> kept_resolvers(*store).dom().contains(number),
        r is Some ==> *r.unwrap() == kept_resolvers(*store)[number],
{
    store.get(&number).map(|entry| Arc::clone(entry.value()))
}

/// Calls `DashMap::insert` of dashmap. The contract claims that afterwards
/// the map holds the resolver under the number and is otherwise as before.
#[verifier::external_body]
fn store_insert(
    store: &mut DashMap<u64, Arc<Resolver>, RandomState>,
    number: u64,
    resolver: Arc<Resolver>,
)
    ensures
        kept_resolvers(*final(store)) == kept_resolvers(*old(store)).insert(number, *resolver),
{
    store.insert(number, resolver);
}

/// The position of `key` among `keys`, if it occurs.
pub open spec fn find_key(keys: Seq<ResolveKey>, key: ResolveKey) -> Option<int>
    decreases keys.len(),
{
    if keys.len() == 0 {
        None
    } else {
        match find_key(keys.drop_last(), key) {
            Some(i) => Some(i),
            None => if keys.last() == key {
                Some(keys.len() - 1)
            } else {
                None
            },
        }
    }
}

/// `find_key` gives the first position that holds the key.
pub proof fn lemma_find_key(keys: Seq<ResolveKey>, key: ResolveKey)
    ensures
        match find_key(keys, key) {
            Some(i) => 0 <= i < keys.len() && keys[i] == key && forall|j: int|
                0 <= j < i ==> keys[j] != key,
            None => forall|j: int| 0 <= j < keys.len() ==> keys[j] != key,
        },
    decreases keys.len(),
{
    if keys.len() > 0 {
        lemma_find_key(keys.drop_last(), key);
        match find_key(keys.drop_last(), key) {
            Some(i) => {
                assert(keys.drop_last()[i] == keys[i]);
                assert forall|j: int| 0 <= j < i implies keys[j] != key by {
                    assert(keys.drop_last()[j] == keys[j]);
                }
            },
            None => {
                assert forall|j: int| 0 <= j < keys.len() - 1 implies keys[j] != key by {
                    assert(keys.drop_last()[j] == keys[j]);
                }
            },
        }
    }
}

/// The keys of a factory after a resolver was asked for `key`: as before
/// where a resolver is kept for the key, and with the key behind the others
/// where none is.
pub open spec fn keys_after_get(keys: Seq<ResolveKey>, key: ResolveKey) -> Seq<ResolveKey> {
    if find_key(keys, key) is Some {
        keys
    } else {
        keys.push(key)
    }
}

/// Two requests with equal keys find the resolver at the same position, and
/// the second request makes no resolver.
pub proof fn lemma_equal_keys_share_resolver(keys: Seq<ResolveKey>, k1: ResolveKey, k2: ResolveKey)
    requires
        k1 == k2,
    ensures
        find_key(keys_after_get(keys, k1), k1) is Some,
        keys_after_get(keys_after_get(keys, k1), k2) == keys_after_get(keys, k1),
        find_key(keys_after_get(keys_after_get(keys, k1), k2), k2) == find_key(
            keys_after_get(keys, k1),
            k1,
        ),
{
    lemma_find_key(keys, k1);
    if find_key(keys, k1) is None {
        let after = keys.push(k1);
        assert(after.drop_last() == keys);
        lemma_find_key(after, k1);
    }
}

/// A request for another key leaves the resolver of a key where it is.
pub proof fn lemma_other_keys_keep_resolver(keys: Seq<ResolveKey>, kept: ResolveKey, other: ResolveKey)
    requires
        find_key(keys, kept) is Some,
    ensures
        find_key(keys_after_get(keys, other), kept) == find_key(keys, kept),
{
    if find_key(keys, other) is None {
        let after = keys.push(other);
        assert(after.drop_last() == keys);
    }
}

/// Makes resolvers and keeps one for every key it was asked for. A
/// resolver works with the base options, the overrides of its key laid
/// onto them, as they hold for dependencies of the key's category. The keys
/// are kept in the order of their first request; the resolvers are kept in
/// a shared store, each under the position of its key.
pub struct ResolverFactory {
    base_options: Resolve,
    resolver: Resolver,
    keys: Vec<ResolveOptionsWithDependencyType>,
    resolvers: DashMap<u64, Arc<Resolver>, RandomState>,
    cache_epoch: u64,
}

impl Default for ResolverFactory {
    /// The factory whose base options leave everything open.
    fn default() -> (f: Self)
        ensures
            f.wf(),
            f.base() == empty_options(),
            f.keys().len() == 0,
            f.epoch() == 0,
    {
        ResolverFactory::new(Resolve::empty())
    }
}

impl ResolverFactory {
    /// The base options that every resolver starts from.
    pub closed spec fn base(&self) -> ResolveView {
        self.base_options@
    }

    /// The keys that resolvers were made for, in the order of their making.
    pub closed spec fn keys(&self) -> Seq<ResolveKey> {
        Seq::new(self.keys@.len(), |i: int| self.keys@[i]@)
    }

    /// The resolver that was made for the key at position `i`.
    pub closed spec fn resolver_at(&self, i: int) -> Resolver {
        kept_resolvers(self.resolvers)[i as u64]
    }

    /// How often the engine's cache has been cleared.
    pub closed spec fn epoch(&self) -> u64 {
        self.cache_epoch
    }

    /// The resolver that the factory keeps for a key, if it has made one.
    pub open spec fn cached(&self, key: ResolveKey) -> Option<Resolver> {
        match find_key(self.keys(), key) {
            Some(i) => Some(self.resolver_at(i)),
            None => None,
        }
    }

    /// No key occurs twice, and the store holds a resolver for each key,
    /// with the configuration of that key and the number of its position.
    pub closed spec fn wf(&self) -> bool {
        &&& forall|i: int, j: int|
            0 <= i < j < self.keys@.len() ==> self.keys@[i]@ != self.keys@[j]@
        &&& forall|i: int|
            0 <= i < self.keys@.len() ==> kept_resolvers(self.resolvers).dom().contains(i as u64)
                && (#[trigger] kept_resolvers(self.resolvers)[i as u64]).config() == config_for(
                self.base_options@,
                self.keys@[i]@,
            ) && kept_resolvers(self.resolvers)[i as u64].spec_instance() == i
        &&& self.resolver.config() == config_for(
            self.base_options@,
            ResolveKey {
                resolve_options: None,
                resolve_to_context: false,
                dependency_type: DependencyType::Unknown,
                dependency_category: DependencyCategory::Unknown,
            },
        )
    }

    /// A factory with the given base options and no resolver made yet.
    pub fn new(base_options: Resolve) -> (f: Self)
        ensures
            f.wf(),
            f.base() == base_options@,
            f.keys().len() == 0,
            f.epoch() == 0,
    {
        let resolver = Resolver {
            options: base_options.duplicate().merge_by_dependency(DependencyCategory::Unknown),
            resolve_to_context: false,
            dependency_category: DependencyCategory::Unknown,
            instance: 0,
        };
        ResolverFactory {
            base_options,
            keys: Vec::new(),
            resolvers: new_store(),
            resolver,
            cache_epoch: 0,
        }
    }

    /// Notes that the engine's cache of the file system is to be dropped.
    /// The resolvers that were made stay as they are.
    pub fn clear_entries(&mut self)
        requires
            old(self).wf(),
        ensures
            final(self).wf(),
            final(self).keys() == old(self).keys(),
            final(self).base() == old(self).base(),
            forall|i: int|
                0 <= i < old(self).keys().len() ==> final(self).resolver_at(i) == old(
                    self,
                ).resolver_at(i),
            final(self).epoch() == old(self).epoch().wrapping_add(1),
    {
        self.cache_epoch = self.cache_epoch.wrapping_add(1);
    }

    /// The number of resolvers made so far.
    pub fn len(&self) -> (n: usize)
        ensures
            n == self.keys().len(),
    {
        self.keys.len()
    }

    /// How often the engine's cache has been cleared.
    pub fn cache_epoch(&self) -> (e: u64)
        ensures
            e == self.epoch(),
    {
        self.cache_epoch
    }

    fn position(&self, options: &ResolveOptionsWithDependencyType) -> (r: Option<usize>)
        ensures
            match r {
                Some(i) => i < self.keys().len() && find_key(self.keys(), options@) == Some(
                    i as int,
                ),
                None => find_key(self.keys(), options@) is None,
            },
    {
        let mut i: usize = 0;
        while i < self.keys.len()
            invariant
                0 <= i <= self.keys@.len(),
                find_key(self.keys().take(i as int), options@) is None,
            decreases self.keys@.len() - i,
        {
            let ghost head = self.keys().take(i as int);
            proof {
                lemma_find_key(head, options@);
            }
            if self.keys[i] == *options {
                proof {
                    lemma_find_key(self.keys(), options@);
                    assert(self.keys()[i as int] == options@);
                    assert forall|j: int| 0 <= j < i implies self.keys()[j] != options@ by {
                        assert(head[j] == self.keys()[j]);
                    }
                }
                return Some(i);
            }
            i = i + 1;
            proof {
                let now = self.keys().take(i as int);
                assert(now.drop_last() == head);
                assert(now.last() == self.keys()[i - 1]);
            }
        }
        proof {
            assert(self.keys().take(i as int) == self.keys());
        }
        None
    }

    fn make(&self, options: &ResolveOptionsWithDependencyType) -> (r: Arc<Resolver>)
        ensures
            r.config() == config_for(self.base_options@, options@),
            r.spec_instance() == self.keys@.len(),
    {
        let merged_options = match &options.resolve_options {
            Some(o) => self.base_options.duplicate().merge(o.duplicate()),
            None => self.base_options.duplicate(),
        }.merge_by_dependency(options.dependency_category);
        Arc::new(
            Resolver {
                options: merged_options,
                resolve_to_context: options.resolve_to_context,
                dependency_category: options.dependency_category,
                instance: self.keys.len(),
            },
        )
    }

    /// The resolver for a key. The first request for a key makes the
    /// resolver, from the base options and the key, and keeps it; every
    /// later request for an equal key gets that same resolver, and nothing
    /// that was kept changes.
    pub fn get(&mut self, options: ResolveOptionsWithDependencyType) -> (r: Arc<Resolver>)
        requires
            old(self).wf(),
        ensures
            final(self).wf(),
            final(self).base() == old(self).base(),
            final(self).epoch() == old(self).epoch(),
            final(self).cached(options@) == Some(*r),
            r.config() == config_for(old(self).base(), options@),
            final(self).keys() == keys_after_get(old(self).keys(), options@),
            find_key(final(self).keys(), options@) == Some(r.spec_instance() as int),
            old(self).cached(options@) matches Some(kept) ==> *r == kept,
            forall|i: int|
                0 <= i < old(self).keys().len() ==> final(self).resolver_at(i) == old(
                    self,
                ).resolver_at(i),
    {
        match self.position(&options) {
            Some(i) => {
                proof {
                    lemma_find_key(self.keys(), options@);
                    assert(kept_resolvers(self.resolvers)[i as u64].config() == config_for(
                        self.base_options@,
                        self.keys@[i as int]@,
                    ));
                }
                match store_get(&self.resolvers, i as u64) {
                    Some(kept) => kept,
                    None => {
                        proof {
                            assert(false);
                        }
                        unreached()
                    },
                }
            },
            None => {
                let number = self.keys.len();
                let resolver = self.make(&options);
                let ghost before = self.keys();
                let ghost listed = self.keys@;
                let ghost kept = kept_resolvers(self.resolvers);
                proof {
                    lemma_find_key(before, options@);
                }
                store_insert(&mut self.resolvers, number as u64, resolver);
                self.keys.push(options);
                let found = store_get(&self.resolvers, number as u64);
                proof {
                    assert(self.keys@ == listed.push(self.keys@.last()));
                    assert(self.keys() == before.push(options@));
                    assert(self.keys().drop_last() == before);
                    lemma_find_key(self.keys(), options@);
                    assert forall|i: int, j: int|
                        0 <= i < j < self.keys@.len() implies self.keys@[i]@ != self.keys@[j]@ by {
                        if j == listed.len() {
                            assert(before[i] == listed[i]@);
                        } else {
                            assert(self.keys@[i] == listed[i]);
                            assert(self.keys@[j] == listed[j]);
                        }
                    }
                    assert forall|i: int| 0 <= i < self.keys@.len() implies kept_resolvers(
                        self.resolvers,
                    ).dom().contains(i as u64) && (#[trigger] kept_resolvers(
                        self.resolvers,
                    )[i as u64]).config() == config_for(self.base_options@, self.keys@[i]@)
                        && kept_resolvers(self.resolvers)[i as u64].spec_instance() == i by {
                        if i < listed.len() {
                            assert(self.keys@[i] == listed[i]);
                            assert(kept.dom().contains(i as u64));
                            assert(kept_resolvers(self.resolvers)[i as u64] == kept[i as u64]);
                        }
                    }
                }
                match found {
                    Some(shared) => shared,
                    None => {
                        proof {
                            assert(false);
                        }
                        unreached()
                    },
                }
            },
        }
    }
}

} // verus!
