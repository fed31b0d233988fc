use module_pipeline::options::{CompilerOptions, Devtool, OutputOptions};
use module_pipeline::resolve::{resolve, resolve_key, Error, ErrorSpan, ResolveArgs};
use module_pipeline::resolver::{
    ByDependency, DependencyCategory, DependencyType, EngineError, Resolution, Resolve,
    ResolveFields, ResolveOptionsWithDependencyType, ResolveResult, ResolverFactory,
};
use module_pipeline::diagnostic::Severity;
use std::sync::Arc;

fn overrides(extensions: &[&str]) -> Resolve {
    let mut r = Resolve::empty();
    r.extensions = Some(extensions.iter().map(|s| s.to_string()).collect());
    r
}

fn key(over: Option<Resolve>, to_context: bool) -> ResolveOptionsWithDependencyType {
    ResolveOptionsWithDependencyType {
        resolve_options: over,
        resolve_to_context: to_context,
        dependency_type: DependencyType::EsmImport,
        dependency_category: DependencyCategory::Esm,
    }
}

fn compiler_options() -> CompilerOptions {
    CompilerOptions {
        context: "/project".to_string(),
        devtool: Devtool { enabled: false, source_map: false },
        output: OutputOptions { hash_salt: None },
    }
}

fn args(importer: Option<&str>, optional: bool) -> ResolveArgs {
    ResolveArgs {
        importer: importer.map(|s| s.to_string()),
        context: "/project/src".to_string(),
        specifier: "./dep".to_string(),
        dependency_type: DependencyType::EsmImport,
        dependency_category: DependencyCategory::Esm,
        span: Some(ErrorSpan { start: 3, end: 9 }),
        resolve_options: None,
        resolve_to_context: false,
        optional,
        file_dependencies: vec!["seen.js".to_string()],
        missing_dependencies: vec![],
    }
}

#[test]
fn merge_prefers_what_the_overrides_set() {
    let mut base = Resolve::empty();
    base.extensions = Some(vec![".js".to_string()]);
    base.symlinks = Some(true);
    base.main_files = Some(vec!["index".to_string()]);
    let mut over = Resolve::empty();
    over.extensions = Some(vec![".ts".to_string(), ".tsx".to_string()]);
    over.prefer_relative = Some(false);
    let merged = base.merge(over);
    assert_eq!(merged.extensions, Some(vec![".ts".to_string(), ".tsx".to_string()]));
    assert_eq!(merged.symlinks, Some(true));
    assert_eq!(merged.main_files, Some(vec!["index".to_string()]));
    assert_eq!(merged.prefer_relative, Some(false));
    assert_eq!(merged.modules, None);
}

#[test]
fn keys_are_equal_by_value() {
    assert!(key(Some(overrides(&[".ts"])), false) == key(Some(overrides(&[".ts"])), false));
    assert!(key(Some(overrides(&[".ts"])), false) != key(Some(overrides(&[".js"])), false));
    assert!(key(Some(overrides(&[".ts"])), false) != key(Some(overrides(&[".ts"])), true));
    assert!(key(None, false) != key(Some(Resolve::empty()), false));
    let mut other = key(None, false);
    other.dependency_category = DependencyCategory::CommonJS;
    assert!(key(None, false) != other);
}

#[test]
fn equal_keys_get_the_same_resolver() {
    let mut factory = ResolverFactory::new(overrides(&[".js"]));
    let first = factory.get(key(Some(overrides(&[".ts"])), false));
    let second = factory.get(key(Some(overrides(&[".ts"])), false));
    assert!(Arc::ptr_eq(&first, &second));
    assert_eq!(first.instance(), second.instance());
    assert_eq!(factory.len(), 1);
    let third = factory.get(key(Some(overrides(&[".ts"])), true));
    assert!(!Arc::ptr_eq(&first, &third));
    assert_eq!(third.instance(), 1);
    assert_eq!(factory.len(), 2);
    let again = factory.get(key(Some(overrides(&[".ts"])), false));
    assert!(Arc::ptr_eq(&first, &again));
    assert_eq!(factory.len(), 2);
}

#[test]
fn resolver_has_the_merged_configuration_of_its_key() {
    let mut base = overrides(&[".js"]);
    base.symlinks = Some(false);
    let mut factory = ResolverFactory::new(base);
    let with = factory.get(key(Some(overrides(&[".ts"])), true));
    assert_eq!(with.options().extensions, Some(vec![".ts".to_string()]));
    assert_eq!(with.options().symlinks, Some(false));
    assert!(with.resolve_to_context());
    assert_eq!(with.dependency_category(), DependencyCategory::Esm);
    let without = factory.get(key(None, false));
    assert_eq!(without.options().extensions, Some(vec![".js".to_string()]));
    assert!(!without.resolve_to_context());
}

#[test]
fn clearing_entries_keeps_the_resolvers() {
    let mut factory = ResolverFactory::new(Resolve::empty());
    let first = factory.get(key(None, false));
    assert_eq!(factory.cache_epoch(), 0);
    factory.clear_entries();
    assert_eq!(factory.cache_epoch(), 1);
    assert_eq!(factory.len(), 1);
    let again = factory.get(key(None, false));
    assert!(Arc::ptr_eq(&first, &again));
}

#[test]
fn ignored_is_a_success_of_its_own() {
    let mut factory = ResolverFactory::new(Resolve::empty());
    let resolver = factory.get(key(None, false));
    assert!(matches!(resolver.resolve(Err(EngineError::Ignored)), Ok(ResolveResult::Ignored)));
    assert!(matches!(resolver.resolve(Err(EngineError::Recursion)), Err(EngineError::Recursion)));
    let found = Resolution { path: "/p/a.js".to_string(), query: Some("?x".to_string()), fragment: None };
    match resolver.resolve(Ok(found)) {
        Ok(ResolveResult::Resource(r)) => {
            assert_eq!(r.path, "/p/a.js");
            assert_eq!(r.query.as_deref(), Some("?x"));
            assert_eq!(r.fragment, None);
        }
        _ => panic!("a found resource is the result"),
    }
    match resolver.resolve(Err(EngineError::Other("NotFound".to_string()))) {
        Err(EngineError::Other(detail)) => assert_eq!(detail, "NotFound"),
        _ => panic!("other failures stay failures"),
    }
    let (files, missing) = resolver.dependencies();
    assert!(files.is_empty());
    assert!(missing.is_empty());
}

#[test]
fn resolve_key_is_made_of_the_request() {
    let mut a = args(None, false);
    a.resolve_options = Some(overrides(&[".mjs"]));
    a.resolve_to_context = true;
    let k = resolve_key(&a);
    assert!(k == key(Some(overrides(&[".mjs"])), true));
}

#[test]
fn resolve_hands_on_what_was_found() {
    let mut factory = ResolverFactory::new(Resolve::empty());
    let mut a = args(Some("/project/src/index.js"), false);
    let found = Resolution { path: "/project/src/dep.js".to_string(), query: None, fragment: None };
    match resolve(&mut a, &mut factory, &compiler_options(), Ok(found), true) {
        Ok(ResolveResult::Resource(r)) => assert_eq!(r.path, "/project/src/dep.js"),
        _ => panic!("found"),
    }
    assert_eq!(factory.len(), 1);
    assert_eq!(a.file_dependencies, vec!["seen.js".to_string()]);
    assert!(a.missing_dependencies.is_empty());
    let r = resolve(&mut a, &mut factory, &compiler_options(), Err(EngineError::Ignored), true);
    assert!(matches!(r, Ok(ResolveResult::Ignored)));
    assert_eq!(factory.len(), 1);
}

#[test]
fn resolve_failure_names_the_importer() {
    let mut factory = ResolverFactory::new(Resolve::empty());
    let mut a = args(Some("/project/src/index.js"), false);
    let failure = resolve(
        &mut a,
        &mut factory,
        &compiler_options(),
        Err(EngineError::Other("NotFound".to_string())),
        true,
    )
    .unwrap_err();
    assert_eq!(failure.0, "Failed to resolve ./dep in src");
    match failure.1 {
        Error::TraceableError(e) => {
            assert_eq!(e.path, "/project/src/index.js");
            assert_eq!(e.start, 3);
            assert_eq!(e.end, 9);
            assert_eq!(e.title, "Resolve error");
            assert_eq!(e.message, "Failed to resolve ./dep in /project/src/index.js");
            assert_eq!(e.severity, Severity::Error);
        }
        _ => panic!("a readable importer gives a traceable error"),
    }
}

#[test]
fn optional_dependency_fails_with_a_warning() {
    let mut factory = ResolverFactory::new(Resolve::empty());
    let mut a = args(Some("/project/src/index.js"), true);
    let failure = resolve(
        &mut a,
        &mut factory,
        &compiler_options(),
        Err(EngineError::Other("NotFound".to_string())),
        false,
    )
    .unwrap_err();
    match failure.1 {
        Error::InternalError(e) => {
            assert_eq!(e.message, "Failed to resolve ./dep in /project/src/index.js");
            assert_eq!(e.severity, Severity::Warn);
        }
        _ => panic!("an unreadable importer gives a plain error"),
    }
}

#[test]
fn cyclic_alias_has_a_message_of_its_own() {
    let mut factory = ResolverFactory::new(Resolve::empty());
    let mut a = args(Some("/project/src/index.js"), false);
    a.specifier = "a\"b".to_string();
    let failure =
        resolve(&mut a, &mut factory, &compiler_options(), Err(EngineError::Recursion), false)
            .unwrap_err();
    assert_eq!(failure.0, "Can't resolve \"a\\\"b\" in src/index.js , maybe it had cycle alias");
    match failure.1 {
        Error::InternalError(e) => assert_eq!(
            e.message,
            "Can't resolve \"a\\\"b\" in /project/src/index.js , maybe it had cycle alias"
        ),
        _ => panic!("plain"),
    }
}

#[test]
fn failure_without_importer_names_the_project_root() {
    let mut factory = ResolverFactory::new(Resolve::empty());
    let mut a = args(None, true);
    let failure =
        resolve(&mut a, &mut factory, &compiler_options(), Err(EngineError::Recursion), true)
            .unwrap_err();
    assert_eq!(failure.0, "Failed to resolve ./dep in project root");
    match failure.1 {
        Error::InternalError(e) => {
            assert_eq!(e.message, "Failed to resolve ./dep in project root");
            assert_eq!(e.severity, Severity::Warn);
        }
        _ => panic!("plain"),
    }
    let mut required = args(None, false);
    let failure = resolve(
        &mut required,
        &mut factory,
        &compiler_options(),
        Err(EngineError::Other("NotFound".to_string())),
        true,
    )
    .unwrap_err();
    match failure.1 {
        Error::InternalError(e) => assert_eq!(e.severity, Severity::Error),
        _ => panic!("plain"),
    }
}

#[test]
fn runtime_message_holds_no_rooted_path() {
    let mut factory = ResolverFactory::default();
    let mut a = args(Some("/project/src/deep/index.js"), false);
    a.context = "/project/src/deep".to_string();
    let failure = resolve(
        &mut a,
        &mut factory,
        &compiler_options(),
        Err(EngineError::Other("NotFound".to_string())),
        false,
    )
    .unwrap_err();
    assert_eq!(failure.0, "Failed to resolve ./dep in src/deep");
    assert!(!failure.0.contains("/project"));
    match failure.1 {
        Error::InternalError(e) => {
            assert_eq!(e.message, "Failed to resolve ./dep in /project/src/deep/index.js")
        }
        _ => panic!("plain"),
    }
}

#[test]
fn default_factory_leaves_everything_open() {
    let mut factory = ResolverFactory::default();
    assert_eq!(factory.len(), 0);
    assert_eq!(factory.cache_epoch(), 0);
    let resolver = factory.get(key(None, false));
    assert_eq!(resolver.options().extensions, None);
    assert_eq!(resolver.options().symlinks, None);
}

fn fields(extensions: Option<&[&str]>, symlinks: Option<bool>) -> ResolveFields {
    ResolveFields {
        extensions: extensions.map(|l| l.iter().map(|s| s.to_string()).collect()),
        main_files: None,
        main_fields: None,
        condition_names: None,
        modules: None,
        tsconfig: None,
        prefer_relative: None,
        symlinks,
        browser_field: None,
        fully_specified: None,
    }
}

fn with_categories() -> Resolve {
    let mut base = overrides(&[".js"]);
    base.symlinks = Some(true);
    base.by_dependency = Some(vec![
        ByDependency { category: Some(DependencyCategory::Esm), resolve: fields(Some(&[".mjs"]), None) },
        ByDependency { category: None, resolve: fields(None, Some(false)) },
        ByDependency { category: Some(DependencyCategory::Esm), resolve: fields(Some(&[".late"]), None) },
    ]);
    base
}

#[test]
fn options_by_category_override_the_others() {
    let esm = with_categories().merge_by_dependency(DependencyCategory::Esm);
    assert_eq!(esm.extensions, Some(vec![".mjs".to_string()]));
    assert_eq!(esm.symlinks, Some(true));
    assert!(esm.by_dependency.is_none());
    let cjs = with_categories().merge_by_dependency(DependencyCategory::CommonJS);
    assert_eq!(cjs.extensions, Some(vec![".js".to_string()]));
    assert_eq!(cjs.symlinks, Some(false));
    let plain = overrides(&[".js"]).merge_by_dependency(DependencyCategory::Esm);
    assert_eq!(plain.extensions, Some(vec![".js".to_string()]));
}

#[test]
fn resolver_has_the_options_of_its_category() {
    let mut factory = ResolverFactory::new(with_categories());
    let esm = factory.get(key(None, false));
    assert_eq!(esm.options().extensions, Some(vec![".mjs".to_string()]));
    let mut cjs_key = key(None, false);
    cjs_key.dependency_category = DependencyCategory::CommonJS;
    let cjs = factory.get(cjs_key);
    assert_eq!(cjs.options().extensions, Some(vec![".js".to_string()]));
    assert_eq!(cjs.options().symlinks, Some(false));
    let mut over = Resolve::empty();
    over.by_dependency = Some(vec![ByDependency {
        category: Some(DependencyCategory::Esm),
        resolve: fields(Some(&[".ts"]), None),
    }]);
    let ruled = factory.get(key(Some(over), false));
    assert_eq!(ruled.options().extensions, Some(vec![".ts".to_string()]));
    assert_eq!(ruled.options().symlinks, Some(true));
}

#[test]
fn keys_differ_by_their_options_by_category() {
    let mut a = Resolve::empty();
    a.by_dependency = Some(vec![ByDependency { category: None, resolve: fields(Some(&[".a"]), None) }]);
    let mut b = Resolve::empty();
    b.by_dependency = Some(vec![ByDependency { category: None, resolve: fields(Some(&[".b"]), None) }]);
    assert!(key(Some(a.duplicate()), false) == key(Some(a.duplicate()), false));
    assert!(key(Some(a), false) != key(Some(b), false));
}

#[test]
fn overlay_keeps_what_is_left_open() {
    let laid = overrides(&[".js"]).overlay(fields(None, Some(false)));
    assert_eq!(laid.extensions, Some(vec![".js".to_string()]));
    assert_eq!(laid.symlinks, Some(false));
}
