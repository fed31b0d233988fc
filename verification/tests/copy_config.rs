use module_pipeline::copy_config::{
    parse_to_type, to_type_from_lowercase, CopyPluginConfig, GlobFilter, Info, Pattern, RawCopyConfig, RawGlobOptions,
    RawInfo, RawPattern, RawRelated, ToType,
};

fn raw_pattern(to_type: Option<&str>, ignore: Option<Vec<&str>>) -> RawPattern {
    RawPattern {
        from: "public".to_string(),
        to: Some("dist".to_string()),
        context: Some("/project".to_string()),
        to_type: to_type.map(|t| t.to_string()),
        no_error_on_missing: true,
        force: false,
        priority: 7,
        glob_options: RawGlobOptions {
            case_sensitive_match: Some(true),
            dot: None,
            ignore: ignore.map(|l| l.into_iter().map(|s| s.to_string()).collect()),
        },
        info: Some(RawInfo {
            immutable: Some(true),
            minimized: None,
            chunk_hash: Some(vec!["abc".to_string()]),
            content_hash: None,
            development: Some(false),
            hot_module_replacement: None,
            related: Some(RawRelated { source_map: Some("a.map".to_string()) }),
            version: Some("1".to_string()),
        }),
    }
}

#[test]
fn pattern_carries_every_field_over() {
    let pattern = Pattern::from(raw_pattern(Some("dir"), Some(vec!["**/*.map", "tmp/*"])));
    assert_eq!(pattern.from, "public");
    assert_eq!(pattern.to.as_deref(), Some("dist"));
    assert_eq!(pattern.context.as_deref(), Some("/project"));
    assert_eq!(pattern.to_type, Some(ToType::Dir));
    assert!(pattern.no_error_on_missing);
    assert!(!pattern.force);
    assert_eq!(pattern.priority, 7);
    assert_eq!(pattern.glob_options.case_sensitive_match, Some(true));
    assert_eq!(pattern.glob_options.dot, None);
    let ignore = pattern.glob_options.ignore.unwrap();
    assert_eq!(ignore.len(), 2);
    assert_eq!(ignore[0].as_str(), "**/*.map");
    assert_eq!(ignore[1].as_str(), "tmp/*");
    let info = pattern.info.unwrap();
    assert_eq!(info.immutable, Some(true));
    assert_eq!(info.minimized, None);
    assert_eq!(info.chunk_hash, Some(vec!["abc".to_string()]));
    assert_eq!(info.development, Some(false));
    assert_eq!(info.related.unwrap().source_map.as_deref(), Some("a.map"));
    assert_eq!(info.version.as_deref(), Some("1"));
}

#[test]
fn to_type_is_read_whatever_its_case() {
    assert_eq!(parse_to_type(Some("DIR".to_string())), Some(ToType::Dir));
    assert_eq!(parse_to_type(Some("File".to_string())), Some(ToType::File));
    assert_eq!(parse_to_type(Some("template".to_string())), Some(ToType::Template));
    assert_eq!(parse_to_type(Some("folder".to_string())), None);
    assert_eq!(parse_to_type(None), None);
}

#[test]
fn pattern_with_refused_glob_is_not_made() {
    assert!(Pattern::try_from(raw_pattern(None, Some(vec!["ok/*", "a**/b"]))).is_none());
    assert!(Pattern::try_from(raw_pattern(None, Some(vec!["[a"]))).is_none());
    assert!(Pattern::try_from(raw_pattern(None, Some(vec!["***"]))).is_none());
    let made = Pattern::try_from(raw_pattern(None, None)).unwrap();
    assert!(made.glob_options.ignore.is_none());
    assert_eq!(made.to_type, None);
}

#[test]
fn glob_filter_accepts_what_the_glob_compiler_accepts() {
    assert!(GlobFilter::new("src/**/*.rs".to_string()).is_some());
    assert!(GlobFilter::new("[abc]?".to_string()).is_some());
    assert!(GlobFilter::new("a/**b".to_string()).is_none());
}

#[test]
fn copy_config_keeps_the_order_of_its_patterns() {
    let mut first = raw_pattern(Some("file"), None);
    first.from = "one".to_string();
    let mut second = raw_pattern(Some("template"), Some(vec!["*.tmp"]));
    second.from = "two".to_string();
    let mut third = raw_pattern(None, None);
    third.from = "three".to_string();
    let config = CopyPluginConfig::from(RawCopyConfig { patterns: vec![first, second, third] });
    assert_eq!(config.patterns.len(), 3);
    assert_eq!(config.patterns[0].from, "one");
    assert_eq!(config.patterns[0].to_type, Some(ToType::File));
    assert_eq!(config.patterns[1].from, "two");
    assert_eq!(config.patterns[1].to_type, Some(ToType::Template));
    assert_eq!(config.patterns[2].from, "three");
}

#[test]
fn copy_config_with_refused_glob_is_not_made() {
    let good = raw_pattern(None, Some(vec!["*.tmp"]));
    let bad = raw_pattern(None, Some(vec!["x***"]));
    assert!(CopyPluginConfig::try_from(RawCopyConfig { patterns: vec![good, bad] }).is_none());
    assert_eq!(CopyPluginConfig::try_from(RawCopyConfig { patterns: vec![] }).unwrap().patterns.len(), 0);
}

#[test]
fn info_is_carried_over() {
    let info = Info::from(RawInfo {
        immutable: None,
        minimized: Some(true),
        chunk_hash: None,
        content_hash: Some(vec!["h".to_string()]),
        development: None,
        hot_module_replacement: Some(true),
        related: None,
        version: None,
    });
    assert_eq!(info.minimized, Some(true));
    assert_eq!(info.content_hash, Some(vec!["h".to_string()]));
    assert_eq!(info.hot_module_replacement, Some(true));
    assert!(info.related.is_none());
    assert!(info.version.is_none());
}

#[test]
fn lower_case_names_stand_for_target_kinds() {
    assert_eq!(to_type_from_lowercase("dir"), Some(ToType::Dir));
    assert_eq!(to_type_from_lowercase("file"), Some(ToType::File));
    assert_eq!(to_type_from_lowercase("template"), Some(ToType::Template));
    assert_eq!(to_type_from_lowercase("DIR"), None);
    assert_eq!(to_type_from_lowercase(""), None);
}
