use vstd::prelude::*;

verus! {

/// One copy rule as the configuration layer hands it over.
#[derive(Debug)]
pub struct RawPattern {
    pub from: String,
    pub to: Option<String>,
    pub context: Option<String>,
    pub to_type: Option<String>,
    pub no_error_on_missing: bool,
    pub force: bool,
    pub priority: i32,
    pub glob_options: RawGlobOptions,
    pub info: Option<RawInfo>,
}

/// Asset information as the configuration layer hands it over.
#[derive(Debug)]
pub struct RawInfo {
    pub immutable: Option<bool>,
    pub minimized: Option<bool>,
    pub chunk_hash: Option<Vec<String>>,
    pub content_hash: Option<Vec<String>>,
    pub development: Option<bool>,
    pub hot_module_replacement: Option<bool>,
    pub related: Option<RawRelated>,
    pub version: Option<String>,
}

#[derive(Debug)]
pub struct RawRelated {
    pub source_map: Option<String>,
}

#[derive(Debug)]
pub struct RawGlobOptions {
    pub case_sensitive_match: Option<bool>,
    pub dot: Option<bool>,
    pub ignore: Option<Vec<String>>,
}

#[derive(Debug)]
pub struct RawCopyConfig {
    pub patterns: Vec<RawPattern>,
}

/// What the target of a copy rule is taken to be.
#[derive(Clone, Copy, Debug, PartialEq, Eq, Structural)]
pub enum ToType {
    Dir,
    File,
    Template,
}

#[derive(Debug)]
pub struct Related {
    pub source_map: Option<String>,
}

#[derive(Debug)]
pub struct Info {
    pub immutable: Option<bool>,
    pub minimized: Option<bool>,
    pub chunk_hash: Option<Vec<String>>,
    pub content_hash: Option<Vec<String>>,
    pub development: Option<bool>,
    pub hot_module_replacement: Option<bool>,
    pub related: Option<Related>,
    pub version: Option<String>,
}

/// Whether the glob compiler accepts the text as a pattern.
pub uninterp spec fn glob_accepts(pattern: Seq<char>) -> bool;

/// Calls `Pattern::new` of glob and keeps whether it succeeded. The contract
/// claims that acceptance depends on the text alone.
#[verifier::external_body]
fn glob_compiles(pattern: &str) -> (ok: bool)
    ensures
        ok == glob_accepts(pattern@),
{
    glob::Pattern::new(pattern).is_ok()
}

/// The lower-case form that `str::to_lowercase` gives of a text.
pub uninterp spec fn lowercase(text: Seq<char>) -> Seq<char>;

/// Calls `str::to_lowercase` of std. The contract claims that the result
/// depends on the text alone.
#[verifier::external_body]
fn to_lowercase(text: &str) -> (lower: String)
    ensures
        lower@ == lowercase(text@),
{
    text.to_lowercase()
}

/// A glob pattern that the glob compiler accepts, held as its text.
#[derive(Debug)]
pub struct GlobFilter {
    text: String,
}

impl GlobFilter {
    /// The text of the pattern.
    pub closed spec fn view(&self) -> Seq<char> {
        self.text@
    }

    #[verifier::type_invariant]
    spec fn accepted(&self) -> bool {
        glob_accepts(self.text@)
    }

    /// Checks a pattern. `None` exactly where the glob compiler refuses it.
    pub fn new(pattern: String) -> (r: Option<GlobFilter>)
        ensures
            match r {
                Some(f) => glob_accepts(pattern@) && f@ == pattern@,
                None => !glob_accepts(pattern@),
            },
    {
        if glob_compiles(pattern.as_str()) {
            Some(GlobFilter { text: pattern })
        } else {
            None
        }
    }

    /// The text of the pattern, which the glob compiler accepts.
    pub fn as_str(&self) -> (s: &str)
        ensures
            s@ == self@,
            glob_accepts(s@),
    {
        proof {
            use_type_invariant(self);
        }
        self.text.as_str()
    }
}

#[derive(Debug)]
pub struct GlobOptions {
    pub case_sensitive_match: Option<bool>,
    pub dot: Option<bool>,
    pub ignore: Option<Vec<GlobFilter>>,
}

/// One copy rule, checked and ready for the copy step.
#[derive(Debug)]
pub struct Pattern {
    pub from: String,
    pub to: Option<String>,
    pub context: Option<String>,
    pub to_type: Option<ToType>,
    pub no_error_on_missing: bool,
    pub info: Option<Info>,
    pub force: bool,
    pub priority: i32,
    pub glob_options: GlobOptions,
}

#[derive(Debug)]
pub struct CopyPluginConfig {
    pub patterns: Vec<Pattern>,
}

/// The target kind that a name in lower case stands for.
pub open spec fn to_type_named(lower: Seq<char>) -> Option<ToType> {
    if lower == "dir"@ {
        Some(ToType::Dir)
    } else if lower == "file"@ {
        Some(ToType::File)
    } else if lower == "template"@ {
        Some(ToType::Template)
    } else {
        None
    }
}

/// The target kind that a configured name stands for, whatever its case.
pub open spec fn to_type_of(name: Option<String>) -> Option<ToType> {
    match name {
        Some(n) => to_type_named(lowercase(n@)),
        None => None,
    }
}

/// The asset information that a raw record stands for.
pub open spec fn info_of(raw: RawInfo) -> Info {
    Info {
        immutable: raw.immutable,
        minimized: raw.minimized,
        chunk_hash: raw.chunk_hash,
        content_hash: raw.content_hash,
        development: raw.development,
        hot_module_replacement: raw.hot_module_replacement,
        related: match raw.related {
            Some(r) => Some(Related { source_map: r.source_map }),
            None => None,
        },
        version: raw.version,
    }
}

/// Every pattern of the list is one that the glob compiler accepts.
pub open spec fn all_globs_accepted(filters: Seq<String>) -> bool {
    forall|i: int| 0 <= i < filters.len() ==> glob_accepts(#[trigger] filters[i]@)
}

/// The ignore list of the rule, if it has one, holds accepted patterns only.
pub open spec fn ignore_accepted(raw: RawPattern) -> bool {
    raw.glob_options.ignore matches Some(list) ==> all_globs_accepted(list@)
}

/// The filters hold the given texts, one for one.
pub open spec fn filters_match(filters: Seq<GlobFilter>, texts: Seq<String>) -> bool {
    filters.len() == texts.len() && forall|i: int|
        0 <= i < filters.len() ==> (#[trigger] filters[i])@ == texts[i]@
}

/// `pattern` is the checked form of `raw`: every field carried over, the
/// target kind read from its name, the ignore list kept in order.
pub open spec fn pattern_matches(pattern: Pattern, raw: RawPattern) -> bool {
    &&& pattern.from == raw.from
    &&& pattern.to == raw.to
    &&& pattern.context == raw.context
    &&& pattern.to_type == to_type_of(raw.to_type)
    &&& pattern.no_error_on_missing == raw.no_error_on_missing
    &&& pattern.force == raw.force
    &&& pattern.priority == raw.priority
    &&& pattern.glob_options.case_sensitive_match == raw.glob_options.case_sensitive_match
    &&& pattern.glob_options.dot == raw.glob_options.dot
    &&& match (pattern.glob_options.ignore, raw.glob_options.ignore) {
        (Some(filters), Some(texts)) => filters_match(filters@, texts@),
        (None, None) => true,
        _ => false,
    }
    &&& match (pattern.info, raw.info) {
        (Some(info), Some(raw_info)) => info == info_of(raw_info),
        (None, None) => true,
        _ => false,
    }
}

impl Info {
    pub fn from(value: RawInfo) -> (info: Info)
        ensures
            info == info_of(value),
    {
        Info {
            immutable: value.immutable,
            minimized: value.minimized,
            chunk_hash: value.chunk_hash,
            content_hash: value.content_hash,
            development: value.development,
            hot_module_replacement: value.hot_module_replacement,
            related: match value.related {
                Some(r) => Some(Related { source_map: r.source_map }),
                None => None,
            },
            version: value.version,
        }
    }
}

/// The target kind that a name in lower case stands for: `dir`, `file` or
/// `template`; every other name stands for none.
pub fn to_type_from_lowercase(lower: &str) -> (r: Option<ToType>)
    ensures
        r == to_type_named(lower@),
{
    let lower = lower.to_owned();
    if lower == "dir".to_owned() {
        Some(ToType::Dir)
    } else if lower == "file".to_owned() {
        Some(ToType::File)
    } else if lower == "template".to_owned() {
        Some(ToType::Template)
    } else {
        None
    }
}

/// Reads the target kind from its configured name.
pub fn parse_to_type(name: Option<String>) -> (r: Option<ToType>)
    ensures
        r == to_type_of(name),
{
    match name {
        Some(n) => to_type_from_lowercase(to_lowercase(n.as_str()).as_str()),
        None => None,
    }
}

/// Whether the glob compiler accepts every pattern of an ignore list.
pub fn filters_accepted(texts: &Vec<String>) -> (r: bool)
    ensures
        r == all_globs_accepted(texts@),
{
    let mut i: usize = 0;
    while i < texts.len()
        invariant
            0 <= i <= texts.len(),
            forall|j: int| 0 <= j < i ==> glob_accepts(#[trigger] texts@[j]@),
        decreases texts.len() - i,
    {
        if !glob_compiles(texts[i].as_str()) {
            return false;
        }
        i = i + 1;
    }
    true
}

/// The filters of an ignore list whose patterns are all accepted.
pub fn check_filters(texts: Vec<String>) -> (filters: Vec<GlobFilter>)
    requires
        all_globs_accepted(texts@),
    ensures
        filters_match(filters@, texts@),
{
    let mut filters: Vec<GlobFilter> = Vec::new();
    let mut i: usize = 0;
    while i < texts.len()
        invariant
            0 <= i <= texts.len(),
            all_globs_accepted(texts@),
            filters@.len() == i,
            forall|j: int| 0 <= j < i ==> (#[trigger] filters@[j])@ == texts@[j]@,
        decreases texts.len() - i,
    {
        assert(glob_accepts(texts@[i as int]@));
        match GlobFilter::new(texts[i].clone()) {
            Some(f) => {
                filters.push(f);
            },
            None => {},
        }
        i = i + 1;
    }
    filters
}

impl Pattern {
    /// The checked form of a raw copy rule whose ignore patterns are all
    /// ones that the glob compiler accepts.
    pub fn from(value: RawPattern) -> (pattern: Pattern)
        requires
            ignore_accepted(value),
        ensures
            pattern_matches(pattern, value),
    {
        let RawPattern {
            from,
            to,
            context,
            to_type,
            no_error_on_missing,
            force,
            priority,
            glob_options,
            info,
        } = value;
        Pattern {
            from,
            to,
            context,
            to_type: parse_to_type(to_type),
            no_error_on_missing,
            info: match info {
                Some(raw_info) => Some(Info::from(raw_info)),
                None => None,
            },
            force,
            priority,
            glob_options: GlobOptions {
                case_sensitive_match: glob_options.case_sensitive_match,
                dot: glob_options.dot,
                ignore: match glob_options.ignore {
                    Some(texts) => Some(check_filters(texts)),
                    None => None,
                },
            },
        }
    }

    /// Whether the ignore list of a raw copy rule holds accepted patterns
    /// only.
    pub fn accepts(value: &RawPattern) -> (r: bool)
        ensures
            r == ignore_accepted(*value),
    {
        match &value.glob_options.ignore {
            Some(texts) => filters_accepted(texts),
            None => true,
        }
    }

    /// The checked form of a raw copy rule. `None` exactly where its ignore
    /// list holds a pattern that the glob compiler refuses.
    pub fn try_from(value: RawPattern) -> (r: Option<Pattern>)
        ensures
            match r {
                Some(pattern) => ignore_accepted(value) && pattern_matches(pattern, value),
                None => !ignore_accepted(value),
            },
    {
        if Pattern::accepts(&value) {
            Some(Pattern::from(value))
        } else {
            None
        }
    }
}

/// Every rule of the configuration has an ignore list that is accepted.
pub open spec fn config_accepted(raw: RawCopyConfig) -> bool {
    forall|i: int| 0 <= i < raw.patterns@.len() ==> ignore_accepted(#[trigger] raw.patterns@[i])
}

/// `config` is the checked form of `raw`, rule by rule.
pub open spec fn config_matches(config: CopyPluginConfig, raw: RawCopyConfig) -> bool {
    config.patterns@.len() == raw.patterns@.len() && forall|i: int|
        0 <= i < raw.patterns@.len() ==> pattern_matches(
            #[trigger] config.patterns@[i],
            raw.patterns@[i],
        )
}

impl CopyPluginConfig {
    /// Whether every rule of a raw configuration has an ignore list of
    /// accepted patterns.
    pub fn accepts(val: &RawCopyConfig) -> (r: bool)
        ensures
            r == config_accepted(*val),
    {
        let mut i: usize = 0;
        while i < val.patterns.len()
            invariant
                0 <= i <= val.patterns@.len(),
                forall|j: int| 0 <= j < i ==> ignore_accepted(#[trigger] val.patterns@[j]),
            decreases val.patterns@.len() - i,
        {
            if !Pattern::accepts(&val.patterns[i]) {
                return false;
            }
            i = i + 1;
        }
        true
    }

    /// The checked form of a raw configuration whose ignore patterns are all
    /// ones that the glob compiler accepts.
    pub fn from(val: RawCopyConfig) -> (config: CopyPluginConfig)
        requires
            config_accepted(val),
        ensures
            config_matches(config, val),
    {
        let ghost all = val.patterns@;
        let mut raws = val.patterns;
        let mut patterns: Vec<Pattern> = Vec::new();
        // Rules are taken from the back and put in place afterwards.
        let mut taken: Vec<Pattern> = Vec::new();
        while raws.len() > 0
            invariant
                all == val.patterns@,
                config_accepted(val),
                raws@ == all.take(raws@.len() as int),
                raws@.len() + taken@.len() == all.len(),
                forall|j: int|
                    0 <= j < taken@.len() ==> pattern_matches(
                        #[trigger] taken@[j],
                        all[all.len() - 1 - j],
                    ),
            decreases raws@.len(),
        {
            let ghost before = raws@;
            let raw = raws.pop().unwrap();
            assert(raw == all[before.len() - 1]);
            assert(raws@ == all.take(raws@.len() as int));
            assert(ignore_accepted(val.patterns@[before.len() - 1]));
            taken.push(Pattern::from(raw));
        }
        while taken.len() > 0
            invariant
                patterns@.len() + taken@.len() == all.len(),
                forall|j: int|
                    0 <= j < taken@.len() ==> pattern_matches(
                        #[trigger] taken@[j],
                        all[all.len() - 1 - j],
                    ),
                forall|j: int|
                    0 <= j < patterns@.len() ==> pattern_matches(#[trigger] patterns@[j], all[j]),
            decreases taken@.len(),
        {
            let ghost n = taken@.len();
            let p = taken.pop().unwrap();
            assert(pattern_matches(p, all[all.len() - 1 - (n - 1)]));
            patterns.push(p);
        }
        CopyPluginConfig { patterns }
    }

    /// The checked form of a raw configuration. `None` exactly where one of
    /// its rules has an ignore pattern that the glob compiler refuses.
    pub fn try_from(val: RawCopyConfig) -> (r: Option<CopyPluginConfig>)
        ensures
            match r {
                Some(config) => config_accepted(val) && config_matches(config, val),
                None => !config_accepted(val),
            },
    {
        if CopyPluginConfig::accepts(&val) {
            Some(CopyPluginConfig::from(val))
        } else {
            None
        }
    }
}

} // verus!
