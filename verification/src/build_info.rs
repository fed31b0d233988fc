use vstd::prelude::*;

use crate::resolver::{DependencyCategory, DependencyType};
use crate::source::{Content, SourceMap};

verus! {

/// How the exports of a module are shaped.
#[derive(Clone, Copy, Debug, PartialEq, Eq, Structural)]
pub enum BuildMetaExportsType {
    Unset,
    Default,
    Namespace,
    Flagged,
    Dynamic,
}

/// How the default export of a module is to be treated.
#[derive(Clone, Copy, Debug, PartialEq, Eq, Structural)]
pub enum BuildMetaDefaultObject {
    False,
    Redirect,
    RedirectWarn,
}

/// What parsing found out about the shape of a module.
#[derive(Clone, Copy, Debug, PartialEq, Eq, Structural)]
pub struct BuildMeta {
    pub esm: bool,
    pub exports_type: BuildMetaExportsType,
    pub default_object: BuildMetaDefaultObject,
}

impl BuildMeta {
    /// The meta of a module of which nothing is known.
    pub open spec fn initial() -> BuildMeta {
        BuildMeta {
            esm: false,
            exports_type: BuildMetaExportsType::Unset,
            default_object: BuildMetaDefaultObject::False,
        }
    }

    /// The three bytes that stand for the meta in a content hash.
    pub open spec fn bytes(self) -> Seq<u8> {
        seq![
            if self.esm {
                1u8
            } else {
                0u8
            },
            match self.exports_type {
                BuildMetaExportsType::Unset => 0u8,
                BuildMetaExportsType::Default => 1u8,
                BuildMetaExportsType::Namespace => 2u8,
                BuildMetaExportsType::Flagged => 3u8,
                BuildMetaExportsType::Dynamic => 4u8,
            },
            match self.default_object {
                BuildMetaDefaultObject::False => 0u8,
                BuildMetaDefaultObject::Redirect => 1u8,
                BuildMetaDefaultObject::RedirectWarn => 2u8,
            },
        ]
    }

    pub fn new() -> (m: BuildMeta)
        ensures
            m == BuildMeta::initial(),
    {
        BuildMeta {
            esm: false,
            exports_type: BuildMetaExportsType::Unset,
            default_object: BuildMetaDefaultObject::False,
        }
    }

    pub fn to_bytes(&self) -> (r: Vec<u8>)
        ensures
            r@ == self.bytes(),
    {
        let mut r: Vec<u8> = Vec::new();
        r.push(if self.esm {
            1u8
        } else {
            0u8
        });
        r.push(
            match self.exports_type {
                BuildMetaExportsType::Unset => 0u8,
                BuildMetaExportsType::Default => 1u8,
                BuildMetaExportsType::Namespace => 2u8,
                BuildMetaExportsType::Flagged => 3u8,
                BuildMetaExportsType::Dynamic => 4u8,
            },
        );
        r.push(
            match self.default_object {
                BuildMetaDefaultObject::False => 0u8,
                BuildMetaDefaultObject::Redirect => 1u8,
                BuildMetaDefaultObject::RedirectWarn => 2u8,
            },
        );
        assert(r@ =~= self.bytes());
        r
    }
}

/// What a build recorded beside the module itself.
#[derive(Debug)]
pub struct BuildInfo {
    pub hash: Option<String>,
    pub cacheable: bool,
    pub file_dependencies: Vec<String>,
    pub context_dependencies: Vec<String>,
    pub missing_dependencies: Vec<String>,
    pub build_dependencies: Vec<String>,
    pub asset_filenames: Vec<String>,
}

impl BuildInfo {
    /// The record of a build that has recorded nothing yet.
    pub fn new() -> (info: BuildInfo)
        ensures
            info.hash is None,
            info.cacheable,
            info.file_dependencies@.len() == 0,
            info.context_dependencies@.len() == 0,
            info.missing_dependencies@.len() == 0,
            info.build_dependencies@.len() == 0,
            info.asset_filenames@.len() == 0,
    {
        BuildInfo {
            hash: None,
            cacheable: true,
            file_dependencies: Vec::new(),
            context_dependencies: Vec::new(),
            missing_dependencies: Vec::new(),
            build_dependencies: Vec::new(),
            asset_filenames: Vec::new(),
        }
    }
}

/// A reference from a module to another one.
#[derive(Debug)]
pub struct Dependency {
    pub request: String,
    pub dependency_type: DependencyType,
    pub category: DependencyCategory,
}

/// What the parser's analysis of a module found for later optimisation.
/// The pipeline hands it on unread.
#[derive(Debug)]
pub struct AnalyzeResult {
    pub entries: Vec<String>,
}

impl AnalyzeResult {
    /// The result of no analysis.
    pub fn new() -> (r: AnalyzeResult)
        ensures
            r.entries@.len() == 0,
    {
        AnalyzeResult { entries: Vec::new() }
    }
}

/// What a build hands back.
#[derive(Debug)]
pub struct BuildResult {
    pub build_info: BuildInfo,
    pub build_meta: BuildMeta,
    pub dependencies: Vec<Dependency>,
    pub analyze_result: AnalyzeResult,
}

/// What a loader chain produced.
#[derive(Debug)]
pub struct LoaderResult {
    pub content: Content,
    pub source_map: Option<SourceMap>,
    pub additional_data: Option<String>,
    pub cacheable: bool,
    pub file_dependencies: Vec<String>,
    pub context_dependencies: Vec<String>,
    pub missing_dependencies: Vec<String>,
    pub build_dependencies: Vec<String>,
    pub asset_filenames: Vec<String>,
}

} // verus!
