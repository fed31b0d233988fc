use vstd::prelude::*;

verus! {

/// The kind of a module, resolved from the rules that matched its resource.
#[derive(Clone, Copy, Debug, PartialEq, Eq, Structural)]
pub enum ModuleType {
    Json,
    Css,
    CssModule,
    Js,
    JsDynamic,
    JsEsm,
    Jsx,
    JsxDynamic,
    JsxEsm,
    Tsx,
    Ts,
    AssetInline,
    AssetResource,
    AssetSource,
    Asset,
}

impl ModuleType {
    /// The text by which configuration names this module type.
    pub open spec fn name(self) -> Seq<char> {
        match self {
            ModuleType::Json => "json"@,
            ModuleType::Css => "css"@,
            ModuleType::CssModule => "css/module"@,
            ModuleType::Js => "javascript/auto"@,
            ModuleType::JsDynamic => "javascript/dynamic"@,
            ModuleType::JsEsm => "javascript/esm"@,
            ModuleType::Jsx => "javascriptx"@,
            ModuleType::JsxDynamic => "javascriptx/dynamic"@,
            ModuleType::JsxEsm => "javascriptx/esm"@,
            ModuleType::Tsx => "typescriptx"@,
            ModuleType::Ts => "typescript"@,
            ModuleType::AssetInline => "asset/inline"@,
            ModuleType::AssetResource => "asset/resource"@,
            ModuleType::AssetSource => "asset/source"@,
            ModuleType::Asset => "asset"@,
        }
    }

    /// Whether modules of this type carry bytes rather than text.
    pub open spec fn binary(self) -> bool {
        self is Asset || self is AssetInline || self is AssetResource
    }

    pub fn as_str(&self) -> (r: &'static str)
        ensures
            r@ == self.name(),
    {
        match self {
            ModuleType::Json => "json",
            ModuleType::Css => "css",
            ModuleType::CssModule => "css/module",
            ModuleType::Js => "javascript/auto",
            ModuleType::JsDynamic => "javascript/dynamic",
            ModuleType::JsEsm => "javascript/esm",
            ModuleType::Jsx => "javascriptx",
            ModuleType::JsxDynamic => "javascriptx/dynamic",
            ModuleType::JsxEsm => "javascriptx/esm",
            ModuleType::Tsx => "typescriptx",
            ModuleType::Ts => "typescript",
            ModuleType::AssetInline => "asset/inline",
            ModuleType::AssetResource => "asset/resource",
            ModuleType::AssetSource => "asset/source",
            ModuleType::Asset => "asset",
        }
    }

    pub fn is_binary(&self) -> (r: bool)
        ensures
            r == self.binary(),
    {
        matches!(self, ModuleType::Asset | ModuleType::AssetInline | ModuleType::AssetResource)
    }

    /// Whether this is the type that identifiers leave unnamed.
    pub fn is_default(&self) -> (r: bool)
        ensures
            r == (*self is Js),
    {
        matches!(self, ModuleType::Js)
    }
}

/// No two module types have the same name, and no name holds a `|`.
pub proof fn lemma_names(a: ModuleType, b: ModuleType)
    ensures
        a.name() == b.name() ==> a == b,
        forall|i: int| 0 <= i < a.name().len() ==> a.name()[i] != '|',
{
    reveal_strlit("json");
    reveal_strlit("css");
    reveal_strlit("css/module");
    reveal_strlit("javascript/auto");
    reveal_strlit("javascript/dynamic");
    reveal_strlit("javascript/esm");
    reveal_strlit("javascriptx");
    reveal_strlit("javascriptx/dynamic");
    reveal_strlit("javascriptx/esm");
    reveal_strlit("typescriptx");
    reveal_strlit("typescript");
    reveal_strlit("asset/inline");
    reveal_strlit("asset/resource");
    reveal_strlit("asset/source");
    reveal_strlit("asset");
    if a.name() == b.name() {
        assert(a.name().len() == b.name().len());
        assert(a.name()[0] == b.name()[0]);
        if a.name().len() > 10 {
            assert(a.name()[6] == b.name()[6]);
            assert(a.name()[10] == b.name()[10]);
        }
    }
}

/// The module syntaxes that a source was found to use, as a set.
#[derive(Clone, Copy, Debug, PartialEq, Eq, Structural)]
pub struct ModuleSyntax {
    pub bits: u8,
}

impl ModuleSyntax {
    /// The bit that stands for CommonJS.
    pub const COMMONJS: u8 = 1;

    /// The bit that stands for ESM.
    pub const ESM: u8 = 2;

    /// Whether the set holds only syntaxes that there are.
    pub open spec fn valid(self) -> bool {
        self.bits <= 3
    }

    /// Whether the set holds CommonJS.
    pub open spec fn has_commonjs(self) -> bool {
        self.bits & 1 == 1
    }

    /// Whether the set holds ESM.
    pub open spec fn has_esm(self) -> bool {
        self.bits & 2 == 2
    }

    /// The set of no syntax.
    pub fn empty() -> (r: Self)
        ensures
            r.bits == 0,
            r.valid(),
            !r.has_commonjs(),
            !r.has_esm(),
    {
        assert(0u8 & 1 == 0 && 0u8 & 2 == 0) by (bit_vector);
        ModuleSyntax { bits: 0 }
    }

    /// The set with the given bits; bits that stand for no syntax are
    /// dropped.
    pub fn from_bits_truncate(bits: u8) -> (r: Self)
        ensures
            r.bits == bits & 3,
            r.valid(),
            r.has_commonjs() == (bits & 1 == 1),
            r.has_esm() == (bits & 2 == 2),
    {
        assert(bits & 3 <= 3 && ((bits & 3) & 1 == 1) == (bits & 1 == 1) && ((bits & 3) & 2 == 2)
            == (bits & 2 == 2)) by (bit_vector);
        ModuleSyntax { bits: bits & 3 }
    }

    /// Whether every syntax of `other` is in this set.
    pub fn contains(&self, other: ModuleSyntax) -> (r: bool)
        ensures
            r == (self.bits & other.bits == other.bits),
            self.valid() && other.valid() ==> r == ((other.has_commonjs() ==> self.has_commonjs())
                && (other.has_esm() ==> self.has_esm())),
    {
        let a = self.bits;
        let b = other.bits;
        assert(a <= 3 && b <= 3 ==> ((a & b == b) == ((b & 1 == 1 ==> a & 1 == 1) && (b & 2 == 2
            ==> a & 2 == 2)))) by (bit_vector);
        a & b == b
    }

    /// The syntaxes of both sets.
    pub fn union(self, other: ModuleSyntax) -> (r: ModuleSyntax)
        ensures
            r.bits == self.bits | other.bits,
            self.valid() && other.valid() ==> r.valid(),
            r.has_commonjs() == (self.has_commonjs() || other.has_commonjs()),
            r.has_esm() == (self.has_esm() || other.has_esm()),
    {
        let a = self.bits;
        let b = other.bits;
        assert((a <= 3 && b <= 3 ==> a | b <= 3) && (((a | b) & 1 == 1) == (a & 1 == 1 || b & 1
            == 1)) && (((a | b) & 2 == 2) == (a & 2 == 2 || b & 2 == 2))) by (bit_vector);
        ModuleSyntax { bits: a | b }
    }
}

/// A category of generated output that a module may produce.
#[derive(Clone, Copy, Debug, PartialEq, Eq, Structural)]
pub enum SourceType {
    JavaScript,
    Css,
    Wasm,
    Asset,
    Unknown,
}

impl SourceType {
    /// The number that stands for this source type in caches.
    pub open spec fn code(self) -> u64 {
        match self {
            SourceType::JavaScript => 0,
            SourceType::Css => 1,
            SourceType::Wasm => 2,
            SourceType::Asset => 3,
            SourceType::Unknown => 4,
        }
    }

    pub fn cache_key(&self) -> (k: u64)
        ensures
            k == self.code(),
    {
        match self {
            SourceType::JavaScript => 0,
            SourceType::Css => 1,
            SourceType::Wasm => 2,
            SourceType::Asset => 3,
            SourceType::Unknown => 4,
        }
    }
}

/// Different source types have different codes.
pub proof fn lemma_code_injective(a: SourceType, b: SourceType)
    ensures
        a.code() == b.code() <==> a == b,
{
}

/// Whether `types` holds `wanted`.
pub fn contains_source_type(types: &Vec<SourceType>, wanted: SourceType) -> (r: bool)
    ensures
        r == types@.contains(wanted),
{
    let mut i: usize = 0;
    while i < types.len()
        invariant
            0 <= i <= types.len(),
            forall|j: int| 0 <= j < i ==> types@[j] != wanted,
        decreases types.len() - i,
    {
        if types[i] == wanted {
            return true;
        }
        i = i + 1;
    }
    false
}

} // verus!
