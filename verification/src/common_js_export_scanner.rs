use vstd::prelude::*;

use crate::build_info::{BuildMeta, BuildMetaDefaultObject, BuildMetaExportsType};
use crate::module_type::ModuleType;

verus! {

/// A literal, as far as its truth matters.
#[derive(Debug)]
pub enum Literal {
    Str(String),
    Bool(bool),
    Null,
    /// A number; `nonzero` says whether it differs from zero.
    Num { nonzero: bool },
    Other,
}

/// An expression, as far as its truth can be read off: a literal, a
/// negation, or anything else.
#[derive(Debug)]
pub enum ValueExpr {
    Lit(Literal),
    Not(Box<ValueExpr>),
    Other,
}

/// Whether a literal is true when taken as a condition.
pub open spec fn lit_truthy(lit: Literal) -> bool {
    match lit {
        Literal::Str(s) => s@.len() > 0,
        Literal::Bool(b) => b,
        Literal::Null => false,
        Literal::Num { nonzero } => nonzero,
        Literal::Other => true,
    }
}

/// Whether an expression is known to be true (`want`), or known to be
/// false (`!want`): a literal is judged as it is, a negation by what it
/// negates, and nothing is known of anything else.
pub open spec fn known_to_be(expr: ValueExpr, want: bool) -> bool
    decreases expr,
{
    match expr {
        ValueExpr::Lit(lit) => lit_truthy(lit) == want,
        ValueExpr::Not(arg) => known_to_be(*arg, !want),
        ValueExpr::Other => false,
    }
}

pub fn is_lit_truthy_literal(lit: &Literal) -> (r: bool)
    ensures
        r == lit_truthy(*lit),
{
    match lit {
        Literal::Str(s) => !s.as_str().is_empty(),
        Literal::Bool(b) => *b,
        Literal::Null => false,
        Literal::Num { nonzero } => *nonzero,
        Literal::Other => true,
    }
}

fn is_known_to_be(expr: &ValueExpr, want: bool) -> (r: bool)
    ensures
        r == known_to_be(*expr, want),
    decreases expr,
{
    match expr {
        ValueExpr::Lit(lit) => is_lit_truthy_literal(lit) == want,
        ValueExpr::Not(arg) => is_known_to_be(arg, !want),
        ValueExpr::Other => false,
    }
}

pub fn is_truthy_literal(expr: &ValueExpr) -> (r: bool)
    ensures
        r == known_to_be(*expr, true),
{
    is_known_to_be(expr, true)
}

pub fn is_falsy_literal(expr: &ValueExpr) -> (r: bool)
    ensures
        r == known_to_be(*expr, false),
{
    is_known_to_be(expr, false)
}

/// Which decorator a use of `module` asks for.
#[derive(Clone, Copy, Debug, PartialEq, Eq, Structural)]
pub enum ModuleDecorator {
    Harmony,
    Node,
}

/// What a scan for CommonJS exports knows so far.
#[derive(Clone, Copy, Debug, PartialEq, Eq, Structural)]
pub struct CommonJsExportDependencyScanner {
    pub build_meta: BuildMeta,
    /// Whether the module is known to export the CommonJS way (`true`),
    /// known to be unreadable (`false`), or not judged yet.
    pub parser_exports_state: Option<bool>,
    pub is_harmony: bool,
    /// How many calls enclose the place that is scanned.
    pub enter_call: u32,
}

/// The scan after it has given up reading the exports.
pub open spec fn bailed_out(scan: CommonJsExportDependencyScanner) -> CommonJsExportDependencyScanner {
    CommonJsExportDependencyScanner {
        build_meta: if scan.parser_exports_state == Some(true) {
            BuildMeta {
                exports_type: BuildMetaExportsType::Unset,
                default_object: BuildMetaDefaultObject::False,
                ..scan.build_meta
            }
        } else {
            scan.build_meta
        },
        parser_exports_state: Some(false),
        ..scan
    }
}

/// The scan after it has seen the module export the CommonJS way.
pub open spec fn enabled(scan: CommonJsExportDependencyScanner) -> CommonJsExportDependencyScanner {
    CommonJsExportDependencyScanner {
        build_meta: if scan.parser_exports_state != Some(true) {
            BuildMeta {
                exports_type: BuildMetaExportsType::Default,
                default_object: BuildMetaDefaultObject::Redirect,
                ..scan.build_meta
            }
        } else {
            scan.build_meta
        },
        parser_exports_state: Some(true),
        ..scan
    }
}

/// The scan after `__esModule` was seen to be set to a true value.
pub open spec fn flagged(scan: CommonJsExportDependencyScanner) -> CommonJsExportDependencyScanner {
    if scan.parser_exports_state != Some(true) || scan.build_meta.exports_type
        == BuildMetaExportsType::Dynamic {
        scan
    } else {
        CommonJsExportDependencyScanner {
            build_meta: BuildMeta {
                exports_type: BuildMetaExportsType::Flagged,
                ..scan.build_meta
            },
            ..scan
        }
    }
}

/// The scan after `__esModule` was seen to be set to a value that is not
/// known.
pub open spec fn made_dynamic(scan: CommonJsExportDependencyScanner) -> CommonJsExportDependencyScanner {
    if scan.parser_exports_state != Some(true) {
        scan
    } else {
        CommonJsExportDependencyScanner {
            build_meta: BuildMeta {
                exports_type: BuildMetaExportsType::Dynamic,
                ..scan.build_meta
            },
            ..scan
        }
    }
}

/// The scan after the value of `__esModule` was judged.
pub open spec fn namespace_checked(scan: CommonJsExportDependencyScanner, value: ValueExpr) -> CommonJsExportDependencyScanner {
    if scan.parser_exports_state != Some(true) {
        scan
    } else if known_to_be(value, true) {
        flagged(scan)
    } else {
        made_dynamic(scan)
    }
}

/// What is known of the left side of an assignment, and of its right side.
#[derive(Clone, Copy, Debug, PartialEq, Eq, Structural)]
pub struct AssignShape {
    /// The left side is an expression at all.
    pub left_is_expr: bool,
    /// The left side is `exports.__esModule`, `module.exports.__esModule`
    /// or `this.__esModule`.
    pub left_is_esmodule_flag: bool,
    /// The left side is a member of the exports object, however deep.
    pub left_starts_at_exports: bool,
    /// The left side is the exports object itself.
    pub left_is_exports: bool,
    /// The right side is a call of `require`.
    pub right_is_require: bool,
    /// The right side is the exports object itself.
    pub right_is_exports: bool,
}

/// The scan after an assignment of the given shape, whose right side has
/// the given value.
pub open spec fn after_assign(scan: CommonJsExportDependencyScanner, shape: AssignShape, value: ValueExpr) -> CommonJsExportDependencyScanner {
    let s1 = if shape.left_is_expr && shape.left_is_esmodule_flag {
        namespace_checked(enabled(scan), value)
    } else {
        scan
    };
    let s2 = if shape.left_is_expr && shape.left_starts_at_exports {
        enabled(s1)
    } else {
        s1
    };
    let s3 = if shape.left_is_expr && shape.left_is_exports {
        if shape.right_is_require {
            made_dynamic(enabled(s2))
        } else {
            bailed_out(enabled(s2))
        }
    } else {
        s2
    };
    if shape.right_is_exports {
        bailed_out(s3)
    } else {
        s3
    }
}

/// The scan after a call: `defines_esmodule` holds the value where the
/// call is `Object.defineProperty` of `__esModule` on the exports object
/// with a property description that has a value.
pub open spec fn after_call(
    scan: CommonJsExportDependencyScanner,
    defines_esmodule: Option<ValueExpr>,
    callee_is_exports: bool,
) -> CommonJsExportDependencyScanner {
    let s1 = match defines_esmodule {
        Some(value) => namespace_checked(enabled(scan), value),
        None => scan,
    };
    if callee_is_exports {
        bailed_out(s1)
    } else {
        s1
    }
}

impl CommonJsExportDependencyScanner {
    /// A scan that has seen nothing. A module of an ESM type is harmony
    /// from the start.
    pub fn new(build_meta: BuildMeta, module_type: ModuleType, parser_exports_state: Option<bool>) -> (scan:
        Self)
        ensures
            scan == (CommonJsExportDependencyScanner {
                build_meta,
                parser_exports_state,
                is_harmony: module_type is JsEsm || module_type is JsxEsm,
                enter_call: 0,
            }),
    {
        CommonJsExportDependencyScanner {
            build_meta,
            parser_exports_state,
            is_harmony: matches!(module_type, ModuleType::JsEsm | ModuleType::JsxEsm),
            enter_call: 0,
        }
    }

    /// Notes whether the program holds a module declaration: then it is
    /// harmony, whatever its type.
    pub fn visit_program(&mut self, has_module_declaration: bool)
        ensures
            *final(self) == (CommonJsExportDependencyScanner {
                is_harmony: old(self).is_harmony || has_module_declaration,
                ..*old(self)
            }),
    {
        self.is_harmony = self.is_harmony || has_module_declaration;
    }

    /// A use of the free variable `module`: the exports cannot be read any
    /// more, and the module needs the decorator of its kind.
    pub fn visit_module_ident(&mut self) -> (decorator: ModuleDecorator)
        ensures
            *final(self) == bailed_out(*old(self)),
            decorator == if old(self).is_harmony {
                ModuleDecorator::Harmony
            } else {
                ModuleDecorator::Node
            },
    {
        let decorator = if self.is_harmony {
            ModuleDecorator::Harmony
        } else {
            ModuleDecorator::Node
        };
        self.bailout();
        decorator
    }

    /// Whether `this` stands for the exports object at the place that is
    /// scanned: outside every call.
    pub fn this_is_exports(&self) -> (r: bool)
        ensures
            r == (self.enter_call == 0),
    {
        self.enter_call == 0
    }

    /// Whether the children of an expression are scanned: not those of the
    /// properties of `module` that say nothing of its exports, nor, in a
    /// module that is not harmony, those of `module.exports`.
    pub fn descends(&self, is_module_property: bool, is_module_exports: bool) -> (r: bool)
        ensures
            r == !(is_module_property || (!self.is_harmony && is_module_exports)),
    {
        !(is_module_property || (!self.is_harmony && is_module_exports))
    }

    pub fn visit_assign_expr(&mut self, shape: AssignShape, value: &ValueExpr)
        ensures
            *final(self) == after_assign(*old(self), shape, *value),
    {
        if shape.left_is_expr {
            if shape.left_is_esmodule_flag {
                self.enable();
                self.check_namespace(value);
            }
            if shape.left_starts_at_exports {
                self.enable();
            }
            if shape.left_is_exports {
                self.enable();
                if shape.right_is_require {
                    self.set_dynamic();
                } else {
                    self.bailout();
                }
            }
        }
        if shape.right_is_exports {
            self.bailout();
        }
    }

    pub fn visit_call_expr(&mut self, defines_esmodule: Option<&ValueExpr>, callee_is_exports: bool)
        ensures
            *final(self) == after_call(
                *old(self),
                match defines_esmodule {
                    Some(v) => Some(*v),
                    None => None,
                },
                callee_is_exports,
            ),
    {
        match defines_esmodule {
            Some(value) => {
                self.enable();
                self.check_namespace(value);
            },
            None => {},
        }
        if callee_is_exports {
            self.bailout();
        }
    }

    /// Enters the arguments of a call. Says whether the depth could be
    /// counted; it cannot beyond the largest number.
    pub fn enter_call(&mut self) -> (counted: bool)
        ensures
            counted == (old(self).enter_call < u32::MAX),
            *final(self) == (CommonJsExportDependencyScanner {
                enter_call: if counted {
                    (old(self).enter_call + 1) as u32
                } else {
                    old(self).enter_call
                },
                ..*old(self)
            }),
    {
        if self.enter_call < u32::MAX {
            self.enter_call = self.enter_call + 1;
            true
        } else {
            false
        }
    }

    /// Leaves the arguments of a call.
    pub fn leave_call(&mut self)
        requires
            old(self).enter_call > 0,
        ensures
            *final(self) == (CommonJsExportDependencyScanner {
                enter_call: (old(self).enter_call - 1) as u32,
                ..*old(self)
            }),
    {
        self.enter_call = self.enter_call - 1;
    }

    pub fn check_namespace(&mut self, value: &ValueExpr)
        ensures
            *final(self) == namespace_checked(*old(self), *value),
    {
        if matches!(self.parser_exports_state, Some(false)) || self.parser_exports_state.is_none() {
            return ;
        }
        if is_truthy_literal(value) {
            self.set_flagged();
        } else {
            self.set_dynamic();
        }
    }

    /// Gives up reading the exports.
    pub fn bailout(&mut self)
        ensures
            *final(self) == bailed_out(*old(self)),
    {
        if matches!(self.parser_exports_state, Some(true)) {
            self.build_meta.exports_type = BuildMetaExportsType::Unset;
            self.build_meta.default_object = BuildMetaDefaultObject::False;
        }
        self.parser_exports_state = Some(false);
    }

    /// Notes that the module exports the CommonJS way.
    pub fn enable(&mut self)
        ensures
            *final(self) == enabled(*old(self)),
    {
        if matches!(self.parser_exports_state, Some(false)) || self.parser_exports_state.is_none() {
            self.build_meta.exports_type = BuildMetaExportsType::Default;
            self.build_meta.default_object = BuildMetaDefaultObject::Redirect;
        }
        self.parser_exports_state = Some(true);
    }

    /// Notes that `__esModule` is set to a true value.
    pub fn set_flagged(&mut self)
        ensures
            *final(self) == flagged(*old(self)),
    {
        if matches!(self.parser_exports_state, Some(false)) || self.parser_exports_state.is_none() {
            return ;
        }
        if matches!(self.build_meta.exports_type, BuildMetaExportsType::Dynamic) {
            return ;
        }
        self.build_meta.exports_type = BuildMetaExportsType::Flagged;
    }

    /// Notes that `__esModule` is set to a value that is not known.
    pub fn set_dynamic(&mut self)
        ensures
            *final(self) == made_dynamic(*old(self)),
    {
        if matches!(self.parser_exports_state, Some(false)) || self.parser_exports_state.is_none() {
            return ;
        }
        self.build_meta.exports_type = BuildMetaExportsType::Dynamic;
    }
}

/// Once the scan has given up, the module is never taken to export the
/// CommonJS way by what is judged of `__esModule`: flagging and making
/// dynamic change nothing.
pub proof fn lemma_bailed_out_ignores_namespace(scan: CommonJsExportDependencyScanner, value: ValueExpr)
    ensures
        namespace_checked(bailed_out(scan), value) == bailed_out(scan),
        flagged(bailed_out(scan)) == bailed_out(scan),
        made_dynamic(bailed_out(scan)) == bailed_out(scan),
{
}

/// A negation is known to be true exactly when what it negates is known to
/// be false, and the other way round.
pub proof fn lemma_negation(arg: ValueExpr, want: bool)
    ensures
        known_to_be(ValueExpr::Not(Box::new(arg)), want) == known_to_be(arg, !want),
{
}

} // verus!
