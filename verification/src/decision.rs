//! The decision taken for one variable declaration: keep it, or replace it by
//! an import declaration.

use vstd::prelude::*;
use crate::ast::{
    Expr, ExprView, Ident, IdentView, ImportDecl, ImportDeclView, ImportPhase, Pat, PatView, Str,
    StrView, VarDecl, VarDeclView,
};
use crate::path::{is_asset_path, path_predicate};

verus! {

/// The import declaration that takes the place of a declaration `let id = lit`:
/// a default import of `id`, name and scope context as they were, from `lit`,
/// value and source text as they were. It is an ordinary import of a value,
/// evaluated when the module is.
pub open spec fn default_import(id: IdentView, lit: StrView) -> ImportDeclView {
    ImportDeclView { local: id, src: lit, type_only: false, phase: ImportPhase::Evaluation }
}

/// The import declaration that replaces `decl`, if `decl` qualifies.
///
/// A declaration qualifies when it has exactly one declarator, that declarator
/// binds a simple identifier, its initializer is a string literal, and the
/// literal's value satisfies the path predicate.
pub open spec fn import_for(decl: VarDeclView) -> Option<ImportDeclView> {
    if decl.decls.len() == 1 {
        match (decl.decls[0].name, decl.decls[0].init) {
            (PatView::Ident(id), Some(ExprView::Str(lit))) => if path_predicate(lit.value) {
                Some(default_import(id, lit))
            } else {
                None
            },
            _ => None,
        }
    } else {
        None
    }
}

/// A copy of `id`.
fn clone_ident(id: &Ident) -> (r: Ident)
    ensures
        r == *id,
{
    Ident { sym: id.sym.clone(), ctxt: id.ctxt }
}

/// A copy of `s`.
fn clone_str(s: &Str) -> (r: Str)
    ensures
        r == *s,
{
    let raw = match &s.raw {
        Some(text) => Some(text.clone()),
        None => None,
    };
    Str { value: s.value.clone(), raw }
}

/// Decides whether `var_decl` is replaced, and builds the replacement if so.
///
/// Returns `None` when the declaration is to be kept as it is. The declaration
/// is only read: the replacement holds copies of its identifier and literal.
pub fn transform_variable_to_import(var_decl: &VarDecl) -> (r: Option<ImportDecl>)
    ensures
        match r {
            Some(import) => import_for(var_decl@) == Some(import@),
            None => import_for(var_decl@) is None,
        },
{
    if var_decl.decls.len() != 1 {
        return None;
    }
    let decl = &var_decl.decls[0];
    let init_expr = match &decl.init {
        Some(e) => e,
        None => {
            return None;
        },
    };
    if let Pat::Ident(id) = &decl.name {
        if let Expr::Str(lit) = init_expr {
            if !is_asset_path(lit.value.as_str()) {
                return None;
            }
            return Some(
                ImportDecl {
                    local: clone_ident(id),
                    src: clone_str(lit),
                    type_only: false,
                    phase: ImportPhase::Evaluation,
                },
            );
        }
    }
    None
}

} // verus!
