//! The rewrite itself, on owned trees.
//!
//! A statement list is rebuilt entry by entry rather than patched in place.
//! For each entry the statement lists nested in it are rewritten first; then,
//! if the entry is a variable declaration, it is kept or replaced.

use vstd::prelude::*;
use crate::ast::{items_view, Expr, ModuleItem, Opaque, Pat, Program, VarDecl, VarDeclarator};
use crate::decision::transform_variable_to_import;
use crate::rewrite::{
    lemma_decision_ignores_nested, rewrite_item, rewrite_items, rewrite_nested,
    rewrite_nested_in_decl, rewrite_nested_in_declarator, with_nested_rewritten,
};

verus! {

/// Rewrites one statement list and all that is nested in it.
fn rewrite_list(items: Vec<ModuleItem>) -> (r: Vec<ModuleItem>)
    ensures
        items_view(r@) == rewrite_items(items_view(items@)),
        r@.len() == items@.len(),
        forall|i: int| 0 <= i < items@.len() ==> (#[trigger] r@[i])@ == rewrite_item(items@[i]@),
    decreases items,
{
    let ghost before = items@;
    let mut out: Vec<ModuleItem> = Vec::new();
    for item in it: items.into_iter()
        invariant
            it.seq() == before,
            before == items@,
            out@.len() == it.index(),
            forall|k: int|
                0 <= k < out@.len() ==> (#[trigger] out@[k])@ == rewrite_item(before[k]@),
    {
        let visited = visit_children(item);
        let rewritten = match visited {
            ModuleItem::Var(var_decl) => {
                proof {
                    lemma_decision_ignores_nested(item@->Var_0);
                }
                match transform_variable_to_import(&var_decl) {
                    Some(import) => ModuleItem::Import(import),
                    None => ModuleItem::Var(var_decl),
                }
            },
            other => other,
        };
        out.push(rewritten);
    }
    assert(items_view(out@) =~= rewrite_items(items_view(before)));
    out
}

/// Rewrites the statement lists nested in `item`. Whether `item` itself is
/// replaced is not decided here.
fn visit_children(item: ModuleItem) -> (r: ModuleItem)
    ensures
        r@ == with_nested_rewritten(item@),
    decreases item,
{
    match item {
        ModuleItem::Var(decl) => ModuleItem::Var(visit_var_decl(decl)),
        ModuleItem::Import(import) => ModuleItem::Import(import),
        ModuleItem::Other(o) => ModuleItem::Other(visit_opaque(o)),
    }
}

/// Rewrites each statement list held by `o`.
fn visit_opaque(o: Opaque) -> (r: Opaque)
    ensures
        r@ == rewrite_nested(o@),
    decreases o,
{
    let Opaque { kind, bodies } = o;
    let ghost before = bodies@;
    let mut out: Vec<Vec<ModuleItem>> = Vec::new();
    for body in it: bodies.into_iter()
        invariant
            it.seq() == before,
            before == o.bodies@,
            out@.len() == it.index(),
            forall|k: int|
                0 <= k < out@.len() ==> items_view((#[trigger] out@[k])@) == rewrite_items(
                    items_view(before[k]@),
                ),
    {
        out.push(rewrite_list(body));
    }
    let r = Opaque { kind, bodies: out };
    assert(r@.bodies =~= rewrite_nested(o@).bodies);
    r
}

/// Rewrites the statement lists nested in the declarators of `decl`.
fn visit_var_decl(decl: VarDecl) -> (r: VarDecl)
    ensures
        r@ == rewrite_nested_in_decl(decl@),
    decreases decl,
{
    let VarDecl { kind, decls } = decl;
    let ghost before = decls@;
    let mut out: Vec<VarDeclarator> = Vec::new();
    for d in it: decls.into_iter()
        invariant
            it.seq() == before,
            before == decl.decls@,
            out@.len() == it.index(),
            forall|k: int|
                0 <= k < out@.len() ==> (#[trigger] out@[k])@ == rewrite_nested_in_declarator(
                    before[k]@,
                ),
    {
        out.push(visit_declarator(d));
    }
    let r = VarDecl { kind, decls: out };
    assert(r@.decls =~= rewrite_nested_in_decl(decl@).decls);
    r
}

/// Rewrites the statement lists nested in the pattern and in the initializer
/// of `d`. A simple identifier and a string literal hold none.
fn visit_declarator(d: VarDeclarator) -> (r: VarDeclarator)
    ensures
        r@ == rewrite_nested_in_declarator(d@),
    decreases d,
{
    let VarDeclarator { name, init } = d;
    let name = match name {
        Pat::Ident(id) => Pat::Ident(id),
        Pat::Other(o) => Pat::Other(visit_opaque(o)),
    };
    let init = match init {
        Some(Expr::Str(lit)) => Some(Expr::Str(lit)),
        Some(Expr::Other(o)) => Some(Expr::Other(visit_opaque(o))),
        None => None,
    };
    VarDeclarator { name, init }
}

/// The rewriter. It keeps no state: every call depends on its argument alone.
pub struct TransformVisitor;

impl TransformVisitor {
    /// Rewrites the statement list `items`, and every statement list nested
    /// in it.
    ///
    /// The list keeps its length, and every entry its place. A variable
    /// declaration that qualifies is replaced by its import declaration; any
    /// other entry stays, with the statement lists nested in it rewritten.
    pub fn visit_mut_module_items(&mut self, items: &mut Vec<ModuleItem>)
        ensures
            items_view(final(items)@) == rewrite_items(items_view(old(items)@)),
            final(items)@.len() == old(items)@.len(),
            forall|i: int|
                0 <= i < old(items)@.len() ==> (#[trigger] final(items)@[i])@ == rewrite_item(
                    old(items)@[i]@,
                ),
    {
        let mut taken: Vec<ModuleItem> = Vec::new();
        std::mem::swap(items, &mut taken);
        *items = rewrite_list(taken);
    }
}

/// Rewrites a whole module: its body, and every statement list nested in it.
pub fn process_transform(program: Program) -> (r: Program)
    ensures
        r@.body == rewrite_items(program@.body),
        r.body@.len() == program.body@.len(),
        forall|i: int|
            0 <= i < program.body@.len() ==> (#[trigger] r.body@[i])@ == rewrite_item(
                program.body@[i]@,
            ),
{
    let Program { body } = program;
    let mut body = body;
    let mut visitor = TransformVisitor;
    visitor.visit_mut_module_items(&mut body);
    Program { body }
}

} // verus!
