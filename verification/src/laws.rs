//! Laws of the rewrite, each proved from the definitions in `rewrite` and
//! `decision`.

use vstd::prelude::*;
use crate::ast::{
    ExprView, IdentView, ItemView, OpaqueView, PatView, VarDeclKind, VarDeclView,
    VarDeclaratorView,
};
use crate::decision::{default_import, import_for};
use crate::path::{has_relative_prefix, has_wasm_suffix, path_predicate};
use crate::rewrite::{
    lemma_decision_ignores_nested, rewrite_item, rewrite_items, rewrite_nested,
    rewrite_nested_in_decl, rewrite_nested_in_declarator, rewrite_nested_in_expr,
    rewrite_nested_in_pat, with_nested_rewritten,
};

verus! {

/// No declaration in the list, at any depth, qualifies.
pub open spec fn items_settled(items: Seq<ItemView>) -> bool
    decreases items,
{
    forall|i: int| 0 <= i < items.len() ==> item_settled(#[trigger] items[i])
}

/// The entry is not a declaration that qualifies, and holds none.
pub open spec fn item_settled(item: ItemView) -> bool
    decreases item,
{
    match item {
        ItemView::Var(decl) => import_for(decl) is None && decl_settled(decl),
        ItemView::Import(_) => true,
        ItemView::Other(o) => opaque_settled(o),
    }
}

/// No declaration nested in the node qualifies.
pub open spec fn opaque_settled(o: OpaqueView) -> bool
    decreases o,
{
    forall|i: int| 0 <= i < o.bodies.len() ==> items_settled(#[trigger] o.bodies[i])
}

/// No declaration nested in the patterns and initializers of `decl` qualifies.
/// Nothing is said of `decl` itself.
pub open spec fn decl_settled(decl: VarDeclView) -> bool
    decreases decl,
{
    forall|i: int| 0 <= i < decl.decls.len() ==> declarator_settled(#[trigger] decl.decls[i])
}

/// No declaration nested in the pattern or in the initializer of `d`
/// qualifies.
pub open spec fn declarator_settled(d: VarDeclaratorView) -> bool
    decreases d,
{
    &&& match d.name {
        PatView::Ident(_) => true,
        PatView::Other(o) => opaque_settled(o),
    }
    &&& match d.init {
        Some(ExprView::Other(o)) => opaque_settled(o),
        _ => true,
    }
}

proof fn lemma_items_fixed_iff_settled(items: Seq<ItemView>)
    ensures
        rewrite_items(items) == items <==> items_settled(items),
    decreases items,
{
    assert forall|i: int| 0 <= i < items.len() implies (rewrite_item(#[trigger] items[i])
        == items[i] <==> item_settled(items[i])) by {
        lemma_item_fixed_iff_settled(items[i]);
    }
    if items_settled(items) {
        assert(rewrite_items(items) =~= items);
    }
    if rewrite_items(items) == items {
        assert forall|i: int| 0 <= i < items.len() implies item_settled(#[trigger] items[i]) by {
            assert(rewrite_items(items)[i] == rewrite_item(items[i]));
        }
    }
}

proof fn lemma_item_fixed_iff_settled(item: ItemView)
    ensures
        rewrite_item(item) == item <==> item_settled(item),
    decreases item,
{
    match item {
        ItemView::Var(decl) => {
            lemma_decl_fixed_iff_settled(decl);
        },
        ItemView::Import(_) => {},
        ItemView::Other(o) => {
            lemma_opaque_fixed_iff_settled(o);
        },
    }
}

proof fn lemma_opaque_fixed_iff_settled(o: OpaqueView)
    ensures
        rewrite_nested(o) == o <==> opaque_settled(o),
    decreases o,
{
    assert forall|i: int| 0 <= i < o.bodies.len() implies (rewrite_items(#[trigger] o.bodies[i])
        == o.bodies[i] <==> items_settled(o.bodies[i])) by {
        lemma_items_fixed_iff_settled(o.bodies[i]);
    }
    if opaque_settled(o) {
        assert(rewrite_nested(o).bodies =~= o.bodies);
    }
    if rewrite_nested(o) == o {
        assert forall|i: int| 0 <= i < o.bodies.len() implies items_settled(
            #[trigger] o.bodies[i],
        ) by {
            assert(rewrite_nested(o).bodies[i] == rewrite_items(o.bodies[i]));
        }
    }
}

proof fn lemma_decl_fixed_iff_settled(decl: VarDeclView)
    ensures
        rewrite_nested_in_decl(decl) == decl <==> decl_settled(decl),
    decreases decl,
{
    assert forall|i: int| 0 <= i < decl.decls.len() implies (rewrite_nested_in_declarator(
        #[trigger] decl.decls[i],
    ) == decl.decls[i] <==> declarator_settled(decl.decls[i])) by {
        let d = decl.decls[i];
        match d.name {
            PatView::Ident(_) => {},
            PatView::Other(o) => {
                lemma_opaque_fixed_iff_settled(o);
            },
        }
        match d.init {
            Some(ExprView::Other(o)) => {
                lemma_opaque_fixed_iff_settled(o);
            },
            _ => {},
        }
    }
    if decl_settled(decl) {
        assert(rewrite_nested_in_decl(decl).decls =~= decl.decls);
    }
    if rewrite_nested_in_decl(decl) == decl {
        assert forall|i: int| 0 <= i < decl.decls.len() implies declarator_settled(
            #[trigger] decl.decls[i],
        ) by {
            assert(rewrite_nested_in_decl(decl).decls[i] == rewrite_nested_in_declarator(
                decl.decls[i],
            ));
        }
    }
}

proof fn lemma_rewritten_items_settled(items: Seq<ItemView>)
    ensures
        items_settled(rewrite_items(items)),
    decreases items,
{
    assert forall|i: int| 0 <= i < items.len() implies item_settled(
        #[trigger] rewrite_items(items)[i],
    ) by {
        lemma_rewritten_item_settled(items[i]);
    }
}

proof fn lemma_rewritten_item_settled(item: ItemView)
    ensures
        item_settled(rewrite_item(item)),
    decreases item,
{
    match item {
        ItemView::Var(decl) => {
            lemma_decision_ignores_nested(decl);
            lemma_rewritten_decl_settled(decl);
        },
        ItemView::Import(_) => {},
        ItemView::Other(o) => {
            lemma_rewritten_opaque_settled(o);
        },
    }
}

proof fn lemma_rewritten_opaque_settled(o: OpaqueView)
    ensures
        opaque_settled(rewrite_nested(o)),
    decreases o,
{
    assert forall|i: int| 0 <= i < o.bodies.len() implies items_settled(
        #[trigger] rewrite_nested(o).bodies[i],
    ) by {
        lemma_rewritten_items_settled(o.bodies[i]);
    }
}

proof fn lemma_rewritten_decl_settled(decl: VarDeclView)
    ensures
        decl_settled(rewrite_nested_in_decl(decl)),
    decreases decl,
{
    assert forall|i: int| 0 <= i < decl.decls.len() implies declarator_settled(
        #[trigger] rewrite_nested_in_decl(decl).decls[i],
    ) by {
        let d = decl.decls[i];
        match d.name {
            PatView::Ident(_) => {},
            PatView::Other(o) => {
                lemma_rewritten_opaque_settled(o);
            },
        }
        match d.init {
            Some(ExprView::Other(o)) => {
                lemma_rewritten_opaque_settled(o);
            },
            _ => {},
        }
    }
}

/// A declaration is replaced exactly when it has one declarator, which binds a
/// simple identifier to a string literal whose value satisfies the path
/// predicate; the replacement is then the default import of that identifier
/// from that literal.
pub proof fn law_replaced_iff_qualifies(decl: VarDeclView)
    ensures
        import_for(decl) is Some <==> {
            &&& decl.decls.len() == 1
            &&& decl.decls[0].name is Ident
            &&& decl.decls[0].init matches Some(ExprView::Str(lit))
            &&& path_predicate(lit.value)
        },
        import_for(decl) matches Some(import) ==> {
            &&& decl.decls[0].name == PatView::Ident(import.local)
            &&& decl.decls[0].init == Some(ExprView::Str(import.src))
            &&& import == default_import(import.local, import.src)
        },
{
}

/// The keyword of a declaration plays no part in the decision.
pub proof fn law_kind_is_irrelevant(decl: VarDeclView, kind: VarDeclKind)
    ensures
        import_for(VarDeclView { kind, decls: decl.decls }) == import_for(decl),
{
}

/// A declaration with two or more declarators, or with none, is never
/// replaced, whatever its declarators are. It stays a variable declaration
/// with the same declarators in the same order, and the one thing that can
/// change in it is a statement list nested in a pattern or an initializer. It
/// comes out as it went in exactly when no declaration nested in it qualifies.
pub proof fn law_not_one_declarator_kept(decl: VarDeclView)
    requires
        decl.decls.len() != 1,
    ensures
        import_for(decl) is None,
        rewrite_item(ItemView::Var(decl)) == ItemView::Var(rewrite_nested_in_decl(decl)),
        rewrite_item(ItemView::Var(decl)) == ItemView::Var(decl) <==> decl_settled(decl),
{
    lemma_decl_fixed_iff_settled(decl);
}

/// A declaration whose declarator binds a destructuring pattern is never
/// replaced, whatever its initializer is.
pub proof fn law_destructured_binding_kept(decl: VarDeclView)
    requires
        decl.decls.len() == 1,
        decl.decls[0].name is Other,
    ensures
        import_for(decl) is None,
        rewrite_item(ItemView::Var(decl)) == ItemView::Var(rewrite_nested_in_decl(decl)),
        rewrite_item(ItemView::Var(decl)) == ItemView::Var(decl) <==> decl_settled(decl),
{
    lemma_decl_fixed_iff_settled(decl);
}

/// A declaration whose declarator has no initializer, or one that is not a
/// string literal, is never replaced, whatever it binds.
pub proof fn law_other_initializer_kept(decl: VarDeclView)
    requires
        decl.decls.len() == 1,
        !(decl.decls[0].init matches Some(ExprView::Str(_))),
    ensures
        import_for(decl) is None,
        rewrite_item(ItemView::Var(decl)) == ItemView::Var(rewrite_nested_in_decl(decl)),
        rewrite_item(ItemView::Var(decl)) == ItemView::Var(decl) <==> decl_settled(decl),
{
    lemma_decl_fixed_iff_settled(decl);
}

/// The path predicate is a disjunction: a value that begins with `./`
/// satisfies it whatever it ends with, a value that ends with `.wasm`
/// satisfies it whatever it begins with, and no other value does.
pub proof fn law_path_predicate_is_disjunction(value: Seq<char>)
    ensures
        has_relative_prefix(value) ==> path_predicate(value),
        has_wasm_suffix(value) ==> path_predicate(value),
        !has_relative_prefix(value) && !has_wasm_suffix(value) ==> !path_predicate(value),
        has_relative_prefix(value) <==> value.len() >= 2 && value[0] == '.' && value[1] == '/',
        has_wasm_suffix(value) <==> {
            &&& value.len() >= 5
            &&& value[value.len() - 5] == '.'
            &&& value[value.len() - 4] == 'w'
            &&& value[value.len() - 3] == 'a'
            &&& value[value.len() - 2] == 's'
            &&& value[value.len() - 1] == 'm'
        },
{
    let prefix = seq!['.', '/'];
    let suffix = seq!['.', 'w', 'a', 's', 'm'];
    if value.len() >= 2 {
        let head = value.subrange(0, 2);
        assert(head[0] == value[0] && head[1] == value[1]);
        if value[0] == '.' && value[1] == '/' {
            assert(prefix =~= head);
        }
    }
    if value.len() >= 5 {
        let n = value.len() as int;
        let tail = value.subrange(n - 5, n);
        assert(tail[0] == value[n - 5] && tail[1] == value[n - 4] && tail[2] == value[n - 3]
            && tail[3] == value[n - 2] && tail[4] == value[n - 1]);
        if value[n - 5] == '.' && value[n - 4] == 'w' && value[n - 3] == 'a' && value[n - 2] == 's'
            && value[n - 1] == 'm' {
            assert(suffix =~= tail);
        }
    }
}

/// Whether the entry binds `id` in the statement list it stands in: as the
/// simple identifier of one of its declarators, or as the local name of an
/// import. Identifiers bound inside a destructuring pattern are not shown by
/// the tree and are not counted; such patterns are never replaced.
pub open spec fn binds(item: ItemView, id: IdentView) -> bool {
    match item {
        ItemView::Var(decl) => exists|i: int|
            0 <= i < decl.decls.len() && #[trigger] decl.decls[i].name == PatView::Ident(id),
        ItemView::Import(import) => import.local == id,
        ItemView::Other(_) => false,
    }
}

/// The identifiers that the entries of a statement list bind in it, each with
/// its scope context.
pub open spec fn bound_in(items: Seq<ItemView>) -> Set<IdentView> {
    Set::new(|id: IdentView| exists|i: int| 0 <= i < items.len() && binds(#[trigger] items[i], id))
}

/// An entry binds the same identifiers, with the same scope contexts, after
/// the rewrite as before it. In particular the import that replaces a
/// declaration binds the identifier that the declaration bound.
pub proof fn law_item_bindings_preserved(item: ItemView, id: IdentView)
    ensures
        binds(rewrite_item(item), id) <==> binds(item, id),
{
    if let ItemView::Var(decl) = item {
        if import_for(decl) is None {
            let after = rewrite_nested_in_decl(decl);
            if binds(item, id) {
                let i = choose|i: int|
                    0 <= i < decl.decls.len() && #[trigger] decl.decls[i].name == PatView::Ident(
                        id,
                    );
                assert(after.decls[i].name == PatView::Ident(id));
            }
            if binds(rewrite_item(item), id) {
                let i = choose|i: int|
                    0 <= i < after.decls.len() && #[trigger] after.decls[i].name == PatView::Ident(
                        id,
                    );
                assert(decl.decls[i].name == PatView::Ident(id));
            }
        } else {
            assert(decl.decls[0].name is Ident);
        }
    }
}

/// The rewrite does not change which identifiers a statement list binds, nor
/// the scope context of any of them: what referred to a binding before the
/// rewrite finds the same binding after it.
pub proof fn law_bindings_preserved(items: Seq<ItemView>)
    ensures
        bound_in(rewrite_items(items)) == bound_in(items),
{
    let after = rewrite_items(items);
    assert forall|id: IdentView| bound_in(after).contains(id) <==> bound_in(items).contains(
        id,
    ) by {
        if bound_in(after).contains(id) {
            let i = choose|i: int| 0 <= i < after.len() && binds(#[trigger] after[i], id);
            law_item_bindings_preserved(items[i], id);
            assert(binds(items[i], id));
        }
        if bound_in(items).contains(id) {
            let i = choose|i: int| 0 <= i < items.len() && binds(#[trigger] items[i], id);
            law_item_bindings_preserved(items[i], id);
            assert(binds(after[i], id));
        }
    }
    assert(bound_in(after) =~= bound_in(items));
}

/// The rewrite keeps the length of a statement list and the place of every
/// entry. The entry at a place is the import that replaces the declaration
/// which stood there, where that declaration qualifies; otherwise it is the
/// entry which stood there, with the statement lists nested in it rewritten,
/// and so the very same entry where no declaration nested in it qualifies.
pub proof fn law_order_preserved(items: Seq<ItemView>)
    ensures
        rewrite_items(items).len() == items.len(),
        forall|i: int|
            0 <= i < items.len() ==> #[trigger] rewrite_items(items)[i] == rewrite_item(items[i]),
        forall|i: int|
            0 <= i < items.len() ==> (match #[trigger] items[i] {
                ItemView::Var(decl) => match import_for(decl) {
                    Some(import) => rewrite_items(items)[i] == ItemView::Import(import),
                    None => rewrite_items(items)[i] == with_nested_rewritten(items[i]),
                },
                _ => rewrite_items(items)[i] == with_nested_rewritten(items[i]),
            }),
        forall|i: int|
            0 <= i < items.len() && item_settled(#[trigger] items[i]) ==> rewrite_items(items)[i]
                == items[i],
{
    assert forall|i: int| 0 <= i < items.len() && item_settled(#[trigger] items[i]) implies
        rewrite_items(items)[i] == items[i] by {
        lemma_item_fixed_iff_settled(items[i]);
    }
}

/// A statement list comes out of the rewrite as it went in exactly when no
/// declaration in it, at any depth, qualifies.
pub proof fn law_fixed_iff_settled(items: Seq<ItemView>)
    ensures
        rewrite_items(items) == items <==> items_settled(items),
{
    lemma_items_fixed_iff_settled(items);
}

/// The rewrite leaves no declaration that qualifies, at any depth. An import
/// declaration is never one.
pub proof fn law_rewritten_is_settled(items: Seq<ItemView>)
    ensures
        items_settled(rewrite_items(items)),
{
    lemma_rewritten_items_settled(items);
}

/// Rewriting what the rewrite returned changes nothing.
pub proof fn law_idempotent(items: Seq<ItemView>)
    ensures
        rewrite_items(rewrite_items(items)) == rewrite_items(items),
{
    lemma_rewritten_items_settled(items);
    lemma_items_fixed_iff_settled(rewrite_items(items));
}

} // verus!
