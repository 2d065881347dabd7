//! The part of a module's syntax tree that the rewrite looks at.
//!
//! A tree is made of three kinds of statement: variable declarations, import
//! declarations, and everything else. "Everything else" is an [`Opaque`] node:
//! the rewrite never looks at what it is, only at the statement lists nested
//! inside it, so that declarations at any depth are reached.
//!
//! Every type has a mathematical counterpart (`..View`) in which `Vec` is `Seq`
//! and `String` is `Seq<char>`; `x@` is the counterpart of `x`, and
//! [`items_view`] that of a statement list. Contracts and laws are stated over
//! those.

use vstd::prelude::*;

verus! {

/// An identifier: its name and the scope-resolution context that tells it apart
/// from other bindings of the same name.
#[derive(Debug, PartialEq, Eq)]
pub struct Ident {
    pub sym: String,
    pub ctxt: u32,
}

/// A string literal: the string it denotes and, where known, the text it was
/// written as in the source (quotes and escapes included).
#[derive(Debug, PartialEq, Eq)]
pub struct Str {
    pub value: String,
    pub raw: Option<String>,
}

/// A node that the rewrite does not interpret.
///
/// `kind` is a tag of the caller's choosing. `bodies` holds the statement lists
/// found inside the node, in source order: one for a block or a function, two
/// for a conditional with both branches, none for a leaf.
#[derive(Debug, PartialEq, Eq)]
pub struct Opaque {
    pub kind: u64,
    pub bodies: Vec<Vec<ModuleItem>>,
}

/// The binding side of a declarator.
#[derive(Debug, PartialEq, Eq)]
pub enum Pat {
    /// A simple identifier, as in `let a = ..`.
    Ident(Ident),
    /// Any destructuring pattern, as in `let {a} = ..`.
    Other(Opaque),
}

/// The initializer of a declarator.
#[derive(Debug, PartialEq, Eq)]
pub enum Expr {
    /// A string literal.
    Str(Str),
    /// Any other expression: a call, a template literal, a function, ...
    Other(Opaque),
}

/// One binding of a variable declaration, with its optional initializer.
#[derive(Debug, PartialEq, Eq)]
pub struct VarDeclarator {
    pub name: Pat,
    pub init: Option<Expr>,
}

/// The keyword that introduces a variable declaration.
#[derive(Debug, Clone, Copy, PartialEq, Eq)]
pub enum VarDeclKind {
    Var,
    Let,
    Const,
}

/// A variable declaration: `var a = 1, b;`.
#[derive(Debug, PartialEq, Eq)]
pub struct VarDecl {
    pub kind: VarDeclKind,
    pub decls: Vec<VarDeclarator>,
}

/// When the imported module is evaluated.
#[derive(Debug, Clone, Copy, PartialEq, Eq)]
pub enum ImportPhase {
    Evaluation,
    Source,
    Defer,
}

/// An import declaration with a single default specifier:
/// `import local from src;`.
#[derive(Debug, PartialEq, Eq)]
pub struct ImportDecl {
    pub local: Ident,
    pub src: Str,
    pub type_only: bool,
    pub phase: ImportPhase,
}

/// One entry of a statement list.
#[derive(Debug, PartialEq, Eq)]
pub enum ModuleItem {
    Var(VarDecl),
    Import(ImportDecl),
    Other(Opaque),
}

/// A whole module: its top-level statement list.
#[derive(Debug, PartialEq, Eq)]
pub struct Program {
    pub body: Vec<ModuleItem>,
}

/// An identifier as a value: its name as a sequence of characters, and its
/// scope context.
pub struct IdentView {
    pub sym: Seq<char>,
    pub ctxt: u32,
}

/// A string literal as a value.
pub struct StrView {
    pub value: Seq<char>,
    pub raw: Option<Seq<char>>,
}

/// An uninterpreted node as a value: its tag and the statement lists in it.
pub struct OpaqueView {
    pub kind: u64,
    pub bodies: Seq<Seq<ItemView>>,
}

/// A binding pattern as a value.
pub enum PatView {
    Ident(IdentView),
    Other(OpaqueView),
}

/// An initializer as a value.
pub enum ExprView {
    Str(StrView),
    Other(OpaqueView),
}

/// A declarator as a value.
pub struct VarDeclaratorView {
    pub name: PatView,
    pub init: Option<ExprView>,
}

/// A variable declaration as a value.
pub struct VarDeclView {
    pub kind: VarDeclKind,
    pub decls: Seq<VarDeclaratorView>,
}

/// An import declaration as a value.
pub struct ImportDeclView {
    pub local: IdentView,
    pub src: StrView,
    pub type_only: bool,
    pub phase: ImportPhase,
}

/// An entry of a statement list as a value.
pub enum ItemView {
    Var(VarDeclView),
    Import(ImportDeclView),
    Other(OpaqueView),
}

/// A module as a value.
pub struct ProgramView {
    pub body: Seq<ItemView>,
}

/// The value of an identifier.
pub open spec fn ident_view(id: Ident) -> IdentView {
    IdentView { sym: id.sym@, ctxt: id.ctxt }
}

/// The value of a string literal.
pub open spec fn str_view(s: Str) -> StrView {
    StrView {
        value: s.value@,
        raw: match s.raw {
            Some(text) => Some(text@),
            None => None,
        },
    }
}

/// The value of an import declaration.
pub open spec fn import_view(import: ImportDecl) -> ImportDeclView {
    ImportDeclView {
        local: ident_view(import.local),
        src: str_view(import.src),
        type_only: import.type_only,
        phase: import.phase,
    }
}

/// The value of an uninterpreted node.
pub open spec fn opaque_view(o: Opaque) -> OpaqueView
    decreases o,
{
    OpaqueView { kind: o.kind, bodies: bodies_view(o.bodies@) }
}

/// The values of the statement lists of an uninterpreted node, in order.
pub open spec fn bodies_view(bodies: Seq<Vec<ModuleItem>>) -> Seq<Seq<ItemView>>
    decreases bodies,
{
    Seq::new(
        bodies.len(),
        |i: int|
            if 0 <= i < bodies.len() {
                items_view(bodies[i]@)
            } else {
                arbitrary()
            },
    )
}

/// The values of the entries of a statement list, in order.
pub open spec fn items_view(items: Seq<ModuleItem>) -> Seq<ItemView>
    decreases items,
{
    Seq::new(
        items.len(),
        |i: int|
            if 0 <= i < items.len() {
                item_view(items[i])
            } else {
                arbitrary()
            },
    )
}

/// The value of an entry of a statement list.
pub open spec fn item_view(item: ModuleItem) -> ItemView
    decreases item,
{
    match item {
        ModuleItem::Var(decl) => ItemView::Var(var_decl_view(decl)),
        ModuleItem::Import(import) => ItemView::Import(import_view(import)),
        ModuleItem::Other(o) => ItemView::Other(opaque_view(o)),
    }
}

/// The value of a variable declaration.
pub open spec fn var_decl_view(decl: VarDecl) -> VarDeclView
    decreases decl,
{
    VarDeclView { kind: decl.kind, decls: declarators_view(decl.decls@) }
}

/// The values of the declarators of a declaration, in order.
pub open spec fn declarators_view(decls: Seq<VarDeclarator>) -> Seq<VarDeclaratorView>
    decreases decls,
{
    Seq::new(
        decls.len(),
        |i: int|
            if 0 <= i < decls.len() {
                declarator_view(decls[i])
            } else {
                arbitrary()
            },
    )
}

/// The value of a declarator.
pub open spec fn declarator_view(d: VarDeclarator) -> VarDeclaratorView
    decreases d,
{
    VarDeclaratorView {
        name: pat_view(d.name),
        init: match d.init {
            Some(e) => Some(expr_view(e)),
            None => None,
        },
    }
}

/// The value of a binding pattern.
pub open spec fn pat_view(p: Pat) -> PatView
    decreases p,
{
    match p {
        Pat::Ident(id) => PatView::Ident(ident_view(id)),
        Pat::Other(o) => PatView::Other(opaque_view(o)),
    }
}

/// The value of an initializer.
pub open spec fn expr_view(e: Expr) -> ExprView
    decreases e,
{
    match e {
        Expr::Str(s) => ExprView::Str(str_view(s)),
        Expr::Other(o) => ExprView::Other(opaque_view(o)),
    }
}

impl View for Ident {
    type V = IdentView;

    open spec fn view(&self) -> IdentView {
        ident_view(*self)
    }
}

impl View for Str {
    type V = StrView;

    open spec fn view(&self) -> StrView {
        str_view(*self)
    }
}

impl View for Opaque {
    type V = OpaqueView;

    open spec fn view(&self) -> OpaqueView {
        opaque_view(*self)
    }
}

impl View for Pat {
    type V = PatView;

    open spec fn view(&self) -> PatView {
        pat_view(*self)
    }
}

impl View for Expr {
    type V = ExprView;

    open spec fn view(&self) -> ExprView {
        expr_view(*self)
    }
}

impl View for VarDeclarator {
    type V = VarDeclaratorView;

    open spec fn view(&self) -> VarDeclaratorView {
        declarator_view(*self)
    }
}

impl View for VarDecl {
    type V = VarDeclView;

    open spec fn view(&self) -> VarDeclView {
        var_decl_view(*self)
    }
}

impl View for ImportDecl {
    type V = ImportDeclView;

    open spec fn view(&self) -> ImportDeclView {
        import_view(*self)
    }
}

impl View for ModuleItem {
    type V = ItemView;

    open spec fn view(&self) -> ItemView {
        item_view(*self)
    }
}

impl View for Program {
    type V = ProgramView;

    open spec fn view(&self) -> ProgramView {
        ProgramView { body: items_view(self.body@) }
    }
}

} // verus!
