//! The syntax tree that edits are applied to.
//!
//! Every node that can be the target of an edit carries a `node_id`, the key
//! under which the mutation table files edits for it.
use vstd::prelude::*;

verus! {

/// Stable identity of a node, assigned before any edit is applied.
pub type NodeId = u64;

/// A type annotation. Types never carry edits, so this stays a leaf.
#[derive(Debug, PartialEq, Eq)]
pub struct TsType {
    pub node_id: NodeId,
    pub kind: u64,
}

/// A plain identifier inside an expression.
#[derive(Debug, PartialEq, Eq)]
pub struct Ident {
    pub sym: u64,
}

#[derive(Debug, PartialEq, Eq)]
pub enum Expr {
    Ident(Ident),
    Num(u64),
    Class(Class),
    Fn(Function),
}

#[derive(Debug, PartialEq, Eq)]
pub struct BindingIdent {
    pub node_id: NodeId,
    pub sym: u64,
    pub optional: bool,
    pub type_ann: Option<TsType>,
}

#[derive(Debug, PartialEq, Eq)]
pub struct ObjectPat {
    pub node_id: NodeId,
    pub props: Vec<Pat>,
    pub optional: bool,
    pub type_ann: Option<TsType>,
}

#[derive(Debug, PartialEq, Eq)]
pub struct ArrayPat {
    pub node_id: NodeId,
    pub elems: Vec<Pat>,
    pub optional: bool,
    pub type_ann: Option<TsType>,
}

/// `...arg`; a rest element has no optionality flag of its own.
#[derive(Debug, PartialEq, Eq)]
pub struct RestPat {
    pub node_id: NodeId,
    pub arg: Box<Pat>,
    pub type_ann: Option<TsType>,
}

#[derive(Debug, PartialEq, Eq)]
pub enum Pat {
    Ident(BindingIdent),
    Object(ObjectPat),
    Array(ArrayPat),
    Rest(RestPat),
}

/// `name = init`
#[derive(Debug, PartialEq, Eq)]
pub struct VarDeclarator {
    pub node_id: NodeId,
    pub name: Pat,
    pub init: Option<Expr>,
}

#[derive(Debug, PartialEq, Eq)]
pub struct Function {
    pub node_id: NodeId,
    pub params: Vec<Pat>,
    pub body: Option<Vec<Stmt>>,
    pub return_type: Option<TsType>,
}

#[derive(Debug, PartialEq, Eq)]
pub struct Class {
    pub node_id: NodeId,
    pub body: Vec<ClassMember>,
    pub super_class: Option<Box<Expr>>,
}

/// A public class property; the only member kind with an edit of its own
/// besides removal.
#[derive(Debug, PartialEq, Eq)]
pub struct ClassProp {
    pub node_id: NodeId,
    pub key: u64,
    pub value: Option<Expr>,
    pub type_ann: Option<TsType>,
}

#[derive(Debug, PartialEq, Eq)]
#[allow(inconsistent_fields)]
pub enum ClassMember {
    Constructor { node_id: NodeId, params: Vec<Pat>, body: Option<Vec<Stmt>> },
    Method { node_id: NodeId, key: u64, function: Function },
    PrivateMethod { node_id: NodeId, key: u64, function: Function },
    ClassProp(ClassProp),
    PrivateProp { node_id: NodeId, key: u64, value: Option<Expr>, type_ann: Option<TsType> },
    TsIndexSignature { node_id: NodeId, type_ann: Option<TsType> },
    StaticBlock { node_id: NodeId, body: Vec<Stmt> },
    AutoAccessor { node_id: NodeId, key: u64, value: Option<Expr>, type_ann: Option<TsType> },
    /// The tombstone left where a member was removed.
    Empty,
}

#[derive(Debug, PartialEq, Eq)]
pub enum Decl {
    Class { node_id: NodeId, ident: u64, class: Class },
    Fn { node_id: NodeId, ident: u64, function: Function },
    Var(VarDeclarator),
    /// A namespace, whose body is again a sequence of module items.
    TsModule { node_id: NodeId, name: u64, body: Vec<ModuleItem> },
}

#[derive(Debug, PartialEq, Eq)]
pub enum Stmt {
    Decl(Decl),
    Expr { node_id: NodeId, expr: Expr },
    Block(Vec<Stmt>),
    Return(Option<Expr>),
    Empty,
}

#[derive(Debug, PartialEq, Eq)]
pub struct ExportDefaultExpr {
    pub node_id: NodeId,
    pub expr: Expr,
}

#[derive(Debug, PartialEq, Eq)]
pub enum ModuleDecl {
    ExportDecl(Decl),
    ExportDefaultExpr(ExportDefaultExpr),
}

#[derive(Debug, PartialEq, Eq)]
pub enum ModuleItem {
    ModuleDecl(ModuleDecl),
    Stmt(Stmt),
}

#[derive(Debug, PartialEq, Eq)]
pub struct Module {
    pub body: Vec<ModuleItem>,
}

/// The identity of a class member, absent for the tombstone.
pub open spec fn member_id(m: ClassMember) -> Option<NodeId> {
    match m {
        ClassMember::Constructor { node_id, .. } => Some(node_id),
        ClassMember::Method { node_id, .. } => Some(node_id),
        ClassMember::PrivateMethod { node_id, .. } => Some(node_id),
        ClassMember::ClassProp(p) => Some(p.node_id),
        ClassMember::PrivateProp { node_id, .. } => Some(node_id),
        ClassMember::TsIndexSignature { node_id, .. } => Some(node_id),
        ClassMember::StaticBlock { node_id, .. } => Some(node_id),
        ClassMember::AutoAccessor { node_id, .. } => Some(node_id),
        ClassMember::Empty => None,
    }
}

pub open spec fn decl_id(d: Decl) -> NodeId {
    match d {
        Decl::Class { node_id, .. } => node_id,
        Decl::Fn { node_id, .. } => node_id,
        Decl::Var(v) => v.node_id,
        Decl::TsModule { node_id, .. } => node_id,
    }
}

/// The identity of a module item, under which insertions around it are filed.
pub open spec fn item_id(item: ModuleItem) -> Option<NodeId> {
    match item {
        ModuleItem::ModuleDecl(ModuleDecl::ExportDecl(d)) => Some(decl_id(d)),
        ModuleItem::ModuleDecl(ModuleDecl::ExportDefaultExpr(e)) => Some(e.node_id),
        ModuleItem::Stmt(Stmt::Decl(d)) => Some(decl_id(d)),
        ModuleItem::Stmt(Stmt::Expr { node_id, .. }) => Some(node_id),
        ModuleItem::Stmt(_) => None,
    }
}

pub fn class_member_id(m: &ClassMember) -> (r: Option<NodeId>)
    ensures
        r == member_id(*m),
{
    match m {
        ClassMember::Constructor { node_id, .. } => Some(*node_id),
        ClassMember::Method { node_id, .. } => Some(*node_id),
        ClassMember::PrivateMethod { node_id, .. } => Some(*node_id),
        ClassMember::ClassProp(p) => Some(p.node_id),
        ClassMember::PrivateProp { node_id, .. } => Some(*node_id),
        ClassMember::TsIndexSignature { node_id, .. } => Some(*node_id),
        ClassMember::StaticBlock { node_id, .. } => Some(*node_id),
        ClassMember::AutoAccessor { node_id, .. } => Some(*node_id),
        ClassMember::Empty => None,
    }
}

fn decl_node_id(d: &Decl) -> (r: NodeId)
    ensures
        r == decl_id(*d),
{
    match d {
        Decl::Class { node_id, .. } => *node_id,
        Decl::Fn { node_id, .. } => *node_id,
        Decl::Var(v) => v.node_id,
        Decl::TsModule { node_id, .. } => *node_id,
    }
}

pub fn module_item_id(item: &ModuleItem) -> (r: Option<NodeId>)
    ensures
        r == item_id(*item),
{
    match item {
        ModuleItem::ModuleDecl(ModuleDecl::ExportDecl(d)) => Some(decl_node_id(d)),
        ModuleItem::ModuleDecl(ModuleDecl::ExportDefaultExpr(e)) => Some(e.node_id),
        ModuleItem::Stmt(Stmt::Decl(d)) => Some(decl_node_id(d)),
        ModuleItem::Stmt(Stmt::Expr { node_id, .. }) => Some(*node_id),
        ModuleItem::Stmt(_) => None,
    }
}

} // verus!
