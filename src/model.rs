//! What one pass of edits does, node by node.
//!
//! `tab_*` gives the table after a node has been visited, from the table
//! before; `ok_*` says whether a node is what the visit turns the given node
//! into. Sequences are visited front to back, so each element sees the table
//! left by the ones before it.
use vstd::prelude::*;
use crate::ast::{
    member_id, item_id, Class, ClassMember, ClassProp, Decl, ExportDefaultExpr, Expr, Function,
    ModuleDecl, ModuleItem, NodeId, Pat, Stmt, TsType, VarDeclarator,
};
use crate::mutations::{append_of, drain_append, drain_prepend, prepend_of, Pending};

verus! {

pub open spec fn pat_type(t: Pending, id: NodeId, cur: Option<TsType>) -> Option<TsType> {
    if t.pats.contains_key(id) && t.pats[id].0 is Some { t.pats[id].0 } else { cur }
}

pub open spec fn pat_optional(t: Pending, id: NodeId, cur: bool) -> bool {
    if t.pats.contains_key(id) && t.pats[id].1 is Some { t.pats[id].1->Some_0 } else { cur }
}

pub open spec fn take_pat(t: Pending, id: NodeId) -> Pending {
    Pending { pats: t.pats.remove(id), ..t }
}

pub open spec fn tab_pat(p: Pat, t: Pending) -> Pending
    decreases p,
{
    match p {
        Pat::Ident(b) => take_pat(t, b.node_id),
        Pat::Object(o) => take_pat(tab_pats(o.props@, t), o.node_id),
        Pat::Array(a) => take_pat(tab_pats(a.elems@, t), a.node_id),
        Pat::Rest(r) => take_pat(tab_pat(*r.arg, t), r.node_id),
    }
}

pub open spec fn tab_pats(ps: Seq<Pat>, t: Pending) -> Pending
    decreases ps,
{
    if ps.len() == 0 {
        t
    } else {
        tab_pat(ps[ps.len() - 1], tab_pats(ps.subrange(0, ps.len() - 1), t))
    }
}

pub open spec fn ok_pat(p: Pat, t: Pending, r: Pat) -> bool
    decreases p,
{
    match (p, r) {
        (Pat::Ident(b), Pat::Ident(rb)) => rb.node_id == b.node_id && rb.sym == b.sym
            && rb.type_ann == pat_type(t, b.node_id, b.type_ann)
            && rb.optional == pat_optional(t, b.node_id, b.optional),
        (Pat::Object(o), Pat::Object(ro)) => {
            let t1 = tab_pats(o.props@, t);
            &&& ro.node_id == o.node_id
            &&& ok_pats(o.props@, t, ro.props@)
            &&& ro.type_ann == pat_type(t1, o.node_id, o.type_ann)
            &&& ro.optional == pat_optional(t1, o.node_id, o.optional)
        },
        (Pat::Array(a), Pat::Array(ra)) => {
            let t1 = tab_pats(a.elems@, t);
            &&& ra.node_id == a.node_id
            &&& ok_pats(a.elems@, t, ra.elems@)
            &&& ra.type_ann == pat_type(t1, a.node_id, a.type_ann)
            &&& ra.optional == pat_optional(t1, a.node_id, a.optional)
        },
        (Pat::Rest(rp), Pat::Rest(rr)) => {
            &&& rr.node_id == rp.node_id
            &&& ok_pat(*rp.arg, t, *rr.arg)
            &&& rr.type_ann == pat_type(tab_pat(*rp.arg, t), rp.node_id, rp.type_ann)
        },
        _ => false,
    }
}

pub open spec fn ok_pats(ps: Seq<Pat>, t: Pending, rs: Seq<Pat>) -> bool
    decreases ps,
{
    &&& rs.len() == ps.len()
    &&& ps.len() > 0 ==> {
        let k = ps.len() - 1;
        &&& ok_pats(ps.subrange(0, k), t, rs.subrange(0, k))
        &&& ok_pat(ps[k], tab_pats(ps.subrange(0, k), t), rs[k])
    }
}


pub open spec fn take_var(t: Pending, id: NodeId) -> Pending {
    Pending { var_decls: t.var_decls.remove(id), ..t }
}

pub open spec fn take_class(t: Pending, id: NodeId) -> Pending {
    Pending { classes: t.classes.remove(id), ..t }
}

pub open spec fn take_fn(t: Pending, id: NodeId) -> Pending {
    Pending { fns: t.fns.remove(id), ..t }
}

pub open spec fn take_prop(t: Pending, id: NodeId) -> Pending {
    Pending { props: t.props.remove(id), ..t }
}

pub open spec fn take_export(t: Pending, id: NodeId) -> Pending {
    Pending { exports: t.exports.remove(id), ..t }
}

pub open spec fn take_member_id(t: Pending, id: NodeId) -> Pending {
    Pending { members: t.members.remove(id), ..t }
}

/// The table once the removal edit of member `m` is taken.
pub open spec fn take_member(t: Pending, m: ClassMember) -> Pending {
    match member_id(m) {
        Some(id) => take_member_id(t, id),
        None => t,
    }
}

/// Whether member `m` is replaced by the tombstone.
pub open spec fn removes(t: Pending, m: ClassMember) -> bool {
    match member_id(m) {
        Some(id) => t.members.contains_key(id) && t.members[id],
        None => false,
    }
}

pub open spec fn tab_opt_expr(e: Option<Expr>, t: Pending) -> Pending
    decreases e,
{
    match e {
        Some(x) => tab_expr(x, t),
        None => t,
    }
}

pub open spec fn tab_expr(e: Expr, t: Pending) -> Pending
    decreases e,
{
    match e {
        Expr::Class(c) => tab_class(c, t),
        Expr::Fn(f) => tab_fn(f, t),
        _ => t,
    }
}

/// The table after the members and the superclass of `c` are visited.
pub open spec fn tab_class_children(c: Class, t: Pending) -> Pending
    decreases c,
{
    let t1 = tab_members(c.body@, t);
    match c.super_class {
        Some(e) => tab_expr(*e, t1),
        None => t1,
    }
}

pub open spec fn tab_class(c: Class, t: Pending) -> Pending
    decreases c,
{
    let t1 = tab_members(c.body@, t);
    let t2 = match c.super_class {
        Some(e) => tab_expr(*e, t1),
        None => t1,
    };
    take_class(t2, c.node_id)
}

pub open spec fn tab_members(ms: Seq<ClassMember>, t: Pending) -> Pending
    decreases ms,
{
    if ms.len() == 0 {
        t
    } else {
        tab_member(ms[ms.len() - 1], tab_members(ms.subrange(0, ms.len() - 1), t))
    }
}

pub open spec fn tab_member(m: ClassMember, t: Pending) -> Pending
    decreases m,
{
    let t1 = take_member(t, m);
    if removes(t, m) {
        t1
    } else {
        match m {
            ClassMember::Constructor { params, body, .. } => tab_body(body, tab_pats(params@, t1)),
            ClassMember::Method { function, .. } => tab_fn(function, t1),
            ClassMember::PrivateMethod { function, .. } => tab_fn(function, t1),
            ClassMember::ClassProp(p) => tab_prop(p, t1),
            ClassMember::PrivateProp { value, .. } => tab_opt_expr(value, t1),
            ClassMember::TsIndexSignature { .. } => t1,
            ClassMember::StaticBlock { body, .. } => tab_stmts(body@, t1),
            ClassMember::AutoAccessor { value, .. } => tab_opt_expr(value, t1),
            ClassMember::Empty => t1,
        }
    }
}

pub open spec fn tab_prop(p: ClassProp, t: Pending) -> Pending
    decreases p,
{
    take_prop(tab_opt_expr(p.value, t), p.node_id)
}

pub open spec fn tab_body(b: Option<Vec<Stmt>>, t: Pending) -> Pending
    decreases b,
{
    match b {
        Some(v) => tab_stmts(v@, t),
        None => t,
    }
}

/// The table after the parameters and the body of `f` are visited.
pub open spec fn tab_fn_children(f: Function, t: Pending) -> Pending
    decreases f,
{
    tab_body(f.body, tab_pats(f.params@, t))
}

pub open spec fn tab_fn(f: Function, t: Pending) -> Pending
    decreases f,
{
    take_fn(tab_body(f.body, tab_pats(f.params@, t)), f.node_id)
}

pub open spec fn tab_var(d: VarDeclarator, t: Pending) -> Pending
    decreases d,
{
    take_var(tab_opt_expr(d.init, tab_pat(d.name, t)), d.node_id)
}

pub open spec fn tab_stmts(ss: Seq<Stmt>, t: Pending) -> Pending
    decreases ss,
{
    if ss.len() == 0 {
        t
    } else {
        tab_stmt(ss[ss.len() - 1], tab_stmts(ss.subrange(0, ss.len() - 1), t))
    }
}

pub open spec fn tab_stmt(s: Stmt, t: Pending) -> Pending
    decreases s,
{
    match s {
        Stmt::Decl(d) => tab_decl(d, t),
        Stmt::Expr { expr, .. } => tab_expr(expr, t),
        Stmt::Block(v) => tab_stmts(v@, t),
        Stmt::Return(e) => tab_opt_expr(e, t),
        Stmt::Empty => t,
    }
}

pub open spec fn tab_decl(d: Decl, t: Pending) -> Pending
    decreases d,
{
    match d {
        Decl::Class { class, .. } => tab_class(class, t),
        Decl::Fn { function, .. } => tab_fn(function, t),
        Decl::Var(v) => tab_var(v, t),
        Decl::TsModule { body, .. } => tab_items(body@, t),
    }
}

pub open spec fn tab_export(e: ExportDefaultExpr, t: Pending) -> Pending
    decreases e,
{
    take_export(tab_expr(e.expr, t), e.node_id)
}

pub open spec fn tab_item(it: ModuleItem, t: Pending) -> Pending
    decreases it,
{
    match it {
        ModuleItem::ModuleDecl(ModuleDecl::ExportDecl(d)) => tab_decl(d, t),
        ModuleItem::ModuleDecl(ModuleDecl::ExportDefaultExpr(e)) => tab_export(e, t),
        ModuleItem::Stmt(s) => tab_stmt(s, t),
    }
}

pub open spec fn tab_items(ss: Seq<ModuleItem>, t: Pending) -> Pending
    decreases ss,
{
    if ss.len() == 0 {
        t
    } else {
        let it = ss[ss.len() - 1];
        let t0 = tab_items(ss.subrange(0, ss.len() - 1), t);
        drain_append(tab_item(it, drain_prepend(t0, item_id(it))), item_id(it))
    }
}

/// Statements as module items.
pub open spec fn as_items(s: Seq<Stmt>) -> Seq<ModuleItem> {
    s.map_values(|x: Stmt| ModuleItem::Stmt(x))
}

/// The number of items that visiting `ss` yields.
pub open spec fn items_len(ss: Seq<ModuleItem>, t: Pending) -> nat
    decreases ss,
{
    if ss.len() == 0 {
        0
    } else {
        let it = ss[ss.len() - 1];
        let t0 = tab_items(ss.subrange(0, ss.len() - 1), t);
        let t1 = drain_prepend(t0, item_id(it));
        items_len(ss.subrange(0, ss.len() - 1), t) + prepend_of(t0, item_id(it)).len() + 1
            + append_of(tab_item(it, t1), item_id(it)).len()
    }
}

pub open spec fn ok_opt_expr(e: Option<Expr>, t: Pending, r: Option<Expr>) -> bool
    decreases e,
{
    match (e, r) {
        (Some(x), Some(rx)) => ok_expr(x, t, rx),
        (None, None) => true,
        _ => false,
    }
}

pub open spec fn ok_expr(e: Expr, t: Pending, r: Expr) -> bool
    decreases e,
{
    match (e, r) {
        (Expr::Class(c), Expr::Class(rc)) => ok_class(c, t, rc),
        (Expr::Fn(f), Expr::Fn(rf)) => ok_fn(f, t, rf),
        (Expr::Ident(_), _) => r == e,
        (Expr::Num(_), _) => r == e,
        _ => false,
    }
}

pub open spec fn ok_class(c: Class, t: Pending, r: Class) -> bool
    decreases c,
{
    let t1 = tab_members(c.body@, t);
    let t2 = tab_class_children(c, t);
    &&& r.node_id == c.node_id
    &&& ok_members(c.body@, t, r.body@)
    &&& if t2.classes.contains_key(c.node_id) && t2.classes[c.node_id] is Some {
        r.super_class == t2.classes[c.node_id]
    } else {
        match (c.super_class, r.super_class) {
            (Some(e), Some(re)) => ok_expr(*e, t1, *re),
            (None, None) => true,
            _ => false,
        }
    }
}

pub open spec fn ok_members(ms: Seq<ClassMember>, t: Pending, rs: Seq<ClassMember>) -> bool
    decreases ms,
{
    &&& rs.len() == ms.len()
    &&& ms.len() > 0 ==> {
        let k = ms.len() - 1;
        &&& ok_members(ms.subrange(0, k), t, rs.subrange(0, k))
        &&& ok_member(ms[k], tab_members(ms.subrange(0, k), t), rs[k])
    }
}

pub open spec fn ok_member(m: ClassMember, t: Pending, r: ClassMember) -> bool
    decreases m,
{
    let t1 = take_member(t, m);
    if removes(t, m) {
        r is Empty
    } else {
        match (m, r) {
            (
                ClassMember::Constructor { node_id, params, body },
                ClassMember::Constructor { node_id: rn, params: rp, body: rb },
            ) => rn == node_id && ok_pats(params@, t1, rp@) && ok_body(
                body,
                tab_pats(params@, t1),
                rb,
            ),
            (
                ClassMember::Method { node_id, key, function },
                ClassMember::Method { node_id: rn, key: rk, function: rf },
            ) => rn == node_id && rk == key && ok_fn(function, t1, rf),
            (
                ClassMember::PrivateMethod { node_id, key, function },
                ClassMember::PrivateMethod { node_id: rn, key: rk, function: rf },
            ) => rn == node_id && rk == key && ok_fn(function, t1, rf),
            (ClassMember::ClassProp(p), ClassMember::ClassProp(rp)) => ok_prop(p, t1, rp),
            (
                ClassMember::PrivateProp { node_id, key, value, type_ann },
                ClassMember::PrivateProp { node_id: rn, key: rk, value: rv, type_ann: rt },
            ) => rn == node_id && rk == key && rt == type_ann && ok_opt_expr(value, t1, rv),
            (ClassMember::TsIndexSignature { .. }, _) => r == m,
            (
                ClassMember::StaticBlock { node_id, body },
                ClassMember::StaticBlock { node_id: rn, body: rb },
            ) => rn == node_id && ok_stmts(body@, t1, rb@),
            (
                ClassMember::AutoAccessor { node_id, key, value, type_ann },
                ClassMember::AutoAccessor { node_id: rn, key: rk, value: rv, type_ann: rt },
            ) => rn == node_id && rk == key && rt == type_ann && ok_opt_expr(value, t1, rv),
            (ClassMember::Empty, ClassMember::Empty) => true,
            _ => false,
        }
    }
}

pub open spec fn ok_prop(p: ClassProp, t: Pending, r: ClassProp) -> bool
    decreases p,
{
    let t1 = tab_opt_expr(p.value, t);
    &&& r.node_id == p.node_id
    &&& r.key == p.key
    &&& ok_opt_expr(p.value, t, r.value)
    &&& r.type_ann == if t1.props.contains_key(p.node_id) && t1.props[p.node_id] is Some {
        t1.props[p.node_id]
    } else {
        p.type_ann
    }
}

pub open spec fn ok_body(b: Option<Vec<Stmt>>, t: Pending, r: Option<Vec<Stmt>>) -> bool
    decreases b,
{
    match (b, r) {
        (Some(v), Some(rv)) => ok_stmts(v@, t, rv@),
        (None, None) => true,
        _ => false,
    }
}

pub open spec fn ok_fn(f: Function, t: Pending, r: Function) -> bool
    decreases f,
{
    let t2 = tab_fn_children(f, t);
    &&& r.node_id == f.node_id
    &&& ok_pats(f.params@, t, r.params@)
    &&& ok_body(f.body, tab_pats(f.params@, t), r.body)
    &&& r.return_type == if t2.fns.contains_key(f.node_id) && t2.fns[f.node_id] is Some {
        t2.fns[f.node_id]
    } else {
        f.return_type
    }
}

pub open spec fn ok_var(d: VarDeclarator, t: Pending, r: VarDeclarator) -> bool
    decreases d,
{
    let t1 = tab_pat(d.name, t);
    let t2 = tab_opt_expr(d.init, t1);
    &&& r.node_id == d.node_id
    &&& ok_pat(d.name, t, r.name)
    &&& if t2.var_decls.contains_key(d.node_id) && t2.var_decls[d.node_id] {
        r.init is None
    } else {
        ok_opt_expr(d.init, t1, r.init)
    }
}

pub open spec fn ok_stmts(ss: Seq<Stmt>, t: Pending, rs: Seq<Stmt>) -> bool
    decreases ss,
{
    &&& rs.len() == ss.len()
    &&& ss.len() > 0 ==> {
        let k = ss.len() - 1;
        &&& ok_stmts(ss.subrange(0, k), t, rs.subrange(0, k))
        &&& ok_stmt(ss[k], tab_stmts(ss.subrange(0, k), t), rs[k])
    }
}

pub open spec fn ok_stmt(s: Stmt, t: Pending, r: Stmt) -> bool
    decreases s,
{
    match (s, r) {
        (Stmt::Decl(d), Stmt::Decl(rd)) => ok_decl(d, t, rd),
        (Stmt::Expr { node_id, expr }, Stmt::Expr { node_id: rn, expr: re }) => rn == node_id
            && ok_expr(expr, t, re),
        (Stmt::Block(v), Stmt::Block(rv)) => ok_stmts(v@, t, rv@),
        (Stmt::Return(e), Stmt::Return(re)) => ok_opt_expr(e, t, re),
        (Stmt::Empty, Stmt::Empty) => true,
        _ => false,
    }
}

pub open spec fn ok_decl(d: Decl, t: Pending, r: Decl) -> bool
    decreases d,
{
    match (d, r) {
        (
            Decl::Class { node_id, ident, class },
            Decl::Class { node_id: rn, ident: ri, class: rc },
        ) => rn == node_id && ri == ident && ok_class(class, t, rc),
        (
            Decl::Fn { node_id, ident, function },
            Decl::Fn { node_id: rn, ident: ri, function: rf },
        ) => rn == node_id && ri == ident && ok_fn(function, t, rf),
        (Decl::Var(v), Decl::Var(rv)) => ok_var(v, t, rv),
        (
            Decl::TsModule { node_id, name, body },
            Decl::TsModule { node_id: rn, name: rname, body: rb },
        ) => rn == node_id && rname == name && ok_items(body@, t, rb@),
        _ => false,
    }
}

pub open spec fn ok_export(e: ExportDefaultExpr, t: Pending, r: ExportDefaultExpr) -> bool
    decreases e,
{
    let t1 = tab_expr(e.expr, t);
    &&& r.node_id == e.node_id
    &&& if t1.exports.contains_key(e.node_id) && t1.exports[e.node_id] is Some {
        r.expr == t1.exports[e.node_id]->Some_0
    } else {
        ok_expr(e.expr, t, r.expr)
    }
}

pub open spec fn ok_item(it: ModuleItem, t: Pending, r: ModuleItem) -> bool
    decreases it,
{
    match (it, r) {
        (
            ModuleItem::ModuleDecl(ModuleDecl::ExportDecl(d)),
            ModuleItem::ModuleDecl(ModuleDecl::ExportDecl(rd)),
        ) => ok_decl(d, t, rd),
        (
            ModuleItem::ModuleDecl(ModuleDecl::ExportDefaultExpr(e)),
            ModuleItem::ModuleDecl(ModuleDecl::ExportDefaultExpr(re)),
        ) => ok_export(e, t, re),
        (ModuleItem::Stmt(s), ModuleItem::Stmt(rs)) => ok_stmt(s, t, rs),
        _ => false,
    }
}

pub open spec fn ok_items(ss: Seq<ModuleItem>, t: Pending, rs: Seq<ModuleItem>) -> bool
    decreases ss,
{
    &&& rs.len() == items_len(ss, t)
    &&& ss.len() > 0 ==> {
        let k = ss.len() - 1;
        let n = items_len(ss.subrange(0, k), t);
        let it = ss[k];
        let t0 = tab_items(ss.subrange(0, k), t);
        let pre = prepend_of(t0, item_id(it));
        let t1 = drain_prepend(t0, item_id(it));
        let app = append_of(tab_item(it, t1), item_id(it));
        let m = n + pre.len();
        &&& ok_items(ss.subrange(0, k), t, rs.subrange(0, n as int))
        &&& rs.subrange(n as int, m as int) == as_items(pre)
        &&& ok_item(it, t1, rs[m as int])
        &&& rs.subrange((m + 1) as int, rs.len() as int) == as_items(app)
    }
}

} // verus!
