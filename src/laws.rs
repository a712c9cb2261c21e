//! What holds of every pass, proved from the model of a pass.
use vstd::prelude::*;
use crate::ast::{
    item_id, member_id, BindingIdent, Class, ClassMember, ClassProp, Decl, ExportDefaultExpr, Expr,
    Function, Module, ModuleDecl, ModuleItem, NodeId, Pat, RestPat, Stmt, TsType, VarDeclarator,
};
use crate::model::{
    as_items, items_len, ok_body, ok_class, ok_decl, ok_export, ok_expr, ok_fn, ok_item, ok_items,
    ok_member, ok_members, ok_opt_expr, ok_pat, ok_pats, ok_prop, ok_stmt, ok_stmts, ok_var,
    removes, tab_body, tab_class, tab_class_children, tab_decl, tab_export, tab_expr, tab_fn,
    tab_item, tab_items, tab_member, tab_members, tab_opt_expr, tab_pat, tab_pats, tab_prop,
    tab_stmt, tab_stmts, tab_var, take_class, take_export, take_fn, take_member, take_pat,
    take_prop, take_var,
};
use crate::mutations::{append_of, drain_append, drain_prepend, prepend_of, Pending};

verus! {

/// The categories of edits that a pass takes out of the table once applied.
pub enum Category {
    VarDecl,
    Class,
    Function,
    ClassMember,
    ClassProp,
    Pat,
    ExportDefault,
}

/// Whether `t` holds an edit of category `c` for `id`.
pub open spec fn holds(t: Pending, c: Category, id: NodeId) -> bool {
    match c {
        Category::VarDecl => t.var_decls.contains_key(id),
        Category::Class => t.classes.contains_key(id),
        Category::Function => t.fns.contains_key(id),
        Category::ClassMember => t.members.contains_key(id),
        Category::ClassProp => t.props.contains_key(id),
        Category::Pat => t.pats.contains_key(id),
        Category::ExportDefault => t.exports.contains_key(id),
    }
}

pub open spec fn pat_id(p: Pat) -> NodeId {
    match p {
        Pat::Ident(b) => b.node_id,
        Pat::Object(o) => o.node_id,
        Pat::Array(a) => a.node_id,
        Pat::Rest(r) => r.node_id,
    }
}

// The nodes that a pass reaches, each with the category of edit it may carry.
// A pass reaches every node but those below a removed member and the
// statements it inserts.

pub open spec fn reached_pat(p: Pat, t: Pending) -> Set<(Category, NodeId)>
    decreases p,
{
    let own = set![(Category::Pat, pat_id(p))];
    match p {
        Pat::Ident(_) => own,
        Pat::Object(o) => reached_pats(o.props@, t) + own,
        Pat::Array(a) => reached_pats(a.elems@, t) + own,
        Pat::Rest(r) => reached_pat(*r.arg, t) + own,
    }
}

pub open spec fn reached_pats(ps: Seq<Pat>, t: Pending) -> Set<(Category, NodeId)>
    decreases ps,
{
    if ps.len() == 0 {
        Set::empty()
    } else {
        let k = ps.len() - 1;
        reached_pats(ps.subrange(0, k), t) + reached_pat(ps[k], tab_pats(ps.subrange(0, k), t))
    }
}

pub open spec fn reached_opt_expr(e: Option<Expr>, t: Pending) -> Set<(Category, NodeId)>
    decreases e,
{
    match e {
        Some(x) => reached_expr(x, t),
        None => Set::empty(),
    }
}

pub open spec fn reached_expr(e: Expr, t: Pending) -> Set<(Category, NodeId)>
    decreases e,
{
    match e {
        Expr::Class(c) => reached_class(c, t),
        Expr::Fn(f) => reached_fn(f, t),
        _ => Set::empty(),
    }
}

pub open spec fn reached_class(c: Class, t: Pending) -> Set<(Category, NodeId)>
    decreases c,
{
    let t1 = tab_members(c.body@, t);
    let sup = match c.super_class {
        Some(e) => reached_expr(*e, t1),
        None => Set::empty(),
    };
    reached_members(c.body@, t) + sup + set![(Category::Class, c.node_id)]
}

pub open spec fn reached_members(ms: Seq<ClassMember>, t: Pending) -> Set<(Category, NodeId)>
    decreases ms,
{
    if ms.len() == 0 {
        Set::empty()
    } else {
        let k = ms.len() - 1;
        reached_members(ms.subrange(0, k), t) + reached_member(
            ms[k],
            tab_members(ms.subrange(0, k), t),
        )
    }
}

pub open spec fn reached_member(m: ClassMember, t: Pending) -> Set<(Category, NodeId)>
    decreases m,
{
    let t1 = take_member(t, m);
    let own = match member_id(m) {
        Some(id) => set![(Category::ClassMember, id)],
        None => Set::empty(),
    };
    if removes(t, m) {
        own
    } else {
        own + match m {
            ClassMember::Constructor { params, body, .. } => reached_pats(params@, t1)
                + reached_body(body, tab_pats(params@, t1)),
            ClassMember::Method { function, .. } => reached_fn(function, t1),
            ClassMember::PrivateMethod { function, .. } => reached_fn(function, t1),
            ClassMember::ClassProp(p) => reached_prop(p, t1),
            ClassMember::PrivateProp { value, .. } => reached_opt_expr(value, t1),
            ClassMember::StaticBlock { body, .. } => reached_stmts(body@, t1),
            ClassMember::AutoAccessor { value, .. } => reached_opt_expr(value, t1),
            _ => Set::empty(),
        }
    }
}

pub open spec fn reached_prop(p: ClassProp, t: Pending) -> Set<(Category, NodeId)>
    decreases p,
{
    reached_opt_expr(p.value, t) + set![(Category::ClassProp, p.node_id)]
}

pub open spec fn reached_body(b: Option<Vec<Stmt>>, t: Pending) -> Set<(Category, NodeId)>
    decreases b,
{
    match b {
        Some(v) => reached_stmts(v@, t),
        None => Set::empty(),
    }
}

pub open spec fn reached_fn(f: Function, t: Pending) -> Set<(Category, NodeId)>
    decreases f,
{
    reached_pats(f.params@, t) + reached_body(f.body, tab_pats(f.params@, t)) + set![
        (Category::Function, f.node_id),
    ]
}

pub open spec fn reached_var(d: VarDeclarator, t: Pending) -> Set<(Category, NodeId)>
    decreases d,
{
    reached_pat(d.name, t) + reached_opt_expr(d.init, tab_pat(d.name, t)) + set![
        (Category::VarDecl, d.node_id),
    ]
}

pub open spec fn reached_stmts(ss: Seq<Stmt>, t: Pending) -> Set<(Category, NodeId)>
    decreases ss,
{
    if ss.len() == 0 {
        Set::empty()
    } else {
        let k = ss.len() - 1;
        reached_stmts(ss.subrange(0, k), t) + reached_stmt(ss[k], tab_stmts(ss.subrange(0, k), t))
    }
}

pub open spec fn reached_stmt(s: Stmt, t: Pending) -> Set<(Category, NodeId)>
    decreases s,
{
    match s {
        Stmt::Decl(d) => reached_decl(d, t),
        Stmt::Expr { expr, .. } => reached_expr(expr, t),
        Stmt::Block(v) => reached_stmts(v@, t),
        Stmt::Return(e) => reached_opt_expr(e, t),
        Stmt::Empty => Set::empty(),
    }
}

pub open spec fn reached_decl(d: Decl, t: Pending) -> Set<(Category, NodeId)>
    decreases d,
{
    match d {
        Decl::Class { class, .. } => reached_class(class, t),
        Decl::Fn { function, .. } => reached_fn(function, t),
        Decl::Var(v) => reached_var(v, t),
        Decl::TsModule { body, .. } => reached_items(body@, t),
    }
}

pub open spec fn reached_export(e: ExportDefaultExpr, t: Pending) -> Set<(Category, NodeId)>
    decreases e,
{
    reached_expr(e.expr, t) + set![(Category::ExportDefault, e.node_id)]
}

pub open spec fn reached_item(it: ModuleItem, t: Pending) -> Set<(Category, NodeId)>
    decreases it,
{
    match it {
        ModuleItem::ModuleDecl(ModuleDecl::ExportDecl(d)) => reached_decl(d, t),
        ModuleItem::ModuleDecl(ModuleDecl::ExportDefaultExpr(e)) => reached_export(e, t),
        ModuleItem::Stmt(s) => reached_stmt(s, t),
    }
}

pub open spec fn reached_items(ss: Seq<ModuleItem>, t: Pending) -> Set<(Category, NodeId)>
    decreases ss,
{
    if ss.len() == 0 {
        Set::empty()
    } else {
        let k = ss.len() - 1;
        let it = ss[k];
        let t0 = tab_items(ss.subrange(0, k), t);
        reached_items(ss.subrange(0, k), t) + reached_item(it, drain_prepend(t0, item_id(it)))
    }
}

/// `after` differs from `before` only in what a pass may do to a table: edits
/// of every category but insertions are only ever taken out, and insertion
/// slots all stay, with only their statement lists emptied.
pub open spec fn only_consumes(before: Pending, after: Pending) -> bool {
    &&& after.items.dom() == before.items.dom()
    &&& after.var_decls.submap_of(before.var_decls)
    &&& after.classes.submap_of(before.classes)
    &&& after.fns.submap_of(before.fns)
    &&& after.members.submap_of(before.members)
    &&& after.props.submap_of(before.props)
    &&& after.pats.submap_of(before.pats)
    &&& after.exports.submap_of(before.exports)
}


/// No edit of the listed nodes is left in `t`.
pub open spec fn gone(r: Set<(Category, NodeId)>, t: Pending) -> bool {
    forall|e: (Category, NodeId)| #[trigger] r.contains(e) ==> !holds(t, e.0, e.1)
}

proof fn gone_stays(r: Set<(Category, NodeId)>, a: Pending, b: Pending)
    requires
        gone(r, a),
        only_consumes(a, b),
    ensures
        gone(r, b),
{
    assert forall|e: (Category, NodeId)| #[trigger] r.contains(e) implies !holds(b, e.0, e.1) by {
        assert(!holds(a, e.0, e.1));
        assert(b.var_decls.dom().subset_of(a.var_decls.dom()));
        assert(b.classes.dom().subset_of(a.classes.dom()));
        assert(b.fns.dom().subset_of(a.fns.dom()));
        assert(b.members.dom().subset_of(a.members.dom()));
        assert(b.props.dom().subset_of(a.props.dom()));
        assert(b.pats.dom().subset_of(a.pats.dom()));
        assert(b.exports.dom().subset_of(a.exports.dom()));
    }
}

proof fn gone_union(r1: Set<(Category, NodeId)>, r2: Set<(Category, NodeId)>, t: Pending)
    requires
        gone(r1, t),
        gone(r2, t),
    ensures
        gone(r1 + r2, t),
{
    assert forall|e: (Category, NodeId)| #[trigger] (r1 + r2).contains(e) implies !holds(t, e.0, e.1) by {
        if r1.contains(e) {
        } else {
            assert(r2.contains(e));
        }
    }
}

proof fn gone_own(c: Category, id: NodeId, t: Pending)
    requires
        !holds(t, c, id),
    ensures
        gone(set![(c, id)], t),
{
}

proof fn gone_none(t: Pending)
    ensures
        gone(Set::empty(), t),
{
}

proof fn consumes_trans(a: Pending, b: Pending, c: Pending)
    requires
        only_consumes(a, b),
        only_consumes(b, c),
    ensures
        only_consumes(a, c),
{
    broadcast use vstd::map_lib::lemma_submap_of_trans;
}

proof fn takes_consume(t: Pending, id: NodeId, it: ModuleItem, m: ClassMember)
    ensures
        only_consumes(t, take_pat(t, id)),
        only_consumes(t, take_var(t, id)),
        only_consumes(t, take_class(t, id)),
        only_consumes(t, take_fn(t, id)),
        only_consumes(t, take_prop(t, id)),
        only_consumes(t, take_export(t, id)),
        only_consumes(t, take_member(t, m)),
        only_consumes(t, drain_prepend(t, item_id(it))),
        only_consumes(t, drain_append(t, item_id(it))),
{
    match item_id(it) {
        Some(k) => {
            assert(drain_prepend(t, Some(k)).items.dom() =~= t.items.dom());
            assert(drain_append(t, Some(k)).items.dom() =~= t.items.dom());
        },
        None => {},
    }
}

proof fn takes_keep_empty(id: NodeId, it: ModuleItem, m: ClassMember)
    ensures
        take_pat(Pending::empty(), id) == Pending::empty(),
        take_var(Pending::empty(), id) == Pending::empty(),
        take_class(Pending::empty(), id) == Pending::empty(),
        take_fn(Pending::empty(), id) == Pending::empty(),
        take_prop(Pending::empty(), id) == Pending::empty(),
        take_export(Pending::empty(), id) == Pending::empty(),
        take_member(Pending::empty(), m) == Pending::empty(),
        !removes(Pending::empty(), m),
        drain_prepend(Pending::empty(), item_id(it)) == Pending::empty(),
        prepend_of(Pending::empty(), item_id(it)).len() == 0,
        append_of(Pending::empty(), item_id(it)).len() == 0,
        as_items(Seq::<Stmt>::empty()) == Seq::<ModuleItem>::empty(),
{
    let e = Pending::empty();
    assert(e.pats.remove(id) =~= e.pats);
    assert(e.var_decls.remove(id) =~= e.var_decls);
    assert(e.classes.remove(id) =~= e.classes);
    assert(e.fns.remove(id) =~= e.fns);
    assert(e.props.remove(id) =~= e.props);
    assert(e.exports.remove(id) =~= e.exports);
    match member_id(m) {
        Some(k) => assert(e.members.remove(k) =~= e.members),
        None => {},
    }
    assert(as_items(Seq::<Stmt>::empty()) =~= Seq::<ModuleItem>::empty());
}

proof fn lemma_pat(p: Pat, t: Pending)
    ensures
        only_consumes(t, tab_pat(p, t)),
        gone(reached_pat(p, t), tab_pat(p, t)),
        t == Pending::empty() ==> tab_pat(p, t) == t && ok_pat(p, t, p),
    decreases p,
{
    let t1 = match p {
        Pat::Ident(b) => t,
        Pat::Object(o) => {
            lemma_pats(o.props@, t);
            tab_pats(o.props@, t)
        },
        Pat::Array(a) => {
            lemma_pats(a.elems@, t);
            tab_pats(a.elems@, t)
        },
        Pat::Rest(r) => {
            lemma_pat(*r.arg, t);
            tab_pat(*r.arg, t)
        },
    };
    let id = pat_id(p);
    takes_consume(t1, id, arbitrary(), arbitrary());
    takes_keep_empty(id, arbitrary(), arbitrary());
    consumes_trans(t, t1, take_pat(t1, id));
    let rc = match p {
        Pat::Ident(_) => Set::empty(),
        Pat::Object(o) => reached_pats(o.props@, t),
        Pat::Array(a) => reached_pats(a.elems@, t),
        Pat::Rest(r) => reached_pat(*r.arg, t),
    };
    let fin = take_pat(t1, id);
    gone_none(t1);
    gone_stays(rc, t1, fin);
    gone_own(Category::Pat, id, fin);
    gone_union(rc, set![(Category::Pat, id)], fin);
    assert(reached_pat(p, t) =~= rc + set![(Category::Pat, id)]);
}

proof fn lemma_pats(ps: Seq<Pat>, t: Pending)
    ensures
        only_consumes(t, tab_pats(ps, t)),
        gone(reached_pats(ps, t), tab_pats(ps, t)),
        t == Pending::empty() ==> tab_pats(ps, t) == t && ok_pats(ps, t, ps),
    decreases ps,
{
    if ps.len() == 0 {
        gone_none(t);
    } else {
        let k = ps.len() - 1;
        lemma_pats(ps.subrange(0, k), t);
        lemma_pat(ps[k], tab_pats(ps.subrange(0, k), t));
        consumes_trans(t, tab_pats(ps.subrange(0, k), t), tab_pats(ps, t));
        let tp = tab_pats(ps.subrange(0, k), t);
        gone_stays(reached_pats(ps.subrange(0, k), t), tp, tab_pats(ps, t));
        gone_union(reached_pats(ps.subrange(0, k), t), reached_pat(ps[k], tp), tab_pats(ps, t));
    }
}

proof fn lemma_opt_expr(e: Option<Expr>, t: Pending)
    ensures
        only_consumes(t, tab_opt_expr(e, t)),
        gone(reached_opt_expr(e, t), tab_opt_expr(e, t)),
        t == Pending::empty() ==> tab_opt_expr(e, t) == t && ok_opt_expr(e, t, e),
    decreases e,
{
    if let Some(x) = e {
        lemma_expr(x, t);
    }
}

proof fn lemma_expr(e: Expr, t: Pending)
    ensures
        only_consumes(t, tab_expr(e, t)),
        gone(reached_expr(e, t), tab_expr(e, t)),
        t == Pending::empty() ==> tab_expr(e, t) == t && ok_expr(e, t, e),
    decreases e,
{
    match e {
        Expr::Class(c) => lemma_class(c, t),
        Expr::Fn(f) => lemma_fn(f, t),
        _ => {},
    }
}

proof fn lemma_class(c: Class, t: Pending)
    ensures
        only_consumes(t, tab_class(c, t)),
        gone(reached_class(c, t), tab_class(c, t)),
        t == Pending::empty() ==> tab_class(c, t) == t && ok_class(c, t, c),
    decreases c,
{
    lemma_members(c.body@, t);
    let t1 = tab_members(c.body@, t);
    let t2 = match c.super_class {
        Some(e) => {
            lemma_expr(*e, t1);
            tab_expr(*e, t1)
        },
        None => t1,
    };
    consumes_trans(t, t1, t2);
    takes_consume(t2, c.node_id, arbitrary(), arbitrary());
    takes_keep_empty(c.node_id, arbitrary(), arbitrary());
    consumes_trans(t, t2, take_class(t2, c.node_id));
    let rs = match c.super_class {
        Some(e) => reached_expr(*e, t1),
        None => Set::empty(),
    };
    let fin = take_class(t2, c.node_id);
    gone_none(t1);
    consumes_trans(t1, t2, fin);
    gone_stays(reached_members(c.body@, t), t1, fin);
    gone_stays(rs, t2, fin);
    gone_own(Category::Class, c.node_id, fin);
    gone_union(reached_members(c.body@, t), rs, fin);
    gone_union(reached_members(c.body@, t) + rs, set![(Category::Class, c.node_id)], fin);
}

proof fn lemma_members(ms: Seq<ClassMember>, t: Pending)
    ensures
        only_consumes(t, tab_members(ms, t)),
        gone(reached_members(ms, t), tab_members(ms, t)),
        t == Pending::empty() ==> tab_members(ms, t) == t && ok_members(ms, t, ms),
    decreases ms,
{
    if ms.len() == 0 {
        gone_none(t);
    } else {
        let k = ms.len() - 1;
        lemma_members(ms.subrange(0, k), t);
        lemma_member(ms[k], tab_members(ms.subrange(0, k), t));
        consumes_trans(t, tab_members(ms.subrange(0, k), t), tab_members(ms, t));
        let tp = tab_members(ms.subrange(0, k), t);
        gone_stays(reached_members(ms.subrange(0, k), t), tp, tab_members(ms, t));
        gone_union(reached_members(ms.subrange(0, k), t), reached_member(ms[k], tp), tab_members(ms, t));
    }
}

proof fn lemma_member(m: ClassMember, t: Pending)
    ensures
        only_consumes(t, tab_member(m, t)),
        gone(reached_member(m, t), tab_member(m, t)),
        member_id(m) is Some ==> !tab_member(m, t).members.contains_key(member_id(m)->Some_0),
        t == Pending::empty() ==> tab_member(m, t) == t && ok_member(m, t, m),
    decreases m,
{
    let t1 = take_member(t, m);
    takes_consume(t, 0, arbitrary(), m);
    takes_keep_empty(0, arbitrary(), m);
    if !removes(t, m) {
        match m {
            ClassMember::Constructor { params, body, .. } => {
                lemma_pats(params@, t1);
                lemma_body(body, tab_pats(params@, t1));
                consumes_trans(t1, tab_pats(params@, t1), tab_member(m, t));
            },
            ClassMember::Method { function, .. } => lemma_fn(function, t1),
            ClassMember::PrivateMethod { function, .. } => lemma_fn(function, t1),
            ClassMember::ClassProp(p) => lemma_prop(p, t1),
            ClassMember::PrivateProp { value, .. } => lemma_opt_expr(value, t1),
            ClassMember::StaticBlock { body, .. } => lemma_stmts(body@, t1),
            ClassMember::AutoAccessor { value, .. } => lemma_opt_expr(value, t1),
            _ => {},
        }
        assert(only_consumes(t1, tab_member(m, t)));
        consumes_trans(t, t1, tab_member(m, t));
        if let Some(id) = member_id(m) {
            assert(!t1.members.contains_key(id));
            assert(tab_member(m, t).members.dom().subset_of(t1.members.dom()));
        }
    }
    let fin = tab_member(m, t);
    let own = match member_id(m) {
        Some(id) => set![(Category::ClassMember, id)],
        None => Set::empty(),
    };
    if let Some(id) = member_id(m) {
        gone_own(Category::ClassMember, id, fin);
    } else {
        gone_none(fin);
    }
    if !removes(t, m) {
        let rc = match m {
            ClassMember::Constructor { params, body, .. } => {
                let tp = tab_pats(params@, t1);
                gone_stays(reached_pats(params@, t1), tp, fin);
                gone_union(reached_pats(params@, t1), reached_body(body, tp), fin);
                reached_pats(params@, t1) + reached_body(body, tp)
            },
            ClassMember::Method { function, .. } => reached_fn(function, t1),
            ClassMember::PrivateMethod { function, .. } => reached_fn(function, t1),
            ClassMember::ClassProp(p) => reached_prop(p, t1),
            ClassMember::PrivateProp { value, .. } => reached_opt_expr(value, t1),
            ClassMember::StaticBlock { body, .. } => reached_stmts(body@, t1),
            ClassMember::AutoAccessor { value, .. } => reached_opt_expr(value, t1),
            _ => Set::empty(),
        };
        gone_none(fin);
        gone_union(own, rc, fin);
    }
}

proof fn lemma_prop(p: ClassProp, t: Pending)
    ensures
        only_consumes(t, tab_prop(p, t)),
        gone(reached_prop(p, t), tab_prop(p, t)),
        t == Pending::empty() ==> tab_prop(p, t) == t && ok_prop(p, t, p),
    decreases p,
{
    lemma_opt_expr(p.value, t);
    let t1 = tab_opt_expr(p.value, t);
    takes_consume(t1, p.node_id, arbitrary(), arbitrary());
    takes_keep_empty(p.node_id, arbitrary(), arbitrary());
    consumes_trans(t, t1, tab_prop(p, t));
    let fin = tab_prop(p, t);
    gone_stays(reached_opt_expr(p.value, t), t1, fin);
    gone_own(Category::ClassProp, p.node_id, fin);
    gone_union(reached_opt_expr(p.value, t), set![(Category::ClassProp, p.node_id)], fin);
}

proof fn lemma_body(b: Option<Vec<Stmt>>, t: Pending)
    ensures
        only_consumes(t, tab_body(b, t)),
        gone(reached_body(b, t), tab_body(b, t)),
        t == Pending::empty() ==> tab_body(b, t) == t && ok_body(b, t, b),
    decreases b,
{
    if let Some(v) = b {
        lemma_stmts(v@, t);
    }
}

proof fn lemma_fn(f: Function, t: Pending)
    ensures
        only_consumes(t, tab_fn(f, t)),
        gone(reached_fn(f, t), tab_fn(f, t)),
        t == Pending::empty() ==> tab_fn(f, t) == t && ok_fn(f, t, f),
    decreases f,
{
    lemma_pats(f.params@, t);
    let t1 = tab_pats(f.params@, t);
    lemma_body(f.body, t1);
    let t2 = tab_body(f.body, t1);
    consumes_trans(t, t1, t2);
    takes_consume(t2, f.node_id, arbitrary(), arbitrary());
    takes_keep_empty(f.node_id, arbitrary(), arbitrary());
    consumes_trans(t, t2, tab_fn(f, t));
    let fin = tab_fn(f, t);
    consumes_trans(t1, t2, fin);
    gone_stays(reached_pats(f.params@, t), t1, fin);
    gone_stays(reached_body(f.body, t1), t2, fin);
    gone_own(Category::Function, f.node_id, fin);
    gone_union(reached_pats(f.params@, t), reached_body(f.body, t1), fin);
    gone_union(
        reached_pats(f.params@, t) + reached_body(f.body, t1),
        set![(Category::Function, f.node_id)],
        fin,
    );
}

proof fn lemma_var(d: VarDeclarator, t: Pending)
    ensures
        only_consumes(t, tab_var(d, t)),
        gone(reached_var(d, t), tab_var(d, t)),
        t == Pending::empty() ==> tab_var(d, t) == t && ok_var(d, t, d),
    decreases d,
{
    lemma_pat(d.name, t);
    let t1 = tab_pat(d.name, t);
    lemma_opt_expr(d.init, t1);
    let t2 = tab_opt_expr(d.init, t1);
    consumes_trans(t, t1, t2);
    takes_consume(t2, d.node_id, arbitrary(), arbitrary());
    takes_keep_empty(d.node_id, arbitrary(), arbitrary());
    consumes_trans(t, t2, tab_var(d, t));
    let fin = tab_var(d, t);
    consumes_trans(t1, t2, fin);
    gone_stays(reached_pat(d.name, t), t1, fin);
    gone_stays(reached_opt_expr(d.init, t1), t2, fin);
    gone_own(Category::VarDecl, d.node_id, fin);
    gone_union(reached_pat(d.name, t), reached_opt_expr(d.init, t1), fin);
    gone_union(
        reached_pat(d.name, t) + reached_opt_expr(d.init, t1),
        set![(Category::VarDecl, d.node_id)],
        fin,
    );
}

proof fn lemma_stmts(ss: Seq<Stmt>, t: Pending)
    ensures
        only_consumes(t, tab_stmts(ss, t)),
        gone(reached_stmts(ss, t), tab_stmts(ss, t)),
        t == Pending::empty() ==> tab_stmts(ss, t) == t && ok_stmts(ss, t, ss),
    decreases ss,
{
    if ss.len() == 0 {
        gone_none(t);
    } else {
        let k = ss.len() - 1;
        lemma_stmts(ss.subrange(0, k), t);
        lemma_stmt(ss[k], tab_stmts(ss.subrange(0, k), t));
        consumes_trans(t, tab_stmts(ss.subrange(0, k), t), tab_stmts(ss, t));
        let tp = tab_stmts(ss.subrange(0, k), t);
        gone_stays(reached_stmts(ss.subrange(0, k), t), tp, tab_stmts(ss, t));
        gone_union(reached_stmts(ss.subrange(0, k), t), reached_stmt(ss[k], tp), tab_stmts(ss, t));
    }
}

proof fn lemma_stmt(s: Stmt, t: Pending)
    ensures
        only_consumes(t, tab_stmt(s, t)),
        gone(reached_stmt(s, t), tab_stmt(s, t)),
        t == Pending::empty() ==> tab_stmt(s, t) == t && ok_stmt(s, t, s),
    decreases s,
{
    match s {
        Stmt::Decl(d) => lemma_decl(d, t),
        Stmt::Expr { expr, .. } => lemma_expr(expr, t),
        Stmt::Block(v) => lemma_stmts(v@, t),
        Stmt::Return(e) => lemma_opt_expr(e, t),
        Stmt::Empty => {},
    }
}

proof fn lemma_decl(d: Decl, t: Pending)
    ensures
        only_consumes(t, tab_decl(d, t)),
        gone(reached_decl(d, t), tab_decl(d, t)),
        t == Pending::empty() ==> tab_decl(d, t) == t && ok_decl(d, t, d),
    decreases d,
{
    match d {
        Decl::Class { class, .. } => lemma_class(class, t),
        Decl::Fn { function, .. } => lemma_fn(function, t),
        Decl::Var(v) => lemma_var(v, t),
        Decl::TsModule { body, .. } => lemma_items(body@, t),
    }
}

proof fn lemma_export(e: ExportDefaultExpr, t: Pending)
    ensures
        only_consumes(t, tab_export(e, t)),
        gone(reached_export(e, t), tab_export(e, t)),
        t == Pending::empty() ==> tab_export(e, t) == t && ok_export(e, t, e),
    decreases e,
{
    lemma_expr(e.expr, t);
    let t1 = tab_expr(e.expr, t);
    takes_consume(t1, e.node_id, arbitrary(), arbitrary());
    takes_keep_empty(e.node_id, arbitrary(), arbitrary());
    consumes_trans(t, t1, tab_export(e, t));
    let fin = tab_export(e, t);
    gone_stays(reached_expr(e.expr, t), t1, fin);
    gone_own(Category::ExportDefault, e.node_id, fin);
    gone_union(reached_expr(e.expr, t), set![(Category::ExportDefault, e.node_id)], fin);
}

proof fn lemma_item(it: ModuleItem, t: Pending)
    ensures
        only_consumes(t, tab_item(it, t)),
        gone(reached_item(it, t), tab_item(it, t)),
        t == Pending::empty() ==> tab_item(it, t) == t && ok_item(it, t, it),
    decreases it,
{
    match it {
        ModuleItem::ModuleDecl(ModuleDecl::ExportDecl(d)) => lemma_decl(d, t),
        ModuleItem::ModuleDecl(ModuleDecl::ExportDefaultExpr(e)) => lemma_export(e, t),
        ModuleItem::Stmt(s) => lemma_stmt(s, t),
    }
}

proof fn lemma_items(ss: Seq<ModuleItem>, t: Pending)
    ensures
        only_consumes(t, tab_items(ss, t)),
        gone(reached_items(ss, t), tab_items(ss, t)),
        t == Pending::empty() ==> tab_items(ss, t) == t && items_len(ss, t) == ss.len()
            && ok_items(ss, t, ss),
    decreases ss,
{
    if ss.len() > 0 {
        let k = ss.len() - 1;
        let it = ss[k];
        lemma_items(ss.subrange(0, k), t);
        let t0 = tab_items(ss.subrange(0, k), t);
        let t1 = drain_prepend(t0, item_id(it));
        takes_consume(t0, 0, it, arbitrary());
        lemma_item(it, t1);
        let t2 = tab_item(it, t1);
        takes_consume(t2, 0, it, arbitrary());
        consumes_trans(t, t0, t1);
        consumes_trans(t, t1, t2);
        let fin = tab_items(ss, t);
        consumes_trans(t, t2, fin);
        consumes_trans(t0, t1, t2);
        consumes_trans(t0, t2, fin);
        gone_stays(reached_items(ss.subrange(0, k), t), t0, fin);
        gone_stays(reached_item(it, t1), t2, fin);
        gone_union(reached_items(ss.subrange(0, k), t), reached_item(it, t1), fin);
        if t == Pending::empty() {
            takes_keep_empty(0, it, arbitrary());
            assert(ss.subrange(k, k) =~= Seq::<ModuleItem>::empty());
            assert(ss.subrange(k + 1, k + 1) =~= Seq::<ModuleItem>::empty());
            assert(drain_append(t2, item_id(it)) == t2);
        }
    } else {
        gone_none(t);
    }
}


/// A pass only takes edits out of the table: an edit of any category but
/// insertions, once taken, is gone for good, and every insertion slot stays.
pub proof fn pass_only_consumes(m: Module, t: Pending)
    ensures
        only_consumes(t, tab_items(m.body@, t)),
{
    lemma_items(m.body@, t);
}

/// After a pass, no edit of any category but insertions is left for a node
/// that the pass reached, whether or not the edit changed anything.
pub proof fn reached_edits_consumed(m: Module, t: Pending)
    ensures
        forall|e: (Category, NodeId)| #[trigger] reached_items(m.body@, t).contains(e) ==> !holds(
            tab_items(m.body@, t),
            e.0,
            e.1,
        ),
{
    lemma_items(m.body@, t);
}

/// Statements inserted around an item appear exactly as they were filed: the
/// pass never visits them, so edits filed for them are not applied.
pub proof fn inserted_statements_untouched(ss: Seq<ModuleItem>, it: ModuleItem, t: Pending, rs: Seq<ModuleItem>)
    requires
        ok_items(ss.push(it), t, rs),
    ensures
        ({
            let n = items_len(ss, t) as int;
            let t0 = tab_items(ss, t);
            let pre = prepend_of(t0, item_id(it));
            let app = append_of(tab_item(it, drain_prepend(t0, item_id(it))), item_id(it));
            &&& rs.subrange(n, n + pre.len()) == as_items(pre)
            &&& rs.subrange(n + pre.len() + 1, rs.len() as int) == as_items(app)
        }),
{
    assert(ss.push(it).subrange(0, ss.len() as int) =~= ss);
}

/// A member whose removal edit says so becomes the tombstone, and nothing
/// below it is visited: the only change to the table is that its own removal
/// edit is taken.
pub proof fn removed_member_not_visited(mem: ClassMember, t: Pending, r: ClassMember)
    requires
        removes(t, mem),
        ok_member(mem, t, r),
    ensures
        r is Empty,
        tab_member(mem, t) == take_member(t, mem),
{
}

/// One pattern edit that gives both a type and optionality sets both on a
/// binding identifier, but only the type on a rest element, whose argument is
/// left as its own visit makes it.
pub proof fn rest_ignores_optional(
    b: BindingIdent,
    rp: RestPat,
    ty: TsType,
    t: Pending,
    r1: Pat,
    r2: Pat,
)
    requires
        t.pats.contains_key(b.node_id),
        t.pats[b.node_id] == (Some(ty), Some(true)),
        tab_pat(*rp.arg, t).pats.contains_key(rp.node_id),
        tab_pat(*rp.arg, t).pats[rp.node_id] == (Some(ty), Some(true)),
        ok_pat(Pat::Ident(b), t, r1),
        ok_pat(Pat::Rest(rp), t, r2),
    ensures
        r1 is Ident && r1->Ident_0.type_ann == Some(ty) && r1->Ident_0.optional,
        r2 is Rest && r2->Rest_0.type_ann == Some(ty) && ok_pat(*rp.arg, t, *r2->Rest_0.arg),
{
}

/// A class edit that names no superclass is still taken out of the table, and
/// the class keeps its own superclass, as visiting it makes it.
pub proof fn class_edit_taken_without_superclass(c: Class, t: Pending, r: Class)
    requires
        tab_class_children(c, t).classes.contains_key(c.node_id),
        tab_class_children(c, t).classes[c.node_id] is None,
        ok_class(c, t, r),
    ensures
        !tab_class(c, t).classes.contains_key(c.node_id),
        match (c.super_class, r.super_class) {
            (Some(e), Some(re)) => ok_expr(*e, tab_members(c.body@, t), *re),
            (None, None) => true,
            _ => false,
        },
{
}

/// With an empty table a pass changes nothing: the table stays empty and the
/// module as it was is what the pass yields.
pub proof fn empty_table_changes_nothing(m: Module)
    ensures
        tab_items(m.body@, Pending::empty()) == Pending::empty(),
        ok_items(m.body@, Pending::empty(), m.body@),
{
    lemma_items(m.body@, Pending::empty());
}

} // verus!
