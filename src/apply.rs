//! One depth-first pass that applies the pending edits to a module.
use vstd::prelude::*;
use crate::ast::{
    class_member_id, module_item_id, ArrayPat, BindingIdent, Class, ClassMember, ClassProp, Decl,
    ExportDefaultExpr, Expr, Function, Module, ModuleDecl, ModuleItem, NodeId, ObjectPat, Pat,
    RestPat, Stmt, TsType, VarDeclarator,
};
use crate::model::{
    as_items, ok_body, ok_class, ok_decl, ok_export, ok_expr, ok_fn, ok_item, ok_items,
    ok_member, ok_members, ok_opt_expr, ok_pat, ok_pats, ok_prop, ok_stmt, ok_stmts, ok_var,
    pat_optional, pat_type, take_pat, tab_body, tab_class, tab_decl, tab_export, tab_expr,
    tab_fn, tab_item, tab_items, tab_member, tab_members, tab_opt_expr, tab_pat, tab_pats,
    tab_prop, tab_stmt, tab_stmts, tab_var,
};
use crate::mutations::{append_of, drain_prepend, prepend_of, ClassMut, FunctionMut, Mutations, PatMut};

verus! {

/// Takes the pattern edit of `id` and works out the annotation and the
/// optionality it leaves.
fn edit_pat(m: &mut Mutations, id: NodeId, ty: Option<TsType>, optional: bool) -> (r: (
    Option<TsType>,
    bool,
))
    ensures
        final(m)@ == take_pat(old(m)@, id),
        r.0 == pat_type(old(m)@, id, ty),
        r.1 == pat_optional(old(m)@, id, optional),
{
    let mut ty = ty;
    let mut optional = optional;
    if let Some(PatMut { ty: new_ty, optional: new_optional }) = m.take_pat(id) {
        if let Some(t) = new_ty {
            ty = Some(t);
        }
        if let Some(o) = new_optional {
            optional = o;
        }
    }
    (ty, optional)
}

fn visit_pat(p: Pat, m: &mut Mutations) -> (r: Pat)
    ensures
        final(m)@ == tab_pat(p, old(m)@),
        ok_pat(p, old(m)@, r),
    decreases p,
{
    match p {
        Pat::Ident(b) => {
            let BindingIdent { node_id, sym, optional, type_ann } = b;
            let (type_ann, optional) = edit_pat(m, node_id, type_ann, optional);
            Pat::Ident(BindingIdent { node_id, sym, optional, type_ann })
        },
        Pat::Object(o) => {
            let ObjectPat { node_id, props, optional, type_ann } = o;
            let props = visit_pats(props, m);
            let (type_ann, optional) = edit_pat(m, node_id, type_ann, optional);
            Pat::Object(ObjectPat { node_id, props, optional, type_ann })
        },
        Pat::Array(a) => {
            let ArrayPat { node_id, elems, optional, type_ann } = a;
            let elems = visit_pats(elems, m);
            let (type_ann, optional) = edit_pat(m, node_id, type_ann, optional);
            Pat::Array(ArrayPat { node_id, elems, optional, type_ann })
        },
        Pat::Rest(r) => {
            let RestPat { node_id, arg, type_ann } = r;
            let arg = visit_pat(*arg, m);
            // a rest element cannot be optional: only the annotation is kept
            let (type_ann, _) = edit_pat(m, node_id, type_ann, false);
            Pat::Rest(RestPat { node_id, arg: Box::new(arg), type_ann })
        },
    }
}

fn visit_pats(v: Vec<Pat>, m: &mut Mutations) -> (r: Vec<Pat>)
    ensures
        final(m)@ == tab_pats(v@, old(m)@),
        ok_pats(v@, old(m)@, r@),
    decreases v,
{
    let ghost s = v@;
    let ghost t0 = m@;
    let n = v.len();
    let mut rest = v;
    let mut out: Vec<Pat> = Vec::new();
    let mut k: usize = 0;
    while k < n
        invariant
            n == s.len(),
            k <= n,
            s == v@,
            rest@ == s.subrange(k as int, n as int),
            m@ == tab_pats(s.subrange(0, k as int), t0),
            ok_pats(s.subrange(0, k as int), t0, out@),
        decreases n - k,
    {
        let x = rest.remove(0);
        proof {
            assert(x == s[k as int]);
            assert(decreases_to!(v => v@));
        }
        let y = visit_pat(x, m);
        let ghost prev = out@;
        out.push(y);
        k = k + 1;
        proof {
            assert(s.subrange(0, k as int).subrange(0, k - 1) =~= s.subrange(0, k - 1));
            assert(out@.subrange(0, k - 1) =~= prev);
            assert(rest@ =~= s.subrange(k as int, n as int));
        }
    }
    proof {
        assert(s.subrange(0, n as int) =~= s);
    }
    out
}


fn visit_opt_expr(e: Option<Expr>, m: &mut Mutations) -> (r: Option<Expr>)
    ensures
        final(m)@ == tab_opt_expr(e, old(m)@),
        ok_opt_expr(e, old(m)@, r),
    decreases e,
{
    match e {
        Some(x) => Some(visit_expr(x, m)),
        None => None,
    }
}

fn visit_expr(e: Expr, m: &mut Mutations) -> (r: Expr)
    ensures
        final(m)@ == tab_expr(e, old(m)@),
        ok_expr(e, old(m)@, r),
    decreases e,
{
    match e {
        Expr::Class(c) => Expr::Class(visit_class(c, m)),
        Expr::Fn(f) => Expr::Fn(visit_fn(f, m)),
        Expr::Ident(i) => Expr::Ident(i),
        Expr::Num(n) => Expr::Num(n),
    }
}

fn visit_class(c: Class, m: &mut Mutations) -> (r: Class)
    ensures
        final(m)@ == tab_class(c, old(m)@),
        ok_class(c, old(m)@, r),
    decreases c,
{
    let Class { node_id, body, super_class } = c;
    let body = visit_members(body, m);
    let visited = match super_class {
        Some(e) => Some(Box::new(visit_expr(*e, m))),
        None => None,
    };
    // the edit is taken whether or not it names a superclass
    let super_class = match m.take_class(node_id) {
        Some(ClassMut { super_class: Some(s), additional_members: _ }) => Some(s),
        _ => visited,
    };
    Class { node_id, body, super_class }
}

fn visit_members(v: Vec<ClassMember>, m: &mut Mutations) -> (r: Vec<ClassMember>)
    ensures
        final(m)@ == tab_members(v@, old(m)@),
        ok_members(v@, old(m)@, r@),
    decreases v,
{
    let ghost s = v@;
    let ghost t0 = m@;
    let n = v.len();
    let mut rest = v;
    let mut out: Vec<ClassMember> = Vec::new();
    let mut k: usize = 0;
    while k < n
        invariant
            n == s.len(),
            k <= n,
            s == v@,
            rest@ == s.subrange(k as int, n as int),
            m@ == tab_members(s.subrange(0, k as int), t0),
            ok_members(s.subrange(0, k as int), t0, out@),
        decreases n - k,
    {
        let x = rest.remove(0);
        proof {
            assert(x == s[k as int]);
            assert(decreases_to!(v => v@));
        }
        let y = visit_member(x, m);
        let ghost prev = out@;
        out.push(y);
        k = k + 1;
        proof {
            assert(s.subrange(0, k as int).subrange(0, k - 1) =~= s.subrange(0, k - 1));
            assert(out@.subrange(0, k - 1) =~= prev);
            assert(rest@ =~= s.subrange(k as int, n as int));
        }
    }
    proof {
        assert(s.subrange(0, n as int) =~= s);
    }
    out
}

fn visit_member(mem: ClassMember, m: &mut Mutations) -> (r: ClassMember)
    ensures
        final(m)@ == tab_member(mem, old(m)@),
        ok_member(mem, old(m)@, r),
    decreases mem,
{
    let id = match class_member_id(&mem) {
        Some(id) => id,
        None => return mem,
    };
    // removal is decided before the member's children are visited
    if let Some(e) = m.take_class_member(id) {
        if e.remove {
            return ClassMember::Empty;
        }
    }
    match mem {
        ClassMember::Constructor { node_id, params, body } => {
            let params = visit_pats(params, m);
            let body = visit_body(body, m);
            ClassMember::Constructor { node_id, params, body }
        },
        ClassMember::Method { node_id, key, function } => {
            ClassMember::Method { node_id, key, function: visit_fn(function, m) }
        },
        ClassMember::PrivateMethod { node_id, key, function } => {
            ClassMember::PrivateMethod { node_id, key, function: visit_fn(function, m) }
        },
        ClassMember::ClassProp(p) => ClassMember::ClassProp(visit_prop(p, m)),
        ClassMember::PrivateProp { node_id, key, value, type_ann } => {
            ClassMember::PrivateProp { node_id, key, value: visit_opt_expr(value, m), type_ann }
        },
        ClassMember::TsIndexSignature { node_id, type_ann } => {
            ClassMember::TsIndexSignature { node_id, type_ann }
        },
        ClassMember::StaticBlock { node_id, body } => {
            ClassMember::StaticBlock { node_id, body: visit_stmts(body, m) }
        },
        ClassMember::AutoAccessor { node_id, key, value, type_ann } => {
            ClassMember::AutoAccessor { node_id, key, value: visit_opt_expr(value, m), type_ann }
        },
        ClassMember::Empty => ClassMember::Empty,
    }
}

fn visit_prop(p: ClassProp, m: &mut Mutations) -> (r: ClassProp)
    ensures
        final(m)@ == tab_prop(p, old(m)@),
        ok_prop(p, old(m)@, r),
    decreases p,
{
    let ClassProp { node_id, key, value, type_ann } = p;
    let value = visit_opt_expr(value, m);
    let type_ann = match m.take_class_prop(node_id) {
        Some(e) => match e.ty {
            Some(t) => Some(t),
            None => type_ann,
        },
        None => type_ann,
    };
    ClassProp { node_id, key, value, type_ann }
}

fn visit_body(b: Option<Vec<Stmt>>, m: &mut Mutations) -> (r: Option<Vec<Stmt>>)
    ensures
        final(m)@ == tab_body(b, old(m)@),
        ok_body(b, old(m)@, r),
    decreases b,
{
    match b {
        Some(v) => Some(visit_stmts(v, m)),
        None => None,
    }
}

fn visit_fn(f: Function, m: &mut Mutations) -> (r: Function)
    ensures
        final(m)@ == tab_fn(f, old(m)@),
        ok_fn(f, old(m)@, r),
    decreases f,
{
    let Function { node_id, params, body, return_type } = f;
    let params = visit_pats(params, m);
    let body = visit_body(body, m);
    let return_type = match m.take_fn(node_id) {
        Some(FunctionMut { ret_ty: Some(t) }) => Some(t),
        _ => return_type,
    };
    Function { node_id, params, body, return_type }
}

fn visit_var(d: VarDeclarator, m: &mut Mutations) -> (r: VarDeclarator)
    ensures
        final(m)@ == tab_var(d, old(m)@),
        ok_var(d, old(m)@, r),
    decreases d,
{
    let VarDeclarator { node_id, name, init } = d;
    let name = visit_pat(name, m);
    let init = visit_opt_expr(init, m);
    let init = match m.take_var_decl(node_id) {
        Some(e) => if e.remove_init {
            None
        } else {
            init
        },
        None => init,
    };
    VarDeclarator { node_id, name, init }
}

fn visit_stmts(v: Vec<Stmt>, m: &mut Mutations) -> (r: Vec<Stmt>)
    ensures
        final(m)@ == tab_stmts(v@, old(m)@),
        ok_stmts(v@, old(m)@, r@),
    decreases v,
{
    let ghost s = v@;
    let ghost t0 = m@;
    let n = v.len();
    let mut rest = v;
    let mut out: Vec<Stmt> = Vec::new();
    let mut k: usize = 0;
    while k < n
        invariant
            n == s.len(),
            k <= n,
            s == v@,
            rest@ == s.subrange(k as int, n as int),
            m@ == tab_stmts(s.subrange(0, k as int), t0),
            ok_stmts(s.subrange(0, k as int), t0, out@),
        decreases n - k,
    {
        let x = rest.remove(0);
        proof {
            assert(x == s[k as int]);
            assert(decreases_to!(v => v@));
        }
        let y = visit_stmt(x, m);
        let ghost prev = out@;
        out.push(y);
        k = k + 1;
        proof {
            assert(s.subrange(0, k as int).subrange(0, k - 1) =~= s.subrange(0, k - 1));
            assert(out@.subrange(0, k - 1) =~= prev);
            assert(rest@ =~= s.subrange(k as int, n as int));
        }
    }
    proof {
        assert(s.subrange(0, n as int) =~= s);
    }
    out
}

fn visit_stmt(s: Stmt, m: &mut Mutations) -> (r: Stmt)
    ensures
        final(m)@ == tab_stmt(s, old(m)@),
        ok_stmt(s, old(m)@, r),
    decreases s,
{
    match s {
        Stmt::Decl(d) => Stmt::Decl(visit_decl(d, m)),
        Stmt::Expr { node_id, expr } => Stmt::Expr { node_id, expr: visit_expr(expr, m) },
        Stmt::Block(v) => Stmt::Block(visit_stmts(v, m)),
        Stmt::Return(e) => Stmt::Return(visit_opt_expr(e, m)),
        Stmt::Empty => Stmt::Empty,
    }
}

fn visit_decl(d: Decl, m: &mut Mutations) -> (r: Decl)
    ensures
        final(m)@ == tab_decl(d, old(m)@),
        ok_decl(d, old(m)@, r),
    decreases d,
{
    match d {
        Decl::Class { node_id, ident, class } => {
            Decl::Class { node_id, ident, class: visit_class(class, m) }
        },
        Decl::Fn { node_id, ident, function } => {
            Decl::Fn { node_id, ident, function: visit_fn(function, m) }
        },
        Decl::Var(v) => Decl::Var(visit_var(v, m)),
        Decl::TsModule { node_id, name, body } => {
            Decl::TsModule { node_id, name, body: visit_items(body, m) }
        },
    }
}

fn visit_export(e: ExportDefaultExpr, m: &mut Mutations) -> (r: ExportDefaultExpr)
    ensures
        final(m)@ == tab_export(e, old(m)@),
        ok_export(e, old(m)@, r),
    decreases e,
{
    let ExportDefaultExpr { node_id, expr } = e;
    let expr = visit_expr(expr, m);
    let expr = match m.take_export_default(node_id) {
        Some(e) => match e.replace_with {
            Some(x) => x,
            None => expr,
        },
        None => expr,
    };
    ExportDefaultExpr { node_id, expr }
}

fn visit_item(it: ModuleItem, m: &mut Mutations) -> (r: ModuleItem)
    ensures
        final(m)@ == tab_item(it, old(m)@),
        ok_item(it, old(m)@, r),
    decreases it,
{
    match it {
        ModuleItem::ModuleDecl(ModuleDecl::ExportDecl(d)) => {
            ModuleItem::ModuleDecl(ModuleDecl::ExportDecl(visit_decl(d, m)))
        },
        ModuleItem::ModuleDecl(ModuleDecl::ExportDefaultExpr(e)) => {
            ModuleItem::ModuleDecl(ModuleDecl::ExportDefaultExpr(visit_export(e, m)))
        },
        ModuleItem::Stmt(s) => ModuleItem::Stmt(visit_stmt(s, m)),
    }
}

/// Moves inserted statements, in order and untouched, to the end of `out`.
fn push_stmts(out: &mut Vec<ModuleItem>, v: Vec<Stmt>)
    ensures
        final(out)@ == old(out)@ + as_items(v@),
{
    let ghost s = v@;
    let ghost o = out@;
    let n = v.len();
    let mut rest = v;
    let mut k: usize = 0;
    while k < n
        invariant
            n == s.len(),
            k <= n,
            rest@ == s.subrange(k as int, n as int),
            out@ == o + as_items(s.subrange(0, k as int)),
        decreases n - k,
    {
        let x = rest.remove(0);
        out.push(ModuleItem::Stmt(x));
        k = k + 1;
        proof {
            assert(as_items(s.subrange(0, k as int)) =~= as_items(s.subrange(0, k - 1)).push(
                ModuleItem::Stmt(s[k - 1]),
            ));
            assert(rest@ =~= s.subrange(k as int, n as int));
        }
    }
    proof {
        assert(s.subrange(0, n as int) =~= s);
    }
}

fn visit_items(v: Vec<ModuleItem>, m: &mut Mutations) -> (r: Vec<ModuleItem>)
    ensures
        final(m)@ == tab_items(v@, old(m)@),
        ok_items(v@, old(m)@, r@),
    decreases v,
{
    let ghost s = v@;
    let ghost t0 = m@;
    let n = v.len();
    // room for a few insertions; only a hint
    let cap: usize = if n < usize::MAX / 2 {
        n + n / 10
    } else {
        n
    };
    let mut rest = v;
    let mut out: Vec<ModuleItem> = Vec::with_capacity(cap);
    let mut k: usize = 0;
    while k < n
        invariant
            n == s.len(),
            k <= n,
            s == v@,
            rest@ == s.subrange(k as int, n as int),
            m@ == tab_items(s.subrange(0, k as int), t0),
            ok_items(s.subrange(0, k as int), t0, out@),
        decreases n - k,
    {
        let x = rest.remove(0);
        proof {
            assert(x == s[k as int]);
            assert(decreases_to!(v => v@));
        }
        let ghost prev = out@;
        let ghost tk = m@;
        let id = module_item_id(&x);
        if let Some(id) = id {
            let pre = m.drain_prepend(id);
            push_stmts(&mut out, pre);
        }
        let ghost mid = out@;
        let y = visit_item(x, m);
        out.push(y);
        let ghost after = out@;
        if let Some(id) = id {
            let app = m.drain_append(id);
            push_stmts(&mut out, app);
        }
        k = k + 1;
        proof {
            let sk = s.subrange(0, k as int);
            assert(sk.subrange(0, k - 1) =~= s.subrange(0, k - 1));
            assert(sk[k - 1] == x);
            let pre = prepend_of(tk, id);
            let t1 = drain_prepend(tk, id);
            let app = append_of(tab_item(x, t1), id);
            assert(as_items(Seq::<Stmt>::empty()) =~= Seq::<ModuleItem>::empty());
            assert(mid =~= prev + as_items(pre));
            assert(after =~= mid.push(y));
            assert(out@ =~= after + as_items(app));
            let n0 = prev.len() as int;
            let n1 = mid.len() as int;
            assert(n1 == n0 + pre.len());
            assert(out@.subrange(0, n0) =~= prev);
            assert(out@.subrange(n0, n1) =~= as_items(pre));
            assert(out@[n1] == y);
            assert(out@.subrange(n1 + 1, out@.len() as int) =~= as_items(app));
            assert(rest@ =~= s.subrange(k as int, n as int));
        }
    }
    proof {
        assert(s.subrange(0, n as int) =~= s);
    }
    out
}

/// Applies every pending edit in `mutations` to `m` in one pass, consuming
/// the edits it applies.
pub fn apply_mutations(mutations: &mut Mutations, m: &mut Module)
    ensures
        final(mutations)@ == tab_items(old(m).body@, old(mutations)@),
        ok_items(old(m).body@, old(mutations)@, final(m).body@),
{
    let mut body: Vec<ModuleItem> = Vec::new();
    std::mem::swap(&mut m.body, &mut body);
    m.body = visit_items(body, mutations);
}

} // verus!
