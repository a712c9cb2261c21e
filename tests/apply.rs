use stc_ts_dts::apply_mutations;
use stc_ts_dts::ast::{
    ArrayPat, BindingIdent, Class, ClassMember, ClassProp, Decl, ExportDefaultExpr, Expr,
    Function, Ident, Module, ModuleDecl, ModuleItem, ObjectPat, Pat, RestPat, Stmt, TsType,
    VarDeclarator,
};
use stc_ts_dts::mutations::{
    ClassMemberMut, ClassMut, ClassPropMut, ExportDefaultMut, FunctionMut, ModuleItemMut,
    Mutations, PatMut, VarDeclMut,
};

fn expr_stmt(id: u64) -> Stmt {
    Stmt::Expr { node_id: id, expr: Expr::Num(id) }
}

fn item(id: u64) -> ModuleItem {
    ModuleItem::Stmt(expr_stmt(id))
}

fn ty(kind: u64) -> TsType {
    TsType { node_id: 900 + kind, kind }
}

fn ident_pat(id: u64) -> Pat {
    Pat::Ident(BindingIdent { node_id: id, sym: id, optional: false, type_ann: None })
}

fn var_stmt(id: u64, init: u64) -> Stmt {
    Stmt::Decl(Decl::Var(VarDeclarator {
        node_id: id,
        name: ident_pat(id + 1),
        init: Some(Expr::Num(init)),
    }))
}

fn function(id: u64, params: Vec<Pat>) -> Function {
    Function { node_id: id, params, body: Some(Vec::new()), return_type: None }
}

fn class_with(id: u64, body: Vec<ClassMember>, super_sym: Option<u64>) -> Class {
    Class {
        node_id: id,
        body,
        super_class: super_sym.map(|s| Box::new(Expr::Ident(Ident { sym: s }))),
    }
}

fn class_item(decl_id: u64, class: Class) -> ModuleItem {
    ModuleItem::Stmt(Stmt::Decl(Decl::Class { node_id: decl_id, ident: decl_id, class }))
}

fn sample_module() -> Module {
    let method = ClassMember::Method { node_id: 21, key: 1, function: function(22, vec![ident_pat(23)]) };
    let prop = ClassMember::ClassProp(ClassProp {
        node_id: 24,
        key: 2,
        value: Some(Expr::Num(3)),
        type_ann: None,
    });
    let ctor = ClassMember::Constructor {
        node_id: 25,
        params: vec![Pat::Rest(RestPat { node_id: 26, arg: Box::new(ident_pat(27)), type_ann: None })],
        body: Some(vec![var_stmt(28, 4)]),
    };
    Module {
        body: vec![
            class_item(19, class_with(20, vec![ctor, method, prop], Some(5))),
            ModuleItem::ModuleDecl(ModuleDecl::ExportDefaultExpr(ExportDefaultExpr {
                node_id: 30,
                expr: Expr::Ident(Ident { sym: 6 }),
            })),
            ModuleItem::Stmt(var_stmt(31, 7)),
        ],
    }
}

#[test]
fn insertion_order_preserved() {
    let mut muts = Mutations::new();
    muts.for_module_items.insert(1, ModuleItemMut { prepend_stmts: vec![], append_stmts: vec![expr_stmt(10)] });
    muts.for_module_items.insert(3, ModuleItemMut { prepend_stmts: vec![expr_stmt(11)], append_stmts: vec![] });
    let mut m = Module { body: vec![item(1), item(2), item(3)] };
    apply_mutations(&mut muts, &mut m);
    assert_eq!(m.body, vec![item(1), item(10), item(2), item(11), item(3)]);
    // the slots stay, emptied
    assert_eq!(muts.for_module_items.len(), 2);
    assert!(muts.for_module_items[&1].append_stmts.is_empty());
    assert!(muts.for_module_items[&3].prepend_stmts.is_empty());
}

#[test]
fn insertions_into_namespace_body() {
    let mut muts = Mutations::new();
    muts.for_module_items.insert(2, ModuleItemMut { prepend_stmts: vec![expr_stmt(7)], append_stmts: vec![expr_stmt(8)] });
    let ns = |body: Vec<ModuleItem>| ModuleItem::Stmt(Stmt::Decl(Decl::TsModule { node_id: 1, name: 1, body }));
    let mut m = Module { body: vec![ns(vec![item(2)])] };
    apply_mutations(&mut muts, &mut m);
    assert_eq!(m.body, vec![ns(vec![item(7), item(2), item(8)])]);
}

#[test]
fn inserted_statements_not_visited() {
    let mut muts = Mutations::new();
    muts.for_module_items.insert(1, ModuleItemMut { prepend_stmts: vec![var_stmt(20, 9)], append_stmts: vec![] });
    muts.for_var_decls.insert(20, VarDeclMut { remove_init: true });
    let mut m = Module { body: vec![item(1)] };
    apply_mutations(&mut muts, &mut m);
    assert_eq!(m.body, vec![ModuleItem::Stmt(var_stmt(20, 9)), item(1)]);
    assert!(muts.for_var_decls.contains_key(&20));
}

#[test]
fn removed_member_becomes_tombstone() {
    let mut muts = Mutations::new();
    muts.for_class_members.insert(5, ClassMemberMut { remove: true });
    muts.for_fns.insert(6, FunctionMut { ret_ty: Some(ty(1)) });
    let method = ClassMember::Method { node_id: 5, key: 1, function: function(6, vec![]) };
    let kept = ClassMember::TsIndexSignature { node_id: 7, type_ann: None };
    let mut m = Module { body: vec![class_item(3, class_with(4, vec![method, kept], None))] };
    apply_mutations(&mut muts, &mut m);
    let kept = ClassMember::TsIndexSignature { node_id: 7, type_ann: None };
    assert_eq!(m.body, vec![class_item(3, class_with(4, vec![ClassMember::Empty, kept], None))]);
    assert!(!muts.for_class_members.contains_key(&5));
    // the removed member's function was never visited
    assert!(muts.for_fns.contains_key(&6));
}

#[test]
fn kept_member_is_visited() {
    let mut muts = Mutations::new();
    muts.for_class_members.insert(5, ClassMemberMut { remove: false });
    muts.for_fns.insert(6, FunctionMut { ret_ty: Some(ty(1)) });
    let method = |f: Function| ClassMember::Method { node_id: 5, key: 1, function: f };
    let mut m = Module { body: vec![class_item(3, class_with(4, vec![method(function(6, vec![]))], None))] };
    apply_mutations(&mut muts, &mut m);
    let mut f = function(6, vec![]);
    f.return_type = Some(ty(1));
    assert_eq!(m.body, vec![class_item(3, class_with(4, vec![method(f)], None))]);
    assert!(muts.for_class_members.is_empty());
    assert!(muts.for_fns.is_empty());
}

#[test]
fn rest_pattern_ignores_optional() {
    let mut muts = Mutations::new();
    muts.for_pats.insert(30, PatMut { ty: Some(ty(2)), optional: Some(true) });
    muts.for_pats.insert(31, PatMut { ty: Some(ty(2)), optional: Some(true) });
    let rest = |type_ann: Option<TsType>| Pat::Rest(RestPat { node_id: 31, arg: Box::new(ident_pat(32)), type_ann });
    let fn_item = |params: Vec<Pat>| {
        ModuleItem::Stmt(Stmt::Decl(Decl::Fn { node_id: 1, ident: 1, function: function(2, params) }))
    };
    let mut m = Module { body: vec![fn_item(vec![ident_pat(30), rest(None)])] };
    apply_mutations(&mut muts, &mut m);
    let ident = Pat::Ident(BindingIdent { node_id: 30, sym: 30, optional: true, type_ann: Some(ty(2)) });
    assert_eq!(m.body, vec![fn_item(vec![ident, rest(Some(ty(2)))])]);
    assert!(muts.for_pats.is_empty());
}

#[test]
fn object_and_array_patterns_take_both_fields() {
    let mut muts = Mutations::new();
    muts.for_pats.insert(40, PatMut { ty: None, optional: Some(true) });
    muts.for_pats.insert(41, PatMut { ty: Some(ty(3)), optional: None });
    let obj = |optional: bool| Pat::Object(ObjectPat { node_id: 40, props: vec![ident_pat(42)], optional, type_ann: None });
    let arr = |type_ann: Option<TsType>| Pat::Array(ArrayPat { node_id: 41, elems: vec![], optional: false, type_ann });
    let fn_item = |params: Vec<Pat>| {
        ModuleItem::Stmt(Stmt::Decl(Decl::Fn { node_id: 1, ident: 1, function: function(2, params) }))
    };
    let mut m = Module { body: vec![fn_item(vec![obj(false), arr(None)])] };
    apply_mutations(&mut muts, &mut m);
    assert_eq!(m.body, vec![fn_item(vec![obj(true), arr(Some(ty(3)))])]);
}

#[test]
fn empty_table_changes_nothing() {
    let mut muts = Mutations::new();
    let mut m = sample_module();
    apply_mutations(&mut muts, &mut m);
    assert_eq!(m, sample_module());
    assert!(muts.for_module_items.is_empty());
}

#[test]
fn class_edit_without_superclass_is_taken() {
    let mut muts = Mutations::new();
    muts.for_classes.insert(4, ClassMut { super_class: None, additional_members: vec![] });
    let mut m = Module { body: vec![class_item(3, class_with(4, vec![], Some(8)))] };
    apply_mutations(&mut muts, &mut m);
    assert_eq!(m.body, vec![class_item(3, class_with(4, vec![], Some(8)))]);
    assert!(muts.for_classes.is_empty());
}

#[test]
fn class_edit_replaces_superclass() {
    let mut muts = Mutations::new();
    muts.for_classes.insert(4, ClassMut {
        super_class: Some(Box::new(Expr::Ident(Ident { sym: 9 }))),
        additional_members: vec![ClassMember::Empty],
    });
    let mut m = Module { body: vec![class_item(3, class_with(4, vec![], Some(8)))] };
    apply_mutations(&mut muts, &mut m);
    assert_eq!(m.body, vec![class_item(3, class_with(4, vec![], Some(9)))]);
    assert!(muts.for_classes.is_empty());
}

#[test]
fn var_decl_initializer_removed_only_when_asked() {
    let mut muts = Mutations::new();
    muts.for_var_decls.insert(10, VarDeclMut { remove_init: true });
    muts.for_var_decls.insert(20, VarDeclMut { remove_init: false });
    let mut m = Module { body: vec![ModuleItem::Stmt(var_stmt(10, 1)), ModuleItem::Stmt(var_stmt(20, 2))] };
    apply_mutations(&mut muts, &mut m);
    let cleared = Stmt::Decl(Decl::Var(VarDeclarator { node_id: 10, name: ident_pat(11), init: None }));
    assert_eq!(m.body, vec![ModuleItem::Stmt(cleared), ModuleItem::Stmt(var_stmt(20, 2))]);
    assert!(muts.for_var_decls.is_empty());
}

#[test]
fn export_default_replaced() {
    let mut muts = Mutations::new();
    muts.for_export_defaults.insert(30, ExportDefaultMut { replace_with: Some(Expr::Num(42)) });
    let export = |expr: Expr| ModuleItem::ModuleDecl(ModuleDecl::ExportDefaultExpr(ExportDefaultExpr { node_id: 30, expr }));
    let mut m = Module { body: vec![export(Expr::Ident(Ident { sym: 6 }))] };
    apply_mutations(&mut muts, &mut m);
    assert_eq!(m.body, vec![export(Expr::Num(42))]);
    assert!(muts.for_export_defaults.is_empty());
}

#[test]
fn export_default_without_replacement_kept() {
    let mut muts = Mutations::new();
    muts.for_export_defaults.insert(30, ExportDefaultMut { replace_with: None });
    let export = |expr: Expr| ModuleItem::ModuleDecl(ModuleDecl::ExportDefaultExpr(ExportDefaultExpr { node_id: 30, expr }));
    let mut m = Module { body: vec![export(Expr::Num(1))] };
    apply_mutations(&mut muts, &mut m);
    assert_eq!(m.body, vec![export(Expr::Num(1))]);
    assert!(muts.for_export_defaults.is_empty());
}

#[test]
fn class_prop_type_set() {
    let mut muts = Mutations::new();
    muts.for_class_props.insert(24, ClassPropMut { ty: Some(ty(5)) });
    let prop = |type_ann: Option<TsType>| ClassMember::ClassProp(ClassProp { node_id: 24, key: 2, value: None, type_ann });
    let mut m = Module { body: vec![class_item(3, class_with(4, vec![prop(None)], None))] };
    apply_mutations(&mut muts, &mut m);
    assert_eq!(m.body, vec![class_item(3, class_with(4, vec![prop(Some(ty(5)))], None))]);
    assert!(muts.for_class_props.is_empty());
}

#[test]
fn every_reached_edit_consumed() {
    let mut muts = Mutations::new();
    muts.for_classes.insert(20, ClassMut { super_class: None, additional_members: vec![] });
    muts.for_fns.insert(22, FunctionMut { ret_ty: None });
    muts.for_class_members.insert(21, ClassMemberMut { remove: false });
    muts.for_class_members.insert(25, ClassMemberMut { remove: false });
    muts.for_class_props.insert(24, ClassPropMut { ty: None });
    muts.for_pats.insert(23, PatMut { ty: None, optional: None });
    muts.for_pats.insert(26, PatMut { ty: None, optional: None });
    muts.for_pats.insert(27, PatMut { ty: None, optional: None });
    muts.for_var_decls.insert(28, VarDeclMut { remove_init: false });
    muts.for_var_decls.insert(31, VarDeclMut { remove_init: false });
    muts.for_export_defaults.insert(30, ExportDefaultMut { replace_with: None });
    muts.for_module_items.insert(19, ModuleItemMut { prepend_stmts: vec![], append_stmts: vec![] });
    let mut m = sample_module();
    apply_mutations(&mut muts, &mut m);
    assert_eq!(m, sample_module());
    assert!(muts.for_classes.is_empty());
    assert!(muts.for_fns.is_empty());
    assert!(muts.for_class_members.is_empty());
    assert!(muts.for_class_props.is_empty());
    assert!(muts.for_pats.is_empty());
    assert!(muts.for_var_decls.is_empty());
    assert!(muts.for_export_defaults.is_empty());
    assert_eq!(muts.for_module_items.len(), 1);
}

#[test]
fn unknown_identities_are_inert() {
    let mut muts = Mutations::new();
    muts.for_fns.insert(999, FunctionMut { ret_ty: Some(ty(1)) });
    let mut m = sample_module();
    apply_mutations(&mut muts, &mut m);
    assert_eq!(m, sample_module());
    assert!(muts.for_fns.contains_key(&999));
}
