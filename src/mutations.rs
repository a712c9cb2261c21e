//! The mutation table: pending edits, one map per node category, keyed by
//! node identity.
use std::collections::HashMap;
use vstd::prelude::*;
use crate::ast::{ClassMember, Expr, NodeId, Stmt, TsType};
use crate::model::{take_class, take_export, take_fn, take_member_id, take_pat, take_prop, take_var};

verus! {

/// Statements to insert before and after a module item.
pub struct ModuleItemMut {
    pub prepend_stmts: Vec<Stmt>,
    pub append_stmts: Vec<Stmt>,
}

pub struct VarDeclMut {
    pub remove_init: bool,
}

/// `additional_members` is carried for the analysis phase; applying edits
/// never reads it.
pub struct ClassMut {
    pub super_class: Option<Box<Expr>>,
    pub additional_members: Vec<ClassMember>,
}

pub struct FunctionMut {
    pub ret_ty: Option<TsType>,
}

pub struct ClassMemberMut {
    pub remove: bool,
}

pub struct ClassPropMut {
    pub ty: Option<TsType>,
}

pub struct PatMut {
    pub ty: Option<TsType>,
    pub optional: Option<bool>,
}

pub struct ExportDefaultMut {
    pub replace_with: Option<Expr>,
}

pub struct Mutations {
    pub for_module_items: HashMap<NodeId, ModuleItemMut>,
    pub for_var_decls: HashMap<NodeId, VarDeclMut>,
    pub for_classes: HashMap<NodeId, ClassMut>,
    pub for_fns: HashMap<NodeId, FunctionMut>,
    pub for_class_members: HashMap<NodeId, ClassMemberMut>,
    pub for_class_props: HashMap<NodeId, ClassPropMut>,
    pub for_pats: HashMap<NodeId, PatMut>,
    pub for_export_defaults: HashMap<NodeId, ExportDefaultMut>,
}

/// What the table holds, as maps from identity to the parts of each edit
/// that applying reads.
pub struct Pending {
    /// Statements to insert before and after each module item.
    pub items: Map<NodeId, (Seq<Stmt>, Seq<Stmt>)>,
    /// Whether a declarator loses its initializer.
    pub var_decls: Map<NodeId, bool>,
    /// The superclass to install.
    pub classes: Map<NodeId, Option<Box<Expr>>>,
    /// The return type to install.
    pub fns: Map<NodeId, Option<TsType>>,
    /// Whether a class member is removed.
    pub members: Map<NodeId, bool>,
    /// The type annotation to install on a class property.
    pub props: Map<NodeId, Option<TsType>>,
    /// The type annotation and optionality to install on a pattern.
    pub pats: Map<NodeId, (Option<TsType>, Option<bool>)>,
    /// The expression to export instead.
    pub exports: Map<NodeId, Option<Expr>>,
}

impl Pending {
    pub open spec fn empty() -> Pending {
        Pending {
            items: Map::empty(),
            var_decls: Map::empty(),
            classes: Map::empty(),
            fns: Map::empty(),
            members: Map::empty(),
            props: Map::empty(),
            pats: Map::empty(),
            exports: Map::empty(),
        }
    }
}

impl View for Mutations {
    type V = Pending;

    open spec fn view(&self) -> Pending {
        Pending {
            items: self.for_module_items@.map_values(
                |e: ModuleItemMut| (e.prepend_stmts@, e.append_stmts@),
            ),
            var_decls: self.for_var_decls@.map_values(|e: VarDeclMut| e.remove_init),
            classes: self.for_classes@.map_values(|e: ClassMut| e.super_class),
            fns: self.for_fns@.map_values(|e: FunctionMut| e.ret_ty),
            members: self.for_class_members@.map_values(|e: ClassMemberMut| e.remove),
            props: self.for_class_props@.map_values(|e: ClassPropMut| e.ty),
            pats: self.for_pats@.map_values(|e: PatMut| (e.ty, e.optional)),
            exports: self.for_export_defaults@.map_values(|e: ExportDefaultMut| e.replace_with),
        }
    }
}

impl Mutations {
    pub fn new() -> (r: Mutations)
        ensures
            r@ == Pending::empty(),
    {
        let r = Mutations {
            for_module_items: HashMap::new(),
            for_var_decls: HashMap::new(),
            for_classes: HashMap::new(),
            for_fns: HashMap::new(),
            for_class_members: HashMap::new(),
            for_class_props: HashMap::new(),
            for_pats: HashMap::new(),
            for_export_defaults: HashMap::new(),
        };
        assert(r@.items =~= Map::empty());
        assert(r@.var_decls =~= Map::empty());
        assert(r@.classes =~= Map::empty());
        assert(r@.fns =~= Map::empty());
        assert(r@.members =~= Map::empty());
        assert(r@.props =~= Map::empty());
        assert(r@.pats =~= Map::empty());
        assert(r@.exports =~= Map::empty());
        r
    }
}


/// The statements filed to go before the item with identity `id`.
pub open spec fn prepend_of(t: Pending, id: Option<NodeId>) -> Seq<Stmt> {
    match id {
        Some(k) => if t.items.contains_key(k) { t.items[k].0 } else { Seq::empty() },
        None => Seq::empty(),
    }
}

/// The statements filed to go after the item with identity `id`.
pub open spec fn append_of(t: Pending, id: Option<NodeId>) -> Seq<Stmt> {
    match id {
        Some(k) => if t.items.contains_key(k) { t.items[k].1 } else { Seq::empty() },
        None => Seq::empty(),
    }
}

/// The table once the statements to go before `id` are handed out; the slot stays.
pub open spec fn drain_prepend(t: Pending, id: Option<NodeId>) -> Pending {
    match id {
        Some(k) => if t.items.contains_key(k) {
            Pending { items: t.items.insert(k, (Seq::empty(), t.items[k].1)), ..t }
        } else {
            t
        },
        None => t,
    }
}

/// The table once the statements to go after `id` are handed out; the slot stays.
pub open spec fn drain_append(t: Pending, id: Option<NodeId>) -> Pending {
    match id {
        Some(k) => if t.items.contains_key(k) {
            Pending { items: t.items.insert(k, (t.items[k].0, Seq::empty())), ..t }
        } else {
            t
        },
        None => t,
    }
}


impl Mutations {
    /// Hands out the statements filed to go before `id`, leaving its slot.
    pub fn drain_prepend(&mut self, id: NodeId) -> (r: Vec<Stmt>)
        ensures
            final(self)@ == drain_prepend(old(self)@, Some(id)),
            r@ == prepend_of(old(self)@, Some(id)),
    {
        broadcast use vstd::std_specs::hash::group_hash_axioms;
        match self.for_module_items.remove(&id) {
            Some(e) => {
                let ModuleItemMut { prepend_stmts, append_stmts } = e;
                self.for_module_items.insert(
                    id,
                    ModuleItemMut { prepend_stmts: Vec::new(), append_stmts },
                );
                assert(self@.items =~= drain_prepend(old(self)@, Some(id)).items);
                prepend_stmts
            },
            None => {
                assert(self@.items =~= old(self)@.items);
                Vec::new()
            },
        }
    }

    /// Hands out the statements filed to go after `id`, leaving its slot.
    pub fn drain_append(&mut self, id: NodeId) -> (r: Vec<Stmt>)
        ensures
            final(self)@ == drain_append(old(self)@, Some(id)),
            r@ == append_of(old(self)@, Some(id)),
    {
        broadcast use vstd::std_specs::hash::group_hash_axioms;
        match self.for_module_items.remove(&id) {
            Some(e) => {
                let ModuleItemMut { prepend_stmts, append_stmts } = e;
                self.for_module_items.insert(
                    id,
                    ModuleItemMut { prepend_stmts, append_stmts: Vec::new() },
                );
                assert(self@.items =~= drain_append(old(self)@, Some(id)).items);
                append_stmts
            },
            None => {
                assert(self@.items =~= old(self)@.items);
                Vec::new()
            },
        }
    }

    pub fn take_var_decl(&mut self, id: NodeId) -> (r: Option<VarDeclMut>)
        ensures
            final(self)@ == take_var(old(self)@, id),
            r is Some <==> old(self)@.var_decls.contains_key(id),
            r is Some ==> r->Some_0.remove_init == old(self)@.var_decls[id],
    {
        broadcast use vstd::std_specs::hash::group_hash_axioms;
        let r = self.for_var_decls.remove(&id);
        assert(self@.var_decls =~= old(self)@.var_decls.remove(id));
        r
    }

    pub fn take_class(&mut self, id: NodeId) -> (r: Option<ClassMut>)
        ensures
            final(self)@ == take_class(old(self)@, id),
            r is Some <==> old(self)@.classes.contains_key(id),
            r is Some ==> r->Some_0.super_class == old(self)@.classes[id],
    {
        broadcast use vstd::std_specs::hash::group_hash_axioms;
        let r = self.for_classes.remove(&id);
        assert(self@.classes =~= old(self)@.classes.remove(id));
        r
    }

    pub fn take_fn(&mut self, id: NodeId) -> (r: Option<FunctionMut>)
        ensures
            final(self)@ == take_fn(old(self)@, id),
            r is Some <==> old(self)@.fns.contains_key(id),
            r is Some ==> r->Some_0.ret_ty == old(self)@.fns[id],
    {
        broadcast use vstd::std_specs::hash::group_hash_axioms;
        let r = self.for_fns.remove(&id);
        assert(self@.fns =~= old(self)@.fns.remove(id));
        r
    }

    pub fn take_class_member(&mut self, id: NodeId) -> (r: Option<ClassMemberMut>)
        ensures
            final(self)@ == take_member_id(old(self)@, id),
            r is Some <==> old(self)@.members.contains_key(id),
            r is Some ==> r->Some_0.remove == old(self)@.members[id],
    {
        broadcast use vstd::std_specs::hash::group_hash_axioms;
        let r = self.for_class_members.remove(&id);
        assert(self@.members =~= old(self)@.members.remove(id));
        r
    }

    pub fn take_class_prop(&mut self, id: NodeId) -> (r: Option<ClassPropMut>)
        ensures
            final(self)@ == take_prop(old(self)@, id),
            r is Some <==> old(self)@.props.contains_key(id),
            r is Some ==> r->Some_0.ty == old(self)@.props[id],
    {
        broadcast use vstd::std_specs::hash::group_hash_axioms;
        let r = self.for_class_props.remove(&id);
        assert(self@.props =~= old(self)@.props.remove(id));
        r
    }

    pub fn take_pat(&mut self, id: NodeId) -> (r: Option<PatMut>)
        ensures
            final(self)@ == take_pat(old(self)@, id),
            r is Some <==> old(self)@.pats.contains_key(id),
            r is Some ==> (r->Some_0.ty, r->Some_0.optional) == old(self)@.pats[id],
    {
        broadcast use vstd::std_specs::hash::group_hash_axioms;
        let r = self.for_pats.remove(&id);
        assert(self@.pats =~= old(self)@.pats.remove(id));
        r
    }

    pub fn take_export_default(&mut self, id: NodeId) -> (r: Option<ExportDefaultMut>)
        ensures
            final(self)@ == take_export(old(self)@, id),
            r is Some <==> old(self)@.exports.contains_key(id),
            r is Some ==> r->Some_0.replace_with == old(self)@.exports[id],
    {
        broadcast use vstd::std_specs::hash::group_hash_axioms;
        let r = self.for_export_defaults.remove(&id);
        assert(self@.exports =~= old(self)@.exports.remove(id));
        r
    }
}

} // verus!
