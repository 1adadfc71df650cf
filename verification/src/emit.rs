//! The emitters: from a record shape, compute the description of the
//! generated builder type, of one setter per field, and of the
//! finalizer, together with the namespace the items live in. Every name
//! and every flag tuple in the description is pinned to a spec-level
//! function of the shape alone, so regeneration is deterministic.

use vstd::prelude::*;
use vstd::string::StringExecFns;
use crate::flags::all_false;
use crate::flags::flag_name_spec;
use crate::flags::flag_names_spec;
use crate::flags::flag_params;
use crate::flags::flipped;
use crate::naming::mod_name;
use crate::naming::mod_name_spec;
use crate::shape::Field;
use crate::shape::FieldId;
use crate::shape::Generics;
use crate::shape::RecordShape;
use crate::text::dec_spec;
use crate::text::dec_str;
use crate::text::lemma_append_left_cancel;
use crate::text::lemma_dec_injective;

verus! {

broadcast use vstd::seq::group_seq_axioms;

/// The views of a sequence of strings.
pub open spec fn views_of(v: Seq<String>) -> Seq<Seq<char>> {
    Seq::new(v.len(), |i: int| v[i]@)
}

/// The generic arguments a record's own parameters contribute, in
/// declaration order: lifetimes, then type parameters, then pre-existing
/// const parameters.
pub open spec fn gen_args_spec(g: Generics) -> Seq<Seq<char>> {
    views_of(g.lifetimes@) + views_of(g.type_params@) + views_of(g.const_params@)
}

/// The name of the setter emitted for a field: the field's own name, or
/// `set_` and the position for an unnamed field.
pub open spec fn setter_name_spec(id: FieldId) -> Seq<char> {
    match id {
        FieldId::Named(n) => n@,
        FieldId::Pos(i) => "set_"@ + dec_spec(i as nat),
    }
}

/// The place a field's value is written to: the field's name, or the
/// position of an unnamed field.
pub open spec fn accessor_spec(id: FieldId) -> Seq<char> {
    match id {
        FieldId::Named(n) => n@,
        FieldId::Pos(i) => dec_spec(i as nat),
    }
}

/// Name the setter for one field.
pub fn setter_name(id: &FieldId) -> (r: String)
    ensures
        r@ == setter_name_spec(*id),
{
    match id {
        FieldId::Named(n) => n.clone(),
        FieldId::Pos(i) => {
            let mut s = String::from_str("set_");
            let d = dec_str(*i);
            s.append(d.as_str());
            s
        },
    }
}

/// The storage slot a setter writes its value into, as the accessor of
/// the field within the record's storage.
pub fn val_init(id: &FieldId) -> (r: String)
    ensures
        r@ == accessor_spec(*id),
{
    match id {
        FieldId::Named(n) => n.clone(),
        FieldId::Pos(i) => dec_str(*i),
    }
}

/// One auto-fill step of the finalizer: the flag parameter consulted and
/// the slot filled when that flag is still `false`.
pub struct AutoInitDesc {
    pub flag: String,
    pub target: String,
}

/// Describe the auto-fill step for one field.
pub fn auto_init(const_name: &String, id: &FieldId) -> (r: AutoInitDesc)
    ensures
        r.flag@ == const_name@,
        r.target@ == accessor_spec(*id),
{
    AutoInitDesc { flag: const_name.clone(), target: val_init(id) }
}

/// Join a record's lifetimes with a list of following identifiers into
/// one generic-argument list, order kept.
pub fn lifetimes_idents(lifetimes: &Vec<String>, idents: &Vec<String>) -> (r: Vec<String>)
    ensures
        r@.len() == lifetimes@.len() + idents@.len(),
        forall|j: int| 0 <= j < lifetimes@.len() ==> #[trigger] r@[j]@ == lifetimes@[j]@,
        forall|j: int|
            lifetimes@.len() <= j < r@.len() ==> #[trigger] r@[j]@ == idents@[j
                - lifetimes@.len()]@,
{
    let mut r: Vec<String> = Vec::new();
    let mut i: usize = 0;
    while i < lifetimes.len()
        invariant
            i <= lifetimes@.len(),
            r@.len() == i,
            forall|j: int| 0 <= j < i ==> #[trigger] r@[j]@ == lifetimes@[j]@,
        decreases lifetimes@.len() - i,
    {
        r.push(lifetimes[i].clone());
        i = i + 1;
    }
    let mut k: usize = 0;
    while k < idents.len()
        invariant
            k <= idents@.len(),
            r@.len() == lifetimes@.len() + k,
            forall|j: int| 0 <= j < lifetimes@.len() ==> #[trigger] r@[j]@ == lifetimes@[j]@,
            forall|j: int|
                lifetimes@.len() <= j < r@.len() ==> #[trigger] r@[j]@ == idents@[j
                    - lifetimes@.len()]@,
        decreases idents@.len() - k,
    {
        r.push(idents[k].clone());
        k = k + 1;
    }
    r
}

/// One emitted setter: its name, the type of the value it takes, the
/// flag parameter that must still be `false` for it to be callable, the
/// flag tuple of the builder it returns, and the slot it writes.
pub struct SetterDesc {
    pub name: String,
    pub ty: String,
    pub uninit_flag: String,
    pub result_args: Vec<String>,
    pub write_target: String,
}

/// The full description of the generated builder surface for one record.
pub struct BuilderDesc {
    /// The internal namespace the emitted items live in.
    pub mod_ident: String,
    /// The name of the builder type.
    pub builder_ident: String,
    /// The fresh boolean compile-time parameters, one per field.
    pub flag_params: Vec<String>,
    /// Generic arguments of a fresh builder: original generics, then one
    /// `false` per field.
    pub default_args: Vec<String>,
    /// Generic arguments of the generic builder state: original
    /// generics, then the flag parameters themselves.
    pub current_args: Vec<String>,
    /// One setter per field, in field order.
    pub setters: Vec<SetterDesc>,
    /// The finalizer's auto-fill steps, one per field, in field order.
    pub auto_inits: Vec<AutoInitDesc>,
    /// The field types, in field order; with the flag parameters they
    /// spell the finalizer's auto-fill capability constraints.
    pub field_tys: Vec<String>,
}

/// What the description of one setter must say for field `i` of a
/// record: its name, type, guarded flag and written slot are those of
/// the field, and the flag tuple it returns is the current tuple with
/// exactly the field's own flag forced to `true`.
pub open spec fn setter_ok(s: SetterDesc, shape: RecordShape, i: int) -> bool {
    &&& s.name@ == setter_name_spec(shape.fields@[i].id)
    &&& s.ty@ == shape.fields@[i].ty@
    &&& s.uninit_flag@ == flag_name_spec(shape.fields@[i].id)
    &&& s.write_target@ == accessor_spec(shape.fields@[i].id)
    &&& views_of(s.result_args@) == gen_args_spec(shape.generics) + flag_names_spec(
        shape.fields@,
    ).update(i, "true"@)
}

/// Compute the builder description for a record shape.
///
/// Everything emitted is a function of the shape alone: the namespace
/// and builder name come from the record's name, each flag parameter and
/// setter from its field, the default tuple is all `false`, and each
/// setter's result tuple flips exactly its own field's flag.
pub fn generate(shape: &RecordShape) -> (r: BuilderDesc)
    ensures
        r.mod_ident@ == mod_name_spec(shape.name@),
        r.builder_ident@ == shape.name@ + "LateInit"@,
        r.flag_params@.len() == shape.fields@.len(),
        forall|i: int|
            0 <= i < shape.fields@.len() ==> #[trigger] r.flag_params@[i]@ == flag_name_spec(
                shape.fields@[i].id,
            ),
        views_of(r.default_args@) == gen_args_spec(shape.generics) + Seq::new(
            shape.fields@.len(),
            |i: int| "false"@,
        ),
        views_of(r.current_args@) == gen_args_spec(shape.generics) + flag_names_spec(
            shape.fields@,
        ),
        r.setters@.len() == shape.fields@.len(),
        forall|i: int|
            0 <= i < shape.fields@.len() ==> #[trigger] setter_ok(r.setters@[i], *shape, i),
        r.auto_inits@.len() == shape.fields@.len(),
        forall|i: int|
            0 <= i < shape.fields@.len() ==> #[trigger] r.auto_inits@[i].flag@ == flag_name_spec(
                shape.fields@[i].id,
            ) && r.auto_inits@[i].target@ == accessor_spec(shape.fields@[i].id),
        r.field_tys@.len() == shape.fields@.len(),
        forall|i: int|
            0 <= i < shape.fields@.len() ==> #[trigger] r.field_tys@[i]@ == shape.fields@[i].ty@,
{
    let n = shape.fields.len();
    let mod_ident = mod_name(&shape.name);
    let mut builder_ident = shape.name.clone();
    builder_ident.append("LateInit");
    let flag_ps = flag_params(&shape.fields);

    let types_consts = lifetimes_idents(&shape.generics.type_params, &shape.generics.const_params);
    let ghost tc_views = views_of(shape.generics.type_params@) + views_of(
        shape.generics.const_params@,
    );
    proof {
        assert(views_of(types_consts@) =~= tc_views);
    }

    let af = all_false(n);
    let tc_af = lifetimes_idents(&types_consts, &af);
    let default_args = lifetimes_idents(&shape.generics.lifetimes, &tc_af);
    proof {
        assert(views_of(default_args@) =~= gen_args_spec(shape.generics) + Seq::new(
            shape.fields@.len(),
            |i: int| "false"@,
        ));
    }

    let tc_fl = lifetimes_idents(&types_consts, &flag_ps);
    let current_args = lifetimes_idents(&shape.generics.lifetimes, &tc_fl);
    proof {
        assert(views_of(current_args@) =~= gen_args_spec(shape.generics) + flag_names_spec(
            shape.fields@,
        ));
    }

    let mut setters: Vec<SetterDesc> = Vec::new();
    let mut auto_inits: Vec<AutoInitDesc> = Vec::new();
    let mut field_tys: Vec<String> = Vec::new();
    let mut i: usize = 0;
    while i < n
        invariant
            n == shape.fields@.len(),
            views_of(types_consts@) == views_of(shape.generics.type_params@) + views_of(
                shape.generics.const_params@,
            ),
            flag_ps@.len() == n,
            forall|j: int|
                0 <= j < n ==> #[trigger] flag_ps@[j]@ == flag_name_spec(shape.fields@[j].id),
            i <= n,
            setters@.len() == i,
            auto_inits@.len() == i,
            field_tys@.len() == i,
            forall|j: int| 0 <= j < i ==> #[trigger] setter_ok(setters@[j], *shape, j),
            forall|j: int|
                0 <= j < i ==> #[trigger] auto_inits@[j].flag@ == flag_name_spec(
                    shape.fields@[j].id,
                ) && auto_inits@[j].target@ == accessor_spec(shape.fields@[j].id),
            forall|j: int| 0 <= j < i ==> #[trigger] field_tys@[j]@ == shape.fields@[j].ty@,
        decreases n - i,
    {
        let fl = flipped(&flag_ps, i);
        let tc_fl_i = lifetimes_idents(&types_consts, &fl);
        let result_args = lifetimes_idents(&shape.generics.lifetimes, &tc_fl_i);
        let name = setter_name(&shape.fields[i].id);
        let write_target = val_init(&shape.fields[i].id);
        let setter = SetterDesc {
            name,
            ty: shape.fields[i].ty.clone(),
            uninit_flag: flag_ps[i].clone(),
            result_args,
            write_target,
        };
        proof {
            assert(views_of(fl@) =~= flag_names_spec(shape.fields@).update(i as int, "true"@));
            assert(views_of(tc_fl_i@) =~= views_of(types_consts@) + views_of(fl@));
            assert(views_of(setter.result_args@) =~= views_of(shape.generics.lifetimes@)
                + views_of(tc_fl_i@));
            assert(views_of(setter.result_args@) =~= gen_args_spec(shape.generics)
                + flag_names_spec(shape.fields@).update(i as int, "true"@));
            assert(setter_ok(setter, *shape, i as int));
        }
        setters.push(setter);
        auto_inits.push(auto_init(&flag_ps[i], &shape.fields[i].id));
        field_tys.push(shape.fields[i].ty.clone());
        i = i + 1;
    }

    BuilderDesc {
        mod_ident,
        builder_ident,
        flag_params: flag_ps,
        default_args,
        current_args,
        setters,
        auto_inits,
        field_tys,
    }
}

/// Setters for unnamed fields are named injectively from the position:
/// two different positions always get two different setter names, so
/// every positional field is independently settable.
pub proof fn lemma_setter_names_distinct(p1: usize, p2: usize)
    requires
        p1 != p2,
    ensures
        setter_name_spec(FieldId::Pos(p1)) != setter_name_spec(FieldId::Pos(p2)),
{
    if setter_name_spec(FieldId::Pos(p1)) == setter_name_spec(FieldId::Pos(p2)) {
        lemma_append_left_cancel("set_"@, dec_spec(p1 as nat), dec_spec(p2 as nat));
        lemma_dec_injective(p1 as nat, p2 as nat);
    }
}

} // verus!
