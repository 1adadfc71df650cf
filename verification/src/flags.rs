//! The flag-space synthesizer: one fresh compile-time boolean parameter
//! per field, named deterministically from the field's identity, and the
//! three flag tuples the emitters share — all flags `false` (a fresh
//! builder), all flags left as parameters (the generic builder state),
//! and one flag forced to `true` with the rest unchanged (the state a
//! setter returns).

use vstd::prelude::*;
use vstd::string::StringExecFns;
use crate::shape::Field;
use crate::shape::FieldId;
use crate::text::dec_spec;
use crate::text::dec_str;
use crate::text::lemma_append_left_cancel;
use crate::text::lemma_append_right_cancel;
use crate::text::lemma_dec_injective;

verus! {

broadcast use vstd::seq::group_seq_axioms;

/// The name of the flag parameter minted for a field: the field's name,
/// or an underscore and the field's position, followed by `Init`.
pub open spec fn flag_name_spec(id: FieldId) -> Seq<char> {
    match id {
        FieldId::Named(n) => n@ + "Init"@,
        FieldId::Pos(i) => "_"@ + dec_spec(i as nat) + "Init"@,
    }
}

/// Mint the flag parameter name for one field.
pub fn flag_name(id: &FieldId) -> (r: String)
    ensures
        r@ == flag_name_spec(*id),
{
    match id {
        FieldId::Named(n) => {
            let mut s = n.clone();
            s.append("Init");
            s
        },
        FieldId::Pos(i) => {
            let mut s = String::from_str("_");
            let d = dec_str(*i);
            s.append(d.as_str());
            s.append("Init");
            proof {
                assert(s@ =~= "_"@ + dec_spec(*i as nat) + "Init"@);
            }
            s
        },
    }
}

/// The flag parameter names of a record's fields, in field order.
pub open spec fn flag_names_spec(fields: Seq<Field>) -> Seq<Seq<char>> {
    Seq::new(fields.len(), |i: int| flag_name_spec(fields[i].id))
}

/// Mint the flag parameter names for every field of a record.
pub fn flag_params(fields: &Vec<Field>) -> (r: Vec<String>)
    ensures
        r@.len() == fields@.len(),
        forall|i: int| 0 <= i < fields@.len() ==> #[trigger] r@[i]@ == flag_name_spec(
            fields@[i].id,
        ),
{
    let mut r: Vec<String> = Vec::new();
    let mut i: usize = 0;
    while i < fields.len()
        invariant
            i <= fields@.len(),
            r@.len() == i,
            forall|j: int| 0 <= j < i ==> #[trigger] r@[j]@ == flag_name_spec(fields@[j].id),
        decreases fields@.len() - i,
    {
        r.push(flag_name(&fields[i].id));
        i = i + 1;
    }
    r
}

/// The all-`false` flag tuple: the type-level state of a fresh builder.
pub fn all_false(n: usize) -> (r: Vec<String>)
    ensures
        r@.len() == n,
        forall|i: int| 0 <= i < n ==> #[trigger] r@[i]@ == "false"@,
{
    let mut r: Vec<String> = Vec::new();
    let mut i: usize = 0;
    while i < n
        invariant
            i <= n,
            r@.len() == i,
            forall|j: int| 0 <= j < i ==> #[trigger] r@[j]@ == "false"@,
        decreases n - i,
    {
        r.push(String::from_str("false"));
        i = i + 1;
    }
    r
}

/// The flag tuple a setter returns: identical to the current tuple
/// except that the one flag at `pos` is forced to the literal `true`.
pub fn flipped(flags: &Vec<String>, pos: usize) -> (r: Vec<String>)
    requires
        pos < flags@.len(),
    ensures
        r@.len() == flags@.len(),
        r@[pos as int]@ == "true"@,
        forall|j: int| 0 <= j < flags@.len() && j != pos ==> #[trigger] r@[j]@ == flags@[j]@,
{
    let mut r: Vec<String> = Vec::new();
    let mut i: usize = 0;
    while i < flags.len()
        invariant
            i <= flags@.len(),
            pos < flags@.len(),
            r@.len() == i,
            i > pos ==> r@[pos as int]@ == "true"@,
            forall|j: int| 0 <= j < i && j != pos ==> #[trigger] r@[j]@ == flags@[j]@,
        decreases flags@.len() - i,
    {
        if i == pos {
            r.push(String::from_str("true"));
        } else {
            r.push(flags[i].clone());
        }
        i = i + 1;
    }
    r
}

/// Flag names are minted injectively: two named fields with different
/// names, or two positional fields at different positions, never share
/// a flag parameter name, so no two fields of one record can collide.
pub proof fn lemma_flag_names_distinct(id1: FieldId, id2: FieldId)
    requires
        id1 matches FieldId::Named(n1) ==> !(id2 matches FieldId::Named(n2) && n1@ == n2@),
        id1 matches FieldId::Pos(p1) ==> !(id2 matches FieldId::Pos(p2) && p1 == p2),
        id1 is Named <==> id2 is Named,
    ensures
        flag_name_spec(id1) != flag_name_spec(id2),
{
    match (id1, id2) {
        (FieldId::Named(n1), FieldId::Named(n2)) => {
            if flag_name_spec(id1) == flag_name_spec(id2) {
                lemma_append_right_cancel(n1@, n2@, "Init"@);
            }
        },
        (FieldId::Pos(p1), FieldId::Pos(p2)) => {
            if flag_name_spec(id1) == flag_name_spec(id2) {
                assert(("_"@ + dec_spec(p1 as nat)) + "Init"@ == ("_"@ + dec_spec(p2 as nat))
                    + "Init"@) by {
                    assert(("_"@ + dec_spec(p1 as nat)) + "Init"@ =~= "_"@ + dec_spec(p1 as nat)
                        + "Init"@);
                    assert(("_"@ + dec_spec(p2 as nat)) + "Init"@ =~= "_"@ + dec_spec(p2 as nat)
                        + "Init"@);
                }
                lemma_append_right_cancel("_"@ + dec_spec(p1 as nat), "_"@ + dec_spec(p2 as nat), "Init"@);
                lemma_append_left_cancel("_"@, dec_spec(p1 as nat), dec_spec(p2 as nat));
                lemma_dec_injective(p1 as nat, p2 as nat);
            }
        },
        _ => {
        },
    }
}

} // verus!
