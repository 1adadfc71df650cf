//! The record-shape extractor: reads a record declaration and yields the
//! shape the generator works on, rejecting declarations no builder can be
//! generated for (sum types, unions, and declarations without fields).

use vstd::prelude::*;

verus! {

/// The identity of one field: a name, or the position of an unnamed
/// field within its record.
pub enum FieldId {
    Named(String),
    Pos(usize),
}

/// One field of a record declaration: an optional name and the text of
/// the field's type.
pub struct FieldDecl {
    pub name: Option<String>,
    pub ty: String,
}

/// The generic parameters declared on the record, by kind, each as the
/// text of the parameter's name.
pub struct Generics {
    pub lifetimes: Vec<String>,
    pub type_params: Vec<String>,
    pub const_params: Vec<String>,
}

/// What kind of declaration was handed in: a record with fields, a sum
/// type, or a union.
pub enum DeclBody {
    Record(Vec<FieldDecl>),
    Sum,
    Union,
}

/// A parsed type declaration, as handed to the generator.
pub struct Decl {
    pub name: String,
    pub generics: Generics,
    pub body: DeclBody,
}

/// One extracted field: its identity and its type.
pub struct Field {
    pub id: FieldId,
    pub ty: String,
}

/// The shape of a record: its name, its generic parameters and its
/// ordered fields. Unnamed fields are identified by their position,
/// contiguous from 0.
pub struct RecordShape {
    pub name: String,
    pub generics: Generics,
    pub fields: Vec<Field>,
}

/// Why a declaration was rejected.
pub enum ShapeError {
    /// Sum types are not supported.
    Sum,
    /// Unions are not supported.
    Union,
    /// A record with no fields has nothing to build.
    NoFields,
}

/// The identity a field at position `i` of a declaration gets: its name
/// where it has one, its position otherwise.
pub open spec fn field_id_spec(fd: FieldDecl, i: int) -> FieldId {
    match fd.name {
        Option::Some(n) => FieldId::Named(n),
        Option::None => FieldId::Pos(i as usize),
    }
}

impl RecordShape {
    /// The positions recorded in positional field identities agree with
    /// the fields' places in the record.
    pub open spec fn wf(self) -> bool {
        forall|i: int|
            0 <= i < self.fields@.len() ==> match #[trigger] self.fields@[i].id {
                FieldId::Named(_) => true,
                FieldId::Pos(p) => p == i,
            }
    }
}

/// Read a declaration into the shape the generator consumes.
///
/// A record with at least one field is accepted, and its fields keep
/// their order, their types, and their names; a field without a name is
/// identified by its position. Sum types, unions and fieldless records
/// are rejected, each with its own error.
pub fn extract(decl: Decl) -> (r: Result<RecordShape, ShapeError>)
    ensures
        match decl.body {
            DeclBody::Sum => r == Result::<RecordShape, ShapeError>::Err(ShapeError::Sum),
            DeclBody::Union => r == Result::<RecordShape, ShapeError>::Err(ShapeError::Union),
            DeclBody::Record(fds) => if fds@.len() == 0 {
                r == Result::<RecordShape, ShapeError>::Err(ShapeError::NoFields)
            } else {
                &&& r is Ok
                &&& r->Ok_0.name == decl.name
                &&& r->Ok_0.generics == decl.generics
                &&& r->Ok_0.fields@.len() == fds@.len()
                &&& forall|i: int|
                    0 <= i < fds@.len() ==> #[trigger] r->Ok_0.fields@[i].id == field_id_spec(
                        fds@[i],
                        i,
                    ) && r->Ok_0.fields@[i].ty == fds@[i].ty
                &&& r->Ok_0.wf()
            },
        },
{
    let Decl { name, generics, body } = decl;
    match body {
        DeclBody::Sum => Err(ShapeError::Sum),
        DeclBody::Union => Err(ShapeError::Union),
        DeclBody::Record(mut fds) => {
            let n = fds.len();
            if n == 0 {
                return Err(ShapeError::NoFields);
            }
            let ghost fds0 = fds@;
            let mut fields: Vec<Field> = Vec::new();
            let mut i: usize = 0;
            while i < n
                invariant
                    n == fds0.len(),
                    i <= n,
                    fds@ =~= fds0.skip(i as int),
                    fields@.len() == i,
                    forall|j: int|
                        0 <= j < i ==> #[trigger] fields@[j].id == field_id_spec(fds0[j], j)
                            && fields@[j].ty == fds0[j].ty,
                decreases n - i,
            {
                let fd = fds.remove(0);
                proof {
                    assert(fd == fds0[i as int]);
                    assert(fds@ =~= fds0.skip(i + 1));
                }
                let id = match fd.name {
                    Some(nm) => FieldId::Named(nm),
                    None => FieldId::Pos(i),
                };
                fields.push(Field { id, ty: fd.ty });
                i = i + 1;
            }
            Ok(RecordShape { name, generics, fields })
        },
    }
}

} // verus!
