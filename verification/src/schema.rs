use crate::error::ConvertError;
use crate::text::str_eq;
use vstd::prelude::*;

verus! {

/// The numeric kind of one field of a generic point-cloud file.
#[derive(Debug, Clone, Copy, PartialEq, Eq, Structural)]
pub enum FieldKind {
    I8,
    I16,
    I32,
    I64,
    U8,
    U16,
    U32,
    U64,
    F32,
    F64,
}

/// One field of a generic point-cloud file's schema: a name, a numeric
/// kind, and a repetition count.
#[derive(Debug)]
pub struct FieldDef {
    pub name: String,
    pub kind: FieldKind,
    pub count: u64,
}

/// Index `i` holds the first field named `name`.
pub open spec fn is_first_named(fields: Seq<FieldDef>, name: Seq<char>, i: int) -> bool {
    &&& 0 <= i < fields.len()
    &&& fields[i].name@ == name
    &&& forall|j: int| 0 <= j < i ==> (#[trigger] fields[j]).name@ != name
}

/// No field is named `name`.
pub open spec fn no_field_named(fields: Seq<FieldDef>, name: Seq<char>) -> bool {
    forall|j: int| 0 <= j < fields.len() ==> (#[trigger] fields[j]).name@ != name
}

/// Find the first field with the given name.
pub fn find_field(fields: &Vec<FieldDef>, name: &str) -> (r: Option<usize>)
    ensures
        match r {
            Some(i) => is_first_named(fields@, name@, i as int),
            None => no_field_named(fields@, name@),
        },
{
    let n = fields.len();
    let mut i: usize = 0;
    while i < n
        invariant
            i <= n == fields@.len(),
            forall|j: int| 0 <= j < i ==> (#[trigger] fields@[j]).name@ != name@,
        decreases n - i,
    {
        if str_eq(fields[i].name.as_str(), name) {
            return Some(i);
        }
        i = i + 1;
    }
    None
}

/// The indices of the coordinate fields `x`, `y` and `z`, each the first
/// field so named; a missing one is a `MissingField` error.
pub fn xyz_indices(fields: &Vec<FieldDef>) -> (r: Result<(usize, usize, usize), ConvertError>)
    ensures
        match r {
            Ok((x, y, z)) => {
                &&& is_first_named(fields@, "x"@, x as int)
                &&& is_first_named(fields@, "y"@, y as int)
                &&& is_first_named(fields@, "z"@, z as int)
            },
            Err(e) => {
                &&& e == ConvertError::MissingField
                &&& {
                    ||| no_field_named(fields@, "x"@)
                    ||| no_field_named(fields@, "y"@)
                    ||| no_field_named(fields@, "z"@)
                }
            },
        },
        r is Ok <==> !no_field_named(fields@, "x"@) && !no_field_named(fields@, "y"@)
            && !no_field_named(fields@, "z"@),
{
    let x = match find_field(fields, "x") {
        Some(i) => i,
        None => {
            return Err(ConvertError::MissingField);
        },
    };
    let y = match find_field(fields, "y") {
        Some(i) => i,
        None => {
            return Err(ConvertError::MissingField);
        },
    };
    let z = match find_field(fields, "z") {
        Some(i) => i,
        None => {
            return Err(ConvertError::MissingField);
        },
    };
    Ok((x, y, z))
}

/// The index of the `intensity` field, when there is one and it holds a
/// single number; a multi-number intensity field is passed over.
pub fn intensity_index(fields: &Vec<FieldDef>) -> (r: Option<usize>)
    ensures
        match r {
            Some(i) => is_first_named(fields@, "intensity"@, i as int) && fields@[i as int].count
                == 1,
            None => forall|i: int|
                is_first_named(fields@, "intensity"@, i) ==> fields@[i].count != 1,
        },
{
    match find_field(fields, "intensity") {
        Some(i) => {
            if fields[i].count == 1 {
                Some(i)
            } else {
                assert forall|j: int|
                    is_first_named(fields@, "intensity"@, j) implies fields@[j].count != 1 by {
                    assert(j == i);
                }
                None
            }
        },
        None => None,
    }
}

} // verus!
