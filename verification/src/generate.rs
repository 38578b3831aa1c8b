//! The transform itself: from a record declaration to the shape of its
//! companion type, with the derived method names.

use vstd::prelude::*;
use vstd::string::StringExecFns;
use crate::decl::{all_named, FieldDecl, GenError, InputDecl};

verus! {

/// The lowercase form of a sequence of characters, as `str::to_lowercase`
/// computes it.
pub uninterp spec fn lower_of(s: Seq<char>) -> Seq<char>;

/// Relies on `str::to_lowercase`: the lowercase equivalent of the slice,
/// a function of its characters alone; an empty slice stays empty.
#[verifier::external_body]
fn lowercase(s: &str) -> (r: String)
    ensures
        r@ == lower_of(s@),
        s@.len() == 0 ==> r@.len() == 0,
{
    s.to_lowercase()
}

/// One field of the companion type: its name and type, kept from the
/// declaration, and the names of the two derived methods.
#[derive(Debug, PartialEq, Eq)]
pub struct GenField {
    pub name: String,
    pub ty: String,
    pub get_name: String,
    pub set_name: String,
}

/// The companion declaration: its type name and its fields in order.
#[derive(Debug, PartialEq, Eq)]
pub struct Generated {
    pub name: String,
    pub fields: Vec<GenField>,
}

/// The companion type's name: the fixed prefix before the record's name.
pub open spec fn companion_name(name: Seq<char>) -> Seq<char> {
    "Nullable"@ + name
}

/// The presence-checked accessor's name for a field.
pub open spec fn get_name_of(field: Seq<char>) -> Seq<char> {
    "get_"@ + lower_of(field)
}

/// The setter's name for a field.
pub open spec fn set_name_of(field: Seq<char>) -> Seq<char> {
    "set_"@ + lower_of(field)
}

/// The companion field `g` is the one derived from the declared field `f`:
/// same name and type text, and the two method names derived from the
/// lowercase form of the field's name.
pub open spec fn field_generated(f: FieldDecl, g: GenField) -> bool {
    match f.name {
        Some(n) => {
            &&& g.name@ == n@
            &&& g.ty@ == f.ty@
            &&& g.get_name@ == get_name_of(n@)
            &&& g.set_name@ == set_name_of(n@)
        },
        None => false,
    }
}

/// The companion fields are derived one for one, in declaration order.
pub open spec fn fields_generated(fs: Seq<FieldDecl>, gs: Seq<GenField>) -> bool {
    &&& gs.len() == fs.len()
    &&& forall|i: int| 0 <= i < fs.len() ==> field_generated(fs[i], #[trigger] gs[i])
}

/// Derives the companion's fields from the declared ones: each keeps its
/// name and type, and gains the names of its presence-checked accessor and
/// its setter, built from the lowercase form of the field's name. A field
/// without a name is refused.
pub fn generate_setter_and_getter_functions(fields: &Vec<FieldDecl>) -> (r: Result<
    Vec<GenField>,
    GenError,
>)
    ensures
        match r {
            Ok(gs) => all_named(fields@) && fields_generated(fields@, gs@),
            Err(e) => e == GenError::UnnamedField && !all_named(fields@),
        },
{
    let mut out: Vec<GenField> = Vec::new();
    let mut i: usize = 0;
    while i < fields.len()
        invariant
            i <= fields.len(),
            out@.len() == i as int,
            forall|j: int| 0 <= j < i ==> (#[trigger] fields@[j].name) is Some,
            forall|j: int| 0 <= j < i ==> field_generated(fields@[j], #[trigger] out@[j]),
        decreases fields.len() - i,
    {
        match &fields[i].name {
            None => {
                assert(!all_named(fields@));
                return Err(GenError::UnnamedField);
            },
            Some(name) => {
                let lower = lowercase(name.as_str());
                let mut get_name = String::from_str("get_");
                get_name.append(lower.as_str());
                let mut set_name = String::from_str("set_");
                set_name.append(lower.as_str());
                out.push(
                    GenField {
                        name: name.clone(),
                        ty: fields[i].ty.clone(),
                        get_name,
                        set_name,
                    },
                );
            },
        }
        i += 1;
    }
    Ok(out)
}

/// The generator: from a declaration to its companion declaration, or the
/// reason the input is refused. Exactly the plain named-field records are
/// accepted; the companion keeps the fields in declaration order under the
/// prefixed type name.
pub fn nullable(input: &InputDecl) -> (r: Result<Generated, GenError>)
    ensures
        match r {
            Ok(g) => match *input {
                InputDecl::Struct(rec) => {
                    &&& all_named(rec.fields@)
                    &&& g.name@ == companion_name(rec.name@)
                    &&& fields_generated(rec.fields@, g.fields@)
                },
                _ => false,
            },
            Err(e) => match *input {
                InputDecl::Struct(rec) => e == GenError::UnnamedField && !all_named(rec.fields@),
                _ => e == GenError::NotAStruct,
            },
        },
{
    match input {
        InputDecl::Struct(rec) => {
            match generate_setter_and_getter_functions(&rec.fields) {
                Ok(fields) => {
                    let mut name = String::from_str("Nullable");
                    name.append(rec.name.as_str());
                    Ok(Generated { name, fields })
                },
                Err(e) => Err(e),
            }
        },
        InputDecl::Enum => Err(GenError::NotAStruct),
        InputDecl::Union => Err(GenError::NotAStruct),
    }
}

} // verus!
