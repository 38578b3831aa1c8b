//! Rendering: from the companion's shape to the source text of its
//! declaration. The text is pinned exactly, piece by piece, by the spec
//! functions below.

use vstd::prelude::*;
use vstd::string::StringExecFns;
use crate::generate::{GenField, Generated};

verus! {

/// The stored-field line of the companion struct declaration.
pub open spec fn stored_field_text(f: GenField) -> Seq<char> {
    "    "@ + f.name@ + ": std::option::Option<"@ + f.ty@ + ">,\n"@
}

/// One positional parameter of `new`.
pub open spec fn param_text(f: GenField) -> Seq<char> {
    f.name@ + ": "@ + f.ty@ + ", "@
}

/// The `new` initializer of one field: present with the given value.
pub open spec fn value_init_text(f: GenField) -> Seq<char> {
    "            "@ + f.name@ + ": Some("@ + f.name@ + "),\n"@
}

/// The `new_default` initializer of one field: present with the field
/// type's default value.
pub open spec fn default_init_text(f: GenField) -> Seq<char> {
    "            "@ + f.name@ + ": Some("@ + f.ty@ + "::default()),\n"@
}

/// The `default` initializer of one field: absent.
pub open spec fn absent_init_text(f: GenField) -> Seq<char> {
    "            "@ + f.name@ + ": None,\n"@
}

/// The three methods of one field: the value accessor, the
/// presence-checked accessor and the setter.
pub open spec fn methods_text(f: GenField) -> Seq<char> {
    "    pub fn "@ + f.name@ + "(&self) -> "@ + f.ty@ + " {\n        self."@ + f.name@
        + ".clone().unwrap_or_default()\n    }\n\n    pub fn "@ + f.get_name@ + "(&self) -> Option<&"@
        + f.ty@ + "> {\n        self."@ + f.name@ + ".as_ref()\n    }\n\n    pub fn "@ + f.set_name@
        + "(&mut self, value: "@ + f.ty@ + ") {\n        self."@ + f.name@
        + " = Some(value)\n    }\n\n"@
}

/// The pieces of the first `n` fields, concatenated in declaration order.
pub open spec fn concat_upto(
    fields: Seq<GenField>,
    n: int,
    piece: spec_fn(GenField) -> Seq<char>,
) -> Seq<char>
    decreases n,
{
    if n <= 0 {
        Seq::empty()
    } else {
        concat_upto(fields, n - 1, piece) + piece(fields[n - 1])
    }
}

/// The stored-field piece, as a function value.
pub open spec fn stored_field_piece() -> spec_fn(GenField) -> Seq<char> {
    |f: GenField| stored_field_text(f)
}

/// The parameter piece, as a function value.
pub open spec fn param_piece() -> spec_fn(GenField) -> Seq<char> {
    |f: GenField| param_text(f)
}

/// The `new` initializer piece, as a function value.
pub open spec fn value_init_piece() -> spec_fn(GenField) -> Seq<char> {
    |f: GenField| value_init_text(f)
}

/// The `new_default` initializer piece, as a function value.
pub open spec fn default_init_piece() -> spec_fn(GenField) -> Seq<char> {
    |f: GenField| default_init_text(f)
}

/// The `default` initializer piece, as a function value.
pub open spec fn absent_init_piece() -> spec_fn(GenField) -> Seq<char> {
    |f: GenField| absent_init_text(f)
}

/// The per-field methods piece, as a function value.
pub open spec fn methods_piece() -> spec_fn(GenField) -> Seq<char> {
    |f: GenField| methods_text(f)
}

/// The companion struct declaration.
pub open spec fn struct_text(g: Generated) -> Seq<char> {
    "pub struct "@ + g.name@ + " {\n"@ + concat_upto(
        g.fields@,
        g.fields@.len() as int,
        stored_field_piece(),
    ) + "}\n"@
}

/// The `new` constructor: one positional parameter per field in
/// declaration order, every field initialized present.
pub open spec fn new_text(g: Generated) -> Seq<char> {
    "    pub fn new("@ + concat_upto(g.fields@, g.fields@.len() as int, param_piece())
        + ") -> Self {\n        Self {\n"@ + concat_upto(
        g.fields@,
        g.fields@.len() as int,
        value_init_piece(),
    ) + "        }\n    }\n\n"@
}

/// The `new_default` constructor: every field initialized present with its
/// type's default value.
pub open spec fn new_default_text(g: Generated) -> Seq<char> {
    "    pub fn new_default() -> Self {\n        Self {\n"@ + concat_upto(
        g.fields@,
        g.fields@.len() as int,
        default_init_piece(),
    ) + "        }\n    }\n\n"@
}

/// The companion's inherent impl: the two constructors, then the three
/// methods of each field.
pub open spec fn impl_text(g: Generated) -> Seq<char> {
    "impl "@ + g.name@ + " {\n"@ + new_text(g) + new_default_text(g) + concat_upto(
        g.fields@,
        g.fields@.len() as int,
        methods_piece(),
    ) + "}\n"@
}

/// The companion's `Default` impl: every field initialized absent.
pub open spec fn default_impl_text(g: Generated) -> Seq<char> {
    "impl Default for "@ + g.name@
        + " {\n    fn default() -> Self {\n        Self {\n"@ + concat_upto(
        g.fields@,
        g.fields@.len() as int,
        absent_init_piece(),
    ) + "        }\n    }\n}\n"@
}

/// The whole emitted declaration.
pub open spec fn render_text(g: Generated) -> Seq<char> {
    struct_text(g) + "\n"@ + impl_text(g) + "\n"@ + default_impl_text(g)
}

fn stored_field_line(f: &GenField) -> (r: String)
    ensures
        r@ == stored_field_text(*f),
{
    let mut out = String::from_str("    ");
    out.append(f.name.as_str());
    out.append(": std::option::Option<");
    out.append(f.ty.as_str());
    out.append(">,\n");
    proof {
        assert(out@ =~= stored_field_text(*f));
    }
    out
}

fn param_line(f: &GenField) -> (r: String)
    ensures
        r@ == param_text(*f),
{
    let mut out = String::new();
    out.append(f.name.as_str());
    out.append(": ");
    out.append(f.ty.as_str());
    out.append(", ");
    proof {
        assert(out@ =~= param_text(*f));
    }
    out
}

fn value_init_line(f: &GenField) -> (r: String)
    ensures
        r@ == value_init_text(*f),
{
    let mut out = String::from_str("            ");
    out.append(f.name.as_str());
    out.append(": Some(");
    out.append(f.name.as_str());
    out.append("),\n");
    proof {
        assert(out@ =~= value_init_text(*f));
    }
    out
}

fn default_init_line(f: &GenField) -> (r: String)
    ensures
        r@ == default_init_text(*f),
{
    let mut out = String::from_str("            ");
    out.append(f.name.as_str());
    out.append(": Some(");
    out.append(f.ty.as_str());
    out.append("::default()),\n");
    proof {
        assert(out@ =~= default_init_text(*f));
    }
    out
}

fn absent_init_line(f: &GenField) -> (r: String)
    ensures
        r@ == absent_init_text(*f),
{
    let mut out = String::from_str("            ");
    out.append(f.name.as_str());
    out.append(": None,\n");
    proof {
        assert(out@ =~= absent_init_text(*f));
    }
    out
}

fn methods_block(f: &GenField) -> (r: String)
    ensures
        r@ == methods_text(*f),
{
    let mut out = String::from_str("    pub fn ");
    out.append(f.name.as_str());
    out.append("(&self) -> ");
    out.append(f.ty.as_str());
    out.append(" {\n        self.");
    out.append(f.name.as_str());
    out.append(".clone().unwrap_or_default()\n    }\n\n    pub fn ");
    out.append(f.get_name.as_str());
    out.append("(&self) -> Option<&");
    out.append(f.ty.as_str());
    out.append("> {\n        self.");
    out.append(f.name.as_str());
    out.append(".as_ref()\n    }\n\n    pub fn ");
    out.append(f.set_name.as_str());
    out.append("(&mut self, value: ");
    out.append(f.ty.as_str());
    out.append(") {\n        self.");
    out.append(f.name.as_str());
    out.append(" = Some(value)\n    }\n\n");
    proof {
        assert(out@ =~= methods_text(*f));
    }
    out
}

fn stored_field_lines(fields: &Vec<GenField>) -> (r: String)
    ensures
        r@ == concat_upto(fields@, fields@.len() as int, stored_field_piece()),
{
    let mut out = String::new();
    let mut i: usize = 0;
    while i < fields.len()
        invariant
            i <= fields.len(),
            out@ == concat_upto(fields@, i as int, stored_field_piece()),
        decreases fields.len() - i,
    {
        let line = stored_field_line(&fields[i]);
        out.append(line.as_str());
        i += 1;
    }
    out
}

fn param_lines(fields: &Vec<GenField>) -> (r: String)
    ensures
        r@ == concat_upto(fields@, fields@.len() as int, param_piece()),
{
    let mut out = String::new();
    let mut i: usize = 0;
    while i < fields.len()
        invariant
            i <= fields.len(),
            out@ == concat_upto(fields@, i as int, param_piece()),
        decreases fields.len() - i,
    {
        let line = param_line(&fields[i]);
        out.append(line.as_str());
        i += 1;
    }
    out
}

fn value_init_lines(fields: &Vec<GenField>) -> (r: String)
    ensures
        r@ == concat_upto(fields@, fields@.len() as int, value_init_piece()),
{
    let mut out = String::new();
    let mut i: usize = 0;
    while i < fields.len()
        invariant
            i <= fields.len(),
            out@ == concat_upto(fields@, i as int, value_init_piece()),
        decreases fields.len() - i,
    {
        let line = value_init_line(&fields[i]);
        out.append(line.as_str());
        i += 1;
    }
    out
}

fn default_init_lines(fields: &Vec<GenField>) -> (r: String)
    ensures
        r@ == concat_upto(fields@, fields@.len() as int, default_init_piece()),
{
    let mut out = String::new();
    let mut i: usize = 0;
    while i < fields.len()
        invariant
            i <= fields.len(),
            out@ == concat_upto(fields@, i as int, default_init_piece()),
        decreases fields.len() - i,
    {
        let line = default_init_line(&fields[i]);
        out.append(line.as_str());
        i += 1;
    }
    out
}

fn absent_init_lines(fields: &Vec<GenField>) -> (r: String)
    ensures
        r@ == concat_upto(fields@, fields@.len() as int, absent_init_piece()),
{
    let mut out = String::new();
    let mut i: usize = 0;
    while i < fields.len()
        invariant
            i <= fields.len(),
            out@ == concat_upto(fields@, i as int, absent_init_piece()),
        decreases fields.len() - i,
    {
        let line = absent_init_line(&fields[i]);
        out.append(line.as_str());
        i += 1;
    }
    out
}

fn methods_blocks(fields: &Vec<GenField>) -> (r: String)
    ensures
        r@ == concat_upto(fields@, fields@.len() as int, methods_piece()),
{
    let mut out = String::new();
    let mut i: usize = 0;
    while i < fields.len()
        invariant
            i <= fields.len(),
            out@ == concat_upto(fields@, i as int, methods_piece()),
        decreases fields.len() - i,
    {
        let block = methods_block(&fields[i]);
        out.append(block.as_str());
        i += 1;
    }
    out
}

fn struct_section(g: &Generated) -> (r: String)
    ensures
        r@ == struct_text(*g),
{
    let mut out = String::from_str("pub struct ");
    out.append(g.name.as_str());
    out.append(" {\n");
    let body = stored_field_lines(&g.fields);
    out.append(body.as_str());
    out.append("}\n");
    proof {
        assert(out@ =~= struct_text(*g));
    }
    out
}

fn new_section(g: &Generated) -> (r: String)
    ensures
        r@ == new_text(*g),
{
    let mut out = String::from_str("    pub fn new(");
    let params = param_lines(&g.fields);
    out.append(params.as_str());
    out.append(") -> Self {\n        Self {\n");
    let inits = value_init_lines(&g.fields);
    out.append(inits.as_str());
    out.append("        }\n    }\n\n");
    proof {
        assert(out@ =~= new_text(*g));
    }
    out
}

fn new_default_section(g: &Generated) -> (r: String)
    ensures
        r@ == new_default_text(*g),
{
    let mut out = String::from_str("    pub fn new_default() -> Self {\n        Self {\n");
    let inits = default_init_lines(&g.fields);
    out.append(inits.as_str());
    out.append("        }\n    }\n\n");
    proof {
        assert(out@ =~= new_default_text(*g));
    }
    out
}

fn impl_section(g: &Generated) -> (r: String)
    ensures
        r@ == impl_text(*g),
{
    let mut out = String::from_str("impl ");
    out.append(g.name.as_str());
    out.append(" {\n");
    let ctor = new_section(g);
    out.append(ctor.as_str());
    let ctor_default = new_default_section(g);
    out.append(ctor_default.as_str());
    let methods = methods_blocks(&g.fields);
    out.append(methods.as_str());
    out.append("}\n");
    proof {
        assert(out@ =~= impl_text(*g));
    }
    out
}

fn default_impl_section(g: &Generated) -> (r: String)
    ensures
        r@ == default_impl_text(*g),
{
    let mut out = String::from_str("impl Default for ");
    out.append(g.name.as_str());
    out.append(" {\n    fn default() -> Self {\n        Self {\n");
    let inits = absent_init_lines(&g.fields);
    out.append(inits.as_str());
    out.append("        }\n    }\n}\n");
    proof {
        assert(out@ =~= default_impl_text(*g));
    }
    out
}

/// The source text of the whole emitted declaration: the companion struct,
/// its inherent impl, and its `Default` impl.
pub fn render(g: &Generated) -> (r: String)
    ensures
        r@ == render_text(*g),
{
    let mut out = struct_section(g);
    out.append("\n");
    let inherent = impl_section(g);
    out.append(inherent.as_str());
    out.append("\n");
    let default_part = default_impl_section(g);
    out.append(default_part.as_str());
    proof {
        assert(out@ =~= render_text(*g));
    }
    out
}

} // verus!
