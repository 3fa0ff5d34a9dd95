//! Names of Rust types in GLSL, and GLSL declarations of structs shared with
//! the shaders.

use vstd::prelude::*;

verus! {

/// A type with a name in GLSL.
pub trait Glsl {
    const NAME: &'static str;
}

/// One field of a struct shared with the shaders.
pub struct GlslField {
    pub name: &'static str,
    pub ty: &'static str,
}

/// One line of a GLSL struct declaration: the field's type and name.
pub open spec fn field_line(field: GlslField) -> Seq<char> {
    "  "@ + field.ty@ + " "@ + field.name@ + ";\n"@
}

/// The lines of all `fields`, in order.
pub open spec fn fields_text(fields: Seq<GlslField>) -> Seq<char>
    decreases fields.len(),
{
    if fields.len() == 0 {
        Seq::empty()
    } else {
        fields_text(fields.drop_last()) + field_line(fields.last())
    }
}

/// The GLSL declaration of a struct called `name` with `fields`.
pub open spec fn struct_definition(name: Seq<char>, fields: Seq<GlslField>) -> Seq<char> {
    "struct "@ + name + " {\n"@ + fields_text(fields) + "};\n"@
}

/// A struct whose fields all have GLSL names, so that the shaders can declare
/// it too.
pub trait GlslStruct: Glsl {
    const FIELDS: &'static [GlslField];

    /// The struct's GLSL declaration: its name, then one line per field with
    /// its type and name.
    fn glsl_struct_definition() -> (def: String)
        ensures
            def@ == struct_definition(Self::NAME@, Self::FIELDS@),
    {
        let mut def = String::from_str("struct ");
        def.append(Self::NAME);
        def.append(" {\n");
        let fields = Self::FIELDS;
        let n = fields.len();
        for i in 0..n
            invariant
                n == fields@.len(),
                fields == Self::FIELDS,
                def@ == "struct "@ + Self::NAME@ + " {\n"@ + fields_text(fields@.take(i as int)),
        {
            let field = &fields[i];
            def.append("  ");
            def.append(field.ty);
            def.append(" ");
            def.append(field.name);
            def.append(";\n");
            proof {
                assert(fields@.take(i + 1).drop_last() =~= fields@.take(i as int));
            }
        }
        def.append("};\n");
        proof {
            assert(fields@.take(n as int) =~= fields@);
        }
        def
    }
}

impl Glsl for i32 {
    const NAME: &'static str = "int";
}

impl Glsl for u32 {
    const NAME: &'static str = "uint";
}

impl Glsl for i64 {
    const NAME: &'static str = "int64_t";
}

impl Glsl for u64 {
    const NAME: &'static str = "uint64_t";
}

} // verus!
