//! Markdown rendering of the declarative type schema, for the generated API
//! documentation.
//!
//! A [`TypeDefinition`] tree is written as TypeScript-flavoured markdown
//! text. Unions and objects whose single-line rendering would run long are
//! broken over several lines, indented two spaces per nesting level. The
//! generator accumulates UTF-8 bytes; the exact text produced is given by
//! [`md_def`] and its helpers.

use vstd::prelude::*;
use vstd::string::StringSliceAdditionalSpecFns;
use vstd::utf8::encode_utf8;

verus! {

/// One kind of schema type: a primitive, a reference to a named type, or a
/// composite built from further definitions.
#[derive(Debug)]
pub enum Kind {
    Null,
    I32,
    F32,
    F64,
    U32,
    U16,
    U8,
    Bool,
    Ref(String),
    String { specific_value: Option<String> },
    Tuple(Vec<TypeDefinition>),
    Union(Vec<TypeDefinition>),
    Array { array_type: Box<TypeDefinition> },
    Object { fields: Vec<(String, TypeDefinition)> },
    StringMap { value_type: Box<TypeDefinition> },
}

/// One schema type: an optional name, whether a field of this type may be
/// omitted, and the kind itself.
#[derive(Debug)]
pub struct TypeDefinition {
    pub name: Option<String>,
    pub is_optional: bool,
    pub kind: Kind,
}

/// `n` spaces.
pub open spec fn spaces(n: nat) -> Seq<u8> {
    Seq::new(n, |i: int| 32u8)
}

/// A line break followed by the indentation of level `ind`: a newline byte
/// and two spaces per level.
pub open spec fn nl(ind: nat) -> Seq<u8> {
    seq![10u8] + spaces(2 * ind)
}

/// Nesting height of a definition: how deep composite kinds are stacked.
/// Bounds the indentation a rendering can reach.
pub open spec fn td_height(def: TypeDefinition) -> nat
    decreases def, 1nat,
{
    1 + match def.kind {
        Kind::Tuple(types) => tdl_height(types@),
        Kind::Union(variants) => tdl_height(variants@),
        Kind::Object { fields } => fields_height(fields@),
        Kind::Array { array_type } => td_height(*array_type),
        Kind::StringMap { value_type } => td_height(*value_type),
        _ => 0,
    }
}

/// Greatest nesting height among a list of definitions.
pub open spec fn tdl_height(l: Seq<TypeDefinition>) -> nat
    decreases l, 0nat,
{
    if l.len() == 0 {
        0
    } else if td_height(l.last()) > tdl_height(l.drop_last()) {
        td_height(l.last())
    } else {
        tdl_height(l.drop_last())
    }
}

/// Greatest nesting height among an object's field types.
pub open spec fn fields_height(l: Seq<(String, TypeDefinition)>) -> nat
    decreases l, 0nat,
{
    if l.len() == 0 {
        0
    } else if td_height(l.last().1) > fields_height(l.drop_last()) {
        td_height(l.last().1)
    } else {
        fields_height(l.drop_last())
    }
}

/// Every list element's height is bounded by the list's height.
pub proof fn lemma_tdl_height_bound(l: Seq<TypeDefinition>, i: int)
    requires
        0 <= i < l.len(),
    ensures
        td_height(l[i]) <= tdl_height(l),
    decreases l.len(),
{
    if i == l.len() - 1 {
    } else {
        lemma_tdl_height_bound(l.drop_last(), i);
        assert(l.drop_last()[i] == l[i]);
    }
}

/// Every field type's height is bounded by the field list's height.
pub proof fn lemma_fields_height_bound(l: Seq<(String, TypeDefinition)>, i: int)
    requires
        0 <= i < l.len(),
    ensures
        td_height(l[i].1) <= fields_height(l),
    decreases l.len(),
{
    if i == l.len() - 1 {
    } else {
        lemma_fields_height_bound(l.drop_last(), i);
        assert(l.drop_last()[i] == l[i]);
    }
}

/// Text of a string kind: its specific value if the schema pins one, the
/// word "string" otherwise.
pub open spec fn md_string_value(specific_value: Option<String>) -> Seq<u8> {
    match specific_value {
        Some(value) => encode_utf8(value@),
        None => encode_utf8("string"@),
    }
}

/// Text of one field's name: the name, then "?: " for an optional field and
/// ": " otherwise.
pub open spec fn md_field_name(name: Seq<char>, is_optional: bool) -> Seq<u8> {
    encode_utf8(name) + if is_optional {
        encode_utf8("?: "@)
    } else {
        encode_utf8(": "@)
    }
}

/// Text of a whole definition rendered at indentation level `ind`.
pub open spec fn md_def(def: TypeDefinition, ind: nat) -> Seq<u8>
    decreases def, 2nat,
{
    match def.kind {
        Kind::Null => encode_utf8("null"@),
        Kind::I32 => encode_utf8("i32"@),
        Kind::F32 => encode_utf8("f32"@),
        Kind::F64 => encode_utf8("f64"@),
        Kind::U32 => encode_utf8("u32"@),
        Kind::U16 => encode_utf8("u16"@),
        Kind::U8 => encode_utf8("u8"@),
        Kind::Bool => encode_utf8("bool"@),
        Kind::Ref(reference) => encode_utf8(reference@),
        Kind::String { specific_value } => md_string_value(specific_value),
        Kind::Tuple(types) => encode_utf8("["@) + md_tuple_items(types@, ind) + encode_utf8("]"@),
        Kind::Union(variants) => md_union(variants@, ind),
        Kind::Array { array_type } => md_def(*array_type, ind) + encode_utf8("[]"@),
        Kind::Object { fields } => md_object(fields@, ind),
        Kind::StringMap { value_type } => encode_utf8("Map<string, "@) + md_def(*value_type, ind)
            + encode_utf8(">"@),
    }
}

/// Tuple members joined with ", ".
pub open spec fn md_tuple_items(types: Seq<TypeDefinition>, ind: nat) -> Seq<u8>
    decreases types, 0nat,
{
    if types.len() == 0 {
        Seq::empty()
    } else if types.len() == 1 {
        md_def(types[0], ind)
    } else {
        md_tuple_items(types.drop_last(), ind) + encode_utf8(", "@) + md_def(types.last(), ind)
    }
}

/// A union: single-line when that rendering stays within 60 bytes,
/// multi-line otherwise.
pub open spec fn md_union(variants: Seq<TypeDefinition>, ind: nat) -> Seq<u8>
    decreases variants, 1nat,
{
    if md_sl_union(variants, ind).len() > 60 {
        md_ml_union(variants, ind)
    } else {
        md_sl_union(variants, ind)
    }
}

/// Union variants joined with " | " on one line.
pub open spec fn md_sl_union(variants: Seq<TypeDefinition>, ind: nat) -> Seq<u8>
    decreases variants, 0nat,
{
    if variants.len() == 0 {
        Seq::empty()
    } else if variants.len() == 1 {
        md_def(variants[0], ind)
    } else {
        md_sl_union(variants.drop_last(), ind) + encode_utf8(" | "@) + md_def(
            variants.last(),
            ind,
        )
    }
}

/// Union variants one per line, each behind "| ", indented one level deeper
/// and rendered two levels deeper.
pub open spec fn md_ml_union(variants: Seq<TypeDefinition>, ind: nat) -> Seq<u8>
    decreases variants, 0nat,
{
    if variants.len() == 0 {
        Seq::empty()
    } else {
        md_ml_union(variants.drop_last(), ind) + nl(ind + 1) + encode_utf8("| "@) + md_def(
            variants.last(),
            ind + 2,
        )
    }
}

/// An object: single-line when that rendering stays within 50 bytes,
/// multi-line otherwise.
pub open spec fn md_object(fields: Seq<(String, TypeDefinition)>, ind: nat) -> Seq<u8>
    decreases fields, 2nat,
{
    if md_sl_object(fields, ind).len() > 50 {
        md_ml_object(fields, ind)
    } else {
        md_sl_object(fields, ind)
    }
}

/// Fields of a single-line object: each as "name: type; " between braces.
pub open spec fn md_sl_object_fields(fields: Seq<(String, TypeDefinition)>, ind: nat) -> Seq<u8>
    decreases fields, 0nat,
{
    if fields.len() == 0 {
        Seq::empty()
    } else {
        md_sl_object_fields(fields.drop_last(), ind) + md_field_name(
            fields.last().0@,
            fields.last().1.is_optional,
        ) + md_def(fields.last().1, ind) + encode_utf8("; "@)
    }
}

/// A single-line object.
pub open spec fn md_sl_object(fields: Seq<(String, TypeDefinition)>, ind: nat) -> Seq<u8>
    decreases fields, 1nat,
{
    encode_utf8("{ "@) + md_sl_object_fields(fields, ind) + encode_utf8("}"@)
}

/// Fields of a multi-line object: each as "name: type;" on its own line,
/// one level deeper.
pub open spec fn md_ml_object_fields(fields: Seq<(String, TypeDefinition)>, ind: nat) -> Seq<u8>
    decreases fields, 0nat,
{
    if fields.len() == 0 {
        Seq::empty()
    } else {
        md_ml_object_fields(fields.drop_last(), ind) + nl(ind + 1) + md_field_name(
            fields.last().0@,
            fields.last().1.is_optional,
        ) + md_def(fields.last().1, ind + 1) + encode_utf8(";"@)
    }
}

/// A multi-line object: the fields between braces, the closing brace back on
/// the object's own indentation level.
pub open spec fn md_ml_object(fields: Seq<(String, TypeDefinition)>, ind: nat) -> Seq<u8>
    decreases fields, 1nat,
{
    encode_utf8("{"@) + md_ml_object_fields(fields, ind) + nl(ind) + encode_utf8("}"@)
}

/// Writes schema type definitions as markdown text, tracking the current
/// indentation level. The output is accumulated as UTF-8 bytes.
pub struct MarkdownGenerator {
    pub output: Vec<u8>,
    pub indent: usize,
}

impl MarkdownGenerator {
    /// A generator with empty output at indentation level zero.
    pub fn new() -> (r: MarkdownGenerator)
        ensures
            r.output@ == Seq::<u8>::empty(),
            r.indent == 0,
    {
        MarkdownGenerator { output: Vec::new(), indent: 0 }
    }

    /// Append `s` verbatim.
    fn add_text(&mut self, s: &str)
        ensures
            final(self).output@ == old(self).output@ + encode_utf8(s@),
            final(self).indent == old(self).indent,
    {
        let bytes = s.as_bytes();
        let mut i: usize = 0;
        while i < bytes.len()
            invariant
                0 <= i <= bytes@.len(),
                bytes@ == s.spec_bytes(),
                self.indent == old(self).indent,
                self.output@ == old(self).output@ + s.spec_bytes().subrange(0, i as int),
            decreases bytes@.len() - i,
        {
            self.output.push(bytes[i]);
            proof {
                assert(s.spec_bytes().subrange(0, i + 1) =~= s.spec_bytes().subrange(0, i as int)
                    + seq![s.spec_bytes()[i as int]]);
            }
            i = i + 1;
        }
        proof {
            assert(s.spec_bytes().subrange(0, i as int) =~= s.spec_bytes());
        }
    }

    /// Break the line and indent it: a newline, then two spaces per current
    /// indentation level.
    fn new_line(&mut self)
        ensures
            final(self).output@ == old(self).output@ + nl(old(self).indent as nat),
            final(self).indent == old(self).indent,
    {
        self.output.push(10u8);
        let mut j: usize = 0;
        while j < self.indent
            invariant
                0 <= j <= self.indent,
                self.indent == old(self).indent,
                self.output@ == old(self).output@ + seq![10u8] + spaces(2 * j as nat),
            decreases self.indent - j,
        {
            self.output.push(32u8);
            self.output.push(32u8);
            proof {
                assert(spaces(2 * (j + 1) as nat) =~= spaces(2 * j as nat) + seq![32u8, 32u8]);
            }
            j = j + 1;
        }
        proof {
            assert(old(self).output@ + seq![10u8] + spaces(2 * old(self).indent as nat) =~= old(
                self,
            ).output@ + nl(old(self).indent as nat));
        }
    }

    /// One level deeper.
    fn inc_indent(&mut self)
        requires
            old(self).indent < usize::MAX,
        ensures
            final(self).indent == old(self).indent + 1,
            final(self).output@ == old(self).output@,
    {
        self.indent = self.indent + 1;
    }

    /// One level back.
    fn dec_indent(&mut self)
        requires
            old(self).indent >= 1,
        ensures
            final(self).indent == old(self).indent - 1,
            final(self).output@ == old(self).output@,
    {
        self.indent = self.indent - 1;
    }

    /// Write one definition at the current indentation level.
    pub fn write_type_definition(&mut self, def: &TypeDefinition)
        requires
            old(self).indent + 2 * td_height(*def) <= usize::MAX,
        ensures
            final(self).output@ == old(self).output@ + md_def(*def, old(self).indent as nat),
            final(self).indent == old(self).indent,
        decreases *def, 2nat,
    {
        match &def.kind {
            Kind::Null => self.add_text("null"),
            Kind::I32 => self.add_text("i32"),
            Kind::F32 => self.add_text("f32"),
            Kind::F64 => self.add_text("f64"),
            Kind::U32 => self.add_text("u32"),
            Kind::U16 => self.add_text("u16"),
            Kind::U8 => self.add_text("u8"),
            Kind::Bool => self.add_text("bool"),
            Kind::Ref(reference) => self.add_text(reference.as_str()),
            Kind::String { specific_value } => self.write_string(specific_value),
            Kind::Tuple(types) => self.write_tuple(types),
            Kind::Union(variants) => self.write_union(variants),
            Kind::Array { array_type } => self.write_array(array_type),
            Kind::Object { fields } => self.write_object(fields),
            Kind::StringMap { value_type } => self.write_map(value_type),
        }
    }

    /// Write a string kind: its pinned value, or the word "string".
    pub fn write_string(&mut self, specific_value: &Option<String>)
        ensures
            final(self).output@ == old(self).output@ + md_string_value(*specific_value),
            final(self).indent == old(self).indent,
    {
        match specific_value {
            Some(value) => self.add_text(value.as_str()),
            None => self.add_text("string"),
        }
    }

    /// Write a tuple: its members joined with ", " between brackets.
    pub fn write_tuple(&mut self, types: &Vec<TypeDefinition>)
        requires
            old(self).indent + 2 * tdl_height(types@) <= usize::MAX,
        ensures
            final(self).output@ == old(self).output@ + encode_utf8("["@) + md_tuple_items(
                types@,
                old(self).indent as nat,
            ) + encode_utf8("]"@),
            final(self).indent == old(self).indent,
        decreases types@, 0nat,
    {
        self.add_text("[");
        let ghost mid = self.output@;
        let mut i: usize = 0;
        while i < types.len()
            invariant
                0 <= i <= types@.len(),
                self.indent == old(self).indent,
                self.indent + 2 * tdl_height(types@) <= usize::MAX,
                self.output@ == mid + md_tuple_items(
                    types@.subrange(0, i as int),
                    self.indent as nat,
                ),
            decreases types@.len() - i,
        {
            if i > 0 {
                self.add_text(", ");
            }
            proof {
                lemma_tdl_height_bound(types@, i as int);
            }
            self.write_type_definition(&types[i]);
            proof {
                lemma_join_step_tuple(types@, i as int, self.indent as nat);
            }
            i = i + 1;
        }
        self.add_text("]");
        proof {
            assert(types@.subrange(0, types@.len() as int) =~= types@);
        }
    }

    /// Write a union: on one line when that stays within 60 bytes, otherwise
    /// one variant per line.
    pub fn write_union(&mut self, variants: &Vec<TypeDefinition>)
        requires
            old(self).indent + 2 + 2 * tdl_height(variants@) <= usize::MAX,
        ensures
            final(self).output@ == old(self).output@ + md_union(variants@, old(self).indent as nat),
            final(self).indent == old(self).indent,
        decreases variants@, 1nat,
    {
        let line_length = {
            let mut probe = MarkdownGenerator { output: Vec::new(), indent: self.indent };
            probe.write_single_line_union(variants);
            probe.output.len()
        };

        if line_length > 60 {
            self.write_multi_line_union(variants);
        } else {
            self.write_single_line_union(variants);
        }
    }

    /// Write a union's variants joined with " | " on one line.
    pub fn write_single_line_union(&mut self, variants: &Vec<TypeDefinition>)
        requires
            old(self).indent + 2 * tdl_height(variants@) <= usize::MAX,
        ensures
            final(self).output@ == old(self).output@ + md_sl_union(
                variants@,
                old(self).indent as nat,
            ),
            final(self).indent == old(self).indent,
        decreases variants@, 0nat,
    {
        let mut i: usize = 0;
        while i < variants.len()
            invariant
                0 <= i <= variants@.len(),
                self.indent == old(self).indent,
                self.indent + 2 * tdl_height(variants@) <= usize::MAX,
                self.output@ == old(self).output@ + md_sl_union(
                    variants@.subrange(0, i as int),
                    self.indent as nat,
                ),
            decreases variants@.len() - i,
        {
            if i > 0 {
                self.add_text(" | ");
            }
            proof {
                lemma_tdl_height_bound(variants@, i as int);
            }
            self.write_type_definition(&variants[i]);
            proof {
                lemma_join_step_sl_union(variants@, i as int, self.indent as nat);
            }
            i = i + 1;
        }
        proof {
            assert(variants@.subrange(0, variants@.len() as int) =~= variants@);
        }
    }

    /// Write a union's variants one per line, each behind "| ", one level
    /// deeper; each variant's own rendering is two levels deeper.
    pub fn write_multi_line_union(&mut self, variants: &Vec<TypeDefinition>)
        requires
            old(self).indent + 2 + 2 * tdl_height(variants@) <= usize::MAX,
        ensures
            final(self).output@ == old(self).output@ + md_ml_union(
                variants@,
                old(self).indent as nat,
            ),
            final(self).indent == old(self).indent,
        decreases variants@, 0nat,
    {
        self.inc_indent();
        let mut i: usize = 0;
        while i < variants.len()
            invariant
                0 <= i <= variants@.len(),
                self.indent == old(self).indent + 1,
                self.indent + 1 + 2 * tdl_height(variants@) <= usize::MAX,
                self.output@ == old(self).output@ + md_ml_union(
                    variants@.subrange(0, i as int),
                    old(self).indent as nat,
                ),
            decreases variants@.len() - i,
        {
            self.new_line();
            self.add_text("| ");
            self.inc_indent();
            proof {
                lemma_tdl_height_bound(variants@, i as int);
            }
            self.write_type_definition(&variants[i]);
            self.dec_indent();
            proof {
                lemma_join_step_ml_union(variants@, i as int, old(self).indent as nat);
            }
            i = i + 1;
        }
        self.dec_indent();
        proof {
            assert(variants@.subrange(0, variants@.len() as int) =~= variants@);
        }
    }

    /// Write an array kind: the element type followed by "[]".
    pub fn write_array(&mut self, array_type: &TypeDefinition)
        requires
            old(self).indent + 2 * td_height(*array_type) <= usize::MAX,
        ensures
            final(self).output@ == old(self).output@ + md_def(*array_type, old(self).indent as nat)
                + encode_utf8("[]"@),
            final(self).indent == old(self).indent,
        decreases *array_type, 3nat,
    {
        self.write_type_definition(array_type);
        self.add_text("[]");
    }

    /// Write an object: on one line when that stays within 50 bytes,
    /// otherwise one field per line.
    pub fn write_object(&mut self, fields: &Vec<(String, TypeDefinition)>)
        requires
            old(self).indent + 2 + 2 * fields_height(fields@) <= usize::MAX,
        ensures
            final(self).output@ == old(self).output@ + md_object(
                fields@,
                old(self).indent as nat,
            ),
            final(self).indent == old(self).indent,
        decreases fields@, 1nat,
    {
        let line_length = {
            let mut probe = MarkdownGenerator { output: Vec::new(), indent: self.indent };
            probe.write_single_line_object(fields);
            probe.output.len()
        };

        if line_length > 50 {
            self.write_multi_line_object(fields);
        } else {
            self.write_single_line_object(fields);
        }
    }

    /// Write an object's fields as "name: type; " between braces, on one
    /// line.
    pub fn write_single_line_object(&mut self, fields: &Vec<(String, TypeDefinition)>)
        requires
            old(self).indent + 2 * fields_height(fields@) <= usize::MAX,
        ensures
            final(self).output@ == old(self).output@ + md_sl_object(
                fields@,
                old(self).indent as nat,
            ),
            final(self).indent == old(self).indent,
        decreases fields@, 0nat,
    {
        self.add_text("{ ");
        let ghost mid = self.output@;
        let mut i: usize = 0;
        while i < fields.len()
            invariant
                0 <= i <= fields@.len(),
                self.indent == old(self).indent,
                self.indent + 2 * fields_height(fields@) <= usize::MAX,
                self.output@ == mid + md_sl_object_fields(
                    fields@.subrange(0, i as int),
                    self.indent as nat,
                ),
            decreases fields@.len() - i,
        {
            let field = &fields[i];
            self.write_field_name(field.0.as_str(), field.1.is_optional);
            proof {
                lemma_fields_height_bound(fields@, i as int);
            }
            self.write_type_definition(&field.1);
            self.add_text("; ");
            proof {
                lemma_join_step_sl_object(fields@, i as int, self.indent as nat);
            }
            i = i + 1;
        }
        self.add_text("}");
        proof {
            assert(fields@.subrange(0, fields@.len() as int) =~= fields@);
        }
    }

    /// Write an object's fields one per line between braces, one level
    /// deeper, the closing brace back on the object's own level.
    pub fn write_multi_line_object(&mut self, fields: &Vec<(String, TypeDefinition)>)
        requires
            old(self).indent + 2 + 2 * fields_height(fields@) <= usize::MAX,
        ensures
            final(self).output@ == old(self).output@ + md_ml_object(
                fields@,
                old(self).indent as nat,
            ),
            final(self).indent == old(self).indent,
        decreases fields@, 0nat,
    {
        self.add_text("{");
        self.inc_indent();
        let ghost mid = self.output@;
        let mut i: usize = 0;
        while i < fields.len()
            invariant
                0 <= i <= fields@.len(),
                self.indent == old(self).indent + 1,
                self.indent + 1 + 2 * fields_height(fields@) <= usize::MAX,
                self.output@ == mid + md_ml_object_fields(
                    fields@.subrange(0, i as int),
                    old(self).indent as nat,
                ),
            decreases fields@.len() - i,
        {
            self.new_line();
            let field = &fields[i];
            self.write_field_name(field.0.as_str(), field.1.is_optional);
            proof {
                lemma_fields_height_bound(fields@, i as int);
            }
            self.write_type_definition(&field.1);
            self.add_text(";");
            proof {
                lemma_join_step_ml_object(fields@, i as int, old(self).indent as nat);
            }
            i = i + 1;
        }
        self.dec_indent();
        self.new_line();
        self.add_text("}");
        proof {
            assert(fields@.subrange(0, fields@.len() as int) =~= fields@);
        }
    }

    /// Write a map kind: "Map<string, " then the value type, then ">".
    pub fn write_map(&mut self, value_type: &TypeDefinition)
        requires
            old(self).indent + 2 * td_height(*value_type) <= usize::MAX,
        ensures
            final(self).output@ == old(self).output@ + encode_utf8("Map<string, "@) + md_def(
                *value_type,
                old(self).indent as nat,
            ) + encode_utf8(">"@),
            final(self).indent == old(self).indent,
        decreases *value_type, 3nat,
    {
        self.add_text("Map<string, ");
        self.write_type_definition(value_type);
        self.add_text(">");
    }

    /// Write one field's name, with "?: " when the field is optional and
    /// ": " otherwise.
    pub fn write_field_name(&mut self, name: &str, is_optional: bool)
        ensures
            final(self).output@ == old(self).output@ + md_field_name(name@, is_optional),
            final(self).indent == old(self).indent,
    {
        self.add_text(name);
        if is_optional {
            self.add_text("?: ");
        } else {
            self.add_text(": ");
        }
    }
}

/// Appending the `i`-th member extends the joined tuple text by ", " (after
/// the first member) and the member's own text.
proof fn lemma_join_step_tuple(types: Seq<TypeDefinition>, i: int, ind: nat)
    requires
        0 <= i < types.len(),
    ensures
        md_tuple_items(types.subrange(0, i + 1), ind) == md_tuple_items(
            types.subrange(0, i),
            ind,
        ) + (if i > 0 {
            encode_utf8(", "@)
        } else {
            Seq::<u8>::empty()
        }) + md_def(types[i], ind),
{
    let prefix = types.subrange(0, i + 1);
    assert(prefix.drop_last() =~= types.subrange(0, i));
    assert(prefix.last() == types[i]);
    if i == 0 {
        assert(Seq::<u8>::empty() + md_def(types[0], ind) =~= md_def(types[0], ind));
        assert(md_tuple_items(types.subrange(0, 0), ind) + Seq::<u8>::empty() + md_def(
            types[0],
            ind,
        ) =~= md_def(types[0], ind));
    }
}

/// Appending the `i`-th variant extends the joined single-line union text by
/// " | " (after the first variant) and the variant's own text.
proof fn lemma_join_step_sl_union(variants: Seq<TypeDefinition>, i: int, ind: nat)
    requires
        0 <= i < variants.len(),
    ensures
        md_sl_union(variants.subrange(0, i + 1), ind) == md_sl_union(
            variants.subrange(0, i),
            ind,
        ) + (if i > 0 {
            encode_utf8(" | "@)
        } else {
            Seq::<u8>::empty()
        }) + md_def(variants[i], ind),
{
    let prefix = variants.subrange(0, i + 1);
    assert(prefix.drop_last() =~= variants.subrange(0, i));
    assert(prefix.last() == variants[i]);
    if i == 0 {
        assert(md_sl_union(variants.subrange(0, 0), ind) + Seq::<u8>::empty() + md_def(
            variants[0],
            ind,
        ) =~= md_def(variants[0], ind));
    }
}

/// Appending the `i`-th variant extends the multi-line union text by one
/// indented "| " line holding the variant.
proof fn lemma_join_step_ml_union(variants: Seq<TypeDefinition>, i: int, ind: nat)
    requires
        0 <= i < variants.len(),
    ensures
        md_ml_union(variants.subrange(0, i + 1), ind) == md_ml_union(variants.subrange(0, i), ind)
            + nl(ind + 1) + encode_utf8("| "@) + md_def(variants[i], ind + 2),
{
    let prefix = variants.subrange(0, i + 1);
    assert(prefix.drop_last() =~= variants.subrange(0, i));
    assert(prefix.last() == variants[i]);
}

/// Appending the `i`-th field extends the single-line field text by
/// "name: type; ".
proof fn lemma_join_step_sl_object(fields: Seq<(String, TypeDefinition)>, i: int, ind: nat)
    requires
        0 <= i < fields.len(),
    ensures
        md_sl_object_fields(fields.subrange(0, i + 1), ind) == md_sl_object_fields(
            fields.subrange(0, i),
            ind,
        ) + md_field_name(fields[i].0@, fields[i].1.is_optional) + md_def(fields[i].1, ind)
            + encode_utf8("; "@),
{
    let prefix = fields.subrange(0, i + 1);
    assert(prefix.drop_last() =~= fields.subrange(0, i));
    assert(prefix.last() == fields[i]);
}

/// Appending the `i`-th field extends the multi-line field text by one
/// indented "name: type;" line.
proof fn lemma_join_step_ml_object(fields: Seq<(String, TypeDefinition)>, i: int, ind: nat)
    requires
        0 <= i < fields.len(),
    ensures
        md_ml_object_fields(fields.subrange(0, i + 1), ind) == md_ml_object_fields(
            fields.subrange(0, i),
            ind,
        ) + nl(ind + 1) + md_field_name(fields[i].0@, fields[i].1.is_optional) + md_def(
            fields[i].1,
            ind + 1,
        ) + encode_utf8(";"@),
{
    let prefix = fields.subrange(0, i + 1);
    assert(prefix.drop_last() =~= fields.subrange(0, i));
    assert(prefix.last() == fields[i]);
}

} // verus!
