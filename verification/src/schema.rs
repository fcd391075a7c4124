//! Schema extraction: turning a raw type declaration into the normalized
//! description of a sum type.
//!
//! Only sum types (tagged unions) are accepted. For each variant the fields
//! are recorded in source order, whether they are named, positional or
//! absent; a unit variant contributes zero fields. Any other declaration
//! shape is rejected with a diagnostic that carries a message and the
//! declaration's source location.

use vstd::prelude::*;

verus! {

/// A position in the source text, attached to declarations and diagnostics.
#[derive(Clone, Copy, PartialEq, Eq, Structural, Debug)]
pub struct SrcSpan {
    pub line: usize,
    pub column: usize,
}

/// How a variant writes its fields at the surface: named braces, positional
/// parentheses, or nothing. The shape only matters for surface syntax; the
/// slot layout never depends on it.
#[derive(Clone, Copy, PartialEq, Eq, Structural, Debug)]
pub enum FieldShape {
    Named,
    Positional,
    Unit,
}

/// One field of a sum-type variant as declared: a name for brace syntax,
/// no name for parenthesis syntax, and the declared type's text.
#[derive(Debug)]
pub struct NamedFieldDecl {
    pub name: String,
    pub ty: String,
}

/// The field list of one declared variant, in source order.
#[derive(Debug)]
pub enum FieldsDecl {
    Named(Vec<NamedFieldDecl>),
    Positional(Vec<String>),
    Unit,
}

/// One declared variant of a sum type.
#[derive(Debug)]
pub struct VariantDecl {
    pub name: String,
    pub fields: FieldsDecl,
}

/// The body of a raw type declaration: a sum type, a plain record, or an
/// untagged union. Only the first can be given a flattened container.
#[derive(Debug)]
pub enum DeclBody {
    Sum { variants: Vec<VariantDecl> },
    Record { fields: FieldsDecl },
    Union { members: Vec<NamedFieldDecl> },
}

/// A raw type declaration handed to the extractor.
#[derive(Debug)]
pub struct TypeDecl {
    pub name: String,
    pub span: SrcSpan,
    pub body: DeclBody,
}

/// One normalized field: its name if it had one, and its declared type.
#[derive(Debug)]
pub struct FieldSchema {
    pub name: Option<String>,
    pub ty: String,
}

/// One normalized variant: its name, its surface shape, and its fields in
/// declaration order (empty for a unit variant).
#[derive(Debug)]
pub struct VariantSchema {
    pub name: String,
    pub shape: FieldShape,
    pub fields: Vec<FieldSchema>,
}

/// The normalized description of a sum type: its name and its variants in
/// declaration order. Variant order is preserved through every downstream
/// artifact.
#[derive(Debug)]
pub struct SumTypeSchema {
    pub name: String,
    pub variants: Vec<VariantSchema>,
}

/// A generation-time diagnostic: a message and the source location of the
/// offending declaration. Generation failures are reported this way and
/// never as runtime values.
#[derive(Debug)]
pub struct Diagnostic {
    pub message: String,
    pub span: SrcSpan,
}

/// The surface shape recorded for a declared field list.
pub open spec fn shape_of(d: FieldsDecl) -> FieldShape {
    match d {
        FieldsDecl::Named(_) => FieldShape::Named,
        FieldsDecl::Positional(_) => FieldShape::Positional,
        FieldsDecl::Unit => FieldShape::Unit,
    }
}

/// The normalized fields of a declared field list, in source order: named
/// fields keep their name, positional fields get none, a unit variant has
/// no fields.
pub open spec fn normalized_fields(d: FieldsDecl) -> Seq<FieldSchema> {
    match d {
        FieldsDecl::Named(fs) => fs@.map_values(
            |f: NamedFieldDecl| FieldSchema { name: Some(f.name), ty: f.ty },
        ),
        FieldsDecl::Positional(tys) => tys@.map_values(
            |t: String| FieldSchema { name: None, ty: t },
        ),
        FieldsDecl::Unit => Seq::empty(),
    }
}

/// The number of fields a declared field list carries: zero for a unit
/// variant, its list's length otherwise.
pub open spec fn declared_count(d: FieldsDecl) -> int {
    match d {
        FieldsDecl::Named(fs) => fs@.len() as int,
        FieldsDecl::Positional(tys) => tys@.len() as int,
        FieldsDecl::Unit => 0,
    }
}

/// Normalization keeps every variant's field count: the container's width
/// `N = Σ c_i` can be read off the declaration itself.
pub proof fn lemma_extract_preserves_counts(
    s: SumTypeSchema,
    name: String,
    variants: Seq<VariantDecl>,
    i: int,
)
    requires
        schema_matches(s, name, variants),
        0 <= i < variants.len(),
    ensures
        s.variants@[i].fields@.len() == declared_count(variants[i].fields),
{
    assert(variant_matches(s.variants@[i], variants[i]));
}

/// The normalized form of one declared variant.
pub open spec fn variant_matches(v: VariantSchema, d: VariantDecl) -> bool {
    &&& v.name == d.name
    &&& v.shape == shape_of(d.fields)
    &&& v.fields@ == normalized_fields(d.fields)
}

/// The normalized form of a whole sum-type declaration.
pub open spec fn schema_matches(s: SumTypeSchema, name: String, variants: Seq<VariantDecl>) -> bool {
    &&& s.name == name
    &&& s.variants@.len() == variants.len()
    &&& forall|i: int|
        0 <= i < variants.len() ==> #[trigger] variant_matches(s.variants@[i], variants[i])
}

/// Normalizes one declared field list into schema fields, in source order.
fn normalize_fields(d: &FieldsDecl) -> (out: Vec<FieldSchema>)
    ensures
        out@ == normalized_fields(*d),
{
    let mut out: Vec<FieldSchema> = Vec::new();
    match d {
        FieldsDecl::Named(fs) => {
            let n = fs.len();
            for j in 0..n
                invariant
                    n == fs@.len(),
                    out@.len() == j,
                    forall|m: int|
                        0 <= m < j ==> #[trigger] out@[m] == normalized_fields(FieldsDecl::Named(*fs))[m],
            {
                out.push(FieldSchema { name: Some(fs[j].name.clone()), ty: fs[j].ty.clone() });
            }
            assert(out@ =~= normalized_fields(*d));
        },
        FieldsDecl::Positional(tys) => {
            let n = tys.len();
            for j in 0..n
                invariant
                    n == tys@.len(),
                    out@.len() == j,
                    forall|m: int|
                        0 <= m < j ==> #[trigger] out@[m] == normalized_fields(
                            FieldsDecl::Positional(*tys),
                        )[m],
            {
                out.push(FieldSchema { name: None, ty: tys[j].clone() });
            }
            assert(out@ =~= normalized_fields(*d));
        },
        FieldsDecl::Unit => {
            assert(out@ =~= normalized_fields(*d));
        },
    }
    out
}

/// The surface shape of one declared field list.
fn shape_of_fields(d: &FieldsDecl) -> (r: FieldShape)
    ensures
        r == shape_of(*d),
{
    match d {
        FieldsDecl::Named(_) => FieldShape::Named,
        FieldsDecl::Positional(_) => FieldShape::Positional,
        FieldsDecl::Unit => FieldShape::Unit,
    }
}

/// Extracts the normalized sum-type schema from a raw declaration.
///
/// Succeeds exactly on sum types; a record or union is rejected with a
/// diagnostic at the declaration's location. On success the schema carries
/// the declared name and, for each variant in declaration order, its name,
/// surface shape, and fields in source order.
pub fn extract(decl: &TypeDecl) -> (r: Result<SumTypeSchema, Diagnostic>)
    ensures
        r is Ok <==> decl.body is Sum,
        decl.body matches DeclBody::Sum { variants } ==> (r matches Ok(s) && schema_matches(
            s,
            decl.name,
            variants@,
        )),
        !(decl.body is Sum) ==> (r matches Err(d) && d.span == decl.span && d.message@
            == "a flattened container can only be derived for a sum type"@),
{
    match &decl.body {
        DeclBody::Sum { variants } => {
            let mut out: Vec<VariantSchema> = Vec::new();
            let n = variants.len();
            for i in 0..n
                invariant
                    n == variants@.len(),
                    out@.len() == i,
                    forall|m: int|
                        0 <= m < i ==> #[trigger] variant_matches(out@[m], variants@[m]),
            {
                let v = &variants[i];
                out.push(
                    VariantSchema {
                        name: v.name.clone(),
                        shape: shape_of_fields(&v.fields),
                        fields: normalize_fields(&v.fields),
                    },
                );
            }
            Ok(SumTypeSchema { name: decl.name.clone(), variants: out })
        },
        _ => Err(
            Diagnostic {
                message: "a flattened container can only be derived for a sum type".to_owned(),
                span: decl.span,
            },
        ),
    }
}

} // verus!
