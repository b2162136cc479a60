//! Properties of resolution and emission that relate several functions or
//! hold of every input.

use vstd::prelude::*;
use crate::emit::{
    attrs_text, bounds_text, emit_spec, generate_spec, piece_text, validation_text, Piece,
};
use crate::model::{
    ErrorModel, ExtractionModel, FieldModel, ResolvedModel, SchemaModel, SectionModel, ShapeModel,
    TableModel, ValueModel,
};
use crate::outside::{parsed_type_leaf, parses_as_expr};
use crate::resolve::{
    alias_of, lemma_fields_error_persists, lookup, raw_text, resolve_field_spec, resolve_fields_spec,
    resolve_spec,
};

verus! {

/// When every field resolves, the resolved fields line up one for one, in
/// declaration order, with the declared fields.
pub proof fn lemma_fields_ok(
    resource: Seq<char>,
    fields: Seq<FieldModel>,
    section: SectionModel,
    rs: Seq<ResolvedModel>,
)
    requires
        resolve_fields_spec(resource, fields, section) == Ok::<Seq<ResolvedModel>, ErrorModel>(rs),
    ensures
        rs.len() == fields.len(),
        forall|i: int|
            0 <= i < fields.len() ==> resolve_field_spec(resource, #[trigger] fields[i], section)
                == Ok::<ResolvedModel, ErrorModel>(rs[i]),
    decreases fields.len(),
{
    if fields.len() > 0 {
        let prev = resolve_fields_spec(resource, fields.drop_last(), section)->Ok_0;
        lemma_fields_ok(resource, fields.drop_last(), section, prev);
        assert(rs == prev.push(rs.last()));
        assert forall|i: int| 0 <= i < fields.len() implies resolve_field_spec(
            resource,
            #[trigger] fields[i],
            section,
        ) == Ok::<ResolvedModel, ErrorModel>(rs[i]) by {
            if i < fields.len() - 1 {
                assert(fields.drop_last()[i] == fields[i]);
            }
        }
    }
}

/// A concrete field whose entry, string-valued or not, has a literal text
/// `V` that parses as an expression keeps its declared type, and the
/// constructor writes `V` verbatim as the field's value.
pub proof fn law_concrete_field_takes_literal(
    resource: Seq<char>,
    f: FieldModel,
    section: SectionModel,
    ty: Seq<char>,
    v: ValueModel,
)
    requires
        f.shape == ShapeModel::Concrete(ty),
        lookup(section, f.name) == Some(v),
        parses_as_expr(raw_text(v)),
    ensures
        resolve_field_spec(resource, f, section) is Ok,
        resolve_field_spec(resource, f, section)->Ok_0.ty == ty,
        resolve_field_spec(resource, f, section)->Ok_0.extraction == ExtractionModel::LiteralExpr(
            raw_text(v),
        ),
        resolve_field_spec(resource, f, section)->Ok_0.capabilities is None,
        piece_text(Piece::AliasDecl, resolve_field_spec(resource, f, section)->Ok_0) == "type "@
            + alias_of(resource, f.name) + " = "@ + ty + ";\n"@,
        piece_text(Piece::Initializer, resolve_field_spec(resource, f, section)->Ok_0)
            == attrs_text(f.attrs) + f.name + ": "@ + raw_text(v) + ", "@,
{
}

/// A placeholder field whose entry names the path type `T` is aliased to
/// `T`, and the constructor projects the context member named by the last
/// segment of `T`.
pub proof fn law_placeholder_projects_member(
    resource: Seq<char>,
    f: FieldModel,
    section: SectionModel,
    t: Seq<char>,
    raw: Seq<char>,
    leaf: Seq<char>,
)
    requires
        f.shape == ShapeModel::Placeholder,
        lookup(section, f.name) == Some(ValueModel::Str { value: t, raw }),
        parsed_type_leaf(t) == Some(Some(leaf)),
    ensures
        resolve_field_spec(resource, f, section) is Ok,
        resolve_field_spec(resource, f, section)->Ok_0.ty == t,
        resolve_field_spec(resource, f, section)->Ok_0.extraction
            == ExtractionModel::MemberProjection(leaf),
        piece_text(Piece::AliasDecl, resolve_field_spec(resource, f, section)->Ok_0) == "type "@
            + alias_of(resource, f.name) + " = "@ + t + ";\n"@,
{
}

/// A flexible field whose entry names a path type resolves whatever its
/// capabilities are, and leaves the obligation `alias: caps` to the
/// capability checks, which the emitted output then holds.
pub proof fn law_flexible_records_obligation(
    schema: SchemaModel,
    table: TableModel,
    i: int,
    caps: Seq<Seq<char>>,
    rs: Seq<ResolvedModel>,
)
    requires
        0 <= i < schema.fields.len(),
        schema.fields[i].shape == ShapeModel::Flexible(caps),
        resolve_spec(schema, table) == Ok::<Seq<ResolvedModel>, ErrorModel>(rs),
    ensures
        rs[i].capabilities == Some(caps),
        piece_text(Piece::BoundClause, rs[i]) == alias_of(schema.name, schema.fields[i].name)
            + ": "@ + bounds_text(caps) + ", "@,
        validation_text(schema, rs) is Some,
{
    let section = lookup(table, schema.section)->Some_0;
    lemma_fields_ok(schema.name, schema.fields, section, rs);
    assert(resolve_field_spec(schema.name, schema.fields[i], section) == Ok::<
        ResolvedModel,
        ErrorModel,
    >(rs[i]));
}

/// The resolution of a flexible field whose entry names a path type
/// succeeds; whether the type has the capabilities is left to the checks
/// emitted for it.
pub proof fn law_flexible_field_resolves(
    resource: Seq<char>,
    f: FieldModel,
    section: SectionModel,
    caps: Seq<Seq<char>>,
    t: Seq<char>,
    raw: Seq<char>,
    leaf: Seq<char>,
)
    requires
        f.shape == ShapeModel::Flexible(caps),
        lookup(section, f.name) == Some(ValueModel::Str { value: t, raw }),
        parsed_type_leaf(t) == Some(Some(leaf)),
    ensures
        resolve_field_spec(resource, f, section) is Ok,
        resolve_field_spec(resource, f, section)->Ok_0.ty == t,
        resolve_field_spec(resource, f, section)->Ok_0.capabilities == Some(caps),
{
}

/// A field absent from its section fails with `ConfigFieldMissing` naming
/// it; in a schema, the first such field whose predecessors all resolve
/// decides the whole resolution's error.
pub proof fn law_missing_field_named(
    resource: Seq<char>,
    fields: Seq<FieldModel>,
    section: SectionModel,
    k: int,
)
    requires
        0 <= k < fields.len(),
        lookup(section, fields[k].name) is None,
        resolve_fields_spec(resource, fields.subrange(0, k), section) is Ok,
    ensures
        resolve_field_spec(resource, fields[k], section) == Err::<ResolvedModel, ErrorModel>(
            ErrorModel::ConfigFieldMissing(fields[k].name),
        ),
        resolve_fields_spec(resource, fields, section) == Err::<Seq<ResolvedModel>, ErrorModel>(
            ErrorModel::ConfigFieldMissing(fields[k].name),
        ),
{
    let prefix = fields.subrange(0, k + 1);
    assert(prefix.drop_last() =~= fields.subrange(0, k));
    assert(prefix.last() == fields[k]);
    lemma_fields_error_persists(resource, fields, section, k + 1);
}

/// Generation reads only the schema's own section: two tables that agree on
/// that section give the same output, whatever their other sections hold.
pub proof fn law_sections_independent(schema: SchemaModel, t1: TableModel, t2: TableModel)
    requires
        lookup(t1, schema.section) == lookup(t2, schema.section),
    ensures
        resolve_spec(schema, t1) == resolve_spec(schema, t2),
        generate_spec(schema, t1) == generate_spec(schema, t2),
{
}

/// Generation is a function of the schema and table: equal inputs give
/// equal output, emitted in declaration order.
pub proof fn law_generation_deterministic(
    s1: SchemaModel,
    t1: TableModel,
    s2: SchemaModel,
    t2: TableModel,
)
    requires
        s1 == s2,
        t1 == t2,
    ensures
        generate_spec(s1, t1) == generate_spec(s2, t2),
        generate_spec(s1, t1) is Ok ==> generate_spec(s1, t1)->Ok_0 == emit_spec(
            s1,
            resolve_spec(s1, t1)->Ok_0,
        ),
{
}

/// A field's attributes are carried onto both its record field and its
/// constructor initializer, so the two are included or left out together.
pub proof fn law_attributes_replicated(resource: Seq<char>, f: FieldModel, section: SectionModel)
    requires
        resolve_field_spec(resource, f, section) is Ok,
    ensures
        ({
            let r = resolve_field_spec(resource, f, section)->Ok_0;
            &&& r.attrs == f.attrs
            &&& piece_text(Piece::RecordField, r) == "    "@ + attrs_text(f.attrs) + f.vis + f.name
                + ": "@ + r.alias + ",\n"@
            &&& piece_text(Piece::Initializer, r) == attrs_text(f.attrs) + f.name + ": "@
                + crate::emit::extraction_text(r.extraction) + ", "@
        }),
{
}

} // verus!
