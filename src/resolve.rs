//! The field resolver: looks up each field's configuration entry, checks it
//! against the field's shape, and computes alias, type and extraction.

use vstd::prelude::*;
use crate::model::{
    entries_view, fields_view, resolved_view, strings_view, BoardCfgError, Extraction, FieldDeclaration, ResolvedField, ResourceSchema, SchemaModel, Shape, TableModel, ConfigTable, ConfigValue, ErrorModel, ExtractionModel, FieldModel,
    ResolvedModel, SectionModel, ShapeModel, ValueModel,
};
use crate::outside::{
    class_case, class_case_of, expr_parses, parsed_type_leaf, parses_as_expr, type_reference_leaf,
};

verus! {

/// The value of the first entry named `key`, if any.
pub open spec fn lookup<V>(entries: Seq<(Seq<char>, V)>, key: Seq<char>) -> Option<V>
    decreases entries.len(),
{
    if entries.len() == 0 {
        None
    } else if entries[0].0 == key {
        Some(entries[0].1)
    } else {
        lookup(entries.drop_first(), key)
    }
}

/// The alias of a field: the resource name followed by the field name in
/// class case.
pub open spec fn alias_of(resource: Seq<char>, field: Seq<char>) -> Seq<char> {
    resource + class_case_of(field)
}

/// A field resolved to type `ty`, obtained by `extraction`.
pub open spec fn resolved_spec(
    resource: Seq<char>,
    f: FieldModel,
    ty: Seq<char>,
    extraction: ExtractionModel,
    capabilities: Option<Seq<Seq<char>>>,
) -> ResolvedModel {
    ResolvedModel {
        name: f.name,
        vis: f.vis,
        alias: alias_of(resource, f.name),
        ty,
        extraction,
        capabilities,
        attrs: f.attrs,
    }
}

/// Resolution of a field whose type comes from a type-reference entry.
pub open spec fn resolve_reference_spec(
    resource: Seq<char>,
    f: FieldModel,
    v: ValueModel,
    capabilities: Option<Seq<Seq<char>>>,
) -> Result<ResolvedModel, ErrorModel> {
    match v {
        ValueModel::Other { .. } => Err(ErrorModel::ConfigValueTypeMismatch(f.name)),
        ValueModel::Str { value, .. } => match parsed_type_leaf(value) {
            Some(Some(leaf)) => Ok(
                resolved_spec(
                    resource,
                    f,
                    value,
                    ExtractionModel::MemberProjection(leaf),
                    capabilities,
                ),
            ),
            _ => Err(ErrorModel::TypeReferenceParseError(f.name)),
        },
    }
}

/// A configuration value's text as a literal, string-valued or not.
pub open spec fn raw_text(v: ValueModel) -> Seq<char> {
    match v {
        ValueModel::Str { raw, .. } => raw,
        ValueModel::Other { raw } => raw,
    }
}

/// Resolution of one field of resource `resource` against a section.
pub open spec fn resolve_field_spec(
    resource: Seq<char>,
    f: FieldModel,
    section: SectionModel,
) -> Result<ResolvedModel, ErrorModel> {
    match lookup(section, f.name) {
        None => Err(ErrorModel::ConfigFieldMissing(f.name)),
        Some(v) => match f.shape {
            ShapeModel::Concrete(ty) => {
                let raw = raw_text(v);
                if parses_as_expr(raw) {
                    Ok(resolved_spec(resource, f, ty, ExtractionModel::LiteralExpr(raw), None))
                } else {
                    Err(ErrorModel::ConfigValueTypeMismatch(f.name))
                }
            },
            ShapeModel::Flexible(caps) => resolve_reference_spec(resource, f, v, Some(caps)),
            ShapeModel::Placeholder => resolve_reference_spec(resource, f, v, None),
        },
    }
}

pub open spec fn result_view<T: View>(r: Result<T, BoardCfgError>) -> Result<T::V, ErrorModel> {
    match r {
        Ok(t) => Ok(t@),
        Err(e) => Err(e@),
    }
}

/// Copies a list of strings.
fn copy_strings(v: &Vec<String>) -> (r: Vec<String>)
    ensures
        r@ == v@,
{
    let mut r: Vec<String> = Vec::new();
    let mut i: usize = 0;
    while i < v.len()
        invariant
            i <= v@.len(),
            r@ == v@.subrange(0, i as int),
        decreases v@.len() - i,
    {
        r.push(v[i].clone());
        i = i + 1;
    }
    assert(r@ =~= v@);
    r
}

/// The index of the first entry named `key`.
pub fn find_entry(entries: &Vec<(String, ConfigValue)>, key: &String) -> (r: Option<usize>)
    ensures
        match r {
            Some(i) => i < entries@.len() && lookup(entries_view(entries@), key@) == Some(
                entries@[i as int].1@,
            ),
            None => lookup(entries_view(entries@), key@) is None,
        },
{
    let ghost all = entries_view(entries@);
    let mut i: usize = 0;
    assert(all.subrange(0, all.len() as int) =~= all);
    while i < entries.len()
        invariant
            i <= entries@.len(),
            all == entries_view(entries@),
            lookup(all, key@) == lookup(all.subrange(i as int, all.len() as int), key@),
        decreases entries@.len() - i,
    {
        assert(all.subrange(i as int, all.len() as int).drop_first() =~= all.subrange(
            i + 1,
            all.len() as int,
        ));
        if entries[i].0 == *key {
            return Some(i);
        }
        i = i + 1;
    }
    None
}

/// The index of the first section named `name`.
pub fn find_section(table: &ConfigTable, name: &String) -> (r: Option<usize>)
    ensures
        match r {
            Some(i) => i < table.sections@.len() && lookup(table@, name@) == Some(
                table.sections@[i as int]@.1,
            ),
            None => lookup(table@, name@) is None,
        },
{
    let ghost all = table@;
    let mut i: usize = 0;
    assert(all.subrange(0, all.len() as int) =~= all);
    while i < table.sections.len()
        invariant
            i <= table.sections@.len(),
            all == table@,
            lookup(all, name@) == lookup(all.subrange(i as int, all.len() as int), name@),
        decreases table.sections@.len() - i,
    {
        assert(all.subrange(i as int, all.len() as int).drop_first() =~= all.subrange(
            i + 1,
            all.len() as int,
        ));
        if table.sections[i].name == *name {
            return Some(i);
        }
        i = i + 1;
    }
    None
}

/// Resolution of the fields of resource `resource` in declaration order:
/// the resolved fields, or the error of the first field that fails.
pub open spec fn resolve_fields_spec(
    resource: Seq<char>,
    fields: Seq<FieldModel>,
    section: SectionModel,
) -> Result<Seq<ResolvedModel>, ErrorModel>
    decreases fields.len(),
{
    if fields.len() == 0 {
        Ok(seq![])
    } else {
        match resolve_fields_spec(resource, fields.drop_last(), section) {
            Err(e) => Err(e),
            Ok(done) => match resolve_field_spec(resource, fields.last(), section) {
                Err(e) => Err(e),
                Ok(r) => Ok(done.push(r)),
            },
        }
    }
}

/// Resolution of a whole schema against a configuration table.
pub open spec fn resolve_spec(schema: SchemaModel, table: TableModel) -> Result<
    Seq<ResolvedModel>,
    ErrorModel,
> {
    match lookup(table, schema.section) {
        None => Err(ErrorModel::ConfigSectionMissing(schema.section)),
        Some(section) => resolve_fields_spec(schema.name, schema.fields, section),
    }
}

pub open spec fn resolved_list_view(r: Result<Vec<ResolvedField>, BoardCfgError>) -> Result<
    Seq<ResolvedModel>,
    ErrorModel,
> {
    match r {
        Ok(v) => Ok(resolved_view(v@)),
        Err(e) => Err(e@),
    }
}

fn resolved_field(
    resource: &String,
    f: &FieldDeclaration,
    ty: String,
    extraction: Extraction,
    capabilities: Option<Vec<String>>,
) -> (r: ResolvedField)
    ensures
        r@ == resolved_spec(
            resource@,
            f@,
            ty@,
            extraction@,
            match capabilities {
                Some(c) => Some(strings_view(c@)),
                None => None,
            },
        ),
{
    let mut alias = resource.clone();
    let tail = class_case(f.name.as_str());
    alias.append(tail.as_str());
    ResolvedField {
        name: f.name.clone(),
        vis: f.vis.clone(),
        alias,
        ty,
        extraction,
        capabilities,
        attrs: copy_strings(&f.attrs),
    }
}

fn resolve_reference(
    resource: &String,
    f: &FieldDeclaration,
    v: &ConfigValue,
    capabilities: Option<Vec<String>>,
) -> (r: Result<ResolvedField, BoardCfgError>)
    ensures
        result_view(r) == resolve_reference_spec(
            resource@,
            f@,
            v@,
            match capabilities {
                Some(c) => Some(strings_view(c@)),
                None => None,
            },
        ),
{
    match v {
        ConfigValue::Other { .. } => Err(BoardCfgError::ConfigValueTypeMismatch(f.name.clone())),
        ConfigValue::Str { value, .. } => match type_reference_leaf(value.as_str()) {
            Ok(Some(leaf)) => Ok(
                resolved_field(
                    resource,
                    f,
                    value.clone(),
                    Extraction::MemberProjection(leaf),
                    capabilities,
                ),
            ),
            _ => Err(BoardCfgError::TypeReferenceParseError(f.name.clone())),
        },
    }
}

/// Resolves one field of resource `resource` against the entries of its
/// section.
pub fn resolve_field(
    resource: &String,
    f: &FieldDeclaration,
    entries: &Vec<(String, ConfigValue)>,
) -> (r: Result<ResolvedField, BoardCfgError>)
    ensures
        result_view(r) == resolve_field_spec(resource@, f@, entries_view(entries@)),
{
    match find_entry(entries, &f.name) {
        None => Err(BoardCfgError::ConfigFieldMissing(f.name.clone())),
        Some(i) => {
            let v = &entries[i].1;
            match &f.shape {
                Shape::Concrete(ty) => {
                    let raw = match v {
                        ConfigValue::Str { raw, .. } => raw,
                        ConfigValue::Other { raw } => raw,
                    };
                    if expr_parses(raw.as_str()) {
                        Ok(
                            resolved_field(
                                resource,
                                f,
                                ty.clone(),
                                Extraction::LiteralExpr(raw.clone()),
                                None,
                            ),
                        )
                    } else {
                        Err(BoardCfgError::ConfigValueTypeMismatch(f.name.clone()))
                    }
                },
                Shape::Flexible(caps) => resolve_reference(resource, f, v, Some(copy_strings(caps))),
                Shape::Placeholder => resolve_reference(resource, f, v, None),
            }
        },
    }
}

/// Resolves every field of `schema` against its section of `table`, in
/// declaration order; stops at the first failure.
pub fn resolve(schema: &ResourceSchema, table: &ConfigTable) -> (r: Result<
    Vec<ResolvedField>,
    BoardCfgError,
>)
    ensures
        resolved_list_view(r) == resolve_spec(schema@, table@),
{
    let s = match find_section(table, &schema.section) {
        None => return Err(BoardCfgError::ConfigSectionMissing(schema.section.clone())),
        Some(s) => s,
    };
    let entries = &table.sections[s].entries;
    let ghost section = entries_view(entries@);
    let ghost fields = fields_view(schema.fields@);
    assert(lookup(table@, schema.section@) == Some(section));
    let mut out: Vec<ResolvedField> = Vec::new();
    let mut i: usize = 0;
    assert(fields.subrange(0, 0) =~= Seq::<FieldModel>::empty());
    assert(resolved_view(out@) =~= Seq::<ResolvedModel>::empty());
    while i < schema.fields.len()
        invariant
            i <= schema.fields@.len(),
            fields == fields_view(schema.fields@),
            section == entries_view(entries@),
            lookup(table@, schema.section@) == Some(section),
            resolve_fields_spec(schema.name@, fields.subrange(0, i as int), section) == Ok::<
                Seq<ResolvedModel>,
                ErrorModel,
            >(resolved_view(out@)),
        decreases schema.fields@.len() - i,
    {
        let r = resolve_field(&schema.name, &schema.fields[i], entries);
        assert(fields.subrange(0, i + 1).drop_last() =~= fields.subrange(0, i as int));
        assert(fields.subrange(0, i + 1).last() == schema.fields@[i as int]@);
        match r {
            Err(e) => {
                proof {
                    lemma_fields_error_persists(schema.name@, fields, section, i + 1);
                }
                return Err(e);
            },
            Ok(f) => {
                let ghost before = resolved_view(out@);
                let ghost fv = f@;
                out.push(f);
                assert(resolved_view(out@) =~= before.push(fv));
            },
        }
        i = i + 1;
    }
    assert(fields.subrange(0, i as int) =~= fields);
    Ok(out)
}

/// Once a prefix of the fields fails, every longer prefix fails the same way.
pub proof fn lemma_fields_error_persists(
    resource: Seq<char>,
    fields: Seq<FieldModel>,
    section: SectionModel,
    n: int,
)
    requires
        0 <= n <= fields.len(),
        resolve_fields_spec(resource, fields.subrange(0, n), section) is Err,
    ensures
        resolve_fields_spec(resource, fields, section) == resolve_fields_spec(
            resource,
            fields.subrange(0, n),
            section,
        ),
    decreases fields.len() - n,
{
    if n < fields.len() {
        assert(fields.subrange(0, n + 1).drop_last() =~= fields.subrange(0, n));
        lemma_fields_error_persists(resource, fields, section, n + 1);
    } else {
        assert(fields.subrange(0, n) =~= fields);
    }
}

} // verus!
