//! The code emitter: turns resolved fields into the text of the alias
//! declarations, the rewritten record, the capability checks and the
//! constructor template.

use vstd::prelude::*;
use crate::model::{
    resolved_view, strings_view, BoardCfgError, ConfigTable, Extraction, ExtractionModel,
    ResolvedField, ResolvedModel, ResourceSchema, SchemaModel, TableModel,
};
use crate::outside::{snake_case, snake_case_of};
use crate::resolve::{resolve, resolve_spec, resolved_list_view};

verus! {

/// The text of a list of attributes, each followed by a space.
pub open spec fn attrs_text(attrs: Seq<Seq<char>>) -> Seq<char>
    decreases attrs.len(),
{
    if attrs.len() == 0 {
        seq![]
    } else {
        attrs_text(attrs.drop_last()) + attrs.last() + " "@
    }
}

/// Capability names joined by ` + `.
pub open spec fn bounds_text(caps: Seq<Seq<char>>) -> Seq<char>
    decreases caps.len(),
{
    if caps.len() == 0 {
        seq![]
    } else if caps.len() == 1 {
        caps[0]
    } else {
        bounds_text(caps.drop_last()) + " + "@ + caps.last()
    }
}

/// The expression that yields a field's value from the context `$P`.
pub open spec fn extraction_text(e: ExtractionModel) -> Seq<char> {
    match e {
        ExtractionModel::MemberProjection(m) => "$P."@ + m,
        ExtractionModel::LiteralExpr(x) => x,
    }
}

/// The four per-field pieces of the output.
#[derive(Clone, Copy)]
pub enum Piece {
    AliasDecl,
    RecordField,
    BoundClause,
    Initializer,
}

/// The text of one piece for one resolved field.
pub open spec fn piece_text(p: Piece, r: ResolvedModel) -> Seq<char> {
    match p {
        Piece::AliasDecl => "type "@ + r.alias + " = "@ + r.ty + ";\n"@,
        Piece::RecordField => "    "@ + attrs_text(r.attrs) + r.vis + r.name + ": "@ + r.alias
            + ",\n"@,
        Piece::BoundClause => match r.capabilities {
            Some(caps) => r.alias + ": "@ + bounds_text(caps) + ", "@,
            None => seq![],
        },
        Piece::Initializer => attrs_text(r.attrs) + r.name + ": "@ + extraction_text(r.extraction)
            + ", "@,
    }
}

/// The pieces of kind `p` of all fields, in order.
pub open spec fn pieces_text(p: Piece, rs: Seq<ResolvedModel>) -> Seq<char>
    decreases rs.len(),
{
    if rs.len() == 0 {
        seq![]
    } else {
        pieces_text(p, rs.drop_last()) + piece_text(p, rs.last())
    }
}

/// Whether some field carries a capability bound.
pub open spec fn any_bound(rs: Seq<ResolvedModel>) -> bool {
    exists|i: int| 0 <= i < rs.len() && (#[trigger] rs[i]).capabilities is Some
}

/// The rewritten record: the schema's attributes, visibility and name, with
/// each field typed by its alias.
pub open spec fn record_text(schema: SchemaModel, rs: Seq<ResolvedModel>) -> Seq<char> {
    attrs_text(schema.attrs) + schema.vis + "struct "@ + schema.name + " {\n"@ + pieces_text(
        Piece::RecordField,
        rs,
    ) + "}\n"@
}

/// The capability checks, present only where some field is bounded.
pub open spec fn validation_text(schema: SchemaModel, rs: Seq<ResolvedModel>) -> Option<Seq<char>> {
    if any_bound(rs) {
        Some("impl "@ + schema.name + " where "@ + pieces_text(Piece::BoundClause, rs) + "{}\n"@)
    } else {
        None
    }
}

/// The constructor template, named by the record's name in snake case.
pub open spec fn constructor_text(schema: SchemaModel, rs: Seq<ResolvedModel>) -> Seq<char> {
    "#[doc = \"Extract `"@ + schema.name + "` from a `Peripherals` instance.\"]\nmacro_rules! "@
        + snake_case_of(schema.name) + " {\n    ( $P:ident ) => {\n        "@ + schema.name
        + " { "@ + pieces_text(Piece::Initializer, rs) + "}\n    };\n}\n"@
}

/// The name of the module that ties regeneration to the configuration file.
pub open spec fn marker_module_text(schema: SchemaModel) -> Seq<char> {
    snake_case_of(schema.name) + "_toml_recompile_hack"@
}

/// The output of a generation pass, but for the dependency marker's body,
/// which names the configuration file.
pub struct GeneratedArtifact {
    pub aliases: String,
    pub record: String,
    pub validation: Option<String>,
    pub constructor: String,
    pub marker_module: String,
}

pub struct ArtifactModel {
    pub aliases: Seq<char>,
    pub record: Seq<char>,
    pub validation: Option<Seq<char>>,
    pub constructor: Seq<char>,
    pub marker_module: Seq<char>,
}

impl View for GeneratedArtifact {
    type V = ArtifactModel;

    open spec fn view(&self) -> ArtifactModel {
        ArtifactModel {
            aliases: self.aliases@,
            record: self.record@,
            validation: match self.validation {
                Some(v) => Some(v@),
                None => None,
            },
            constructor: self.constructor@,
            marker_module: self.marker_module@,
        }
    }
}

/// The artifact emitted for a schema from its resolved fields.
pub open spec fn emit_spec(schema: SchemaModel, rs: Seq<ResolvedModel>) -> ArtifactModel {
    ArtifactModel {
        aliases: pieces_text(Piece::AliasDecl, rs),
        record: record_text(schema, rs),
        validation: validation_text(schema, rs),
        constructor: constructor_text(schema, rs),
        marker_module: marker_module_text(schema),
    }
}

/// The whole generation pass: resolution, then emission.
pub open spec fn generate_spec(schema: SchemaModel, table: TableModel) -> Result<
    ArtifactModel,
    crate::model::ErrorModel,
> {
    match resolve_spec(schema, table) {
        Ok(rs) => Ok(emit_spec(schema, rs)),
        Err(e) => Err(e),
    }
}

fn push_attrs(out: &mut String, attrs: &Vec<String>)
    ensures
        final(out)@ == old(out)@ + attrs_text(strings_view(attrs@)),
{
    let ghost all = strings_view(attrs@);
    let ghost start = out@;
    let mut i: usize = 0;
    assert(all.subrange(0, 0) =~= Seq::<Seq<char>>::empty());
    assert(start + attrs_text(all.subrange(0, 0)) =~= start);
    while i < attrs.len()
        invariant
            i <= attrs@.len(),
            all == strings_view(attrs@),
            out@ == start + attrs_text(all.subrange(0, i as int)),
        decreases attrs@.len() - i,
    {
        assert(all.subrange(0, i + 1).drop_last() =~= all.subrange(0, i as int));
        out.append(attrs[i].as_str());
        out.append(" ");
        assert(out@ =~= start + attrs_text(all.subrange(0, i + 1)));
        i = i + 1;
    }
    assert(all.subrange(0, i as int) =~= all);
}

fn push_bounds(out: &mut String, caps: &Vec<String>)
    ensures
        final(out)@ == old(out)@ + bounds_text(strings_view(caps@)),
{
    let ghost all = strings_view(caps@);
    let ghost start = out@;
    let mut i: usize = 0;
    assert(all.subrange(0, 0) =~= Seq::<Seq<char>>::empty());
    assert(start + bounds_text(all.subrange(0, 0)) =~= start);
    while i < caps.len()
        invariant
            i <= caps@.len(),
            all == strings_view(caps@),
            out@ == start + bounds_text(all.subrange(0, i as int)),
        decreases caps@.len() - i,
    {
        assert(all.subrange(0, i + 1).drop_last() =~= all.subrange(0, i as int));
        if i > 0 {
            out.append(" + ");
        }
        out.append(caps[i].as_str());
        assert(out@ =~= start + bounds_text(all.subrange(0, i + 1)));
        i = i + 1;
    }
    assert(all.subrange(0, i as int) =~= all);
}

fn push_piece(out: &mut String, p: Piece, r: &ResolvedField)
    ensures
        final(out)@ == old(out)@ + piece_text(p, r@),
{
    let ghost start = out@;
    match p {
        Piece::AliasDecl => {
            out.append("type ");
            out.append(r.alias.as_str());
            out.append(" = ");
            out.append(r.ty.as_str());
            out.append(";\n");
        },
        Piece::RecordField => {
            out.append("    ");
            push_attrs(out, &r.attrs);
            out.append(r.vis.as_str());
            out.append(r.name.as_str());
            out.append(": ");
            out.append(r.alias.as_str());
            out.append(",\n");
        },
        Piece::BoundClause => match &r.capabilities {
            Some(caps) => {
                out.append(r.alias.as_str());
                out.append(": ");
                push_bounds(out, caps);
                out.append(", ");
            },
            None => {},
        },
        Piece::Initializer => {
            push_attrs(out, &r.attrs);
            out.append(r.name.as_str());
            out.append(": ");
            match &r.extraction {
                Extraction::MemberProjection(m) => {
                    out.append("$P.");
                    out.append(m.as_str());
                },
                Extraction::LiteralExpr(x) => {
                    out.append(x.as_str());
                },
            }
            out.append(", ");
        },
    }
    assert(out@ =~= start + piece_text(p, r@));
}

fn push_pieces(out: &mut String, p: Piece, rs: &Vec<ResolvedField>)
    ensures
        final(out)@ == old(out)@ + pieces_text(p, resolved_view(rs@)),
{
    let ghost all = resolved_view(rs@);
    let ghost start = out@;
    let mut i: usize = 0;
    assert(all.subrange(0, 0) =~= Seq::<ResolvedModel>::empty());
    assert(start + pieces_text(p, all.subrange(0, 0)) =~= start);
    while i < rs.len()
        invariant
            i <= rs@.len(),
            all == resolved_view(rs@),
            out@ == start + pieces_text(p, all.subrange(0, i as int)),
        decreases rs@.len() - i,
    {
        assert(all.subrange(0, i + 1).drop_last() =~= all.subrange(0, i as int));
        push_piece(out, p, &rs[i]);
        assert(out@ =~= start + pieces_text(p, all.subrange(0, i + 1)));
        i = i + 1;
    }
    assert(all.subrange(0, i as int) =~= all);
}

fn has_bound(rs: &Vec<ResolvedField>) -> (b: bool)
    ensures
        b == any_bound(resolved_view(rs@)),
{
    let mut i: usize = 0;
    while i < rs.len()
        invariant
            i <= rs@.len(),
            forall|j: int| 0 <= j < i ==> (#[trigger] rs@[j]).capabilities is None,
        decreases rs@.len() - i,
    {
        if rs[i].capabilities.is_some() {
            assert(resolved_view(rs@)[i as int].capabilities is Some);
            return true;
        }
        i = i + 1;
    }
    assert forall|j: int| 0 <= j < resolved_view(rs@).len() implies (
    #[trigger] resolved_view(rs@)[j]).capabilities is None by {
        assert(rs@[j].capabilities is None);
    }
    false
}

/// Emits the artifact for `schema` from its resolved fields `rs`.
pub fn emit(schema: &ResourceSchema, rs: &Vec<ResolvedField>) -> (a: GeneratedArtifact)
    ensures
        a@ == emit_spec(schema@, resolved_view(rs@)),
{
    let mut aliases = String::new();
    push_pieces(&mut aliases, Piece::AliasDecl, rs);

    let mut record = String::new();
    push_attrs(&mut record, &schema.attrs);
    record.append(schema.vis.as_str());
    record.append("struct ");
    record.append(schema.name.as_str());
    record.append(" {\n");
    push_pieces(&mut record, Piece::RecordField, rs);
    record.append("}\n");

    let validation = if has_bound(rs) {
        let mut v = String::new();
        v.append("impl ");
        v.append(schema.name.as_str());
        v.append(" where ");
        push_pieces(&mut v, Piece::BoundClause, rs);
        v.append("{}\n");
        Some(v)
    } else {
        None
    };

    let template = snake_case(schema.name.as_str());
    let mut constructor = String::new();
    constructor.append("#[doc = \"Extract `");
    constructor.append(schema.name.as_str());
    constructor.append("` from a `Peripherals` instance.\"]\nmacro_rules! ");
    constructor.append(template.as_str());
    constructor.append(" {\n    ( $P:ident ) => {\n        ");
    constructor.append(schema.name.as_str());
    constructor.append(" { ");
    push_pieces(&mut constructor, Piece::Initializer, rs);
    constructor.append("}\n    };\n}\n");

    let mut marker_module = template.clone();
    marker_module.append("_toml_recompile_hack");

    let a = GeneratedArtifact { aliases, record, validation, constructor, marker_module };
    assert(a@.record =~= record_text(schema@, resolved_view(rs@)));
    assert(a@.constructor =~= constructor_text(schema@, resolved_view(rs@)));
    assert(a@.marker_module =~= marker_module_text(schema@));
    assert(a@.validation == validation_text(schema@, resolved_view(rs@))) by {
        if any_bound(resolved_view(rs@)) {
            assert(a@.validation->Some_0 =~= ("impl "@ + schema@.name + " where "@ + pieces_text(
                Piece::BoundClause,
                resolved_view(rs@),
            ) + "{}\n"@));
        }
    }
    a
}

/// Resolves `schema` against `table` and, where every field resolves,
/// emits the artifact.
pub fn board_cfg(schema: &ResourceSchema, table: &ConfigTable) -> (r: Result<
    GeneratedArtifact,
    BoardCfgError,
>)
    ensures
        match r {
            Ok(a) => generate_spec(schema@, table@) == Ok::<ArtifactModel, crate::model::ErrorModel>(a@),
            Err(e) => generate_spec(schema@, table@) == Err::<ArtifactModel, crate::model::ErrorModel>(e@),
        },
{
    match resolve(schema, table) {
        Ok(rs) => Ok(emit(schema, &rs)),
        Err(e) => Err(e),
    }
}

} // verus!
