//! The data of a generation pass: configuration values, schemas, resolved
//! fields and errors, each with its mathematical model.

use vstd::prelude::*;

verus! {

/// One entry of a configuration section, as the loader found it: a
/// string-valued entry keeps both its string and its text as a literal.
pub enum ConfigValue {
    Str { value: String, raw: String },
    Other { raw: String },
}

/// The named sub-table of a configuration table that binds one resource.
pub struct Section {
    pub name: String,
    pub entries: Vec<(String, ConfigValue)>,
}

/// A whole configuration table: its sections, in the order they were read.
pub struct ConfigTable {
    pub sections: Vec<Section>,
}

/// How a field's declared type is to be resolved.
pub enum Shape {
    /// A fully specified type: the value comes from a literal entry.
    Concrete(String),
    /// An open type bound by these capabilities: the type comes from a
    /// type-reference entry.
    Flexible(Vec<String>),
    /// An open type with no bound: the type comes from a type-reference entry.
    Placeholder,
}

/// A field of a resource declaration, with its visibility text and the
/// attributes (documentation, conditional markers) it carries.
pub struct FieldDeclaration {
    pub name: String,
    pub vis: String,
    pub shape: Shape,
    pub attrs: Vec<String>,
}

/// A resource declaration bound to the configuration section `section`.
pub struct ResourceSchema {
    pub name: String,
    pub vis: String,
    pub attrs: Vec<String>,
    pub section: String,
    pub fields: Vec<FieldDeclaration>,
}

/// How the constructor obtains a field's value.
pub enum Extraction {
    /// The member of the context whose name is given.
    MemberProjection(String),
    /// The literal expression given.
    LiteralExpr(String),
}

/// A field whose type and value have been resolved.
pub struct ResolvedField {
    pub name: String,
    pub vis: String,
    pub alias: String,
    pub ty: String,
    pub extraction: Extraction,
    pub capabilities: Option<Vec<String>>,
    pub attrs: Vec<String>,
}

/// Why a generation pass stopped.
pub enum BoardCfgError {
    ConfigFileNotFound,
    ConfigParseError,
    ConfigSectionMissing(String),
    ConfigFieldMissing(String),
    ConfigValueTypeMismatch(String),
    TypeReferenceParseError(String),
}

pub enum ValueModel {
    Str { value: Seq<char>, raw: Seq<char> },
    Other { raw: Seq<char> },
}

pub enum ShapeModel {
    Concrete(Seq<char>),
    Flexible(Seq<Seq<char>>),
    Placeholder,
}

pub struct FieldModel {
    pub name: Seq<char>,
    pub vis: Seq<char>,
    pub shape: ShapeModel,
    pub attrs: Seq<Seq<char>>,
}

pub struct SchemaModel {
    pub name: Seq<char>,
    pub vis: Seq<char>,
    pub attrs: Seq<Seq<char>>,
    pub section: Seq<char>,
    pub fields: Seq<FieldModel>,
}

pub enum ExtractionModel {
    MemberProjection(Seq<char>),
    LiteralExpr(Seq<char>),
}

pub struct ResolvedModel {
    pub name: Seq<char>,
    pub vis: Seq<char>,
    pub alias: Seq<char>,
    pub ty: Seq<char>,
    pub extraction: ExtractionModel,
    pub capabilities: Option<Seq<Seq<char>>>,
    pub attrs: Seq<Seq<char>>,
}

pub enum ErrorModel {
    ConfigFileNotFound,
    ConfigParseError,
    ConfigSectionMissing(Seq<char>),
    ConfigFieldMissing(Seq<char>),
    ConfigValueTypeMismatch(Seq<char>),
    TypeReferenceParseError(Seq<char>),
}

/// A section's entries: field name and value, in the order read.
pub type SectionModel = Seq<(Seq<char>, ValueModel)>;

/// A table's sections: section name and entries, in the order read.
pub type TableModel = Seq<(Seq<char>, SectionModel)>;

pub open spec fn strings_view(v: Seq<String>) -> Seq<Seq<char>> {
    v.map_values(|s: String| s@)
}

impl View for ConfigValue {
    type V = ValueModel;

    open spec fn view(&self) -> ValueModel {
        match self {
            ConfigValue::Str { value, raw } => ValueModel::Str { value: value@, raw: raw@ },
            ConfigValue::Other { raw } => ValueModel::Other { raw: raw@ },
        }
    }
}

pub open spec fn entries_view(v: Seq<(String, ConfigValue)>) -> SectionModel {
    v.map_values(|e: (String, ConfigValue)| (e.0@, e.1@))
}

impl View for Section {
    type V = (Seq<char>, SectionModel);

    open spec fn view(&self) -> (Seq<char>, SectionModel) {
        (self.name@, entries_view(self.entries@))
    }
}

/// No two entries share a name.
pub open spec fn names_distinct<V>(s: Seq<(Seq<char>, V)>) -> bool {
    forall|i: int, j: int| 0 <= i < j < s.len() ==> s[i].0 != s[j].0
}

/// A well-formed table: section names are distinct, and so are the entry
/// names within each section.
pub open spec fn table_wf(t: TableModel) -> bool {
    &&& names_distinct(t)
    &&& forall|i: int| 0 <= i < t.len() ==> names_distinct(#[trigger] t[i].1)
}

impl ConfigTable {
    pub open spec fn wf(&self) -> bool {
        table_wf(self@)
    }
}

impl View for ConfigTable {
    type V = TableModel;

    open spec fn view(&self) -> TableModel {
        self.sections@.map_values(|s: Section| s@)
    }
}

impl View for Shape {
    type V = ShapeModel;

    open spec fn view(&self) -> ShapeModel {
        match self {
            Shape::Concrete(t) => ShapeModel::Concrete(t@),
            Shape::Flexible(caps) => ShapeModel::Flexible(strings_view(caps@)),
            Shape::Placeholder => ShapeModel::Placeholder,
        }
    }
}

impl View for FieldDeclaration {
    type V = FieldModel;

    open spec fn view(&self) -> FieldModel {
        FieldModel {
            name: self.name@,
            vis: self.vis@,
            shape: self.shape@,
            attrs: strings_view(self.attrs@),
        }
    }
}

pub open spec fn fields_view(v: Seq<FieldDeclaration>) -> Seq<FieldModel> {
    v.map_values(|f: FieldDeclaration| f@)
}

impl View for ResourceSchema {
    type V = SchemaModel;

    open spec fn view(&self) -> SchemaModel {
        SchemaModel {
            name: self.name@,
            vis: self.vis@,
            attrs: strings_view(self.attrs@),
            section: self.section@,
            fields: fields_view(self.fields@),
        }
    }
}

impl View for Extraction {
    type V = ExtractionModel;

    open spec fn view(&self) -> ExtractionModel {
        match self {
            Extraction::MemberProjection(m) => ExtractionModel::MemberProjection(m@),
            Extraction::LiteralExpr(e) => ExtractionModel::LiteralExpr(e@),
        }
    }
}

impl View for ResolvedField {
    type V = ResolvedModel;

    open spec fn view(&self) -> ResolvedModel {
        ResolvedModel {
            name: self.name@,
            vis: self.vis@,
            alias: self.alias@,
            ty: self.ty@,
            extraction: self.extraction@,
            capabilities: match self.capabilities {
                Some(c) => Some(strings_view(c@)),
                None => None,
            },
            attrs: strings_view(self.attrs@),
        }
    }
}

pub open spec fn resolved_view(v: Seq<ResolvedField>) -> Seq<ResolvedModel> {
    v.map_values(|f: ResolvedField| f@)
}

impl View for BoardCfgError {
    type V = ErrorModel;

    open spec fn view(&self) -> ErrorModel {
        match self {
            BoardCfgError::ConfigFileNotFound => ErrorModel::ConfigFileNotFound,
            BoardCfgError::ConfigParseError => ErrorModel::ConfigParseError,
            BoardCfgError::ConfigSectionMissing(s) => ErrorModel::ConfigSectionMissing(s@),
            BoardCfgError::ConfigFieldMissing(s) => ErrorModel::ConfigFieldMissing(s@),
            BoardCfgError::ConfigValueTypeMismatch(s) => ErrorModel::ConfigValueTypeMismatch(s@),
            BoardCfgError::TypeReferenceParseError(s) => ErrorModel::TypeReferenceParseError(s@),
        }
    }
}

} // verus!
