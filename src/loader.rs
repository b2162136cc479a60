//! Reading a configuration table out of TOML text: each top-level table is
//! a section; string-valued entries keep both their string and their text
//! as a TOML literal, other entries keep that text alone.

use vstd::prelude::*;
use crate::model::{
    entries_view, names_distinct, table_wf, BoardCfgError, ConfigTable, ConfigValue, Section, SectionModel, TableModel,
};

verus! {

/// What `<toml::Table as FromStr>::from_str` makes of a text, read as plain
/// values: each top-level key with, where its value is a table, that
/// table's entries (string-valued ones with their string and their TOML
/// text, others with their TOML text), and `None` where it is not a table.
pub uninterp spec fn toml_sections_of(s: Seq<char>) -> Seq<(Seq<char>, Option<SectionModel>)>;

/// Whether `<toml::Table as FromStr>::from_str` accepts a text.
pub uninterp spec fn parses_as_toml(s: Seq<char>) -> bool;

pub type RawSections = Vec<(String, Option<Vec<(String, ConfigValue)>>)>;

pub open spec fn raw_view(r: Seq<(String, Option<Vec<(String, ConfigValue)>>)>) -> Seq<
    (Seq<char>, Option<SectionModel>),
> {
    r.map_values(
        |e: (String, Option<Vec<(String, ConfigValue)>>)|
            (
                e.0@,
                match e.1 {
                    Some(v) => Some(entries_view(v@)),
                    None => None,
                },
            ),
    )
}

/// The sections of a top-level document all of whose values are tables.
pub open spec fn sections_of(top: Seq<(Seq<char>, Option<SectionModel>)>) -> TableModel {
    top.map_values(|e: (Seq<char>, Option<SectionModel>)| (e.0, e.1->Some_0))
}

/// Relies on `<toml::Table as FromStr>::from_str`, on iterating a
/// `toml::map::Map` (whose keys are distinct), and on `Display for
/// toml::Value` for each entry's TOML text.
#[verifier::external_body]
fn parse_toml(text: &str) -> (r: Option<RawSections>)
    ensures
        r is Some == parses_as_toml(text@),
        r is Some ==> raw_view(r->Some_0@) == toml_sections_of(text@),
        r is Some ==> names_distinct(raw_view(r->Some_0@)),
        r is Some ==> forall|i: int|
            0 <= i < raw_view(r->Some_0@).len() && (#[trigger] raw_view(r->Some_0@)[i]).1 is Some
                ==> names_distinct(raw_view(r->Some_0@)[i].1->Some_0),
{
    let top = text.parse::<toml::Table>().ok()?;
    Some(top.into_iter().map(|(name, v)| match v {
        toml::Value::Table(t) => (name, Some(t.into_iter().map(|(k, e)| {
            let raw = e.to_string();
            match e {
                toml::Value::String(value) => (k, ConfigValue::Str { value, raw }),
                _ => (k, ConfigValue::Other { raw }),
            }
        }).collect())),
        _ => (name, None),
    }).collect())
}

/// Reads a configuration table out of TOML text. It succeeds exactly when
/// the text is a TOML document whose top-level values are all tables, and
/// then holds those tables as sections, in order; otherwise it fails with
/// `ConfigParseError`.
pub fn load_config(text: &str) -> (r: Result<ConfigTable, BoardCfgError>)
    ensures
        r is Ok <==> parses_as_toml(text@) && forall|i: int|
            0 <= i < toml_sections_of(text@).len() ==> (#[trigger] toml_sections_of(text@)[i]).1 is Some,
        r is Ok ==> r->Ok_0@ == sections_of(toml_sections_of(text@)),
        r is Ok ==> r->Ok_0.wf(),
        r is Err ==> r->Err_0 is ConfigParseError,
{
    let top = match parse_toml(text) {
        Some(t) => t,
        None => return Err(BoardCfgError::ConfigParseError),
    };
    let ghost all = raw_view(top@);
    let n: usize = top.len();
    let mut sections: Vec<Section> = Vec::new();
    let mut rest = top;
    let mut i: usize = 0;
    assert(all.subrange(0, 0) =~= Seq::<(Seq<char>, Option<SectionModel>)>::empty());
    assert(sections@.map_values(|s: Section| s@) =~= sections_of(all.subrange(0, 0)));
    while rest.len() > 0
        invariant
            i + rest@.len() == all.len(),
            all.len() == n,
            all == toml_sections_of(text@),
            names_distinct(all),
            forall|k: int| 0 <= k < all.len() && (#[trigger] all[k]).1 is Some ==> names_distinct(all[k].1->Some_0),
            raw_view(rest@) == all.subrange(i as int, all.len() as int),
            forall|k: int| 0 <= k < i ==> (#[trigger] all[k]).1 is Some,
            sections@.map_values(|s: Section| s@) == sections_of(all.subrange(0, i as int)),
        decreases rest@.len(),
    {
        let ghost old_rest = rest@;
        let ghost before = sections@.map_values(|s: Section| s@);
        assert(raw_view(old_rest)[0] == all[i as int]);
        let (name, entries) = rest.remove(0);
        assert forall|k: int| 0 <= k < rest@.len() implies #[trigger] raw_view(rest@)[k] == all[i + 1
            + k] by {
            assert(rest@[k] == old_rest[k + 1]);
            assert(raw_view(old_rest)[k + 1] == all.subrange(i as int, all.len() as int)[k + 1]);
        }
        assert(raw_view(rest@) =~= all.subrange(i + 1, all.len() as int));
        match entries {
            Some(entries) => {
                let ghost sv = (name@, entries_view(entries@));
                assert(all[i as int] == (sv.0, Some(sv.1)));
                sections.push(Section { name, entries });
                assert(sections@.map_values(|s: Section| s@) =~= before.push(sv));
                assert(all.subrange(0, i + 1).drop_last() =~= all.subrange(0, i as int));
                assert(sections@.map_values(|s: Section| s@) =~= sections_of(all.subrange(0, i + 1)));
            },
            None => return Err(BoardCfgError::ConfigParseError),
        }
        i = i + 1;
    }
    assert(all.subrange(0, i as int) =~= all);
    let table = ConfigTable { sections };
    assert(table@ == sections_of(all));
    assert forall|k: int| 0 <= k < table@.len() implies names_distinct(#[trigger] table@[k].1) by {
        assert(all[k].1 is Some);
    }
    Ok(table)
}

} // verus!
