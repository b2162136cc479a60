use variegated_board_cfg::emit::{board_cfg, GeneratedArtifact};
use variegated_board_cfg::model::{
    BoardCfgError, ConfigTable, ConfigValue, Extraction, FieldDeclaration, ResourceSchema, Section,
    Shape,
};
use variegated_board_cfg::paths::{out_dir_argument, root_components};
use variegated_board_cfg::schema::{classify_shape, TypeForm};
use variegated_board_cfg::resolve::{resolve, resolve_field};

fn type_ref(v: &str) -> ConfigValue {
    ConfigValue::Str { value: v.to_string(), raw: format!("\"{}\"", v) }
}

fn literal(v: &str) -> ConfigValue {
    ConfigValue::Other { raw: v.to_string() }
}

fn section(name: &str, entries: Vec<(&str, ConfigValue)>) -> Section {
    Section {
        name: name.to_string(),
        entries: entries.into_iter().map(|(k, v)| (k.to_string(), v)).collect(),
    }
}

fn field(name: &str, shape: Shape, attrs: Vec<&str>) -> FieldDeclaration {
    FieldDeclaration {
        name: name.to_string(),
        vis: String::new(),
        shape,
        attrs: attrs.into_iter().map(|a| a.to_string()).collect(),
    }
}

fn schema(name: &str, section: &str, attrs: Vec<&str>, fields: Vec<FieldDeclaration>) -> ResourceSchema {
    ResourceSchema {
        name: name.to_string(),
        vis: String::new(),
        attrs: attrs.into_iter().map(|a| a.to_string()).collect(),
        section: section.to_string(),
        fields,
    }
}

fn board_table() -> ConfigTable {
    ConfigTable {
        sections: vec![
            section(
                "resources1",
                vec![("t0", literal("255")), ("p2", type_ref("PIN_2")), ("u1", type_ref("UART1"))],
            ),
            section(
                "resources2",
                vec![("p0", type_ref("PIN_0")), ("p1", type_ref("PIN_1")), ("u0", type_ref("UART0"))],
            ),
        ],
    }
}

fn resources1() -> ResourceSchema {
    schema(
        "Resources1",
        "resources1",
        vec!["#[allow(non_snake_case)]"],
        vec![
            field("t0", Shape::Concrete("u8".to_string()), vec![]),
            field("p2", Shape::Flexible(vec!["peripherals::Pin".to_string()]), vec![]),
            field("u1", Shape::Placeholder, vec![]),
        ],
    )
}

fn resources2() -> ResourceSchema {
    schema(
        "Resources2",
        "resources2",
        vec![],
        vec![
            field("p0", Shape::Placeholder, vec![]),
            field("p1", Shape::Placeholder, vec![]),
            field("u0", Shape::Placeholder, vec!["#[cfg(not(bogus_flag))]"]),
        ],
    )
}

fn generated(s: &ResourceSchema, t: &ConfigTable) -> GeneratedArtifact {
    match board_cfg(s, t) {
        Ok(a) => a,
        Err(_) => panic!("generation failed"),
    }
}

fn member(e: &Extraction) -> Option<&str> {
    match e {
        Extraction::MemberProjection(m) => Some(m.as_str()),
        Extraction::LiteralExpr(_) => None,
    }
}

#[test]
fn basic() {
    let table = board_table();
    let r1 = resolve(&resources1(), &table).unwrap_or_else(|_| panic!("resources1"));
    let r2 = resolve(&resources2(), &table).unwrap_or_else(|_| panic!("resources2"));

    assert_eq!(member(&r2[0].extraction), Some("PIN_0"));
    assert_eq!(member(&r2[1].extraction), Some("PIN_1"));
    assert_eq!(member(&r2[2].extraction), Some("UART0"));

    assert_eq!(member(&r1[1].extraction), Some("PIN_2"));
    assert_eq!(member(&r1[2].extraction), Some("UART1"));

    assert!(matches!(&r1[0].extraction, Extraction::LiteralExpr(x) if x.as_str() == "255"));
    assert_eq!(r1[0].ty, "u8");
}

#[test]
fn concrete_field_takes_literal() {
    let a = generated(&resources1(), &board_table());
    assert!(a.aliases.contains("type Resources1T0 = u8;\n"));
    assert!(a.constructor.contains("t0: 255, "));
}

#[test]
fn placeholder_projects_member() {
    let a = generated(&resources2(), &board_table());
    assert!(a.aliases.contains("type Resources2P0 = PIN_0;\n"));
    assert!(a.constructor.contains("p0: $P.PIN_0, "));
    assert!(a.record.contains("    p0: Resources2P0,\n"));
}

#[test]
fn qualified_reference_projects_leaf() {
    let table = ConfigTable { sections: vec![section("s", vec![("u", type_ref("board::UART1"))])] };
    let s = schema("Res", "s", vec![], vec![field("u", Shape::Placeholder, vec![])]);
    let a = generated(&s, &table);
    assert!(a.aliases.contains("= board::UART1;"));
    assert!(a.constructor.contains("u: $P.UART1, "));
}

#[test]
fn flexible_field_records_obligation() {
    let a = generated(&resources1(), &board_table());
    assert!(a.aliases.contains("type Resources1P2 = PIN_2;\n"));
    assert!(a.constructor.contains("p2: $P.PIN_2, "));
    assert_eq!(
        a.validation.as_deref(),
        Some("impl Resources1 where Resources1P2: peripherals::Pin, {}\n")
    );
}

#[test]
fn flexible_bounds_joined() {
    let table = ConfigTable { sections: vec![section("s", vec![("p", type_ref("PIN_2"))])] };
    let s = schema(
        "Res",
        "s",
        vec![],
        vec![field("p", Shape::Flexible(vec!["Pin".to_string(), "Send".to_string()]), vec![])],
    );
    let a = generated(&s, &table);
    assert_eq!(a.validation.as_deref(), Some("impl Res where ResP: Pin + Send, {}\n"));
}

#[test]
fn no_validation_without_bounds() {
    let a = generated(&resources2(), &board_table());
    assert!(a.validation.is_none());
}

#[test]
fn missing_field_named() {
    let table = ConfigTable { sections: vec![section("s", vec![("a", type_ref("PIN_0"))])] };
    let s = schema(
        "Res",
        "s",
        vec![],
        vec![field("a", Shape::Placeholder, vec![]), field("b", Shape::Placeholder, vec![])],
    );
    assert!(matches!(board_cfg(&s, &table), Err(BoardCfgError::ConfigFieldMissing(n)) if n == "b"));
}

#[test]
fn missing_section() {
    let s = schema("Res", "nowhere", vec![], vec![]);
    assert!(matches!(
        board_cfg(&s, &board_table()),
        Err(BoardCfgError::ConfigSectionMissing(n)) if n == "nowhere"
    ));
}

#[test]
fn first_failing_field_decides() {
    let table = ConfigTable { sections: vec![section("s", vec![("a", literal("3"))])] };
    let s = schema(
        "Res",
        "s",
        vec![],
        vec![field("a", Shape::Placeholder, vec![]), field("b", Shape::Placeholder, vec![])],
    );
    assert!(matches!(
        board_cfg(&s, &table),
        Err(BoardCfgError::ConfigValueTypeMismatch(n)) if n == "a"
    ));
}

#[test]
fn sections_independent() {
    let s = resources2();
    let a = generated(&s, &board_table());
    let mut other = board_table();
    other.sections[0] = section("resources1", vec![("t0", literal("1"))]);
    let b = generated(&s, &other);
    assert_eq!(a.aliases, b.aliases);
    assert_eq!(a.record, b.record);
    assert_eq!(a.constructor, b.constructor);
}

#[test]
fn generation_deterministic() {
    let a = generated(&resources1(), &board_table());
    let b = generated(&resources1(), &board_table());
    assert_eq!(a.aliases, b.aliases);
    assert_eq!(a.record, b.record);
    assert_eq!(a.validation, b.validation);
    assert_eq!(a.constructor, b.constructor);
    assert_eq!(a.marker_module, b.marker_module);
    let t0 = a.aliases.find("Resources1T0").unwrap();
    let p2 = a.aliases.find("Resources1P2").unwrap();
    let u1 = a.aliases.find("Resources1U1").unwrap();
    assert!(t0 < p2 && p2 < u1);
}

#[test]
fn scenario_literal_byte() {
    let table = ConfigTable { sections: vec![section("s", vec![("t0", literal("255"))])] };
    let s = schema("Res", "s", vec![], vec![field("t0", Shape::Concrete("u8".to_string()), vec![])]);
    let a = generated(&s, &table);
    assert!(a.constructor.contains("t0: 255, "));
    assert!(a.aliases.contains("type ResT0 = u8;\n"));
}

#[test]
fn scenario_conditional_field() {
    let a = generated(&resources2(), &board_table());
    assert!(a.record.contains("    #[cfg(not(bogus_flag))] u0: Resources2U0,\n"));
    assert!(a.constructor.contains("#[cfg(not(bogus_flag))] u0: $P.UART0, "));
}

#[test]
fn scenario_number_for_placeholder() {
    let entries = vec![("u".to_string(), literal("7"))];
    let f = field("u", Shape::Placeholder, vec![]);
    assert!(matches!(
        resolve_field(&"Res".to_string(), &f, &entries),
        Err(BoardCfgError::ConfigValueTypeMismatch(n)) if n == "u"
    ));
}

#[test]
fn unparsable_literal_rejected() {
    let entries = vec![("t".to_string(), literal("[1, 2"))];
    let f = field("t", Shape::Concrete("u8".to_string()), vec![]);
    assert!(matches!(
        resolve_field(&"Res".to_string(), &f, &entries),
        Err(BoardCfgError::ConfigValueTypeMismatch(n)) if n == "t"
    ));
}

#[test]
fn string_literal_for_concrete_field() {
    let entries = vec![("name".to_string(), type_ref("board"))];
    let f = field("name", Shape::Concrete("&'static str".to_string()), vec![]);
    let r = resolve_field(&"Res".to_string(), &f, &entries).unwrap_or_else(|_| panic!("name"));
    assert!(matches!(&r.extraction, Extraction::LiteralExpr(x) if x.as_str() == "\"board\""));
}

#[test]
fn bad_type_reference() {
    let entries = vec![("p".to_string(), type_ref("not a type"))];
    let f = field("p", Shape::Placeholder, vec![]);
    assert!(matches!(
        resolve_field(&"Res".to_string(), &f, &entries),
        Err(BoardCfgError::TypeReferenceParseError(n)) if n == "p"
    ));
}

#[test]
fn non_path_type_reference() {
    let entries = vec![("p".to_string(), type_ref("[u8; 4]"))];
    let f = field("p", Shape::Placeholder, vec![]);
    assert!(matches!(
        resolve_field(&"Res".to_string(), &f, &entries),
        Err(BoardCfgError::TypeReferenceParseError(n)) if n == "p"
    ));
}

#[test]
fn constructor_template_named_in_snake_case() {
    let a = generated(&resources1(), &board_table());
    assert!(a.constructor.contains("macro_rules! resources_1 {"));
    assert!(a.constructor.contains("( $P:ident ) => {"));
    assert_eq!(a.marker_module, "resources_1_toml_recompile_hack");
    assert!(a.record.starts_with("#[allow(non_snake_case)] struct Resources1 {\n"));
}

#[test]
fn out_dir_found() {
    let args: Vec<String> = vec!["rustc", "--out-dir", "/w/target/debug/deps", "-C", "x"]
        .into_iter()
        .map(|s| s.to_string())
        .collect();
    assert_eq!(out_dir_argument(&args), Some("/w/target/debug/deps".to_string()));
    let dangling: Vec<String> = vec!["--out-dir".to_string()];
    assert_eq!(out_dir_argument(&dangling), None);
}

#[test]
fn root_above_target() {
    let comps: Vec<String> =
        vec!["/", "w", "target", "debug", "deps"].into_iter().map(|s| s.to_string()).collect();
    assert_eq!(root_components(&comps), Some(vec!["/".to_string(), "w".to_string()]));
    let none: Vec<String> = vec!["/".to_string(), "w".to_string()];
    assert_eq!(root_components(&none), None);
}

#[test]
fn config_read_from_toml() {
    let text = "[resources1]\nt0 = 255\np2 = \"PIN_2\"\nu1 = \"UART1\"\n\n[resources2]\nu0 = \"UART0\"\n";
    let table = match variegated_board_cfg::loader::load_config(text) {
        Ok(t) => t,
        Err(_) => panic!("valid configuration"),
    };
    assert_eq!(table.sections.len(), 2);
    let s1 = table.sections.iter().find(|s| s.name == "resources1").unwrap();
    let t0 = s1.entries.iter().find(|e| e.0 == "t0").unwrap();
    assert!(matches!(&t0.1, ConfigValue::Other { raw } if raw.as_str() == "255"));
    let p2 = s1.entries.iter().find(|e| e.0 == "p2").unwrap();
    assert!(matches!(
        &p2.1,
        ConfigValue::Str { value, raw } if value.as_str() == "PIN_2" && raw.as_str() == "\"PIN_2\""
    ));
    let a = generated(&resources1(), &table);
    assert!(a.constructor.contains("t0: 255, "));
    assert!(a.constructor.contains("p2: $P.PIN_2, "));
}

#[test]
fn config_parse_errors() {
    let bad = variegated_board_cfg::loader::load_config("this is = = not toml");
    assert!(matches!(bad, Err(BoardCfgError::ConfigParseError)));
    let flat = variegated_board_cfg::loader::load_config("x = 1\n");
    assert!(matches!(flat, Err(BoardCfgError::ConfigParseError)));
}

#[test]
fn shapes_classified() {
    let unit = classify_shape(TypeForm::Tuple { arity: 0, text: "()".to_string() });
    assert!(matches!(unit, Shape::Placeholder));
    let pair = classify_shape(TypeForm::Tuple { arity: 2, text: "(u8, u8)".to_string() });
    assert!(matches!(pair, Shape::Concrete(t) if t == "(u8, u8)"));
    let other = classify_shape(TypeForm::Other("u8".to_string()));
    assert!(matches!(other, Shape::Concrete(t) if t == "u8"));
    let flexible = classify_shape(TypeForm::ImplTrait(vec!["Pin".to_string()]));
    assert!(matches!(flexible, Shape::Flexible(b) if b == vec!["Pin".to_string()]));
}

#[test]
fn config_sections_and_array_literal() {
    let text = "[b]\nx = \"PIN_0\"\n[a]\ny = [1, 2]\n";
    let table = match variegated_board_cfg::loader::load_config(text) {
        Ok(t) => t,
        Err(_) => panic!("valid configuration"),
    };
    let names: Vec<&str> = table.sections.iter().map(|s| s.name.as_str()).collect();
    assert_eq!(names.len(), 2);
    assert!(names.contains(&"a") && names.contains(&"b"));
    let a = table.sections.iter().find(|s| s.name == "a").unwrap();
    assert!(matches!(&a.entries[0].1, ConfigValue::Other { raw } if raw.as_str() == "[1, 2]"));
}
