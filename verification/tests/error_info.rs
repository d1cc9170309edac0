use error_code_derive::parse;
use error_code_derive::process_error_info;
use error_code_derive::render;
use error_code_derive::synthesize;
use error_code_derive::AttrEntry;
use error_code_derive::AttrValue;
use error_code_derive::DeclKind;
use error_code_derive::ParseError;
use error_code_derive::RawDecl;
use error_code_derive::RawVariant;
use error_code_derive::VariantShape;

fn entry(key: &str, val: &str) -> AttrEntry {
    AttrEntry { key: key.to_string(), value: AttrValue::Str(val.to_string()) }
}

fn non_str(key: &str) -> AttrEntry {
    AttrEntry { key: key.to_string(), value: AttrValue::NonStr }
}

fn variant(name: &str, shape: VariantShape, entries: Vec<AttrEntry>) -> RawVariant {
    RawVariant { name: name.to_string(), shape, entries }
}

fn my_error_decl() -> RawDecl {
    RawDecl {
        kind: DeclKind::Enum,
        name: "MyError".to_string(),
        generics: String::new(),
        entries: vec![entry("app_type", "http::StatusCode"), entry("prefix", "01")],
        variants: vec![
            variant(
                "InvalidCommand",
                VariantShape::Tuple,
                vec![entry("code", "IC"), entry("app_code", "400")],
            ),
            variant(
                "InvalidArgument",
                VariantShape::Tuple,
                vec![
                    entry("code", "IA"),
                    entry("app_code", "400"),
                    entry("client_msg", "friendly msg"),
                ],
            ),
            variant(
                "RespError",
                VariantShape::Tuple,
                vec![entry("code", "RE"), entry("app_code", "500")],
            ),
        ],
    }
}

#[test]
fn test_data_struct() {
    let decl = my_error_decl();
    let info = parse(&decl).unwrap();
    println!("{:#?}", info);

    assert_eq!(info.enum_name, "MyError");
    assert_eq!(info.prefix, "01");

    let code = process_error_info(&decl).unwrap();
    println!("{}", code);
}

#[test]
fn end_to_end_three_variants() {
    let decl = my_error_decl();
    let config = parse(&decl).unwrap();
    let generated = synthesize(&config);

    assert_eq!(generated.arms.len(), 3);
    assert_eq!(generated.arms[0].full_code, "01IC");
    assert_eq!(generated.arms[0].client_msg, "");
    assert_eq!(generated.arms[1].full_code, "01IA");
    assert_eq!(generated.arms[1].client_msg, "friendly msg");
    assert_eq!(generated.arms[2].full_code, "01RE");
    assert_eq!(generated.arms[2].client_msg, "");
    assert_eq!(generated.arms[0].app_code, "400");
    assert_eq!(generated.arms[2].app_code, "500");

    let text = render(&generated);
    assert!(text.contains("impl  ToErrorInfo for MyError"));
    assert!(text.contains("type T = http::StatusCode;"));
    assert!(text.contains("MyError::InvalidCommand(..) => {"));
    assert!(text.contains("ErrorInfo::new(\"400\", \"01IC\", \"\", self)"));
    assert!(text.contains("ErrorInfo::new(\"400\", \"01IA\", \"friendly msg\", self)"));
    assert!(text.contains("ErrorInfo::new(\"500\", \"01RE\", \"\", self)"));
}

#[test]
fn one_arm_per_variant_with_distinct_patterns() {
    let decl = my_error_decl();
    let config = parse(&decl).unwrap();
    let generated = synthesize(&config);

    assert_eq!(generated.arms.len(), config.variants.len());
    for (arm, vc) in generated.arms.iter().zip(config.variants.iter()) {
        assert_eq!(arm.variant_name, vc.variant_name);
        assert_eq!(arm.shape, vc.shape);
    }
    for i in 0..generated.arms.len() {
        for j in 0..generated.arms.len() {
            if i != j {
                assert_ne!(generated.arms[i].variant_name, generated.arms[j].variant_name);
            }
        }
    }
}

#[test]
fn full_code_concatenates_prefix_and_code() {
    let mut decl = my_error_decl();
    decl.entries = vec![entry("app_type", "u16"), entry("prefix", "XY")];
    let config = parse(&decl).unwrap();
    let generated = synthesize(&config);
    assert_eq!(generated.arms[0].full_code, "XYIC");

    decl.entries = vec![entry("app_type", "u16"), entry("prefix", "")];
    let generated = synthesize(&parse(&decl).unwrap());
    assert_eq!(generated.arms[0].full_code, "IC");
}

#[test]
fn omitted_optional_parameters_default_to_empty() {
    let decl = RawDecl {
        kind: DeclKind::Enum,
        name: "E".to_string(),
        generics: String::new(),
        entries: vec![entry("app_type", "u8"), entry("prefix", "02")],
        variants: vec![variant("Bare", VariantShape::Unit, vec![entry("code", "BB")])],
    };
    let config = parse(&decl).unwrap();
    assert_eq!(config.variants[0].app_code, "");
    assert_eq!(config.variants[0].client_msg, "");

    let generated = synthesize(&config);
    assert_eq!(generated.arms[0].app_code, "");
    assert_eq!(generated.arms[0].client_msg, "");
    let text = render(&generated);
    assert!(text.contains("ErrorInfo::new(\"\", \"02BB\", \"\", self)"));
}

#[test]
fn missing_code_fails_and_yields_no_output() {
    let mut decl = my_error_decl();
    decl.variants[1].entries = vec![entry("app_code", "400")];
    assert_eq!(parse(&decl).unwrap_err(), ParseError::MissingCode(1));
    assert!(process_error_info(&decl).is_err());
}

#[test]
fn non_enum_declaration_is_rejected() {
    let mut decl = my_error_decl();
    decl.kind = DeclKind::Struct;
    assert_eq!(process_error_info(&decl).unwrap_err(), ParseError::NotAnEnum);
    decl.kind = DeclKind::Union;
    assert_eq!(process_error_info(&decl).unwrap_err(), ParseError::NotAnEnum);
    assert_eq!(
        ParseError::NotAnEnum.message(),
        "error_info: only an enum can derive the conversion"
    );
}

#[test]
fn missing_enum_level_parameters_are_rejected() {
    let mut decl = my_error_decl();
    decl.entries = vec![entry("prefix", "01")];
    assert_eq!(parse(&decl).unwrap_err(), ParseError::MissingAppType);

    decl.entries = vec![entry("app_type", "u8")];
    assert_eq!(parse(&decl).unwrap_err(), ParseError::MissingPrefix);
}

#[test]
fn malformed_enum_level_parameters_are_rejected() {
    let mut decl = my_error_decl();
    decl.entries = vec![non_str("app_type"), entry("prefix", "01")];
    assert_eq!(parse(&decl).unwrap_err(), ParseError::MalformedAppType);

    decl.entries = vec![entry("app_type", "this is !! not a type"), entry("prefix", "01")];
    assert_eq!(parse(&decl).unwrap_err(), ParseError::MalformedAppType);

    decl.entries = vec![entry("app_type", "u8"), non_str("prefix")];
    assert_eq!(parse(&decl).unwrap_err(), ParseError::MalformedPrefix);
}

#[test]
fn malformed_variant_parameters_are_rejected() {
    let mut decl = my_error_decl();
    decl.variants[0].entries = vec![non_str("code")];
    assert_eq!(parse(&decl).unwrap_err(), ParseError::MalformedCode(0));

    decl.variants[0].entries = vec![entry("code", "IC"), non_str("app_code")];
    assert_eq!(parse(&decl).unwrap_err(), ParseError::MalformedAppCode(0));

    decl.variants[0].entries = vec![entry("code", "IC"), non_str("client_msg")];
    assert_eq!(parse(&decl).unwrap_err(), ParseError::MalformedClientMsg(0));
}

#[test]
fn variant_shapes_pick_their_patterns() {
    let decl = RawDecl {
        kind: DeclKind::Enum,
        name: "Shaped".to_string(),
        generics: String::new(),
        entries: vec![entry("app_type", "u8"), entry("prefix", "03")],
        variants: vec![
            variant("U", VariantShape::Unit, vec![entry("code", "AA")]),
            variant("T", VariantShape::Tuple, vec![entry("code", "BB")]),
            variant("S", VariantShape::Struct, vec![entry("code", "CC")]),
        ],
    };
    let text = process_error_info(&decl).unwrap();
    assert!(text.contains("Shaped::U => {"));
    assert!(text.contains("Shaped::T(..) => {"));
    assert!(text.contains("Shaped::S { .. } => {"));
}

#[test]
fn generics_are_echoed_verbatim() {
    let mut decl = my_error_decl();
    decl.generics = "<T>".to_string();
    let text = process_error_info(&decl).unwrap();
    assert!(text.contains("impl <T> ToErrorInfo for MyError <T> {"));
}

#[test]
fn embedded_strings_are_escaped() {
    let mut decl = my_error_decl();
    decl.variants[0].entries = vec![
        entry("code", "IC"),
        entry("client_msg", "say \"hi\" and \\ goodbye"),
    ];
    let text = process_error_info(&decl).unwrap();
    assert!(text.contains("\"say \\\"hi\\\" and \\\\ goodbye\""));
}

#[test]
fn first_binding_of_a_key_wins() {
    let mut decl = my_error_decl();
    decl.variants[0].entries = vec![entry("code", "IC"), entry("code", "ZZ")];
    let config = parse(&decl).unwrap();
    assert_eq!(config.variants[0].local_code, "IC");
}

#[test]
fn generated_text_carries_the_trait_frame() {
    let text = process_error_info(&my_error_decl()).unwrap();
    assert!(text.starts_with("use error_code::{ErrorInfo, ToErrorInfo as _};\n"));
    assert!(text.contains("fn to_error_info(&self) -> ErrorInfo<Self::T> {"));
    assert!(text.contains("match self {"));
    assert!(text.ends_with("}\n"));
}
