use late_init::emit::generate;
use late_init::emit::BuilderDesc;
use late_init::naming::mod_name;
use late_init::shape::extract;
use late_init::shape::Decl;
use late_init::shape::DeclBody;
use late_init::shape::FieldDecl;
use late_init::shape::Generics;
use late_init::shape::RecordShape;
use late_init::shape::ShapeError;

fn no_generics() -> Generics {
    Generics { lifetimes: Vec::new(), type_params: Vec::new(), const_params: Vec::new() }
}

fn named_field(name: &str, ty: &str) -> FieldDecl {
    FieldDecl { name: Some(name.to_string()), ty: ty.to_string() }
}

fn pos_field(ty: &str) -> FieldDecl {
    FieldDecl { name: None, ty: ty.to_string() }
}

fn record(name: &str, generics: Generics, fields: Vec<FieldDecl>) -> Decl {
    Decl { name: name.to_string(), generics, body: DeclBody::Record(fields) }
}

fn shape_of(decl: Decl) -> RecordShape {
    match extract(decl) {
        Ok(shape) => shape,
        Err(_) => panic!("declaration was rejected"),
    }
}

const TAG: &str = "9c7ea5a7_03be_4f1c_a760_c570173fc90f";

#[test]
fn point_record_generation() {
    let decl = record(
        "Point",
        no_generics(),
        vec![named_field("x", "u32"), named_field("y", "u32")],
    );
    let g: BuilderDesc = generate(&shape_of(decl));
    assert_eq!(g.builder_ident.as_str(), "PointLateInit");
    assert_eq!(g.mod_ident.as_str(), format!("mod_{}_gqri6nhe", TAG).as_str());
    let flags: Vec<&str> = g.flag_params.iter().map(|s| s.as_str()).collect();
    assert_eq!(flags, vec!["xInit", "yInit"]);
    let defaults: Vec<&str> = g.default_args.iter().map(|s| s.as_str()).collect();
    assert_eq!(defaults, vec!["false", "false"]);
    let current: Vec<&str> = g.current_args.iter().map(|s| s.as_str()).collect();
    assert_eq!(current, vec!["xInit", "yInit"]);
    assert_eq!(g.setters.len(), 2);
    assert_eq!(g.setters[0].name.as_str(), "x");
    assert_eq!(g.setters[0].ty.as_str(), "u32");
    assert_eq!(g.setters[0].uninit_flag.as_str(), "xInit");
    assert_eq!(g.setters[0].write_target.as_str(), "x");
    let args0: Vec<&str> = g.setters[0].result_args.iter().map(|s| s.as_str()).collect();
    assert_eq!(args0, vec!["true", "yInit"]);
    let args1: Vec<&str> = g.setters[1].result_args.iter().map(|s| s.as_str()).collect();
    assert_eq!(args1, vec!["xInit", "true"]);
    assert_eq!(g.auto_inits.len(), 2);
    assert_eq!(g.auto_inits[0].flag.as_str(), "xInit");
    assert_eq!(g.auto_inits[0].target.as_str(), "x");
    assert_eq!(g.auto_inits[1].flag.as_str(), "yInit");
    assert_eq!(g.auto_inits[1].target.as_str(), "y");
    let tys: Vec<&str> = g.field_tys.iter().map(|s| s.as_str()).collect();
    assert_eq!(tys, vec!["u32", "u32"]);
}

#[test]
fn generics_are_kept_in_order() {
    let generics = Generics {
        lifetimes: vec!["'a".to_string()],
        type_params: vec!["T".to_string()],
        const_params: vec!["N".to_string()],
    };
    let decl = record(
        "Pair",
        generics,
        vec![named_field("first", "&'a T"), named_field("second", "u64")],
    );
    let g = generate(&shape_of(decl));
    let defaults: Vec<&str> = g.default_args.iter().map(|s| s.as_str()).collect();
    assert_eq!(defaults, vec!["'a", "T", "N", "false", "false"]);
    let current: Vec<&str> = g.current_args.iter().map(|s| s.as_str()).collect();
    assert_eq!(current, vec!["'a", "T", "N", "firstInit", "secondInit"]);
    let args0: Vec<&str> = g.setters[0].result_args.iter().map(|s| s.as_str()).collect();
    assert_eq!(args0, vec!["'a", "T", "N", "true", "secondInit"]);
    let args1: Vec<&str> = g.setters[1].result_args.iter().map(|s| s.as_str()).collect();
    assert_eq!(args1, vec!["'a", "T", "N", "firstInit", "true"]);
}

#[test]
fn positional_fields_get_positional_names() {
    let decl = record("Pair", no_generics(), vec![pos_field("u8"), pos_field("u16")]);
    let g = generate(&shape_of(decl));
    let flags: Vec<&str> = g.flag_params.iter().map(|s| s.as_str()).collect();
    assert_eq!(flags, vec!["_0Init", "_1Init"]);
    assert_eq!(g.setters[0].name.as_str(), "set_0");
    assert_eq!(g.setters[1].name.as_str(), "set_1");
    assert_ne!(g.setters[0].name, g.setters[1].name);
    assert_eq!(g.setters[0].write_target.as_str(), "0");
    assert_eq!(g.setters[1].write_target.as_str(), "1");
}

#[test]
fn eleven_positional_fields_stay_distinct() {
    let fields: Vec<FieldDecl> = (0..11).map(|_| pos_field("u8")).collect();
    let decl = record("Wide", no_generics(), fields);
    let g = generate(&shape_of(decl));
    assert_eq!(g.setters[10].name.as_str(), "set_10");
    assert_eq!(g.flag_params[10].as_str(), "_10Init");
    for i in 0..11 {
        for j in 0..11 {
            if i != j {
                assert_ne!(g.setters[i].name, g.setters[j].name);
                assert_ne!(g.flag_params[i], g.flag_params[j]);
            }
        }
    }
}

#[test]
fn sum_type_is_rejected() {
    let decl = Decl { name: "E".to_string(), generics: no_generics(), body: DeclBody::Sum };
    assert!(matches!(extract(decl), Err(ShapeError::Sum)));
}

#[test]
fn union_is_rejected() {
    let decl = Decl { name: "U".to_string(), generics: no_generics(), body: DeclBody::Union };
    assert!(matches!(extract(decl), Err(ShapeError::Union)));
}

#[test]
fn fieldless_record_is_rejected() {
    let decl = record("Empty", no_generics(), Vec::new());
    assert!(matches!(extract(decl), Err(ShapeError::NoFields)));
}

#[test]
fn namespace_is_stable_across_runs() {
    let first = generate(&shape_of(record(
        "LongerRecordName",
        no_generics(),
        vec![named_field("a", "u8")],
    )));
    let second = generate(&shape_of(record(
        "LongerRecordName",
        no_generics(),
        vec![named_field("a", "u8")],
    )));
    assert_eq!(first.mod_ident, second.mod_ident);
    assert_eq!(
        first.mod_ident.as_str(),
        format!("mod_{}_cqrsmjlcijkamhtdi3pskgld53", TAG).as_str()
    );
}

#[test]
fn mod_name_exact_values() {
    assert_eq!(mod_name(&"A".to_string()).as_str(), format!("mod_{}_12", TAG).as_str());
    assert_eq!(mod_name(&"Foo".to_string()).as_str(), format!("mod_{}_6qru6", TAG).as_str());
    assert_eq!(mod_name(&"Pair".to_string()).as_str(), format!("mod_{}_gaoi6p1", TAG).as_str());
}

#[test]
fn extraction_keeps_field_order_and_types() {
    let decl = record(
        "Mixed",
        no_generics(),
        vec![named_field("alpha", "String"), named_field("beta", "Vec<u8>")],
    );
    let shape = shape_of(decl);
    assert_eq!(shape.name.as_str(), "Mixed");
    assert_eq!(shape.fields.len(), 2);
    assert_eq!(shape.fields[0].ty.as_str(), "String");
    assert_eq!(shape.fields[1].ty.as_str(), "Vec<u8>");
}
