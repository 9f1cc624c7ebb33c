use piperize::model::Declaration;
use piperize::model::Failure;
use piperize::model::Param;
use piperize::model::Visibility;
use piperize::transform::synthesize_name;
use piperize::transform::transform;
use piperize::transform::validate_and_split;

fn typed(pat: &str, ty: &str) -> Param {
    Param::Typed { pat: pat.to_string(), ty: ty.to_string() }
}

fn declaration(name: &str, params: Vec<Param>, return_type: Option<&str>) -> Declaration {
    Declaration {
        name: name.to_string(),
        params,
        return_type: return_type.map(|t| t.to_string()),
        body: "input + input".to_string(),
        visibility: Visibility::Private,
        generics: Vec::new(),
        where_constraints: None,
    }
}

fn param_text(p: &Param) -> (String, String) {
    match p {
        Param::Typed { pat, ty } => (pat.clone(), ty.clone()),
        _ => panic!("expected a typed parameter"),
    }
}

#[test]
fn single_parameter_scenario() {
    let decl = declaration("foo_this", vec![typed("input", "Int32")], Some("Int32"));
    let out = transform(decl).expect("a valid declaration transforms");
    assert_eq!(out.descriptor.name, "FooThis");
    assert_eq!(out.descriptor.method.name, "foo_this");
    assert!(out.descriptor.method.params.is_empty());
    assert_eq!(out.descriptor.method.return_type.as_deref(), Some("Int32"));
    assert_eq!(out.binding.descriptor_name, "FooThis");
    assert_eq!(out.binding.self_type, "Int32");
    assert_eq!(out.binding.receiver_pattern, "input");
    assert_eq!(out.binding.body, "input + input");
    assert_eq!(out.original.name, "foo_this");
    assert_eq!(out.original.params.len(), 1);
    let (pat, ty) = param_text(&out.original.params[0]);
    assert_eq!(pat, "input");
    assert_eq!(ty, "Int32");
}

#[test]
fn two_parameter_scenario() {
    let decl = declaration(
        "my_add",
        vec![typed("a", "Int32"), typed("b", "Int32")],
        Some("Int32"),
    );
    let out = transform(decl).expect("a valid declaration transforms");
    assert_eq!(out.descriptor.name, "MyAdd");
    assert_eq!(out.descriptor.method.name, "my_add");
    assert_eq!(out.descriptor.method.params.len(), 1);
    let (pat, ty) = param_text(&out.descriptor.method.params[0]);
    assert_eq!(pat, "b");
    assert_eq!(ty, "Int32");
    assert_eq!(out.descriptor.method.return_type.as_deref(), Some("Int32"));
    assert_eq!(out.binding.self_type, "Int32");
    assert_eq!(out.binding.receiver_pattern, "a");
}

#[test]
fn binding_method_matches_descriptor_method() {
    let decl = declaration(
        "my_add",
        vec![typed("a", "Int32"), typed("b", "Int32"), typed("c", "Bool")],
        Some("Int32"),
    );
    let out = transform(decl).expect("a valid declaration transforms");
    assert_eq!(out.binding.method.name, out.descriptor.method.name);
    assert_eq!(
        out.binding.method.params.len(),
        out.descriptor.method.params.len()
    );
    for (b, d) in out
        .binding
        .method
        .params
        .iter()
        .zip(out.descriptor.method.params.iter())
    {
        assert_eq!(param_text(b), param_text(d));
    }
    assert_eq!(
        out.binding.method.return_type,
        out.descriptor.method.return_type
    );
}

#[test]
fn generics_and_constraints_are_threaded_through() {
    let decl = Declaration {
        name: "pair_up".to_string(),
        params: vec![typed("first", "T"), typed("second", "U")],
        return_type: Some("(T, U)".to_string()),
        body: "(first, second)".to_string(),
        visibility: Visibility::Public,
        generics: vec!["T: Clone".to_string(), "U".to_string()],
        where_constraints: Some("where U: Default".to_string()),
    };
    let out = transform(decl).expect("a valid declaration transforms");
    assert_eq!(out.descriptor.generics, vec!["T: Clone", "U"]);
    assert_eq!(out.binding.generics, out.descriptor.generics);
    assert_eq!(
        out.descriptor.where_constraints.as_deref(),
        Some("where U: Default")
    );
    assert_eq!(
        out.binding.where_constraints,
        out.descriptor.where_constraints
    );
    assert!(matches!(out.descriptor.visibility, Visibility::Public));
}

#[test]
fn zero_parameters_fail_with_no_receiver_candidate() {
    let decl = declaration("foo_this", vec![], None);
    assert!(matches!(transform(decl), Err(Failure::NoReceiverCandidate)));
}

#[test]
fn zero_parameters_win_over_a_bad_name() {
    let decl = declaration("___", vec![], None);
    assert!(matches!(transform(decl), Err(Failure::NoReceiverCandidate)));
}

#[test]
fn leading_receiver_fails_with_self_not_allowed() {
    let decl = declaration("foo_this", vec![Param::Receiver, typed("a", "Int32")], None);
    assert!(matches!(transform(decl), Err(Failure::SelfNotAllowed)));
}

#[test]
fn receiver_in_any_position_fails_with_self_not_allowed() {
    let decl = declaration("foo_this", vec![typed("a", "Int32"), Param::Receiver], None);
    assert!(matches!(transform(decl), Err(Failure::SelfNotAllowed)));
}

#[test]
fn malformed_first_parameter_is_rejected() {
    let decl = declaration(
        "foo_this",
        vec![Param::Other { text: "...".to_string() }, typed("a", "Int32")],
        None,
    );
    assert!(matches!(transform(decl), Err(Failure::MalformedFirstParameter)));
}

#[test]
fn receiver_check_precedes_first_parameter_check() {
    let decl = declaration(
        "foo_this",
        vec![Param::Other { text: "...".to_string() }, Param::Receiver],
        None,
    );
    assert!(matches!(transform(decl), Err(Failure::SelfNotAllowed)));
}

#[test]
fn parameter_shape_wins_over_name_charset() {
    let decl = declaration("not an identifier!", vec![], None);
    assert!(matches!(transform(decl), Err(Failure::NoReceiverCandidate)));
}

#[test]
fn name_outside_the_repertoire_is_rejected() {
    let decl = declaration("foo-bar", vec![typed("a", "Int32")], None);
    assert!(matches!(transform(decl), Err(Failure::InvalidIdentifierCharset)));
}

#[test]
fn separator_only_name_fails_with_empty_synthesized_name() {
    let decl = declaration("___", vec![typed("a", "Int32")], None);
    assert!(matches!(transform(decl), Err(Failure::EmptySynthesizedName)));
}

#[test]
fn malformed_parameter_in_the_remainder_is_passed_through() {
    let decl = declaration(
        "foo_this",
        vec![typed("a", "Int32"), Param::Other { text: "rest".to_string() }],
        None,
    );
    let out = transform(decl).expect("first parameter is a typed binding");
    assert_eq!(out.descriptor.method.params.len(), 1);
    match &out.descriptor.method.params[0] {
        Param::Other { text } => assert_eq!(text, "rest"),
        _ => panic!("the remainder keeps its elements verbatim"),
    }
}

#[test]
fn split_returns_receiver_designate_and_remainder() {
    let params = vec![typed("a", "Int32"), typed("b", "Bool"), typed("c", "Text")];
    let (first, rest) = validate_and_split(&params).expect("a conventional list splits");
    assert_eq!(param_text(&first), ("a".to_string(), "Int32".to_string()));
    assert_eq!(rest.len(), 2);
    assert_eq!(param_text(&rest[0]), ("b".to_string(), "Bool".to_string()));
    assert_eq!(param_text(&rest[1]), ("c".to_string(), "Text".to_string()));
}

#[test]
fn split_rejects_an_empty_list() {
    let params: Vec<Param> = vec![];
    assert!(matches!(
        validate_and_split(&params),
        Err(Failure::NoReceiverCandidate)
    ));
}

#[test]
fn synthesize_name_produces_the_converted_identifier() {
    assert_eq!(synthesize_name("foo_this").expect("a conventional name"), "FooThis");
}

#[test]
fn synthesize_name_rejects_a_bad_charset() {
    assert_eq!(
        synthesize_name("foo.bar"),
        Err(Failure::InvalidIdentifierCharset)
    );
}

#[test]
fn synthesize_name_rejects_a_separator_only_name() {
    assert_eq!(synthesize_name("_"), Err(Failure::EmptySynthesizedName));
}
