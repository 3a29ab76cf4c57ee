use enum_impl::components::{expand_from_foreign, expand_is};
use enum_impl::directive::{
    ClassicAttribute, DirectiveError, DirectiveToken, EnumImplAttributes, ImplOrClassicAttribute,
    Keyword, ParametrizedAttribute, RawAttribute,
};
use enum_impl::expand::{try_expand, ExpandError, GenericsText, UnionSchema, VariantSchema};
use enum_impl::shape::{Fields, NamedField};

fn ident(s: &str) -> DirectiveToken {
    DirectiveToken::Ident(s.to_string())
}

fn lit(s: &str) -> DirectiveToken {
    DirectiveToken::Str(s.to_string())
}

fn directive(tokens: Vec<DirectiveToken>) -> RawAttribute {
    RawAttribute { path: "enum_impl".to_string(), args: Some(tokens) }
}

fn no_generics() -> GenericsText {
    GenericsText { impl_generics: String::new(), ty_generics: String::new(), where_clause: String::new() }
}

fn variant(name: &str, fields: Fields, attrs: Vec<RawAttribute>) -> VariantSchema {
    VariantSchema { ident: name.to_string(), fields, attrs }
}

fn union(name: &str, variants: Vec<VariantSchema>) -> UnionSchema {
    UnionSchema { ident: name.to_string(), generics: no_generics(), variants: Some(variants) }
}

fn two_ints() -> Fields {
    Fields::Unnamed(vec!["i32".to_string(), "i32".to_string()])
}

fn pair_union() -> UnionSchema {
    union(
        "Pair",
        vec![
            variant("A", Fields::Unit, vec![directive(vec![ident("is")])]),
            variant(
                "B",
                two_ints(),
                vec![directive(vec![
                    ident("pub"),
                    ident("as_ref"),
                    DirectiveToken::Comma,
                    ident("pub"),
                    ident("as_ref_mut"),
                    DirectiveToken::Comma,
                    ident("pub"),
                    ident("into"),
                    DirectiveToken::Comma,
                    ident("pub"),
                    ident("from"),
                    DirectiveToken::Eq,
                    lit("make_b"),
                ])],
            ),
        ],
    )
}

fn directive_error(tokens: Vec<DirectiveToken>) -> Result<String, ExpandError> {
    try_expand(&union("E", vec![variant("V", Fields::Unit, vec![directive(tokens)])]))
}

#[test]
fn scenario_unit_and_pair_variants() {
    let out = try_expand(&pair_union()).unwrap();
    let expected = [
        "impl Pair  {\n",
        "/// Returns a mutable reference to the associated data if it is the [`Pair::B`] variant. Otherwise, returns `None`.\n",
        "pub fn as_b_mut(&mut self) -> Option<(&mut i32, &mut i32)> { match self { Self::B(arg0, arg1) => Some((arg0, arg1)), _ => None, } }\n",
        "/// Returns a reference to the associated data if it is the [`Pair::B`] variant. Otherwise, returns `None`.\n",
        "pub fn as_b(&self) -> Option<(&i32, &i32)> { match self { Self::B(arg0, arg1) => Some((arg0, arg1)), _ => None, } }\n",
        "/// Generates a [`Pair::B`] variant from the associated data.\n",
        "pub fn make_b(arg0: i32, arg1: i32) -> Self { Self::B(arg0, arg1) }\n",
        "/// Converts into the associated data if it is the [`Pair::B`] variant. Otherwise, returns `None`.\n",
        "pub fn into_b(self) -> Option<(i32, i32)> { match self { Self::B(arg0, arg1) => Some((arg0, arg1)), _ => None, } }\n",
        "}\n",
    ]
    .concat();
    let a_is = [
        "/// Returns `true` if it is the [`Pair::A`] variant. Otherwise, returns `false`.\n",
        "fn is_a(&self) -> bool { match self { Self::A => true, _ => false, } }\n",
    ]
    .concat();
    // variant A comes first in declaration order
    let expected = expected.replacen("impl Pair  {\n", &format!("impl Pair  {{\n{}", a_is), 1);
    assert_eq!(out, expected);
}

#[test]
fn derive_matches_try_expand_on_success() {
    assert_eq!(enum_impl::expand::derive(&pair_union()), try_expand(&pair_union()).unwrap());
}

#[test]
fn snake_case_default_names() {
    let u = union(
        "Event",
        vec![variant("KeyPress", Fields::Unit, vec![directive(vec![ident("pub"), ident("is")])])],
    );
    let out = try_expand(&u).unwrap();
    assert!(out.contains("pub fn is_key_press(&self) -> bool { match self { Self::KeyPress => true, _ => false, } }\n"));
}

#[test]
fn named_single_field_is_bare() {
    let fields = Fields::Named(vec![NamedField { name: "code".to_string(), ty: "u32".to_string() }]);
    let u = union(
        "Event",
        vec![variant("Exit", fields, vec![directive(vec![ident("as_ref"), DirectiveToken::Comma, ident("from")])])],
    );
    let out = try_expand(&u).unwrap();
    assert!(out.contains("fn as_exit(&self) -> Option<&u32> { match self { Self::Exit { code } => Some(code), _ => None, } }\n"));
    assert!(out.contains("fn from_exit(code: u32) -> Self { Self::Exit { code } }\n"));
}

#[test]
fn unit_variant_accessors_use_unit() {
    let u = union(
        "E",
        vec![variant("Empty", Fields::Unit, vec![directive(vec![ident("into"), DirectiveToken::Comma, ident("as_ref_mut")])])],
    );
    let out = try_expand(&u).unwrap();
    assert!(out.contains("fn into_empty(self) -> Option<()> { match self { Self::Empty => Some(()), _ => None, } }\n"));
    assert!(out.contains("fn as_empty_mut(&mut self) -> Option<()> { match self { Self::Empty => Some(()), _ => None, } }\n"));
}

#[test]
fn positional_bindings_past_nine() {
    let types: Vec<String> = (0..11).map(|_| "u8".to_string()).collect();
    let u = union("Wide", vec![variant("W", Fields::Unnamed(types), vec![directive(vec![ident("from")])])]);
    let out = try_expand(&u).unwrap();
    assert!(out.contains("arg9: u8, arg10: u8) -> Self"));
}

#[test]
fn foreign_construction_is_a_separate_impl() {
    let u = UnionSchema {
        ident: "Shape".to_string(),
        generics: GenericsText {
            impl_generics: "<T>".to_string(),
            ty_generics: "<T>".to_string(),
            where_clause: "where T: Copy".to_string(),
        },
        variants: Some(vec![variant(
            "Rect",
            Fields::Unnamed(vec!["T".to_string(), "T".to_string()]),
            vec![directive(vec![ident("impl"), ident("from")])],
        )]),
    };
    let out = try_expand(&u).unwrap();
    let expected = [
        "impl<T> Shape<T> where T: Copy {\n}\n",
        "impl<T> From<(T, T)> for Shape<T> where T: Copy {\n",
        "/// Creates a [`Shape::Rect`] variant from the associated data.\n",
        "fn from((arg0, arg1): (T, T)) -> Self { Self::Rect(arg0, arg1) }\n}\n",
    ]
    .concat();
    assert_eq!(out, expected);
    let direct = expand_from_foreign(&u, &"Rect".to_string(), &Fields::Unnamed(vec!["T".to_string(), "T".to_string()]));
    assert!(expected.ends_with(&direct));
}

#[test]
fn rename_applies_to_method() {
    let params = ClassicAttribute { public: true, rename: Some("has_value".to_string()) };
    let out = expand_is(&"Opt".to_string(), &"Some".to_string(), &"some".to_string(), &params, &Fields::Unnamed(vec!["u8".to_string()]));
    assert!(out.contains("pub fn has_value(&self) -> bool { match self { Self::Some(..) => true, _ => false, } }\n"));
}

#[test]
fn duplicate_directive_is_refused() {
    let r = directive_error(vec![ident("is"), DirectiveToken::Comma, ident("pub"), ident("is")]);
    assert_eq!(r, Err(ExpandError::Directive { variant: 0, error: DirectiveError::DuplicateDirective }));
}

#[test]
fn duplicate_across_attributes_is_refused() {
    let u = union(
        "E",
        vec![
            variant("A", Fields::Unit, vec![]),
            variant("B", Fields::Unit, vec![directive(vec![ident("into")]), directive(vec![ident("into")])]),
        ],
    );
    assert_eq!(try_expand(&u), Err(ExpandError::Directive { variant: 1, error: DirectiveError::DuplicateDirective }));
}

#[test]
fn rename_on_foreign_is_refused() {
    let r = directive_error(vec![ident("impl"), ident("from"), DirectiveToken::Eq, lit("build")]);
    assert_eq!(r, Err(ExpandError::Directive { variant: 0, error: DirectiveError::RenameOnForeign }));
}

#[test]
fn unknown_directive_is_refused() {
    let r = directive_error(vec![ident("pub"), ident("as_mut")]);
    assert_eq!(r, Err(ExpandError::Directive { variant: 0, error: DirectiveError::UnknownDirective }));
}

#[test]
fn impl_keyword_misuse_is_refused() {
    let r = directive_error(vec![ident("impl"), ident("into")]);
    assert_eq!(r, Err(ExpandError::Directive { variant: 0, error: DirectiveError::KeywordMisuse }));
}

#[test]
fn malformed_entry_is_refused() {
    let r = directive_error(vec![ident("is"), DirectiveToken::Eq]);
    assert_eq!(r, Err(ExpandError::Directive { variant: 0, error: DirectiveError::Syntax }));
    let r = directive_error(vec![ident("is"), DirectiveToken::Comma, DirectiveToken::Comma, ident("into")]);
    assert_eq!(r, Err(ExpandError::Directive { variant: 0, error: DirectiveError::Syntax }));
    let u = union("E", vec![variant("V", Fields::Unit, vec![RawAttribute { path: "enum_impl".to_string(), args: None }])]);
    assert_eq!(try_expand(&u), Err(ExpandError::Directive { variant: 0, error: DirectiveError::Syntax }));
}

#[test]
fn wrong_target_is_refused() {
    let u = UnionSchema { ident: "S".to_string(), generics: no_generics(), variants: None };
    assert_eq!(try_expand(&u), Err(ExpandError::WrongTarget));
    assert_eq!(enum_impl::expand::derive(&u), "::core::compile_error! { \"only enums are supported\" }\n");
}

#[test]
fn empty_list_and_other_attributes_are_no_ops() {
    let u = union(
        "E",
        vec![variant(
            "V",
            Fields::Unit,
            vec![
                directive(vec![]),
                RawAttribute { path: "doc".to_string(), args: None },
                RawAttribute { path: "serde".to_string(), args: Some(vec![ident("skip")]) },
            ],
        )],
    );
    assert_eq!(try_expand(&u).unwrap(), "impl E  {\n}\n");
}

#[test]
fn trailing_comma_is_accepted() {
    let r = directive_error(vec![ident("is"), DirectiveToken::Comma]);
    assert!(r.unwrap().contains("fn is_v(&self) -> bool"));
}

#[test]
fn entry_decoding() {
    let tokens = vec![ident("pub"), ident("from"), DirectiveToken::Eq, lit("make")];
    let p = ParametrizedAttribute::new(&tokens, 0, 4).unwrap();
    assert_eq!(p.keyword, Keyword::Pub);
    assert_eq!(p.name, "from");
    assert_eq!(p.param, Some("make".to_string()));
    let f = ImplOrClassicAttribute::from_decoded(p).unwrap();
    match f {
        ImplOrClassicAttribute::Classic(c) => {
            assert!(c.public);
            assert_eq!(c.rename, Some("make".to_string()));
        },
        ImplOrClassicAttribute::Impl => panic!("expected a method"),
    }
    assert_eq!(ParametrizedAttribute::new(&tokens, 0, 3).err(), Some(DirectiveError::Syntax));
}

#[test]
fn attributes_collect_each_operation() {
    let attrs = vec![directive(vec![ident("impl"), ident("from"), DirectiveToken::Comma, ident("as_ref")])];
    let a = EnumImplAttributes::new(&attrs).unwrap();
    assert!(matches!(a.from, Some(ImplOrClassicAttribute::Impl)));
    assert!(a.as_ref.is_some());
    assert!(a.as_ref_mut.is_none() && a.into.is_none() && a.is.is_none());
}

#[test]
fn error_messages() {
    let e = ExpandError::Directive { variant: 2, error: DirectiveError::DuplicateDirective };
    assert_eq!(e.message(), "duplicated attribute");
    let e = ExpandError::Directive { variant: 0, error: DirectiveError::RenameOnForeign };
    assert_eq!(e.message(), "impl attributes cannot be renamed");
}
