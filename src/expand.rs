//! The whole expansion: every variant's directives, dispatched to the generators.

use vstd::prelude::*;
use vstd::string::*;

use convert_case::{Case, Casing};

use crate::components::{
    as_ref_mut_text, as_ref_text, expand_as_ref, expand_as_ref_mut, expand_from_foreign,
    expand_from_local, expand_into, expand_is, from_foreign_text, from_local_text, into_text,
    is_text,
};
use crate::directive::{
    parse_attrs, AttrsSpec, DirectiveError, EnumImplAttributes, FromSpec, ImplOrClassicAttribute,
    RawAttribute,
};
use crate::shape::Fields;

verus! {

/// The generics of the enum, as the three pieces an impl header needs.
#[derive(Debug, Clone)]
pub struct GenericsText {
    /// `<T: Bound>` or empty.
    pub impl_generics: String,
    /// `<T>` or empty.
    pub ty_generics: String,
    /// `where ...` or empty.
    pub where_clause: String,
}

/// One variant: its name, its payload and its attributes.
#[derive(Debug, Clone)]
pub struct VariantSchema {
    pub ident: String,
    pub fields: Fields,
    pub attrs: Vec<RawAttribute>,
}

/// The item the generator is applied to; `variants` is `None` where it is not an enum.
#[derive(Debug, Clone)]
pub struct UnionSchema {
    pub ident: String,
    pub generics: GenericsText,
    pub variants: Option<Vec<VariantSchema>>,
}

/// Why an enum could not be expanded.
#[derive(Debug, Clone, Copy, PartialEq, Eq, Structural)]
pub enum ExpandError {
    /// The item is not an enum.
    WrongTarget,
    /// The directives of the variant at index `variant` are wrong.
    Directive { variant: usize, error: DirectiveError },
}

/// The snake-case form of an identifier, as convert_case computes it.
pub uninterp spec fn snake_of(s: Seq<char>) -> Seq<char>;

/// Relies on convert_case's `Casing::to_case` with `Case::Snake`: the result
/// depends on the characters of `s` alone.
#[verifier::external_body]
fn snake_case(s: &String) -> (r: String)
    ensures
        r@ == snake_of(s@),
{
    s.to_case(Case::Snake)
}

/// The items that variant `v` adds to the inherent impl, and the `From` impl it adds
/// beside it, in the order `as_ref_mut`, `as_ref`, `from`, `into`, `is`.
pub open spec fn variant_parts(input: UnionSchema, v: VariantSchema, m: AttrsSpec) -> (Seq<char>, Seq<char>) {
    let e = input.ident@;
    let vi = v.ident@;
    let sn = snake_of(vi);
    let f = v.fields;
    let a = match m.as_ref_mut {
        Some(c) => as_ref_mut_text(e, vi, sn, c, f),
        None => Seq::empty(),
    };
    let b = match m.as_ref {
        Some(c) => as_ref_text(e, vi, sn, c, f),
        None => Seq::empty(),
    };
    let c_in = match m.from {
        Some(FromSpec::Classic(c)) => from_local_text(e, vi, sn, c, f),
        _ => Seq::empty(),
    };
    let c_out = match m.from {
        Some(FromSpec::Impl) => from_foreign_text(e, input.generics, vi, f),
        _ => Seq::empty(),
    };
    let d = match m.into {
        Some(c) => into_text(e, vi, sn, c, f),
        None => Seq::empty(),
    };
    let i = match m.is {
        Some(c) => is_text(e, vi, sn, c, f),
        None => Seq::empty(),
    };
    (a + b + c_in + d + i, c_out)
}

/// The inherent items and the `From` impls of the variants `vs`, in order, or the
/// error of the first variant whose directives are wrong.
pub open spec fn expand_variants(input: UnionSchema, vs: Seq<VariantSchema>) -> Result<
    (Seq<char>, Seq<char>),
    ExpandError,
>
    decreases vs.len(),
{
    if vs.len() == 0 {
        Ok((Seq::empty(), Seq::empty()))
    } else {
        match expand_variants(input, vs.drop_last()) {
            Err(e) => Err(e),
            Ok((inner, outer)) => match parse_attrs(vs.last().attrs@) {
                Err(d) => Err(ExpandError::Directive { variant: (vs.len() - 1) as usize, error: d }),
                Ok(m) => Ok(
                    (
                        inner + variant_parts(input, vs.last(), m).0,
                        outer + variant_parts(input, vs.last(), m).1,
                    ),
                ),
            },
        }
    }
}

/// The whole output for `input`: one inherent impl, then the `From` impls.
pub open spec fn expansion(input: UnionSchema) -> Result<Seq<char>, ExpandError> {
    match input.variants {
        None => Err(ExpandError::WrongTarget),
        Some(vs) => match expand_variants(input, vs@) {
            Err(e) => Err(e),
            Ok((inner, outer)) => Ok(
                "impl"@ + input.generics.impl_generics@ + " "@ + input.ident@
                    + input.generics.ty_generics@ + " "@ + input.generics.where_clause@ + " {\n"@
                    + inner + "}\n"@ + outer,
            ),
        },
    }
}

/// The message that reports a directive error.
pub open spec fn directive_message(e: DirectiveError) -> Seq<char> {
    match e {
        DirectiveError::Syntax => "malformed enum_impl entry"@,
        DirectiveError::UnknownDirective => "invalid enum_impl attribute"@,
        DirectiveError::DuplicateDirective => "duplicated attribute"@,
        DirectiveError::KeywordMisuse => "invalid keyword `impl` for this attribute"@,
        DirectiveError::RenameOnForeign => "impl attributes cannot be renamed"@,
    }
}

/// The message that reports an expansion error.
pub open spec fn error_message(e: ExpandError) -> Seq<char> {
    match e {
        ExpandError::WrongTarget => "only enums are supported"@,
        ExpandError::Directive { error, .. } => directive_message(error),
    }
}

/// The output that makes the compilation fail with the message of `e`.
pub open spec fn compile_error_text(e: ExpandError) -> Seq<char> {
    "::core::compile_error! { \""@ + error_message(e) + "\" }\n"@
}

impl ExpandError {
    /// The message that reports this error.
    pub fn message(&self) -> (r: String)
        ensures
            r@ == error_message(*self),
    {
        match self {
            ExpandError::WrongTarget => String::from_str("only enums are supported"),
            ExpandError::Directive { error, .. } => match error {
                DirectiveError::Syntax => String::from_str("malformed enum_impl entry"),
                DirectiveError::UnknownDirective => String::from_str("invalid enum_impl attribute"),
                DirectiveError::DuplicateDirective => String::from_str("duplicated attribute"),
                DirectiveError::KeywordMisuse => String::from_str(
                    "invalid keyword `impl` for this attribute",
                ),
                DirectiveError::RenameOnForeign => String::from_str("impl attributes cannot be renamed"),
            },
        }
    }
}

fn expand_variant(input: &UnionSchema, variant: &VariantSchema, attributes: &EnumImplAttributes) -> (r: (
    String,
    String,
))
    ensures
        r.0@ == variant_parts(*input, *variant, attributes.spec()).0,
        r.1@ == variant_parts(*input, *variant, attributes.spec()).1,
{
    let e = &input.ident;
    let vi = &variant.ident;
    let fields = &variant.fields;
    let sn = snake_case(vi);
    let a = match &attributes.as_ref_mut {
        Some(params) => expand_as_ref_mut(e, vi, &sn, params, fields),
        None => String::new(),
    };
    let b = match &attributes.as_ref {
        Some(params) => expand_as_ref(e, vi, &sn, params, fields),
        None => String::new(),
    };
    let (c_in, c_out) = match &attributes.from {
        Some(ImplOrClassicAttribute::Classic(params)) => (
            expand_from_local(e, vi, &sn, params, fields),
            String::new(),
        ),
        Some(ImplOrClassicAttribute::Impl) => (String::new(), expand_from_foreign(input, vi, fields)),
        None => (String::new(), String::new()),
    };
    let d = match &attributes.into {
        Some(params) => expand_into(e, vi, &sn, params, fields),
        None => String::new(),
    };
    let i = match &attributes.is {
        Some(params) => expand_is(e, vi, &sn, params, fields),
        None => String::new(),
    };
    let mut inner = a;
    inner.append(b.as_str());
    inner.append(c_in.as_str());
    inner.append(d.as_str());
    inner.append(i.as_str());
    (inner, c_out)
}

/// Expands `input`, or says why it cannot be expanded.
pub fn try_expand(input: &UnionSchema) -> (r: Result<String, ExpandError>)
    ensures
        match expansion(*input) {
            Ok(t) => r is Ok && r->Ok_0@ == t,
            Err(e) => r == Err::<String, ExpandError>(e),
        },
{
    let variants = match &input.variants {
        None => {
            return Err(ExpandError::WrongTarget);
        },
        Some(vs) => vs,
    };
    let mut inner = String::new();
    let mut outer = String::new();
    let mut failed: Option<ExpandError> = None;
    let mut i: usize = 0;
    while i < variants.len()
        invariant
            i <= variants.len(),
            input.variants == Some(*variants),
            match expand_variants(*input, variants@.take(i as int)) {
                Ok(p) => failed is None && inner@ == p.0 && outer@ == p.1,
                Err(e) => failed == Some(e),
            },
        decreases variants.len() - i,
    {
        assert(variants@.take(i as int + 1).drop_last() =~= variants@.take(i as int));
        if failed.is_none() {
            let variant = &variants[i];
            match EnumImplAttributes::new(&variant.attrs) {
                Ok(attributes) => {
                    let (x, y) = expand_variant(input, variant, &attributes);
                    inner.append(x.as_str());
                    outer.append(y.as_str());
                },
                Err(d) => {
                    failed = Some(ExpandError::Directive { variant: i, error: d });
                },
            }
        }
        i = i + 1;
    }
    assert(variants@.take(variants.len() as int) =~= variants@);
    match failed {
        Some(e) => Err(e),
        None => {
            let mut s = String::from_str("impl");
            s.append(input.generics.impl_generics.as_str());
            s.append(" ");
            s.append(input.ident.as_str());
            s.append(input.generics.ty_generics.as_str());
            s.append(" ");
            s.append(input.generics.where_clause.as_str());
            s.append(" {\n");
            s.append(inner.as_str());
            s.append("}\n");
            s.append(outer.as_str());
            Ok(s)
        },
    }
}

/// The output for `input`: the expansion, or a `compile_error!` that reports why there is none.
pub fn derive(input: &UnionSchema) -> (r: String)
    ensures
        r@ == match expansion(*input) {
            Ok(t) => t,
            Err(e) => compile_error_text(e),
        },
{
    match try_expand(input) {
        Ok(expanded) => expanded,
        Err(err) => {
            let mut s = String::from_str("::core::compile_error! { \"");
            s.append(err.message().as_str());
            s.append("\" }\n");
            s
        },
    }
}

} // verus!
