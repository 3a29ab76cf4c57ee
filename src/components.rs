//! The generators: one per operation kind, each producing the source text of one item.

use vstd::prelude::*;
use vstd::string::*;

use crate::directive::{ClassicAttribute, ClassicSpec};
use crate::expand::{GenericsText, UnionSchema};
use crate::shape::{
    any_pattern, any_pattern_text, params, params_text, pattern, pattern_text, payload_type,
    payload_type_text, payload_value, payload_value_text, Fields,
};
use crate::text::copy_text;

verus! {

/// A one-line doc comment that links to the variant `e::v`.
pub open spec fn doc_line(before: Seq<char>, e: Seq<char>, v: Seq<char>, after: Seq<char>) -> Seq<
    char,
> {
    "/// "@ + before + "[`"@ + e + "::"@ + v + "`]"@ + after + "\n"@
}

/// The visibility written before a generated method.
pub open spec fn vis(public: bool) -> Seq<char> {
    if public {
        "pub "@
    } else {
        Seq::empty()
    }
}

/// The rename when one is configured, else the default name.
pub open spec fn method_name(c: ClassicSpec, default: Seq<char>) -> Seq<char> {
    match c.rename {
        Some(r) => r,
        None => default,
    }
}

/// A method that matches the variant and returns its payload in `Some`, else `None`.
pub open spec fn accessor(
    doc: Seq<char>,
    c: ClassicSpec,
    default: Seq<char>,
    receiver: Seq<char>,
    ty: Seq<char>,
    v: Seq<char>,
    pat: Seq<char>,
    ret: Seq<char>,
) -> Seq<char> {
    doc + vis(c.public) + "fn "@ + method_name(c, default) + "("@ + receiver + ") -> Option<"@ + ty
        + "> { match self { Self::"@ + v + pat + " => Some("@ + ret + "), _ => None, } }\n"@
}

/// The text of the presence test of variant `v` of enum `e`.
pub open spec fn is_text(e: Seq<char>, v: Seq<char>, snake: Seq<char>, c: ClassicSpec, f: Fields) -> Seq<
    char,
> {
    doc_line("Returns `true` if it is the "@, e, v, " variant. Otherwise, returns `false`."@) + vis(
        c.public,
    ) + "fn "@ + method_name(c, "is_"@ + snake) + "(&self) -> bool { match self { Self::"@ + v
        + any_pattern(f) + " => true, _ => false, } }\n"@
}

/// The text of the shared accessor of variant `v` of enum `e`.
pub open spec fn as_ref_text(e: Seq<char>, v: Seq<char>, snake: Seq<char>, c: ClassicSpec, f: Fields) -> Seq<
    char,
> {
    accessor(
        doc_line(
            "Returns a reference to the associated data if it is the "@,
            e,
            v,
            " variant. Otherwise, returns `None`."@,
        ),
        c,
        "as_"@ + snake,
        "&self"@,
        payload_type(f, "&"@),
        v,
        pattern(f),
        payload_value(f),
    )
}

/// The text of the mutable accessor of variant `v` of enum `e`.
pub open spec fn as_ref_mut_text(
    e: Seq<char>,
    v: Seq<char>,
    snake: Seq<char>,
    c: ClassicSpec,
    f: Fields,
) -> Seq<char> {
    accessor(
        doc_line(
            "Returns a mutable reference to the associated data if it is the "@,
            e,
            v,
            " variant. Otherwise, returns `None`."@,
        ),
        c,
        "as_"@ + snake + "_mut"@,
        "&mut self"@,
        payload_type(f, "&mut "@),
        v,
        pattern(f),
        payload_value(f),
    )
}

/// The text of the extraction of variant `v` of enum `e`.
pub open spec fn into_text(e: Seq<char>, v: Seq<char>, snake: Seq<char>, c: ClassicSpec, f: Fields) -> Seq<
    char,
> {
    accessor(
        doc_line(
            "Converts into the associated data if it is the "@,
            e,
            v,
            " variant. Otherwise, returns `None`."@,
        ),
        c,
        "into_"@ + snake,
        "self"@,
        payload_type(f, ""@),
        v,
        pattern(f),
        payload_value(f),
    )
}

/// The text of the constructor method of variant `v` of enum `e`.
pub open spec fn from_local_text(
    e: Seq<char>,
    v: Seq<char>,
    snake: Seq<char>,
    c: ClassicSpec,
    f: Fields,
) -> Seq<char> {
    doc_line("Generates a "@, e, v, " variant from the associated data."@) + vis(c.public) + "fn "@
        + method_name(c, "from_"@ + snake) + "("@ + params(f) + ") -> Self { Self::"@ + v + pattern(
        f,
    ) + " }\n"@
}

/// The text of the `From` impl that builds variant `v` of enum `e` from its payload.
pub open spec fn from_foreign_text(e: Seq<char>, g: GenericsText, v: Seq<char>, f: Fields) -> Seq<
    char,
> {
    "impl"@ + g.impl_generics@ + " From<"@ + payload_type(f, ""@) + "> for "@ + e + g.ty_generics@
        + " "@ + g.where_clause@ + " {\n"@ + doc_line(
        "Creates a "@,
        e,
        v,
        " variant from the associated data."@,
    ) + "fn from("@ + payload_value(f) + ": "@ + payload_type(f, ""@) + ") -> Self { Self::"@ + v
        + pattern(f) + " }\n}\n"@
}

fn doc_text(before: &str, e: &String, v: &String, after: &str) -> (r: String)
    ensures
        r@ == doc_line(before@, e@, v@, after@),
{
    let mut s = String::from_str("/// ");
    s.append(before);
    s.append("[`");
    s.append(e.as_str());
    s.append("::");
    s.append(v.as_str());
    s.append("`]");
    s.append(after);
    s.append("\n");
    s
}

fn vis_text(public: bool) -> (r: String)
    ensures
        r@ == vis(public),
{
    if public {
        String::from_str("pub ")
    } else {
        String::new()
    }
}

fn name_text(params: &ClassicAttribute, default: String) -> (r: String)
    ensures
        r@ == method_name(params.spec(), default@),
{
    match &params.rename {
        Some(r) => copy_text(r),
        None => default,
    }
}

fn default_name(before: &str, snake: &String, after: &str) -> (r: String)
    ensures
        r@ == before@ + snake@ + after@,
{
    let mut s = String::from_str(before);
    s.append(snake.as_str());
    s.append(after);
    s
}

fn accessor_text(
    doc: String,
    params: &ClassicAttribute,
    default: String,
    receiver: &str,
    ty: String,
    v: &String,
    pat: String,
    ret: String,
) -> (r: String)
    ensures
        r@ == accessor(doc@, params.spec(), default@, receiver@, ty@, v@, pat@, ret@),
{
    let mut s = doc;
    s.append(vis_text(params.public).as_str());
    s.append("fn ");
    s.append(name_text(params, default).as_str());
    s.append("(");
    s.append(receiver);
    s.append(") -> Option<");
    s.append(ty.as_str());
    s.append("> { match self { Self::");
    s.append(v.as_str());
    s.append(pat.as_str());
    s.append(" => Some(");
    s.append(ret.as_str());
    s.append("), _ => None, } }\n");
    s
}

/// Generates `is_<variant>`: whether the receiver holds this variant.
pub fn expand_is(
    enum_ident: &String,
    variant_ident: &String,
    variant_name_snake_case: &String,
    params: &ClassicAttribute,
    fields: &Fields,
) -> (r: String)
    ensures
        r@ == is_text(enum_ident@, variant_ident@, variant_name_snake_case@, params.spec(), *fields),
{
    let mut s = doc_text(
        "Returns `true` if it is the ",
        enum_ident,
        variant_ident,
        " variant. Otherwise, returns `false`.",
    );
    s.append(vis_text(params.public).as_str());
    s.append("fn ");
    s.append(name_text(params, default_name("is_", variant_name_snake_case, "")).as_str());
    s.append("(&self) -> bool { match self { Self::");
    s.append(variant_ident.as_str());
    s.append(any_pattern_text(fields).as_str());
    s.append(" => true, _ => false, } }\n");
    proof {
        reveal_strlit("");
        assert(variant_name_snake_case@ + ""@ =~= variant_name_snake_case@);
        assert("is_"@ + variant_name_snake_case@ + ""@ =~= "is_"@ + variant_name_snake_case@);
    }
    s
}

/// Generates `as_<variant>`: a shared reference to the payload, if the variant matches.
pub fn expand_as_ref(
    enum_ident: &String,
    variant_ident: &String,
    variant_name_snake_case: &String,
    params: &ClassicAttribute,
    fields: &Fields,
) -> (r: String)
    ensures
        r@ == as_ref_text(enum_ident@, variant_ident@, variant_name_snake_case@, params.spec(), *fields),
{
    let doc = doc_text(
        "Returns a reference to the associated data if it is the ",
        enum_ident,
        variant_ident,
        " variant. Otherwise, returns `None`.",
    );
    let default = default_name("as_", variant_name_snake_case, "");
    proof {
        reveal_strlit("");
        assert("as_"@ + variant_name_snake_case@ + ""@ =~= "as_"@ + variant_name_snake_case@);
    }
    accessor_text(
        doc,
        params,
        default,
        "&self",
        payload_type_text(fields, "&"),
        variant_ident,
        pattern_text(fields),
        payload_value_text(fields),
    )
}

/// Generates `as_<variant>_mut`: a mutable reference to the payload, if the variant matches.
pub fn expand_as_ref_mut(
    enum_ident: &String,
    variant_ident: &String,
    variant_name_snake_case: &String,
    params: &ClassicAttribute,
    fields: &Fields,
) -> (r: String)
    ensures
        r@ == as_ref_mut_text(
            enum_ident@,
            variant_ident@,
            variant_name_snake_case@,
            params.spec(),
            *fields,
        ),
{
    let doc = doc_text(
        "Returns a mutable reference to the associated data if it is the ",
        enum_ident,
        variant_ident,
        " variant. Otherwise, returns `None`.",
    );
    accessor_text(
        doc,
        params,
        default_name("as_", variant_name_snake_case, "_mut"),
        "&mut self",
        payload_type_text(fields, "&mut "),
        variant_ident,
        pattern_text(fields),
        payload_value_text(fields),
    )
}

/// Generates `into_<variant>`: the owned payload, if the variant matches.
pub fn expand_into(
    enum_ident: &String,
    variant_ident: &String,
    variant_name_snake_case: &String,
    params: &ClassicAttribute,
    fields: &Fields,
) -> (r: String)
    ensures
        r@ == into_text(enum_ident@, variant_ident@, variant_name_snake_case@, params.spec(), *fields),
{
    let doc = doc_text(
        "Converts into the associated data if it is the ",
        enum_ident,
        variant_ident,
        " variant. Otherwise, returns `None`.",
    );
    let default = default_name("into_", variant_name_snake_case, "");
    proof {
        reveal_strlit("");
        assert("into_"@ + variant_name_snake_case@ + ""@ =~= "into_"@ + variant_name_snake_case@);
    }
    accessor_text(
        doc,
        params,
        default,
        "self",
        payload_type_text(fields, ""),
        variant_ident,
        pattern_text(fields),
        payload_value_text(fields),
    )
}

/// Generates `from_<variant>`: a constructor taking one parameter per field.
pub fn expand_from_local(
    enum_ident: &String,
    variant_ident: &String,
    variant_name_snake_case: &String,
    params: &ClassicAttribute,
    fields: &Fields,
) -> (r: String)
    ensures
        r@ == from_local_text(
            enum_ident@,
            variant_ident@,
            variant_name_snake_case@,
            params.spec(),
            *fields,
        ),
{
    let mut s = doc_text("Generates a ", enum_ident, variant_ident, " variant from the associated data.");
    s.append(vis_text(params.public).as_str());
    s.append("fn ");
    s.append(name_text(params, default_name("from_", variant_name_snake_case, "")).as_str());
    s.append("(");
    s.append(params_text(fields).as_str());
    s.append(") -> Self { Self::");
    s.append(variant_ident.as_str());
    s.append(pattern_text(fields).as_str());
    s.append(" }\n");
    proof {
        reveal_strlit("");
        assert("from_"@ + variant_name_snake_case@ + ""@ =~= "from_"@ + variant_name_snake_case@);
    }
    s
}

/// Generates `impl From<Payload> for Enum`, building the variant from its payload.
pub fn expand_from_foreign(input: &UnionSchema, variant_ident: &String, fields: &Fields) -> (r: String)
    ensures
        r@ == from_foreign_text(input.ident@, input.generics, variant_ident@, *fields),
{
    let ty = payload_type_text(fields, "");
    let mut s = String::from_str("impl");
    s.append(input.generics.impl_generics.as_str());
    s.append(" From<");
    s.append(ty.as_str());
    s.append("> for ");
    s.append(input.ident.as_str());
    s.append(input.generics.ty_generics.as_str());
    s.append(" ");
    s.append(input.generics.where_clause.as_str());
    s.append(" {\n");
    s.append(
        doc_text(
            "Creates a ",
            &input.ident,
            variant_ident,
            " variant from the associated data.",
        ).as_str(),
    );
    s.append("fn from(");
    s.append(payload_value_text(fields).as_str());
    s.append(": ");
    s.append(ty.as_str());
    s.append(") -> Self { Self::");
    s.append(variant_ident.as_str());
    s.append(pattern_text(fields).as_str());
    s.append(" }\n}\n");
    s
}

} // verus!
