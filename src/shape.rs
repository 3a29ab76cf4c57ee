//! The payload shape of a variant and the pieces of text derived from it.
//!
//! Every generator reads a variant's fields through the same bindings: the
//! declared names of named fields, `arg0`, `arg1`, ... for positional ones.
//! A payload of one field stands bare; any other count is wrapped in a tuple.

use vstd::prelude::*;
use vstd::string::*;

use crate::text::{copy_text, join, join_text, lemma_views_push, views};

verus! {

/// A named field: its name and the source text of its type.
#[derive(Debug, Clone)]
pub struct NamedField {
    pub name: String,
    pub ty: String,
}

/// The payload of a variant.
#[derive(Debug, Clone)]
pub enum Fields {
    /// No fields.
    Unit,
    /// Positional fields, given by the source text of their types.
    Unnamed(Vec<String>),
    /// Named fields, in declaration order.
    Named(Vec<NamedField>),
}

/// The decimal digit of `d`.
pub open spec fn digit(d: nat) -> char {
    if d == 0 { '0' } else if d == 1 { '1' } else if d == 2 { '2' } else if d == 3 { '3' }
    else if d == 4 { '4' } else if d == 5 { '5' } else if d == 6 { '6' } else if d == 7 { '7' }
    else if d == 8 { '8' } else { '9' }
}

/// The decimal notation of `n`.
pub open spec fn decimal(n: nat) -> Seq<char>
    decreases n,
{
    if n < 10 {
        seq![digit(n)]
    } else {
        decimal(n / 10).push(digit(n % 10))
    }
}

/// The binding of the positional field at `i`.
pub open spec fn positional(i: nat) -> Seq<char> {
    "arg"@ + decimal(i)
}

/// The names under which the generated code binds the fields, in order.
pub open spec fn binders(f: Fields) -> Seq<Seq<char>> {
    match f {
        Fields::Unit => Seq::empty(),
        Fields::Unnamed(ts) => Seq::new(ts@.len(), |i: int| positional(i as nat)),
        Fields::Named(fs) => fs@.map_values(|x: NamedField| x.name@),
    }
}

/// The types of the fields, in order.
pub open spec fn field_types(f: Fields) -> Seq<Seq<char>> {
    match f {
        Fields::Unit => Seq::empty(),
        Fields::Unnamed(ts) => views(ts@),
        Fields::Named(fs) => fs@.map_values(|x: NamedField| x.ty@),
    }
}

/// Each item of `items` with `p` written before it.
pub open spec fn prefixed(p: Seq<char>, items: Seq<Seq<char>>) -> Seq<Seq<char>> {
    items.map_values(|x: Seq<char>| p + x)
}

/// One item bare; any other count as a tuple.
pub open spec fn wrap(items: Seq<Seq<char>>) -> Seq<char> {
    if items.len() == 1 {
        items[0]
    } else {
        "("@ + join(items, ", "@) + ")"@
    }
}

/// The pattern after `Self::Variant` that binds every field.
pub open spec fn pattern(f: Fields) -> Seq<char> {
    match f {
        Fields::Unit => Seq::empty(),
        Fields::Unnamed(_) => "("@ + join(binders(f), ", "@) + ")"@,
        Fields::Named(_) => " { "@ + join(binders(f), ", "@) + " }"@,
    }
}

/// The pattern after `Self::Variant` that matches the variant whatever its fields.
pub open spec fn any_pattern(f: Fields) -> Seq<char> {
    match f {
        Fields::Unit => Seq::empty(),
        Fields::Unnamed(_) => "(..)"@,
        Fields::Named(_) => " { .. }"@,
    }
}

/// Each binding with its type: `name: Type`.
pub open spec fn typed(f: Fields) -> Seq<Seq<char>> {
    Seq::new(binders(f).len(), |i: int| binders(f)[i] + ": "@ + field_types(f)[i])
}

/// The parameter list of a constructor: one parameter per field, in order.
pub open spec fn params(f: Fields) -> Seq<char> {
    join(typed(f), ", "@)
}

/// The payload type, each field type led by `p` (`&`, `&mut ` or nothing).
pub open spec fn payload_type(f: Fields, p: Seq<char>) -> Seq<char> {
    wrap(prefixed(p, field_types(f)))
}

/// The payload value built from the bindings.
pub open spec fn payload_value(f: Fields) -> Seq<char> {
    wrap(binders(f))
}

impl Fields {
    /// The number of fields.
    pub open spec fn count(&self) -> nat {
        match self {
            Fields::Unit => 0,
            Fields::Unnamed(ts) => ts@.len(),
            Fields::Named(fs) => fs@.len(),
        }
    }
}

/// Relies on the `Display` impl of `usize` from std: the decimal digits of `i`.
#[verifier::external_body]
fn index_text(i: usize) -> (r: String)
    ensures
        r@ == decimal(i as nat),
{
    format!("{}", i)
}

/// The bindings of the fields, in order.
pub fn binders_of(fields: &Fields) -> (r: Vec<String>)
    ensures
        views(r@) == binders(*fields),
{
    let mut r: Vec<String> = Vec::new();
    match fields {
        Fields::Unit => {},
        Fields::Unnamed(ts) => {
            let mut i: usize = 0;
            while i < ts.len()
                invariant
                    i <= ts.len(),
                    views(r@) =~= Seq::new(i as nat, |k: int| positional(k as nat)),
                decreases ts.len() - i,
            {
                let mut b = String::from_str("arg");
                let d = index_text(i);
                b.append(d.as_str());
                proof {
                    lemma_views_push(r@, b);
                }
                r.push(b);
                i = i + 1;
            }
        },
        Fields::Named(fs) => {
            let mut i: usize = 0;
            while i < fs.len()
                invariant
                    i <= fs.len(),
                    views(r@) =~= fs@.take(i as int).map_values(|x: NamedField| x.name@),
                decreases fs.len() - i,
            {
                let b = copy_text(&fs[i].name);
                proof {
                    lemma_views_push(r@, b);
                    assert(fs@.take(i as int + 1) =~= fs@.take(i as int).push(fs@[i as int]));
                }
                r.push(b);
                i = i + 1;
            }
            assert(fs@.take(fs.len() as int) =~= fs@);
        },
    }
    r
}

/// The field types, each led by `p`.
pub fn types_of(fields: &Fields, p: &str) -> (r: Vec<String>)
    ensures
        views(r@) == prefixed(p@, field_types(*fields)),
{
    let mut r: Vec<String> = Vec::new();
    match fields {
        Fields::Unit => {},
        Fields::Unnamed(ts) => {
            let mut i: usize = 0;
            while i < ts.len()
                invariant
                    i <= ts.len(),
                    views(r@) =~= prefixed(p@, views(ts@.take(i as int))),
                decreases ts.len() - i,
            {
                let mut t = String::from_str(p);
                t.append(ts[i].as_str());
                proof {
                    lemma_views_push(r@, t);
                    assert(ts@.take(i as int + 1) =~= ts@.take(i as int).push(ts@[i as int]));
                    lemma_views_push(ts@.take(i as int), ts@[i as int]);
                }
                r.push(t);
                i = i + 1;
            }
            assert(ts@.take(ts.len() as int) =~= ts@);
        },
        Fields::Named(fs) => {
            let mut i: usize = 0;
            while i < fs.len()
                invariant
                    i <= fs.len(),
                    views(r@) =~= prefixed(p@, fs@.take(i as int).map_values(|x: NamedField| x.ty@)),
                decreases fs.len() - i,
            {
                let mut t = String::from_str(p);
                t.append(fs[i].ty.as_str());
                proof {
                    lemma_views_push(r@, t);
                    assert(fs@.take(i as int + 1) =~= fs@.take(i as int).push(fs@[i as int]));
                }
                r.push(t);
                i = i + 1;
            }
            assert(fs@.take(fs.len() as int) =~= fs@);
        },
    }
    r
}

/// One item bare; any other count as a tuple.
pub fn wrap_text(items: &Vec<String>) -> (r: String)
    ensures
        r@ == wrap(views(items@)),
{
    if items.len() == 1 {
        copy_text(&items[0])
    } else {
        let mut r = String::from_str("(");
        let inner = join_text(items, ", ");
        r.append(inner.as_str());
        r.append(")");
        r
    }
}

/// The pattern after `Self::Variant` that binds every field.
pub fn pattern_text(fields: &Fields) -> (r: String)
    ensures
        r@ == pattern(*fields),
{
    match fields {
        Fields::Unit => String::new(),
        Fields::Unnamed(_) => {
            let mut r = String::from_str("(");
            let inner = join_text(&binders_of(fields), ", ");
            r.append(inner.as_str());
            r.append(")");
            r
        },
        Fields::Named(_) => {
            let mut r = String::from_str(" { ");
            let inner = join_text(&binders_of(fields), ", ");
            r.append(inner.as_str());
            r.append(" }");
            r
        },
    }
}

/// The pattern after `Self::Variant` that matches the variant whatever its fields.
pub fn any_pattern_text(fields: &Fields) -> (r: String)
    ensures
        r@ == any_pattern(*fields),
{
    match fields {
        Fields::Unit => String::new(),
        Fields::Unnamed(_) => String::from_str("(..)"),
        Fields::Named(_) => String::from_str(" { .. }"),
    }
}

/// The parameter list of a constructor.
pub fn params_text(fields: &Fields) -> (r: String)
    ensures
        r@ == params(*fields),
{
    let names = binders_of(fields);
    let types = types_of(fields, "");
    proof {
        reveal_strlit("");
        assert(prefixed(""@, field_types(*fields)) =~= field_types(*fields));
        assert(views(names@).len() == names@.len());
        assert(views(types@).len() == types@.len());
    }
    let mut items: Vec<String> = Vec::new();
    let mut i: usize = 0;
    while i < names.len()
        invariant
            i <= names.len(),
            names.len() == types.len(),
            views(names@) == binders(*fields),
            views(types@) == field_types(*fields),
            views(items@) =~= typed(*fields).take(i as int),
        decreases names.len() - i,
    {
        let mut t = copy_text(&names[i]);
        t.append(": ");
        t.append(types[i].as_str());
        proof {
            lemma_views_push(items@, t);
        }
        items.push(t);
        i = i + 1;
    }
    assert(typed(*fields).take(names.len() as int) =~= typed(*fields));
    join_text(&items, ", ")
}

/// The payload type, each field type led by `p`.
pub fn payload_type_text(fields: &Fields, p: &str) -> (r: String)
    ensures
        r@ == payload_type(*fields, p@),
{
    wrap_text(&types_of(fields, p))
}

/// The payload value built from the bindings.
pub fn payload_value_text(fields: &Fields) -> (r: String)
    ensures
        r@ == payload_value(*fields),
{
    wrap_text(&binders_of(fields))
}

} // verus!
