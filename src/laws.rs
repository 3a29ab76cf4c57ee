//! Laws of directive validation, of the order of the output, and of the
//! bindings that the generators share.
//!
//! The last group reads the generated items through a small model: a value is
//! the name of its variant and its fields, a `match` arm on `Self::v` followed by
//! [`pattern`](crate::shape::pattern) binds [`binders`](crate::shape::binders)
//! to the fields, and [`payload_value`](crate::shape::payload_value) reads them
//! back in order. These are the pieces from which the generators' texts are made.

use vstd::prelude::*;

use crate::directive::{
    add_entry, decode_entry, entry_step, entries_of, fold_entries, split_state, AttrsSpec, DirectiveError,
    DirectiveToken, EntrySpec, Keyword,
};
use crate::directive::parse_attrs;
use crate::expand::{expand_variants, expansion, variant_parts, ExpandError, UnionSchema, VariantSchema};
use crate::shape::{binders, decimal, digit, field_types, positional, Fields};

verus! {

/// Whether `n` names one of the five operations.
pub open spec fn known_operation(n: Seq<char>) -> bool {
    n == "as_ref_mut"@ || n == "as_ref"@ || n == "from"@ || n == "into"@ || n == "is"@
}

/// An operation that was configured once cannot be configured again: the
/// second entry for the same operation is a duplicate.
pub proof fn law_second_entry_is_duplicate(m: AttrsSpec, e: EntrySpec)
    requires
        add_entry(m, e) is Ok,
    ensures
        add_entry(add_entry(m, e)->Ok_0, e) == Err::<AttrsSpec, DirectiveError>(
            DirectiveError::DuplicateDirective,
        ),
{
}

/// `impl from` with a rename is refused, whatever was configured before.
pub proof fn law_rename_on_foreign(m: AttrsSpec, e: EntrySpec)
    requires
        e.keyword == Keyword::Impl,
        e.name == "from"@,
        e.param is Some,
    ensures
        add_entry(m, e) == Err::<AttrsSpec, DirectiveError>(DirectiveError::RenameOnForeign),
{
    reveal_strlit("from");
    reveal_strlit("as_ref_mut");
    reveal_strlit("as_ref");
    assert("from"@ != "as_ref_mut"@) by {
        assert("from"@.len() != "as_ref_mut"@.len());
    }
    assert("from"@ != "as_ref"@) by {
        assert("from"@[0] != "as_ref"@[0]);
    }
}

/// An entry whose operation name is none of the five is refused, whatever was
/// configured before.
pub proof fn law_unknown_directive(m: AttrsSpec, e: EntrySpec)
    requires
        !known_operation(e.name),
    ensures
        add_entry(m, e) == Err::<AttrsSpec, DirectiveError>(DirectiveError::UnknownDirective),
{
}

/// An item that is not an enum is refused.
pub proof fn law_wrong_target(input: UnionSchema)
    requires
        input.variants is None,
    ensures
        expansion(input) == Err::<Seq<char>, ExpandError>(ExpandError::WrongTarget),
{
}

/// Appending tokens without a comma extends the entry in progress.
proof fn lemma_split_no_comma(p: Seq<DirectiveToken>, q: Seq<DirectiveToken>)
    requires
        forall|k: int| 0 <= k < q.len() ==> !(q[k] is Comma),
    ensures
        split_state(p + q) == (split_state(p).0, split_state(p).1 + q),
    decreases q.len(),
{
    if q.len() == 0 {
        assert(p + q =~= p);
        assert(split_state(p).1 + q =~= split_state(p).1);
    } else {
        lemma_split_no_comma(p, q.drop_last());
        assert((p + q).drop_last() =~= p + q.drop_last());
        assert(split_state(p).1 + q =~= (split_state(p).1 + q.drop_last()).push(q.last()));
    }
}

/// The tokens of a well-formed entry hold no comma.
proof fn lemma_entry_no_comma(t: Seq<DirectiveToken>)
    requires
        decode_entry(t) is Ok,
    ensures
        forall|k: int| 0 <= k < t.len() ==> !(t[k] is Comma),
{
}

/// A directive list that holds the same well-formed entry twice is refused as
/// a duplicate, or earlier for what the first entry itself is.
pub proof fn law_repeated_entry(t: Seq<DirectiveToken>, m: AttrsSpec)
    requires
        decode_entry(t) is Ok,
    ensures
        ({
            let list = t + seq![DirectiveToken::Comma] + t;
            match add_entry(m, decode_entry(t)->Ok_0) {
                Ok(_) => fold_entries(Ok(m), entries_of(list)) == Err::<AttrsSpec, DirectiveError>(
                    DirectiveError::DuplicateDirective,
                ),
                Err(e) => fold_entries(Ok(m), entries_of(list)) == Err::<AttrsSpec, DirectiveError>(
                    e,
                ),
            }
        }),
{
    let c = seq![DirectiveToken::Comma];
    let list = t + c + t;
    lemma_entry_no_comma(t);
    lemma_split_no_comma(Seq::empty(), t);
    assert(Seq::<DirectiveToken>::empty() + t =~= t);
    assert(Seq::<DirectiveToken>::empty() + t =~= t);
    let first = t + c;
    assert(first.drop_last() =~= t);
    assert(split_state(first) == (seq![t], Seq::<DirectiveToken>::empty()));
    lemma_split_no_comma(first, t);
    assert(list =~= first + t);
    assert(Seq::<DirectiveToken>::empty() + t =~= t);
    assert(t.len() > 0);
    assert(entries_of(list) =~= seq![t, t]);
    assert(entries_of(list).drop_last() =~= seq![t]);
    assert(seq![t].drop_last() =~= Seq::<Seq<DirectiveToken>>::empty());
    let e = decode_entry(t)->Ok_0;
    let ok_m = Ok::<AttrsSpec, DirectiveError>(m);
    assert(seq![t].last() == t);
    assert(seq![t, t].last() == t);
    assert(fold_entries(ok_m, Seq::<Seq<DirectiveToken>>::empty()) == ok_m);
    assert(entry_step(ok_m, t) == add_entry(m, e));
    assert(fold_entries(ok_m, seq![t]) == add_entry(m, e));
    assert(fold_entries(Ok(m), entries_of(list)) == entry_step(add_entry(m, e), t));
    if add_entry(m, e) is Ok {
        law_second_entry_is_duplicate(m, e);
    }
}

proof fn lemma_decimal_len(n: nat)
    ensures
        decimal(n).len() >= 1,
        n >= 10 ==> decimal(n).len() >= 2,
    decreases n,
{
    if n >= 10 {
        lemma_decimal_len(n / 10);
    }
}

proof fn lemma_digit_injective(a: nat, b: nat)
    requires
        a < 10,
        b < 10,
        digit(a) == digit(b),
    ensures
        a == b,
{
}

/// Distinct numbers have distinct decimal notations.
proof fn lemma_decimal_injective(a: nat, b: nat)
    requires
        decimal(a) == decimal(b),
    ensures
        a == b,
    decreases a,
{
    lemma_decimal_len(a);
    lemma_decimal_len(b);
    if a < 10 && b < 10 {
        assert(decimal(a)[0] == digit(a));
        assert(decimal(b)[0] == digit(b));
        lemma_digit_injective(a, b);
    } else if a < 10 {
        lemma_decimal_len(b / 10);
        assert(decimal(b).len() == decimal(b / 10).len() + 1);
    } else if b < 10 {
        lemma_decimal_len(a / 10);
        assert(decimal(a).len() == decimal(a / 10).len() + 1);
    } else {
        assert(decimal(a).drop_last() =~= decimal(a / 10));
        assert(decimal(b).drop_last() =~= decimal(b / 10));
        assert(decimal(a).last() == digit(a % 10));
        assert(decimal(b).last() == digit(b % 10));
        lemma_digit_injective(a % 10, b % 10);
        lemma_decimal_injective(a / 10, b / 10);
    }
}

/// Every generator binds the payload through the same names, one per field in
/// declaration order, and no two fields share a name. So a payload that the
/// constructor writes field by field is read back whole by the accessors and
/// the extraction, each field in its own place.
pub proof fn law_one_distinct_binding_per_field(f: Fields)
    requires
        f matches Fields::Named(fs) ==> forall|i: int, j: int|
            0 <= i < j < fs@.len() ==> fs@[i].name@ != fs@[j].name@,
    ensures
        binders(f).len() == field_types(f).len(),
        binders(f).len() == f.count(),
        forall|i: int, j: int|
            0 <= i < j < binders(f).len() ==> binders(f)[i] != binders(f)[j],
{
    reveal_strlit("arg");
    assert forall|i: int, j: int| 0 <= i < j < binders(f).len() implies binders(f)[i] != binders(f)[
        j
    ] by {
        if f is Unnamed {
            if binders(f)[i] == binders(f)[j] {
                let bi = positional(i as nat);
                let bj = positional(j as nat);
                assert(bi.subrange(3, bi.len() as int) =~= decimal(i as nat));
                assert(bj.subrange(3, bj.len() as int) =~= decimal(j as nat));
                lemma_decimal_injective(i as nat, j as nat);
            }
        }
    }
}

/// The output for the first `j` variants is where the output for all of them starts.
proof fn lemma_variants_prefix(input: UnionSchema, vs: Seq<VariantSchema>, j: int)
    requires
        expand_variants(input, vs) is Ok,
        0 <= j <= vs.len(),
    ensures
        expand_variants(input, vs.take(j)) is Ok,
        expand_variants(input, vs.take(j))->Ok_0.0.is_prefix_of(expand_variants(input, vs)->Ok_0.0),
        expand_variants(input, vs.take(j))->Ok_0.1.is_prefix_of(expand_variants(input, vs)->Ok_0.1),
    decreases vs.len(),
{
    if j == vs.len() {
        assert(vs.take(j) =~= vs);
    } else {
        let prev = vs.drop_last();
        lemma_variants_prefix(input, prev, j);
        assert(prev.take(j) =~= vs.take(j));
        let a = expand_variants(input, prev)->Ok_0;
        let b = expand_variants(input, vs)->Ok_0;
        let m = parse_attrs(vs.last().attrs@)->Ok_0;
        assert(b.0 == a.0 + variant_parts(input, vs.last(), m).0);
        assert(b.1 == a.1 + variant_parts(input, vs.last(), m).1);
        assert(a.0.is_prefix_of(b.0));
        assert(a.1.is_prefix_of(b.1));
    }
}

/// Every variant's generated items stand in the output, after those of the
/// variants declared before it: its methods in the inherent impl, its `From`
/// impl among the standalone ones.
pub proof fn law_variants_expanded_in_order(input: UnionSchema, vs: Seq<VariantSchema>, k: int)
    requires
        expand_variants(input, vs) is Ok,
        0 <= k < vs.len(),
    ensures
        parse_attrs(vs[k].attrs@) is Ok,
        ({
            let before = expand_variants(input, vs.take(k))->Ok_0;
            let parts = variant_parts(input, vs[k], parse_attrs(vs[k].attrs@)->Ok_0);
            &&& (before.0 + parts.0).is_prefix_of(expand_variants(input, vs)->Ok_0.0)
            &&& (before.1 + parts.1).is_prefix_of(expand_variants(input, vs)->Ok_0.1)
        }),
{
    lemma_variants_prefix(input, vs, k + 1);
    let upto = vs.take(k + 1);
    assert(upto.drop_last() =~= vs.take(k));
    assert(upto.last() == vs[k]);
}

/// A value of the enum as generated code sees it: the name of the variant it
/// holds and that variant's fields in declaration order.
pub struct EnumValue<T> {
    pub variant: Seq<char>,
    pub fields: Seq<T>,
}

/// The environment made by binding `names` to `vals`, position by position.
pub open spec fn bind<T>(names: Seq<Seq<char>>, vals: Seq<T>) -> Map<Seq<char>, T>
    decreases names.len(),
{
    if names.len() == 0 || vals.len() == 0 {
        Map::empty()
    } else {
        bind(names.drop_last(), vals.drop_last()).insert(names.last(), vals.last())
    }
}

/// The values of `names` in `env`, in order.
pub open spec fn read<T>(names: Seq<Seq<char>>, env: Map<Seq<char>, T>) -> Seq<T> {
    Seq::new(names.len(), |i: int| env[names[i]])
}

/// What `match self { Self::v <pattern> => Some(<payload value>), _ => None }`
/// yields on `x`: the shared and mutable accessors (as references) and the
/// extraction (by value).
pub open spec fn eval_access<T>(v: Seq<char>, f: Fields, x: EnumValue<T>) -> Option<Seq<T>> {
    if x.variant == v && x.fields.len() == binders(f).len() {
        Some(read(binders(f), bind(binders(f), x.fields)))
    } else {
        None
    }
}

/// What the presence test `match self { Self::v <any pattern> => true, _ => false }` yields on `x`.
pub open spec fn eval_is<T>(v: Seq<char>, x: EnumValue<T>) -> bool {
    x.variant == v
}

/// What a constructor yields: its parameters (or the payload pattern of a `From`
/// impl) bind `binders(f)` to `args`, and `Self::v <pattern>` reads them back.
pub open spec fn eval_construct<T>(v: Seq<char>, f: Fields, args: Seq<T>) -> EnumValue<T> {
    EnumValue { variant: v, fields: read(binders(f), bind(binders(f), args)) }
}

proof fn lemma_bind_read<T>(names: Seq<Seq<char>>, vals: Seq<T>)
    requires
        names.len() == vals.len(),
        forall|i: int, j: int| 0 <= i < j < names.len() ==> names[i] != names[j],
    ensures
        forall|i: int| 0 <= i < names.len() ==> #[trigger] bind(names, vals).dom().contains(names[i]),
        read(names, bind(names, vals)) == vals,
    decreases names.len(),
{
    if names.len() > 0 {
        let dn = names.drop_last();
        let dv = vals.drop_last();
        lemma_bind_read(dn, dv);
        let env = bind(names, vals);
        assert forall|i: int| 0 <= i < names.len() implies env.dom().contains(names[i]) by {
            if i < names.len() - 1 {
                assert(bind(dn, dv).dom().contains(dn[i]));
            }
        }
        assert forall|i: int| 0 <= i < names.len() implies env[names[i]] == vals[i] by {
            if i < names.len() - 1 {
                assert(names[i] != names.last());
                assert(read(dn, bind(dn, dv))[i] == dv[i]);
            }
        }
        assert(read(names, env) =~= vals);
    } else {
        assert(read(names, bind(names, vals)) =~= vals);
    }
}

/// Construction and access of a variant agree: on a value built by the
/// variant's constructor (or its `From` impl) from a payload of one value per
/// field, the presence test holds and the accessors and the extraction give
/// that payload back; the presence tests and accessors of any other variant
/// give `false` and `None`.
pub proof fn law_construct_then_access<T>(v: Seq<char>, f: Fields, args: Seq<T>)
    requires
        args.len() == f.count(),
        f matches Fields::Named(fs) ==> forall|i: int, j: int|
            0 <= i < j < fs@.len() ==> fs@[i].name@ != fs@[j].name@,
    ensures
        eval_is(v, eval_construct(v, f, args)),
        eval_access(v, f, eval_construct(v, f, args)) == Some(args),
        forall|w: Seq<char>, g: Fields|
            w != v ==> !eval_is(w, eval_construct(v, f, args)) && eval_access(
                w,
                g,
                eval_construct(v, f, args),
            ) is None,
{
    law_one_distinct_binding_per_field(f);
    lemma_bind_read(binders(f), args);
    let x = eval_construct(v, f, args);
    assert(x.fields == args);
}

/// The value after writing `y` through the reference that the mutable accessor
/// of variant `v` hands out for the field at `k`; a value of another variant
/// yields no reference and stays as it is.
pub open spec fn eval_write_through<T>(v: Seq<char>, f: Fields, x: EnumValue<T>, k: int, y: T) -> EnumValue<T> {
    if eval_access(v, f, x) is Some {
        EnumValue { variant: x.variant, fields: x.fields.update(k, y) }
    } else {
        x
    }
}

/// A write through the mutable accessor is what the shared accessor sees next:
/// the payload it returns is the old one with that field replaced.
pub proof fn law_write_then_read<T>(v: Seq<char>, f: Fields, x: EnumValue<T>, k: int, y: T)
    requires
        eval_access(v, f, x) is Some,
        0 <= k < f.count(),
        f matches Fields::Named(fs) ==> forall|i: int, j: int|
            0 <= i < j < fs@.len() ==> fs@[i].name@ != fs@[j].name@,
    ensures
        eval_access(v, f, eval_write_through(v, f, x, k, y)) == Some(
            eval_access(v, f, x)->Some_0.update(k, y),
        ),
{
    law_one_distinct_binding_per_field(f);
    lemma_bind_read(binders(f), x.fields);
    lemma_bind_read(binders(f), x.fields.update(k, y));
}

} // verus!
