//! The per-variant directive model and its parser.
//!
//! A variant carries attributes such as `#[enum_impl(pub is, as_ref = "peek", impl from)]`.
//! Each attribute reaches this module as its path and the tokens inside its
//! parentheses; the parser turns them into an [`EnumImplAttributes`].

use vstd::prelude::*;
use vstd::string::*;

use crate::text::{is_word, opt_view};

verus! {

/// One token inside the parentheses of a directive attribute.
#[derive(Debug, Clone)]
pub enum DirectiveToken {
    /// An identifier or a keyword such as `pub` or `impl`.
    Ident(String),
    /// The `=` punctuation.
    Eq,
    /// The value of a string literal.
    Str(String),
    /// The `,` punctuation that separates entries.
    Comma,
    /// Any other token; no entry holds one.
    Other,
}

/// An attribute attached to a variant.
#[derive(Debug, Clone)]
pub struct RawAttribute {
    /// The attribute's path, such as `enum_impl` or `doc`.
    pub path: String,
    /// The tokens inside the parentheses, or `None` where the attribute has no list.
    pub args: Option<Vec<DirectiveToken>>,
}

/// What can be wrong with the directives of one variant.
#[derive(Debug, Clone, Copy, PartialEq, Eq, Structural)]
pub enum DirectiveError {
    /// The tokens of an entry do not follow `[pub | impl] name [= "rename"]`.
    Syntax,
    /// The operation name is none of `as_ref`, `as_ref_mut`, `from`, `into`, `is`.
    UnknownDirective,
    /// The same operation is configured twice for one variant.
    DuplicateDirective,
    /// The `impl` keyword is used with an operation other than `from`.
    KeywordMisuse,
    /// A rename is given to `impl from`, whose name is fixed.
    RenameOnForeign,
}

/// The keyword that may lead an entry.
#[derive(Debug, Clone, Copy, PartialEq, Eq, Structural)]
pub enum Keyword {
    Plain,
    Pub,
    Impl,
}

/// Configuration of an operation that produces a method.
#[derive(Debug, Clone)]
pub struct ClassicAttribute {
    pub public: bool,
    pub rename: Option<String>,
}

/// Configuration of the construction operation: a method, or a `From` impl.
#[derive(Debug, Clone)]
pub enum ImplOrClassicAttribute {
    Classic(ClassicAttribute),
    Impl,
}

/// The operations requested for one variant, each at most once.
#[derive(Debug, Clone)]
pub struct EnumImplAttributes {
    pub as_ref_mut: Option<ClassicAttribute>,
    pub as_ref: Option<ClassicAttribute>,
    pub from: Option<ImplOrClassicAttribute>,
    pub into: Option<ClassicAttribute>,
    pub is: Option<ClassicAttribute>,
}

/// One decoded entry of a directive list.
#[derive(Debug, Clone)]
pub struct ParametrizedAttribute {
    pub keyword: Keyword,
    pub name: String,
    pub param: Option<String>,
}

/// The meaning of a [`ClassicAttribute`].
pub struct ClassicSpec {
    pub public: bool,
    pub rename: Option<Seq<char>>,
}

/// The meaning of an [`ImplOrClassicAttribute`].
pub enum FromSpec {
    Classic(ClassicSpec),
    Impl,
}

/// The meaning of an [`EnumImplAttributes`].
pub struct AttrsSpec {
    pub as_ref_mut: Option<ClassicSpec>,
    pub as_ref: Option<ClassicSpec>,
    pub from: Option<FromSpec>,
    pub into: Option<ClassicSpec>,
    pub is: Option<ClassicSpec>,
}

/// The meaning of a [`ParametrizedAttribute`].
pub struct EntrySpec {
    pub keyword: Keyword,
    pub name: Seq<char>,
    pub param: Option<Seq<char>>,
}

impl ClassicAttribute {
    pub open spec fn spec(&self) -> ClassicSpec {
        ClassicSpec { public: self.public, rename: opt_view(self.rename) }
    }
}

impl ImplOrClassicAttribute {
    pub open spec fn spec(&self) -> FromSpec {
        match self {
            ImplOrClassicAttribute::Classic(c) => FromSpec::Classic(c.spec()),
            ImplOrClassicAttribute::Impl => FromSpec::Impl,
        }
    }
}

pub open spec fn opt_classic(o: Option<ClassicAttribute>) -> Option<ClassicSpec> {
    match o {
        Some(c) => Some(c.spec()),
        None => None,
    }
}

impl EnumImplAttributes {
    pub open spec fn spec(&self) -> AttrsSpec {
        AttrsSpec {
            as_ref_mut: opt_classic(self.as_ref_mut),
            as_ref: opt_classic(self.as_ref),
            from: match self.from {
                Some(f) => Some(f.spec()),
                None => None,
            },
            into: opt_classic(self.into),
            is: opt_classic(self.is),
        }
    }
}

impl ParametrizedAttribute {
    pub open spec fn spec(&self) -> EntrySpec {
        EntrySpec { keyword: self.keyword, name: self.name@, param: opt_view(self.param) }
    }
}

/// No operation requested.
pub open spec fn empty_attrs() -> AttrsSpec {
    AttrsSpec { as_ref_mut: None, as_ref: None, from: None, into: None, is: None }
}

/// Whether token `t` is the identifier `w`.
pub open spec fn is_ident_tok(t: DirectiveToken, w: Seq<char>) -> bool {
    match t {
        DirectiveToken::Ident(s) => s@ == w,
        _ => false,
    }
}

/// The keyword that token sequence `t` starts with.
pub open spec fn leading_keyword(t: Seq<DirectiveToken>) -> Keyword {
    if t.len() > 0 && is_ident_tok(t[0], "pub"@) {
        Keyword::Pub
    } else if t.len() > 0 && is_ident_tok(t[0], "impl"@) {
        Keyword::Impl
    } else {
        Keyword::Plain
    }
}

/// Decodes the tokens of one entry: `[pub | impl] name [= "rename"]`.
pub open spec fn decode_entry(t: Seq<DirectiveToken>) -> Result<EntrySpec, DirectiveError> {
    let kw = leading_keyword(t);
    let start: int = if kw == Keyword::Plain { 0 } else { 1 };
    if t.len() <= start {
        Err(DirectiveError::Syntax)
    } else {
        match t[start] {
            DirectiveToken::Ident(n) => {
                if t.len() == start + 1 {
                    Ok(EntrySpec { keyword: kw, name: n@, param: None })
                } else if t.len() == start + 3 && t[start + 1] is Eq && t[start + 2] is Str {
                    Ok(EntrySpec { keyword: kw, name: n@, param: Some(t[start + 2]->Str_0@) })
                } else {
                    Err(DirectiveError::Syntax)
                }
            },
            _ => Err(DirectiveError::Syntax),
        }
    }
}

/// The configuration of a method-producing operation given by entry `e`.
pub open spec fn classic_of(e: EntrySpec) -> Result<ClassicSpec, DirectiveError> {
    match e.keyword {
        Keyword::Plain => Ok(ClassicSpec { public: false, rename: e.param }),
        Keyword::Pub => Ok(ClassicSpec { public: true, rename: e.param }),
        Keyword::Impl => Err(DirectiveError::KeywordMisuse),
    }
}

/// The configuration of the construction operation given by entry `e`.
pub open spec fn from_of(e: EntrySpec) -> Result<FromSpec, DirectiveError> {
    if e.keyword == Keyword::Impl {
        if e.param is Some {
            Err(DirectiveError::RenameOnForeign)
        } else {
            Ok(FromSpec::Impl)
        }
    } else {
        match classic_of(e) {
            Ok(c) => Ok(FromSpec::Classic(c)),
            Err(err) => Err(err),
        }
    }
}

/// Records entry `e` in `m`.
pub open spec fn add_entry(m: AttrsSpec, e: EntrySpec) -> Result<AttrsSpec, DirectiveError> {
    if e.name == "as_ref_mut"@ {
        match classic_of(e) {
            Err(err) => Err(err),
            Ok(c) => if m.as_ref_mut is Some {
                Err(DirectiveError::DuplicateDirective)
            } else {
                Ok(AttrsSpec { as_ref_mut: Some(c), ..m })
            },
        }
    } else if e.name == "as_ref"@ {
        match classic_of(e) {
            Err(err) => Err(err),
            Ok(c) => if m.as_ref is Some {
                Err(DirectiveError::DuplicateDirective)
            } else {
                Ok(AttrsSpec { as_ref: Some(c), ..m })
            },
        }
    } else if e.name == "from"@ {
        match from_of(e) {
            Err(err) => Err(err),
            Ok(f) => if m.from is Some {
                Err(DirectiveError::DuplicateDirective)
            } else {
                Ok(AttrsSpec { from: Some(f), ..m })
            },
        }
    } else if e.name == "into"@ {
        match classic_of(e) {
            Err(err) => Err(err),
            Ok(c) => if m.into is Some {
                Err(DirectiveError::DuplicateDirective)
            } else {
                Ok(AttrsSpec { into: Some(c), ..m })
            },
        }
    } else if e.name == "is"@ {
        match classic_of(e) {
            Err(err) => Err(err),
            Ok(c) => if m.is is Some {
                Err(DirectiveError::DuplicateDirective)
            } else {
                Ok(AttrsSpec { is: Some(c), ..m })
            },
        }
    } else {
        Err(DirectiveError::UnknownDirective)
    }
}

/// The effect of one entry's tokens on `acc`, where an earlier error stands.
pub open spec fn entry_step(
    acc: Result<AttrsSpec, DirectiveError>,
    t: Seq<DirectiveToken>,
) -> Result<AttrsSpec, DirectiveError> {
    match acc {
        Err(err) => Err(err),
        Ok(m) => match decode_entry(t) {
            Err(err) => Err(err),
            Ok(e) => add_entry(m, e),
        },
    }
}

/// The entries completed so far by the tokens `t`, and the tokens of the entry in progress.
pub open spec fn split_state(t: Seq<DirectiveToken>) -> (Seq<Seq<DirectiveToken>>, Seq<DirectiveToken>)
    decreases t.len(),
{
    if t.len() == 0 {
        (Seq::empty(), Seq::empty())
    } else {
        let (done, cur) = split_state(t.drop_last());
        if t.last() is Comma {
            (done.push(cur), Seq::empty())
        } else {
            (done, cur.push(t.last()))
        }
    }
}

/// The entries of a directive list: its tokens split at commas, with a trailing comma allowed.
pub open spec fn entries_of(t: Seq<DirectiveToken>) -> Seq<Seq<DirectiveToken>> {
    let (done, cur) = split_state(t);
    if cur.len() == 0 {
        done
    } else {
        done.push(cur)
    }
}

/// The entries `es` applied in order to `acc`.
pub open spec fn fold_entries(
    acc: Result<AttrsSpec, DirectiveError>,
    es: Seq<Seq<DirectiveToken>>,
) -> Result<AttrsSpec, DirectiveError>
    decreases es.len(),
{
    if es.len() == 0 {
        acc
    } else {
        entry_step(fold_entries(acc, es.drop_last()), es.last())
    }
}

/// The effect of attribute `a` on `acc`: attributes of another path are ignored.
pub open spec fn attr_step(
    acc: Result<AttrsSpec, DirectiveError>,
    a: RawAttribute,
) -> Result<AttrsSpec, DirectiveError> {
    match acc {
        Err(err) => Err(err),
        Ok(m) => if a.path@ != "enum_impl"@ {
            Ok(m)
        } else {
            match a.args {
                None => Err(DirectiveError::Syntax),
                Some(t) => fold_entries(Ok(m), entries_of(t@)),
            }
        },
    }
}

/// The directives of a variant whose attributes are `attrs`.
pub open spec fn parse_attrs(attrs: Seq<RawAttribute>) -> Result<AttrsSpec, DirectiveError>
    decreases attrs.len(),
{
    if attrs.len() == 0 {
        Ok(empty_attrs())
    } else {
        attr_step(parse_attrs(attrs.drop_last()), attrs.last())
    }
}

fn copy_opt(o: &Option<String>) -> (r: Option<String>)
    ensures
        opt_view(r) == opt_view(*o),
{
    match o {
        Some(s) => Some(s.clone()),
        None => None,
    }
}

fn token_is_ident(t: &DirectiveToken, w: &str) -> (r: bool)
    ensures
        r == is_ident_tok(*t, w@),
{
    match t {
        DirectiveToken::Ident(s) => is_word(s, w),
        _ => false,
    }
}

impl ClassicAttribute {
    /// The configuration given by an entry; `impl` is refused here.
    pub fn from_decoded(decoded: ParametrizedAttribute) -> (r: Result<Self, DirectiveError>)
        ensures
            match classic_of(decoded.spec()) {
                Ok(c) => r is Ok && r->Ok_0.spec() == c,
                Err(e) => r == Err::<Self, DirectiveError>(e),
            },
    {
        match decoded.keyword {
            Keyword::Plain => Ok(ClassicAttribute { public: false, rename: decoded.param }),
            Keyword::Pub => Ok(ClassicAttribute { public: true, rename: decoded.param }),
            Keyword::Impl => Err(DirectiveError::KeywordMisuse),
        }
    }
}

impl ImplOrClassicAttribute {
    /// The configuration of the construction operation given by an entry.
    pub fn from_decoded(decoded: ParametrizedAttribute) -> (r: Result<Self, DirectiveError>)
        ensures
            match from_of(decoded.spec()) {
                Ok(f) => r is Ok && r->Ok_0.spec() == f,
                Err(e) => r == Err::<Self, DirectiveError>(e),
            },
    {
        match decoded.keyword {
            Keyword::Impl => {
                if decoded.param.is_some() {
                    Err(DirectiveError::RenameOnForeign)
                } else {
                    Ok(ImplOrClassicAttribute::Impl)
                }
            },
            _ => match ClassicAttribute::from_decoded(decoded) {
                Ok(c) => Ok(ImplOrClassicAttribute::Classic(c)),
                Err(e) => Err(e),
            },
        }
    }
}

impl ParametrizedAttribute {
    /// Decodes the entry made of `tokens[start..end]`.
    pub fn new(tokens: &Vec<DirectiveToken>, start: usize, end: usize) -> (r: Result<
        ParametrizedAttribute,
        DirectiveError,
    >)
        requires
            start <= end <= tokens.len(),
        ensures
            match decode_entry(tokens@.subrange(start as int, end as int)) {
                Ok(e) => r is Ok && r->Ok_0.spec() == e,
                Err(e) => r == Err::<ParametrizedAttribute, DirectiveError>(e),
            },
    {
        let ghost t = tokens@.subrange(start as int, end as int);
        let keyword = if start < end && token_is_ident(&tokens[start], "pub") {
            Keyword::Pub
        } else if start < end && token_is_ident(&tokens[start], "impl") {
            Keyword::Impl
        } else {
            Keyword::Plain
        };
        assert(keyword == leading_keyword(t));
        let at: usize = if keyword == Keyword::Plain { start } else { start + 1 };
        if end <= at {
            return Err(DirectiveError::Syntax);
        }
        let name = match &tokens[at] {
            DirectiveToken::Ident(n) => n.clone(),
            _ => {
                return Err(DirectiveError::Syntax);
            },
        };
        if end == at + 1 {
            Ok(ParametrizedAttribute { keyword, name, param: None })
        } else if end - at == 3 {
            let eq = match &tokens[at + 1] {
                DirectiveToken::Eq => true,
                _ => false,
            };
            if !eq {
                return Err(DirectiveError::Syntax);
            }
            match &tokens[at + 2] {
                DirectiveToken::Str(s) => Ok(
                    ParametrizedAttribute { keyword, name, param: Some(s.clone()) },
                ),
                _ => Err(DirectiveError::Syntax),
            }
        } else {
            Err(DirectiveError::Syntax)
        }
    }
}

impl EnumImplAttributes {
    /// Reads the directives among the attributes of a variant.
    pub fn new(attrs: &Vec<RawAttribute>) -> (r: Result<Self, DirectiveError>)
        ensures
            match parse_attrs(attrs@) {
                Ok(m) => r is Ok && r->Ok_0.spec() == m,
                Err(e) => r == Err::<Self, DirectiveError>(e),
            },
    {
        let mut res = EnumImplAttributes {
            as_ref_mut: None,
            as_ref: None,
            from: None,
            into: None,
            is: None,
        };
        let mut failed: Option<DirectiveError> = None;
        let mut i: usize = 0;
        while i < attrs.len()
            invariant
                i <= attrs.len(),
                match parse_attrs(attrs@.take(i as int)) {
                    Ok(m) => failed is None && res.spec() == m,
                    Err(e) => failed == Some(e),
                },
            decreases attrs.len() - i,
        {
            assert(attrs@.take(i as int + 1).drop_last() =~= attrs@.take(i as int));
            if failed.is_none() {
                let attr = &attrs[i];
                if is_word(&attr.path, "enum_impl") {
                    match &attr.args {
                        None => {
                            failed = Some(DirectiveError::Syntax);
                        },
                        Some(tokens) => {
                            match res.add_tokens(tokens) {
                                Ok(()) => {},
                                Err(e) => {
                                    failed = Some(e);
                                },
                            }
                        },
                    }
                }
            }
            i = i + 1;
        }
        assert(attrs@.take(attrs.len() as int) =~= attrs@);
        match failed {
            Some(e) => Err(e),
            None => Ok(res),
        }
    }

    /// Applies the entries of one directive list in order.
    fn add_tokens(&mut self, tokens: &Vec<DirectiveToken>) -> (r: Result<(), DirectiveError>)
        ensures
            match fold_entries(Ok(old(self).spec()), entries_of(tokens@)) {
                Ok(m) => r is Ok && final(self).spec() == m,
                Err(e) => r == Err::<(), DirectiveError>(e),
            },
    {
        let ghost m0 = self.spec();
        let mut failed: Option<DirectiveError> = None;
        let mut start: usize = 0;
        let mut i: usize = 0;
        while i < tokens.len()
            invariant
                start <= i <= tokens.len(),
                split_state(tokens@.take(i as int)).1 == tokens@.subrange(start as int, i as int),
                match fold_entries(Ok(m0), split_state(tokens@.take(i as int)).0) {
                    Ok(m) => failed is None && self.spec() == m,
                    Err(e) => failed == Some(e),
                },
            decreases tokens.len() - i,
        {
            let ghost prev = tokens@.take(i as int);
            let ghost next = tokens@.take(i as int + 1);
            assert(next.drop_last() =~= prev);
            let comma = match &tokens[i] {
                DirectiveToken::Comma => true,
                _ => false,
            };
            if comma {
                let ghost done = split_state(prev).0;
                assert(split_state(next).0 == done.push(tokens@.subrange(start as int, i as int)));
                assert(split_state(next).0.drop_last() =~= done);
                if failed.is_none() {
                    match ParametrizedAttribute::new(tokens, start, i) {
                        Ok(decoded) => match self.add(decoded) {
                            Ok(()) => {},
                            Err(e) => {
                                failed = Some(e);
                            },
                        },
                        Err(e) => {
                            failed = Some(e);
                        },
                    }
                }
                start = i + 1;
                assert(split_state(next).1 =~= tokens@.subrange(start as int, i as int + 1));
            } else {
                assert(split_state(next).1 =~= tokens@.subrange(start as int, i as int + 1));
            }
            i = i + 1;
        }
        assert(tokens@.take(tokens.len() as int) =~= tokens@);
        let ghost done = split_state(tokens@).0;
        if start < tokens.len() {
            assert(entries_of(tokens@).drop_last() =~= done);
            if failed.is_none() {
                match ParametrizedAttribute::new(tokens, start, tokens.len()) {
                    Ok(decoded) => match self.add(decoded) {
                        Ok(()) => {},
                        Err(e) => {
                            failed = Some(e);
                        },
                    },
                    Err(e) => {
                        failed = Some(e);
                    },
                }
            }
        }
        match failed {
            Some(e) => Err(e),
            None => Ok(()),
        }
    }

    /// Records one decoded entry; an operation may be configured once.
    pub fn add(&mut self, decoded: ParametrizedAttribute) -> (r: Result<(), DirectiveError>)
        ensures
            match add_entry(old(self).spec(), decoded.spec()) {
                Ok(m) => r is Ok && final(self).spec() == m,
                Err(e) => r == Err::<(), DirectiveError>(e),
            },
    {
        if is_word(&decoded.name, "as_ref_mut") {
            let c = ClassicAttribute::from_decoded(decoded)?;
            if self.as_ref_mut.is_some() {
                return Err(DirectiveError::DuplicateDirective);
            }
            self.as_ref_mut = Some(c);
        } else if is_word(&decoded.name, "as_ref") {
            let c = ClassicAttribute::from_decoded(decoded)?;
            if self.as_ref.is_some() {
                return Err(DirectiveError::DuplicateDirective);
            }
            self.as_ref = Some(c);
        } else if is_word(&decoded.name, "from") {
            let f = ImplOrClassicAttribute::from_decoded(decoded)?;
            if self.from.is_some() {
                return Err(DirectiveError::DuplicateDirective);
            }
            self.from = Some(f);
        } else if is_word(&decoded.name, "into") {
            let c = ClassicAttribute::from_decoded(decoded)?;
            if self.into.is_some() {
                return Err(DirectiveError::DuplicateDirective);
            }
            self.into = Some(c);
        } else if is_word(&decoded.name, "is") {
            let c = ClassicAttribute::from_decoded(decoded)?;
            if self.is.is_some() {
                return Err(DirectiveError::DuplicateDirective);
            }
            self.is = Some(c);
        } else {
            return Err(DirectiveError::UnknownDirective);
        }
        Ok(())
    }
}

} // verus!
