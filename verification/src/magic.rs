//! Magic values: the literal of a `magic = ..` attribute, its type, and the
//! code that reads and compares it.
use crate::tokens::{extend, lex, op, surely_lexes, Code, Op, Tok};
use proc_macro2::{Span, TokenStream};
use vstd::prelude::*;
use vstd::string::StringExecFns;

verus! {

#[verifier::external_type_specification]
#[verifier::external_body]
pub struct ExSynError(syn::Error);

/// A value with the source location it came from.
pub struct SpannedValue<T> {
    pub value: T,
    pub span: Span,
}

impl<T> SpannedValue<T> {
    pub fn new(value: T, span: Span) -> (r: Self)
        ensures
            r.value == value,
            r.span == span,
    {
        SpannedValue { value, span }
    }
}

/// The type of a magic value, written as the source text of a Rust type.
pub enum Kind {
    /// A number (or a single byte) of the named primitive type.
    Numeric(String),
    /// A byte string, read as a byte array of the named type.
    ByteStr(String),
}

/// [`Kind`] with its type text as a sequence of characters.
pub enum KindView {
    Numeric(Seq<char>),
    ByteStr(Seq<char>),
}

impl View for Kind {
    type V = KindView;

    open spec fn view(&self) -> KindView {
        match self {
            Kind::Numeric(t) => KindView::Numeric(t@),
            Kind::ByteStr(t) => KindView::ByteStr(t@),
        }
    }
}

/// The type text of a kind, whatever its variant.
pub open spec fn kind_type_text(k: KindView) -> Seq<char> {
    match k {
        KindView::Numeric(t) => t,
        KindView::ByteStr(t) => t,
    }
}

impl Kind {
    /// Two kinds are the same when they are the same variant with the same type text.
    pub fn same(&self, other: &Kind) -> (r: bool)
        ensures
            r == (self@ == other@),
    {
        match (self, other) {
            (Kind::Numeric(a), Kind::Numeric(b)) => a.eq(b),
            (Kind::ByteStr(a), Kind::ByteStr(b)) => a.eq(b),
            _ => false,
        }
    }

    /// The type of the magic value as a token stream: the type text, lexed,
    /// or `None` where it does not lex.  Which tokens it lexes into is up to
    /// the lexer that `proc_macro2` uses at the time of the call (the
    /// compiler's inside a procedural macro, its own elsewhere, and switchable
    /// at run time), so no clause states them; but the text is lexed whatever
    /// the kind, so every type text that all lexers accept gives a stream.
    pub fn to_token_stream(&self) -> (r: Option<TokenStream>)
        ensures
            surely_lexes(kind_type_text(self@)) ==> r is Some,
    {
        let ty = match self {
            Kind::ByteStr(ty) => ty,
            Kind::Numeric(ty) => ty,
        };
        match lex(ty.as_str()) {
            Ok(ts) => Some(ts),
            Err(_) => None,
        }
    }
}

/// A parsed magic value: its type and the literal's tokens.
pub struct Inner(pub Kind, pub Code);

/// The code that takes a reference to a read magic value before it is matched:
/// `&` for byte strings, nothing for numbers.
pub open spec fn add_ref_code(k: KindView) -> Seq<Tok> {
    match k {
        KindView::ByteStr(_) => seq![Tok::Op(Op::Amp)],
        KindView::Numeric(_) => Seq::empty(),
    }
}

/// The magic value as an expression of its kind's type: byte strings are
/// literals of a reference type and are dereferenced.
pub open spec fn deref_value_code(k: KindView, value: Seq<Tok>) -> Seq<Tok> {
    match k {
        KindView::ByteStr(_) => seq![Tok::Op(Op::Star)] + value,
        KindView::Numeric(_) => value,
    }
}

impl Inner {
    pub fn add_ref(&self) -> (r: Code)
        ensures
            r@ == add_ref_code(self.0@),
    {
        let mut r: Code = Vec::new();
        match &self.0 {
            Kind::ByteStr(_) => op(&mut r, Op::Amp),
            Kind::Numeric(_) => {},
        }
        r
    }

    pub fn deref_value(&self) -> (r: Code)
        ensures
            r@ == deref_value_code(self.0@, self.1@),
    {
        let mut r: Code = Vec::new();
        match &self.0 {
            Kind::ByteStr(_) => {
                op(&mut r, Op::Star);
                extend(&mut r, &self.1);
                assert(r@ =~= seq![Tok::Op(Op::Star)] + self.1@);
            },
            Kind::Numeric(_) => extend(&mut r, &self.1),
        }
        r
    }

    pub fn kind(&self) -> (r: &Kind)
        ensures
            *r == self.0,
    {
        &self.0
    }

    pub fn match_value(&self) -> (r: &Code)
        ensures
            *r == self.1,
    {
        &self.1
    }

    pub fn into_match_value(self) -> (r: Code)
        ensures
            r == self.1,
    {
        self.1
    }
}

/// An optional magic value of a type, variant or field.
pub type Magic = Option<SpannedValue<Inner>>;

/// The literal of a magic attribute, as far as the classification reads it.
pub enum LitShape {
    /// A string literal.
    Str,
    /// A byte string literal of `len` bytes.
    ByteStr { len: usize },
    /// A byte literal.
    Byte,
    /// A character literal.
    Char,
    /// An integer literal: its type suffix (empty if none) and its source text.
    Int { suffix: String, text: String },
    /// A float literal: its type suffix (empty if none) and its source text.
    Float { suffix: String, text: String },
    /// A boolean literal.
    Bool,
    /// A literal the parser did not interpret.
    Verbatim,
    /// Any other literal (such as a C string).
    Other,
}

/// A `magic = ..` attribute.
pub struct MagicAttr {
    /// The literal.
    pub lit: LitShape,
    /// The literal's tokens.
    pub tokens: Code,
    /// Where the literal stands.
    pub lit_span: Span,
    /// Where the attribute's keyword stands.
    pub keyword_span: Span,
}

#[verifier::external_type_specification]
#[verifier::external_body]
pub struct ExSynLit(syn::Lit);

#[verifier::external_type_specification]
#[verifier::external_body]
pub struct ExSynLitByteStr(syn::LitByteStr);

#[verifier::external_type_specification]
#[verifier::external_body]
pub struct ExSynLitInt(syn::LitInt);

#[verifier::external_type_specification]
#[verifier::external_body]
pub struct ExSynLitFloat(syn::LitFloat);

/// The variant of a `syn::Lit`, with the literals whose contents are read.
pub enum SynLit<'a> {
    Str,
    ByteStr(&'a syn::LitByteStr),
    Byte,
    Char,
    Int(&'a syn::LitInt),
    Float(&'a syn::LitFloat),
    Bool,
    Verbatim,
    Other,
}

/// The variant of a `syn::Lit` (`syn::Lit` is non-exhaustive: C strings and
/// any later variants are `Other`).
#[verifier::external_body]
fn syn_lit_variant(lit: &syn::Lit) -> SynLit<'_> {
    match lit {
        syn::Lit::Str(_) => SynLit::Str,
        syn::Lit::ByteStr(b) => SynLit::ByteStr(b),
        syn::Lit::Byte(_) => SynLit::Byte,
        syn::Lit::Char(_) => SynLit::Char,
        syn::Lit::Int(i) => SynLit::Int(i),
        syn::Lit::Float(f) => SynLit::Float(f),
        syn::Lit::Bool(_) => SynLit::Bool,
        syn::Lit::Verbatim(_) => SynLit::Verbatim,
        _ => SynLit::Other,
    }
}

/// `syn::LitByteStr::value`: the number of bytes of the byte string, escapes
/// decoded.
#[verifier::external_body]
fn byte_str_len(b: &syn::LitByteStr) -> usize {
    b.value().len()
}

/// `syn::LitInt::suffix`: the integer literal's type suffix, empty if none.
#[verifier::external_body]
fn int_suffix(i: &syn::LitInt) -> String {
    i.suffix().to_owned()
}

/// `<syn::LitInt as Display>::fmt`: the integer literal's source text.
#[verifier::external_body]
fn int_text(i: &syn::LitInt) -> String {
    i.to_string()
}

/// `syn::LitFloat::suffix`: the float literal's type suffix, empty if none.
#[verifier::external_body]
fn float_suffix(f: &syn::LitFloat) -> String {
    f.suffix().to_owned()
}

/// `<syn::LitFloat as Display>::fmt`: the float literal's source text.
#[verifier::external_body]
fn float_text(f: &syn::LitFloat) -> String {
    f.to_string()
}

/// `syn::Lit::span`: where the literal stands.
#[verifier::external_body]
fn lit_span(lit: &syn::Lit) -> Span {
    lit.span()
}

/// `quote::ToTokens::to_token_stream`: the literal's tokens.
#[verifier::external_body]
fn lit_tokens(lit: &syn::Lit) -> TokenStream {
    quote::ToTokens::to_token_stream(lit)
}

/// What the classification reads of a literal of the given variant: the
/// variant, the length of a byte string, and the suffix and source text of a
/// number.  The contents read through `syn` are not stated: `syn`'s literal
/// types are opaque here.
pub fn lit_of_variant(v: SynLit) -> (r: LitShape)
    ensures
        match v {
            SynLit::Str => r is Str,
            SynLit::ByteStr(_) => r is ByteStr,
            SynLit::Byte => r is Byte,
            SynLit::Char => r is Char,
            SynLit::Int(_) => r is Int,
            SynLit::Float(_) => r is Float,
            SynLit::Bool => r is Bool,
            SynLit::Verbatim => r is Verbatim,
            SynLit::Other => r is Other,
        },
{
    match v {
        SynLit::Str => LitShape::Str,
        SynLit::ByteStr(b) => LitShape::ByteStr { len: byte_str_len(b) },
        SynLit::Byte => LitShape::Byte,
        SynLit::Char => LitShape::Char,
        SynLit::Int(i) => LitShape::Int { suffix: int_suffix(i), text: int_text(i) },
        SynLit::Float(f) => LitShape::Float { suffix: float_suffix(f), text: float_text(f) },
        SynLit::Bool => LitShape::Bool,
        SynLit::Verbatim => LitShape::Verbatim,
        SynLit::Other => LitShape::Other,
    }
}

/// A `magic = lit` attribute whose keyword stands at `keyword_span`: the
/// literal as [`lit_of_variant`] reads it, its tokens and its location.
pub fn magic_attr(lit: &syn::Lit, keyword_span: Span) -> (r: MagicAttr)
    ensures
        r.keyword_span == keyword_span,
        r.tokens@.len() == 1 && r.tokens@[0] is Stream,
{
    let mut tokens: Code = Vec::new();
    tokens.push(Tok::Stream(lit_tokens(lit)));
    MagicAttr {
        lit: lit_of_variant(syn_lit_variant(lit)),
        tokens,
        lit_span: lit_span(lit),
        keyword_span,
    }
}

/// The character of a decimal digit.
pub open spec fn digit_char(d: nat) -> char {
    if d == 0 { '0' }
    else if d == 1 { '1' }
    else if d == 2 { '2' }
    else if d == 3 { '3' }
    else if d == 4 { '4' }
    else if d == 5 { '5' }
    else if d == 6 { '6' }
    else if d == 7 { '7' }
    else if d == 8 { '8' }
    else { '9' }
}

/// The decimal representation of `n`, without leading zeros.
pub open spec fn decimal(n: nat) -> Seq<char>
    decreases n,
{
    if n < 10 {
        seq![digit_char(n)]
    } else {
        decimal(n / 10).push(digit_char(n % 10))
    }
}

fn digit_str(d: usize) -> (r: &'static str)
    requires
        d < 10,
    ensures
        r@ == seq![digit_char(d as nat)],
{
    proof {
        reveal_strlit("0");
        reveal_strlit("1");
        reveal_strlit("2");
        reveal_strlit("3");
        reveal_strlit("4");
        reveal_strlit("5");
        reveal_strlit("6");
        reveal_strlit("7");
        reveal_strlit("8");
        reveal_strlit("9");
    }
    if d == 0 { "0" }
    else if d == 1 { "1" }
    else if d == 2 { "2" }
    else if d == 3 { "3" }
    else if d == 4 { "4" }
    else if d == 5 { "5" }
    else if d == 6 { "6" }
    else if d == 7 { "7" }
    else if d == 8 { "8" }
    else { "9" }
}

/// Appends the decimal representation of `n` to `s`.
pub fn append_decimal(s: &mut String, n: usize)
    ensures
        final(s)@ == old(s)@ + decimal(n as nat),
    decreases n,
{
    if n >= 10 {
        append_decimal(s, n / 10);
    }
    let ghost before = s@;
    s.append(digit_str(n % 10));
    proof {
        if n < 10 {
            assert(n % 10 == n);
        } else {
            assert(before == old(s)@ + decimal((n / 10) as nat));
            assert(decimal(n as nat) == decimal((n / 10) as nat).push(digit_char((n % 10) as nat)));
        }
    }
    assert(s@ =~= old(s)@ + decimal(n as nat));
}

/// The type text of a byte string magic of `len` bytes: `[::core::primitive::u8; len]`.
pub open spec fn byte_array_type(len: nat) -> Seq<char> {
    "[::core::primitive::u8; "@ + decimal(len) + "]"@
}

/// What a magic literal classifies as: its kind, or the message of the error
/// that refuses it.
pub open spec fn classify(lit: LitShape) -> Result<KindView, Seq<char>> {
    match lit {
        LitShape::ByteStr { len } => Ok(KindView::ByteStr(byte_array_type(len as nat))),
        LitShape::Byte => Ok(KindView::Numeric("::core::primitive::u8"@)),
        LitShape::Int { suffix, text } => if suffix@.len() == 0 {
            Err("expected explicit type suffix for integer literal\ne.g "@ + text@ + "u64"@)
        } else {
            Ok(KindView::Numeric(suffix@))
        },
        LitShape::Float { suffix, text } => if suffix@.len() == 0 {
            Err(
                "expected explicit type suffix for float literal\nvalid values are "@ + text@
                    + "f32 or "@ + text@ + "f64"@,
            )
        } else {
            Ok(KindView::Numeric(suffix@))
        },
        LitShape::Char | LitShape::Str | LitShape::Bool | LitShape::Verbatim => Err(
            "expected byte string, byte, float, or int"@,
        ),
        LitShape::Other => Err("unexpected literal"@),
    }
}

/// Classifies a magic literal: byte strings, bytes, and integers and floats
/// with a type suffix have a kind; other literals are refused with a message.
pub fn classify_magic(lit: &LitShape) -> (r: Result<Kind, String>)
    ensures
        match (r, classify(*lit)) {
            (Ok(k), Ok(kv)) => k@ == kv,
            (Err(m), Err(mv)) => m@ == mv,
            _ => false,
        },
{
    match lit {
        LitShape::ByteStr { len } => {
            let mut ty = String::from_str("[::core::primitive::u8; ");
            append_decimal(&mut ty, *len);
            ty.append("]");
            Ok(Kind::ByteStr(ty))
        },
        LitShape::Byte => Ok(Kind::Numeric(String::from_str("::core::primitive::u8"))),
        LitShape::Int { suffix, text } => {
            if suffix.as_str().unicode_len() == 0 {
                let mut m = String::from_str("expected explicit type suffix for integer literal\ne.g ");
                m.append(text.as_str());
                m.append("u64");
                Err(m)
            } else {
                Ok(Kind::Numeric(suffix.clone()))
            }
        },
        LitShape::Float { suffix, text } => {
            if suffix.as_str().unicode_len() == 0 {
                let mut m = String::from_str(
                    "expected explicit type suffix for float literal\nvalid values are ",
                );
                m.append(text.as_str());
                m.append("f32 or ");
                m.append(text.as_str());
                m.append("f64");
                Err(m)
            } else {
                Ok(Kind::Numeric(suffix.clone()))
            }
        },
        LitShape::Char | LitShape::Str | LitShape::Bool | LitShape::Verbatim => Err(
            String::from_str("expected byte string, byte, float, or int"),
        ),
        LitShape::Other => Err(String::from_str("unexpected literal")),
    }
}

/// A refused magic literal: where it stands and why it is refused.
pub struct MagicError {
    pub span: Span,
    pub message: String,
}

/// `syn::Error::new`: an error at `span` with `message`.
#[verifier::external_body]
fn new_error(span: Span, message: &str) -> syn::Error {
    syn::Error::new(span, message)
}

impl MagicError {
    /// The error for the compiler: a `syn::Error` at the error's span with its
    /// message.  `syn::Error` is opaque here, so no clause states its span and
    /// message.
    pub fn into_syn_error(self) -> syn::Error {
        new_error(self.span, self.message.as_str())
    }
}

impl SpannedValue<Inner> {
    /// The magic value of a `magic = ..` attribute, located at its keyword; or,
    /// where the literal is refused (see [`classify`]), an error at the
    /// literal with the refusal's message.
    pub fn try_from(magic: MagicAttr) -> (r: Result<SpannedValue<Inner>, MagicError>)
        ensures
            r is Ok <==> classify(magic.lit) is Ok,
            r matches Ok(v) ==> {
                &&& Ok::<KindView, Seq<char>>(v.value.0@) == classify(magic.lit)
                &&& v.value.1 == magic.tokens
                &&& v.span == magic.keyword_span
            },
            r matches Err(e) ==> {
                &&& Err::<KindView, Seq<char>>(e.message@) == classify(magic.lit)
                &&& e.span == magic.lit_span
            },
    {
        match classify_magic(&magic.lit) {
            Ok(kind) => Ok(SpannedValue::new(Inner(kind, magic.tokens), magic.keyword_span)),
            Err(message) => Err(MagicError { span: magic.lit_span, message }),
        }
    }
}

} // verus!
