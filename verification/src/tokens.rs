//! A flat model of the token streams that the code generators emit.
//!
//! Generated code is a sequence of [`Tok`]s in which groups are written as a
//! matching pair of `Open`/`Close` markers.  Pieces of code that come from the
//! user's attributes (expressions, types, patterns) are carried opaquely as
//! `proc_macro2::TokenStream`s.
use proc_macro2::{LexError, Span, TokenStream};
use vstd::prelude::*;

verus! {

#[verifier::external_type_specification]
#[verifier::external_body]
pub struct ExTokenStream(TokenStream);

#[verifier::external_type_specification]
#[verifier::external_body]
pub struct ExLexError(LexError);

#[verifier::external_type_specification]
#[verifier::external_body]
pub struct ExSpan(Span);

/// A delimiter of a token group.
#[derive(Debug, Clone, Copy, PartialEq, Eq, Structural)]
pub enum Delim {
    Paren,
    Brace,
    Bracket,
}

/// Punctuation and operators that the generators emit.
#[derive(Debug, Clone, Copy, PartialEq, Eq, Structural)]
pub enum Op {
    /// `=`
    Assign,
    /// `;`
    Semi,
    /// `:`
    Colon,
    /// `::`
    PathSep,
    /// `,`
    Comma,
    /// `&`
    Amp,
    /// `*`
    Star,
    /// `?`
    Question,
    /// `=>`
    FatArrow,
    /// `&&`
    AndAnd,
    /// `==`
    EqEq,
    /// `|`
    Pipe,
    /// `@`
    At,
    /// `<`
    Lt,
    /// `>`
    Gt,
    /// `.`
    Dot,
    /// `!`
    Bang,
}

/// Fixed identifiers, keywords and generated names that the generators emit.
///
/// The generated names (reader, endian, argument and temporary variables, and
/// the paths of the runtime helpers) are kept symbolic; their spelling is a
/// matter of rendering.
#[derive(Debug, Clone, Copy, PartialEq, Eq, Structural)]
pub enum Word {
    // keywords and plain identifiers
    Let,
    Mut,
    Match,
    If,
    Else,
    Return,
    As,
    SelfValue,
    SelfType,
    True,
    Extern,
    Crate,
    Alloc,
    Core,
    Str,
    StaticLifetime,
    Underscore,
    GenericReader,
    OkCtor,
    ErrCtor,
    ResultType,
    ResultModule,
    Convert,
    TryInto,
    TryIntoMethod,
    TryFrom,
    TryFromMethod,
    VecModule,
    VecType,
    New,
    Format,
    Into,
    MapMethod,
    Push,
    BindingV,
    BindingOk,
    BindingError,
    PosField,
    VariantErrorsField,
    NoVariantMatch,
    EnumErrors,
    Message,
    StreamPosition,
    // generated variable names and runtime helper paths
    Reader,
    Writer,
    Opt,
    Args,
    Pos,
    Temp,
    ErrorBasket,
    AssertMagic,
    ReadMethod,
    WriteMethod,
    BinError,
    WithContext,
    BacktraceFrame,
    RestorePositionVariant,
    SeekTrait,
    MapReaderTypeHint,
}

/// Fixed string literals that the generators emit.
#[derive(Debug, Clone, Copy, PartialEq, Eq, Structural)]
pub enum Text {
    /// `"Unexpected value for enum: {:?}"`
    UnexpectedEnumValue,
}

/// One token of generated code.
#[derive(Debug)]
pub enum Tok {
    /// A fixed identifier, keyword or generated name.
    Word(Word),
    /// An identifier taken from the user's input (a variant or type name).
    Ident(String),
    /// A string literal with the given contents.
    Str(String),
    /// A fixed string literal.
    Text(Text),
    /// Punctuation.
    Op(Op),
    /// The start of a delimited group.
    Open(Delim),
    /// The end of a delimited group.
    Close(Delim),
    /// Code taken verbatim from the user's input.
    Stream(TokenStream),
    /// From here to the next `SpanEnd`, the fixed words, punctuation and
    /// groups written by the generator stand at this location.
    SpanStart(Span),
    /// The end of a `SpanStart` region.
    SpanEnd,
}

/// A piece of generated code.
pub type Code = Vec<Tok>;

/// Replays the group markers of `s` on the stack `st` of open delimiters:
/// `None` where a group is closed by the wrong delimiter or was never opened.
pub open spec fn run(s: Seq<Tok>, st: Seq<Delim>) -> Option<Seq<Delim>>
    decreases s.len(),
{
    if s.len() == 0 {
        Some(st)
    } else {
        match s[0] {
            Tok::Open(d) => run(s.drop_first(), st.push(d)),
            Tok::Close(d) => if st.len() > 0 && st.last() == d {
                run(s.drop_first(), st.drop_last())
            } else {
                None
            },
            _ => run(s.drop_first(), st),
        }
    }
}

/// Every group of `s` is opened and closed by the same delimiter, and every
/// opened group is closed.
pub open spec fn balanced(s: Seq<Tok>) -> bool {
    run(s, Seq::empty()) == Some(Seq::<Delim>::empty())
}

/// Replaying a concatenation replays its parts in turn.
pub proof fn lemma_run_concat(a: Seq<Tok>, b: Seq<Tok>, st: Seq<Delim>)
    ensures
        run(a + b, st) == (match run(a, st) {
            Some(st2) => run(b, st2),
            None => None,
        }),
    decreases a.len(),
{
    if a.len() == 0 {
        assert(a + b =~= b);
    } else {
        assert((a + b).drop_first() =~= a.drop_first() + b);
        assert((a + b)[0] == a[0]);
        match a[0] {
            Tok::Open(d) => lemma_run_concat(a.drop_first(), b, st.push(d)),
            Tok::Close(d) => {
                if st.len() > 0 && st.last() == d {
                    lemma_run_concat(a.drop_first(), b, st.drop_last());
                }
            },
            _ => lemma_run_concat(a.drop_first(), b, st),
        }
    }
}

/// A sequence that is balanced from the empty stack leaves any stack as it
/// found it.
pub proof fn lemma_run_balanced_any_stack(s: Seq<Tok>, pre: Seq<Delim>, st: Seq<Delim>, out: Seq<Delim>)
    requires
        run(s, st) == Some(out),
    ensures
        run(s, pre + st) == Some(pre + out),
    decreases s.len(),
{
    if s.len() == 0 {
    } else {
        match s[0] {
            Tok::Open(d) => {
                assert((pre + st).push(d) =~= pre + st.push(d));
                lemma_run_balanced_any_stack(s.drop_first(), pre, st.push(d), out);
            },
            Tok::Close(d) => {
                assert((pre + st).drop_last() =~= pre + st.drop_last());
                lemma_run_balanced_any_stack(s.drop_first(), pre, st.drop_last(), out);
            },
            _ => lemma_run_balanced_any_stack(s.drop_first(), pre, st, out),
        }
    }
}

/// Balanced code stays balanced when appended to balanced code.
pub proof fn lemma_balanced_concat(a: Seq<Tok>, b: Seq<Tok>)
    requires
        balanced(a),
        balanced(b),
    ensures
        balanced(a + b),
{
    lemma_run_concat(a, b, Seq::empty());
}

/// A balanced sequence inside a group is balanced.
pub proof fn lemma_balanced_group(d: Delim, a: Seq<Tok>)
    requires
        balanced(a),
    ensures
        balanced(seq![Tok::Open(d)] + a + seq![Tok::Close(d)]),
{
    let e = Seq::<Delim>::empty();
    let o = seq![Tok::Open(d)];
    let c = seq![Tok::Close(d)];
    lemma_run_concat(o + a, c, e);
    lemma_run_concat(o, a, e);
    assert(o.drop_first() =~= Seq::<Tok>::empty());
    assert(run(Seq::<Tok>::empty(), e.push(d)) == Some(e.push(d)));
    assert(run(o, e) == Some(e.push(d)));
    lemma_run_balanced_any_stack(a, e.push(d), e, e);
    assert(e.push(d) + e =~= e.push(d));
    assert(c.drop_first() =~= Seq::<Tok>::empty());
    assert(e.push(d).drop_last() =~= e);
    assert(run(Seq::<Tok>::empty(), e) == Some(e));
    assert(run(c, e.push(d)) == Some(e));
}

/// Balanced code leaves the stack of open groups as it found it.
pub proof fn lemma_balanced_keeps(s: Seq<Tok>, st: Seq<Delim>)
    requires
        balanced(s),
    ensures
        run(s, st) == Some(st),
{
    lemma_run_balanced_any_stack(s, st, Seq::empty(), Seq::empty());
    assert(st + Seq::<Delim>::empty() =~= st);
}

/// Replaying `a` then `b`.
pub proof fn lemma_run_then(a: Seq<Tok>, b: Seq<Tok>, st: Seq<Delim>, mid: Seq<Delim>, end: Seq<Delim>)
    requires
        run(a, st) == Some(mid),
        run(b, mid) == Some(end),
    ensures
        run(a + b, st) == Some(end),
{
    lemma_run_concat(a, b, st);
}

/// Replaying `a` then balanced code.
pub proof fn lemma_run_then_balanced(a: Seq<Tok>, b: Seq<Tok>, st: Seq<Delim>, mid: Seq<Delim>)
    requires
        run(a, st) == Some(mid),
        balanced(b),
    ensures
        run(a + b, st) == Some(mid),
{
    lemma_balanced_keeps(b, mid);
    lemma_run_concat(a, b, st);
}

/// A sequence without group markers is balanced.
pub open spec fn flat(s: Seq<Tok>) -> bool {
    forall|i: int| 0 <= i < s.len() ==> !(s[i] is Open) && !(s[i] is Close)
}

/// Sequences without group markers are balanced.
pub proof fn lemma_flat_balanced(s: Seq<Tok>, st: Seq<Delim>)
    requires
        flat(s),
    ensures
        run(s, st) == Some(st),
    decreases s.len(),
{
    if s.len() > 0 {
        assert(flat(s.drop_first())) by {
            assert forall|i: int| 0 <= i < s.drop_first().len() implies !(
            s.drop_first()[i] is Open) && !(s.drop_first()[i] is Close) by {
                assert(s.drop_first()[i] == s[i + 1]);
            }
        }
        assert(!(s[0] is Open) && !(s[0] is Close));
        lemma_flat_balanced(s.drop_first(), st);
    }
}

/// `proc_macro2::TokenStream::clone`: the copy holds the same tokens.
#[verifier::external_body]
pub(crate) fn clone_stream(ts: &TokenStream) -> (r: TokenStream)
    ensures
        r == *ts,
{
    ts.clone()
}

/// A copy of one token.
pub fn copy_tok(t: &Tok) -> (r: Tok)
    ensures
        r == *t,
{
    match t {
        Tok::Word(w) => Tok::Word(*w),
        Tok::Ident(s) => Tok::Ident(s.clone()),
        Tok::Str(s) => Tok::Str(s.clone()),
        Tok::Text(t) => Tok::Text(*t),
        Tok::Op(o) => Tok::Op(*o),
        Tok::Open(d) => Tok::Open(*d),
        Tok::Close(d) => Tok::Close(*d),
        Tok::Stream(ts) => Tok::Stream(clone_stream(ts)),
        Tok::SpanStart(sp) => Tok::SpanStart(*sp),
        Tok::SpanEnd => Tok::SpanEnd,
    }
}

/// A copy of a piece of code.
pub fn copy_code(c: &Code) -> (r: Code)
    ensures
        r@ == c@,
{
    let mut r: Code = Vec::new();
    let mut i: usize = 0;
    while i < c.len()
        invariant
            i <= c.len(),
            r@ == c@.take(i as int),
        decreases c.len() - i,
    {
        r.push(copy_tok(&c[i]));
        i += 1;
        assert(r@ =~= c@.take(i as int));
    }
    assert(c@.take(c.len() as int) =~= c@);
    r
}

/// Appends a copy of `c` to `out`.
pub fn extend(out: &mut Code, c: &Code)
    ensures
        final(out)@ == old(out)@ + c@,
{
    let mut tail = copy_code(c);
    out.append(&mut tail);
}

/// Appends a fixed word.
pub fn word(out: &mut Code, w: Word)
    ensures
        final(out)@ == old(out)@.push(Tok::Word(w)),
{
    out.push(Tok::Word(w));
}

/// Appends punctuation.
pub fn op(out: &mut Code, o: Op)
    ensures
        final(out)@ == old(out)@.push(Tok::Op(o)),
{
    out.push(Tok::Op(o));
}

/// Appends the start of a group.
pub fn open(out: &mut Code, d: Delim)
    ensures
        final(out)@ == old(out)@.push(Tok::Open(d)),
{
    out.push(Tok::Open(d));
}

/// Appends the end of a group.
pub fn close(out: &mut Code, d: Delim)
    ensures
        final(out)@ == old(out)@.push(Tok::Close(d)),
{
    out.push(Tok::Close(d));
}

/// A character that may start a plain identifier: an ASCII letter or `_`.
pub open spec fn ident_start(c: char) -> bool {
    ('a' <= c && c <= 'z') || ('A' <= c && c <= 'Z') || c == '_'
}

/// A character that may continue a plain identifier.
pub open spec fn ident_continue(c: char) -> bool {
    ident_start(c) || ('0' <= c && c <= '9')
}

/// An ASCII identifier (such as a primitive type name).
pub open spec fn plain_ident(s: Seq<char>) -> bool {
    &&& s.len() > 0
    &&& ident_start(s[0])
    &&& forall|i: int| 0 <= i < s.len() ==> ident_continue(#[trigger] s[i])
}

/// A non-empty run of ASCII decimal digits.
pub open spec fn ascii_digits(s: Seq<char>) -> bool {
    &&& s.len() > 0
    &&& forall|i: int| 0 <= i < s.len() ==> '0' <= #[trigger] s[i] && s[i] <= '9'
}

/// Type texts that every Rust lexer accepts: a plain identifier, the path of
/// the `u8` primitive, or an array of it with a decimal length.
pub open spec fn surely_lexes(s: Seq<char>) -> bool {
    ||| plain_ident(s)
    ||| s == "::core::primitive::u8"@
    ||| exists|d: Seq<char>| ascii_digits(d) && s == "[::core::primitive::u8; "@ + d + "]"@
}

/// `<proc_macro2::TokenStream as FromStr>::from_str`: lexes `src`.  Which
/// lexer runs (the compiler's or `proc_macro2`'s own) depends on process-wide
/// state, so the tokens are not stated; both lexers accept an identifier, the
/// path `::core::primitive::u8` and an array of it with a decimal length.
#[verifier::external_body]
pub(crate) fn lex(src: &str) -> (r: Result<TokenStream, LexError>)
    ensures
        surely_lexes(src@) ==> r is Ok,
{
    src.parse::<TokenStream>()
}

} // verus!
