//! Readers for enums: unit-only enums read through their `repr` type or their
//! variants' magic values, and data enums that try each variant in turn.
use crate::grouping::{field_kinds, group_by_kind, group_by_magic_kind, groups_view, lemma_grouping_shape};
use crate::input::{
    stream_ident_or_code, Assert, Enum, EnumErrorMode, EnumVariant, Input, Mapping, PosEmitter,
    UnitEnumField, UnitOnlyEnum,
};
use crate::read_options::{generate_prelude, read_prelude, PreludeParts};
use crate::magic::add_ref_code;
use crate::tokens::{close, extend, op, open, word, Code, Delim, Op, Text, Tok, Word};
use vstd::string::StringExecFns;
use vstd::prelude::*;

verus! {

/// `&& (condition)` for each assertion, in order.
pub open spec fn and_conditions(asserts: Seq<Assert>) -> Seq<Tok>
    decreases asserts.len(),
{
    if asserts.len() == 0 {
        Seq::empty()
    } else {
        and_conditions(asserts.drop_last()) + seq![Tok::Op(Op::AndAnd), Tok::Open(Delim::Paren)]
            + asserts.last().condition@ + seq![Tok::Close(Delim::Paren)]
    }
}

/// Appends `&& (condition)` for each assertion.
pub fn append_and_conditions(out: &mut Code, asserts: &Vec<Assert>)
    ensures
        final(out)@ == old(out)@ + and_conditions(asserts@),
{
    let mut i: usize = 0;
    assert(asserts@.take(0) =~= Seq::<Assert>::empty());
    assert(out@ =~= old(out)@ + and_conditions(asserts@.take(0)));
    while i < asserts.len()
        invariant
            i <= asserts.len(),
            out@ == old(out)@ + and_conditions(asserts@.take(i as int)),
        decreases asserts.len() - i,
    {
        op(out, Op::AndAnd);
        open(out, Delim::Paren);
        extend(out, &asserts[i].condition);
        close(out, Delim::Paren);
        assert(asserts@.take(i + 1).drop_last() =~= asserts@.take(i as int));
        i += 1;
        assert(out@ =~= old(out)@ + and_conditions(asserts@.take(i as int)));
    }
    assert(asserts@.take(asserts.len() as int) =~= asserts@);
}

/// `Ok(Self::ident)`
pub open spec fn ok_self(ident: String) -> Seq<Tok> {
    seq![
        Tok::Word(Word::OkCtor),
        Tok::Open(Delim::Paren),
        Tok::Word(Word::SelfType),
        Tok::Op(Op::PathSep),
        Tok::Ident(ident),
        Tok::Close(Delim::Paren),
    ]
}

fn append_ok_self(out: &mut Code, ident: &String)
    ensures
        final(out)@ == old(out)@ + ok_self(*ident),
{
    word(out, Word::OkCtor);
    open(out, Delim::Paren);
    word(out, Word::SelfType);
    op(out, Op::PathSep);
    out.push(Tok::Ident(ident.clone()));
    close(out, Delim::Paren);
    assert(out@ =~= old(out)@ + ok_self(*ident));
}

/// `#READ_METHOD(reader, #OPT, ())?`
pub open spec fn read_call(reader: Seq<Tok>) -> Seq<Tok> {
    seq![Tok::Word(Word::ReadMethod), Tok::Open(Delim::Paren)] + reader + seq![
        Tok::Op(Op::Comma),
        Tok::Word(Word::Opt),
        Tok::Op(Op::Comma),
        Tok::Open(Delim::Paren),
        Tok::Close(Delim::Paren),
        Tok::Close(Delim::Paren),
        Tok::Op(Op::Question),
    ]
}

fn append_read_call(out: &mut Code, reader: &Code)
    ensures
        final(out)@ == old(out)@ + read_call(reader@),
{
    word(out, Word::ReadMethod);
    open(out, Delim::Paren);
    extend(out, reader);
    op(out, Op::Comma);
    word(out, Word::Opt);
    op(out, Op::Comma);
    open(out, Delim::Paren);
    close(out, Delim::Paren);
    close(out, Delim::Paren);
    op(out, Op::Question);
    assert(out@ =~= old(out)@ + read_call(reader@));
}

/// `#BIN_ERROR::NoVariantMatch { pos: pos }`, with a trailing comma in the
/// braces where `comma` holds.
pub open spec fn no_variant_match(pos: Seq<Tok>, comma: bool) -> Seq<Tok> {
    seq![
        Tok::Word(Word::BinError),
        Tok::Op(Op::PathSep),
        Tok::Word(Word::NoVariantMatch),
        Tok::Open(Delim::Brace),
        Tok::Word(Word::PosField),
        Tok::Op(Op::Colon),
    ] + pos + (if comma {
        seq![Tok::Op(Op::Comma)]
    } else {
        Seq::empty()
    }) + seq![Tok::Close(Delim::Brace)]
}

fn append_no_variant_match(out: &mut Code, pos: &Code, comma: bool)
    ensures
        final(out)@ == old(out)@ + no_variant_match(pos@, comma),
{
    word(out, Word::BinError);
    op(out, Op::PathSep);
    word(out, Word::NoVariantMatch);
    open(out, Delim::Brace);
    word(out, Word::PosField);
    op(out, Op::Colon);
    extend(out, pos);
    if comma {
        op(out, Op::Comma);
    }
    close(out, Delim::Brace);
    assert(out@ =~= old(out)@ + no_variant_match(pos@, comma));
}

/// `Err(error)` around an error value.
pub open spec fn err_of(e: Seq<Tok>) -> Seq<Tok> {
    seq![Tok::Word(Word::ErrCtor), Tok::Open(Delim::Paren)] + e + seq![Tok::Close(Delim::Paren)]
}

// ---------------------------------------------------------------------------
// Unit-only enums read through their `repr` type
/// `if #TEMP == Self::ident as repr && (..) { Ok(Self::ident) } else`
pub open spec fn repr_clause(f: UnitEnumField, repr: Seq<Tok>) -> Seq<Tok> {
    seq![
        Tok::Word(Word::If),
        Tok::Word(Word::Temp),
        Tok::Op(Op::EqEq),
        Tok::Word(Word::SelfType),
        Tok::Op(Op::PathSep),
        Tok::Ident(f.ident),
        Tok::Word(Word::As),
    ] + repr + and_conditions(f.pre_assertions@) + seq![Tok::Open(Delim::Brace)] + ok_self(f.ident)
        + seq![Tok::Close(Delim::Brace), Tok::Word(Word::Else)]
}

/// The clauses of all variants, in order.
pub open spec fn repr_clauses(fs: Seq<UnitEnumField>, repr: Seq<Tok>) -> Seq<Tok>
    decreases fs.len(),
{
    if fs.len() == 0 {
        Seq::empty()
    } else {
        repr_clauses(fs.drop_last(), repr) + repr_clause(fs.last(), repr)
    }
}

/// The final `else` branch: an error that no variant has the value read.
pub open spec fn repr_fallback(pos: Seq<Tok>) -> Seq<Tok> {
    seq![
        Tok::Open(Delim::Brace),
        Tok::Word(Word::ErrCtor),
        Tok::Open(Delim::Paren),
        Tok::Word(Word::WithContext),
        Tok::Open(Delim::Paren),
    ] + no_variant_match(pos, true) + seq![
        Tok::Op(Op::Comma),
        Tok::Word(Word::BacktraceFrame),
        Tok::Op(Op::PathSep),
        Tok::Word(Word::Message),
        Tok::Open(Delim::Paren),
        Tok::Open(Delim::Brace),
        Tok::Word(Word::Extern),
        Tok::Word(Word::Crate),
        Tok::Word(Word::Alloc),
        Tok::Op(Op::Semi),
        Tok::Word(Word::Alloc),
        Tok::Op(Op::PathSep),
        Tok::Word(Word::Format),
        Tok::Op(Op::Bang),
        Tok::Open(Delim::Paren),
        Tok::Text(Text::UnexpectedEnumValue),
        Tok::Op(Op::Comma),
        Tok::Word(Word::Temp),
        Tok::Close(Delim::Paren),
        Tok::Op(Op::Dot),
        Tok::Word(Word::Into),
        Tok::Open(Delim::Paren),
        Tok::Close(Delim::Paren),
        Tok::Close(Delim::Brace),
        Tok::Close(Delim::Paren),
        Tok::Close(Delim::Paren),
        Tok::Close(Delim::Paren),
        Tok::Close(Delim::Brace),
    ]
}

/// Reads a value of the `repr` type and returns the first variant whose
/// discriminant it equals and whose pre-assertions hold.
pub open spec fn unit_enum_repr_code(
    reader: Seq<Tok>,
    repr: Seq<Tok>,
    fs: Seq<UnitEnumField>,
    pos: Seq<Tok>,
) -> Seq<Tok> {
    seq![Tok::Word(Word::Let), Tok::Word(Word::Temp), Tok::Op(Op::Colon)] + repr + seq![
        Tok::Op(Op::Assign),
    ] + read_call(reader) + seq![Tok::Op(Op::Semi)] + repr_clauses(fs, repr) + repr_fallback(pos)
}

fn append_repr_clause(out: &mut Code, f: &UnitEnumField, repr: &Code)
    ensures
        final(out)@ == old(out)@ + repr_clause(*f, repr@),
{
    word(out, Word::If);
    word(out, Word::Temp);
    op(out, Op::EqEq);
    word(out, Word::SelfType);
    op(out, Op::PathSep);
    out.push(Tok::Ident(f.ident.clone()));
    word(out, Word::As);
    extend(out, repr);
    append_and_conditions(out, &f.pre_assertions);
    open(out, Delim::Brace);
    append_ok_self(out, &f.ident);
    close(out, Delim::Brace);
    word(out, Word::Else);
    assert(out@ =~= old(out)@ + repr_clause(*f, repr@));
}

fn append_repr_fallback(out: &mut Code, pos: &Code)
    ensures
        final(out)@ == old(out)@ + repr_fallback(pos@),
{
    open(out, Delim::Brace);
    word(out, Word::ErrCtor);
    open(out, Delim::Paren);
    word(out, Word::WithContext);
    open(out, Delim::Paren);
    append_no_variant_match(out, pos, true);
    op(out, Op::Comma);
    word(out, Word::BacktraceFrame);
    op(out, Op::PathSep);
    word(out, Word::Message);
    open(out, Delim::Paren);
    open(out, Delim::Brace);
    word(out, Word::Extern);
    word(out, Word::Crate);
    word(out, Word::Alloc);
    op(out, Op::Semi);
    word(out, Word::Alloc);
    op(out, Op::PathSep);
    word(out, Word::Format);
    op(out, Op::Bang);
    open(out, Delim::Paren);
    out.push(Tok::Text(Text::UnexpectedEnumValue));
    op(out, Op::Comma);
    word(out, Word::Temp);
    close(out, Delim::Paren);
    op(out, Op::Dot);
    word(out, Word::Into);
    open(out, Delim::Paren);
    close(out, Delim::Paren);
    close(out, Delim::Brace);
    close(out, Delim::Paren);
    close(out, Delim::Paren);
    close(out, Delim::Paren);
    close(out, Delim::Brace);
    assert(out@ =~= old(out)@ + repr_fallback(pos@));
}

/// The reader of a unit-only enum with a `repr` type.
pub fn generate_unit_enum_repr(
    reader_var: &Code,
    repr: &Code,
    variants: &Vec<UnitEnumField>,
    pos: &Code,
) -> (r: Code)
    ensures
        r@ == unit_enum_repr_code(reader_var@, repr@, variants@, pos@),
{
    let mut out: Code = Vec::new();
    word(&mut out, Word::Let);
    word(&mut out, Word::Temp);
    op(&mut out, Op::Colon);
    extend(&mut out, repr);
    op(&mut out, Op::Assign);
    append_read_call(&mut out, reader_var);
    op(&mut out, Op::Semi);
    let ghost head = out@;
    let mut i: usize = 0;
    assert(variants@.take(0) =~= Seq::<UnitEnumField>::empty());
    assert(out@ =~= head + repr_clauses(variants@.take(0), repr@));
    while i < variants.len()
        invariant
            i <= variants.len(),
            out@ == head + repr_clauses(variants@.take(i as int), repr@),
        decreases variants.len() - i,
    {
        append_repr_clause(&mut out, &variants[i], repr);
        assert(variants@.take(i + 1).drop_last() =~= variants@.take(i as int));
        i += 1;
        assert(out@ =~= head + repr_clauses(variants@.take(i as int), repr@));
    }
    assert(variants@.take(variants.len() as int) =~= variants@);
    append_repr_fallback(&mut out, pos);
    assert(out@ =~= unit_enum_repr_code(reader_var@, repr@, variants@, pos@));
    out
}

// ---------------------------------------------------------------------------
// Unit-only enums read through their variants' magic values
/// The match arm of one variant: its magic value (with its pre-assertions as
/// a guard), or `_` for a variant without magic, returning the variant.
pub open spec fn magic_arm(f: UnitEnumField) -> Seq<Tok> {
    match f.magic {
        Some(m) => m.value.1@ + (if f.pre_assertions@.len() == 0 {
            Seq::empty()
        } else {
            seq![Tok::Word(Word::If), Tok::Word(Word::True)] + and_conditions(f.pre_assertions@)
        }) + seq![Tok::Op(Op::FatArrow)] + ok_self(f.ident) + seq![Tok::Op(Op::Comma)],
        None => seq![Tok::Word(Word::Underscore), Tok::Op(Op::FatArrow)] + ok_self(f.ident)
            + seq![Tok::Op(Op::Comma)],
    }
}

/// The arms of the variants at the positions `g`, in order.
pub open spec fn magic_arms(fs: Seq<UnitEnumField>, g: Seq<int>) -> Seq<Tok>
    decreases g.len(),
{
    if g.len() == 0 {
        Seq::empty()
    } else {
        magic_arms(fs, g.drop_last()) + magic_arm(fs[g.last()])
    }
}

/// `&` where the group's first variant has a byte string magic.
pub open spec fn group_ref(f: UnitEnumField) -> Seq<Tok> {
    match f.magic {
        Some(m) => add_ref_code(m.value.0@),
        None => Seq::empty(),
    }
}

/// Reads one value of the group's magic type and matches it against the
/// group's variants; no match is an error.
pub open spec fn group_match(fs: Seq<UnitEnumField>, g: Seq<int>, reader: Seq<Tok>, pos: Seq<Tok>) -> Seq<
    Tok,
> {
    seq![Tok::Word(Word::Match)] + group_ref(fs[g[0]]) + read_call(reader) + seq![
        Tok::Open(Delim::Brace),
    ] + magic_arms(fs, g) + seq![Tok::Word(Word::Underscore), Tok::Op(Op::FatArrow)] + err_of(
        no_variant_match(pos, false),
    ) + seq![Tok::Close(Delim::Brace)]
}

/// Tries one group: a match returns the variant, an error rewinds the reader
/// to `pos` and goes on.
pub open spec fn group_attempt(fs: Seq<UnitEnumField>, g: Seq<int>, reader: Seq<Tok>, pos: Seq<Tok>) -> Seq<
    Tok,
> {
    seq![
        Tok::Word(Word::Match),
        Tok::Open(Delim::Paren),
        Tok::Op(Op::Pipe),
        Tok::Op(Op::Pipe),
        Tok::Open(Delim::Brace),
    ] + group_match(fs, g, reader, pos) + seq![
        Tok::Close(Delim::Brace),
        Tok::Close(Delim::Paren),
        Tok::Open(Delim::Paren),
        Tok::Close(Delim::Paren),
        Tok::Open(Delim::Brace),
        Tok::Word(Word::BindingV),
        Tok::Op(Op::At),
        Tok::Word(Word::OkCtor),
        Tok::Open(Delim::Paren),
        Tok::Word(Word::Underscore),
        Tok::Close(Delim::Paren),
        Tok::Op(Op::FatArrow),
        Tok::Word(Word::Return),
        Tok::Word(Word::BindingV),
        Tok::Op(Op::Comma),
        Tok::Word(Word::ErrCtor),
        Tok::Open(Delim::Paren),
        Tok::Word(Word::Temp),
        Tok::Close(Delim::Paren),
        Tok::Op(Op::FatArrow),
        Tok::Open(Delim::Brace),
        Tok::Word(Word::RestorePositionVariant),
        Tok::Open(Delim::Paren),
    ] + reader + seq![Tok::Op(Op::Comma)] + pos + seq![
        Tok::Op(Op::Comma),
        Tok::Word(Word::Temp),
        Tok::Close(Delim::Paren),
        Tok::Op(Op::Question),
        Tok::Op(Op::Semi),
        Tok::Close(Delim::Brace),
        Tok::Close(Delim::Brace),
    ]
}

/// The attempts of all groups, in order.
pub open spec fn group_attempts(
    fs: Seq<UnitEnumField>,
    gs: Seq<Seq<int>>,
    reader: Seq<Tok>,
    pos: Seq<Tok>,
) -> Seq<Tok>
    decreases gs.len(),
{
    if gs.len() == 0 {
        Seq::empty()
    } else {
        group_attempts(fs, gs.drop_last(), reader, pos) + group_attempt(fs, gs.last(), reader, pos)
    }
}

/// Tries the groups of variants (see [`group_by_kind`]) in order, then fails.
pub open spec fn unit_enum_magic_code(reader: Seq<Tok>, fs: Seq<UnitEnumField>, pos: Seq<Tok>) -> Seq<
    Tok,
> {
    group_attempts(fs, group_by_kind(field_kinds(fs)), reader, pos) + err_of(
        no_variant_match(pos, false),
    )
}

fn append_magic_arm(out: &mut Code, f: &UnitEnumField)
    ensures
        final(out)@ == old(out)@ + magic_arm(*f),
{
    match &f.magic {
        Some(magic) => {
            extend(out, magic.value.match_value());
            if f.pre_assertions.len() > 0 {
                word(out, Word::If);
                word(out, Word::True);
                append_and_conditions(out, &f.pre_assertions);
            }
        },
        None => word(out, Word::Underscore),
    }
    op(out, Op::FatArrow);
    append_ok_self(out, &f.ident);
    op(out, Op::Comma);
    assert(out@ =~= old(out)@ + magic_arm(*f));
}

/// The view of a group of positions.
pub open spec fn group_view(g: Vec<usize>) -> Seq<int> {
    g@.map_values(|x: usize| x as int)
}

fn append_group_match(
    out: &mut Code,
    fields: &Vec<UnitEnumField>,
    g: &Vec<usize>,
    reader: &Code,
    pos: &Code,
)
    requires
        g@.len() > 0,
        forall|j: int| 0 <= j < g@.len() ==> #[trigger] g@[j] < fields@.len(),
    ensures
        final(out)@ == old(out)@ + group_match(fields@, group_view(*g), reader@, pos@),
{
    let ghost gv = group_view(*g);
    word(out, Word::Match);
    match &fields[g[0]].magic {
        Some(magic) => {
            let amp = magic.value.add_ref();
            extend(out, &amp);
        },
        None => {},
    }
    append_read_call(out, reader);
    open(out, Delim::Brace);
    let ghost head = out@;
    let mut j: usize = 0;
    assert(gv.take(0) =~= Seq::<int>::empty());
    assert(out@ =~= head + magic_arms(fields@, gv.take(0)));
    while j < g.len()
        invariant
            j <= g@.len(),
            gv == group_view(*g),
            forall|k: int| 0 <= k < g@.len() ==> #[trigger] g@[k] < fields@.len(),
            out@ == head + magic_arms(fields@, gv.take(j as int)),
        decreases g.len() - j,
    {
        append_magic_arm(out, &fields[g[j]]);
        assert(gv.take(j + 1).drop_last() =~= gv.take(j as int));
        assert(gv.take(j + 1).last() == g@[j as int] as int);
        j += 1;
        assert(out@ =~= head + magic_arms(fields@, gv.take(j as int)));
    }
    assert(gv.take(g.len() as int) =~= gv);
    word(out, Word::Underscore);
    op(out, Op::FatArrow);
    word(out, Word::ErrCtor);
    open(out, Delim::Paren);
    append_no_variant_match(out, pos, false);
    close(out, Delim::Paren);
    close(out, Delim::Brace);
    assert(gv[0] == g@[0] as int);
    assert(out@ =~= old(out)@ + group_match(fields@, gv, reader@, pos@));
}

fn append_group_attempt(
    out: &mut Code,
    fields: &Vec<UnitEnumField>,
    g: &Vec<usize>,
    reader: &Code,
    pos: &Code,
)
    requires
        g@.len() > 0,
        forall|j: int| 0 <= j < g@.len() ==> #[trigger] g@[j] < fields@.len(),
    ensures
        final(out)@ == old(out)@ + group_attempt(fields@, group_view(*g), reader@, pos@),
{
    word(out, Word::Match);
    open(out, Delim::Paren);
    op(out, Op::Pipe);
    op(out, Op::Pipe);
    open(out, Delim::Brace);
    append_group_match(out, fields, g, reader, pos);
    close(out, Delim::Brace);
    close(out, Delim::Paren);
    open(out, Delim::Paren);
    close(out, Delim::Paren);
    open(out, Delim::Brace);
    word(out, Word::BindingV);
    op(out, Op::At);
    word(out, Word::OkCtor);
    open(out, Delim::Paren);
    word(out, Word::Underscore);
    close(out, Delim::Paren);
    op(out, Op::FatArrow);
    word(out, Word::Return);
    word(out, Word::BindingV);
    op(out, Op::Comma);
    word(out, Word::ErrCtor);
    open(out, Delim::Paren);
    word(out, Word::Temp);
    close(out, Delim::Paren);
    op(out, Op::FatArrow);
    open(out, Delim::Brace);
    word(out, Word::RestorePositionVariant);
    open(out, Delim::Paren);
    extend(out, reader);
    op(out, Op::Comma);
    extend(out, pos);
    op(out, Op::Comma);
    word(out, Word::Temp);
    close(out, Delim::Paren);
    op(out, Op::Question);
    op(out, Op::Semi);
    close(out, Delim::Brace);
    close(out, Delim::Brace);
    assert(out@ =~= old(out)@ + group_attempt(fields@, group_view(*g), reader@, pos@));
}

/// The reader of a unit-only enum without a `repr` type: the variants are
/// grouped by the type of their magic values, and each group reads one value
/// and matches it against its variants.
pub fn generate_unit_enum_magic(reader_var: &Code, variants: &Vec<UnitEnumField>, pos: &Code) -> (r:
    Code)
    ensures
        r@ == unit_enum_magic_code(reader_var@, variants@, pos@),
{
    let groups = group_by_magic_kind(variants);
    let ghost ks = field_kinds(variants@);
    let ghost gs = group_by_kind(ks);
    proof {
        lemma_grouping_shape(ks);
    }
    let mut out: Code = Vec::new();
    let mut t: usize = 0;
    assert(gs.take(0) =~= Seq::<Seq<int>>::empty());
    assert(out@ =~= group_attempts(variants@, gs.take(0), reader_var@, pos@));
    while t < groups.len()
        invariant
            t <= groups@.len(),
            groups_view(groups@) == gs,
            gs == group_by_kind(ks),
            ks == field_kinds(variants@),
            ks.len() == variants@.len(),
            crate::grouping::well_grouped(ks, gs),
            out@ == group_attempts(variants@, gs.take(t as int), reader_var@, pos@),
        decreases groups.len() - t,
    {
        let g = &groups[t];
        assert(group_view(*g) == gs[t as int]);
        assert(gs[t as int].len() > 0);
        assert forall|j: int| 0 <= j < g@.len() implies #[trigger] g@[j] < variants@.len() by {
            assert(gs[t as int][j] == g@[j] as int);
        }
        append_group_attempt(&mut out, variants, g, reader_var, pos);
        assert(gs.take(t + 1).drop_last() =~= gs.take(t as int));
        t += 1;
        assert(out@ =~= group_attempts(variants@, gs.take(t as int), reader_var@, pos@));
    }
    assert(gs.take(groups.len() as int) =~= gs);
    word(&mut out, Word::ErrCtor);
    open(&mut out, Delim::Paren);
    append_no_variant_match(&mut out, pos, false);
    close(&mut out, Delim::Paren);
    assert(out@ =~= unit_enum_magic_code(reader_var@, variants@, pos@));
    out
}

// ---------------------------------------------------------------------------
// The reader of a unit-only enum
/// The reader of a unit-only enum: the prelude, then the value read through
/// the `repr` type where the enum has one, or through its magic values.
pub open spec fn unit_enum_code(
    input: Input,
    en: UnitOnlyEnum,
    pos: Seq<Tok>,
    parts: PreludeParts,
) -> Seq<Tok> {
    let reader = stream_ident_or_code(input, Word::Reader);
    read_prelude(input, parts, false) + match en.map {
        Mapping::Repr(ty) => unit_enum_repr_code(reader, ty@, en.fields@, pos),
        _ => unit_enum_magic_code(reader, en.fields@, pos),
    }
}

/// Writes the reader of a unit-only enum (see [`unit_enum_code`]).
pub fn generate_unit_enum(
    input: &Input,
    en: &UnitOnlyEnum,
    pos_emitter: &PosEmitter,
    parts: &PreludeParts,
) -> (r: Code)
    ensures
        r@ == unit_enum_code(*input, *en, pos_emitter.pos@, *parts),
{
    let mut out = generate_prelude(input, pos_emitter, parts, false);
    let reader = input.stream_ident_or(Word::Reader);
    let pos = pos_emitter.pos();
    let read = match en.map.as_repr() {
        Some(repr) => generate_unit_enum_repr(&reader, repr, &en.fields, &pos),
        None => generate_unit_enum_magic(&reader, &en.fields, &pos),
    };
    extend(&mut out, &read);
    out
}

// ---------------------------------------------------------------------------
// Data enums
/// Whether a data enum collects the error of every variant.
pub open spec fn returns_all_errors(mode: EnumErrorMode) -> bool {
    mode != EnumErrorMode::ReturnUnexpectedError
}

/// `extern crate alloc; let mut #ERROR_BASKET: alloc::vec::Vec<(&'static str,
/// #BIN_ERROR)> = alloc::vec::Vec::new();`
pub open spec fn error_basket() -> Seq<Tok> {
    seq![
        Tok::Word(Word::Extern),
        Tok::Word(Word::Crate),
        Tok::Word(Word::Alloc),
        Tok::Op(Op::Semi),
        Tok::Word(Word::Let),
        Tok::Word(Word::Mut),
        Tok::Word(Word::ErrorBasket),
        Tok::Op(Op::Colon),
        Tok::Word(Word::Alloc),
        Tok::Op(Op::PathSep),
        Tok::Word(Word::VecModule),
        Tok::Op(Op::PathSep),
        Tok::Word(Word::VecType),
        Tok::Op(Op::Lt),
        Tok::Open(Delim::Paren),
        Tok::Op(Op::Amp),
        Tok::Word(Word::StaticLifetime),
        Tok::Word(Word::Str),
        Tok::Op(Op::Comma),
        Tok::Word(Word::BinError),
        Tok::Close(Delim::Paren),
        Tok::Op(Op::Gt),
        Tok::Op(Op::Assign),
        Tok::Word(Word::Alloc),
        Tok::Op(Op::PathSep),
        Tok::Word(Word::VecModule),
        Tok::Op(Op::PathSep),
        Tok::Word(Word::VecType),
        Tok::Op(Op::PathSep),
        Tok::Word(Word::New),
        Tok::Open(Delim::Paren),
        Tok::Close(Delim::Paren),
        Tok::Op(Op::Semi),
    ]
}

/// The error of a data enum none of whose variants could be read: every
/// variant's error, or only that no variant matched.
pub open spec fn data_enum_error(pos: Seq<Tok>, all: bool) -> Seq<Tok> {
    if all {
        err_of(
            seq![
                Tok::Word(Word::BinError),
                Tok::Op(Op::PathSep),
                Tok::Word(Word::EnumErrors),
                Tok::Open(Delim::Brace),
                Tok::Word(Word::PosField),
                Tok::Op(Op::Colon),
            ] + pos + seq![
                Tok::Op(Op::Comma),
                Tok::Word(Word::VariantErrorsField),
                Tok::Op(Op::Colon),
                Tok::Word(Word::ErrorBasket),
                Tok::Close(Delim::Brace),
            ],
        )
    } else {
        err_of(no_variant_match(pos, true))
    }
}

/// `#ERROR_BASKET.push(("name", #TEMP));`
pub open spec fn keep_error(name: String) -> Seq<Tok> {
    seq![
        Tok::Word(Word::ErrorBasket),
        Tok::Op(Op::Dot),
        Tok::Word(Word::Push),
        Tok::Open(Delim::Paren),
        Tok::Open(Delim::Paren),
        Tok::Str(name),
        Tok::Op(Op::Comma),
        Tok::Word(Word::Temp),
        Tok::Close(Delim::Paren),
        Tok::Close(Delim::Paren),
        Tok::Op(Op::Semi),
    ]
}

/// `match (|| { body })() { ok @ Ok(_) => return ok,` of a variant's attempt.
pub open spec fn variant_attempt_head(body: Seq<Tok>) -> Seq<Tok> {
    seq![
        Tok::Word(Word::Match),
        Tok::Open(Delim::Paren),
        Tok::Op(Op::Pipe),
        Tok::Op(Op::Pipe),
        Tok::Open(Delim::Brace),
    ] + body + seq![
        Tok::Close(Delim::Brace),
        Tok::Close(Delim::Paren),
        Tok::Open(Delim::Paren),
        Tok::Close(Delim::Paren),
        Tok::Open(Delim::Brace),
        Tok::Word(Word::BindingOk),
        Tok::Op(Op::At),
        Tok::Word(Word::OkCtor),
        Tok::Open(Delim::Paren),
        Tok::Word(Word::Underscore),
        Tok::Close(Delim::Paren),
        Tok::Op(Op::FatArrow),
        Tok::Word(Word::Return),
        Tok::Word(Word::BindingOk),
        Tok::Op(Op::Comma),
    ]
}

/// `Err(error) => { #RESTORE_POSITION_VARIANT(reader, pos, error).map(|#TEMP| {
/// keep })?; } }` of a variant's attempt.
pub open spec fn variant_attempt_tail(v: EnumVariant, reader: Seq<Tok>, pos: Seq<Tok>, all: bool) -> Seq<
    Tok,
> {
    seq![
        Tok::Word(Word::ErrCtor),
        Tok::Open(Delim::Paren),
        Tok::Word(Word::BindingError),
        Tok::Close(Delim::Paren),
        Tok::Op(Op::FatArrow),
        Tok::Open(Delim::Brace),
        Tok::Word(Word::RestorePositionVariant),
        Tok::Open(Delim::Paren),
    ] + reader + seq![Tok::Op(Op::Comma)] + pos + seq![
        Tok::Op(Op::Comma),
        Tok::Word(Word::BindingError),
        Tok::Close(Delim::Paren),
        Tok::Op(Op::Dot),
        Tok::Word(Word::MapMethod),
        Tok::Open(Delim::Paren),
        Tok::Op(Op::Pipe),
        Tok::Word(Word::Temp),
        Tok::Op(Op::Pipe),
        Tok::Open(Delim::Brace),
    ] + (if all {
        keep_error(v.ident_spec())
    } else {
        Seq::empty()
    }) + seq![
        Tok::Close(Delim::Brace),
        Tok::Close(Delim::Paren),
        Tok::Op(Op::Question),
        Tok::Op(Op::Semi),
        Tok::Close(Delim::Brace),
        Tok::Close(Delim::Brace),
    ]
}

/// Tries one variant: its value is returned, or the reader is rewound to
/// `pos` and (where all errors are kept) the error is kept under the
/// variant's name.
pub open spec fn variant_attempt(
    v: EnumVariant,
    body: Seq<Tok>,
    reader: Seq<Tok>,
    pos: Seq<Tok>,
    all: bool,
) -> Seq<Tok> {
    variant_attempt_head(body) + variant_attempt_tail(v, reader, pos, all)
}

/// The attempts of the variants, in order, each with its body.
pub open spec fn variant_attempts(
    vs: Seq<EnumVariant>,
    bodies: Seq<Code>,
    reader: Seq<Tok>,
    pos: Seq<Tok>,
    all: bool,
) -> Seq<Tok>
    decreases vs.len(),
{
    if vs.len() == 0 {
        Seq::empty()
    } else {
        variant_attempts(vs.drop_last(), bodies, reader, pos, all) + variant_attempt(
            vs.last(),
            bodies[vs.len() - 1]@,
            reader,
            pos,
            all,
        )
    }
}

/// The reader of a data enum: the prelude (with the position after the
/// magic), the error basket where all errors are kept, an attempt at each
/// variant in order, and the error.
pub open spec fn data_enum_code(
    input: Input,
    en: Enum,
    pos: Seq<Tok>,
    parts: PreludeParts,
    bodies: Seq<Code>,
) -> Seq<Tok> {
    let all = returns_all_errors(en.error_mode);
    read_prelude(input, parts, true) + (if all {
        error_basket()
    } else {
        Seq::empty()
    }) + variant_attempts(
        en.variants@,
        bodies,
        stream_ident_or_code(input, Word::Reader),
        pos,
        all,
    ) + data_enum_error(pos, all)
}

fn append_error_basket(out: &mut Code)
    ensures
        final(out)@ == old(out)@ + error_basket(),
{
    word(out, Word::Extern);
    word(out, Word::Crate);
    word(out, Word::Alloc);
    op(out, Op::Semi);
    word(out, Word::Let);
    word(out, Word::Mut);
    word(out, Word::ErrorBasket);
    op(out, Op::Colon);
    word(out, Word::Alloc);
    op(out, Op::PathSep);
    word(out, Word::VecModule);
    op(out, Op::PathSep);
    word(out, Word::VecType);
    op(out, Op::Lt);
    open(out, Delim::Paren);
    op(out, Op::Amp);
    word(out, Word::StaticLifetime);
    word(out, Word::Str);
    op(out, Op::Comma);
    word(out, Word::BinError);
    close(out, Delim::Paren);
    op(out, Op::Gt);
    op(out, Op::Assign);
    word(out, Word::Alloc);
    op(out, Op::PathSep);
    word(out, Word::VecModule);
    op(out, Op::PathSep);
    word(out, Word::VecType);
    op(out, Op::PathSep);
    word(out, Word::New);
    open(out, Delim::Paren);
    close(out, Delim::Paren);
    op(out, Op::Semi);
    assert(out@ =~= old(out)@ + error_basket());
}

fn append_data_enum_error(out: &mut Code, pos: &Code, all: bool)
    ensures
        final(out)@ == old(out)@ + data_enum_error(pos@, all),
{
    word(out, Word::ErrCtor);
    open(out, Delim::Paren);
    if all {
        word(out, Word::BinError);
        op(out, Op::PathSep);
        word(out, Word::EnumErrors);
        open(out, Delim::Brace);
        word(out, Word::PosField);
        op(out, Op::Colon);
        extend(out, pos);
        op(out, Op::Comma);
        word(out, Word::VariantErrorsField);
        op(out, Op::Colon);
        word(out, Word::ErrorBasket);
        close(out, Delim::Brace);
    } else {
        append_no_variant_match(out, pos, true);
    }
    close(out, Delim::Paren);
    assert(out@ =~= old(out)@ + data_enum_error(pos@, all));
}

fn append_keep_error(out: &mut Code, name: &String)
    ensures
        final(out)@ == old(out)@ + keep_error(*name),
{
    word(out, Word::ErrorBasket);
    op(out, Op::Dot);
    word(out, Word::Push);
    open(out, Delim::Paren);
    open(out, Delim::Paren);
    out.push(Tok::Str(name.clone()));
    op(out, Op::Comma);
    word(out, Word::Temp);
    close(out, Delim::Paren);
    close(out, Delim::Paren);
    op(out, Op::Semi);
    assert(out@ =~= old(out)@ + keep_error(*name));
}

fn append_variant_attempt_head(out: &mut Code, body: &Code)
    ensures
        final(out)@ == old(out)@ + variant_attempt_head(body@),
{
    word(out, Word::Match);
    open(out, Delim::Paren);
    op(out, Op::Pipe);
    op(out, Op::Pipe);
    open(out, Delim::Brace);
    extend(out, body);
    close(out, Delim::Brace);
    close(out, Delim::Paren);
    open(out, Delim::Paren);
    close(out, Delim::Paren);
    open(out, Delim::Brace);
    word(out, Word::BindingOk);
    op(out, Op::At);
    word(out, Word::OkCtor);
    open(out, Delim::Paren);
    word(out, Word::Underscore);
    close(out, Delim::Paren);
    op(out, Op::FatArrow);
    word(out, Word::Return);
    word(out, Word::BindingOk);
    op(out, Op::Comma);
    assert(out@ =~= old(out)@ + variant_attempt_head(body@));
}

fn append_variant_attempt_tail(out: &mut Code, v: &EnumVariant, reader: &Code, pos: &Code, all: bool)
    ensures
        final(out)@ == old(out)@ + variant_attempt_tail(*v, reader@, pos@, all),
{
    word(out, Word::ErrCtor);
    open(out, Delim::Paren);
    word(out, Word::BindingError);
    close(out, Delim::Paren);
    op(out, Op::FatArrow);
    open(out, Delim::Brace);
    word(out, Word::RestorePositionVariant);
    open(out, Delim::Paren);
    extend(out, reader);
    op(out, Op::Comma);
    extend(out, pos);
    op(out, Op::Comma);
    word(out, Word::BindingError);
    close(out, Delim::Paren);
    op(out, Op::Dot);
    word(out, Word::MapMethod);
    open(out, Delim::Paren);
    op(out, Op::Pipe);
    word(out, Word::Temp);
    op(out, Op::Pipe);
    open(out, Delim::Brace);
    let ghost mid = out@;
    if all {
        append_keep_error(out, v.ident());
    }
    assert(out@ == mid + (if all {
        keep_error(v.ident_spec())
    } else {
        Seq::empty()
    })) by {
        if !all {
            assert(out@ =~= mid + Seq::<Tok>::empty());
        }
    }
    close(out, Delim::Brace);
    close(out, Delim::Paren);
    op(out, Op::Question);
    op(out, Op::Semi);
    close(out, Delim::Brace);
    close(out, Delim::Brace);
    assert(out@ =~= old(out)@ + variant_attempt_tail(*v, reader@, pos@, all));
}

fn append_variant_attempt(
    out: &mut Code,
    v: &EnumVariant,
    body: &Code,
    reader: &Code,
    pos: &Code,
    all: bool,
)
    ensures
        final(out)@ == old(out)@ + variant_attempt(*v, body@, reader@, pos@, all),
{
    append_variant_attempt_head(out, body);
    append_variant_attempt_tail(out, v, reader, pos, all);
    assert(out@ =~= old(out)@ + variant_attempt(*v, body@, reader@, pos@, all));
}

/// Writes the reader of a data enum (see [`data_enum_code`]), given the code
/// that the struct readers write for each variant, in order.
pub fn generate_data_enum(
    input: &Input,
    en: &Enum,
    pos_emitter: &PosEmitter,
    parts: &PreludeParts,
    variant_bodies: &Vec<Code>,
) -> (r: Code)
    requires
        variant_bodies@.len() == en.variants@.len(),
    ensures
        r@ == data_enum_code(*input, *en, pos_emitter.pos@, *parts, variant_bodies@),
{
    let all = match en.error_mode {
        EnumErrorMode::ReturnUnexpectedError => false,
        _ => true,
    };
    let mut out = generate_prelude(input, pos_emitter, parts, true);
    let pos = pos_emitter.pos();
    if all {
        append_error_basket(&mut out);
    }
    let reader = input.stream_ident_or(Word::Reader);
    let ghost head = out@;
    let ghost vs = en.variants@;
    let mut i: usize = 0;
    assert(vs.take(0) =~= Seq::<EnumVariant>::empty());
    assert(out@ =~= head + variant_attempts(vs.take(0), variant_bodies@, reader@, pos@, all));
    while i < en.variants.len()
        invariant
            i <= vs.len(),
            vs == en.variants@,
            variant_bodies@.len() == vs.len(),
            out@ == head + variant_attempts(vs.take(i as int), variant_bodies@, reader@, pos@, all),
        decreases vs.len() - i,
    {
        append_variant_attempt(&mut out, &en.variants[i], &variant_bodies[i], &reader, &pos, all);
        assert(vs.take(i + 1).drop_last() =~= vs.take(i as int));
        i += 1;
        assert(out@ =~= head + variant_attempts(vs.take(i as int), variant_bodies@, reader@, pos@, all));
    }
    assert(vs.take(vs.len() as int) =~= vs);
    append_data_enum_error(&mut out, &pos, all);
    assert(out@ =~= data_enum_code(*input, *en, pos_emitter.pos@, *parts, variant_bodies@));
    out
}

/// How a variant of a data enum is read: a variant with fields by the struct
/// reader, under its qualified name `Enum::Variant` and with the enum's
/// assertions; a unit variant by the unit struct reader.
pub enum VariantImpl<'a> {
    Fields { ident: String, name: String, assertions: &'a Vec<Assert> },
    Unit { ident: String },
}

/// How each variant is read (see [`VariantImpl`]).  A variant with fields
/// needs the enum's name.
pub fn generate_variant_impl<'a>(en: &'a Enum, variant: &EnumVariant) -> (r: VariantImpl<'a>)
    requires
        variant is Variant ==> en.ident is Some,
    ensures
        match *variant {
            EnumVariant::Variant { ident } => r matches VariantImpl::Fields {
                ident: i,
                name,
                assertions,
            } && i == ident && name@ == en.ident.unwrap()@ + "::"@ + ident@ && *assertions
                == en.assertions,
            EnumVariant::Unit { ident } => r matches VariantImpl::Unit { ident: i } && i == ident,
        },
{
    match variant {
        EnumVariant::Variant { ident } => {
            let mut name = match &en.ident {
                Some(e) => e.clone(),
                None => String::new(),
            };
            name.append("::");
            name.append(ident.as_str());
            VariantImpl::Fields { ident: ident.clone(), name, assertions: &en.assertions }
        },
        EnumVariant::Unit { ident } => VariantImpl::Unit { ident: ident.clone() },
    }
}

} // verus!
