//! The generated code is well bracketed: every group that it opens it closes
//! with the same delimiter, provided the code it is given is well bracketed.
use crate::input::{stream_ident_or_code, Assert, Input};
use crate::magic::{deref_value_code, KindView, Magic};
use crate::input::UnitEnumField;
use crate::read_enum::{
    and_conditions, err_of, no_variant_match, ok_self, read_call, repr_clause, repr_clauses,
    repr_fallback, unit_enum_repr_code, magic_arm, magic_arms, group_ref, group_match,
    group_attempt, group_attempts, unit_enum_magic_code, unit_enum_code, error_basket,
    data_enum_error, keep_error, variant_attempt, variant_attempt_head, variant_attempt_tail,
    variant_attempts, data_enum_code, returns_all_errors,
};
use crate::input::{Enum, EnumVariant, Shape};
use crate::read_options::{read_body, ReadParts};
use crate::write_options::{
    map_code, mapper_code, map_try_code, try_from_code, write_body, write_code, write_data_code,
    write_plan_of, WritePlanView, WritePrelude,
};
use crate::grouping::{field_kinds, group_by_kind, lemma_grouping_shape};
use crate::input::{Mapping, UnitOnlyEnum};
use crate::magic::add_ref_code;
use crate::read_options::{
    endian_code, imports_code, magic_assertion, map_stream_code, read_code, read_prelude,
    stream_position_code, PreludeParts,
};
use crate::tokens::{
    balanced, flat, lemma_balanced_concat, lemma_balanced_group, lemma_flat_balanced,
    lemma_run_then, lemma_run_then_balanced, run, Delim, Op, Text, Tok, Word,
};
use proc_macro2::Span;
use vstd::prelude::*;

verus! {

/// The start and the end of a read body are well bracketed around the parts.
pub proof fn lemma_read_code_balanced(reader: Seq<Tok>, set_pos: Seq<Tok>, inner: Seq<Tok>, rewind: Seq<Tok>)
    requires
        balanced(reader),
        balanced(set_pos),
        balanced(inner),
        balanced(rewind),
    ensures
        balanced(read_code(reader, set_pos, inner, rewind)),
{
    reveal_with_fuel(run, 6);
    let e = Seq::<Delim>::empty();
    let l1 = seq![Tok::Word(Word::Let)];
    let l2 = seq![Tok::Op(Op::Assign), Tok::Word(Word::Reader), Tok::Op(Op::Semi)];
    let l3 = seq![Tok::Open(Delim::Paren), Tok::Op(Op::Pipe), Tok::Op(Op::Pipe), Tok::Open(Delim::Brace)];
    let l4 = seq![Tok::Close(Delim::Brace), Tok::Close(Delim::Paren), Tok::Open(Delim::Paren), Tok::Close(Delim::Paren)];
    let st = seq![Delim::Paren, Delim::Brace];
    assert(run(l1, e) == Some(e));
    lemma_run_then_balanced(l1, reader, e, e);
    assert(run(l2, e) == Some(e));
    lemma_run_then(l1 + reader, l2, e, e, e);
    lemma_run_then_balanced(l1 + reader + l2, set_pos, e, e);
    assert(run(l3, e) == Some(st));
    lemma_run_then(l1 + reader + l2 + set_pos, l3, e, e, st);
    lemma_run_then_balanced(l1 + reader + l2 + set_pos + l3, inner, e, st);
    assert(run(l4, st) == Some(e));
    lemma_run_then(l1 + reader + l2 + set_pos + l3 + inner, l4, e, st, e);
    lemma_run_then_balanced(l1 + reader + l2 + set_pos + l3 + inner + l4, rewind, e, e);
}

/// Every group a literal piece opens is closed within it.
proof fn lemma_empty_balanced()
    ensures
        balanced(Seq::<Tok>::empty()),
{
}

/// `Ok(Self::ident)` is well bracketed.
pub proof fn lemma_ok_self_balanced(ident: String)
    ensures
        balanced(ok_self(ident)),
{
    reveal_with_fuel(run, 8);
    assert(Seq::<Delim>::empty().push(Delim::Paren).drop_last() =~= Seq::<Delim>::empty());
}

/// A read call is well bracketed around a well bracketed reader.
pub proof fn lemma_read_call_balanced(reader: Seq<Tok>)
    requires
        balanced(reader),
    ensures
        balanced(read_call(reader)),
{
    reveal_with_fuel(run, 9);
    let e = Seq::<Delim>::empty();
    let p = seq![Delim::Paren];
    let l1 = seq![Tok::Word(Word::ReadMethod), Tok::Open(Delim::Paren)];
    let l2 = seq![
        Tok::Op(Op::Comma),
        Tok::Word(Word::Opt),
        Tok::Op(Op::Comma),
        Tok::Open(Delim::Paren),
        Tok::Close(Delim::Paren),
        Tok::Close(Delim::Paren),
        Tok::Op(Op::Question),
    ];
    assert(run(l1, e) == Some(p));
    lemma_run_then_balanced(l1, reader, e, p);
    assert(p.push(Delim::Paren).drop_last() =~= p);
    assert(p.drop_last() =~= e);
    assert(run(l2, p) == Some(e));
    lemma_run_then(l1 + reader, l2, e, p, e);
}

/// The no-variant-match error is well bracketed around a well bracketed position.
pub proof fn lemma_no_variant_match_balanced(pos: Seq<Tok>, comma: bool)
    requires
        balanced(pos),
    ensures
        balanced(no_variant_match(pos, comma)),
{
    reveal_with_fuel(run, 8);
    let e = Seq::<Delim>::empty();
    let b = seq![Delim::Brace];
    let l1 = seq![
        Tok::Word(Word::BinError),
        Tok::Op(Op::PathSep),
        Tok::Word(Word::NoVariantMatch),
        Tok::Open(Delim::Brace),
        Tok::Word(Word::PosField),
        Tok::Op(Op::Colon),
    ];
    let l2: Seq<Tok> = if comma {
        seq![Tok::Op(Op::Comma)]
    } else {
        Seq::empty()
    };
    let l3 = seq![Tok::Close(Delim::Brace)];
    assert(run(l1, e) == Some(b));
    lemma_run_then_balanced(l1, pos, e, b);
    assert(run(l2, b) == Some(b));
    lemma_run_then(l1 + pos, l2, e, b, b);
    assert(b.drop_last() =~= e);
    assert(run(l3, b) == Some(e));
    lemma_run_then(l1 + pos + l2, l3, e, b, e);
}

/// Wraps well bracketed code in a one-delimiter group after a prefix without
/// group markers, and a suffix without group markers after it.
proof fn lemma_wrapped_balanced(pre: Seq<Tok>, d: Delim, inner: Seq<Tok>, post: Seq<Tok>)
    requires
        run(pre, Seq::empty()) == Some(seq![d]),
        balanced(inner),
        run(post, seq![d]) == Some(Seq::<Delim>::empty()),
    ensures
        balanced(pre + inner + post),
{
    lemma_run_then_balanced(pre, inner, Seq::empty(), seq![d]);
    lemma_run_then(pre + inner, post, Seq::empty(), seq![d], Seq::empty());
}

/// `Err(..)` is well bracketed around well bracketed code.
pub proof fn lemma_err_of_balanced(x: Seq<Tok>)
    requires
        balanced(x),
    ensures
        balanced(err_of(x)),
{
    reveal_with_fuel(run, 3);
    assert(seq![Delim::Paren].drop_last() =~= Seq::<Delim>::empty());
    lemma_wrapped_balanced(
        seq![Tok::Word(Word::ErrCtor), Tok::Open(Delim::Paren)],
        Delim::Paren,
        x,
        seq![Tok::Close(Delim::Paren)],
    );
}

/// A dereferenced magic value is well bracketed where the value is.
pub proof fn lemma_deref_balanced(k: KindView, v: Seq<Tok>)
    requires
        balanced(v),
    ensures
        balanced(deref_value_code(k, v)),
{
    reveal_with_fuel(run, 2);
    if k is ByteStr {
        lemma_balanced_concat(seq![Tok::Op(Op::Star)], v);
    }
}

/// Magic values whose tokens are well bracketed.
pub open spec fn magic_balanced(m: Magic) -> bool {
    m matches Some(v) ==> balanced(v.value.1@)
}

/// The magic check is well bracketed.
pub proof fn lemma_magic_assertion_balanced(magic: Magic, reader: Seq<Tok>, endian: Seq<Tok>)
    requires
        magic_balanced(magic),
        balanced(reader),
        balanced(endian),
    ensures
        balanced(magic_assertion(magic, reader, endian)),
{
    reveal_with_fuel(run, 4);
    if let Some(m) = magic {
        let e = Seq::<Delim>::empty();
        let p = seq![Delim::Paren];
        let l1 = seq![Tok::Word(Word::AssertMagic), Tok::Open(Delim::Paren)];
        let c = seq![Tok::Op(Op::Comma)];
        let l4 = seq![Tok::Close(Delim::Paren), Tok::Op(Op::Question), Tok::Op(Op::Semi)];
        let v = deref_value_code(m.value.0@, m.value.1@);
        lemma_deref_balanced(m.value.0@, m.value.1@);
        assert(run(l1, e) == Some(p));
        lemma_run_then_balanced(l1, reader, e, p);
        assert(run(c, p) == Some(p));
        lemma_run_then(l1 + reader, c, e, p, p);
        lemma_run_then_balanced(l1 + reader + c, v, e, p);
        lemma_run_then(l1 + reader + c + v, c, e, p, p);
        lemma_run_then_balanced(l1 + reader + c + v + c, endian, e, p);
        assert(p.drop_last() =~= e);
        assert(run(l4, p) == Some(e));
        lemma_run_then(l1 + reader + c + v + c + endian, l4, e, p, e);
    }
}

/// `&& (condition)` for each assertion is well bracketed where the conditions are.
pub proof fn lemma_and_conditions_balanced(asserts: Seq<Assert>)
    requires
        forall|i: int| 0 <= i < asserts.len() ==> balanced(#[trigger] asserts[i].condition@),
    ensures
        balanced(and_conditions(asserts)),
    decreases asserts.len(),
{
    if asserts.len() > 0 {
        let pre = asserts.drop_last();
        assert forall|i: int| 0 <= i < pre.len() implies balanced(#[trigger] pre[i].condition@) by {
            assert(pre[i] == asserts[i]);
        }
        lemma_and_conditions_balanced(pre);
        let c = asserts.last().condition@;
        assert(balanced(c));
        reveal_with_fuel(run, 3);
        let e = Seq::<Delim>::empty();
        let p = seq![Delim::Paren];
        let l1 = seq![Tok::Op(Op::AndAnd), Tok::Open(Delim::Paren)];
        let l2 = seq![Tok::Close(Delim::Paren)];
        assert(run(l1, e) == Some(p));
        assert(p.drop_last() =~= e);
        assert(run(l2, p) == Some(e));
        lemma_wrapped_balanced(l1, Delim::Paren, c, l2);
        lemma_balanced_concat(and_conditions(pre), l1 + c + l2);
        assert(and_conditions(pre) + (l1 + c + l2) =~= and_conditions(asserts));
    }
}

/// Code that is given to the generators: where present, well bracketed.
pub open spec fn opt_balanced(c: Option<Vec<Tok>>) -> bool {
    c matches Some(v) ==> balanced(v@)
}

/// The parts of the prelude are well bracketed.
pub open spec fn parts_balanced(parts: PreludeParts) -> bool {
    &&& opt_balanced(parts.imports)
    &&& balanced(parts.endian@)
    &&& balanced(parts.pre_assertions@)
}

/// The reader's name, magic value and mapped stream of an input are well bracketed.
pub open spec fn input_top_balanced(input: Input) -> bool {
    &&& opt_balanced(input.stream)
    &&& magic_balanced(input.magic)
    &&& (input.map_stream matches Some(ms) ==> balanced(ms.code@))
}

/// The stream's name is well bracketed.
pub proof fn lemma_stream_ident_balanced(input: Input, w: Word)
    requires
        opt_balanced(input.stream),
    ensures
        balanced(stream_ident_or_code(input, w)),
{
    reveal_with_fuel(run, 2);
}

/// The prelude of a reader is well bracketed.
pub proof fn lemma_read_prelude_balanced(input: Input, parts: PreludeParts, reset: bool)
    requires
        input_top_balanced(input),
        parts_balanced(parts),
    ensures
        balanced(read_prelude(input, parts, reset)),
{
    let reader = stream_ident_or_code(input, Word::Reader);
    lemma_stream_ident_balanced(input, Word::Reader);
    let opt = seq![Tok::Word(Word::Opt)];
    assert(balanced(opt)) by {
        reveal_with_fuel(run, 2);
    }
    let imports = imports_code(parts.imports);
    assert(balanced(imports)) by {
        reveal_with_fuel(run, 2);
        if let Some(i) = parts.imports {
            let tail = seq![Tok::Op(Op::Assign), Tok::Word(Word::Args), Tok::Op(Op::Semi)];
            reveal_with_fuel(run, 4);
            lemma_balanced_concat(seq![Tok::Word(Word::Let)], i@);
            lemma_balanced_concat(seq![Tok::Word(Word::Let)] + i@, tail);
        }
    }
    let endian = endian_code(parts.endian@);
    assert(balanced(endian)) by {
        reveal_with_fuel(run, 4);
        let head = seq![Tok::Word(Word::Let), Tok::Word(Word::Opt), Tok::Op(Op::Assign)];
        lemma_balanced_concat(head, parts.endian@);
        lemma_balanced_concat(head + parts.endian@, seq![Tok::Op(Op::Semi)]);
    }
    lemma_magic_assertion_balanced(input.magic, reader, opt);
    let spc = if reset && input.magic is Some {
        stream_position_code(Word::Pos, reader)
    } else {
        Seq::empty()
    };
    assert(balanced(spc)) by {
        if reset && input.magic is Some {
            lemma_stream_position_balanced(Word::Pos, reader);
        }
    }
    lemma_balanced_concat(imports, endian);
    lemma_balanced_concat(imports + endian, magic_assertion(input.magic, reader, opt));
    lemma_balanced_concat(
        imports + endian + magic_assertion(input.magic, reader, opt),
        parts.pre_assertions@,
    );
    lemma_balanced_concat(
        imports + endian + magic_assertion(input.magic, reader, opt) + parts.pre_assertions@,
        spc,
    );
}

/// Recording the stream position is well bracketed.
pub proof fn lemma_stream_position_balanced(pos_var: Word, reader: Seq<Tok>)
    requires
        balanced(reader),
    ensures
        balanced(stream_position_code(pos_var, reader)),
{
    reveal_with_fuel(run, 8);
    let e = Seq::<Delim>::empty();
    let p = seq![Delim::Paren];
    let l1 = seq![
        Tok::Word(Word::Let),
        Tok::Word(pos_var),
        Tok::Op(Op::Assign),
        Tok::Word(Word::SeekTrait),
        Tok::Op(Op::PathSep),
        Tok::Word(Word::StreamPosition),
        Tok::Open(Delim::Paren),
    ];
    let l2 = seq![Tok::Close(Delim::Paren), Tok::Op(Op::Question), Tok::Op(Op::Semi)];
    assert(run(l1, e) == Some(p));
    assert(p.drop_last() =~= e);
    assert(run(l2, p) == Some(e));
    lemma_wrapped_balanced(l1, Delim::Paren, reader, l2);
}

/// Reading through a mapped stream is well bracketed.
pub proof fn lemma_map_stream_balanced(inner: Seq<Tok>, map_stream: Seq<Tok>, outer: Seq<Tok>, span: Span)
    requires
        balanced(inner),
        balanced(map_stream),
        balanced(outer),
    ensures
        balanced(map_stream_code(inner, map_stream, outer, span)),
{
    reveal_with_fuel(run, 18);
    let e = Seq::<Delim>::empty();
    let p = seq![Delim::Paren];
    let l1 = seq![Tok::SpanStart(span), Tok::Word(Word::Let), Tok::SpanEnd];
    let l2 = seq![
        Tok::SpanStart(span),
        Tok::Op(Op::Assign),
        Tok::Op(Op::Amp),
        Tok::Word(Word::Mut),
        Tok::SpanEnd,
        Tok::Word(Word::MapReaderTypeHint),
        Tok::SpanStart(span),
        Tok::Op(Op::PathSep),
        Tok::Op(Op::Lt),
        Tok::Word(Word::GenericReader),
        Tok::Op(Op::Comma),
        Tok::Word(Word::Underscore),
        Tok::Op(Op::Comma),
        Tok::Word(Word::Underscore),
        Tok::Op(Op::Gt),
        Tok::Open(Delim::Paren),
        Tok::SpanEnd,
    ];
    let l3 = seq![Tok::SpanStart(span), Tok::Close(Delim::Paren), Tok::Open(Delim::Paren), Tok::SpanEnd];
    let l4 = seq![Tok::SpanStart(span), Tok::Close(Delim::Paren), Tok::Op(Op::Semi), Tok::SpanEnd];
    assert(p.drop_last() =~= e);
    assert(run(l1, e) == Some(e));
    lemma_run_then_balanced(l1, inner, e, e);
    assert(run(l2, e) == Some(p));
    lemma_run_then(l1 + inner, l2, e, e, p);
    lemma_run_then_balanced(l1 + inner + l2, map_stream, e, p);
    assert(run(l3, p) == Some(p));
    lemma_run_then(l1 + inner + l2 + map_stream, l3, e, p, p);
    lemma_run_then_balanced(l1 + inner + l2 + map_stream + l3, outer, e, p);
    assert(run(l4, p) == Some(e));
    lemma_run_then(l1 + inner + l2 + map_stream + l3 + outer, l4, e, p, e);
}

/// A group: `d`-delimited code.
pub open spec fn grp(d: Delim, x: Seq<Tok>) -> Seq<Tok> {
    seq![Tok::Open(d)] + x + seq![Tok::Close(d)]
}

/// A group around well bracketed code is well bracketed.
proof fn lemma_grp(d: Delim, x: Seq<Tok>)
    requires
        balanced(x),
    ensures
        balanced(grp(d, x)),
{
    lemma_balanced_group(d, x);
}

/// Code without group markers is well bracketed.
proof fn lemma_flat(s: Seq<Tok>)
    requires
        flat(s),
    ensures
        balanced(s),
{
    lemma_flat_balanced(s, Seq::empty());
}

/// Concatenations of well bracketed code are well bracketed.
proof fn lemma_cat3(a: Seq<Tok>, b: Seq<Tok>, c: Seq<Tok>)
    requires
        balanced(a),
        balanced(b),
        balanced(c),
    ensures
        balanced(a + b + c),
{
    lemma_balanced_concat(a, b);
    lemma_balanced_concat(a + b, c);
}

/// Variants whose magic values and pre-assertion conditions are well bracketed.
pub open spec fn field_balanced(f: UnitEnumField) -> bool {
    &&& magic_balanced(f.magic)
    &&& forall|i: int|
        0 <= i < f.pre_assertions@.len() ==> balanced(#[trigger] f.pre_assertions@[i].condition@)
}

/// One clause of a `repr` reader is well bracketed.
pub proof fn lemma_repr_clause_balanced(f: UnitEnumField, repr: Seq<Tok>)
    requires
        field_balanced(f),
        balanced(repr),
    ensures
        balanced(repr_clause(f, repr)),
{
    let l1 = seq![
        Tok::Word(Word::If),
        Tok::Word(Word::Temp),
        Tok::Op(Op::EqEq),
        Tok::Word(Word::SelfType),
        Tok::Op(Op::PathSep),
        Tok::Ident(f.ident),
        Tok::Word(Word::As),
    ];
    lemma_flat(l1);
    lemma_and_conditions_balanced(f.pre_assertions@);
    lemma_ok_self_balanced(f.ident);
    lemma_grp(Delim::Brace, ok_self(f.ident));
    let e = seq![Tok::Word(Word::Else)];
    lemma_flat(e);
    lemma_cat3(l1, repr, and_conditions(f.pre_assertions@));
    lemma_cat3(l1 + repr + and_conditions(f.pre_assertions@), grp(Delim::Brace, ok_self(f.ident)), e);
    assert(l1 + repr + and_conditions(f.pre_assertions@) + grp(Delim::Brace, ok_self(f.ident)) + e
        =~= repr_clause(f, repr));
}

/// The clauses of a `repr` reader are well bracketed.
pub proof fn lemma_repr_clauses_balanced(fs: Seq<UnitEnumField>, repr: Seq<Tok>)
    requires
        forall|i: int| 0 <= i < fs.len() ==> field_balanced(#[trigger] fs[i]),
        balanced(repr),
    ensures
        balanced(repr_clauses(fs, repr)),
    decreases fs.len(),
{
    if fs.len() == 0 {
        lemma_empty_balanced();
    } else {
        let pre = fs.drop_last();
        assert forall|i: int| 0 <= i < pre.len() implies field_balanced(#[trigger] pre[i]) by {
            assert(pre[i] == fs[i]);
        }
        lemma_repr_clauses_balanced(pre, repr);
        lemma_repr_clause_balanced(fs.last(), repr);
        lemma_balanced_concat(repr_clauses(pre, repr), repr_clause(fs.last(), repr));
    }
}

/// The fallback of a `repr` reader is well bracketed.
pub proof fn lemma_repr_fallback_balanced(pos: Seq<Tok>)
    requires
        balanced(pos),
    ensures
        balanced(repr_fallback(pos)),
{
    let fmt = seq![
        Tok::Word(Word::Extern),
        Tok::Word(Word::Crate),
        Tok::Word(Word::Alloc),
        Tok::Op(Op::Semi),
        Tok::Word(Word::Alloc),
        Tok::Op(Op::PathSep),
        Tok::Word(Word::Format),
        Tok::Op(Op::Bang),
    ];
    let args = seq![Tok::Text(Text::UnexpectedEnumValue), Tok::Op(Op::Comma), Tok::Word(Word::Temp)];
    let into = seq![Tok::Op(Op::Dot), Tok::Word(Word::Into)];
    let msg_block = fmt + grp(Delim::Paren, args) + into + grp(Delim::Paren, Seq::empty());
    lemma_flat(fmt);
    lemma_flat(args);
    lemma_flat(into);
    lemma_empty_balanced();
    lemma_grp(Delim::Paren, args);
    lemma_grp(Delim::Paren, Seq::empty());
    lemma_cat3(fmt, grp(Delim::Paren, args), into);
    lemma_balanced_concat(fmt + grp(Delim::Paren, args) + into, grp(Delim::Paren, Seq::empty()));
    let message = grp(Delim::Paren, grp(Delim::Brace, msg_block));
    lemma_grp(Delim::Brace, msg_block);
    lemma_grp(Delim::Paren, grp(Delim::Brace, msg_block));
    let frame = seq![
        Tok::Op(Op::Comma),
        Tok::Word(Word::BacktraceFrame),
        Tok::Op(Op::PathSep),
        Tok::Word(Word::Message),
    ];
    lemma_flat(frame);
    lemma_no_variant_match_balanced(pos, true);
    lemma_cat3(no_variant_match(pos, true), frame, message);
    let ctx = seq![Tok::Word(Word::WithContext)] + grp(
        Delim::Paren,
        no_variant_match(pos, true) + frame + message,
    );
    lemma_flat(seq![Tok::Word(Word::WithContext)]);
    lemma_grp(Delim::Paren, no_variant_match(pos, true) + frame + message);
    lemma_balanced_concat(
        seq![Tok::Word(Word::WithContext)],
        grp(Delim::Paren, no_variant_match(pos, true) + frame + message),
    );
    let err = seq![Tok::Word(Word::ErrCtor)] + grp(Delim::Paren, ctx);
    lemma_flat(seq![Tok::Word(Word::ErrCtor)]);
    lemma_grp(Delim::Paren, ctx);
    lemma_balanced_concat(seq![Tok::Word(Word::ErrCtor)], grp(Delim::Paren, ctx));
    lemma_grp(Delim::Brace, err);
    assert(grp(Delim::Brace, err) =~= repr_fallback(pos));
}

/// The reader of a unit-only enum with a `repr` type is well bracketed.
pub proof fn lemma_unit_enum_repr_balanced(
    reader: Seq<Tok>,
    repr: Seq<Tok>,
    fs: Seq<UnitEnumField>,
    pos: Seq<Tok>,
)
    requires
        balanced(reader),
        balanced(repr),
        forall|i: int| 0 <= i < fs.len() ==> field_balanced(#[trigger] fs[i]),
        balanced(pos),
    ensures
        balanced(unit_enum_repr_code(reader, repr, fs, pos)),
{
    let l1 = seq![Tok::Word(Word::Let), Tok::Word(Word::Temp), Tok::Op(Op::Colon)];
    let l2 = seq![Tok::Op(Op::Assign)];
    let l3 = seq![Tok::Op(Op::Semi)];
    lemma_flat(l1);
    lemma_flat(l2);
    lemma_flat(l3);
    lemma_read_call_balanced(reader);
    lemma_repr_clauses_balanced(fs, repr);
    lemma_repr_fallback_balanced(pos);
    lemma_cat3(l1, repr, l2);
    lemma_cat3(l1 + repr + l2, read_call(reader), l3);
    lemma_cat3(l1 + repr + l2 + read_call(reader) + l3, repr_clauses(fs, repr), repr_fallback(pos));
}

/// A match arm of a magic reader is well bracketed.
pub proof fn lemma_magic_arm_balanced(f: UnitEnumField)
    requires
        field_balanced(f),
    ensures
        balanced(magic_arm(f)),
{
    lemma_ok_self_balanced(f.ident);
    let arrow = seq![Tok::Op(Op::FatArrow)];
    let comma = seq![Tok::Op(Op::Comma)];
    lemma_flat(arrow);
    lemma_flat(comma);
    match f.magic {
        Some(m) => {
            let guard: Seq<Tok> = if f.pre_assertions@.len() == 0 {
                Seq::empty()
            } else {
                seq![Tok::Word(Word::If), Tok::Word(Word::True)] + and_conditions(f.pre_assertions@)
            };
            assert(balanced(guard)) by {
                if f.pre_assertions@.len() == 0 {
                    lemma_empty_balanced();
                } else {
                    lemma_flat(seq![Tok::Word(Word::If), Tok::Word(Word::True)]);
                    lemma_and_conditions_balanced(f.pre_assertions@);
                    lemma_balanced_concat(
                        seq![Tok::Word(Word::If), Tok::Word(Word::True)],
                        and_conditions(f.pre_assertions@),
                    );
                }
            }
            lemma_cat3(m.value.1@, guard, arrow);
            lemma_cat3(m.value.1@ + guard + arrow, ok_self(f.ident), comma);
        },
        None => {
            let head = seq![Tok::Word(Word::Underscore), Tok::Op(Op::FatArrow)];
            lemma_flat(head);
            lemma_cat3(head, ok_self(f.ident), comma);
        },
    }
}

/// Positions into `fs` that hold well bracketed variants.
pub open spec fn positions_balanced(fs: Seq<UnitEnumField>, g: Seq<int>) -> bool {
    forall|j: int| 0 <= j < g.len() ==> 0 <= #[trigger] g[j] < fs.len() && field_balanced(fs[g[j]])
}

/// The arms of a group are well bracketed.
pub proof fn lemma_magic_arms_balanced(fs: Seq<UnitEnumField>, g: Seq<int>)
    requires
        positions_balanced(fs, g),
    ensures
        balanced(magic_arms(fs, g)),
    decreases g.len(),
{
    if g.len() == 0 {
        lemma_empty_balanced();
    } else {
        let pre = g.drop_last();
        assert forall|j: int| 0 <= j < pre.len() implies 0 <= #[trigger] pre[j] < fs.len()
            && field_balanced(fs[pre[j]]) by {
            assert(pre[j] == g[j]);
        }
        lemma_magic_arms_balanced(fs, pre);
        assert(field_balanced(fs[g[g.len() - 1]]));
        lemma_magic_arm_balanced(fs[g.last()]);
        lemma_balanced_concat(magic_arms(fs, pre), magic_arm(fs[g.last()]));
    }
}

/// The match of one group on the value it reads is well bracketed.
pub proof fn lemma_group_match_balanced(
    fs: Seq<UnitEnumField>,
    g: Seq<int>,
    reader: Seq<Tok>,
    pos: Seq<Tok>,
)
    requires
        g.len() > 0,
        positions_balanced(fs, g),
        balanced(reader),
        balanced(pos),
    ensures
        balanced(group_match(fs, g, reader, pos)),
{
    let r = group_ref(fs[g[0]]);
    assert(flat(r)) by {
        if let Some(m) = fs[g[0]].magic {
            assert(r == add_ref_code(m.value.0@));
        }
    }
    lemma_flat(r);
    let m0 = seq![Tok::Word(Word::Match)];
    lemma_flat(m0);
    lemma_read_call_balanced(reader);
    lemma_magic_arms_balanced(fs, g);
    let wild = seq![Tok::Word(Word::Underscore), Tok::Op(Op::FatArrow)];
    lemma_flat(wild);
    lemma_no_variant_match_balanced(pos, false);
    lemma_err_of_balanced(no_variant_match(pos, false));
    let arms = magic_arms(fs, g) + wild + err_of(no_variant_match(pos, false));
    lemma_cat3(magic_arms(fs, g), wild, err_of(no_variant_match(pos, false)));
    lemma_grp(Delim::Brace, arms);
    lemma_cat3(m0, r, read_call(reader));
    lemma_balanced_concat(m0 + r + read_call(reader), grp(Delim::Brace, arms));
    assert(m0 + r + read_call(reader) + grp(Delim::Brace, arms) =~= group_match(fs, g, reader, pos));
}

/// `{ v @ Ok(_) => return v, Err(#TEMP) => { #RESTORE_POSITION_VARIANT(reader,
/// pos, #TEMP)?; } }`
spec fn group_result_arms(reader: Seq<Tok>, pos: Seq<Tok>) -> Seq<Tok> {
    let a1 = seq![Tok::Word(Word::BindingV), Tok::Op(Op::At), Tok::Word(Word::OkCtor)];
    let a2 = seq![Tok::Word(Word::Underscore)];
    let a3 = seq![
        Tok::Op(Op::FatArrow),
        Tok::Word(Word::Return),
        Tok::Word(Word::BindingV),
        Tok::Op(Op::Comma),
        Tok::Word(Word::ErrCtor),
    ];
    let a4 = seq![Tok::Word(Word::Temp)];
    let a5 = seq![Tok::Op(Op::FatArrow)];
    let r1 = seq![Tok::Word(Word::RestorePositionVariant)];
    let rargs = reader + seq![Tok::Op(Op::Comma)] + pos + seq![Tok::Op(Op::Comma), Tok::Word(Word::Temp)];
    let r2 = seq![Tok::Op(Op::Question), Tok::Op(Op::Semi)];
    let restore = grp(Delim::Brace, r1 + grp(Delim::Paren, rargs) + r2);
    grp(Delim::Brace, a1 + grp(Delim::Paren, a2) + a3 + grp(Delim::Paren, a4) + a5 + restore)
}

proof fn lemma_group_result_arms_balanced(reader: Seq<Tok>, pos: Seq<Tok>)
    requires
        balanced(reader),
        balanced(pos),
    ensures
        balanced(group_result_arms(reader, pos)),
{
    let a1 = seq![Tok::Word(Word::BindingV), Tok::Op(Op::At), Tok::Word(Word::OkCtor)];
    let a2 = seq![Tok::Word(Word::Underscore)];
    let a3 = seq![
        Tok::Op(Op::FatArrow),
        Tok::Word(Word::Return),
        Tok::Word(Word::BindingV),
        Tok::Op(Op::Comma),
        Tok::Word(Word::ErrCtor),
    ];
    let a4 = seq![Tok::Word(Word::Temp)];
    let a5 = seq![Tok::Op(Op::FatArrow)];
    let r1 = seq![Tok::Word(Word::RestorePositionVariant)];
    let c = seq![Tok::Op(Op::Comma)];
    let ct = seq![Tok::Op(Op::Comma), Tok::Word(Word::Temp)];
    let rargs = reader + c + pos + ct;
    let r2 = seq![Tok::Op(Op::Question), Tok::Op(Op::Semi)];
    lemma_flat(a1);
    lemma_flat(a2);
    lemma_flat(a3);
    lemma_flat(a4);
    lemma_flat(a5);
    lemma_flat(r1);
    lemma_flat(r2);
    lemma_flat(c);
    lemma_flat(ct);
    lemma_cat3(reader, c, pos);
    lemma_balanced_concat(reader + c + pos, ct);
    lemma_grp(Delim::Paren, rargs);
    lemma_cat3(r1, grp(Delim::Paren, rargs), r2);
    let restore = grp(Delim::Brace, r1 + grp(Delim::Paren, rargs) + r2);
    lemma_grp(Delim::Brace, r1 + grp(Delim::Paren, rargs) + r2);
    lemma_grp(Delim::Paren, a2);
    lemma_grp(Delim::Paren, a4);
    lemma_cat3(a1, grp(Delim::Paren, a2), a3);
    lemma_cat3(a1 + grp(Delim::Paren, a2) + a3, grp(Delim::Paren, a4), a5);
    let body = a1 + grp(Delim::Paren, a2) + a3 + grp(Delim::Paren, a4) + a5 + restore;
    lemma_balanced_concat(a1 + grp(Delim::Paren, a2) + a3 + grp(Delim::Paren, a4) + a5, restore);
    lemma_grp(Delim::Brace, body);
}

/// The attempt of one group is well bracketed.
pub proof fn lemma_group_attempt_balanced(
    fs: Seq<UnitEnumField>,
    g: Seq<int>,
    reader: Seq<Tok>,
    pos: Seq<Tok>,
)
    requires
        g.len() > 0,
        positions_balanced(fs, g),
        balanced(reader),
        balanced(pos),
    ensures
        balanced(group_attempt(fs, g, reader, pos)),
{
    let gm = group_match(fs, g, reader, pos);
    lemma_group_match_balanced(fs, g, reader, pos);
    let m0 = seq![Tok::Word(Word::Match)];
    lemma_flat(m0);
    let pipes = seq![Tok::Op(Op::Pipe), Tok::Op(Op::Pipe)];
    lemma_flat(pipes);
    lemma_grp(Delim::Brace, gm);
    lemma_balanced_concat(pipes, grp(Delim::Brace, gm));
    let closure = grp(Delim::Paren, pipes + grp(Delim::Brace, gm));
    lemma_grp(Delim::Paren, pipes + grp(Delim::Brace, gm));
    lemma_empty_balanced();
    lemma_grp(Delim::Paren, Seq::empty());
    lemma_group_result_arms_balanced(reader, pos);
    lemma_cat3(m0, closure, grp(Delim::Paren, Seq::empty()));
    lemma_balanced_concat(
        m0 + closure + grp(Delim::Paren, Seq::empty()),
        group_result_arms(reader, pos),
    );
    assert(m0 + closure + grp(Delim::Paren, Seq::empty()) + group_result_arms(reader, pos)
        =~= group_attempt(fs, g, reader, pos));
}

/// The attempts of the groups are well bracketed.
pub proof fn lemma_group_attempts_balanced(
    fs: Seq<UnitEnumField>,
    gs: Seq<Seq<int>>,
    reader: Seq<Tok>,
    pos: Seq<Tok>,
)
    requires
        forall|t: int| 0 <= t < gs.len() ==> #[trigger] gs[t].len() > 0 && positions_balanced(fs, gs[t]),
        balanced(reader),
        balanced(pos),
    ensures
        balanced(group_attempts(fs, gs, reader, pos)),
    decreases gs.len(),
{
    if gs.len() == 0 {
        lemma_empty_balanced();
    } else {
        let pre = gs.drop_last();
        assert forall|t: int| 0 <= t < pre.len() implies #[trigger] pre[t].len() > 0 && positions_balanced(fs, pre[t]) by {
            assert(pre[t] == gs[t]);
        }
        lemma_group_attempts_balanced(fs, pre, reader, pos);
        assert(gs[gs.len() - 1].len() > 0);
        lemma_group_attempt_balanced(fs, gs.last(), reader, pos);
        lemma_balanced_concat(group_attempts(fs, pre, reader, pos), group_attempt(fs, gs.last(), reader, pos));
    }
}

/// The reader of a unit-only enum through magic values is well bracketed.
pub proof fn lemma_unit_enum_magic_balanced(reader: Seq<Tok>, fs: Seq<UnitEnumField>, pos: Seq<Tok>)
    requires
        balanced(reader),
        forall|i: int| 0 <= i < fs.len() ==> field_balanced(#[trigger] fs[i]),
        balanced(pos),
    ensures
        balanced(unit_enum_magic_code(reader, fs, pos)),
{
    let ks = field_kinds(fs);
    let gs = group_by_kind(ks);
    lemma_grouping_shape(ks);
    assert forall|t: int| 0 <= t < gs.len() implies #[trigger] gs[t].len() > 0 && positions_balanced(fs, gs[t]) by {
        assert forall|j: int| 0 <= j < gs[t].len() implies 0 <= #[trigger] gs[t][j] < fs.len()
            && field_balanced(fs[gs[t][j]]) by {
            assert(0 <= gs[t][j] < ks.len());
        }
    }
    lemma_group_attempts_balanced(fs, gs, reader, pos);
    lemma_no_variant_match_balanced(pos, false);
    lemma_err_of_balanced(no_variant_match(pos, false));
    lemma_balanced_concat(group_attempts(fs, gs, reader, pos), err_of(no_variant_match(pos, false)));
}

/// Unit-only enums whose `repr` type and variants are well bracketed.
pub open spec fn unit_enum_balanced(en: UnitOnlyEnum) -> bool {
    &&& (en.map matches Mapping::Repr(ty) ==> balanced(ty@))
    &&& forall|i: int| 0 <= i < en.fields@.len() ==> field_balanced(#[trigger] en.fields@[i])
}

/// The reader of a unit-only enum is well bracketed.
pub proof fn lemma_unit_enum_balanced(input: Input, en: UnitOnlyEnum, pos: Seq<Tok>, parts: PreludeParts)
    requires
        input_top_balanced(input),
        unit_enum_balanced(en),
        balanced(pos),
        parts_balanced(parts),
    ensures
        balanced(unit_enum_code(input, en, pos, parts)),
{
    let reader = stream_ident_or_code(input, Word::Reader);
    lemma_stream_ident_balanced(input, Word::Reader);
    lemma_read_prelude_balanced(input, parts, false);
    match en.map {
        Mapping::Repr(ty) => lemma_unit_enum_repr_balanced(reader, ty@, en.fields@, pos),
        _ => lemma_unit_enum_magic_balanced(reader, en.fields@, pos),
    }
    let read = match en.map {
        Mapping::Repr(ty) => unit_enum_repr_code(reader, ty@, en.fields@, pos),
        _ => unit_enum_magic_code(reader, en.fields@, pos),
    };
    lemma_balanced_concat(read_prelude(input, parts, false), read);
}

/// The error basket is well bracketed.
pub proof fn lemma_error_basket_balanced()
    ensures
        balanced(error_basket()),
{
    let l1 = seq![
        Tok::Word(Word::Extern),
        Tok::Word(Word::Crate),
        Tok::Word(Word::Alloc),
        Tok::Op(Op::Semi),
        Tok::Word(Word::Let),
        Tok::Word(Word::Mut),
        Tok::Word(Word::ErrorBasket),
        Tok::Op(Op::Colon),
        Tok::Word(Word::Alloc),
        Tok::Op(Op::PathSep),
        Tok::Word(Word::VecModule),
        Tok::Op(Op::PathSep),
        Tok::Word(Word::VecType),
        Tok::Op(Op::Lt),
    ];
    let l2 = seq![
        Tok::Op(Op::Amp),
        Tok::Word(Word::StaticLifetime),
        Tok::Word(Word::Str),
        Tok::Op(Op::Comma),
        Tok::Word(Word::BinError),
    ];
    let l3 = seq![
        Tok::Op(Op::Gt),
        Tok::Op(Op::Assign),
        Tok::Word(Word::Alloc),
        Tok::Op(Op::PathSep),
        Tok::Word(Word::VecModule),
        Tok::Op(Op::PathSep),
        Tok::Word(Word::VecType),
        Tok::Op(Op::PathSep),
        Tok::Word(Word::New),
    ];
    let l4 = seq![Tok::Op(Op::Semi)];
    lemma_flat(l1);
    lemma_flat(l2);
    lemma_flat(l3);
    lemma_flat(l4);
    lemma_empty_balanced();
    lemma_grp(Delim::Paren, l2);
    lemma_grp(Delim::Paren, Seq::empty());
    lemma_cat3(l1, grp(Delim::Paren, l2), l3);
    lemma_cat3(l1 + grp(Delim::Paren, l2) + l3, grp(Delim::Paren, Seq::empty()), l4);
    assert(l1 + grp(Delim::Paren, l2) + l3 + grp(Delim::Paren, Seq::empty()) + l4 =~= error_basket());
}

/// The error of a data enum is well bracketed.
pub proof fn lemma_data_enum_error_balanced(pos: Seq<Tok>, all: bool)
    requires
        balanced(pos),
    ensures
        balanced(data_enum_error(pos, all)),
{
    if all {
        let l1 = seq![Tok::Word(Word::BinError), Tok::Op(Op::PathSep), Tok::Word(Word::EnumErrors)];
        let l2 = seq![Tok::Word(Word::PosField), Tok::Op(Op::Colon)];
        let l3 = seq![
            Tok::Op(Op::Comma),
            Tok::Word(Word::VariantErrorsField),
            Tok::Op(Op::Colon),
            Tok::Word(Word::ErrorBasket),
        ];
        lemma_flat(l1);
        lemma_flat(l2);
        lemma_flat(l3);
        lemma_cat3(l2, pos, l3);
        lemma_grp(Delim::Brace, l2 + pos + l3);
        lemma_balanced_concat(l1, grp(Delim::Brace, l2 + pos + l3));
        lemma_err_of_balanced(l1 + grp(Delim::Brace, l2 + pos + l3));
        assert(err_of(l1 + grp(Delim::Brace, l2 + pos + l3)) =~= data_enum_error(pos, all));
    } else {
        lemma_no_variant_match_balanced(pos, true);
        lemma_err_of_balanced(no_variant_match(pos, true));
    }
}

/// Keeping a variant's error is well bracketed.
pub proof fn lemma_keep_error_balanced(name: String)
    ensures
        balanced(keep_error(name)),
{
    let l1 = seq![Tok::Word(Word::ErrorBasket), Tok::Op(Op::Dot), Tok::Word(Word::Push)];
    let l2 = seq![Tok::Str(name), Tok::Op(Op::Comma), Tok::Word(Word::Temp)];
    let l3 = seq![Tok::Op(Op::Semi)];
    lemma_flat(l1);
    lemma_flat(l2);
    lemma_flat(l3);
    lemma_grp(Delim::Paren, l2);
    lemma_grp(Delim::Paren, grp(Delim::Paren, l2));
    lemma_cat3(l1, grp(Delim::Paren, grp(Delim::Paren, l2)), l3);
    assert(l1 + grp(Delim::Paren, grp(Delim::Paren, l2)) + l3 =~= keep_error(name));
}

/// The restoring arm of a variant's attempt.
#[verifier::opaque]
spec fn variant_restore(v: EnumVariant, reader: Seq<Tok>, pos: Seq<Tok>, all: bool) -> Seq<Tok> {
    let keep: Seq<Tok> = if all {
        keep_error(v.ident_spec())
    } else {
        Seq::empty()
    };
    let rargs = reader + seq![Tok::Op(Op::Comma)] + pos + seq![
        Tok::Op(Op::Comma),
        Tok::Word(Word::BindingError),
    ];
    let closure = seq![Tok::Op(Op::Pipe), Tok::Word(Word::Temp), Tok::Op(Op::Pipe)] + grp(
        Delim::Brace,
        keep,
    );
    grp(
        Delim::Brace,
        seq![Tok::Word(Word::RestorePositionVariant)] + grp(Delim::Paren, rargs) + seq![
            Tok::Op(Op::Dot),
            Tok::Word(Word::MapMethod),
        ] + grp(Delim::Paren, closure) + seq![Tok::Op(Op::Question), Tok::Op(Op::Semi)],
    )
}

proof fn lemma_variant_restore_balanced(v: EnumVariant, reader: Seq<Tok>, pos: Seq<Tok>, all: bool)
    requires
        balanced(reader),
        balanced(pos),
    ensures
        balanced(variant_restore(v, reader, pos, all)),
{
    reveal(variant_restore);
    let keep: Seq<Tok> = if all {
        keep_error(v.ident_spec())
    } else {
        Seq::empty()
    };
    assert(balanced(keep)) by {
        if all {
            lemma_keep_error_balanced(v.ident_spec());
        } else {
            lemma_empty_balanced();
        }
    }
    let c = seq![Tok::Op(Op::Comma)];
    let cb = seq![Tok::Op(Op::Comma), Tok::Word(Word::BindingError)];
    let rargs = reader + c + pos + cb;
    lemma_flat(c);
    lemma_flat(cb);
    lemma_cat3(reader, c, pos);
    lemma_balanced_concat(reader + c + pos, cb);
    let pipes = seq![Tok::Op(Op::Pipe), Tok::Word(Word::Temp), Tok::Op(Op::Pipe)];
    lemma_flat(pipes);
    lemma_grp(Delim::Brace, keep);
    lemma_balanced_concat(pipes, grp(Delim::Brace, keep));
    let closure = pipes + grp(Delim::Brace, keep);
    let r1 = seq![Tok::Word(Word::RestorePositionVariant)];
    let dm = seq![Tok::Op(Op::Dot), Tok::Word(Word::MapMethod)];
    let qs = seq![Tok::Op(Op::Question), Tok::Op(Op::Semi)];
    lemma_flat(r1);
    lemma_flat(dm);
    lemma_flat(qs);
    lemma_grp(Delim::Paren, rargs);
    lemma_grp(Delim::Paren, closure);
    lemma_cat3(r1, grp(Delim::Paren, rargs), dm);
    lemma_cat3(r1 + grp(Delim::Paren, rargs) + dm, grp(Delim::Paren, closure), qs);
    lemma_grp(Delim::Brace, r1 + grp(Delim::Paren, rargs) + dm + grp(Delim::Paren, closure) + qs);
}

proof fn lemma_variant_attempt_head_shape(body: Seq<Tok>)
    ensures
        variant_attempt_head(body) == seq![Tok::Word(Word::Match)] + grp(
            Delim::Paren,
            seq![Tok::Op(Op::Pipe), Tok::Op(Op::Pipe)] + grp(Delim::Brace, body),
        ) + grp(Delim::Paren, Seq::empty()) + seq![Tok::Open(Delim::Brace)] + seq![
            Tok::Word(Word::BindingOk),
            Tok::Op(Op::At),
            Tok::Word(Word::OkCtor),
        ] + grp(Delim::Paren, seq![Tok::Word(Word::Underscore)]) + seq![
            Tok::Op(Op::FatArrow),
            Tok::Word(Word::Return),
            Tok::Word(Word::BindingOk),
            Tok::Op(Op::Comma),
        ],
{
    assert(variant_attempt_head(body) =~= seq![Tok::Word(Word::Match)] + grp(
        Delim::Paren,
        seq![Tok::Op(Op::Pipe), Tok::Op(Op::Pipe)] + grp(Delim::Brace, body),
    ) + grp(Delim::Paren, Seq::empty()) + seq![Tok::Open(Delim::Brace)] + seq![
        Tok::Word(Word::BindingOk),
        Tok::Op(Op::At),
        Tok::Word(Word::OkCtor),
    ] + grp(Delim::Paren, seq![Tok::Word(Word::Underscore)]) + seq![
        Tok::Op(Op::FatArrow),
        Tok::Word(Word::Return),
        Tok::Word(Word::BindingOk),
        Tok::Op(Op::Comma),
    ]);
}

proof fn lemma_variant_attempt_tail_shape(v: EnumVariant, reader: Seq<Tok>, pos: Seq<Tok>, all: bool)
    ensures
        variant_attempt_tail(v, reader, pos, all) == seq![Tok::Word(Word::ErrCtor)] + grp(
            Delim::Paren,
            seq![Tok::Word(Word::BindingError)],
        ) + seq![Tok::Op(Op::FatArrow)] + variant_restore(v, reader, pos, all) + seq![
            Tok::Close(Delim::Brace),
        ],
{
    reveal(variant_restore);
    assert(variant_attempt_tail(v, reader, pos, all) =~= seq![Tok::Word(Word::ErrCtor)] + grp(
        Delim::Paren,
        seq![Tok::Word(Word::BindingError)],
    ) + seq![Tok::Op(Op::FatArrow)] + variant_restore(v, reader, pos, all) + seq![
        Tok::Close(Delim::Brace),
    ]);
}

/// The attempt at one variant is well bracketed.
pub proof fn lemma_variant_attempt_balanced(
    v: EnumVariant,
    body: Seq<Tok>,
    reader: Seq<Tok>,
    pos: Seq<Tok>,
    all: bool,
)
    requires
        balanced(body),
        balanced(reader),
        balanced(pos),
    ensures
        balanced(variant_attempt(v, body, reader, pos, all)),
{
    let m0 = seq![Tok::Word(Word::Match)];
    let pipes = seq![Tok::Op(Op::Pipe), Tok::Op(Op::Pipe)];
    lemma_flat(m0);
    lemma_flat(pipes);
    lemma_grp(Delim::Brace, body);
    lemma_balanced_concat(pipes, grp(Delim::Brace, body));
    let closure = grp(Delim::Paren, pipes + grp(Delim::Brace, body));
    lemma_grp(Delim::Paren, pipes + grp(Delim::Brace, body));
    lemma_empty_balanced();
    lemma_grp(Delim::Paren, Seq::empty());
    let a1 = seq![Tok::Word(Word::BindingOk), Tok::Op(Op::At), Tok::Word(Word::OkCtor)];
    let a2 = seq![Tok::Word(Word::Underscore)];
    let a3a = seq![
        Tok::Op(Op::FatArrow),
        Tok::Word(Word::Return),
        Tok::Word(Word::BindingOk),
        Tok::Op(Op::Comma),
    ];
    let a3b = seq![Tok::Word(Word::ErrCtor)];
    let a4 = seq![Tok::Word(Word::BindingError)];
    let a5 = seq![Tok::Op(Op::FatArrow)];
    lemma_flat(a1);
    lemma_flat(a2);
    lemma_flat(a3a + a3b);
    lemma_flat(a4);
    lemma_flat(a5);
    lemma_grp(Delim::Paren, a2);
    lemma_grp(Delim::Paren, a4);
    lemma_variant_restore_balanced(v, reader, pos, all);
    let restore = variant_restore(v, reader, pos, all);
    lemma_cat3(a1, grp(Delim::Paren, a2), a3a + a3b);
    lemma_cat3(a1 + grp(Delim::Paren, a2) + (a3a + a3b), grp(Delim::Paren, a4), a5);
    let arms = a1 + grp(Delim::Paren, a2) + (a3a + a3b) + grp(Delim::Paren, a4) + a5 + restore;
    lemma_balanced_concat(
        a1 + grp(Delim::Paren, a2) + (a3a + a3b) + grp(Delim::Paren, a4) + a5,
        restore,
    );
    lemma_grp(Delim::Brace, arms);
    lemma_cat3(m0, closure, grp(Delim::Paren, Seq::empty()));
    lemma_balanced_concat(m0 + closure + grp(Delim::Paren, Seq::empty()), grp(Delim::Brace, arms));
    lemma_variant_attempt_head_shape(body);
    lemma_variant_attempt_tail_shape(v, reader, pos, all);
    assert(variant_attempt_head(body) + variant_attempt_tail(v, reader, pos, all) =~= m0 + closure
        + grp(Delim::Paren, Seq::empty()) + grp(Delim::Brace, arms));
}

/// The attempts at the variants are well bracketed.
pub proof fn lemma_variant_attempts_balanced(
    vs: Seq<EnumVariant>,
    bodies: Seq<Vec<Tok>>,
    reader: Seq<Tok>,
    pos: Seq<Tok>,
    all: bool,
)
    requires
        vs.len() <= bodies.len(),
        forall|i: int| 0 <= i < bodies.len() ==> balanced(#[trigger] bodies[i]@),
        balanced(reader),
        balanced(pos),
    ensures
        balanced(variant_attempts(vs, bodies, reader, pos, all)),
    decreases vs.len(),
{
    if vs.len() == 0 {
        lemma_empty_balanced();
    } else {
        lemma_variant_attempts_balanced(vs.drop_last(), bodies, reader, pos, all);
        let i = vs.len() - 1;
        assert(balanced(bodies[i]@));
        lemma_variant_attempt_balanced(vs.last(), bodies[i]@, reader, pos, all);
        lemma_balanced_concat(
            variant_attempts(vs.drop_last(), bodies, reader, pos, all),
            variant_attempt(vs.last(), bodies[i]@, reader, pos, all),
        );
    }
}

/// The reader of a data enum is well bracketed.
pub proof fn lemma_data_enum_balanced(
    input: Input,
    en: Enum,
    pos: Seq<Tok>,
    parts: PreludeParts,
    bodies: Seq<Vec<Tok>>,
)
    requires
        input_top_balanced(input),
        balanced(pos),
        parts_balanced(parts),
        en.variants@.len() <= bodies.len(),
        forall|i: int| 0 <= i < bodies.len() ==> balanced(#[trigger] bodies[i]@),
    ensures
        balanced(data_enum_code(input, en, pos, parts, bodies)),
{
    let all = returns_all_errors(en.error_mode);
    let reader = stream_ident_or_code(input, Word::Reader);
    lemma_stream_ident_balanced(input, Word::Reader);
    lemma_read_prelude_balanced(input, parts, true);
    let basket: Seq<Tok> = if all {
        error_basket()
    } else {
        Seq::empty()
    };
    assert(balanced(basket)) by {
        if all {
            lemma_error_basket_balanced();
        } else {
            lemma_empty_balanced();
        }
    }
    lemma_variant_attempts_balanced(en.variants@, bodies, reader, pos, all);
    lemma_data_enum_error_balanced(pos, all);
    lemma_cat3(read_prelude(input, parts, true), basket, variant_attempts(en.variants@, bodies, reader, pos, all));
    lemma_balanced_concat(
        read_prelude(input, parts, true) + basket + variant_attempts(en.variants@, bodies, reader, pos, all),
        data_enum_error(pos, all),
    );
}

/// The code of a map directive is well bracketed.
pub open spec fn mapping_balanced(m: Mapping) -> bool {
    match m {
        Mapping::Unmapped => true,
        Mapping::Try(c) => balanced(c@),
        Mapping::Plain(c) => balanced(c@),
        Mapping::Repr(c) => balanced(c@),
    }
}

/// All the code in an input is well bracketed.
pub open spec fn input_balanced(input: Input) -> bool {
    &&& input_top_balanced(input)
    &&& mapping_balanced(input.map)
    &&& (input.shape matches Shape::UnitOnlyEnum(en) ==> unit_enum_balanced(en))
}

/// All the code the other generators hand to a reader is well bracketed.
pub open spec fn read_parts_balanced(parts: ReadParts) -> bool {
    &&& balanced(parts.other@)
    &&& balanced(parts.set_pos@)
    &&& balanced(parts.rewind@)
    &&& forall|i: int|
        0 <= i < parts.variant_bodies@.len() ==> balanced(#[trigger] parts.variant_bodies@[i]@)
}

/// The body of a generated `read_options` is well bracketed whenever the code
/// it is built from is.
pub proof fn law_read_output_balanced(
    input: Input,
    pos: Seq<Tok>,
    prelude: PreludeParts,
    parts: ReadParts,
)
    requires
        input_balanced(input),
        balanced(pos),
        parts_balanced(prelude),
        read_parts_balanced(parts),
        input.shape matches Shape::Enum(en) ==> parts.variant_bodies@.len() == en.variants@.len(),
    ensures
        balanced(
            read_code(
                stream_ident_or_code(input, Word::Reader),
                parts.set_pos@,
                read_body(input, pos, prelude, parts.variant_bodies@, parts.other@),
                parts.rewind@,
            ),
        ),
{
    lemma_stream_ident_balanced(input, Word::Reader);
    match input.shape {
        Shape::UnitOnlyEnum(en) => lemma_unit_enum_balanced(input, en, pos, prelude),
        Shape::Enum(en) => lemma_data_enum_balanced(input, en, pos, prelude, parts.variant_bodies@),
        _ => {},
    }
    lemma_read_code_balanced(
        stream_ident_or_code(input, Word::Reader),
        parts.set_pos@,
        read_body(input, pos, prelude, parts.variant_bodies@, parts.other@),
        parts.rewind@,
    );
}

/// The code of the write prelude is well bracketed.
pub open spec fn write_prelude_balanced(p: WritePrelude) -> bool {
    &&& balanced(p.magic@)
    &&& balanced(p.assertions@)
    &&& balanced(p.endian@)
    &&& balanced(p.imports@)
}

/// The write statement of a mapped type is well bracketed.
pub proof fn lemma_write_data_balanced(mapper: Seq<Tok>, map_try: Seq<Tok>, writer: Seq<Tok>)
    requires
        balanced(mapper),
        balanced(map_try),
        balanced(writer),
    ensures
        balanced(write_data_code(mapper, map_try, writer)),
{
    let sv = seq![Tok::Word(Word::SelfValue)];
    lemma_flat(sv);
    lemma_grp(Delim::Paren, mapper);
    lemma_grp(Delim::Paren, sv);
    lemma_cat3(grp(Delim::Paren, mapper), grp(Delim::Paren, sv), map_try);
    let value = grp(Delim::Paren, grp(Delim::Paren, mapper) + grp(Delim::Paren, sv) + map_try);
    lemma_grp(Delim::Paren, grp(Delim::Paren, mapper) + grp(Delim::Paren, sv) + map_try);
    let amp = seq![Tok::Op(Op::Amp)];
    let c = seq![Tok::Op(Op::Comma)];
    let coc = seq![Tok::Op(Op::Comma), Tok::Word(Word::Opt), Tok::Op(Op::Comma)];
    lemma_flat(amp);
    lemma_flat(c);
    lemma_flat(coc);
    lemma_empty_balanced();
    lemma_grp(Delim::Paren, Seq::empty());
    lemma_cat3(amp, value, c);
    lemma_cat3(amp + value + c, writer, coc);
    lemma_balanced_concat(amp + value + c + writer + coc, grp(Delim::Paren, Seq::empty()));
    let args = amp + value + c + writer + coc + grp(Delim::Paren, Seq::empty());
    lemma_grp(Delim::Paren, args);
    let wm = seq![Tok::Word(Word::WriteMethod)];
    let qs = seq![Tok::Op(Op::Question), Tok::Op(Op::Semi)];
    lemma_flat(wm);
    lemma_flat(qs);
    lemma_cat3(wm, grp(Delim::Paren, args), qs);
    assert(wm + grp(Delim::Paren, args) + qs =~= write_data_code(mapper, map_try, writer));
}

/// The writer of a mapped type is well bracketed.
pub proof fn lemma_map_code_balanced(input: Input, map: Seq<Tok>, map_err: Seq<Tok>, prelude: WritePrelude)
    requires
        opt_balanced(input.stream),
        balanced(map),
        balanced(map_err),
        write_prelude_balanced(prelude),
    ensures
        balanced(map_code(input, map, map_err, prelude)),
{
    let mapper = mapper_code(input.map, map);
    assert(balanced(mapper)) by {
        if input.map is Repr {
            let tail = seq![
                Tok::Word(Word::As),
                Tok::Op(Op::PathSep),
                Tok::Word(Word::Core),
                Tok::Op(Op::PathSep),
                Tok::Word(Word::Convert),
                Tok::Op(Op::PathSep),
                Tok::Word(Word::TryFrom),
                Tok::Op(Op::Lt),
                Tok::Word(Word::Underscore),
                Tok::Op(Op::Gt),
                Tok::Op(Op::Gt),
                Tok::Op(Op::PathSep),
                Tok::Word(Word::TryFromMethod),
            ];
            lemma_flat(seq![Tok::Op(Op::Lt)]);
            lemma_flat(tail);
            lemma_cat3(seq![Tok::Op(Op::Lt)], map, tail);
            assert(seq![Tok::Op(Op::Lt)] + map + tail =~= try_from_code(map));
        }
    }
    let map_try = map_try_code(input.map, map_err);
    assert(balanced(map_try)) by {
        if input.map is Try || input.map is Repr {
            lemma_flat(seq![Tok::Op(Op::Question)]);
            lemma_balanced_concat(map_err, seq![Tok::Op(Op::Question)]);
        } else {
            lemma_empty_balanced();
        }
    }
    let writer = stream_ident_or_code(input, Word::Writer);
    lemma_stream_ident_balanced(input, Word::Writer);
    lemma_write_data_balanced(mapper, map_try, writer);
    lemma_cat3(prelude.imports@, prelude.endian@, prelude.assertions@);
    lemma_cat3(
        prelude.imports@ + prelude.endian@ + prelude.assertions@,
        prelude.magic@,
        write_data_code(mapper, map_try, writer),
    );
}

/// The body of a generated `write_options` is well bracketed whenever the
/// code it is built from is.
pub proof fn law_write_output_balanced(
    input: Input,
    map_err: Seq<Tok>,
    prelude: WritePrelude,
    other: Seq<Tok>,
)
    requires
        opt_balanced(input.stream),
        mapping_balanced(input.map),
        balanced(map_err),
        write_prelude_balanced(prelude),
        balanced(other),
    ensures
        balanced(
            write_code(
                stream_ident_or_code(input, Word::Writer),
                write_body(input, map_err, prelude, other),
            ),
        ),
{
    let writer = stream_ident_or_code(input, Word::Writer);
    lemma_stream_ident_balanced(input, Word::Writer);
    let inner = write_body(input, map_err, prelude, other);
    assert(balanced(inner)) by {
        if let WritePlanView::Mapped(m) = write_plan_of(input) {
            assert(balanced(m));
            lemma_map_code_balanced(input, m, map_err, prelude);
        }
    }
    let l1 = seq![Tok::Word(Word::Let)];
    let l2 = seq![Tok::Op(Op::Assign), Tok::Word(Word::Writer), Tok::Op(Op::Semi)];
    let l3 = seq![
        Tok::Op(Op::PathSep),
        Tok::Word(Word::Core),
        Tok::Op(Op::PathSep),
        Tok::Word(Word::ResultModule),
        Tok::Op(Op::PathSep),
        Tok::Word(Word::ResultType),
        Tok::Op(Op::PathSep),
        Tok::Word(Word::OkCtor),
    ];
    lemma_flat(l1);
    lemma_flat(l2);
    lemma_flat(l3);
    lemma_empty_balanced();
    lemma_grp(Delim::Paren, Seq::empty());
    lemma_grp(Delim::Paren, grp(Delim::Paren, Seq::empty()));
    lemma_stream_position_balanced(Word::Pos, writer);
    lemma_cat3(l1, writer, l2);
    lemma_cat3(l1 + writer + l2, stream_position_code(Word::Pos, writer), inner);
    lemma_cat3(
        l1 + writer + l2 + stream_position_code(Word::Pos, writer) + inner,
        l3,
        grp(Delim::Paren, grp(Delim::Paren, Seq::empty())),
    );
    assert(l1 + writer + l2 + stream_position_code(Word::Pos, writer) + inner + l3 + grp(
        Delim::Paren,
        grp(Delim::Paren, Seq::empty()),
    ) =~= write_code(writer, inner));
}

} // verus!
