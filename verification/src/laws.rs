//! Properties that hold across the generators.
use crate::grouping::group_by_kind;
use crate::input::{stream_ident_or_code, Assert, Enum, Input, Mapping, Shape};
use crate::magic::{
    add_ref_code, classify, decimal, deref_value_code, digit_char,
    kind_type_text, KindView, LitShape,
};
use crate::input::{EnumErrorMode, EnumVariant, UnitEnumField};
use crate::read_enum::{
    and_conditions, data_enum_code, data_enum_error, group_attempt, group_attempts, magic_arm,
    magic_arms, no_variant_match, repr_clause, repr_clauses, returns_all_errors, unit_enum_code,
    variant_attempt, variant_attempts,
};
use crate::read_options::{
    endian_code, imports_code, magic_assertion, read_body, read_plan_of, read_prelude,
    stream_position_code, try_into_code, PreludeParts, ReadPlanView,
};
use crate::spelling::op_spelling;
use crate::tokens::{ascii_digits, plain_ident, surely_lexes, Code, Delim, Op, Tok, Word};
use crate::write_options::{
    map_try_code, mapper_code, try_from_code, write_body, write_plan_of, WritePlanView,
    WritePrelude,
};
use vstd::prelude::*;

verus! {

/// Reading and writing agree on how a type is handled: by the unit enum
/// generator, by the data enum generator, by the struct generators, or
/// through a conversion.
pub proof fn law_read_write_agree(input: Input)
    ensures
        read_plan_of(input) is UnitEnum <==> write_plan_of(input) is UnitEnum,
        read_plan_of(input) is DataEnum <==> write_plan_of(input) is DataEnum,
        (read_plan_of(input) is UnitStruct || read_plan_of(input) is Struct) <==> write_plan_of(
            input,
        ) is Struct,
        (read_plan_of(input) is TryMapped || read_plan_of(input) is Mapped) <==> write_plan_of(
            input,
        ) is Mapped,
{
}

/// A `repr` type on anything but a unit-only enum is a pair of fallible
/// conversions: the value is read as the `repr` type and converted with
/// `TryInto`, and converted to the `repr` type with `TryFrom`, its error
/// mapped and propagated, to be written.
pub proof fn law_repr_converts_both_ways(input: Input, ty: Vec<Tok>, map_err: Seq<Tok>)
    requires
        input.map == Mapping::Repr(ty),
        !(input.shape is UnitOnlyEnum),
    ensures
        read_plan_of(input) == ReadPlanView::TryMapped(try_into_code(ty@)),
        write_plan_of(input) == WritePlanView::Mapped(ty@),
        mapper_code(input.map, ty@) == try_from_code(ty@),
        map_try_code(input.map, map_err) == map_err + seq![Tok::Op(Op::Question)],
{
}

/// A unit-only enum is read as a unit enum, with or without a `repr` type, and
/// the same holds for writing.
pub proof fn law_unit_enums_stay_unit_enums(input: Input)
    requires
        input.shape is UnitOnlyEnum,
        input.map is Unmapped || input.map is Repr,
    ensures
        read_plan_of(input) is UnitEnum,
        write_plan_of(input) is UnitEnum,
{
}

/// When every variant after the first is a wildcard or has the first
/// variant's magic type, the magic is read once: there is one group.
pub proof fn law_one_magic_type_one_group(ks: Seq<Option<KindView>>)
    requires
        ks.len() > 0,
        forall|i: int| 0 < i < ks.len() ==> (#[trigger] ks[i] is None || ks[i] == ks[0]),
    ensures
        group_by_kind(ks) == seq![Seq::new(ks.len(), |i: int| i)],
    decreases ks.len(),
{
    let pks = ks.drop_last();
    let prev = group_by_kind(pks);
    let n = ks.len() - 1;
    if ks.len() == 1 {
        assert(prev.len() == 0);
        assert(group_by_kind(ks) == prev.push(seq![n]));
        assert(seq![0int] =~= Seq::new(1, |i: int| i));
    } else {
        assert forall|i: int| 0 < i < pks.len() implies (#[trigger] pks[i] is None || pks[i]
            == pks[0]) by {
            assert(pks[i] == ks[i]);
        }
        law_one_magic_type_one_group(pks);
        assert(prev.len() == 1);
        assert(prev.last() == Seq::new(pks.len(), |i: int| i));
        assert(prev.last()[0] == 0);
        assert(ks[n] is None || ks[n] == ks[0]);
        assert(group_by_kind(ks) == prev.update(0, prev.last().push(n)));
        assert(prev.last().push(n) =~= Seq::new(ks.len(), |i: int| i));
        assert(prev.update(0, prev.last().push(n)) =~= seq![Seq::new(ks.len(), |i: int| i)]);
    }
}

/// When every variant has a magic value and each one's type differs from the
/// one before it, each variant reads its own magic: every group holds one
/// variant.
pub proof fn law_changing_magic_types_separate(ks: Seq<Option<KindView>>)
    requires
        forall|i: int| 0 <= i < ks.len() ==> #[trigger] ks[i] is Some,
        forall|i: int| 0 < i < ks.len() ==> #[trigger] ks[i] != ks[i - 1],
    ensures
        group_by_kind(ks) == Seq::new(ks.len(), |i: int| seq![i]),
    decreases ks.len(),
{
    if ks.len() > 0 {
        let pks = ks.drop_last();
        assert forall|i: int| 0 <= i < pks.len() implies #[trigger] pks[i] is Some by {
            assert(pks[i] == ks[i]);
        }
        assert forall|i: int| 0 < i < pks.len() implies #[trigger] pks[i] != pks[i - 1] by {
            assert(pks[i] == ks[i]);
            assert(pks[i - 1] == ks[i - 1]);
        }
        law_changing_magic_types_separate(pks);
        let prev = group_by_kind(pks);
        let n = ks.len() - 1;
        assert(ks[n] is Some);
        if prev.len() > 0 {
            assert(prev.last() == seq![n - 1]);
            assert(ks[n] != ks[n - 1]);
        }
        assert(prev.push(seq![n]) =~= Seq::new(ks.len(), |i: int| seq![i]));
    }
}

/// A magic value is matched by reference exactly when its expression is
/// dereferenced: byte strings are both, numbers neither.
pub proof fn law_ref_matches_deref(k: KindView, value: Seq<Tok>)
    ensures
        add_ref_code(k) =~= seq![Tok::Op(Op::Amp)] <==> deref_value_code(k, value) =~= seq![
            Tok::Op(Op::Star),
        ] + value,
        add_ref_code(k).len() == 0 <==> deref_value_code(k, value) =~= value,
{
    if k is Numeric {
        assert(!(value =~= seq![Tok::Op(Op::Star)] + value)) by {
            assert((seq![Tok::Op(Op::Star)] + value).len() != value.len());
        }
    } else {
        assert(!(seq![Tok::Op(Op::Star)] + value =~= value)) by {
            assert((seq![Tok::Op(Op::Star)] + value).len() != value.len());
        }
    }
}

/// The value of a decimal digit character.
pub open spec fn digit_value(c: char) -> nat {
    if c == '0' { 0 }
    else if c == '1' { 1 }
    else if c == '2' { 2 }
    else if c == '3' { 3 }
    else if c == '4' { 4 }
    else if c == '5' { 5 }
    else if c == '6' { 6 }
    else if c == '7' { 7 }
    else if c == '8' { 8 }
    else { 9 }
}

/// The number that a sequence of decimal digits denotes.
pub open spec fn decimal_value(s: Seq<char>) -> nat
    decreases s.len(),
{
    if s.len() == 0 {
        0
    } else {
        decimal_value(s.drop_last()) * 10 + digit_value(s.last())
    }
}

/// The length written into the type of a byte string magic denotes the
/// length of the byte string, without leading zeros.
pub proof fn law_decimal_denotes(n: nat)
    ensures
        decimal_value(decimal(n)) == n,
        decimal(n).len() > 0,
        n > 0 ==> decimal(n)[0] != '0',
        decimal(n).len() > 1 ==> decimal(n)[0] != '0',
    decreases n,
{
    if n >= 10 {
        law_decimal_denotes(n / 10);
        let d = decimal(n);
        assert(d == decimal(n / 10).push(digit_char(n % 10)));
        assert(d.drop_last() =~= decimal(n / 10));
        assert(d.last() == digit_char(n % 10));
        assert(digit_value(digit_char(n % 10)) == n % 10);
        assert(decimal_value(d) == decimal_value(decimal(n / 10)) * 10 + n % 10);
        assert(n == (n / 10) * 10 + n % 10);
        assert(d[0] == decimal(n / 10)[0]);
    } else {
        assert(decimal(n) == seq![digit_char(n)]);
        assert(decimal(n).drop_last() =~= Seq::<char>::empty());
        assert(decimal_value(Seq::<char>::empty()) == 0);
        assert(digit_value(digit_char(n)) == n);
        assert(decimal_value(decimal(n)) == decimal_value(decimal(n).drop_last()) * 10
            + digit_value(decimal(n).last()));
    }
}

/// Every data enum reader, whatever its error mode, starts with the reader's
/// prelude and records the position right after the magic check: when a
/// variant fails, the reader is rewound to just after the enum's magic, not
/// to before it.
pub proof fn law_data_enum_rewinds_after_magic(
    input: Input,
    en: Enum,
    pos: Seq<Tok>,
    parts: PreludeParts,
    bodies: Seq<Code>,
)
    ensures
        ({
            let reader = stream_ident_or_code(input, Word::Reader);
            let head = imports_code(parts.imports) + endian_code(parts.endian@) + magic_assertion(
                input.magic,
                reader,
                seq![Tok::Word(Word::Opt)],
            ) + parts.pre_assertions@;
            let head = if input.magic is Some {
                head + stream_position_code(Word::Pos, reader)
            } else {
                head
            };
            head.is_prefix_of(data_enum_code(input, en, pos, parts, bodies))
        }),
{
    let code = data_enum_code(input, en, pos, parts, bodies);
    let p = read_prelude(input, parts, true);
    assert(code.subrange(0, p.len() as int) =~= p);
}

/// Two data enums that differ only in their error mode start with the same
/// prelude.
pub proof fn law_data_enum_prelude_ignores_error_mode(
    input: Input,
    en1: Enum,
    en2: Enum,
    pos: Seq<Tok>,
    parts: PreludeParts,
    bodies: Seq<Code>,
)
    ensures
        ({
            let c1 = data_enum_code(input, en1, pos, parts, bodies);
            let c2 = data_enum_code(input, en2, pos, parts, bodies);
            let n = read_prelude(input, parts, true).len();
            n <= c1.len() && n <= c2.len() && c1.subrange(0, n as int) == c2.subrange(0, n as int)
        }),
{
    let p = read_prelude(input, parts, true);
    let c1 = data_enum_code(input, en1, pos, parts, bodies);
    let c2 = data_enum_code(input, en2, pos, parts, bodies);
    assert(c1.subrange(0, p.len() as int) =~= p);
    assert(c2.subrange(0, p.len() as int) =~= p);
}

/// The guard of no assertions is empty.
pub proof fn law_and_conditions_empty()
    ensures
        and_conditions(Seq::<Assert>::empty()) == Seq::<Tok>::empty(),
{
}

/// One more assertion adds `&& (condition)` after the guard of the others:
/// every assertion is checked, in order.
pub proof fn law_and_conditions_push(a: Seq<Assert>, x: Assert)
    ensures
        and_conditions(a.push(x)) == and_conditions(a) + seq![
            Tok::Op(Op::AndAnd),
            Tok::Open(Delim::Paren),
        ] + x.condition@ + seq![Tok::Close(Delim::Paren)],
{
    assert(a.push(x).drop_last() =~= a);
}

/// The guard of two lists of assertions, one after the other, is the guard of
/// the first followed by the guard of the second.
pub proof fn law_and_conditions_concat(a: Seq<Assert>, b: Seq<Assert>)
    ensures
        and_conditions(a + b) == and_conditions(a) + and_conditions(b),
    decreases b.len(),
{
    if b.len() == 0 {
        assert(a + b =~= a);
        assert(and_conditions(a) + Seq::<Tok>::empty() =~= and_conditions(a));
    } else {
        let b0 = b.drop_last();
        let x = b.last();
        law_and_conditions_concat(a, b0);
        assert(a + b =~= (a + b0).push(x));
        assert(b =~= b0.push(x));
        law_and_conditions_push(a + b0, x);
        law_and_conditions_push(b0, x);
        assert(and_conditions(a + b) =~= and_conditions(a) + and_conditions(b));
    }
}

/// The guard's length: every assertion contributes its condition and the
/// three tokens `&& ( )`.
pub open spec fn conditions_len(a: Seq<Assert>) -> int
    decreases a.len(),
{
    if a.len() == 0 {
        0
    } else {
        conditions_len(a.drop_last()) + a.last().condition@.len() + 3
    }
}

/// The guard holds every condition: its length is the conditions' lengths
/// plus three tokens each.
pub proof fn law_and_conditions_len(a: Seq<Assert>)
    ensures
        and_conditions(a).len() == conditions_len(a),
    decreases a.len(),
{
    if a.len() > 0 {
        law_and_conditions_len(a.drop_last());
    }
}

/// Punctuation is spelled as the Rust operator that it names: each one-char
/// operator is its character, and each two-char operator is spelled by two
/// of the one-char ones.
pub proof fn law_op_spellings()
    ensures
        op_spelling(Op::Assign) == seq!['='],
        op_spelling(Op::Semi) == seq![';'],
        op_spelling(Op::Colon) == seq![':'],
        op_spelling(Op::Comma) == seq![','],
        op_spelling(Op::Amp) == seq!['&'],
        op_spelling(Op::Star) == seq!['*'],
        op_spelling(Op::Question) == seq!['?'],
        op_spelling(Op::Pipe) == seq!['|'],
        op_spelling(Op::At) == seq!['@'],
        op_spelling(Op::Lt) == seq!['<'],
        op_spelling(Op::Gt) == seq!['>'],
        op_spelling(Op::Dot) == seq!['.'],
        op_spelling(Op::Bang) == seq!['!'],
        op_spelling(Op::EqEq) == op_spelling(Op::Assign) + op_spelling(Op::Assign),
        op_spelling(Op::AndAnd) == op_spelling(Op::Amp) + op_spelling(Op::Amp),
        op_spelling(Op::PathSep) == op_spelling(Op::Colon) + op_spelling(Op::Colon),
        op_spelling(Op::FatArrow) == op_spelling(Op::Assign) + op_spelling(Op::Gt),
        forall|a: Op, b: Op| a != b ==> op_spelling(a) != op_spelling(b),
{
    reveal_strlit("=");
    reveal_strlit(";");
    reveal_strlit(":");
    reveal_strlit("::");
    reveal_strlit(",");
    reveal_strlit("&");
    reveal_strlit("*");
    reveal_strlit("?");
    reveal_strlit("=>");
    reveal_strlit("&&");
    reveal_strlit("==");
    reveal_strlit("|");
    reveal_strlit("@");
    reveal_strlit("<");
    reveal_strlit(">");
    reveal_strlit(".");
    reveal_strlit("!");
    assert(op_spelling(Op::EqEq) =~= op_spelling(Op::Assign) + op_spelling(Op::Assign));
    assert(op_spelling(Op::AndAnd) =~= op_spelling(Op::Amp) + op_spelling(Op::Amp));
    assert(op_spelling(Op::PathSep) =~= op_spelling(Op::Colon) + op_spelling(Op::Colon));
    assert(op_spelling(Op::FatArrow) =~= op_spelling(Op::Assign) + op_spelling(Op::Gt));
    assert forall|a: Op, b: Op| a != b implies op_spelling(a) != op_spelling(b) by {
        if op_spelling(a) == op_spelling(b) {
            assert(op_spelling(a).len() == op_spelling(b).len());
            assert(op_spelling(a)[0] == op_spelling(b)[0]);
            if op_spelling(a).len() == 2 {
                assert(op_spelling(a)[1] == op_spelling(b)[1]);
            }
        }
    }
}

/// The decimal representation of a number is a run of digits.
pub proof fn law_decimal_is_digits(n: nat)
    ensures
        ascii_digits(decimal(n)),
    decreases n,
{
    if n >= 10 {
        law_decimal_is_digits(n / 10);
        let d = decimal(n);
        assert(d == decimal(n / 10).push(digit_char(n % 10)));
        assert forall|i: int| 0 <= i < d.len() implies '0' <= #[trigger] d[i] && d[i] <= '9' by {
            if i < d.len() - 1 {
                assert(d[i] == decimal(n / 10)[i]);
            }
        }
    } else {
        assert(decimal(n) == seq![digit_char(n)]);
    }
}

/// The type of every accepted magic literal is a text that every lexer
/// accepts, whatever the literal's kind, provided a number's suffix is an
/// ASCII identifier (such as `u16` or `f32`): so its type tokens are produced
/// for numbers as for byte strings (see `Kind::to_token_stream`).
pub proof fn law_magic_types_lex(lit: LitShape)
    requires
        classify(lit) is Ok,
        lit matches LitShape::Int { suffix, .. } ==> plain_ident(suffix@),
        lit matches LitShape::Float { suffix, .. } ==> plain_ident(suffix@),
    ensures
        surely_lexes(kind_type_text(classify(lit)->Ok_0)),
{
    match lit {
        LitShape::ByteStr { len } => {
            law_decimal_is_digits(len as nat);
            let d = decimal(len as nat);
            assert(kind_type_text(classify(lit)->Ok_0) == "[::core::primitive::u8; "@ + d + "]"@);
        },
        _ => {},
    }
}

/// A data enum or a unit-only enum is read by the reader this library writes
/// for it, whatever the struct and map readers write: their code is not used.
pub proof fn law_read_body_of_enums(
    input: Input,
    pos: Seq<Tok>,
    parts: PreludeParts,
    bodies: Seq<Code>,
    other1: Seq<Tok>,
    other2: Seq<Tok>,
)
    ensures
        (read_plan_of(input) is DataEnum || read_plan_of(input) is UnitEnum) ==> read_body(
            input,
            pos,
            parts,
            bodies,
            other1,
        ) == read_body(input, pos, parts, bodies, other2),
        input.map is Unmapped ==> (input.shape matches Shape::Enum(en) ==> read_body(
            input,
            pos,
            parts,
            bodies,
            other1,
        ) == data_enum_code(input, en, pos, parts, bodies)),
        (input.map is Unmapped || input.map is Repr) ==> (input.shape matches Shape::UnitOnlyEnum(en)
            ==> read_body(input, pos, parts, bodies, other1) == unit_enum_code(
            input,
            en,
            pos,
            parts,
        )),
{
}

/// Structs and mapped types are read by the code the struct and map readers
/// write for them.
pub proof fn law_read_body_of_others(
    input: Input,
    pos: Seq<Tok>,
    parts: PreludeParts,
    bodies: Seq<Code>,
    other: Seq<Tok>,
)
    requires
        input.shape is UnitStruct || input.shape is Struct || input.map is Try || input.map is Plain,
    ensures
        read_body(input, pos, parts, bodies, other) == other,
{
}

/// A mapped type is written by the writer this library writes for it,
/// whatever the struct and enum writers write; other types by theirs.
pub proof fn law_write_body(input: Input, map_err: Seq<Tok>, prelude: WritePrelude, other1: Seq<Tok>, other2: Seq<Tok>)
    ensures
        (input.map is Try || input.map is Plain || (input.map is Repr && !(input.shape is UnitOnlyEnum)))
            ==> write_body(input, map_err, prelude, other1) == write_body(input, map_err, prelude, other2),
        (input.map is Unmapped || (input.map is Repr && input.shape is UnitOnlyEnum)) ==> write_body(
            input,
            map_err,
            prelude,
            other1,
        ) == other1,
{
}

/// A unit-only enum read through its `repr` type compares the value against
/// the variants in declaration order: one more variant adds its clause after
/// the others'.
pub proof fn law_repr_clauses_in_order(fs: Seq<UnitEnumField>, f: UnitEnumField, repr: Seq<Tok>)
    ensures
        repr_clauses(fs.push(f), repr) == repr_clauses(fs, repr) + repr_clause(f, repr),
{
    assert(fs.push(f).drop_last() =~= fs);
}

/// The arms of a magic group are the arms of its variants in the group's
/// order: one more position adds its variant's arm last.
pub proof fn law_magic_arms_in_order(fs: Seq<UnitEnumField>, g: Seq<int>, i: int)
    ensures
        magic_arms(fs, g.push(i)) == magic_arms(fs, g) + magic_arm(fs[i]),
{
    assert(g.push(i).drop_last() =~= g);
}

/// The groups of a unit-only enum are tried in order: one more group adds its
/// attempt last.
pub proof fn law_group_attempts_in_order(
    fs: Seq<UnitEnumField>,
    gs: Seq<Seq<int>>,
    g: Seq<int>,
    reader: Seq<Tok>,
    pos: Seq<Tok>,
)
    ensures
        group_attempts(fs, gs.push(g), reader, pos) == group_attempts(fs, gs, reader, pos)
            + group_attempt(fs, g, reader, pos),
{
    assert(gs.push(g).drop_last() =~= gs);
}

/// The variants of a data enum are tried in declaration order, each with its
/// own body: one more variant adds its attempt, with the body at its
/// position, last.
pub proof fn law_variant_attempts_in_order(
    vs: Seq<EnumVariant>,
    v: EnumVariant,
    bodies: Seq<Code>,
    reader: Seq<Tok>,
    pos: Seq<Tok>,
    all: bool,
)
    ensures
        variant_attempts(vs.push(v), bodies, reader, pos, all) == variant_attempts(
            vs,
            bodies,
            reader,
            pos,
            all,
        ) + variant_attempt(v, bodies[vs.len() as int]@, reader, pos, all),
{
    assert(vs.push(v).drop_last() =~= vs);
}

/// Every variant's error is kept, and reported with the others, exactly in the
/// default mode and when all errors are asked for; otherwise the reader only
/// reports that no variant matched.
pub proof fn law_error_modes(pos: Seq<Tok>)
    ensures
        returns_all_errors(EnumErrorMode::Default),
        returns_all_errors(EnumErrorMode::ReturnAllErrors),
        !returns_all_errors(EnumErrorMode::ReturnUnexpectedError),
        data_enum_error(pos, false) == seq![Tok::Word(Word::ErrCtor), Tok::Open(Delim::Paren)]
            + no_variant_match(pos, true) + seq![Tok::Close(Delim::Paren)],
        data_enum_error(pos, true).contains(Tok::Word(Word::EnumErrors)),
        data_enum_error(pos, true).contains(Tok::Word(Word::ErrorBasket)),
{
    let e = data_enum_error(pos, true);
    assert(e[2] == Tok::Word(Word::BinError));
    assert(e[4] == Tok::Word(Word::EnumErrors));
    let n: int = 11 + pos.len() as int;
    assert(e[n] == Tok::Word(Word::ErrorBasket));
}

} // verus!
