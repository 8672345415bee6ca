//! The body of a generated `BinWrite::write_options`: which generator writes
//! the type, and the writer of types with a `map`, `try_map` or `repr`
//! directive.
use crate::input::{stream_ident_or_code, Input, Mapping, Shape};
use crate::read_options::stream_position_code;
use crate::tokens::{close, copy_code, extend, op, open, word, Code, Delim, Op, Tok, Word};
use vstd::prelude::*;

verus! {

/// Which generator writes a type.
pub enum WritePlan {
    Struct,
    DataEnum,
    UnitEnum,
    /// Convert the value with the given function (or through the given
    /// `repr` type), then write the result.
    Mapped(Code),
}

/// [`WritePlan`] with its code as a sequence of tokens.
pub enum WritePlanView {
    Struct,
    DataEnum,
    UnitEnum,
    Mapped(Seq<Tok>),
}

impl View for WritePlan {
    type V = WritePlanView;

    open spec fn view(&self) -> WritePlanView {
        match self {
            WritePlan::Struct => WritePlanView::Struct,
            WritePlan::DataEnum => WritePlanView::DataEnum,
            WritePlan::UnitEnum => WritePlanView::UnitEnum,
            WritePlan::Mapped(c) => WritePlanView::Mapped(c@),
        }
    }
}

/// Which generator writes a type: a type without a map directive by the
/// generator of its shape (unit and other structs alike); `try_map` and `map`
/// through the conversion; `repr` as a unit enum for a unit-only enum, and
/// otherwise through the conversion to the `repr` type.
pub open spec fn write_plan_of(input: Input) -> WritePlanView {
    match input.map {
        Mapping::Unmapped => match input.shape {
            Shape::UnitStruct | Shape::Struct => WritePlanView::Struct,
            Shape::Enum(_) => WritePlanView::DataEnum,
            Shape::UnitOnlyEnum(_) => WritePlanView::UnitEnum,
        },
        Mapping::Try(m) | Mapping::Plain(m) => WritePlanView::Mapped(m@),
        Mapping::Repr(ty) => match input.shape {
            Shape::UnitOnlyEnum(_) => WritePlanView::UnitEnum,
            _ => WritePlanView::Mapped(ty@),
        },
    }
}

/// Chooses the generator that writes a type (see [`write_plan_of`]).
pub fn write_plan(input: &Input) -> (r: WritePlan)
    ensures
        r@ == write_plan_of(*input),
{
    match &input.map {
        Mapping::Unmapped => match &input.shape {
            Shape::UnitStruct | Shape::Struct => WritePlan::Struct,
            Shape::Enum(_) => WritePlan::DataEnum,
            Shape::UnitOnlyEnum(_) => WritePlan::UnitEnum,
        },
        Mapping::Try(m) | Mapping::Plain(m) => WritePlan::Mapped(copy_code(m)),
        Mapping::Repr(ty) => match &input.shape {
            Shape::UnitOnlyEnum(_) => WritePlan::UnitEnum,
            _ => WritePlan::Mapped(copy_code(ty)),
        },
    }
}

/// The code that each step of the write prelude puts in front of the body, as
/// the prelude generator writes it: the magic value, the assertions, the byte
/// order, and the imports.
pub struct WritePrelude {
    pub magic: Code,
    pub assertions: Code,
    pub endian: Code,
    pub imports: Code,
}

/// `<repr as ::core::convert::TryFrom<_>>::try_from`
pub open spec fn try_from_code(ty: Seq<Tok>) -> Seq<Tok> {
    seq![Tok::Op(Op::Lt)] + ty + seq![
        Tok::Word(Word::As),
        Tok::Op(Op::PathSep),
        Tok::Word(Word::Core),
        Tok::Op(Op::PathSep),
        Tok::Word(Word::Convert),
        Tok::Op(Op::PathSep),
        Tok::Word(Word::TryFrom),
        Tok::Op(Op::Lt),
        Tok::Word(Word::Underscore),
        Tok::Op(Op::Gt),
        Tok::Op(Op::Gt),
        Tok::Op(Op::PathSep),
        Tok::Word(Word::TryFromMethod),
    ]
}

/// The function that converts the value: the `repr` type's `TryFrom`, or the
/// given function.
pub open spec fn mapper_code(map: Mapping, f: Seq<Tok>) -> Seq<Tok> {
    if map is Repr {
        try_from_code(f)
    } else {
        f
    }
}

/// `map_err?` after a fallible conversion (`try_map`, or the `TryFrom` of a
/// `repr` type), nothing after an infallible one.
pub open spec fn map_try_code(map: Mapping, map_err: Seq<Tok>) -> Seq<Tok> {
    if map is Try || map is Repr {
        map_err + seq![Tok::Op(Op::Question)]
    } else {
        Seq::empty()
    }
}

/// `#WRITE_METHOD(&((mapper)(self) map_try), writer, #OPT, ())?;`
pub open spec fn write_data_code(mapper: Seq<Tok>, map_try: Seq<Tok>, writer: Seq<Tok>) -> Seq<Tok> {
    seq![
        Tok::Word(Word::WriteMethod),
        Tok::Open(Delim::Paren),
        Tok::Op(Op::Amp),
        Tok::Open(Delim::Paren),
        Tok::Open(Delim::Paren),
    ] + mapper + seq![
        Tok::Close(Delim::Paren),
        Tok::Open(Delim::Paren),
        Tok::Word(Word::SelfValue),
        Tok::Close(Delim::Paren),
    ] + map_try + seq![Tok::Close(Delim::Paren), Tok::Op(Op::Comma)] + writer + seq![
        Tok::Op(Op::Comma),
        Tok::Word(Word::Opt),
        Tok::Op(Op::Comma),
        Tok::Open(Delim::Paren),
        Tok::Close(Delim::Paren),
        Tok::Close(Delim::Paren),
        Tok::Op(Op::Question),
        Tok::Op(Op::Semi),
    ]
}

/// The writer of a mapped type: the prelude, then the converted value written.
pub open spec fn map_code(input: Input, map: Seq<Tok>, map_err: Seq<Tok>, prelude: WritePrelude) -> Seq<Tok> {
    prelude.imports@ + prelude.endian@ + prelude.assertions@ + prelude.magic@ + write_data_code(
        mapper_code(input.map, map),
        map_try_code(input.map, map_err),
        stream_ident_or_code(input, Word::Writer),
    )
}

fn map_try_of(input: &Input, map_err: &Code) -> (r: Code)
    ensures
        r@ == map_try_code(input.map, map_err@),
{
    let mut map_try: Code = Vec::new();
    if input.map().is_try() {
        extend(&mut map_try, map_err);
        op(&mut map_try, Op::Question);
    }
    assert(map_try@ =~= map_try_code(input.map, map_err@));
    map_try
}

fn mapper_of(input: &Input, map: &Code) -> (r: Code)
    ensures
        r@ == mapper_code(input.map, map@),
{
    let mut mapper: Code = Vec::new();
    if input.map().is_repr() {
        op(&mut mapper, Op::Lt);
        extend(&mut mapper, map);
        word(&mut mapper, Word::As);
        op(&mut mapper, Op::PathSep);
        word(&mut mapper, Word::Core);
        op(&mut mapper, Op::PathSep);
        word(&mut mapper, Word::Convert);
        op(&mut mapper, Op::PathSep);
        word(&mut mapper, Word::TryFrom);
        op(&mut mapper, Op::Lt);
        word(&mut mapper, Word::Underscore);
        op(&mut mapper, Op::Gt);
        op(&mut mapper, Op::Gt);
        op(&mut mapper, Op::PathSep);
        word(&mut mapper, Word::TryFromMethod);
    } else {
        extend(&mut mapper, map);
    }
    assert(mapper@ =~= mapper_code(input.map, map@));
    mapper
}

fn append_write_data(out: &mut Code, mapper: &Code, map_try: &Code, writer: &Code)
    ensures
        final(out)@ == old(out)@ + write_data_code(mapper@, map_try@, writer@),
{
    word(out, Word::WriteMethod);
    open(out, Delim::Paren);
    op(out, Op::Amp);
    open(out, Delim::Paren);
    open(out, Delim::Paren);
    extend(out, mapper);
    close(out, Delim::Paren);
    open(out, Delim::Paren);
    word(out, Word::SelfValue);
    close(out, Delim::Paren);
    extend(out, map_try);
    close(out, Delim::Paren);
    op(out, Op::Comma);
    extend(out, writer);
    op(out, Op::Comma);
    word(out, Word::Opt);
    op(out, Op::Comma);
    open(out, Delim::Paren);
    close(out, Delim::Paren);
    close(out, Delim::Paren);
    op(out, Op::Question);
    op(out, Op::Semi);
    assert(out@ =~= old(out)@ + write_data_code(mapper@, map_try@, writer@));
}

/// Writes the writer of a type with a map directive (see [`map_code`]):
/// `map` is the conversion function (or the `repr` type), and `map_err` the
/// code that the error mapper writes for a fallible conversion.
pub fn generate_map(input: &Input, map: &Code, map_err: &Code, prelude: &WritePrelude) -> (r: Code)
    ensures
        r@ == map_code(*input, map@, map_err@, *prelude),
{
    let map_try = map_try_of(input, map_err);
    let mapper = mapper_of(input, map);
    let writer_var = input.stream_ident_or(Word::Writer);
    let mut out: Code = Vec::new();
    extend(&mut out, &prelude.imports);
    extend(&mut out, &prelude.endian);
    extend(&mut out, &prelude.assertions);
    extend(&mut out, &prelude.magic);
    append_write_data(&mut out, &mapper, &map_try, &writer_var);
    assert(out@ =~= map_code(*input, map@, map_err@, *prelude));
    out
}

/// `let writer = #WRITER; let #POS = #SEEK_TRAIT::stream_position(writer)?;
/// inner ::core::result::Result::Ok(())`
pub open spec fn write_code(writer: Seq<Tok>, inner: Seq<Tok>) -> Seq<Tok> {
    seq![Tok::Word(Word::Let)] + writer + seq![
        Tok::Op(Op::Assign),
        Tok::Word(Word::Writer),
        Tok::Op(Op::Semi),
    ] + stream_position_code(Word::Pos, writer) + inner + seq![
        Tok::Op(Op::PathSep),
        Tok::Word(Word::Core),
        Tok::Op(Op::PathSep),
        Tok::Word(Word::ResultModule),
        Tok::Op(Op::PathSep),
        Tok::Word(Word::ResultType),
        Tok::Op(Op::PathSep),
        Tok::Word(Word::OkCtor),
        Tok::Open(Delim::Paren),
        Tok::Open(Delim::Paren),
        Tok::Close(Delim::Paren),
        Tok::Close(Delim::Paren),
    ]
}

/// The body that writes the type: written here for mapped types, and
/// otherwise the code `other` that the struct and enum writers write.
pub open spec fn write_body(
    input: Input,
    map_err: Seq<Tok>,
    prelude: WritePrelude,
    other: Seq<Tok>,
) -> Seq<Tok> {
    match write_plan_of(input) {
        WritePlanView::Mapped(m) => map_code(input, m, map_err, prelude),
        _ => other,
    }
}

fn append_write_start(out: &mut Code, writer: &Code)
    ensures
        final(out)@ == old(out)@ + seq![Tok::Word(Word::Let)] + writer@ + seq![
            Tok::Op(Op::Assign),
            Tok::Word(Word::Writer),
            Tok::Op(Op::Semi),
        ] + stream_position_code(Word::Pos, writer@),
{
    word(out, Word::Let);
    extend(out, writer);
    op(out, Op::Assign);
    word(out, Word::Writer);
    op(out, Op::Semi);
    word(out, Word::Let);
    word(out, Word::Pos);
    op(out, Op::Assign);
    word(out, Word::SeekTrait);
    op(out, Op::PathSep);
    word(out, Word::StreamPosition);
    open(out, Delim::Paren);
    extend(out, writer);
    close(out, Delim::Paren);
    op(out, Op::Question);
    op(out, Op::Semi);
    assert(out@ =~= old(out)@ + seq![Tok::Word(Word::Let)] + writer@ + seq![
        Tok::Op(Op::Assign),
        Tok::Word(Word::Writer),
        Tok::Op(Op::Semi),
    ] + stream_position_code(Word::Pos, writer@));
}

fn append_write_end(out: &mut Code)
    ensures
        final(out)@ == old(out)@ + seq![
            Tok::Op(Op::PathSep),
            Tok::Word(Word::Core),
            Tok::Op(Op::PathSep),
            Tok::Word(Word::ResultModule),
            Tok::Op(Op::PathSep),
            Tok::Word(Word::ResultType),
            Tok::Op(Op::PathSep),
            Tok::Word(Word::OkCtor),
            Tok::Open(Delim::Paren),
            Tok::Open(Delim::Paren),
            Tok::Close(Delim::Paren),
            Tok::Close(Delim::Paren),
        ],
{
    op(out, Op::PathSep);
    word(out, Word::Core);
    op(out, Op::PathSep);
    word(out, Word::ResultModule);
    op(out, Op::PathSep);
    word(out, Word::ResultType);
    op(out, Op::PathSep);
    word(out, Word::OkCtor);
    open(out, Delim::Paren);
    open(out, Delim::Paren);
    close(out, Delim::Paren);
    close(out, Delim::Paren);
}

/// Writes the body of `BinWrite::write_options` for a type: its writer (see
/// [`write_body`]) after the start position is recorded.
pub fn generate(input: &Input, map_err: &Code, prelude: &WritePrelude, other: &Code) -> (r: Code)
    ensures
        r@ == write_code(
            stream_ident_or_code(*input, Word::Writer),
            write_body(*input, map_err@, *prelude, other@),
        ),
{
    let inner = match write_plan(input) {
        WritePlan::Mapped(m) => generate_map(input, &m, map_err, prelude),
        _ => copy_code(other),
    };
    let writer_var = input.stream_ident_or(Word::Writer);
    let mut out: Code = Vec::new();
    append_write_start(&mut out, &writer_var);
    extend(&mut out, &inner);
    append_write_end(&mut out);
    assert(out@ =~= write_code(
        stream_ident_or_code(*input, Word::Writer),
        write_body(*input, map_err@, *prelude, other@),
    ));
    out
}

} // verus!
