//! The body of a generated `BinRead::read_options`: which generator reads the
//! type, the prelude that every reader starts with, and the magic check.
use crate::input::{stream_ident_or_code, Input, Mapping, PosEmitter, Shape};
use crate::read_enum::{data_enum_code, generate_data_enum, generate_unit_enum, unit_enum_code};
use crate::magic::{deref_value_code, Magic};
use crate::tokens::{close, copy_code, extend, op, open, word, Code, Delim, Op, Tok, Word};
use proc_macro2::Span;
use vstd::prelude::*;

verus! {

/// `#ASSERT_MAGIC(reader, magic, endian)?;` for a type with a magic value.
pub open spec fn magic_assertion(magic: Magic, reader: Seq<Tok>, endian: Seq<Tok>) -> Seq<Tok> {
    match magic {
        Some(m) => seq![Tok::Word(Word::AssertMagic), Tok::Open(Delim::Paren)] + reader + seq![
            Tok::Op(Op::Comma),
        ] + deref_value_code(m.value.0@, m.value.1@) + seq![Tok::Op(Op::Comma)] + endian + seq![
            Tok::Close(Delim::Paren),
            Tok::Op(Op::Question),
            Tok::Op(Op::Semi),
        ],
        None => Seq::empty(),
    }
}

/// The check of a magic value, read from `reader_var` with the byte order
/// `endian_var`; `None` where there is no magic.
pub fn get_magic(magic: &Magic, reader_var: &Code, endian_var: &Code) -> (r: Option<Code>)
    ensures
        r is Some <==> magic is Some,
        r matches Some(c) ==> c@ == magic_assertion(*magic, reader_var@, endian_var@),
{
    match magic {
        Some(m) => {
            let value = m.value.deref_value();
            let mut out: Code = Vec::new();
            word(&mut out, Word::AssertMagic);
            open(&mut out, Delim::Paren);
            extend(&mut out, reader_var);
            op(&mut out, Op::Comma);
            extend(&mut out, &value);
            op(&mut out, Op::Comma);
            extend(&mut out, endian_var);
            close(&mut out, Delim::Paren);
            op(&mut out, Op::Question);
            op(&mut out, Op::Semi);
            assert(out@ =~= magic_assertion(*magic, reader_var@, endian_var@));
            Some(out)
        },
        None => None,
    }
}

/// The code that other generators write for the prelude of a reader: the
/// destructured imports (if any), the byte order, and the pre-assertions.
pub struct PreludeParts {
    pub imports: Option<Code>,
    pub endian: Code,
    pub pre_assertions: Code,
}

/// The prelude of a reader: imports, byte order, magic check and
/// pre-assertions, and (where `reset` holds) the position after the magic.
pub open spec fn read_prelude(input: Input, parts: PreludeParts, reset: bool) -> Seq<Tok> {
    let reader = stream_ident_or_code(input, Word::Reader);
    imports_code(parts.imports) + endian_code(parts.endian@) + magic_assertion(
        input.magic,
        reader,
        seq![Tok::Word(Word::Opt)],
    ) + parts.pre_assertions@ + if reset && input.magic is Some {
        stream_position_code(Word::Pos, reader)
    } else {
        Seq::empty()
    }
}

/// Writes the prelude of a reader (see [`read_prelude`]).
pub fn generate_prelude(input: &Input, pos_emitter: &PosEmitter, parts: &PreludeParts, reset: bool) -> (r: Code)
    ensures
        r@ == read_prelude(*input, *parts, reset),
{
    let imports = match &parts.imports {
        Some(i) => Some(copy_code(i)),
        None => None,
    };
    let g = PreludeGenerator::new(input, pos_emitter).add_imports(imports).add_endian(
        &parts.endian,
    ).add_magic_pre_assertion(&parts.pre_assertions);
    let g = if reset {
        g.reset_position_after_magic()
    } else {
        g
    };
    let r = g.finish();
    assert(r@ =~= read_prelude(*input, *parts, reset));
    r
}

fn append_map_stream(out: &mut Code, inner: &Code, map_stream: &Code, outer: &Code, span: Span)
    ensures
        final(out)@ == old(out)@ + map_stream_code(inner@, map_stream@, outer@, span),
{
    out.push(Tok::SpanStart(span));
    word(out, Word::Let);
    out.push(Tok::SpanEnd);
    extend(out, inner);
    out.push(Tok::SpanStart(span));
    op(out, Op::Assign);
    op(out, Op::Amp);
    word(out, Word::Mut);
    out.push(Tok::SpanEnd);
    word(out, Word::MapReaderTypeHint);
    out.push(Tok::SpanStart(span));
    op(out, Op::PathSep);
    op(out, Op::Lt);
    word(out, Word::GenericReader);
    op(out, Op::Comma);
    word(out, Word::Underscore);
    op(out, Op::Comma);
    word(out, Word::Underscore);
    op(out, Op::Gt);
    open(out, Delim::Paren);
    out.push(Tok::SpanEnd);
    extend(out, map_stream);
    out.push(Tok::SpanStart(span));
    close(out, Delim::Paren);
    open(out, Delim::Paren);
    out.push(Tok::SpanEnd);
    extend(out, outer);
    out.push(Tok::SpanStart(span));
    close(out, Delim::Paren);
    op(out, Op::Semi);
    out.push(Tok::SpanEnd);
    assert(out@ =~= old(out)@ + map_stream_code(inner@, map_stream@, outer@, span));
}

/// The statements that start a reader, built up one directive at a time.
pub struct PreludeGenerator<'input> {
    pub input: &'input Input,
    pub reader_var: Code,
    pub out: Code,
    pub pos_emitter: &'input PosEmitter,
}

/// `let imports = #ARGS;` for the destructured imports, if any.
pub open spec fn imports_code(imports: Option<Code>) -> Seq<Tok> {
    match imports {
        Some(i) => seq![Tok::Word(Word::Let)] + i@ + seq![
            Tok::Op(Op::Assign),
            Tok::Word(Word::Args),
            Tok::Op(Op::Semi),
        ],
        None => Seq::empty(),
    }
}

/// `let #OPT = endian;`
pub open spec fn endian_code(endian: Seq<Tok>) -> Seq<Tok> {
    seq![Tok::Word(Word::Let), Tok::Word(Word::Opt), Tok::Op(Op::Assign)] + endian + seq![
        Tok::Op(Op::Semi),
    ]
}

/// `let reader = &mut #MAP_READER_TYPE_HINT::<R, _, _>(map_stream)(outer);`,
/// its own words, punctuation and groups standing at the directive's `span`.
pub open spec fn map_stream_code(
    inner: Seq<Tok>,
    map_stream: Seq<Tok>,
    outer: Seq<Tok>,
    span: Span,
) -> Seq<Tok> {
    seq![Tok::SpanStart(span), Tok::Word(Word::Let), Tok::SpanEnd] + inner + seq![
        Tok::SpanStart(span),
        Tok::Op(Op::Assign),
        Tok::Op(Op::Amp),
        Tok::Word(Word::Mut),
        Tok::SpanEnd,
        Tok::Word(Word::MapReaderTypeHint),
        Tok::SpanStart(span),
        Tok::Op(Op::PathSep),
        Tok::Op(Op::Lt),
        Tok::Word(Word::GenericReader),
        Tok::Op(Op::Comma),
        Tok::Word(Word::Underscore),
        Tok::Op(Op::Comma),
        Tok::Word(Word::Underscore),
        Tok::Op(Op::Gt),
        Tok::Open(Delim::Paren),
        Tok::SpanEnd,
    ] + map_stream + seq![
        Tok::SpanStart(span),
        Tok::Close(Delim::Paren),
        Tok::Open(Delim::Paren),
        Tok::SpanEnd,
    ] + outer + seq![
        Tok::SpanStart(span),
        Tok::Close(Delim::Paren),
        Tok::Op(Op::Semi),
        Tok::SpanEnd,
    ]
}

/// `let #POS = #SEEK_TRAIT::stream_position(reader)?;`
pub open spec fn stream_position_code(pos_var: Word, reader: Seq<Tok>) -> Seq<Tok> {
    seq![
        Tok::Word(Word::Let),
        Tok::Word(pos_var),
        Tok::Op(Op::Assign),
        Tok::Word(Word::SeekTrait),
        Tok::Op(Op::PathSep),
        Tok::Word(Word::StreamPosition),
        Tok::Open(Delim::Paren),
    ] + reader + seq![Tok::Close(Delim::Paren), Tok::Op(Op::Question), Tok::Op(Op::Semi)]
}

impl<'input> PreludeGenerator<'input> {
    /// A generator with nothing written yet, reading from the input's stream.
    pub fn new(input: &'input Input, pos_emitter: &'input PosEmitter) -> (r: Self)
        ensures
            *r.input == *input,
            *r.pos_emitter == *pos_emitter,
            r.reader_var@ == stream_ident_or_code(*input, Word::Reader),
            r.out@ == Seq::<Tok>::empty(),
    {
        let reader_var = input.stream_ident_or(Word::Reader);
        PreludeGenerator { input, reader_var, out: Vec::new(), pos_emitter }
    }

    /// What has been written.
    pub fn finish(self) -> (r: Code)
        ensures
            r == self.out,
    {
        self.out
    }

    /// Binds the destructured imports (as written by the imports generator)
    /// to the arguments.
    pub fn add_imports(self, imports: Option<Code>) -> (r: Self)
        ensures
            r.input == self.input,
            r.pos_emitter == self.pos_emitter,
            r.reader_var == self.reader_var,
            r.out@ == self.out@ + imports_code(imports),
    {
        let mut s = self;
        let ghost imp = imports;
        match imports {
            Some(i) => {
                word(&mut s.out, Word::Let);
                extend(&mut s.out, &i);
                op(&mut s.out, Op::Assign);
                word(&mut s.out, Word::Args);
                op(&mut s.out, Op::Semi);
                assert(s.out@ =~= self.out@ + imports_code(imp));
            },
            None => {
                assert(s.out@ =~= self.out@ + imports_code(imp));
            },
        }
        s
    }

    /// Binds the byte order (as written by the endian generator).
    pub fn add_endian(self, endian: &Code) -> (r: Self)
        ensures
            r.input == self.input,
            r.pos_emitter == self.pos_emitter,
            r.reader_var == self.reader_var,
            r.out@ == self.out@ + endian_code(endian@),
    {
        let mut s = self;
        word(&mut s.out, Word::Let);
        word(&mut s.out, Word::Opt);
        op(&mut s.out, Op::Assign);
        extend(&mut s.out, endian);
        op(&mut s.out, Op::Semi);
        assert(s.out@ =~= self.out@ + endian_code(endian@));
        s
    }

    /// Checks the magic value, then the pre-assertions (as written by the
    /// assertion generator).
    pub fn add_magic_pre_assertion(self, pre_assertions: &Code) -> (r: Self)
        ensures
            r.input == self.input,
            r.pos_emitter == self.pos_emitter,
            r.reader_var == self.reader_var,
            r.out@ == self.out@ + magic_assertion(
                self.input.magic,
                self.reader_var@,
                seq![Tok::Word(Word::Opt)],
            ) + pre_assertions@,
    {
        let mut s = self;
        let mut opt: Code = Vec::new();
        word(&mut opt, Word::Opt);
        let magic = get_magic(s.input.magic(), &s.reader_var, &opt);
        match magic {
            Some(m) => extend(&mut s.out, &m),
            None => {},
        }
        extend(&mut s.out, pre_assertions);
        assert(s.out@ =~= self.out@ + magic_assertion(
            self.input.magic,
            self.reader_var@,
            seq![Tok::Word(Word::Opt)],
        ) + pre_assertions@);
        s
    }

    /// Reads through the mapped stream, where the input maps its stream.
    pub fn add_map_stream(self) -> (r: Self)
        ensures
            r.input == self.input,
            r.pos_emitter == self.pos_emitter,
            r.reader_var == self.reader_var,
            r.out@ == self.out@ + match self.input.map_stream {
                Some(ms) => map_stream_code(
                    self.reader_var@,
                    ms.code@,
                    stream_ident_or_code(*self.input, Word::Reader),
                    ms.span,
                ),
                None => Seq::empty(),
            },
    {
        let mut s = self;
        match s.input.map_stream() {
            Some(ms) => {
                let outer_reader = s.input.stream_ident_or(Word::Reader);
                let span = ms.span;
                append_map_stream(&mut s.out, &s.reader_var, &ms.code, &outer_reader, span);
            },
            None => {
                assert(s.out@ =~= self.out@ + Seq::<Tok>::empty());
            },
        }
        s
    }

    /// Records the position after the magic value, where the input has one.
    pub fn reset_position_after_magic(self) -> (r: Self)
        ensures
            r.input == self.input,
            r.pos_emitter == self.pos_emitter,
            r.reader_var == self.reader_var,
            r.out@ == self.out@ + if self.input.magic is Some {
                stream_position_code(Word::Pos, self.reader_var@)
            } else {
                Seq::empty()
            },
    {
        let mut s = self;
        if s.input.magic().is_some() {
            word(&mut s.out, Word::Let);
            word(&mut s.out, Word::Pos);
            op(&mut s.out, Op::Assign);
            word(&mut s.out, Word::SeekTrait);
            op(&mut s.out, Op::PathSep);
            word(&mut s.out, Word::StreamPosition);
            open(&mut s.out, Delim::Paren);
            extend(&mut s.out, &s.reader_var);
            close(&mut s.out, Delim::Paren);
            op(&mut s.out, Op::Question);
            op(&mut s.out, Op::Semi);
            assert(s.out@ =~= self.out@ + stream_position_code(Word::Pos, self.reader_var@));
        } else {
            assert(s.out@ =~= self.out@ + Seq::<Tok>::empty());
        }
        s
    }
}

/// Which generator reads a type.
pub enum ReadPlan {
    UnitStruct,
    Struct,
    DataEnum,
    UnitEnum,
    /// Read another type and convert it with the given fallible function.
    TryMapped(Code),
    /// Read another type and convert it with the given function.
    Mapped(Code),
}

/// [`ReadPlan`] with its code as a sequence of tokens.
pub enum ReadPlanView {
    UnitStruct,
    Struct,
    DataEnum,
    UnitEnum,
    TryMapped(Seq<Tok>),
    Mapped(Seq<Tok>),
}

impl View for ReadPlan {
    type V = ReadPlanView;

    open spec fn view(&self) -> ReadPlanView {
        match self {
            ReadPlan::UnitStruct => ReadPlanView::UnitStruct,
            ReadPlan::Struct => ReadPlanView::Struct,
            ReadPlan::DataEnum => ReadPlanView::DataEnum,
            ReadPlan::UnitEnum => ReadPlanView::UnitEnum,
            ReadPlan::TryMapped(c) => ReadPlanView::TryMapped(c@),
            ReadPlan::Mapped(c) => ReadPlanView::Mapped(c@),
        }
    }
}

/// `<ty as core::convert::TryInto<_>>::try_into`
pub open spec fn try_into_code(ty: Seq<Tok>) -> Seq<Tok> {
    seq![Tok::Op(Op::Lt)] + ty + seq![
        Tok::Word(Word::As),
        Tok::Word(Word::Core),
        Tok::Op(Op::PathSep),
        Tok::Word(Word::Convert),
        Tok::Op(Op::PathSep),
        Tok::Word(Word::TryInto),
        Tok::Op(Op::Lt),
        Tok::Word(Word::Underscore),
        Tok::Op(Op::Gt),
        Tok::Op(Op::Gt),
        Tok::Op(Op::PathSep),
        Tok::Word(Word::TryIntoMethod),
    ]
}

/// Which generator reads a type: a type without a map directive by the
/// generator of its shape; `try_map` and `map` through the conversion; `repr`
/// as a unit enum for a unit-only enum, and otherwise through a fallible
/// conversion from the `repr` type.
pub open spec fn read_plan_of(input: Input) -> ReadPlanView {
    match input.map {
        Mapping::Unmapped => match input.shape {
            Shape::UnitStruct => ReadPlanView::UnitStruct,
            Shape::Struct => ReadPlanView::Struct,
            Shape::Enum(_) => ReadPlanView::DataEnum,
            Shape::UnitOnlyEnum(_) => ReadPlanView::UnitEnum,
        },
        Mapping::Try(m) => ReadPlanView::TryMapped(m@),
        Mapping::Plain(m) => ReadPlanView::Mapped(m@),
        Mapping::Repr(ty) => match input.shape {
            Shape::UnitOnlyEnum(_) => ReadPlanView::UnitEnum,
            _ => ReadPlanView::TryMapped(try_into_code(ty@)),
        },
    }
}

/// Chooses the generator that reads a type (see [`read_plan_of`]).
pub fn read_plan(input: &Input) -> (r: ReadPlan)
    ensures
        r@ == read_plan_of(*input),
{
    match &input.map {
        Mapping::Unmapped => match &input.shape {
            Shape::UnitStruct => ReadPlan::UnitStruct,
            Shape::Struct => ReadPlan::Struct,
            Shape::Enum(_) => ReadPlan::DataEnum,
            Shape::UnitOnlyEnum(_) => ReadPlan::UnitEnum,
        },
        Mapping::Try(m) => ReadPlan::TryMapped(copy_code(m)),
        Mapping::Plain(m) => ReadPlan::Mapped(copy_code(m)),
        Mapping::Repr(ty) => match &input.shape {
            Shape::UnitOnlyEnum(_) => ReadPlan::UnitEnum,
            _ => {
                let mut c: Code = Vec::new();
                op(&mut c, Op::Lt);
                extend(&mut c, ty);
                word(&mut c, Word::As);
                word(&mut c, Word::Core);
                op(&mut c, Op::PathSep);
                word(&mut c, Word::Convert);
                op(&mut c, Op::PathSep);
                word(&mut c, Word::TryInto);
                op(&mut c, Op::Lt);
                word(&mut c, Word::Underscore);
                op(&mut c, Op::Gt);
                op(&mut c, Op::Gt);
                op(&mut c, Op::PathSep);
                word(&mut c, Word::TryIntoMethod);
                assert(c@ =~= try_into_code(ty@));
                ReadPlan::TryMapped(c)
            },
        },
    }
}

/// The body that reads the type: written here for enums, and otherwise the
/// code `other` that the struct and map readers write.
pub open spec fn read_body(
    input: Input,
    pos: Seq<Tok>,
    parts: PreludeParts,
    bodies: Seq<Code>,
    other: Seq<Tok>,
) -> Seq<Tok> {
    match (read_plan_of(input), input.shape) {
        (ReadPlanView::UnitEnum, Shape::UnitOnlyEnum(en)) => unit_enum_code(input, en, pos, parts),
        (ReadPlanView::DataEnum, Shape::Enum(en)) => data_enum_code(input, en, pos, parts, bodies),
        _ => other,
    }
}

/// `let reader = #READER; set_pos (|| { inner })() rewind`
pub open spec fn read_code(reader: Seq<Tok>, set_pos: Seq<Tok>, inner: Seq<Tok>, rewind: Seq<Tok>) -> Seq<Tok> {
    seq![Tok::Word(Word::Let)] + reader + seq![
        Tok::Op(Op::Assign),
        Tok::Word(Word::Reader),
        Tok::Op(Op::Semi),
    ] + set_pos + seq![
        Tok::Open(Delim::Paren),
        Tok::Op(Op::Pipe),
        Tok::Op(Op::Pipe),
        Tok::Open(Delim::Brace),
    ] + inner + seq![
        Tok::Close(Delim::Brace),
        Tok::Close(Delim::Paren),
        Tok::Open(Delim::Paren),
        Tok::Close(Delim::Paren),
    ] + rewind
}

/// The code that other generators write for the body of a reader: each data
/// enum variant's reader, the reader of structs and mapped types, and the code
/// that saves and restores the position.
pub struct ReadParts {
    pub variant_bodies: Vec<Code>,
    pub other: Code,
    pub set_pos: Code,
    pub rewind: Code,
}

/// Writes the body of `BinRead::read_options` for a type: its reader (see
/// [`read_body`]) inside a closure, between saving and restoring the position.
pub fn generate(input: &Input, pos_emitter: &PosEmitter, prelude: &PreludeParts, parts: &ReadParts) -> (r:
    Code)
    requires
        input.shape matches Shape::Enum(en) ==> parts.variant_bodies@.len() == en.variants@.len(),
    ensures
        r@ == read_code(
            stream_ident_or_code(*input, Word::Reader),
            parts.set_pos@,
            read_body(*input, pos_emitter.pos@, *prelude, parts.variant_bodies@, parts.other@),
            parts.rewind@,
        ),
{
    let reader_var = input.stream_ident_or(Word::Reader);
    let plan = read_plan(input);
    let inner = match (plan, &input.shape) {
        (ReadPlan::UnitEnum, Shape::UnitOnlyEnum(en)) => generate_unit_enum(input, en, pos_emitter, prelude),
        (ReadPlan::DataEnum, Shape::Enum(en)) => generate_data_enum(
            input,
            en,
            pos_emitter,
            prelude,
            &parts.variant_bodies,
        ),
        _ => copy_code(&parts.other),
    };
    let mut out: Code = Vec::new();
    word(&mut out, Word::Let);
    extend(&mut out, &reader_var);
    op(&mut out, Op::Assign);
    word(&mut out, Word::Reader);
    op(&mut out, Op::Semi);
    extend(&mut out, &parts.set_pos);
    open(&mut out, Delim::Paren);
    op(&mut out, Op::Pipe);
    op(&mut out, Op::Pipe);
    open(&mut out, Delim::Brace);
    extend(&mut out, &inner);
    close(&mut out, Delim::Brace);
    close(&mut out, Delim::Paren);
    open(&mut out, Delim::Paren);
    close(&mut out, Delim::Paren);
    extend(&mut out, &parts.rewind);
    assert(out@ =~= read_code(
        stream_ident_or_code(*input, Word::Reader),
        parts.set_pos@,
        read_body(*input, pos_emitter.pos@, *prelude, parts.variant_bodies@, parts.other@),
        parts.rewind@,
    ));
    out
}

} // verus!
