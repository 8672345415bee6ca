//! How generated code is spelled, and the check that it is well bracketed,
//! for turning it into the compiler's tokens.
use crate::tokens::{balanced, lemma_run_concat, run, Code, Delim, Op, Tok, Word};
use vstd::prelude::*;

verus! {

/// How a fixed word is spelled in generated code.
pub open spec fn word_spelling(w: Word) -> Seq<char> {
    match w {
        Word::Let => "let"@,
        Word::Mut => "mut"@,
        Word::Match => "match"@,
        Word::If => "if"@,
        Word::Else => "else"@,
        Word::Return => "return"@,
        Word::As => "as"@,
        Word::SelfValue => "self"@,
        Word::SelfType => "Self"@,
        Word::True => "true"@,
        Word::Extern => "extern"@,
        Word::Crate => "crate"@,
        Word::Alloc => "alloc"@,
        Word::Core => "core"@,
        Word::Str => "str"@,
        Word::StaticLifetime => "'static"@,
        Word::Underscore => "_"@,
        Word::GenericReader => "R"@,
        Word::OkCtor => "Ok"@,
        Word::ErrCtor => "Err"@,
        Word::ResultType => "Result"@,
        Word::ResultModule => "result"@,
        Word::Convert => "convert"@,
        Word::TryInto => "TryInto"@,
        Word::TryIntoMethod => "try_into"@,
        Word::TryFrom => "TryFrom"@,
        Word::TryFromMethod => "try_from"@,
        Word::VecModule => "vec"@,
        Word::VecType => "Vec"@,
        Word::New => "new"@,
        Word::Format => "format"@,
        Word::Into => "into"@,
        Word::MapMethod => "map"@,
        Word::Push => "push"@,
        Word::BindingV => "v"@,
        Word::BindingOk => "ok"@,
        Word::BindingError => "error"@,
        Word::PosField => "pos"@,
        Word::VariantErrorsField => "variant_errors"@,
        Word::NoVariantMatch => "NoVariantMatch"@,
        Word::EnumErrors => "EnumErrors"@,
        Word::Message => "Message"@,
        Word::StreamPosition => "stream_position"@,
        Word::Reader => "__binrw_generated_var_reader"@,
        Word::Writer => "__binrw_generated_var_writer"@,
        Word::Opt => "__binrw_generated_var_endian"@,
        Word::Args => "__binrw_generated_var_arguments"@,
        Word::Pos => "__binrw_generated_position_temp"@,
        Word::Temp => "__binrw_temp"@,
        Word::ErrorBasket => "__binrw_generated_error_basket"@,
        Word::AssertMagic => "::binrw::__private::magic"@,
        Word::ReadMethod => "::binrw::BinRead::read_options"@,
        Word::WriteMethod => "::binrw::BinWrite::write_options"@,
        Word::BinError => "::binrw::Error"@,
        Word::WithContext => "::binrw::__private::with_context"@,
        Word::BacktraceFrame => "::binrw::error::BacktraceFrame"@,
        Word::RestorePositionVariant => "::binrw::__private::restore_position_variant"@,
        Word::SeekTrait => "::binrw::io::Seek"@,
        Word::MapReaderTypeHint => "::binrw::__private::map_reader_type_hint"@,
    }
}

/// The spelling of a fixed word (see [`word_spelling`]).
pub fn word_text(w: Word) -> (r: &'static str)
    ensures
        r@ == word_spelling(w),
{
    match w {
        Word::Let => "let",
        Word::Mut => "mut",
        Word::Match => "match",
        Word::If => "if",
        Word::Else => "else",
        Word::Return => "return",
        Word::As => "as",
        Word::SelfValue => "self",
        Word::SelfType => "Self",
        Word::True => "true",
        Word::Extern => "extern",
        Word::Crate => "crate",
        Word::Alloc => "alloc",
        Word::Core => "core",
        Word::Str => "str",
        Word::StaticLifetime => "'static",
        Word::Underscore => "_",
        Word::GenericReader => "R",
        Word::OkCtor => "Ok",
        Word::ErrCtor => "Err",
        Word::ResultType => "Result",
        Word::ResultModule => "result",
        Word::Convert => "convert",
        Word::TryInto => "TryInto",
        Word::TryIntoMethod => "try_into",
        Word::TryFrom => "TryFrom",
        Word::TryFromMethod => "try_from",
        Word::VecModule => "vec",
        Word::VecType => "Vec",
        Word::New => "new",
        Word::Format => "format",
        Word::Into => "into",
        Word::MapMethod => "map",
        Word::Push => "push",
        Word::BindingV => "v",
        Word::BindingOk => "ok",
        Word::BindingError => "error",
        Word::PosField => "pos",
        Word::VariantErrorsField => "variant_errors",
        Word::NoVariantMatch => "NoVariantMatch",
        Word::EnumErrors => "EnumErrors",
        Word::Message => "Message",
        Word::StreamPosition => "stream_position",
        Word::Reader => "__binrw_generated_var_reader",
        Word::Writer => "__binrw_generated_var_writer",
        Word::Opt => "__binrw_generated_var_endian",
        Word::Args => "__binrw_generated_var_arguments",
        Word::Pos => "__binrw_generated_position_temp",
        Word::Temp => "__binrw_temp",
        Word::ErrorBasket => "__binrw_generated_error_basket",
        Word::AssertMagic => "::binrw::__private::magic",
        Word::ReadMethod => "::binrw::BinRead::read_options",
        Word::WriteMethod => "::binrw::BinWrite::write_options",
        Word::BinError => "::binrw::Error",
        Word::WithContext => "::binrw::__private::with_context",
        Word::BacktraceFrame => "::binrw::error::BacktraceFrame",
        Word::RestorePositionVariant => "::binrw::__private::restore_position_variant",
        Word::SeekTrait => "::binrw::io::Seek",
        Word::MapReaderTypeHint => "::binrw::__private::map_reader_type_hint",
    }
}

/// How punctuation is spelled.
pub open spec fn op_spelling(o: Op) -> Seq<char> {
    match o {
        Op::Assign => "="@,
        Op::Semi => ";"@,
        Op::Colon => ":"@,
        Op::PathSep => "::"@,
        Op::Comma => ","@,
        Op::Amp => "&"@,
        Op::Star => "*"@,
        Op::Question => "?"@,
        Op::FatArrow => "=>"@,
        Op::AndAnd => "&&"@,
        Op::EqEq => "=="@,
        Op::Pipe => "|"@,
        Op::At => "@"@,
        Op::Lt => "<"@,
        Op::Gt => ">"@,
        Op::Dot => "."@,
        Op::Bang => "!"@,
    }
}

/// The spelling of punctuation (see [`op_spelling`]).
pub fn op_text(o: Op) -> (r: &'static str)
    ensures
        r@ == op_spelling(o),
{
    match o {
        Op::Assign => "=",
        Op::Semi => ";",
        Op::Colon => ":",
        Op::PathSep => "::",
        Op::Comma => ",",
        Op::Amp => "&",
        Op::Star => "*",
        Op::Question => "?",
        Op::FatArrow => "=>",
        Op::AndAnd => "&&",
        Op::EqEq => "==",
        Op::Pipe => "|",
        Op::At => "@",
        Op::Lt => "<",
        Op::Gt => ">",
        Op::Dot => ".",
        Op::Bang => "!",
    }
}

/// Whether every group of `code` is opened and closed by the same delimiter
/// and every opened group is closed.
pub fn is_balanced(code: &Code) -> (r: bool)
    ensures
        r == balanced(code@),
{
    let mut open: Vec<Delim> = Vec::new();
    let mut i: usize = 0;
    assert(code@.take(0) =~= Seq::<Tok>::empty());
    while i < code.len()
        invariant
            i <= code@.len(),
            run(code@.take(i as int), Seq::empty()) == Some(open@),
        decreases code.len() - i,
    {
        proof {
            reveal_with_fuel(run, 2);
            assert(code@.take(i + 1) =~= code@.take(i as int) + seq![code@[i as int]]);
            lemma_run_concat(code@.take(i as int), seq![code@[i as int]], Seq::empty());
            assert(seq![code@[i as int]].drop_first() =~= Seq::<Tok>::empty());
            assert(code@.take(i + 1) + code@.skip(i + 1) =~= code@);
            lemma_run_concat(code@.take(i + 1), code@.skip(i + 1), Seq::empty());
        }
        match &code[i] {
            Tok::Open(d) => open.push(*d),
            Tok::Close(d) => {
                if open.len() > 0 && open[open.len() - 1] == *d {
                    let _ = open.pop();
                } else {
                    return false;
                }
            },
            _ => {},
        }
        i += 1;
    }
    assert(code@.take(code.len() as int) =~= code@);
    assert(open@.len() == 0 ==> open@ =~= Seq::<Delim>::empty());
    open.len() == 0
}

} // verus!
