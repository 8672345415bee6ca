use binrw_codegen::input::{Enum, EnumErrorMode, EnumVariant, Input, Mapping, Shape};
use binrw_codegen::tokens::{Code, Delim, Op, Tok, Word};
use binrw_codegen::write_options::{generate, write_plan, WritePlan, WritePrelude};
use proc_macro2::TokenStream;

fn stream(src: &str) -> Code {
    vec![Tok::Stream(src.parse::<TokenStream>().unwrap())]
}

fn show(code: &[Tok]) -> String {
    let parts: Vec<String> = code
        .iter()
        .map(|t| match t {
            Tok::Word(w) => format!("{:?}", w),
            Tok::Ident(s) => s.clone(),
            Tok::Str(s) => format!("{:?}", s),
            Tok::Text(t) => format!("{:?}", t),
            Tok::Op(o) => op_text(*o).to_string(),
            Tok::Open(Delim::Paren) => "(".to_string(),
            Tok::Open(Delim::Brace) => "{".to_string(),
            Tok::Open(Delim::Bracket) => "[".to_string(),
            Tok::Close(Delim::Paren) => ")".to_string(),
            Tok::Close(Delim::Brace) => "}".to_string(),
            Tok::Close(Delim::Bracket) => "]".to_string(),
            Tok::Stream(ts) => ts.to_string(),
            Tok::SpanStart(_) => "[[".to_string(),
            Tok::SpanEnd => "]]".to_string(),
        })
        .collect();
    parts.join(" ")
}

fn op_text(o: Op) -> &'static str {
    match o {
        Op::Assign => "=",
        Op::Semi => ";",
        Op::Colon => ":",
        Op::PathSep => "::",
        Op::Comma => ",",
        Op::Amp => "&",
        Op::Star => "*",
        Op::Question => "?",
        Op::FatArrow => "=>",
        Op::AndAnd => "&&",
        Op::EqEq => "==",
        Op::Pipe => "|",
        Op::At => "@",
        Op::Lt => "<",
        Op::Gt => ">",
        Op::Dot => ".",
        Op::Bang => "!",
    }
}

fn no_prelude() -> WritePrelude {
    WritePrelude { magic: Vec::new(), assertions: Vec::new(), endian: Vec::new(), imports: Vec::new() }
}

const REPR_U8_BODY: &str = "Let Writer = Writer ; Let Pos = SeekTrait :: StreamPosition ( Writer ) ? ; \
WriteMethod ( & ( ( < u8 As :: Core :: Convert :: TryFrom < Underscore > > :: TryFromMethod ) ( SelfValue ) . map_err (f) ? ) , Writer , Opt , ( ) ) ? ; \
:: Core :: ResultModule :: ResultType :: OkCtor ( ( ) )";

#[test]
fn map_repr_enum() {
    let input = Input {
        shape: Shape::Enum(Enum {
            ident: Some("Test".to_string()),
            assertions: Vec::new(),
            error_mode: EnumErrorMode::Default,
            variants: vec![EnumVariant::Variant { ident: "SubTest".to_string() }],
        }),
        map: Mapping::Repr(stream("u8")),
        stream: None,
        magic: None,
        map_stream: None,
    };
    match write_plan(&input) {
        WritePlan::Mapped(ty) => assert_eq!(show(&ty), "u8"),
        _ => panic!("a data enum with a repr type is written through the repr type"),
    }
    let out = generate(&input, &stream(". map_err (f)"), &no_prelude(), &stream("unused"));
    assert_eq!(show(&out), REPR_U8_BODY);
    assert!(!show(&out).contains("unused"));
    assert!(matches!(out[0], Tok::Word(Word::Let)));
}

#[test]
fn map_repr_struct() {
    let input = Input {
        shape: Shape::Struct,
        map: Mapping::Repr(stream("u8")),
        stream: None,
        magic: None,
        map_stream: None,
    };
    match write_plan(&input) {
        WritePlan::Mapped(ty) => assert_eq!(show(&ty), "u8"),
        _ => panic!("a struct with a repr type is written through the repr type"),
    }
    let out = generate(&input, &stream(". map_err (f)"), &no_prelude(), &stream("unused"));
    assert_eq!(show(&out), REPR_U8_BODY);
}
