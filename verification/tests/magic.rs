use binrw_codegen::magic::{
    append_decimal, classify_magic, magic_attr, Inner, Kind, LitShape, MagicAttr, SpannedValue,
};
use binrw_codegen::tokens::{Code, Delim, Op, Tok};
use proc_macro2::{Span, TokenStream};

fn show(code: &[Tok]) -> String {
    let parts: Vec<String> = code
        .iter()
        .map(|t| match t {
            Tok::Word(w) => format!("{:?}", w),
            Tok::Ident(s) => s.clone(),
            Tok::Str(s) => format!("{:?}", s),
            Tok::Text(t) => format!("{:?}", t),
            Tok::Op(o) => op_text(*o).to_string(),
            Tok::Open(d) => open_text(*d).to_string(),
            Tok::Close(d) => close_text(*d).to_string(),
            Tok::Stream(ts) => ts.to_string(),
            Tok::SpanStart(_) => "[[".to_string(),
            Tok::SpanEnd => "]]".to_string(),
        })
        .collect();
    parts.join(" ")
}

fn op_text(o: Op) -> &'static str {
    match o {
        Op::Assign => "=",
        Op::Semi => ";",
        Op::Colon => ":",
        Op::PathSep => "::",
        Op::Comma => ",",
        Op::Amp => "&",
        Op::Star => "*",
        Op::Question => "?",
        Op::FatArrow => "=>",
        Op::AndAnd => "&&",
        Op::EqEq => "==",
        Op::Pipe => "|",
        Op::At => "@",
        Op::Lt => "<",
        Op::Gt => ">",
        Op::Dot => ".",
        Op::Bang => "!",
    }
}

fn open_text(d: Delim) -> &'static str {
    match d {
        Delim::Paren => "(",
        Delim::Brace => "{",
        Delim::Bracket => "[",
    }
}

fn close_text(d: Delim) -> &'static str {
    match d {
        Delim::Paren => ")",
        Delim::Brace => "}",
        Delim::Bracket => "]",
    }
}

fn stream(src: &str) -> Code {
    vec![Tok::Stream(src.parse::<TokenStream>().unwrap())]
}

fn kind_text(k: &Kind) -> (bool, String) {
    match k {
        Kind::Numeric(t) => (false, t.clone()),
        Kind::ByteStr(t) => (true, t.clone()),
    }
}

#[test]
fn byte_string_magic_is_a_byte_array() {
    let k = classify_magic(&LitShape::ByteStr { len: 4 }).unwrap();
    assert_eq!(kind_text(&k), (true, "[::core::primitive::u8; 4]".to_string()));
    let k = classify_magic(&LitShape::ByteStr { len: 0 }).unwrap();
    assert_eq!(kind_text(&k), (true, "[::core::primitive::u8; 0]".to_string()));
    let k = classify_magic(&LitShape::ByteStr { len: 1234 }).unwrap();
    assert_eq!(kind_text(&k), (true, "[::core::primitive::u8; 1234]".to_string()));
}

#[test]
fn byte_magic_is_u8() {
    let k = classify_magic(&LitShape::Byte).unwrap();
    assert_eq!(kind_text(&k), (false, "::core::primitive::u8".to_string()));
}

#[test]
fn suffixed_numbers_take_their_suffix() {
    let k = classify_magic(&LitShape::Int { suffix: "u32".to_string(), text: "7u32".to_string() })
        .unwrap();
    assert_eq!(kind_text(&k), (false, "u32".to_string()));
    let k = classify_magic(&LitShape::Float { suffix: "f64".to_string(), text: "1.5f64".to_string() })
        .unwrap();
    assert_eq!(kind_text(&k), (false, "f64".to_string()));
}

#[test]
fn unsuffixed_int_is_refused() {
    let e = classify_magic(&LitShape::Int { suffix: String::new(), text: "42".to_string() })
        .err()
        .unwrap();
    assert_eq!(e, "expected explicit type suffix for integer literal\ne.g 42u64");
}

#[test]
fn unsuffixed_float_is_refused() {
    let e = classify_magic(&LitShape::Float { suffix: String::new(), text: "1.5".to_string() })
        .err()
        .unwrap();
    assert_eq!(
        e,
        "expected explicit type suffix for float literal\nvalid values are 1.5f32 or 1.5f64"
    );
}

#[test]
fn other_literals_are_refused() {
    for lit in [LitShape::Char, LitShape::Str, LitShape::Bool, LitShape::Verbatim] {
        assert_eq!(
            classify_magic(&lit).err().unwrap(),
            "expected byte string, byte, float, or int"
        );
    }
    assert_eq!(classify_magic(&LitShape::Other).err().unwrap(), "unexpected literal");
}

#[test]
fn try_from_keeps_tokens_and_keyword_span() {
    let attr = MagicAttr {
        lit: LitShape::ByteStr { len: 2 },
        tokens: stream("b\"AB\""),
        lit_span: Span::call_site(),
        keyword_span: Span::call_site(),
    };
    let v = SpannedValue::<Inner>::try_from(attr).ok().unwrap();
    assert_eq!(kind_text(v.value.kind()), (true, "[::core::primitive::u8; 2]".to_string()));
    assert_eq!(show(v.value.match_value()), "b\"AB\"");
    assert_eq!(show(&v.value.deref_value()), "* b\"AB\"");
    assert_eq!(show(&v.value.add_ref()), "&");
}

#[test]
fn try_from_refuses_with_the_message() {
    let attr = MagicAttr {
        lit: LitShape::Str,
        tokens: stream("\"x\""),
        lit_span: Span::call_site(),
        keyword_span: Span::call_site(),
    };
    let e = SpannedValue::<Inner>::try_from(attr).err().unwrap();
    assert_eq!(e.message, "expected byte string, byte, float, or int");
    assert_eq!(e.into_syn_error().to_string(), "expected byte string, byte, float, or int");
}

#[test]
fn numeric_magic_is_neither_referenced_nor_dereferenced() {
    let inner = Inner(Kind::Numeric("u16".to_string()), stream("0x1234u16"));
    assert_eq!(show(&inner.add_ref()), "");
    assert_eq!(show(&inner.deref_value()), "0x1234u16");
    assert_eq!(show(&inner.into_match_value()), "0x1234u16");
}

#[test]
fn kind_type_lexes() {
    let k = Kind::ByteStr("[::core::primitive::u8; 3]".to_string());
    let ts = k.to_token_stream().unwrap().to_string();
    assert!(ts.starts_with('[') && ts.ends_with(']') && ts.contains("u8"));
    let bad = Kind::Numeric("\"unterminated".to_string());
    assert!(bad.to_token_stream().is_none());
}

#[test]
fn kinds_compare_by_variant_and_type() {
    let a = Kind::Numeric("u8".to_string());
    assert!(a.same(&Kind::Numeric("u8".to_string())));
    assert!(!a.same(&Kind::Numeric("u16".to_string())));
    assert!(!a.same(&Kind::ByteStr("u8".to_string())));
}

#[test]
fn decimals() {
    for (n, text) in [(0usize, "0"), (7, "7"), (10, "10"), (1234, "1234"), (usize::MAX, &*usize::MAX.to_string())] {
        let mut s = String::from("x=");
        append_decimal(&mut s, n);
        assert_eq!(s, format!("x={}", text));
    }
}

fn shape_of(src: &str) -> LitShape {
    let lit: syn::Lit = syn::parse_str(src).unwrap();
    magic_attr(&lit, Span::call_site()).lit
}

#[test]
fn literals_are_read_through_syn() {
    assert!(matches!(shape_of("b\"A\\x00B\""), LitShape::ByteStr { len: 3 }));
    assert!(matches!(shape_of("b'x'"), LitShape::Byte));
    assert!(matches!(shape_of("'x'"), LitShape::Char));
    assert!(matches!(shape_of("\"x\""), LitShape::Str));
    assert!(matches!(shape_of("true"), LitShape::Bool));
    match shape_of("0x10u16") {
        LitShape::Int { suffix, text } => {
            assert_eq!(suffix, "u16");
            assert_eq!(text, "0x10u16");
        }
        _ => panic!("expected an integer"),
    }
    match shape_of("42") {
        LitShape::Int { suffix, text } => {
            assert_eq!(suffix, "");
            assert_eq!(text, "42");
        }
        _ => panic!("expected an integer"),
    }
    match shape_of("1.5f32") {
        LitShape::Float { suffix, text } => {
            assert_eq!(suffix, "f32");
            assert_eq!(text, "1.5f32");
        }
        _ => panic!("expected a float"),
    }
    assert!(matches!(shape_of("c\"x\""), LitShape::Other));
}

#[test]
fn magic_attr_keeps_the_literal_tokens() {
    let lit: syn::Lit = syn::parse_str("7u8").unwrap();
    let attr = magic_attr(&lit, Span::call_site());
    assert_eq!(show(&attr.tokens), "7u8");
    let v = SpannedValue::<Inner>::try_from(attr).ok().unwrap();
    assert_eq!(kind_text(v.value.kind()), (false, "u8".to_string()));
}
