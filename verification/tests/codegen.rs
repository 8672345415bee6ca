use binrw_codegen::grouping::group_by_magic_kind;
use binrw_codegen::input::{
    Assert, Enum, MapStream, EnumErrorMode, EnumVariant, Input, Mapping, PosEmitter, Shape, UnitEnumField,
    UnitOnlyEnum,
};
use binrw_codegen::magic::{Inner, Kind, Magic, SpannedValue};
use binrw_codegen::read_enum::{
    generate_data_enum, generate_unit_enum, generate_unit_enum_magic, generate_unit_enum_repr,
    generate_variant_impl, VariantImpl,
};
use binrw_codegen::read_options::{
    generate as generate_read, get_magic, read_plan, PreludeGenerator, PreludeParts, ReadParts,
    ReadPlan,
};
use binrw_codegen::spelling::{is_balanced, op_text as op_spelled, word_text};
use binrw_codegen::tokens::{copy_code, Code, Delim, Op, Text, Tok, Word};
use binrw_codegen::write_options::{
    generate as generate_write, generate_map, write_plan, WritePlan, WritePrelude,
};
use proc_macro2::{Span, TokenStream};

fn show(code: &[Tok]) -> String {
    let parts: Vec<String> = code
        .iter()
        .map(|t| match t {
            Tok::Word(w) => format!("{:?}", w),
            Tok::Ident(s) => s.clone(),
            Tok::Str(s) => format!("{:?}", s),
            Tok::Text(t) => format!("{:?}", t),
            Tok::Op(o) => op_text(*o).to_string(),
            Tok::Open(d) => open_text(*d).to_string(),
            Tok::Close(d) => close_text(*d).to_string(),
            Tok::Stream(ts) => ts.to_string(),
            Tok::SpanStart(_) => "[[".to_string(),
            Tok::SpanEnd => "]]".to_string(),
        })
        .collect();
    parts.join(" ")
}

fn op_text(o: Op) -> &'static str {
    match o {
        Op::Assign => "=",
        Op::Semi => ";",
        Op::Colon => ":",
        Op::PathSep => "::",
        Op::Comma => ",",
        Op::Amp => "&",
        Op::Star => "*",
        Op::Question => "?",
        Op::FatArrow => "=>",
        Op::AndAnd => "&&",
        Op::EqEq => "==",
        Op::Pipe => "|",
        Op::At => "@",
        Op::Lt => "<",
        Op::Gt => ">",
        Op::Dot => ".",
        Op::Bang => "!",
    }
}

fn open_text(d: Delim) -> &'static str {
    match d {
        Delim::Paren => "(",
        Delim::Brace => "{",
        Delim::Bracket => "[",
    }
}

fn close_text(d: Delim) -> &'static str {
    match d {
        Delim::Paren => ")",
        Delim::Brace => "}",
        Delim::Bracket => "]",
    }
}

fn stream(src: &str) -> Code {
    vec![Tok::Stream(src.parse::<TokenStream>().unwrap())]
}

fn word(w: Word) -> Code {
    vec![Tok::Word(w)]
}

fn magic(kind: Kind, value: &str) -> Magic {
    Some(SpannedValue::new(Inner(kind, stream(value)), Span::call_site()))
}

fn u8_magic(value: &str) -> Magic {
    magic(Kind::Numeric("u8".to_string()), value)
}

fn field(ident: &str, magic: Magic, pre: &[&str]) -> UnitEnumField {
    UnitEnumField {
        ident: ident.to_string(),
        magic,
        pre_assertions: pre.iter().map(|c| Assert { condition: stream(c) }).collect(),
    }
}

fn input(shape: Shape, map: Mapping, magic: Magic) -> Input {
    Input { shape, map, stream: None, magic, map_stream: None }
}

fn parts() -> PreludeParts {
    PreludeParts { imports: None, endian: stream("E"), pre_assertions: Vec::new() }
}

fn pos() -> PosEmitter {
    PosEmitter { pos: stream("P") }
}

// ---------------------------------------------------------------------------
// grouping

fn groups(fields: &Vec<UnitEnumField>) -> Vec<Vec<usize>> {
    group_by_magic_kind(fields)
}

#[test]
fn grouping_keeps_runs_of_one_type_and_wildcards() {
    let fields = vec![
        field("A", u8_magic("1u8"), &[]),
        field("B", u8_magic("2u8"), &[]),
        field("C", None, &[]),
        field("D", magic(Kind::Numeric("u16".to_string()), "3u16"), &[]),
        field("E", u8_magic("4u8"), &[]),
    ];
    assert_eq!(groups(&fields), vec![vec![0, 1, 2], vec![3], vec![4]]);
}

#[test]
fn grouping_with_leading_wildcard() {
    let fields = vec![
        field("A", None, &[]),
        field("B", u8_magic("1u8"), &[]),
        field("C", u8_magic("2u8"), &[]),
        field("D", None, &[]),
    ];
    assert_eq!(groups(&fields), vec![vec![0], vec![1, 2, 3]]);
}

#[test]
fn grouping_of_one_type_is_one_group() {
    let fields = vec![
        field("A", u8_magic("1u8"), &[]),
        field("B", u8_magic("2u8"), &[]),
        field("C", u8_magic("3u8"), &[]),
    ];
    assert_eq!(groups(&fields), vec![vec![0, 1, 2]]);
    assert_eq!(groups(&Vec::new()), Vec::<Vec<usize>>::new());
}

#[test]
fn grouping_of_alternating_types_separates() {
    let fields = vec![
        field("A", u8_magic("1u8"), &[]),
        field("B", magic(Kind::ByteStr("[u8; 1]".to_string()), "b\"x\""), &[]),
        field("C", u8_magic("2u8"), &[]),
    ];
    assert_eq!(groups(&fields), vec![vec![0], vec![1], vec![2]]);
}

// ---------------------------------------------------------------------------
// magic check and prelude

#[test]
fn magic_check_dereferences_byte_strings() {
    let m = magic(Kind::ByteStr("[u8; 2]".to_string()), "b\"AB\"");
    let code = get_magic(&m, &word(Word::Reader), &word(Word::Opt)).unwrap();
    assert_eq!(show(&code), "AssertMagic ( Reader , * b\"AB\" , Opt ) ? ;");
    assert!(get_magic(&None, &word(Word::Reader), &word(Word::Opt)).is_none());
}

#[test]
fn prelude_builder_appends_in_order() {
    let mut inp = input(Shape::Struct, Mapping::Unmapped, u8_magic("7u8"));
    inp.stream = Some(stream("r"));
    inp.map_stream = Some(MapStream { code: stream("f"), span: Span::call_site() });
    let pe = pos();
    let out = PreludeGenerator::new(&inp, &pe)
        .add_imports(Some(stream("(a, b)")))
        .add_endian(&stream("E"))
        .add_magic_pre_assertion(&stream("check ();"))
        .add_map_stream()
        .reset_position_after_magic()
        .finish();
    assert_eq!(
        show(&out),
        "Let (a , b) = Args ; Let Opt = E ; AssertMagic ( r , 7u8 , Opt ) ? ; check () ; \
         [[ Let ]] r [[ = & Mut ]] MapReaderTypeHint [[ :: < GenericReader , Underscore , Underscore > ( ]] f [[ ) ( ]] r [[ ) ; ]] \
         Let Pos = SeekTrait :: StreamPosition ( r ) ? ;"
    );
}

#[test]
fn prelude_without_directives_binds_only_the_endian() {
    let inp = input(Shape::Struct, Mapping::Unmapped, None);
    let pe = pos();
    let out = PreludeGenerator::new(&inp, &pe)
        .add_imports(None)
        .add_endian(&stream("E"))
        .add_magic_pre_assertion(&Vec::new())
        .add_map_stream()
        .reset_position_after_magic()
        .finish();
    assert_eq!(show(&out), "Let Opt = E ;");
}

// ---------------------------------------------------------------------------
// unit enums

#[test]
fn unit_enum_repr_compares_discriminants() {
    let fields = vec![field("A", None, &["x"]), field("B", None, &[])];
    let out = generate_unit_enum_repr(&word(Word::Reader), &stream("u8"), &fields, &stream("P"));
    assert_eq!(
        show(&out),
        "Let Temp : u8 = ReadMethod ( Reader , Opt , ( ) ) ? ; \
         If Temp == SelfType :: A As u8 && ( x ) { OkCtor ( SelfType :: A ) } Else \
         If Temp == SelfType :: B As u8 { OkCtor ( SelfType :: B ) } Else \
         { ErrCtor ( WithContext ( BinError :: NoVariantMatch { PosField : P , } , \
         BacktraceFrame :: Message ( { Extern Crate Alloc ; Alloc :: Format ! ( UnexpectedEnumValue , Temp ) . Into ( ) } ) ) ) }"
    );
}

#[test]
fn unit_enum_magic_reads_each_type_once() {
    let fields = vec![
        field("A", u8_magic("1u8"), &[]),
        field("B", u8_magic("2u8"), &["y"]),
        field("C", magic(Kind::ByteStr("[u8; 1]".to_string()), "b\"z\""), &[]),
        field("D", None, &[]),
    ];
    let out = generate_unit_enum_magic(&word(Word::Reader), &fields, &stream("P"));
    let attempt = |amp: &str, arms: &str| {
        format!(
            "Match ( | | {{ Match {}ReadMethod ( Reader , Opt , ( ) ) ? {{ {} Underscore => ErrCtor ( BinError :: NoVariantMatch {{ PosField : P }} ) }} }} ) ( ) \
             {{ BindingV @ OkCtor ( Underscore ) => Return BindingV , ErrCtor ( Temp ) => \
             {{ RestorePositionVariant ( Reader , P , Temp ) ? ; }} }}",
            amp, arms
        )
    };
    let expected = format!(
        "{} {} ErrCtor ( BinError :: NoVariantMatch {{ PosField : P }} )",
        attempt(
            "",
            "1u8 => OkCtor ( SelfType :: A ) , 2u8 If True && ( y ) => OkCtor ( SelfType :: B ) ,"
        ),
        attempt(
            "& ",
            "b\"z\" => OkCtor ( SelfType :: C ) , Underscore => OkCtor ( SelfType :: D ) ,"
        ),
    );
    assert_eq!(show(&out), expected);
}

#[test]
fn unit_enum_uses_repr_when_given() {
    let en = UnitOnlyEnum { map: Mapping::Repr(stream("u8")), fields: vec![field("A", None, &[])] };
    let inp = input(Shape::Struct, Mapping::Unmapped, None);
    let out = generate_unit_enum(&inp, &en, &pos(), &parts());
    let s = show(&out);
    assert!(s.starts_with("Let Opt = E ; Let Temp : u8 = ReadMethod"));
    let en = UnitOnlyEnum { map: Mapping::Unmapped, fields: vec![field("A", u8_magic("1u8"), &[])] };
    let s = show(&generate_unit_enum(&inp, &en, &pos(), &parts()));
    assert!(s.starts_with("Let Opt = E ; Match ( | | { Match ReadMethod"));
}

// ---------------------------------------------------------------------------
// data enums

fn data_enum(mode: EnumErrorMode) -> Enum {
    Enum {
        ident: Some("E".to_string()),
        assertions: vec![Assert { condition: stream("self.ok()") }],
        error_mode: mode,
        variants: vec![
            EnumVariant::Variant { ident: "A".to_string() },
            EnumVariant::Unit { ident: "B".to_string() },
        ],
    }
}

fn attempt(body: &str, keep: &str) -> String {
    format!(
        "Match ( | | {{ {} }} ) ( ) {{ BindingOk @ OkCtor ( Underscore ) => Return BindingOk , \
         ErrCtor ( BindingError ) => {{ RestorePositionVariant ( Reader , P , BindingError ) . MapMethod ( | Temp | {{ {}}} ) ? ; }} }}",
        body, keep
    )
}

#[test]
fn data_enum_collects_every_error_by_default() {
    let en = data_enum(EnumErrorMode::Default);
    let inp = input(Shape::Struct, Mapping::Unmapped, None);
    let bodies = vec![stream("a ()"), stream("b ()")];
    let out = generate_data_enum(&inp, &en, &pos(), &parts(), &bodies);
    let expected = format!(
        "Let Opt = E ; Extern Crate Alloc ; Let Mut ErrorBasket : Alloc :: VecModule :: VecType < ( & StaticLifetime Str , BinError ) > = Alloc :: VecModule :: VecType :: New ( ) ; {} {} ErrCtor ( BinError :: EnumErrors {{ PosField : P , VariantErrorsField : ErrorBasket }} )",
        attempt("a ()", "ErrorBasket . Push ( ( \"A\" , Temp ) ) ; "),
        attempt("b ()", "ErrorBasket . Push ( ( \"B\" , Temp ) ) ; "),
    );
    assert_eq!(show(&out), expected);
    let en = data_enum(EnumErrorMode::ReturnAllErrors);
    assert_eq!(show(&generate_data_enum(&inp, &en, &pos(), &parts(), &bodies)), expected);
}

#[test]
fn data_enum_returning_unexpected_error_keeps_none() {
    let en = data_enum(EnumErrorMode::ReturnUnexpectedError);
    let inp = input(Shape::Struct, Mapping::Unmapped, u8_magic("9u8"));
    let bodies = vec![stream("a ()"), stream("b ()")];
    let out = generate_data_enum(&inp, &en, &pos(), &parts(), &bodies);
    let expected = format!(
        "Let Opt = E ; AssertMagic ( Reader , 9u8 , Opt ) ? ; Let Pos = SeekTrait :: StreamPosition ( Reader ) ? ; {} {} ErrCtor ( BinError :: NoVariantMatch {{ PosField : P , }} )",
        attempt("a ()", ""),
        attempt("b ()", ""),
    );
    assert_eq!(show(&out), expected);
}

#[test]
fn variant_impl_names_variants_with_fields() {
    let en = data_enum(EnumErrorMode::Default);
    match generate_variant_impl(&en, &en.variants[0]) {
        VariantImpl::Fields { ident, name, assertions } => {
            assert_eq!(ident, "A");
            assert_eq!(name, "E::A");
            assert_eq!(assertions.len(), 1);
            assert_eq!(show(&assertions[0].condition), "self . ok ()");
        }
        VariantImpl::Unit { .. } => panic!("expected a variant with fields"),
    }
    match generate_variant_impl(&en, &en.variants[1]) {
        VariantImpl::Unit { ident } => assert_eq!(ident, "B"),
        VariantImpl::Fields { .. } => panic!("expected a unit variant"),
    }
}

// ---------------------------------------------------------------------------
// read dispatch

fn plan_name(p: &ReadPlan) -> String {
    match p {
        ReadPlan::UnitStruct => "UnitStruct".to_string(),
        ReadPlan::Struct => "Struct".to_string(),
        ReadPlan::DataEnum => "DataEnum".to_string(),
        ReadPlan::UnitEnum => "UnitEnum".to_string(),
        ReadPlan::TryMapped(c) => format!("TryMapped {}", show(c)),
        ReadPlan::Mapped(c) => format!("Mapped {}", show(c)),
    }
}

fn unit_only() -> Shape {
    Shape::UnitOnlyEnum(UnitOnlyEnum { map: Mapping::Unmapped, fields: Vec::new() })
}

#[test]
fn read_plan_by_shape_and_map() {
    let plan = |shape: Shape, map: Mapping| plan_name(&read_plan(&input(shape, map, None)));
    assert_eq!(plan(Shape::UnitStruct, Mapping::Unmapped), "UnitStruct");
    assert_eq!(plan(Shape::Struct, Mapping::Unmapped), "Struct");
    assert_eq!(plan(Shape::Enum(data_enum(EnumErrorMode::Default)), Mapping::Unmapped), "DataEnum");
    assert_eq!(plan(unit_only(), Mapping::Unmapped), "UnitEnum");
    assert_eq!(plan(Shape::Struct, Mapping::Try(stream("f"))), "TryMapped f");
    assert_eq!(plan(Shape::Struct, Mapping::Plain(stream("g"))), "Mapped g");
    assert_eq!(plan(unit_only(), Mapping::Repr(stream("u8"))), "UnitEnum");
    assert_eq!(
        plan(Shape::Struct, Mapping::Repr(stream("u8"))),
        "TryMapped < u8 As Core :: Convert :: TryInto < Underscore > > :: TryIntoMethod"
    );
}

#[test]
fn read_body_is_wrapped_in_a_closure() {
    let mut inp = input(Shape::Struct, Mapping::Unmapped, None);
    inp.stream = Some(stream("s"));
    let rp = ReadParts {
        variant_bodies: Vec::new(),
        other: stream("body"),
        set_pos: stream("save ;"),
        rewind: stream(". rewind ()"),
    };
    let out = generate_read(&inp, &pos(), &parts(), &rp);
    assert_eq!(show(&out), "Let s = Reader ; save ; ( | | { body } ) ( ) . rewind ()");
    let inp = input(
        Shape::UnitOnlyEnum(UnitOnlyEnum {
            map: Mapping::Repr(stream("u8")),
            fields: vec![field("A", None, &[])],
        }),
        Mapping::Repr(stream("u8")),
        None,
    );
    let rp = ReadParts {
        variant_bodies: Vec::new(),
        other: stream("body"),
        set_pos: Vec::new(),
        rewind: Vec::new(),
    };
    let s = show(&generate_read(&inp, &pos(), &parts(), &rp));
    assert!(s.starts_with("Let Reader = Reader ; ( | | { Let Opt = E ; Let Temp : u8"));
    assert!(!s.contains("body"));
}

// ---------------------------------------------------------------------------
// writing

fn write_plan_name(p: &WritePlan) -> String {
    match p {
        WritePlan::Struct => "Struct".to_string(),
        WritePlan::DataEnum => "DataEnum".to_string(),
        WritePlan::UnitEnum => "UnitEnum".to_string(),
        WritePlan::Mapped(c) => format!("Mapped {}", show(c)),
    }
}

#[test]
fn write_plan_by_shape_and_map() {
    let plan = |shape: Shape, map: Mapping| write_plan_name(&write_plan(&input(shape, map, None)));
    assert_eq!(plan(Shape::UnitStruct, Mapping::Unmapped), "Struct");
    assert_eq!(plan(Shape::Struct, Mapping::Unmapped), "Struct");
    assert_eq!(plan(Shape::Enum(data_enum(EnumErrorMode::Default)), Mapping::Unmapped), "DataEnum");
    assert_eq!(plan(unit_only(), Mapping::Unmapped), "UnitEnum");
    assert_eq!(plan(Shape::Struct, Mapping::Try(stream("f"))), "Mapped f");
    assert_eq!(plan(Shape::Struct, Mapping::Plain(stream("g"))), "Mapped g");
    assert_eq!(plan(unit_only(), Mapping::Repr(stream("u8"))), "UnitEnum");
    assert_eq!(plan(Shape::Struct, Mapping::Repr(stream("u8"))), "Mapped u8");
}

fn empty_write_prelude() -> WritePrelude {
    WritePrelude { magic: Vec::new(), assertions: Vec::new(), endian: Vec::new(), imports: Vec::new() }
}

#[test]
fn map_writes_the_converted_value() {
    let inp = input(Shape::Struct, Mapping::Plain(stream("| x | x . a")), None);
    let out = generate_map(&inp, &stream("| x | x . a"), &stream("ERR"), &empty_write_prelude());
    assert_eq!(
        show(&out),
        "WriteMethod ( & ( ( | x | x . a ) ( SelfValue ) ) , Writer , Opt , ( ) ) ? ;"
    );
}

#[test]
fn try_map_propagates_the_mapped_error() {
    let inp = input(Shape::Struct, Mapping::Try(stream("conv")), None);
    let prelude = WritePrelude {
        magic: stream("m ;"),
        assertions: stream("a ;"),
        endian: stream("e ;"),
        imports: stream("i ;"),
    };
    let out = generate_map(&inp, &stream("conv"), &stream(". map_err (f)"), &prelude);
    assert_eq!(
        show(&out),
        "i ; e ; a ; m ; WriteMethod ( & ( ( conv ) ( SelfValue ) . map_err (f) ? ) , Writer , Opt , ( ) ) ? ;"
    );
}

#[test]
fn repr_struct_writes_through_try_from() {
    let inp = input(Shape::Struct, Mapping::Repr(stream("u8")), None);
    let out = generate_map(&inp, &stream("u8"), &stream(". map_err (f)"), &empty_write_prelude());
    assert_eq!(
        show(&out),
        "WriteMethod ( & ( ( < u8 As :: Core :: Convert :: TryFrom < Underscore > > :: TryFromMethod ) ( SelfValue ) . map_err (f) ? ) , Writer , Opt , ( ) ) ? ;"
    );
}

#[test]
fn write_body_records_position_and_returns_ok() {
    let mut inp = input(Shape::Struct, Mapping::Unmapped, None);
    inp.stream = Some(stream("w"));
    let out = generate_write(&inp, &stream("ERR"), &empty_write_prelude(), &stream("body ;"));
    assert_eq!(
        show(&out),
        "Let w = Writer ; Let Pos = SeekTrait :: StreamPosition ( w ) ? ; body ; :: Core :: ResultModule :: ResultType :: OkCtor ( ( ) )"
    );
    let inp = input(Shape::Struct, Mapping::Plain(stream("f")), None);
    let out = generate_write(&inp, &stream("ERR"), &empty_write_prelude(), &stream("body ;"));
    assert_eq!(
        show(&out),
        "Let Writer = Writer ; Let Pos = SeekTrait :: StreamPosition ( Writer ) ? ; WriteMethod ( & ( ( f ) ( SelfValue ) ) , Writer , Opt , ( ) ) ? ; :: Core :: ResultModule :: ResultType :: OkCtor ( ( ) )"
    );
}

#[test]
fn copies_are_equal() {
    let c = stream("a + b");
    assert_eq!(show(&copy_code(&c)), show(&c));
}

// ---------------------------------------------------------------------------
// laws on concrete values

fn brackets_ok(code: &[Tok]) -> bool {
    let mut open: Vec<Delim> = Vec::new();
    for t in code {
        match t {
            Tok::Open(d) => open.push(*d),
            Tok::Close(d) => {
                if open.pop() != Some(*d) {
                    return false;
                }
            }
            _ => {}
        }
    }
    open.is_empty()
}

#[test]
fn generated_code_is_well_bracketed() {
    let fields = vec![
        field("A", u8_magic("1u8"), &["x"]),
        field("B", None, &[]),
        field("C", magic(Kind::ByteStr("[u8; 1]".to_string()), "b\"z\""), &["y", "z"]),
    ];
    let en = UnitOnlyEnum { map: Mapping::Unmapped, fields };
    let inp = input(Shape::Struct, Mapping::Unmapped, u8_magic("5u8"));
    assert!(brackets_ok(&generate_unit_enum(&inp, &en, &pos(), &parts())));
    let en = data_enum(EnumErrorMode::Default);
    let bodies = vec![stream("a ()"), stream("b ()")];
    assert!(brackets_ok(&generate_data_enum(&inp, &en, &pos(), &parts(), &bodies)));
    let inp = input(Shape::Struct, Mapping::Repr(stream("u16")), None);
    let rp = ReadParts { variant_bodies: Vec::new(), other: stream("x"), set_pos: Vec::new(), rewind: Vec::new() };
    assert!(brackets_ok(&generate_read(&inp, &pos(), &parts(), &rp)));
    assert!(brackets_ok(&generate_write(&inp, &stream("e"), &empty_write_prelude(), &Vec::new())));
    assert!(!brackets_ok(&[Tok::Open(Delim::Paren), Tok::Close(Delim::Brace)]));
}

#[test]
fn read_and_write_agree_on_the_generator() {
    let shapes = || {
        vec![
            Shape::UnitStruct,
            Shape::Struct,
            Shape::Enum(data_enum(EnumErrorMode::Default)),
            unit_only(),
        ]
    };
    let maps = || {
        vec![
            Mapping::Unmapped,
            Mapping::Try(stream("f")),
            Mapping::Plain(stream("g")),
            Mapping::Repr(stream("u8")),
        ]
    };
    for shape in shapes() {
        for map in maps() {
            let inp = input(shape_copy(&shape), map, None);
            let r = plan_name(&read_plan(&inp));
            let w = write_plan_name(&write_plan(&inp));
            let r_kind = r.split(' ').next().unwrap().to_string();
            let w_kind = w.split(' ').next().unwrap().to_string();
            let expected = match r_kind.as_str() {
                "UnitStruct" | "Struct" => "Struct",
                "TryMapped" | "Mapped" => "Mapped",
                other => other,
            };
            assert_eq!(w_kind, expected, "read {} / write {}", r, w);
        }
    }
}

fn shape_copy(s: &Shape) -> Shape {
    match s {
        Shape::UnitStruct => Shape::UnitStruct,
        Shape::Struct => Shape::Struct,
        Shape::Enum(_) => Shape::Enum(data_enum(EnumErrorMode::Default)),
        Shape::UnitOnlyEnum(_) => unit_only(),
    }
}

// ---------------------------------------------------------------------------
// rendering

fn spelled(code: &[Tok]) -> String {
    let parts: Vec<String> = code
        .iter()
        .filter_map(|t| match t {
            Tok::Word(w) => Some(word_text(*w).to_string()),
            Tok::Ident(s) => Some(s.clone()),
            Tok::Str(s) => Some(format!("{:?}", s)),
            Tok::Text(Text::UnexpectedEnumValue) => Some(format!("{:?}", "Unexpected value for enum: {:?}")),
            Tok::Op(o) => Some(op_spelled(*o).to_string()),
            Tok::Open(d) => Some(open_text(*d).to_string()),
            Tok::Close(d) => Some(close_text(*d).to_string()),
            Tok::Stream(ts) => Some(ts.to_string()),
            Tok::SpanStart(_) | Tok::SpanEnd => None,
        })
        .collect();
    parts.join(" ")
}

fn normalized(src: &str) -> String {
    src.parse::<TokenStream>().unwrap().to_string()
}

#[test]
fn balance_is_checked() {
    assert!(is_balanced(&vec![Tok::Open(Delim::Brace), Tok::Close(Delim::Brace)]));
    assert!(!is_balanced(&vec![Tok::Open(Delim::Brace), Tok::Close(Delim::Paren)]));
    assert!(!is_balanced(&vec![Tok::Open(Delim::Brace)]));
    assert!(!is_balanced(&vec![Tok::Close(Delim::Brace)]));
    assert!(is_balanced(&Vec::new()));
}

#[test]
fn spellings() {
    assert_eq!(word_text(Word::Reader), "__binrw_generated_var_reader");
    assert_eq!(word_text(Word::SelfType), "Self");
    assert_eq!(op_spelled(Op::FatArrow), "=>");
}

#[test]
fn spelled_write_body_of_a_repr_struct() {
    let inp = input(Shape::Struct, Mapping::Repr(stream("u8")), None);
    let out = generate_write(&inp, &stream(".map_err(f)"), &empty_write_prelude(), &Vec::new());
    let expected = "let __binrw_generated_var_writer = __binrw_generated_var_writer; \
        let __binrw_generated_position_temp = ::binrw::io::Seek::stream_position(__binrw_generated_var_writer)?; \
        ::binrw::BinWrite::write_options(&((<u8 as ::core::convert::TryFrom<_>>::try_from)(self).map_err(f)?), \
        __binrw_generated_var_writer, __binrw_generated_var_endian, ())?; \
        ::core::result::Result::Ok(())";
    let squeeze = |s: String| s.replace(' ', "");
    assert_eq!(squeeze(normalized(&spelled(&out))), squeeze(normalized(expected)));
}
