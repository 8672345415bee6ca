//! What the code generators read of a parsed derive input.
use crate::magic::{Magic, SpannedValue, Inner};
use crate::tokens::{copy_code, Code, Tok, Word};
use proc_macro2::Span;
use vstd::prelude::*;

verus! {

/// The code of the current stream position, as the position emitter writes it.
pub struct PosEmitter {
    pub pos: Code,
}

impl PosEmitter {
    pub fn pos(&self) -> (r: Code)
        ensures
            r@ == self.pos@,
    {
        copy_code(&self.pos)
    }
}

/// A `map`, `try_map` or `repr` directive on a type.
pub enum Mapping {
    Unmapped,
    /// `try_map = ..`: a fallible conversion.
    Try(Code),
    /// `map = ..`: an infallible conversion.
    Plain(Code),
    /// `repr = ..`: the type the value is converted through.
    Repr(Code),
}

impl Mapping {
    /// Whether the conversion can fail: a `try_map`, or the `TryFrom` of a
    /// `repr` type.
    pub fn is_try(&self) -> (r: bool)
        ensures
            r == (*self is Try || *self is Repr),
    {
        match self {
            Mapping::Try(_) | Mapping::Repr(_) => true,
            _ => false,
        }
    }

    pub fn is_repr(&self) -> (r: bool)
        ensures
            r == (*self is Repr),
    {
        match self {
            Mapping::Repr(_) => true,
            _ => false,
        }
    }

    pub fn as_repr(&self) -> (r: Option<&Code>)
        ensures
            match *self {
                Mapping::Repr(ty) => r == Some(&ty),
                _ => r is None,
            },
    {
        match self {
            Mapping::Repr(ty) => Some(ty),
            _ => None,
        }
    }
}

/// An assertion: its condition.
pub struct Assert {
    pub condition: Code,
}

/// A variant of a unit-only enum.
pub struct UnitEnumField {
    pub ident: String,
    pub magic: Magic,
    pub pre_assertions: Vec<Assert>,
}

/// A unit-only enum.
pub struct UnitOnlyEnum {
    pub map: Mapping,
    pub fields: Vec<UnitEnumField>,
}

/// How a data enum reports that no variant could be read.
#[derive(Debug, Clone, Copy, PartialEq, Eq, Structural)]
pub enum EnumErrorMode {
    Default,
    ReturnAllErrors,
    ReturnUnexpectedError,
}

/// A variant of a data enum.
pub enum EnumVariant {
    /// A variant with fields.
    Variant { ident: String },
    /// A variant without fields.
    Unit { ident: String },
}

impl EnumVariant {
    pub open spec fn ident_spec(&self) -> String {
        match self {
            EnumVariant::Variant { ident } => *ident,
            EnumVariant::Unit { ident } => *ident,
        }
    }

    pub fn ident(&self) -> (r: &String)
        ensures
            *r == self.ident_spec(),
    {
        match self {
            EnumVariant::Variant { ident } => ident,
            EnumVariant::Unit { ident } => ident,
        }
    }
}

/// A data enum.
pub struct Enum {
    pub ident: Option<String>,
    /// The enum's assertions, checked on the value of each variant with fields.
    pub assertions: Vec<Assert>,
    pub error_mode: EnumErrorMode,
    pub variants: Vec<EnumVariant>,
}

/// The shape of the type the derive is applied to.
pub enum Shape {
    UnitStruct,
    Struct,
    Enum(Enum),
    UnitOnlyEnum(UnitOnlyEnum),
}

/// A `map_stream = ..` directive: the function and where it stands.
pub struct MapStream {
    pub code: Code,
    pub span: Span,
}

/// A parsed derive input.
pub struct Input {
    pub shape: Shape,
    /// The type's `map`, `try_map` or `repr` directive.
    pub map: Mapping,
    /// The name given to the stream by a `stream = ..` directive.
    pub stream: Option<Code>,
    /// The type's magic value.
    pub magic: Magic,
    /// The type's `map_stream = ..` directive.
    pub map_stream: Option<MapStream>,
}

/// The stream's name: the one given by the input, or the default word.
pub open spec fn stream_ident_or_code(input: Input, default: Word) -> Seq<Tok> {
    match input.stream {
        Some(s) => s@,
        None => seq![Tok::Word(default)],
    }
}

impl Input {
    pub fn stream_ident_or(&self, default: Word) -> (r: Code)
        ensures
            r@ == stream_ident_or_code(*self, default),
    {
        match &self.stream {
            Some(s) => copy_code(s),
            None => {
                let mut r: Code = Vec::new();
                r.push(Tok::Word(default));
                r
            },
        }
    }

    pub fn map(&self) -> (r: &Mapping)
        ensures
            *r == self.map,
    {
        &self.map
    }

    pub fn magic(&self) -> (r: &Option<SpannedValue<Inner>>)
        ensures
            *r == self.magic,
    {
        &self.magic
    }

    pub fn map_stream(&self) -> (r: Option<&MapStream>)
        ensures
            match self.map_stream {
                Some(m) => r == Some(&m),
                None => r is None,
            },
    {
        match &self.map_stream {
            Some(m) => Some(m),
            None => None,
        }
    }
}

} // verus!
