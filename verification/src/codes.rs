use vstd::prelude::*;
use core::num::TryFromIntError;
use core::str::FromStr;
use vstd::std_specs::convert::TryFromSpecImpl;
use crate::text::str_eq;
use vstd::string::StringExecFns;

verus! {

/// The error of parsing a name that no value of the enumeration has.
#[derive(Debug, Clone, Copy, PartialEq, Eq, Structural)]
pub struct FromStrError;

impl FromStrError {
    /// The message that describes the error.
    pub fn message(&self) -> (r: &'static str)
        ensures
            r@ == "unable to parse string"@,
    {
        "unable to parse string"
    }
}

/// The error that a number out of range gives.
fn out_of_range() -> (e: TryFromIntError)
    ensures
        e == arbitrary::<TryFromIntError>(),
{
    match u8::try_from(256u32) {
        Ok(_) => unreached(),
        Err(e) => e,
    }
}

/// The kind of a scope in the hierarchy of a waveform file.
#[derive(Debug, Clone, Copy, PartialEq, Eq, Structural, PartialOrd, Ord, Hash)]
pub enum ScopeType {
    VcdModule,
    VcdTask,
    VcdFunction,
    VcdBegin,
    VcdFork,
    VcdGenerate,
    VcdStruct,
    VcdUnion,
    VcdClass,
    VcdInterface,
    VcdPackage,
    VcdProgram,
    VhdlArchitecture,
    VhdlProcedure,
    VhdlFunction,
    VhdlRecord,
    VhdlProcess,
    VhdlBlock,
    VhdlForGenerate,
    VhdlIfGenerate,
    VhdlGenerate,
    VhdlPackage,
}

impl ScopeType {
    /// The number that stands for this value in a waveform file.
    pub open spec fn spec_code(self) -> u8 {
        match self {
            ScopeType::VcdModule => 0u8,
            ScopeType::VcdTask => 1u8,
            ScopeType::VcdFunction => 2u8,
            ScopeType::VcdBegin => 3u8,
            ScopeType::VcdFork => 4u8,
            ScopeType::VcdGenerate => 5u8,
            ScopeType::VcdStruct => 6u8,
            ScopeType::VcdUnion => 7u8,
            ScopeType::VcdClass => 8u8,
            ScopeType::VcdInterface => 9u8,
            ScopeType::VcdPackage => 10u8,
            ScopeType::VcdProgram => 11u8,
            ScopeType::VhdlArchitecture => 12u8,
            ScopeType::VhdlProcedure => 13u8,
            ScopeType::VhdlFunction => 14u8,
            ScopeType::VhdlRecord => 15u8,
            ScopeType::VhdlProcess => 16u8,
            ScopeType::VhdlBlock => 17u8,
            ScopeType::VhdlForGenerate => 18u8,
            ScopeType::VhdlIfGenerate => 19u8,
            ScopeType::VhdlGenerate => 20u8,
            ScopeType::VhdlPackage => 21u8,
        }
    }

    /// The number that stands for this value in a waveform file.
    #[verifier::when_used_as_spec(spec_code)]
    pub fn code(self) -> (r: u8)
        ensures
            r == self.spec_code(),
    {
        match self {
            ScopeType::VcdModule => 0,
            ScopeType::VcdTask => 1,
            ScopeType::VcdFunction => 2,
            ScopeType::VcdBegin => 3,
            ScopeType::VcdFork => 4,
            ScopeType::VcdGenerate => 5,
            ScopeType::VcdStruct => 6,
            ScopeType::VcdUnion => 7,
            ScopeType::VcdClass => 8,
            ScopeType::VcdInterface => 9,
            ScopeType::VcdPackage => 10,
            ScopeType::VcdProgram => 11,
            ScopeType::VhdlArchitecture => 12,
            ScopeType::VhdlProcedure => 13,
            ScopeType::VhdlFunction => 14,
            ScopeType::VhdlRecord => 15,
            ScopeType::VhdlProcess => 16,
            ScopeType::VhdlBlock => 17,
            ScopeType::VhdlForGenerate => 18,
            ScopeType::VhdlIfGenerate => 19,
            ScopeType::VhdlGenerate => 20,
            ScopeType::VhdlPackage => 21,
        }
    }

    /// The value that a number stands for, if any.
    pub open spec fn spec_from_code(code: u8) -> Option<ScopeType> {
        match code {
            0u8 => Option::Some(ScopeType::VcdModule),
            1u8 => Option::Some(ScopeType::VcdTask),
            2u8 => Option::Some(ScopeType::VcdFunction),
            3u8 => Option::Some(ScopeType::VcdBegin),
            4u8 => Option::Some(ScopeType::VcdFork),
            5u8 => Option::Some(ScopeType::VcdGenerate),
            6u8 => Option::Some(ScopeType::VcdStruct),
            7u8 => Option::Some(ScopeType::VcdUnion),
            8u8 => Option::Some(ScopeType::VcdClass),
            9u8 => Option::Some(ScopeType::VcdInterface),
            10u8 => Option::Some(ScopeType::VcdPackage),
            11u8 => Option::Some(ScopeType::VcdProgram),
            12u8 => Option::Some(ScopeType::VhdlArchitecture),
            13u8 => Option::Some(ScopeType::VhdlProcedure),
            14u8 => Option::Some(ScopeType::VhdlFunction),
            15u8 => Option::Some(ScopeType::VhdlRecord),
            16u8 => Option::Some(ScopeType::VhdlProcess),
            17u8 => Option::Some(ScopeType::VhdlBlock),
            18u8 => Option::Some(ScopeType::VhdlForGenerate),
            19u8 => Option::Some(ScopeType::VhdlIfGenerate),
            20u8 => Option::Some(ScopeType::VhdlGenerate),
            21u8 => Option::Some(ScopeType::VhdlPackage),
            _ => Option::None,
        }
    }

    /// The value that a number stands for, if any.
    pub fn from_code(code: u8) -> (r: Option<ScopeType>)
        ensures
            r == ScopeType::spec_from_code(code),
    {
        match code {
            0 => Option::Some(ScopeType::VcdModule),
            1 => Option::Some(ScopeType::VcdTask),
            2 => Option::Some(ScopeType::VcdFunction),
            3 => Option::Some(ScopeType::VcdBegin),
            4 => Option::Some(ScopeType::VcdFork),
            5 => Option::Some(ScopeType::VcdGenerate),
            6 => Option::Some(ScopeType::VcdStruct),
            7 => Option::Some(ScopeType::VcdUnion),
            8 => Option::Some(ScopeType::VcdClass),
            9 => Option::Some(ScopeType::VcdInterface),
            10 => Option::Some(ScopeType::VcdPackage),
            11 => Option::Some(ScopeType::VcdProgram),
            12 => Option::Some(ScopeType::VhdlArchitecture),
            13 => Option::Some(ScopeType::VhdlProcedure),
            14 => Option::Some(ScopeType::VhdlFunction),
            15 => Option::Some(ScopeType::VhdlRecord),
            16 => Option::Some(ScopeType::VhdlProcess),
            17 => Option::Some(ScopeType::VhdlBlock),
            18 => Option::Some(ScopeType::VhdlForGenerate),
            19 => Option::Some(ScopeType::VhdlIfGenerate),
            20 => Option::Some(ScopeType::VhdlGenerate),
            21 => Option::Some(ScopeType::VhdlPackage),
            _ => Option::None,
        }
    }

    /// The name of the value, as written in source text and by `Debug`.
    pub open spec fn spec_name(self) -> Seq<char> {
        match self {
            ScopeType::VcdModule => "VcdModule"@,
            ScopeType::VcdTask => "VcdTask"@,
            ScopeType::VcdFunction => "VcdFunction"@,
            ScopeType::VcdBegin => "VcdBegin"@,
            ScopeType::VcdFork => "VcdFork"@,
            ScopeType::VcdGenerate => "VcdGenerate"@,
            ScopeType::VcdStruct => "VcdStruct"@,
            ScopeType::VcdUnion => "VcdUnion"@,
            ScopeType::VcdClass => "VcdClass"@,
            ScopeType::VcdInterface => "VcdInterface"@,
            ScopeType::VcdPackage => "VcdPackage"@,
            ScopeType::VcdProgram => "VcdProgram"@,
            ScopeType::VhdlArchitecture => "VhdlArchitecture"@,
            ScopeType::VhdlProcedure => "VhdlProcedure"@,
            ScopeType::VhdlFunction => "VhdlFunction"@,
            ScopeType::VhdlRecord => "VhdlRecord"@,
            ScopeType::VhdlProcess => "VhdlProcess"@,
            ScopeType::VhdlBlock => "VhdlBlock"@,
            ScopeType::VhdlForGenerate => "VhdlForGenerate"@,
            ScopeType::VhdlIfGenerate => "VhdlIfGenerate"@,
            ScopeType::VhdlGenerate => "VhdlGenerate"@,
            ScopeType::VhdlPackage => "VhdlPackage"@,
        }
    }

    /// The name of the value, as written in source text and by `Debug`.
    pub fn name(self) -> (r: &'static str)
        ensures
            r@ == self.spec_name(),
    {
        match self {
            ScopeType::VcdModule => "VcdModule",
            ScopeType::VcdTask => "VcdTask",
            ScopeType::VcdFunction => "VcdFunction",
            ScopeType::VcdBegin => "VcdBegin",
            ScopeType::VcdFork => "VcdFork",
            ScopeType::VcdGenerate => "VcdGenerate",
            ScopeType::VcdStruct => "VcdStruct",
            ScopeType::VcdUnion => "VcdUnion",
            ScopeType::VcdClass => "VcdClass",
            ScopeType::VcdInterface => "VcdInterface",
            ScopeType::VcdPackage => "VcdPackage",
            ScopeType::VcdProgram => "VcdProgram",
            ScopeType::VhdlArchitecture => "VhdlArchitecture",
            ScopeType::VhdlProcedure => "VhdlProcedure",
            ScopeType::VhdlFunction => "VhdlFunction",
            ScopeType::VhdlRecord => "VhdlRecord",
            ScopeType::VhdlProcess => "VhdlProcess",
            ScopeType::VhdlBlock => "VhdlBlock",
            ScopeType::VhdlForGenerate => "VhdlForGenerate",
            ScopeType::VhdlIfGenerate => "VhdlIfGenerate",
            ScopeType::VhdlGenerate => "VhdlGenerate",
            ScopeType::VhdlPackage => "VhdlPackage",
        }
    }

    /// The value whose name is `s`, if any.
    pub open spec fn spec_parse(s: Seq<char>) -> Option<ScopeType> {
        if exists|v: ScopeType| v.spec_name() == s {
            Option::Some(choose|v: ScopeType| v.spec_name() == s)
        } else {
            Option::None
        }
    }

    /// Every value, in the order of their numbers.
    fn values() -> (r: Vec<ScopeType>)
        ensures
            r@.len() == 22,
            forall|v: ScopeType| r@[v.spec_code() as int] == v,
    {
        vec![ScopeType::VcdModule, ScopeType::VcdTask, ScopeType::VcdFunction, ScopeType::VcdBegin, ScopeType::VcdFork, ScopeType::VcdGenerate, ScopeType::VcdStruct, ScopeType::VcdUnion, ScopeType::VcdClass, ScopeType::VcdInterface, ScopeType::VcdPackage, ScopeType::VcdProgram, ScopeType::VhdlArchitecture, ScopeType::VhdlProcedure, ScopeType::VhdlFunction, ScopeType::VhdlRecord, ScopeType::VhdlProcess, ScopeType::VhdlBlock, ScopeType::VhdlForGenerate, ScopeType::VhdlIfGenerate, ScopeType::VhdlGenerate, ScopeType::VhdlPackage]
    }

    /// The value whose name is `s`; an error where no value has that name.
    pub fn parse(s: &str) -> (r: Result<ScopeType, FromStrError>)
        ensures
            r == match ScopeType::spec_parse(s@) {
                Option::Some(v) => Ok(v),
                Option::None => Err(FromStrError),
            },
    {
        let values = ScopeType::values();
        let mut i: usize = 0;
        while i < values.len()
            invariant
                values@.len() == 22,
                forall|v: ScopeType| values@[v.spec_code() as int] == v,
                i <= values.len(),
                forall|j: int| 0 <= j < i ==> values@[j].spec_name() != s@,
            decreases values.len() - i,
        {
            let v = values[i];
            if str_eq(s, v.name()) {
                proof {
                    assert forall|w: ScopeType| w.spec_name() == s@ implies w == v by {
                        ScopeType::lemma_name_injective(v, w);
                    }
                }
                return Ok(v);
            }
            i = i + 1;
        }
        assert forall|w: ScopeType| w.spec_name() != s@ by {
            assert(values@[w.spec_code() as int] == w);
        }
        Err(FromStrError)
    }

    /// The numbers and names of the format, value by value: each number is the one the FST
    /// format gives the value, and each name is the value's own identifier.
    pub proof fn law_numbers_and_names()
        ensures
            ScopeType::spec_from_code(0u8) == Option::Some(ScopeType::VcdModule),
            ScopeType::VcdModule.spec_code() == 0,
            ScopeType::VcdModule.spec_name() == "VcdModule"@,
            ScopeType::spec_from_code(1u8) == Option::Some(ScopeType::VcdTask),
            ScopeType::VcdTask.spec_code() == 1,
            ScopeType::VcdTask.spec_name() == "VcdTask"@,
            ScopeType::spec_from_code(2u8) == Option::Some(ScopeType::VcdFunction),
            ScopeType::VcdFunction.spec_code() == 2,
            ScopeType::VcdFunction.spec_name() == "VcdFunction"@,
            ScopeType::spec_from_code(3u8) == Option::Some(ScopeType::VcdBegin),
            ScopeType::VcdBegin.spec_code() == 3,
            ScopeType::VcdBegin.spec_name() == "VcdBegin"@,
            ScopeType::spec_from_code(4u8) == Option::Some(ScopeType::VcdFork),
            ScopeType::VcdFork.spec_code() == 4,
            ScopeType::VcdFork.spec_name() == "VcdFork"@,
            ScopeType::spec_from_code(5u8) == Option::Some(ScopeType::VcdGenerate),
            ScopeType::VcdGenerate.spec_code() == 5,
            ScopeType::VcdGenerate.spec_name() == "VcdGenerate"@,
            ScopeType::spec_from_code(6u8) == Option::Some(ScopeType::VcdStruct),
            ScopeType::VcdStruct.spec_code() == 6,
            ScopeType::VcdStruct.spec_name() == "VcdStruct"@,
            ScopeType::spec_from_code(7u8) == Option::Some(ScopeType::VcdUnion),
            ScopeType::VcdUnion.spec_code() == 7,
            ScopeType::VcdUnion.spec_name() == "VcdUnion"@,
            ScopeType::spec_from_code(8u8) == Option::Some(ScopeType::VcdClass),
            ScopeType::VcdClass.spec_code() == 8,
            ScopeType::VcdClass.spec_name() == "VcdClass"@,
            ScopeType::spec_from_code(9u8) == Option::Some(ScopeType::VcdInterface),
            ScopeType::VcdInterface.spec_code() == 9,
            ScopeType::VcdInterface.spec_name() == "VcdInterface"@,
            ScopeType::spec_from_code(10u8) == Option::Some(ScopeType::VcdPackage),
            ScopeType::VcdPackage.spec_code() == 10,
            ScopeType::VcdPackage.spec_name() == "VcdPackage"@,
            ScopeType::spec_from_code(11u8) == Option::Some(ScopeType::VcdProgram),
            ScopeType::VcdProgram.spec_code() == 11,
            ScopeType::VcdProgram.spec_name() == "VcdProgram"@,
            ScopeType::spec_from_code(12u8) == Option::Some(ScopeType::VhdlArchitecture),
            ScopeType::VhdlArchitecture.spec_code() == 12,
            ScopeType::VhdlArchitecture.spec_name() == "VhdlArchitecture"@,
            ScopeType::spec_from_code(13u8) == Option::Some(ScopeType::VhdlProcedure),
            ScopeType::VhdlProcedure.spec_code() == 13,
            ScopeType::VhdlProcedure.spec_name() == "VhdlProcedure"@,
            ScopeType::spec_from_code(14u8) == Option::Some(ScopeType::VhdlFunction),
            ScopeType::VhdlFunction.spec_code() == 14,
            ScopeType::VhdlFunction.spec_name() == "VhdlFunction"@,
            ScopeType::spec_from_code(15u8) == Option::Some(ScopeType::VhdlRecord),
            ScopeType::VhdlRecord.spec_code() == 15,
            ScopeType::VhdlRecord.spec_name() == "VhdlRecord"@,
            ScopeType::spec_from_code(16u8) == Option::Some(ScopeType::VhdlProcess),
            ScopeType::VhdlProcess.spec_code() == 16,
            ScopeType::VhdlProcess.spec_name() == "VhdlProcess"@,
            ScopeType::spec_from_code(17u8) == Option::Some(ScopeType::VhdlBlock),
            ScopeType::VhdlBlock.spec_code() == 17,
            ScopeType::VhdlBlock.spec_name() == "VhdlBlock"@,
            ScopeType::spec_from_code(18u8) == Option::Some(ScopeType::VhdlForGenerate),
            ScopeType::VhdlForGenerate.spec_code() == 18,
            ScopeType::VhdlForGenerate.spec_name() == "VhdlForGenerate"@,
            ScopeType::spec_from_code(19u8) == Option::Some(ScopeType::VhdlIfGenerate),
            ScopeType::VhdlIfGenerate.spec_code() == 19,
            ScopeType::VhdlIfGenerate.spec_name() == "VhdlIfGenerate"@,
            ScopeType::spec_from_code(20u8) == Option::Some(ScopeType::VhdlGenerate),
            ScopeType::VhdlGenerate.spec_code() == 20,
            ScopeType::VhdlGenerate.spec_name() == "VhdlGenerate"@,
            ScopeType::spec_from_code(21u8) == Option::Some(ScopeType::VhdlPackage),
            ScopeType::VhdlPackage.spec_code() == 21,
            ScopeType::VhdlPackage.spec_name() == "VhdlPackage"@,
    {
    }

    /// Numbering is one to one: a value's number stands for that value.
    pub proof fn lemma_code_round_trip(self)
        ensures
            ScopeType::spec_from_code(self.spec_code()) == Option::Some(self),
    {
    }

    /// Exactly the numbers below 22 stand for a value, and each for the value with that number.
    pub proof fn lemma_from_code(code: u8)
        ensures
            ScopeType::spec_from_code(code) is Some <==> code < 22,
            ScopeType::spec_from_code(code) matches Option::Some(v) ==> v.spec_code() == code,
    {
    }

    /// No two values share a name.
    pub proof fn lemma_name_injective(self, other: ScopeType)
        ensures
            self.spec_name() == other.spec_name() ==> self == other,
    {
        reveal_strlit("VcdBegin");
        reveal_strlit("VcdClass");
        reveal_strlit("VcdFork");
        reveal_strlit("VcdFunction");
        reveal_strlit("VcdGenerate");
        reveal_strlit("VcdInterface");
        reveal_strlit("VcdModule");
        reveal_strlit("VcdPackage");
        reveal_strlit("VcdProgram");
        reveal_strlit("VcdStruct");
        reveal_strlit("VcdTask");
        reveal_strlit("VcdUnion");
        reveal_strlit("VhdlArchitecture");
        reveal_strlit("VhdlBlock");
        reveal_strlit("VhdlForGenerate");
        reveal_strlit("VhdlFunction");
        reveal_strlit("VhdlGenerate");
        reveal_strlit("VhdlIfGenerate");
        reveal_strlit("VhdlPackage");
        reveal_strlit("VhdlProcedure");
        reveal_strlit("VhdlProcess");
        reveal_strlit("VhdlRecord");
        if self != other {
            assert(self.spec_name().len() != other.spec_name().len() || self.spec_name()[4] != other.spec_name()[4] || self.spec_name()[5] != other.spec_name()[5]);
        }
    }

    /// Parsing a value's name gives back that value.
    pub proof fn lemma_parse_name(self)
        ensures
            ScopeType::spec_parse(self.spec_name()) == Option::Some(self),
    {
        let w = choose|v: ScopeType| v.spec_name() == self.spec_name();
        ScopeType::lemma_name_injective(self, w);
    }
}

impl TryFrom<u8> for ScopeType {
    type Error = TryFromIntError;

    fn try_from(value: u8) -> (r: Result<ScopeType, TryFromIntError>) {
        match ScopeType::from_code(value) {
            Option::Some(v) => Ok(v),
            Option::None => Err(out_of_range()),
        }
    }
}

impl TryFromSpecImpl<u8> for ScopeType {
    open spec fn obeys_try_from_spec() -> bool {
        true
    }

    open spec fn try_from_spec(v: u8) -> Result<ScopeType, TryFromIntError> {
        match ScopeType::spec_from_code(v) {
            Option::Some(t) => Ok(t),
            Option::None => Err(arbitrary()),
        }
    }
}

impl TryFrom<u32> for ScopeType {
    type Error = TryFromIntError;

    fn try_from(value: u32) -> (r: Result<ScopeType, TryFromIntError>) {
        let value: u8 = u8::try_from(value)?;
        ScopeType::try_from(value)
    }
}

impl TryFromSpecImpl<u32> for ScopeType {
    open spec fn obeys_try_from_spec() -> bool {
        true
    }

    open spec fn try_from_spec(v: u32) -> Result<ScopeType, TryFromIntError> {
        if v < 256 {
            match ScopeType::spec_from_code(v as u8) {
                Option::Some(t) => Ok(t),
                Option::None => Err(arbitrary()),
            }
        } else {
            Err(arbitrary())
        }
    }
}

impl FromStr for ScopeType {
    type Err = FromStrError;

    fn from_str(s: &str) -> (r: Result<ScopeType, FromStrError>)
        ensures
            r == match ScopeType::spec_parse(s@) {
                Option::Some(v) => Ok(v),
                Option::None => Err(FromStrError),
            },
    {
        ScopeType::parse(s)
    }
}

/// The declared type of a variable.
#[derive(Debug, Clone, Copy, PartialEq, Eq, Structural, PartialOrd, Ord, Hash)]
pub enum VarType {
    VcdEvent,
    VcdInteger,
    VcdParameter,
    VcdReal,
    VcdRealParameter,
    VcdReg,
    VcdSupply0,
    VcdSupply1,
    VcdTime,
    VcdTri,
    VcdTriAnd,
    VcdTriOr,
    VcdTriReg,
    VcdTri0,
    VcdTri1,
    VcdWand,
    VcdWire,
    VcdWor,
    VcdPort,
    VcdSpArray,
    VcdRealtime,
    GenString,
    SvBit,
    SvLogic,
    SvInt,
    SvShortInt,
    SvLongInt,
    SvByte,
    SvEnum,
    SvShortReal,
}

impl VarType {
    /// The number that stands for this value in a waveform file.
    pub open spec fn spec_code(self) -> u8 {
        match self {
            VarType::VcdEvent => 0u8,
            VarType::VcdInteger => 1u8,
            VarType::VcdParameter => 2u8,
            VarType::VcdReal => 3u8,
            VarType::VcdRealParameter => 4u8,
            VarType::VcdReg => 5u8,
            VarType::VcdSupply0 => 6u8,
            VarType::VcdSupply1 => 7u8,
            VarType::VcdTime => 8u8,
            VarType::VcdTri => 9u8,
            VarType::VcdTriAnd => 10u8,
            VarType::VcdTriOr => 11u8,
            VarType::VcdTriReg => 12u8,
            VarType::VcdTri0 => 13u8,
            VarType::VcdTri1 => 14u8,
            VarType::VcdWand => 15u8,
            VarType::VcdWire => 16u8,
            VarType::VcdWor => 17u8,
            VarType::VcdPort => 18u8,
            VarType::VcdSpArray => 19u8,
            VarType::VcdRealtime => 20u8,
            VarType::GenString => 21u8,
            VarType::SvBit => 22u8,
            VarType::SvLogic => 23u8,
            VarType::SvInt => 24u8,
            VarType::SvShortInt => 25u8,
            VarType::SvLongInt => 26u8,
            VarType::SvByte => 27u8,
            VarType::SvEnum => 28u8,
            VarType::SvShortReal => 29u8,
        }
    }

    /// The number that stands for this value in a waveform file.
    #[verifier::when_used_as_spec(spec_code)]
    pub fn code(self) -> (r: u8)
        ensures
            r == self.spec_code(),
    {
        match self {
            VarType::VcdEvent => 0,
            VarType::VcdInteger => 1,
            VarType::VcdParameter => 2,
            VarType::VcdReal => 3,
            VarType::VcdRealParameter => 4,
            VarType::VcdReg => 5,
            VarType::VcdSupply0 => 6,
            VarType::VcdSupply1 => 7,
            VarType::VcdTime => 8,
            VarType::VcdTri => 9,
            VarType::VcdTriAnd => 10,
            VarType::VcdTriOr => 11,
            VarType::VcdTriReg => 12,
            VarType::VcdTri0 => 13,
            VarType::VcdTri1 => 14,
            VarType::VcdWand => 15,
            VarType::VcdWire => 16,
            VarType::VcdWor => 17,
            VarType::VcdPort => 18,
            VarType::VcdSpArray => 19,
            VarType::VcdRealtime => 20,
            VarType::GenString => 21,
            VarType::SvBit => 22,
            VarType::SvLogic => 23,
            VarType::SvInt => 24,
            VarType::SvShortInt => 25,
            VarType::SvLongInt => 26,
            VarType::SvByte => 27,
            VarType::SvEnum => 28,
            VarType::SvShortReal => 29,
        }
    }

    /// The value that a number stands for, if any.
    pub open spec fn spec_from_code(code: u8) -> Option<VarType> {
        match code {
            0u8 => Option::Some(VarType::VcdEvent),
            1u8 => Option::Some(VarType::VcdInteger),
            2u8 => Option::Some(VarType::VcdParameter),
            3u8 => Option::Some(VarType::VcdReal),
            4u8 => Option::Some(VarType::VcdRealParameter),
            5u8 => Option::Some(VarType::VcdReg),
            6u8 => Option::Some(VarType::VcdSupply0),
            7u8 => Option::Some(VarType::VcdSupply1),
            8u8 => Option::Some(VarType::VcdTime),
            9u8 => Option::Some(VarType::VcdTri),
            10u8 => Option::Some(VarType::VcdTriAnd),
            11u8 => Option::Some(VarType::VcdTriOr),
            12u8 => Option::Some(VarType::VcdTriReg),
            13u8 => Option::Some(VarType::VcdTri0),
            14u8 => Option::Some(VarType::VcdTri1),
            15u8 => Option::Some(VarType::VcdWand),
            16u8 => Option::Some(VarType::VcdWire),
            17u8 => Option::Some(VarType::VcdWor),
            18u8 => Option::Some(VarType::VcdPort),
            19u8 => Option::Some(VarType::VcdSpArray),
            20u8 => Option::Some(VarType::VcdRealtime),
            21u8 => Option::Some(VarType::GenString),
            22u8 => Option::Some(VarType::SvBit),
            23u8 => Option::Some(VarType::SvLogic),
            24u8 => Option::Some(VarType::SvInt),
            25u8 => Option::Some(VarType::SvShortInt),
            26u8 => Option::Some(VarType::SvLongInt),
            27u8 => Option::Some(VarType::SvByte),
            28u8 => Option::Some(VarType::SvEnum),
            29u8 => Option::Some(VarType::SvShortReal),
            _ => Option::None,
        }
    }

    /// The value that a number stands for, if any.
    pub fn from_code(code: u8) -> (r: Option<VarType>)
        ensures
            r == VarType::spec_from_code(code),
    {
        match code {
            0 => Option::Some(VarType::VcdEvent),
            1 => Option::Some(VarType::VcdInteger),
            2 => Option::Some(VarType::VcdParameter),
            3 => Option::Some(VarType::VcdReal),
            4 => Option::Some(VarType::VcdRealParameter),
            5 => Option::Some(VarType::VcdReg),
            6 => Option::Some(VarType::VcdSupply0),
            7 => Option::Some(VarType::VcdSupply1),
            8 => Option::Some(VarType::VcdTime),
            9 => Option::Some(VarType::VcdTri),
            10 => Option::Some(VarType::VcdTriAnd),
            11 => Option::Some(VarType::VcdTriOr),
            12 => Option::Some(VarType::VcdTriReg),
            13 => Option::Some(VarType::VcdTri0),
            14 => Option::Some(VarType::VcdTri1),
            15 => Option::Some(VarType::VcdWand),
            16 => Option::Some(VarType::VcdWire),
            17 => Option::Some(VarType::VcdWor),
            18 => Option::Some(VarType::VcdPort),
            19 => Option::Some(VarType::VcdSpArray),
            20 => Option::Some(VarType::VcdRealtime),
            21 => Option::Some(VarType::GenString),
            22 => Option::Some(VarType::SvBit),
            23 => Option::Some(VarType::SvLogic),
            24 => Option::Some(VarType::SvInt),
            25 => Option::Some(VarType::SvShortInt),
            26 => Option::Some(VarType::SvLongInt),
            27 => Option::Some(VarType::SvByte),
            28 => Option::Some(VarType::SvEnum),
            29 => Option::Some(VarType::SvShortReal),
            _ => Option::None,
        }
    }

    /// The name of the value, as written in source text and by `Debug`.
    pub open spec fn spec_name(self) -> Seq<char> {
        match self {
            VarType::VcdEvent => "VcdEvent"@,
            VarType::VcdInteger => "VcdInteger"@,
            VarType::VcdParameter => "VcdParameter"@,
            VarType::VcdReal => "VcdReal"@,
            VarType::VcdRealParameter => "VcdRealParameter"@,
            VarType::VcdReg => "VcdReg"@,
            VarType::VcdSupply0 => "VcdSupply0"@,
            VarType::VcdSupply1 => "VcdSupply1"@,
            VarType::VcdTime => "VcdTime"@,
            VarType::VcdTri => "VcdTri"@,
            VarType::VcdTriAnd => "VcdTriAnd"@,
            VarType::VcdTriOr => "VcdTriOr"@,
            VarType::VcdTriReg => "VcdTriReg"@,
            VarType::VcdTri0 => "VcdTri0"@,
            VarType::VcdTri1 => "VcdTri1"@,
            VarType::VcdWand => "VcdWand"@,
            VarType::VcdWire => "VcdWire"@,
            VarType::VcdWor => "VcdWor"@,
            VarType::VcdPort => "VcdPort"@,
            VarType::VcdSpArray => "VcdSpArray"@,
            VarType::VcdRealtime => "VcdRealtime"@,
            VarType::GenString => "GenString"@,
            VarType::SvBit => "SvBit"@,
            VarType::SvLogic => "SvLogic"@,
            VarType::SvInt => "SvInt"@,
            VarType::SvShortInt => "SvShortInt"@,
            VarType::SvLongInt => "SvLongInt"@,
            VarType::SvByte => "SvByte"@,
            VarType::SvEnum => "SvEnum"@,
            VarType::SvShortReal => "SvShortReal"@,
        }
    }

    /// The name of the value, as written in source text and by `Debug`.
    pub fn name(self) -> (r: &'static str)
        ensures
            r@ == self.spec_name(),
    {
        match self {
            VarType::VcdEvent => "VcdEvent",
            VarType::VcdInteger => "VcdInteger",
            VarType::VcdParameter => "VcdParameter",
            VarType::VcdReal => "VcdReal",
            VarType::VcdRealParameter => "VcdRealParameter",
            VarType::VcdReg => "VcdReg",
            VarType::VcdSupply0 => "VcdSupply0",
            VarType::VcdSupply1 => "VcdSupply1",
            VarType::VcdTime => "VcdTime",
            VarType::VcdTri => "VcdTri",
            VarType::VcdTriAnd => "VcdTriAnd",
            VarType::VcdTriOr => "VcdTriOr",
            VarType::VcdTriReg => "VcdTriReg",
            VarType::VcdTri0 => "VcdTri0",
            VarType::VcdTri1 => "VcdTri1",
            VarType::VcdWand => "VcdWand",
            VarType::VcdWire => "VcdWire",
            VarType::VcdWor => "VcdWor",
            VarType::VcdPort => "VcdPort",
            VarType::VcdSpArray => "VcdSpArray",
            VarType::VcdRealtime => "VcdRealtime",
            VarType::GenString => "GenString",
            VarType::SvBit => "SvBit",
            VarType::SvLogic => "SvLogic",
            VarType::SvInt => "SvInt",
            VarType::SvShortInt => "SvShortInt",
            VarType::SvLongInt => "SvLongInt",
            VarType::SvByte => "SvByte",
            VarType::SvEnum => "SvEnum",
            VarType::SvShortReal => "SvShortReal",
        }
    }

    /// The value whose name is `s`, if any.
    pub open spec fn spec_parse(s: Seq<char>) -> Option<VarType> {
        if exists|v: VarType| v.spec_name() == s {
            Option::Some(choose|v: VarType| v.spec_name() == s)
        } else {
            Option::None
        }
    }

    /// Every value, in the order of their numbers.
    fn values() -> (r: Vec<VarType>)
        ensures
            r@.len() == 30,
            forall|v: VarType| r@[v.spec_code() as int] == v,
    {
        vec![VarType::VcdEvent, VarType::VcdInteger, VarType::VcdParameter, VarType::VcdReal, VarType::VcdRealParameter, VarType::VcdReg, VarType::VcdSupply0, VarType::VcdSupply1, VarType::VcdTime, VarType::VcdTri, VarType::VcdTriAnd, VarType::VcdTriOr, VarType::VcdTriReg, VarType::VcdTri0, VarType::VcdTri1, VarType::VcdWand, VarType::VcdWire, VarType::VcdWor, VarType::VcdPort, VarType::VcdSpArray, VarType::VcdRealtime, VarType::GenString, VarType::SvBit, VarType::SvLogic, VarType::SvInt, VarType::SvShortInt, VarType::SvLongInt, VarType::SvByte, VarType::SvEnum, VarType::SvShortReal]
    }

    /// The value whose name is `s`; an error where no value has that name.
    pub fn parse(s: &str) -> (r: Result<VarType, FromStrError>)
        ensures
            r == match VarType::spec_parse(s@) {
                Option::Some(v) => Ok(v),
                Option::None => Err(FromStrError),
            },
    {
        let values = VarType::values();
        let mut i: usize = 0;
        while i < values.len()
            invariant
                values@.len() == 30,
                forall|v: VarType| values@[v.spec_code() as int] == v,
                i <= values.len(),
                forall|j: int| 0 <= j < i ==> values@[j].spec_name() != s@,
            decreases values.len() - i,
        {
            let v = values[i];
            if str_eq(s, v.name()) {
                proof {
                    assert forall|w: VarType| w.spec_name() == s@ implies w == v by {
                        VarType::lemma_name_injective(v, w);
                    }
                }
                return Ok(v);
            }
            i = i + 1;
        }
        assert forall|w: VarType| w.spec_name() != s@ by {
            assert(values@[w.spec_code() as int] == w);
        }
        Err(FromStrError)
    }

    /// The numbers and names of the format, value by value: each number is the one the FST
    /// format gives the value, and each name is the value's own identifier.
    pub proof fn law_numbers_and_names()
        ensures
            VarType::spec_from_code(0u8) == Option::Some(VarType::VcdEvent),
            VarType::VcdEvent.spec_code() == 0,
            VarType::VcdEvent.spec_name() == "VcdEvent"@,
            VarType::spec_from_code(1u8) == Option::Some(VarType::VcdInteger),
            VarType::VcdInteger.spec_code() == 1,
            VarType::VcdInteger.spec_name() == "VcdInteger"@,
            VarType::spec_from_code(2u8) == Option::Some(VarType::VcdParameter),
            VarType::VcdParameter.spec_code() == 2,
            VarType::VcdParameter.spec_name() == "VcdParameter"@,
            VarType::spec_from_code(3u8) == Option::Some(VarType::VcdReal),
            VarType::VcdReal.spec_code() == 3,
            VarType::VcdReal.spec_name() == "VcdReal"@,
            VarType::spec_from_code(4u8) == Option::Some(VarType::VcdRealParameter),
            VarType::VcdRealParameter.spec_code() == 4,
            VarType::VcdRealParameter.spec_name() == "VcdRealParameter"@,
            VarType::spec_from_code(5u8) == Option::Some(VarType::VcdReg),
            VarType::VcdReg.spec_code() == 5,
            VarType::VcdReg.spec_name() == "VcdReg"@,
            VarType::spec_from_code(6u8) == Option::Some(VarType::VcdSupply0),
            VarType::VcdSupply0.spec_code() == 6,
            VarType::VcdSupply0.spec_name() == "VcdSupply0"@,
            VarType::spec_from_code(7u8) == Option::Some(VarType::VcdSupply1),
            VarType::VcdSupply1.spec_code() == 7,
            VarType::VcdSupply1.spec_name() == "VcdSupply1"@,
            VarType::spec_from_code(8u8) == Option::Some(VarType::VcdTime),
            VarType::VcdTime.spec_code() == 8,
            VarType::VcdTime.spec_name() == "VcdTime"@,
            VarType::spec_from_code(9u8) == Option::Some(VarType::VcdTri),
            VarType::VcdTri.spec_code() == 9,
            VarType::VcdTri.spec_name() == "VcdTri"@,
            VarType::spec_from_code(10u8) == Option::Some(VarType::VcdTriAnd),
            VarType::VcdTriAnd.spec_code() == 10,
            VarType::VcdTriAnd.spec_name() == "VcdTriAnd"@,
            VarType::spec_from_code(11u8) == Option::Some(VarType::VcdTriOr),
            VarType::VcdTriOr.spec_code() == 11,
            VarType::VcdTriOr.spec_name() == "VcdTriOr"@,
            VarType::spec_from_code(12u8) == Option::Some(VarType::VcdTriReg),
            VarType::VcdTriReg.spec_code() == 12,
            VarType::VcdTriReg.spec_name() == "VcdTriReg"@,
            VarType::spec_from_code(13u8) == Option::Some(VarType::VcdTri0),
            VarType::VcdTri0.spec_code() == 13,
            VarType::VcdTri0.spec_name() == "VcdTri0"@,
            VarType::spec_from_code(14u8) == Option::Some(VarType::VcdTri1),
            VarType::VcdTri1.spec_code() == 14,
            VarType::VcdTri1.spec_name() == "VcdTri1"@,
            VarType::spec_from_code(15u8) == Option::Some(VarType::VcdWand),
            VarType::VcdWand.spec_code() == 15,
            VarType::VcdWand.spec_name() == "VcdWand"@,
            VarType::spec_from_code(16u8) == Option::Some(VarType::VcdWire),
            VarType::VcdWire.spec_code() == 16,
            VarType::VcdWire.spec_name() == "VcdWire"@,
            VarType::spec_from_code(17u8) == Option::Some(VarType::VcdWor),
            VarType::VcdWor.spec_code() == 17,
            VarType::VcdWor.spec_name() == "VcdWor"@,
            VarType::spec_from_code(18u8) == Option::Some(VarType::VcdPort),
            VarType::VcdPort.spec_code() == 18,
            VarType::VcdPort.spec_name() == "VcdPort"@,
            VarType::spec_from_code(19u8) == Option::Some(VarType::VcdSpArray),
            VarType::VcdSpArray.spec_code() == 19,
            VarType::VcdSpArray.spec_name() == "VcdSpArray"@,
            VarType::spec_from_code(20u8) == Option::Some(VarType::VcdRealtime),
            VarType::VcdRealtime.spec_code() == 20,
            VarType::VcdRealtime.spec_name() == "VcdRealtime"@,
            VarType::spec_from_code(21u8) == Option::Some(VarType::GenString),
            VarType::GenString.spec_code() == 21,
            VarType::GenString.spec_name() == "GenString"@,
            VarType::spec_from_code(22u8) == Option::Some(VarType::SvBit),
            VarType::SvBit.spec_code() == 22,
            VarType::SvBit.spec_name() == "SvBit"@,
            VarType::spec_from_code(23u8) == Option::Some(VarType::SvLogic),
            VarType::SvLogic.spec_code() == 23,
            VarType::SvLogic.spec_name() == "SvLogic"@,
            VarType::spec_from_code(24u8) == Option::Some(VarType::SvInt),
            VarType::SvInt.spec_code() == 24,
            VarType::SvInt.spec_name() == "SvInt"@,
            VarType::spec_from_code(25u8) == Option::Some(VarType::SvShortInt),
            VarType::SvShortInt.spec_code() == 25,
            VarType::SvShortInt.spec_name() == "SvShortInt"@,
            VarType::spec_from_code(26u8) == Option::Some(VarType::SvLongInt),
            VarType::SvLongInt.spec_code() == 26,
            VarType::SvLongInt.spec_name() == "SvLongInt"@,
            VarType::spec_from_code(27u8) == Option::Some(VarType::SvByte),
            VarType::SvByte.spec_code() == 27,
            VarType::SvByte.spec_name() == "SvByte"@,
            VarType::spec_from_code(28u8) == Option::Some(VarType::SvEnum),
            VarType::SvEnum.spec_code() == 28,
            VarType::SvEnum.spec_name() == "SvEnum"@,
            VarType::spec_from_code(29u8) == Option::Some(VarType::SvShortReal),
            VarType::SvShortReal.spec_code() == 29,
            VarType::SvShortReal.spec_name() == "SvShortReal"@,
    {
    }

    /// Numbering is one to one: a value's number stands for that value.
    pub proof fn lemma_code_round_trip(self)
        ensures
            VarType::spec_from_code(self.spec_code()) == Option::Some(self),
    {
    }

    /// Exactly the numbers below 30 stand for a value, and each for the value with that number.
    pub proof fn lemma_from_code(code: u8)
        ensures
            VarType::spec_from_code(code) is Some <==> code < 30,
            VarType::spec_from_code(code) matches Option::Some(v) ==> v.spec_code() == code,
    {
    }

    /// No two values share a name.
    pub proof fn lemma_name_injective(self, other: VarType)
        ensures
            self.spec_name() == other.spec_name() ==> self == other,
    {
        reveal_strlit("GenString");
        reveal_strlit("SvBit");
        reveal_strlit("SvByte");
        reveal_strlit("SvEnum");
        reveal_strlit("SvInt");
        reveal_strlit("SvLogic");
        reveal_strlit("SvLongInt");
        reveal_strlit("SvShortInt");
        reveal_strlit("SvShortReal");
        reveal_strlit("VcdEvent");
        reveal_strlit("VcdInteger");
        reveal_strlit("VcdParameter");
        reveal_strlit("VcdPort");
        reveal_strlit("VcdReal");
        reveal_strlit("VcdRealParameter");
        reveal_strlit("VcdRealtime");
        reveal_strlit("VcdReg");
        reveal_strlit("VcdSpArray");
        reveal_strlit("VcdSupply0");
        reveal_strlit("VcdSupply1");
        reveal_strlit("VcdTime");
        reveal_strlit("VcdTri");
        reveal_strlit("VcdTri0");
        reveal_strlit("VcdTri1");
        reveal_strlit("VcdTriAnd");
        reveal_strlit("VcdTriOr");
        reveal_strlit("VcdTriReg");
        reveal_strlit("VcdWand");
        reveal_strlit("VcdWire");
        reveal_strlit("VcdWor");
        if self != other {
            assert(self.spec_name().len() != other.spec_name().len() || self.spec_name()[4] != other.spec_name()[4] || self.spec_name()[3] != other.spec_name()[3] || self.spec_name()[6] != other.spec_name()[6] || self.spec_name()[9] != other.spec_name()[9]);
        }
    }

    /// Parsing a value's name gives back that value.
    pub proof fn lemma_parse_name(self)
        ensures
            VarType::spec_parse(self.spec_name()) == Option::Some(self),
    {
        let w = choose|v: VarType| v.spec_name() == self.spec_name();
        VarType::lemma_name_injective(self, w);
    }
}

impl TryFrom<u8> for VarType {
    type Error = TryFromIntError;

    fn try_from(value: u8) -> (r: Result<VarType, TryFromIntError>) {
        match VarType::from_code(value) {
            Option::Some(v) => Ok(v),
            Option::None => Err(out_of_range()),
        }
    }
}

impl TryFromSpecImpl<u8> for VarType {
    open spec fn obeys_try_from_spec() -> bool {
        true
    }

    open spec fn try_from_spec(v: u8) -> Result<VarType, TryFromIntError> {
        match VarType::spec_from_code(v) {
            Option::Some(t) => Ok(t),
            Option::None => Err(arbitrary()),
        }
    }
}

impl TryFrom<u32> for VarType {
    type Error = TryFromIntError;

    fn try_from(value: u32) -> (r: Result<VarType, TryFromIntError>) {
        let value: u8 = u8::try_from(value)?;
        VarType::try_from(value)
    }
}

impl TryFromSpecImpl<u32> for VarType {
    open spec fn obeys_try_from_spec() -> bool {
        true
    }

    open spec fn try_from_spec(v: u32) -> Result<VarType, TryFromIntError> {
        if v < 256 {
            match VarType::spec_from_code(v as u8) {
                Option::Some(t) => Ok(t),
                Option::None => Err(arbitrary()),
            }
        } else {
            Err(arbitrary())
        }
    }
}

impl FromStr for VarType {
    type Err = FromStrError;

    fn from_str(s: &str) -> (r: Result<VarType, FromStrError>)
        ensures
            r == match VarType::spec_parse(s@) {
                Option::Some(v) => Ok(v),
                Option::None => Err(FromStrError),
            },
    {
        VarType::parse(s)
    }
}

/// The direction of a variable, as a port.
#[derive(Debug, Clone, Copy, PartialEq, Eq, Structural, PartialOrd, Ord, Hash)]
pub enum VarDir {
    Implicit,
    Input,
    Output,
    Inout,
    Buffer,
    Linkage,
}

impl VarDir {
    /// The number that stands for this value in a waveform file.
    pub open spec fn spec_code(self) -> u8 {
        match self {
            VarDir::Implicit => 0u8,
            VarDir::Input => 1u8,
            VarDir::Output => 2u8,
            VarDir::Inout => 3u8,
            VarDir::Buffer => 4u8,
            VarDir::Linkage => 5u8,
        }
    }

    /// The number that stands for this value in a waveform file.
    #[verifier::when_used_as_spec(spec_code)]
    pub fn code(self) -> (r: u8)
        ensures
            r == self.spec_code(),
    {
        match self {
            VarDir::Implicit => 0,
            VarDir::Input => 1,
            VarDir::Output => 2,
            VarDir::Inout => 3,
            VarDir::Buffer => 4,
            VarDir::Linkage => 5,
        }
    }

    /// The value that a number stands for, if any.
    pub open spec fn spec_from_code(code: u8) -> Option<VarDir> {
        match code {
            0u8 => Option::Some(VarDir::Implicit),
            1u8 => Option::Some(VarDir::Input),
            2u8 => Option::Some(VarDir::Output),
            3u8 => Option::Some(VarDir::Inout),
            4u8 => Option::Some(VarDir::Buffer),
            5u8 => Option::Some(VarDir::Linkage),
            _ => Option::None,
        }
    }

    /// The value that a number stands for, if any.
    pub fn from_code(code: u8) -> (r: Option<VarDir>)
        ensures
            r == VarDir::spec_from_code(code),
    {
        match code {
            0 => Option::Some(VarDir::Implicit),
            1 => Option::Some(VarDir::Input),
            2 => Option::Some(VarDir::Output),
            3 => Option::Some(VarDir::Inout),
            4 => Option::Some(VarDir::Buffer),
            5 => Option::Some(VarDir::Linkage),
            _ => Option::None,
        }
    }

    /// The name of the value, as written in source text and by `Debug`.
    pub open spec fn spec_name(self) -> Seq<char> {
        match self {
            VarDir::Implicit => "Implicit"@,
            VarDir::Input => "Input"@,
            VarDir::Output => "Output"@,
            VarDir::Inout => "Inout"@,
            VarDir::Buffer => "Buffer"@,
            VarDir::Linkage => "Linkage"@,
        }
    }

    /// The name of the value, as written in source text and by `Debug`.
    pub fn name(self) -> (r: &'static str)
        ensures
            r@ == self.spec_name(),
    {
        match self {
            VarDir::Implicit => "Implicit",
            VarDir::Input => "Input",
            VarDir::Output => "Output",
            VarDir::Inout => "Inout",
            VarDir::Buffer => "Buffer",
            VarDir::Linkage => "Linkage",
        }
    }

    /// The value whose name is `s`, if any.
    pub open spec fn spec_parse(s: Seq<char>) -> Option<VarDir> {
        if exists|v: VarDir| v.spec_name() == s {
            Option::Some(choose|v: VarDir| v.spec_name() == s)
        } else {
            Option::None
        }
    }

    /// Every value, in the order of their numbers.
    fn values() -> (r: Vec<VarDir>)
        ensures
            r@.len() == 6,
            forall|v: VarDir| r@[v.spec_code() as int] == v,
    {
        vec![VarDir::Implicit, VarDir::Input, VarDir::Output, VarDir::Inout, VarDir::Buffer, VarDir::Linkage]
    }

    /// The value whose name is `s`; an error where no value has that name.
    pub fn parse(s: &str) -> (r: Result<VarDir, FromStrError>)
        ensures
            r == match VarDir::spec_parse(s@) {
                Option::Some(v) => Ok(v),
                Option::None => Err(FromStrError),
            },
    {
        let values = VarDir::values();
        let mut i: usize = 0;
        while i < values.len()
            invariant
                values@.len() == 6,
                forall|v: VarDir| values@[v.spec_code() as int] == v,
                i <= values.len(),
                forall|j: int| 0 <= j < i ==> values@[j].spec_name() != s@,
            decreases values.len() - i,
        {
            let v = values[i];
            if str_eq(s, v.name()) {
                proof {
                    assert forall|w: VarDir| w.spec_name() == s@ implies w == v by {
                        VarDir::lemma_name_injective(v, w);
                    }
                }
                return Ok(v);
            }
            i = i + 1;
        }
        assert forall|w: VarDir| w.spec_name() != s@ by {
            assert(values@[w.spec_code() as int] == w);
        }
        Err(FromStrError)
    }

    /// The numbers and names of the format, value by value: each number is the one the FST
    /// format gives the value, and each name is the value's own identifier.
    pub proof fn law_numbers_and_names()
        ensures
            VarDir::spec_from_code(0u8) == Option::Some(VarDir::Implicit),
            VarDir::Implicit.spec_code() == 0,
            VarDir::Implicit.spec_name() == "Implicit"@,
            VarDir::spec_from_code(1u8) == Option::Some(VarDir::Input),
            VarDir::Input.spec_code() == 1,
            VarDir::Input.spec_name() == "Input"@,
            VarDir::spec_from_code(2u8) == Option::Some(VarDir::Output),
            VarDir::Output.spec_code() == 2,
            VarDir::Output.spec_name() == "Output"@,
            VarDir::spec_from_code(3u8) == Option::Some(VarDir::Inout),
            VarDir::Inout.spec_code() == 3,
            VarDir::Inout.spec_name() == "Inout"@,
            VarDir::spec_from_code(4u8) == Option::Some(VarDir::Buffer),
            VarDir::Buffer.spec_code() == 4,
            VarDir::Buffer.spec_name() == "Buffer"@,
            VarDir::spec_from_code(5u8) == Option::Some(VarDir::Linkage),
            VarDir::Linkage.spec_code() == 5,
            VarDir::Linkage.spec_name() == "Linkage"@,
    {
    }

    /// Numbering is one to one: a value's number stands for that value.
    pub proof fn lemma_code_round_trip(self)
        ensures
            VarDir::spec_from_code(self.spec_code()) == Option::Some(self),
    {
    }

    /// Exactly the numbers below 6 stand for a value, and each for the value with that number.
    pub proof fn lemma_from_code(code: u8)
        ensures
            VarDir::spec_from_code(code) is Some <==> code < 6,
            VarDir::spec_from_code(code) matches Option::Some(v) ==> v.spec_code() == code,
    {
    }

    /// No two values share a name.
    pub proof fn lemma_name_injective(self, other: VarDir)
        ensures
            self.spec_name() == other.spec_name() ==> self == other,
    {
        reveal_strlit("Buffer");
        reveal_strlit("Implicit");
        reveal_strlit("Inout");
        reveal_strlit("Input");
        reveal_strlit("Linkage");
        reveal_strlit("Output");
        if self != other {
            assert(self.spec_name().len() != other.spec_name().len() || self.spec_name()[2] != other.spec_name()[2]);
        }
    }

    /// Parsing a value's name gives back that value.
    pub proof fn lemma_parse_name(self)
        ensures
            VarDir::spec_parse(self.spec_name()) == Option::Some(self),
    {
        let w = choose|v: VarDir| v.spec_name() == self.spec_name();
        VarDir::lemma_name_injective(self, w);
    }
}

impl TryFrom<u8> for VarDir {
    type Error = TryFromIntError;

    fn try_from(value: u8) -> (r: Result<VarDir, TryFromIntError>) {
        match VarDir::from_code(value) {
            Option::Some(v) => Ok(v),
            Option::None => Err(out_of_range()),
        }
    }
}

impl TryFromSpecImpl<u8> for VarDir {
    open spec fn obeys_try_from_spec() -> bool {
        true
    }

    open spec fn try_from_spec(v: u8) -> Result<VarDir, TryFromIntError> {
        match VarDir::spec_from_code(v) {
            Option::Some(t) => Ok(t),
            Option::None => Err(arbitrary()),
        }
    }
}

impl TryFrom<u32> for VarDir {
    type Error = TryFromIntError;

    fn try_from(value: u32) -> (r: Result<VarDir, TryFromIntError>) {
        let value: u8 = u8::try_from(value)?;
        VarDir::try_from(value)
    }
}

impl TryFromSpecImpl<u32> for VarDir {
    open spec fn obeys_try_from_spec() -> bool {
        true
    }

    open spec fn try_from_spec(v: u32) -> Result<VarDir, TryFromIntError> {
        if v < 256 {
            match VarDir::spec_from_code(v as u8) {
                Option::Some(t) => Ok(t),
                Option::None => Err(arbitrary()),
            }
        } else {
            Err(arbitrary())
        }
    }
}

impl FromStr for VarDir {
    type Err = FromStrError;

    fn from_str(s: &str) -> (r: Result<VarDir, FromStrError>)
        ensures
            r == match VarDir::spec_parse(s@) {
                Option::Some(v) => Ok(v),
                Option::None => Err(FromStrError),
            },
    {
        VarDir::parse(s)
    }
}

/// The subtype of a miscellaneous attribute.
#[derive(Debug, Clone, Copy, PartialEq, Eq, Structural, PartialOrd, Ord, Hash)]
pub enum MiscType {
    Comment,
    EnvVar,
    SupVar,
    PathName,
    SourceStem,
    SourceIStem,
    ValueList,
    EnumTable,
    Unknown,
}

impl MiscType {
    /// The number that stands for this value in a waveform file.
    pub open spec fn spec_code(self) -> u8 {
        match self {
            MiscType::Comment => 0u8,
            MiscType::EnvVar => 1u8,
            MiscType::SupVar => 2u8,
            MiscType::PathName => 3u8,
            MiscType::SourceStem => 4u8,
            MiscType::SourceIStem => 5u8,
            MiscType::ValueList => 6u8,
            MiscType::EnumTable => 7u8,
            MiscType::Unknown => 8u8,
        }
    }

    /// The number that stands for this value in a waveform file.
    #[verifier::when_used_as_spec(spec_code)]
    pub fn code(self) -> (r: u8)
        ensures
            r == self.spec_code(),
    {
        match self {
            MiscType::Comment => 0,
            MiscType::EnvVar => 1,
            MiscType::SupVar => 2,
            MiscType::PathName => 3,
            MiscType::SourceStem => 4,
            MiscType::SourceIStem => 5,
            MiscType::ValueList => 6,
            MiscType::EnumTable => 7,
            MiscType::Unknown => 8,
        }
    }

    /// The value that a number stands for, if any.
    pub open spec fn spec_from_code(code: u8) -> Option<MiscType> {
        match code {
            0u8 => Option::Some(MiscType::Comment),
            1u8 => Option::Some(MiscType::EnvVar),
            2u8 => Option::Some(MiscType::SupVar),
            3u8 => Option::Some(MiscType::PathName),
            4u8 => Option::Some(MiscType::SourceStem),
            5u8 => Option::Some(MiscType::SourceIStem),
            6u8 => Option::Some(MiscType::ValueList),
            7u8 => Option::Some(MiscType::EnumTable),
            8u8 => Option::Some(MiscType::Unknown),
            _ => Option::None,
        }
    }

    /// The value that a number stands for, if any.
    pub fn from_code(code: u8) -> (r: Option<MiscType>)
        ensures
            r == MiscType::spec_from_code(code),
    {
        match code {
            0 => Option::Some(MiscType::Comment),
            1 => Option::Some(MiscType::EnvVar),
            2 => Option::Some(MiscType::SupVar),
            3 => Option::Some(MiscType::PathName),
            4 => Option::Some(MiscType::SourceStem),
            5 => Option::Some(MiscType::SourceIStem),
            6 => Option::Some(MiscType::ValueList),
            7 => Option::Some(MiscType::EnumTable),
            8 => Option::Some(MiscType::Unknown),
            _ => Option::None,
        }
    }

    /// The name of the value, as written in source text and by `Debug`.
    pub open spec fn spec_name(self) -> Seq<char> {
        match self {
            MiscType::Comment => "Comment"@,
            MiscType::EnvVar => "EnvVar"@,
            MiscType::SupVar => "SupVar"@,
            MiscType::PathName => "PathName"@,
            MiscType::SourceStem => "SourceStem"@,
            MiscType::SourceIStem => "SourceIStem"@,
            MiscType::ValueList => "ValueList"@,
            MiscType::EnumTable => "EnumTable"@,
            MiscType::Unknown => "Unknown"@,
        }
    }

    /// The name of the value, as written in source text and by `Debug`.
    pub fn name(self) -> (r: &'static str)
        ensures
            r@ == self.spec_name(),
    {
        match self {
            MiscType::Comment => "Comment",
            MiscType::EnvVar => "EnvVar",
            MiscType::SupVar => "SupVar",
            MiscType::PathName => "PathName",
            MiscType::SourceStem => "SourceStem",
            MiscType::SourceIStem => "SourceIStem",
            MiscType::ValueList => "ValueList",
            MiscType::EnumTable => "EnumTable",
            MiscType::Unknown => "Unknown",
        }
    }

    /// The value whose name is `s`, if any.
    pub open spec fn spec_parse(s: Seq<char>) -> Option<MiscType> {
        if exists|v: MiscType| v.spec_name() == s {
            Option::Some(choose|v: MiscType| v.spec_name() == s)
        } else {
            Option::None
        }
    }

    /// Every value, in the order of their numbers.
    fn values() -> (r: Vec<MiscType>)
        ensures
            r@.len() == 9,
            forall|v: MiscType| r@[v.spec_code() as int] == v,
    {
        vec![MiscType::Comment, MiscType::EnvVar, MiscType::SupVar, MiscType::PathName, MiscType::SourceStem, MiscType::SourceIStem, MiscType::ValueList, MiscType::EnumTable, MiscType::Unknown]
    }

    /// The value whose name is `s`; an error where no value has that name.
    pub fn parse(s: &str) -> (r: Result<MiscType, FromStrError>)
        ensures
            r == match MiscType::spec_parse(s@) {
                Option::Some(v) => Ok(v),
                Option::None => Err(FromStrError),
            },
    {
        let values = MiscType::values();
        let mut i: usize = 0;
        while i < values.len()
            invariant
                values@.len() == 9,
                forall|v: MiscType| values@[v.spec_code() as int] == v,
                i <= values.len(),
                forall|j: int| 0 <= j < i ==> values@[j].spec_name() != s@,
            decreases values.len() - i,
        {
            let v = values[i];
            if str_eq(s, v.name()) {
                proof {
                    assert forall|w: MiscType| w.spec_name() == s@ implies w == v by {
                        MiscType::lemma_name_injective(v, w);
                    }
                }
                return Ok(v);
            }
            i = i + 1;
        }
        assert forall|w: MiscType| w.spec_name() != s@ by {
            assert(values@[w.spec_code() as int] == w);
        }
        Err(FromStrError)
    }

    /// The numbers and names of the format, value by value: each number is the one the FST
    /// format gives the value, and each name is the value's own identifier.
    pub proof fn law_numbers_and_names()
        ensures
            MiscType::spec_from_code(0u8) == Option::Some(MiscType::Comment),
            MiscType::Comment.spec_code() == 0,
            MiscType::Comment.spec_name() == "Comment"@,
            MiscType::spec_from_code(1u8) == Option::Some(MiscType::EnvVar),
            MiscType::EnvVar.spec_code() == 1,
            MiscType::EnvVar.spec_name() == "EnvVar"@,
            MiscType::spec_from_code(2u8) == Option::Some(MiscType::SupVar),
            MiscType::SupVar.spec_code() == 2,
            MiscType::SupVar.spec_name() == "SupVar"@,
            MiscType::spec_from_code(3u8) == Option::Some(MiscType::PathName),
            MiscType::PathName.spec_code() == 3,
            MiscType::PathName.spec_name() == "PathName"@,
            MiscType::spec_from_code(4u8) == Option::Some(MiscType::SourceStem),
            MiscType::SourceStem.spec_code() == 4,
            MiscType::SourceStem.spec_name() == "SourceStem"@,
            MiscType::spec_from_code(5u8) == Option::Some(MiscType::SourceIStem),
            MiscType::SourceIStem.spec_code() == 5,
            MiscType::SourceIStem.spec_name() == "SourceIStem"@,
            MiscType::spec_from_code(6u8) == Option::Some(MiscType::ValueList),
            MiscType::ValueList.spec_code() == 6,
            MiscType::ValueList.spec_name() == "ValueList"@,
            MiscType::spec_from_code(7u8) == Option::Some(MiscType::EnumTable),
            MiscType::EnumTable.spec_code() == 7,
            MiscType::EnumTable.spec_name() == "EnumTable"@,
            MiscType::spec_from_code(8u8) == Option::Some(MiscType::Unknown),
            MiscType::Unknown.spec_code() == 8,
            MiscType::Unknown.spec_name() == "Unknown"@,
    {
    }

    /// Numbering is one to one: a value's number stands for that value.
    pub proof fn lemma_code_round_trip(self)
        ensures
            MiscType::spec_from_code(self.spec_code()) == Option::Some(self),
    {
    }

    /// Exactly the numbers below 9 stand for a value, and each for the value with that number.
    pub proof fn lemma_from_code(code: u8)
        ensures
            MiscType::spec_from_code(code) is Some <==> code < 9,
            MiscType::spec_from_code(code) matches Option::Some(v) ==> v.spec_code() == code,
    {
    }

    /// No two values share a name.
    pub proof fn lemma_name_injective(self, other: MiscType)
        ensures
            self.spec_name() == other.spec_name() ==> self == other,
    {
        reveal_strlit("Comment");
        reveal_strlit("EnumTable");
        reveal_strlit("EnvVar");
        reveal_strlit("PathName");
        reveal_strlit("SourceIStem");
        reveal_strlit("SourceStem");
        reveal_strlit("SupVar");
        reveal_strlit("Unknown");
        reveal_strlit("ValueList");
        if self != other {
            assert(self.spec_name().len() != other.spec_name().len() || self.spec_name()[0] != other.spec_name()[0]);
        }
    }

    /// Parsing a value's name gives back that value.
    pub proof fn lemma_parse_name(self)
        ensures
            MiscType::spec_parse(self.spec_name()) == Option::Some(self),
    {
        let w = choose|v: MiscType| v.spec_name() == self.spec_name();
        MiscType::lemma_name_injective(self, w);
    }
}

impl TryFrom<u8> for MiscType {
    type Error = TryFromIntError;

    fn try_from(value: u8) -> (r: Result<MiscType, TryFromIntError>) {
        match MiscType::from_code(value) {
            Option::Some(v) => Ok(v),
            Option::None => Err(out_of_range()),
        }
    }
}

impl TryFromSpecImpl<u8> for MiscType {
    open spec fn obeys_try_from_spec() -> bool {
        true
    }

    open spec fn try_from_spec(v: u8) -> Result<MiscType, TryFromIntError> {
        match MiscType::spec_from_code(v) {
            Option::Some(t) => Ok(t),
            Option::None => Err(arbitrary()),
        }
    }
}

impl TryFrom<u32> for MiscType {
    type Error = TryFromIntError;

    fn try_from(value: u32) -> (r: Result<MiscType, TryFromIntError>) {
        let value: u8 = u8::try_from(value)?;
        MiscType::try_from(value)
    }
}

impl TryFromSpecImpl<u32> for MiscType {
    open spec fn obeys_try_from_spec() -> bool {
        true
    }

    open spec fn try_from_spec(v: u32) -> Result<MiscType, TryFromIntError> {
        if v < 256 {
            match MiscType::spec_from_code(v as u8) {
                Option::Some(t) => Ok(t),
                Option::None => Err(arbitrary()),
            }
        } else {
            Err(arbitrary())
        }
    }
}

impl FromStr for MiscType {
    type Err = FromStrError;

    fn from_str(s: &str) -> (r: Result<MiscType, FromStrError>)
        ensures
            r == match MiscType::spec_parse(s@) {
                Option::Some(v) => Ok(v),
                Option::None => Err(FromStrError),
            },
    {
        MiscType::parse(s)
    }
}

/// The subtype of an array attribute.
#[derive(Debug, Clone, Copy, PartialEq, Eq, Structural, PartialOrd, Ord, Hash)]
pub enum ArrayType {
    NoArray,
    Unpacked,
    Packed,
    Sparse,
}

impl ArrayType {
    /// The number that stands for this value in a waveform file.
    pub open spec fn spec_code(self) -> u8 {
        match self {
            ArrayType::NoArray => 0u8,
            ArrayType::Unpacked => 1u8,
            ArrayType::Packed => 2u8,
            ArrayType::Sparse => 3u8,
        }
    }

    /// The number that stands for this value in a waveform file.
    #[verifier::when_used_as_spec(spec_code)]
    pub fn code(self) -> (r: u8)
        ensures
            r == self.spec_code(),
    {
        match self {
            ArrayType::NoArray => 0,
            ArrayType::Unpacked => 1,
            ArrayType::Packed => 2,
            ArrayType::Sparse => 3,
        }
    }

    /// The value that a number stands for, if any.
    pub open spec fn spec_from_code(code: u8) -> Option<ArrayType> {
        match code {
            0u8 => Option::Some(ArrayType::NoArray),
            1u8 => Option::Some(ArrayType::Unpacked),
            2u8 => Option::Some(ArrayType::Packed),
            3u8 => Option::Some(ArrayType::Sparse),
            _ => Option::None,
        }
    }

    /// The value that a number stands for, if any.
    pub fn from_code(code: u8) -> (r: Option<ArrayType>)
        ensures
            r == ArrayType::spec_from_code(code),
    {
        match code {
            0 => Option::Some(ArrayType::NoArray),
            1 => Option::Some(ArrayType::Unpacked),
            2 => Option::Some(ArrayType::Packed),
            3 => Option::Some(ArrayType::Sparse),
            _ => Option::None,
        }
    }

    /// The name of the value, as written in source text and by `Debug`.
    pub open spec fn spec_name(self) -> Seq<char> {
        match self {
            ArrayType::NoArray => "None"@,
            ArrayType::Unpacked => "Unpacked"@,
            ArrayType::Packed => "Packed"@,
            ArrayType::Sparse => "Sparse"@,
        }
    }

    /// The name of the value, as written in source text and by `Debug`.
    pub fn name(self) -> (r: &'static str)
        ensures
            r@ == self.spec_name(),
    {
        match self {
            ArrayType::NoArray => "None",
            ArrayType::Unpacked => "Unpacked",
            ArrayType::Packed => "Packed",
            ArrayType::Sparse => "Sparse",
        }
    }

    /// The value whose name is `s`, if any.
    pub open spec fn spec_parse(s: Seq<char>) -> Option<ArrayType> {
        if exists|v: ArrayType| v.spec_name() == s {
            Option::Some(choose|v: ArrayType| v.spec_name() == s)
        } else {
            Option::None
        }
    }

    /// Every value, in the order of their numbers.
    fn values() -> (r: Vec<ArrayType>)
        ensures
            r@.len() == 4,
            forall|v: ArrayType| r@[v.spec_code() as int] == v,
    {
        vec![ArrayType::NoArray, ArrayType::Unpacked, ArrayType::Packed, ArrayType::Sparse]
    }

    /// The value whose name is `s`; an error where no value has that name.
    pub fn parse(s: &str) -> (r: Result<ArrayType, FromStrError>)
        ensures
            r == match ArrayType::spec_parse(s@) {
                Option::Some(v) => Ok(v),
                Option::None => Err(FromStrError),
            },
    {
        let values = ArrayType::values();
        let mut i: usize = 0;
        while i < values.len()
            invariant
                values@.len() == 4,
                forall|v: ArrayType| values@[v.spec_code() as int] == v,
                i <= values.len(),
                forall|j: int| 0 <= j < i ==> values@[j].spec_name() != s@,
            decreases values.len() - i,
        {
            let v = values[i];
            if str_eq(s, v.name()) {
                proof {
                    assert forall|w: ArrayType| w.spec_name() == s@ implies w == v by {
                        ArrayType::lemma_name_injective(v, w);
                    }
                }
                return Ok(v);
            }
            i = i + 1;
        }
        assert forall|w: ArrayType| w.spec_name() != s@ by {
            assert(values@[w.spec_code() as int] == w);
        }
        Err(FromStrError)
    }

    /// The numbers and names of the format, value by value: each number is the one the FST
    /// format gives the value, and each name is the value's own identifier.
    pub proof fn law_numbers_and_names()
        ensures
            ArrayType::spec_from_code(0u8) == Option::Some(ArrayType::NoArray),
            ArrayType::NoArray.spec_code() == 0,
            ArrayType::NoArray.spec_name() == "None"@,
            ArrayType::spec_from_code(1u8) == Option::Some(ArrayType::Unpacked),
            ArrayType::Unpacked.spec_code() == 1,
            ArrayType::Unpacked.spec_name() == "Unpacked"@,
            ArrayType::spec_from_code(2u8) == Option::Some(ArrayType::Packed),
            ArrayType::Packed.spec_code() == 2,
            ArrayType::Packed.spec_name() == "Packed"@,
            ArrayType::spec_from_code(3u8) == Option::Some(ArrayType::Sparse),
            ArrayType::Sparse.spec_code() == 3,
            ArrayType::Sparse.spec_name() == "Sparse"@,
    {
    }

    /// Numbering is one to one: a value's number stands for that value.
    pub proof fn lemma_code_round_trip(self)
        ensures
            ArrayType::spec_from_code(self.spec_code()) == Option::Some(self),
    {
    }

    /// Exactly the numbers below 4 stand for a value, and each for the value with that number.
    pub proof fn lemma_from_code(code: u8)
        ensures
            ArrayType::spec_from_code(code) is Some <==> code < 4,
            ArrayType::spec_from_code(code) matches Option::Some(v) ==> v.spec_code() == code,
    {
    }

    /// No two values share a name.
    pub proof fn lemma_name_injective(self, other: ArrayType)
        ensures
            self.spec_name() == other.spec_name() ==> self == other,
    {
        reveal_strlit("None");
        reveal_strlit("Packed");
        reveal_strlit("Sparse");
        reveal_strlit("Unpacked");
        if self != other {
            assert(self.spec_name().len() != other.spec_name().len() || self.spec_name()[0] != other.spec_name()[0]);
        }
    }

    /// Parsing a value's name gives back that value.
    pub proof fn lemma_parse_name(self)
        ensures
            ArrayType::spec_parse(self.spec_name()) == Option::Some(self),
    {
        let w = choose|v: ArrayType| v.spec_name() == self.spec_name();
        ArrayType::lemma_name_injective(self, w);
    }
}

impl TryFrom<u8> for ArrayType {
    type Error = TryFromIntError;

    fn try_from(value: u8) -> (r: Result<ArrayType, TryFromIntError>) {
        match ArrayType::from_code(value) {
            Option::Some(v) => Ok(v),
            Option::None => Err(out_of_range()),
        }
    }
}

impl TryFromSpecImpl<u8> for ArrayType {
    open spec fn obeys_try_from_spec() -> bool {
        true
    }

    open spec fn try_from_spec(v: u8) -> Result<ArrayType, TryFromIntError> {
        match ArrayType::spec_from_code(v) {
            Option::Some(t) => Ok(t),
            Option::None => Err(arbitrary()),
        }
    }
}

impl TryFrom<u32> for ArrayType {
    type Error = TryFromIntError;

    fn try_from(value: u32) -> (r: Result<ArrayType, TryFromIntError>) {
        let value: u8 = u8::try_from(value)?;
        ArrayType::try_from(value)
    }
}

impl TryFromSpecImpl<u32> for ArrayType {
    open spec fn obeys_try_from_spec() -> bool {
        true
    }

    open spec fn try_from_spec(v: u32) -> Result<ArrayType, TryFromIntError> {
        if v < 256 {
            match ArrayType::spec_from_code(v as u8) {
                Option::Some(t) => Ok(t),
                Option::None => Err(arbitrary()),
            }
        } else {
            Err(arbitrary())
        }
    }
}

impl FromStr for ArrayType {
    type Err = FromStrError;

    fn from_str(s: &str) -> (r: Result<ArrayType, FromStrError>)
        ensures
            r == match ArrayType::spec_parse(s@) {
                Option::Some(v) => Ok(v),
                Option::None => Err(FromStrError),
            },
    {
        ArrayType::parse(s)
    }
}

/// The subtype of an enumeration attribute.
#[derive(Debug, Clone, Copy, PartialEq, Eq, Structural, PartialOrd, Ord, Hash)]
pub enum EnumValueType {
    SvInteger,
    SvBit,
    SvLogic,
    SvInt,
    SvShortInt,
    SvLongInt,
    SvByte,
    SvUnsignedInteger,
    SvUnsignedBit,
    SvUnsignedLogic,
    SvUnsignedInt,
    SvUnsignedShortInt,
    SvUnsignedLongInt,
    SvUnsignedByte,
    Reg,
    Time,
}

impl EnumValueType {
    /// The number that stands for this value in a waveform file.
    pub open spec fn spec_code(self) -> u8 {
        match self {
            EnumValueType::SvInteger => 0u8,
            EnumValueType::SvBit => 1u8,
            EnumValueType::SvLogic => 2u8,
            EnumValueType::SvInt => 3u8,
            EnumValueType::SvShortInt => 4u8,
            EnumValueType::SvLongInt => 5u8,
            EnumValueType::SvByte => 6u8,
            EnumValueType::SvUnsignedInteger => 7u8,
            EnumValueType::SvUnsignedBit => 8u8,
            EnumValueType::SvUnsignedLogic => 9u8,
            EnumValueType::SvUnsignedInt => 10u8,
            EnumValueType::SvUnsignedShortInt => 11u8,
            EnumValueType::SvUnsignedLongInt => 12u8,
            EnumValueType::SvUnsignedByte => 13u8,
            EnumValueType::Reg => 14u8,
            EnumValueType::Time => 15u8,
        }
    }

    /// The number that stands for this value in a waveform file.
    #[verifier::when_used_as_spec(spec_code)]
    pub fn code(self) -> (r: u8)
        ensures
            r == self.spec_code(),
    {
        match self {
            EnumValueType::SvInteger => 0,
            EnumValueType::SvBit => 1,
            EnumValueType::SvLogic => 2,
            EnumValueType::SvInt => 3,
            EnumValueType::SvShortInt => 4,
            EnumValueType::SvLongInt => 5,
            EnumValueType::SvByte => 6,
            EnumValueType::SvUnsignedInteger => 7,
            EnumValueType::SvUnsignedBit => 8,
            EnumValueType::SvUnsignedLogic => 9,
            EnumValueType::SvUnsignedInt => 10,
            EnumValueType::SvUnsignedShortInt => 11,
            EnumValueType::SvUnsignedLongInt => 12,
            EnumValueType::SvUnsignedByte => 13,
            EnumValueType::Reg => 14,
            EnumValueType::Time => 15,
        }
    }

    /// The value that a number stands for, if any.
    pub open spec fn spec_from_code(code: u8) -> Option<EnumValueType> {
        match code {
            0u8 => Option::Some(EnumValueType::SvInteger),
            1u8 => Option::Some(EnumValueType::SvBit),
            2u8 => Option::Some(EnumValueType::SvLogic),
            3u8 => Option::Some(EnumValueType::SvInt),
            4u8 => Option::Some(EnumValueType::SvShortInt),
            5u8 => Option::Some(EnumValueType::SvLongInt),
            6u8 => Option::Some(EnumValueType::SvByte),
            7u8 => Option::Some(EnumValueType::SvUnsignedInteger),
            8u8 => Option::Some(EnumValueType::SvUnsignedBit),
            9u8 => Option::Some(EnumValueType::SvUnsignedLogic),
            10u8 => Option::Some(EnumValueType::SvUnsignedInt),
            11u8 => Option::Some(EnumValueType::SvUnsignedShortInt),
            12u8 => Option::Some(EnumValueType::SvUnsignedLongInt),
            13u8 => Option::Some(EnumValueType::SvUnsignedByte),
            14u8 => Option::Some(EnumValueType::Reg),
            15u8 => Option::Some(EnumValueType::Time),
            _ => Option::None,
        }
    }

    /// The value that a number stands for, if any.
    pub fn from_code(code: u8) -> (r: Option<EnumValueType>)
        ensures
            r == EnumValueType::spec_from_code(code),
    {
        match code {
            0 => Option::Some(EnumValueType::SvInteger),
            1 => Option::Some(EnumValueType::SvBit),
            2 => Option::Some(EnumValueType::SvLogic),
            3 => Option::Some(EnumValueType::SvInt),
            4 => Option::Some(EnumValueType::SvShortInt),
            5 => Option::Some(EnumValueType::SvLongInt),
            6 => Option::Some(EnumValueType::SvByte),
            7 => Option::Some(EnumValueType::SvUnsignedInteger),
            8 => Option::Some(EnumValueType::SvUnsignedBit),
            9 => Option::Some(EnumValueType::SvUnsignedLogic),
            10 => Option::Some(EnumValueType::SvUnsignedInt),
            11 => Option::Some(EnumValueType::SvUnsignedShortInt),
            12 => Option::Some(EnumValueType::SvUnsignedLongInt),
            13 => Option::Some(EnumValueType::SvUnsignedByte),
            14 => Option::Some(EnumValueType::Reg),
            15 => Option::Some(EnumValueType::Time),
            _ => Option::None,
        }
    }

    /// The name of the value, as written in source text and by `Debug`.
    pub open spec fn spec_name(self) -> Seq<char> {
        match self {
            EnumValueType::SvInteger => "SvInteger"@,
            EnumValueType::SvBit => "SvBit"@,
            EnumValueType::SvLogic => "SvLogic"@,
            EnumValueType::SvInt => "SvInt"@,
            EnumValueType::SvShortInt => "SvShortInt"@,
            EnumValueType::SvLongInt => "SvLongInt"@,
            EnumValueType::SvByte => "SvByte"@,
            EnumValueType::SvUnsignedInteger => "SvUnsignedInteger"@,
            EnumValueType::SvUnsignedBit => "SvUnsignedBit"@,
            EnumValueType::SvUnsignedLogic => "SvUnsignedLogic"@,
            EnumValueType::SvUnsignedInt => "SvUnsignedInt"@,
            EnumValueType::SvUnsignedShortInt => "SvUnsignedShortInt"@,
            EnumValueType::SvUnsignedLongInt => "SvUnsignedLongInt"@,
            EnumValueType::SvUnsignedByte => "SvUnsignedByte"@,
            EnumValueType::Reg => "Reg"@,
            EnumValueType::Time => "Time"@,
        }
    }

    /// The name of the value, as written in source text and by `Debug`.
    pub fn name(self) -> (r: &'static str)
        ensures
            r@ == self.spec_name(),
    {
        match self {
            EnumValueType::SvInteger => "SvInteger",
            EnumValueType::SvBit => "SvBit",
            EnumValueType::SvLogic => "SvLogic",
            EnumValueType::SvInt => "SvInt",
            EnumValueType::SvShortInt => "SvShortInt",
            EnumValueType::SvLongInt => "SvLongInt",
            EnumValueType::SvByte => "SvByte",
            EnumValueType::SvUnsignedInteger => "SvUnsignedInteger",
            EnumValueType::SvUnsignedBit => "SvUnsignedBit",
            EnumValueType::SvUnsignedLogic => "SvUnsignedLogic",
            EnumValueType::SvUnsignedInt => "SvUnsignedInt",
            EnumValueType::SvUnsignedShortInt => "SvUnsignedShortInt",
            EnumValueType::SvUnsignedLongInt => "SvUnsignedLongInt",
            EnumValueType::SvUnsignedByte => "SvUnsignedByte",
            EnumValueType::Reg => "Reg",
            EnumValueType::Time => "Time",
        }
    }

    /// The value whose name is `s`, if any.
    pub open spec fn spec_parse(s: Seq<char>) -> Option<EnumValueType> {
        if exists|v: EnumValueType| v.spec_name() == s {
            Option::Some(choose|v: EnumValueType| v.spec_name() == s)
        } else {
            Option::None
        }
    }

    /// Every value, in the order of their numbers.
    fn values() -> (r: Vec<EnumValueType>)
        ensures
            r@.len() == 16,
            forall|v: EnumValueType| r@[v.spec_code() as int] == v,
    {
        vec![EnumValueType::SvInteger, EnumValueType::SvBit, EnumValueType::SvLogic, EnumValueType::SvInt, EnumValueType::SvShortInt, EnumValueType::SvLongInt, EnumValueType::SvByte, EnumValueType::SvUnsignedInteger, EnumValueType::SvUnsignedBit, EnumValueType::SvUnsignedLogic, EnumValueType::SvUnsignedInt, EnumValueType::SvUnsignedShortInt, EnumValueType::SvUnsignedLongInt, EnumValueType::SvUnsignedByte, EnumValueType::Reg, EnumValueType::Time]
    }

    /// The value whose name is `s`; an error where no value has that name.
    pub fn parse(s: &str) -> (r: Result<EnumValueType, FromStrError>)
        ensures
            r == match EnumValueType::spec_parse(s@) {
                Option::Some(v) => Ok(v),
                Option::None => Err(FromStrError),
            },
    {
        let values = EnumValueType::values();
        let mut i: usize = 0;
        while i < values.len()
            invariant
                values@.len() == 16,
                forall|v: EnumValueType| values@[v.spec_code() as int] == v,
                i <= values.len(),
                forall|j: int| 0 <= j < i ==> values@[j].spec_name() != s@,
            decreases values.len() - i,
        {
            let v = values[i];
            if str_eq(s, v.name()) {
                proof {
                    assert forall|w: EnumValueType| w.spec_name() == s@ implies w == v by {
                        EnumValueType::lemma_name_injective(v, w);
                    }
                }
                return Ok(v);
            }
            i = i + 1;
        }
        assert forall|w: EnumValueType| w.spec_name() != s@ by {
            assert(values@[w.spec_code() as int] == w);
        }
        Err(FromStrError)
    }

    /// The numbers and names of the format, value by value: each number is the one the FST
    /// format gives the value, and each name is the value's own identifier.
    pub proof fn law_numbers_and_names()
        ensures
            EnumValueType::spec_from_code(0u8) == Option::Some(EnumValueType::SvInteger),
            EnumValueType::SvInteger.spec_code() == 0,
            EnumValueType::SvInteger.spec_name() == "SvInteger"@,
            EnumValueType::spec_from_code(1u8) == Option::Some(EnumValueType::SvBit),
            EnumValueType::SvBit.spec_code() == 1,
            EnumValueType::SvBit.spec_name() == "SvBit"@,
            EnumValueType::spec_from_code(2u8) == Option::Some(EnumValueType::SvLogic),
            EnumValueType::SvLogic.spec_code() == 2,
            EnumValueType::SvLogic.spec_name() == "SvLogic"@,
            EnumValueType::spec_from_code(3u8) == Option::Some(EnumValueType::SvInt),
            EnumValueType::SvInt.spec_code() == 3,
            EnumValueType::SvInt.spec_name() == "SvInt"@,
            EnumValueType::spec_from_code(4u8) == Option::Some(EnumValueType::SvShortInt),
            EnumValueType::SvShortInt.spec_code() == 4,
            EnumValueType::SvShortInt.spec_name() == "SvShortInt"@,
            EnumValueType::spec_from_code(5u8) == Option::Some(EnumValueType::SvLongInt),
            EnumValueType::SvLongInt.spec_code() == 5,
            EnumValueType::SvLongInt.spec_name() == "SvLongInt"@,
            EnumValueType::spec_from_code(6u8) == Option::Some(EnumValueType::SvByte),
            EnumValueType::SvByte.spec_code() == 6,
            EnumValueType::SvByte.spec_name() == "SvByte"@,
            EnumValueType::spec_from_code(7u8) == Option::Some(EnumValueType::SvUnsignedInteger),
            EnumValueType::SvUnsignedInteger.spec_code() == 7,
            EnumValueType::SvUnsignedInteger.spec_name() == "SvUnsignedInteger"@,
            EnumValueType::spec_from_code(8u8) == Option::Some(EnumValueType::SvUnsignedBit),
            EnumValueType::SvUnsignedBit.spec_code() == 8,
            EnumValueType::SvUnsignedBit.spec_name() == "SvUnsignedBit"@,
            EnumValueType::spec_from_code(9u8) == Option::Some(EnumValueType::SvUnsignedLogic),
            EnumValueType::SvUnsignedLogic.spec_code() == 9,
            EnumValueType::SvUnsignedLogic.spec_name() == "SvUnsignedLogic"@,
            EnumValueType::spec_from_code(10u8) == Option::Some(EnumValueType::SvUnsignedInt),
            EnumValueType::SvUnsignedInt.spec_code() == 10,
            EnumValueType::SvUnsignedInt.spec_name() == "SvUnsignedInt"@,
            EnumValueType::spec_from_code(11u8) == Option::Some(EnumValueType::SvUnsignedShortInt),
            EnumValueType::SvUnsignedShortInt.spec_code() == 11,
            EnumValueType::SvUnsignedShortInt.spec_name() == "SvUnsignedShortInt"@,
            EnumValueType::spec_from_code(12u8) == Option::Some(EnumValueType::SvUnsignedLongInt),
            EnumValueType::SvUnsignedLongInt.spec_code() == 12,
            EnumValueType::SvUnsignedLongInt.spec_name() == "SvUnsignedLongInt"@,
            EnumValueType::spec_from_code(13u8) == Option::Some(EnumValueType::SvUnsignedByte),
            EnumValueType::SvUnsignedByte.spec_code() == 13,
            EnumValueType::SvUnsignedByte.spec_name() == "SvUnsignedByte"@,
            EnumValueType::spec_from_code(14u8) == Option::Some(EnumValueType::Reg),
            EnumValueType::Reg.spec_code() == 14,
            EnumValueType::Reg.spec_name() == "Reg"@,
            EnumValueType::spec_from_code(15u8) == Option::Some(EnumValueType::Time),
            EnumValueType::Time.spec_code() == 15,
            EnumValueType::Time.spec_name() == "Time"@,
    {
    }

    /// Numbering is one to one: a value's number stands for that value.
    pub proof fn lemma_code_round_trip(self)
        ensures
            EnumValueType::spec_from_code(self.spec_code()) == Option::Some(self),
    {
    }

    /// Exactly the numbers below 16 stand for a value, and each for the value with that number.
    pub proof fn lemma_from_code(code: u8)
        ensures
            EnumValueType::spec_from_code(code) is Some <==> code < 16,
            EnumValueType::spec_from_code(code) matches Option::Some(v) ==> v.spec_code() == code,
    {
    }

    /// No two values share a name.
    pub proof fn lemma_name_injective(self, other: EnumValueType)
        ensures
            self.spec_name() == other.spec_name() ==> self == other,
    {
        reveal_strlit("Reg");
        reveal_strlit("SvBit");
        reveal_strlit("SvByte");
        reveal_strlit("SvInt");
        reveal_strlit("SvInteger");
        reveal_strlit("SvLogic");
        reveal_strlit("SvLongInt");
        reveal_strlit("SvShortInt");
        reveal_strlit("SvUnsignedBit");
        reveal_strlit("SvUnsignedByte");
        reveal_strlit("SvUnsignedInt");
        reveal_strlit("SvUnsignedInteger");
        reveal_strlit("SvUnsignedLogic");
        reveal_strlit("SvUnsignedLongInt");
        reveal_strlit("SvUnsignedShortInt");
        reveal_strlit("Time");
        if self != other {
            assert(self.spec_name().len() != other.spec_name().len() || self.spec_name()[2] != other.spec_name()[2] || self.spec_name()[10] != other.spec_name()[10]);
        }
    }

    /// Parsing a value's name gives back that value.
    pub proof fn lemma_parse_name(self)
        ensures
            EnumValueType::spec_parse(self.spec_name()) == Option::Some(self),
    {
        let w = choose|v: EnumValueType| v.spec_name() == self.spec_name();
        EnumValueType::lemma_name_injective(self, w);
    }
}

impl TryFrom<u8> for EnumValueType {
    type Error = TryFromIntError;

    fn try_from(value: u8) -> (r: Result<EnumValueType, TryFromIntError>) {
        match EnumValueType::from_code(value) {
            Option::Some(v) => Ok(v),
            Option::None => Err(out_of_range()),
        }
    }
}

impl TryFromSpecImpl<u8> for EnumValueType {
    open spec fn obeys_try_from_spec() -> bool {
        true
    }

    open spec fn try_from_spec(v: u8) -> Result<EnumValueType, TryFromIntError> {
        match EnumValueType::spec_from_code(v) {
            Option::Some(t) => Ok(t),
            Option::None => Err(arbitrary()),
        }
    }
}

impl TryFrom<u32> for EnumValueType {
    type Error = TryFromIntError;

    fn try_from(value: u32) -> (r: Result<EnumValueType, TryFromIntError>) {
        let value: u8 = u8::try_from(value)?;
        EnumValueType::try_from(value)
    }
}

impl TryFromSpecImpl<u32> for EnumValueType {
    open spec fn obeys_try_from_spec() -> bool {
        true
    }

    open spec fn try_from_spec(v: u32) -> Result<EnumValueType, TryFromIntError> {
        if v < 256 {
            match EnumValueType::spec_from_code(v as u8) {
                Option::Some(t) => Ok(t),
                Option::None => Err(arbitrary()),
            }
        } else {
            Err(arbitrary())
        }
    }
}

impl FromStr for EnumValueType {
    type Err = FromStrError;

    fn from_str(s: &str) -> (r: Result<EnumValueType, FromStrError>)
        ensures
            r == match EnumValueType::spec_parse(s@) {
                Option::Some(v) => Ok(v),
                Option::None => Err(FromStrError),
            },
    {
        EnumValueType::parse(s)
    }
}

/// The subtype of a packing attribute.
#[derive(Debug, Clone, Copy, PartialEq, Eq, Structural, PartialOrd, Ord, Hash)]
pub enum PackType {
    NoPack,
    Unpacked,
    Packed,
    TaggedPacked,
}

impl PackType {
    /// The number that stands for this value in a waveform file.
    pub open spec fn spec_code(self) -> u8 {
        match self {
            PackType::NoPack => 0u8,
            PackType::Unpacked => 1u8,
            PackType::Packed => 2u8,
            PackType::TaggedPacked => 3u8,
        }
    }

    /// The number that stands for this value in a waveform file.
    #[verifier::when_used_as_spec(spec_code)]
    pub fn code(self) -> (r: u8)
        ensures
            r == self.spec_code(),
    {
        match self {
            PackType::NoPack => 0,
            PackType::Unpacked => 1,
            PackType::Packed => 2,
            PackType::TaggedPacked => 3,
        }
    }

    /// The value that a number stands for, if any.
    pub open spec fn spec_from_code(code: u8) -> Option<PackType> {
        match code {
            0u8 => Option::Some(PackType::NoPack),
            1u8 => Option::Some(PackType::Unpacked),
            2u8 => Option::Some(PackType::Packed),
            3u8 => Option::Some(PackType::TaggedPacked),
            _ => Option::None,
        }
    }

    /// The value that a number stands for, if any.
    pub fn from_code(code: u8) -> (r: Option<PackType>)
        ensures
            r == PackType::spec_from_code(code),
    {
        match code {
            0 => Option::Some(PackType::NoPack),
            1 => Option::Some(PackType::Unpacked),
            2 => Option::Some(PackType::Packed),
            3 => Option::Some(PackType::TaggedPacked),
            _ => Option::None,
        }
    }

    /// The name of the value, as written in source text and by `Debug`.
    pub open spec fn spec_name(self) -> Seq<char> {
        match self {
            PackType::NoPack => "None"@,
            PackType::Unpacked => "Unpacked"@,
            PackType::Packed => "Packed"@,
            PackType::TaggedPacked => "TaggedPacked"@,
        }
    }

    /// The name of the value, as written in source text and by `Debug`.
    pub fn name(self) -> (r: &'static str)
        ensures
            r@ == self.spec_name(),
    {
        match self {
            PackType::NoPack => "None",
            PackType::Unpacked => "Unpacked",
            PackType::Packed => "Packed",
            PackType::TaggedPacked => "TaggedPacked",
        }
    }

    /// The value whose name is `s`, if any.
    pub open spec fn spec_parse(s: Seq<char>) -> Option<PackType> {
        if exists|v: PackType| v.spec_name() == s {
            Option::Some(choose|v: PackType| v.spec_name() == s)
        } else {
            Option::None
        }
    }

    /// Every value, in the order of their numbers.
    fn values() -> (r: Vec<PackType>)
        ensures
            r@.len() == 4,
            forall|v: PackType| r@[v.spec_code() as int] == v,
    {
        vec![PackType::NoPack, PackType::Unpacked, PackType::Packed, PackType::TaggedPacked]
    }

    /// The value whose name is `s`; an error where no value has that name.
    pub fn parse(s: &str) -> (r: Result<PackType, FromStrError>)
        ensures
            r == match PackType::spec_parse(s@) {
                Option::Some(v) => Ok(v),
                Option::None => Err(FromStrError),
            },
    {
        let values = PackType::values();
        let mut i: usize = 0;
        while i < values.len()
            invariant
                values@.len() == 4,
                forall|v: PackType| values@[v.spec_code() as int] == v,
                i <= values.len(),
                forall|j: int| 0 <= j < i ==> values@[j].spec_name() != s@,
            decreases values.len() - i,
        {
            let v = values[i];
            if str_eq(s, v.name()) {
                proof {
                    assert forall|w: PackType| w.spec_name() == s@ implies w == v by {
                        PackType::lemma_name_injective(v, w);
                    }
                }
                return Ok(v);
            }
            i = i + 1;
        }
        assert forall|w: PackType| w.spec_name() != s@ by {
            assert(values@[w.spec_code() as int] == w);
        }
        Err(FromStrError)
    }

    /// The numbers and names of the format, value by value: each number is the one the FST
    /// format gives the value, and each name is the value's own identifier.
    pub proof fn law_numbers_and_names()
        ensures
            PackType::spec_from_code(0u8) == Option::Some(PackType::NoPack),
            PackType::NoPack.spec_code() == 0,
            PackType::NoPack.spec_name() == "None"@,
            PackType::spec_from_code(1u8) == Option::Some(PackType::Unpacked),
            PackType::Unpacked.spec_code() == 1,
            PackType::Unpacked.spec_name() == "Unpacked"@,
            PackType::spec_from_code(2u8) == Option::Some(PackType::Packed),
            PackType::Packed.spec_code() == 2,
            PackType::Packed.spec_name() == "Packed"@,
            PackType::spec_from_code(3u8) == Option::Some(PackType::TaggedPacked),
            PackType::TaggedPacked.spec_code() == 3,
            PackType::TaggedPacked.spec_name() == "TaggedPacked"@,
    {
    }

    /// Numbering is one to one: a value's number stands for that value.
    pub proof fn lemma_code_round_trip(self)
        ensures
            PackType::spec_from_code(self.spec_code()) == Option::Some(self),
    {
    }

    /// Exactly the numbers below 4 stand for a value, and each for the value with that number.
    pub proof fn lemma_from_code(code: u8)
        ensures
            PackType::spec_from_code(code) is Some <==> code < 4,
            PackType::spec_from_code(code) matches Option::Some(v) ==> v.spec_code() == code,
    {
    }

    /// No two values share a name.
    pub proof fn lemma_name_injective(self, other: PackType)
        ensures
            self.spec_name() == other.spec_name() ==> self == other,
    {
        reveal_strlit("None");
        reveal_strlit("Packed");
        reveal_strlit("TaggedPacked");
        reveal_strlit("Unpacked");
        if self != other {
            assert(self.spec_name().len() != other.spec_name().len());
        }
    }

    /// Parsing a value's name gives back that value.
    pub proof fn lemma_parse_name(self)
        ensures
            PackType::spec_parse(self.spec_name()) == Option::Some(self),
    {
        let w = choose|v: PackType| v.spec_name() == self.spec_name();
        PackType::lemma_name_injective(self, w);
    }
}

impl TryFrom<u8> for PackType {
    type Error = TryFromIntError;

    fn try_from(value: u8) -> (r: Result<PackType, TryFromIntError>) {
        match PackType::from_code(value) {
            Option::Some(v) => Ok(v),
            Option::None => Err(out_of_range()),
        }
    }
}

impl TryFromSpecImpl<u8> for PackType {
    open spec fn obeys_try_from_spec() -> bool {
        true
    }

    open spec fn try_from_spec(v: u8) -> Result<PackType, TryFromIntError> {
        match PackType::spec_from_code(v) {
            Option::Some(t) => Ok(t),
            Option::None => Err(arbitrary()),
        }
    }
}

impl TryFrom<u32> for PackType {
    type Error = TryFromIntError;

    fn try_from(value: u32) -> (r: Result<PackType, TryFromIntError>) {
        let value: u8 = u8::try_from(value)?;
        PackType::try_from(value)
    }
}

impl TryFromSpecImpl<u32> for PackType {
    open spec fn obeys_try_from_spec() -> bool {
        true
    }

    open spec fn try_from_spec(v: u32) -> Result<PackType, TryFromIntError> {
        if v < 256 {
            match PackType::spec_from_code(v as u8) {
                Option::Some(t) => Ok(t),
                Option::None => Err(arbitrary()),
            }
        } else {
            Err(arbitrary())
        }
    }
}

impl FromStr for PackType {
    type Err = FromStrError;

    fn from_str(s: &str) -> (r: Result<PackType, FromStrError>)
        ensures
            r == match PackType::spec_parse(s@) {
                Option::Some(v) => Ok(v),
                Option::None => Err(FromStrError),
            },
    {
        PackType::parse(s)
    }
}

/// The language a waveform file was written from.
#[derive(Debug, Clone, Copy, PartialEq, Eq, Structural, PartialOrd, Ord, Hash)]
pub enum FileType {
    Verilog,
    Vhdl,
    VerilogVhdl,
}

impl FileType {
    /// The number that stands for this value in a waveform file.
    pub open spec fn spec_code(self) -> u8 {
        match self {
            FileType::Verilog => 0u8,
            FileType::Vhdl => 1u8,
            FileType::VerilogVhdl => 2u8,
        }
    }

    /// The number that stands for this value in a waveform file.
    #[verifier::when_used_as_spec(spec_code)]
    pub fn code(self) -> (r: u8)
        ensures
            r == self.spec_code(),
    {
        match self {
            FileType::Verilog => 0,
            FileType::Vhdl => 1,
            FileType::VerilogVhdl => 2,
        }
    }

    /// The value that a number stands for, if any.
    pub open spec fn spec_from_code(code: u8) -> Option<FileType> {
        match code {
            0u8 => Option::Some(FileType::Verilog),
            1u8 => Option::Some(FileType::Vhdl),
            2u8 => Option::Some(FileType::VerilogVhdl),
            _ => Option::None,
        }
    }

    /// The value that a number stands for, if any.
    pub fn from_code(code: u8) -> (r: Option<FileType>)
        ensures
            r == FileType::spec_from_code(code),
    {
        match code {
            0 => Option::Some(FileType::Verilog),
            1 => Option::Some(FileType::Vhdl),
            2 => Option::Some(FileType::VerilogVhdl),
            _ => Option::None,
        }
    }

    /// The name of the value, as written in source text and by `Debug`.
    pub open spec fn spec_name(self) -> Seq<char> {
        match self {
            FileType::Verilog => "Verilog"@,
            FileType::Vhdl => "Vhdl"@,
            FileType::VerilogVhdl => "VerilogVhdl"@,
        }
    }

    /// The name of the value, as written in source text and by `Debug`.
    pub fn name(self) -> (r: &'static str)
        ensures
            r@ == self.spec_name(),
    {
        match self {
            FileType::Verilog => "Verilog",
            FileType::Vhdl => "Vhdl",
            FileType::VerilogVhdl => "VerilogVhdl",
        }
    }

    /// The value whose name is `s`, if any.
    pub open spec fn spec_parse(s: Seq<char>) -> Option<FileType> {
        if exists|v: FileType| v.spec_name() == s {
            Option::Some(choose|v: FileType| v.spec_name() == s)
        } else {
            Option::None
        }
    }

    /// Every value, in the order of their numbers.
    fn values() -> (r: Vec<FileType>)
        ensures
            r@.len() == 3,
            forall|v: FileType| r@[v.spec_code() as int] == v,
    {
        vec![FileType::Verilog, FileType::Vhdl, FileType::VerilogVhdl]
    }

    /// The value whose name is `s`; an error where no value has that name.
    pub fn parse(s: &str) -> (r: Result<FileType, FromStrError>)
        ensures
            r == match FileType::spec_parse(s@) {
                Option::Some(v) => Ok(v),
                Option::None => Err(FromStrError),
            },
    {
        let values = FileType::values();
        let mut i: usize = 0;
        while i < values.len()
            invariant
                values@.len() == 3,
                forall|v: FileType| values@[v.spec_code() as int] == v,
                i <= values.len(),
                forall|j: int| 0 <= j < i ==> values@[j].spec_name() != s@,
            decreases values.len() - i,
        {
            let v = values[i];
            if str_eq(s, v.name()) {
                proof {
                    assert forall|w: FileType| w.spec_name() == s@ implies w == v by {
                        FileType::lemma_name_injective(v, w);
                    }
                }
                return Ok(v);
            }
            i = i + 1;
        }
        assert forall|w: FileType| w.spec_name() != s@ by {
            assert(values@[w.spec_code() as int] == w);
        }
        Err(FromStrError)
    }

    /// The numbers and names of the format, value by value: each number is the one the FST
    /// format gives the value, and each name is the value's own identifier.
    pub proof fn law_numbers_and_names()
        ensures
            FileType::spec_from_code(0u8) == Option::Some(FileType::Verilog),
            FileType::Verilog.spec_code() == 0,
            FileType::Verilog.spec_name() == "Verilog"@,
            FileType::spec_from_code(1u8) == Option::Some(FileType::Vhdl),
            FileType::Vhdl.spec_code() == 1,
            FileType::Vhdl.spec_name() == "Vhdl"@,
            FileType::spec_from_code(2u8) == Option::Some(FileType::VerilogVhdl),
            FileType::VerilogVhdl.spec_code() == 2,
            FileType::VerilogVhdl.spec_name() == "VerilogVhdl"@,
    {
    }

    /// Numbering is one to one: a value's number stands for that value.
    pub proof fn lemma_code_round_trip(self)
        ensures
            FileType::spec_from_code(self.spec_code()) == Option::Some(self),
    {
    }

    /// Exactly the numbers below 3 stand for a value, and each for the value with that number.
    pub proof fn lemma_from_code(code: u8)
        ensures
            FileType::spec_from_code(code) is Some <==> code < 3,
            FileType::spec_from_code(code) matches Option::Some(v) ==> v.spec_code() == code,
    {
    }

    /// No two values share a name.
    pub proof fn lemma_name_injective(self, other: FileType)
        ensures
            self.spec_name() == other.spec_name() ==> self == other,
    {
        reveal_strlit("Verilog");
        reveal_strlit("VerilogVhdl");
        reveal_strlit("Vhdl");
        if self != other {
            assert(self.spec_name().len() != other.spec_name().len());
        }
    }

    /// Parsing a value's name gives back that value.
    pub proof fn lemma_parse_name(self)
        ensures
            FileType::spec_parse(self.spec_name()) == Option::Some(self),
    {
        let w = choose|v: FileType| v.spec_name() == self.spec_name();
        FileType::lemma_name_injective(self, w);
    }
}

impl TryFrom<u8> for FileType {
    type Error = TryFromIntError;

    fn try_from(value: u8) -> (r: Result<FileType, TryFromIntError>) {
        match FileType::from_code(value) {
            Option::Some(v) => Ok(v),
            Option::None => Err(out_of_range()),
        }
    }
}

impl TryFromSpecImpl<u8> for FileType {
    open spec fn obeys_try_from_spec() -> bool {
        true
    }

    open spec fn try_from_spec(v: u8) -> Result<FileType, TryFromIntError> {
        match FileType::spec_from_code(v) {
            Option::Some(t) => Ok(t),
            Option::None => Err(arbitrary()),
        }
    }
}

impl TryFrom<u32> for FileType {
    type Error = TryFromIntError;

    fn try_from(value: u32) -> (r: Result<FileType, TryFromIntError>) {
        let value: u8 = u8::try_from(value)?;
        FileType::try_from(value)
    }
}

impl TryFromSpecImpl<u32> for FileType {
    open spec fn obeys_try_from_spec() -> bool {
        true
    }

    open spec fn try_from_spec(v: u32) -> Result<FileType, TryFromIntError> {
        if v < 256 {
            match FileType::spec_from_code(v as u8) {
                Option::Some(t) => Ok(t),
                Option::None => Err(arbitrary()),
            }
        } else {
            Err(arbitrary())
        }
    }
}

impl FromStr for FileType {
    type Err = FromStrError;

    fn from_str(s: &str) -> (r: Result<FileType, FromStrError>)
        ensures
            r == match FileType::spec_parse(s@) {
                Option::Some(v) => Ok(v),
                Option::None => Err(FromStrError),
            },
    {
        FileType::parse(s)
    }
}


/// The type of an attribute: its kind, and its subtype within that kind.
#[derive(Debug, Clone, Copy, PartialEq, Eq, Structural, PartialOrd, Ord, Hash)]
pub enum AttrType {
    Misc(MiscType),
    Array(ArrayType),
    Enum(EnumValueType),
    Pack(PackType),
}

impl AttrType {
    /// The number that stands for the kind of the attribute.
    pub open spec fn spec_kind(self) -> u8 {
        match self {
            AttrType::Misc(_) => 0u8,
            AttrType::Array(_) => 1u8,
            AttrType::Enum(_) => 2u8,
            AttrType::Pack(_) => 3u8,
        }
    }

    /// The number that stands for the subtype within the kind.
    pub open spec fn spec_subtype(self) -> u8 {
        match self {
            AttrType::Misc(t) => t.spec_code(),
            AttrType::Array(t) => t.spec_code(),
            AttrType::Enum(t) => t.spec_code(),
            AttrType::Pack(t) => t.spec_code(),
        }
    }

    /// The attribute type that a kind and a subtype stand for, if any.
    pub open spec fn spec_from_codes(kind: u8, subtype: u8) -> Option<AttrType> {
        match kind {
            0u8 => match MiscType::spec_from_code(subtype) {
                Option::Some(t) => Option::Some(AttrType::Misc(t)),
                Option::None => Option::None,
            },
            1u8 => match ArrayType::spec_from_code(subtype) {
                Option::Some(t) => Option::Some(AttrType::Array(t)),
                Option::None => Option::None,
            },
            2u8 => match EnumValueType::spec_from_code(subtype) {
                Option::Some(t) => Option::Some(AttrType::Enum(t)),
                Option::None => Option::None,
            },
            3u8 => match PackType::spec_from_code(subtype) {
                Option::Some(t) => Option::Some(AttrType::Pack(t)),
                Option::None => Option::None,
            },
            _ => Option::None,
        }
    }

    /// The text that `Debug` writes for the attribute type, such as `Misc(Comment)`.
    pub open spec fn spec_debug(self) -> Seq<char> {
        match self {
            AttrType::Misc(t) => "Misc("@ + t.spec_name() + ")"@,
            AttrType::Array(t) => "Array("@ + t.spec_name() + ")"@,
            AttrType::Enum(t) => "Enum("@ + t.spec_name() + ")"@,
            AttrType::Pack(t) => "Pack("@ + t.spec_name() + ")"@,
        }
    }

    /// The text that `Debug` writes for the attribute type, such as `Misc(Comment)`.
    pub fn debug_text(self) -> (r: String)
        ensures
            r@ == self.spec_debug(),
    {
        let mut r = String::new();
        match self {
            AttrType::Misc(t) => {
                r.append("Misc(");
                r.append(t.name());
            },
            AttrType::Array(t) => {
                r.append("Array(");
                r.append(t.name());
            },
            AttrType::Enum(t) => {
                r.append("Enum(");
                r.append(t.name());
            },
            AttrType::Pack(t) => {
                r.append("Pack(");
                r.append(t.name());
            },
        }
        r.append(")");
        r
    }

    /// The kinds of attributes as the FST format numbers them: miscellaneous 0, array 1,
    /// enumeration 2, packing 3, each with its subtype's own number.
    pub proof fn law_kind_numbers(misc: MiscType, array: ArrayType, e: EnumValueType, pack: PackType)
        ensures
            AttrType::Misc(misc).spec_kind() == 0 && AttrType::Misc(misc).spec_subtype() == misc.spec_code(),
            AttrType::Array(array).spec_kind() == 1 && AttrType::Array(array).spec_subtype()
                == array.spec_code(),
            AttrType::Enum(e).spec_kind() == 2 && AttrType::Enum(e).spec_subtype() == e.spec_code(),
            AttrType::Pack(pack).spec_kind() == 3 && AttrType::Pack(pack).spec_subtype()
                == pack.spec_code(),
            AttrType::spec_from_codes(0, misc.spec_code()) == Option::Some(AttrType::Misc(misc)),
            AttrType::spec_from_codes(1, array.spec_code()) == Option::Some(AttrType::Array(array)),
            AttrType::spec_from_codes(2, e.spec_code()) == Option::Some(AttrType::Enum(e)),
            AttrType::spec_from_codes(3, pack.spec_code()) == Option::Some(AttrType::Pack(pack)),
    {
    }

    /// A kind and a subtype read back give the attribute type they came from.
    pub proof fn lemma_codes_round_trip(self)
        ensures
            AttrType::spec_from_codes(self.spec_kind(), self.spec_subtype()) == Option::Some(self),
    {
    }

    /// Only kinds below 4 with a subtype valid for the kind stand for an attribute type,
    /// and the attribute type has that kind and that subtype.
    pub proof fn lemma_from_codes(kind: u8, subtype: u8)
        ensures
            AttrType::spec_from_codes(kind, subtype) matches Option::Some(a) ==> a.spec_kind()
                == kind && a.spec_subtype() == subtype,
            kind >= 4 ==> AttrType::spec_from_codes(kind, subtype) is None,
    {
        MiscType::lemma_from_code(subtype);
        ArrayType::lemma_from_code(subtype);
        EnumValueType::lemma_from_code(subtype);
        PackType::lemma_from_code(subtype);
    }
}

impl TryFrom<(u8, u8)> for AttrType {
    type Error = TryFromIntError;

    fn try_from(value: (u8, u8)) -> (r: Result<AttrType, TryFromIntError>) {
        match value.0 {
            0 => Ok(AttrType::Misc(MiscType::try_from(value.1)?)),
            1 => Ok(AttrType::Array(ArrayType::try_from(value.1)?)),
            2 => Ok(AttrType::Enum(EnumValueType::try_from(value.1)?)),
            3 => Ok(AttrType::Pack(PackType::try_from(value.1)?)),
            _ => Err(out_of_range()),
        }
    }
}

impl TryFromSpecImpl<(u8, u8)> for AttrType {
    open spec fn obeys_try_from_spec() -> bool {
        true
    }

    open spec fn try_from_spec(v: (u8, u8)) -> Result<AttrType, TryFromIntError> {
        match AttrType::spec_from_codes(v.0, v.1) {
            Option::Some(a) => Ok(a),
            Option::None => Err(arbitrary()),
        }
    }
}

/// The language of a file, from the number that the reader of the file reports for it.
pub fn file_type_from_raw(raw: i32) -> (r: Result<FileType, TryFromIntError>)
    ensures
        r == if 0 <= raw < 256 {
            match FileType::spec_from_code(raw as u8) {
                Option::Some(t) => Ok(t),
                Option::None => Err(arbitrary::<TryFromIntError>()),
            }
        } else {
            Err(arbitrary::<TryFromIntError>())
        },
{
    let b: u8 = u8::try_from(raw)?;
    FileType::try_from(b)
}

} // verus!
