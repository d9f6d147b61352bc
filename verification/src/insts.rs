use vstd::prelude::*;
use crate::constant::Constant;
use crate::immediate::Immediate;
use crate::types::{FuncRef, Type};

verus! {

/// Handle of an instruction within a function's data-flow graph.
#[derive(Clone, Copy, Debug, PartialEq, Eq, Structural)]
pub struct Inst(pub usize);

/// Handle of an SSA value within a function's data-flow graph.
#[derive(Clone, Copy, Debug, PartialEq, Eq, Structural)]
pub struct Value(pub usize);

/// Handle of a basic block within a function's data-flow graph.
#[derive(Clone, Copy, Debug, PartialEq, Eq, Structural)]
pub struct Block(pub usize);

/// The operation an instruction performs. The payload shape is carried
/// by the enclosing `InstData` variant; the opcode distinguishes
/// operations that share a payload shape.
#[derive(Clone, Copy, Debug, PartialEq, Eq, Structural)]
pub enum Opcode {
    ImmInt,
    ImmFloat,
    ImmBool,
    ImmAtom,
    ImmNil,
    ImmNone,
    ImmNull,
    ConstBigInt,
    ConstBinary,
    ConstTuple,
    ConstList,
    ConstMap,
    Cast,
    Trunc,
    Zext,
    IsNull,
    Head,
    Tail,
    Neg,
    Not,
    Bnot,
    Tuple,
    IsTaggedTuple,
    Eq,
    EqExact,
    Neq,
    NeqExact,
    Gt,
    Gte,
    Lt,
    Lte,
    IcmpEq,
    IcmpNeq,
    IcmpGt,
    IcmpGte,
    IcmpLt,
    IcmpLte,
    And,
    AndAlso,
    Or,
    OrElse,
    Xor,
    Band,
    Bor,
    Bxor,
    Div,
    Rem,
    Bsl,
    Bsr,
    Add,
    Sub,
    Mul,
    Fdiv,
    Cons,
    GetElement,
    SetElement,
    SetElementMut,
    UnpackEnv,
    ListConcat,
    ListSubtract,
    Br,
    BrIf,
    BrUnless,
    CondBr,
    Switch,
    Ret,
    Call,
    Enter,
    CallIndirect,
    EnterIndirect,
    MakeFun,
    RecvStart,
    RecvNext,
    RecvPeek,
    RecvPop,
    RecvWait,
    BitsTestTail,
    BitsMatchStart,
    BitsMatch,
    BitsMatchSkip,
    BitsPush,
    Raise,
    MatchFail,
    BuildStacktrace,
    ExceptionClass,
    ExceptionReason,
    ExceptionTrace,
    IsType,
}

/// Byte order of a binary segment specifier.
#[derive(Clone, Copy, Debug, PartialEq, Eq, Structural)]
pub enum Endianness {
    Big,
    Little,
    Native,
}

/// Describes one segment of a binary pattern: what is matched or
/// pushed, with what unit size, signedness and byte order.
#[derive(Clone, Copy, Debug, PartialEq, Eq, Structural)]
pub enum BinaryEntrySpecifier {
    Integer { signed: bool, endianness: Endianness, unit: u8 },
    Float { endianness: Endianness, unit: u8 },
    Utf8,
    Utf16 { endianness: Endianness },
    Utf32 { endianness: Endianness },
    Binary { unit: u8 },
}

/// An operation with one value argument.
#[derive(Debug, PartialEq, Eq)]
pub struct UnaryOp {
    pub op: Opcode,
    pub arg: Value,
}

/// An operation with one immediate argument.
#[derive(Debug, PartialEq, Eq)]
pub struct UnaryOpImm {
    pub op: Opcode,
    pub imm: Immediate,
}

/// An operation with one constant-pool argument.
#[derive(Debug, PartialEq, Eq)]
pub struct UnaryOpConst {
    pub op: Opcode,
    pub imm: Constant,
}

/// An operation with two value arguments.
#[derive(Debug, PartialEq, Eq)]
pub struct BinaryOp {
    pub op: Opcode,
    pub args: (Value, Value),
}

/// An operation with one value argument and an immediate right-hand
/// side.
#[derive(Debug, PartialEq, Eq)]
pub struct BinaryOpImm {
    pub op: Opcode,
    pub arg: Value,
    pub imm: Immediate,
}

/// An operation with one value argument and a constant-pool right-hand
/// side.
#[derive(Debug, PartialEq, Eq)]
pub struct BinaryOpConst {
    pub op: Opcode,
    pub arg: Value,
    pub imm: Constant,
}

/// A two-arity return: the first argument is the is-error flag, the
/// second the returned payload.
#[derive(Debug, PartialEq, Eq)]
pub struct Ret {
    pub op: Opcode,
    pub args: (Value, Value),
}

/// A return whose is-error flag is an immediate.
#[derive(Debug, PartialEq, Eq)]
pub struct RetImm {
    pub op: Opcode,
    pub imm: Immediate,
    pub arg: Value,
}

/// A branch to a destination block carrying arguments. For the
/// conditional `BrIf`/`BrUnless` forms the first argument is the
/// condition and the rest are the destination's arguments.
#[derive(Debug, PartialEq, Eq)]
pub struct Br {
    pub op: Opcode,
    pub destination: Block,
    pub args: Vec<Value>,
}

/// A two-way conditional branch; each edge carries its own arguments.
#[derive(Debug, PartialEq, Eq)]
pub struct CondBr {
    pub cond: Value,
    pub then_dest: (Block, Vec<Value>),
    pub else_dest: (Block, Vec<Value>),
}

/// A multi-way dispatch on an integer value; keys are unique and the
/// destination blocks take no arguments.
#[derive(Debug, PartialEq, Eq)]
pub struct SwitchData {
    pub op: Opcode,
    pub arg: Value,
    pub arms: Vec<(u32, Block)>,
    pub default: Block,
}

/// A runtime type test of a value against a static type.
#[derive(Debug, PartialEq, Eq)]
pub struct IsTypeData {
    pub arg: Value,
    pub ty: Type,
}

/// A direct call of a known function.
#[derive(Debug, PartialEq, Eq)]
pub struct Call {
    pub op: Opcode,
    pub callee: FuncRef,
    pub args: Vec<Value>,
}

/// An indirect call through a closure or fun value.
#[derive(Debug, PartialEq, Eq)]
pub struct CallIndirect {
    pub op: Opcode,
    pub callee: Value,
    pub args: Vec<Value>,
}

/// A primitive runtime operation over a list of values.
#[derive(Debug, PartialEq, Eq)]
pub struct PrimOp {
    pub op: Opcode,
    pub args: Vec<Value>,
}

/// A primitive runtime operation with an extra immediate argument.
#[derive(Debug, PartialEq, Eq)]
pub struct PrimOpImm {
    pub op: Opcode,
    pub imm: Immediate,
    pub args: Vec<Value>,
}

/// Materializes a closure over a known callee and a captured
/// environment.
#[derive(Debug, PartialEq, Eq)]
pub struct MakeFun {
    pub callee: FuncRef,
    pub env: Vec<Value>,
}

/// Produces a new tuple with one element replaced; the arguments are
/// the tuple and the new element value.
#[derive(Debug, PartialEq, Eq)]
pub struct SetElement {
    pub op: Opcode,
    pub index: Immediate,
    pub args: (Value, Value),
}

/// `SetElement` with an immediate new element.
#[derive(Debug, PartialEq, Eq)]
pub struct SetElementImm {
    pub op: Opcode,
    pub arg: Value,
    pub index: Immediate,
    pub value: Immediate,
}

/// `SetElement` with a constant-pool new element.
#[derive(Debug, PartialEq, Eq)]
pub struct SetElementConst {
    pub op: Opcode,
    pub arg: Value,
    pub index: Immediate,
    pub value: Constant,
}

/// A binary pattern-matching step; the arguments are the match
/// context and, optionally, a size value.
#[derive(Debug, PartialEq, Eq)]
pub struct BitsMatch {
    pub spec: BinaryEntrySpecifier,
    pub args: Vec<Value>,
}

/// Skips a binary segment, checking it against an expected immediate.
#[derive(Debug, PartialEq, Eq)]
pub struct BitsMatchSkip {
    pub spec: BinaryEntrySpecifier,
    pub args: Vec<Value>,
    pub value: Immediate,
}

/// Appends a segment to a binary under construction.
#[derive(Debug, PartialEq, Eq)]
pub struct BitsPush {
    pub spec: BinaryEntrySpecifier,
    pub args: Vec<Value>,
}

/// The payload of an instruction: one variant per payload shape, each
/// carrying exactly the fields that shape needs.
#[derive(Debug, PartialEq, Eq)]
pub enum InstData {
    UnaryOp(UnaryOp),
    UnaryOpImm(UnaryOpImm),
    UnaryOpConst(UnaryOpConst),
    BinaryOp(BinaryOp),
    BinaryOpImm(BinaryOpImm),
    BinaryOpConst(BinaryOpConst),
    Ret(Ret),
    RetImm(RetImm),
    Br(Br),
    CondBr(CondBr),
    Switch(SwitchData),
    IsType(IsTypeData),
    Call(Call),
    CallIndirect(CallIndirect),
    PrimOp(PrimOp),
    PrimOpImm(PrimOpImm),
    MakeFun(MakeFun),
    SetElement(SetElement),
    SetElementImm(SetElementImm),
    SetElementConst(SetElementConst),
    BitsMatch(BitsMatch),
    BitsMatchSkip(BitsMatchSkip),
    BitsPush(BitsPush),
}

impl InstData {
    /// The opcode of the instruction.
    pub open spec fn opcode_spec(&self) -> Opcode {
        match self {
            InstData::UnaryOp(d) => d.op,
            InstData::UnaryOpImm(d) => d.op,
            InstData::UnaryOpConst(d) => d.op,
            InstData::BinaryOp(d) => d.op,
            InstData::BinaryOpImm(d) => d.op,
            InstData::BinaryOpConst(d) => d.op,
            InstData::Ret(d) => d.op,
            InstData::RetImm(d) => d.op,
            InstData::Br(d) => d.op,
            InstData::CondBr(_) => Opcode::CondBr,
            InstData::Switch(d) => d.op,
            InstData::IsType(_) => Opcode::IsType,
            InstData::Call(d) => d.op,
            InstData::CallIndirect(d) => d.op,
            InstData::PrimOp(d) => d.op,
            InstData::PrimOpImm(d) => d.op,
            InstData::MakeFun(_) => Opcode::MakeFun,
            InstData::SetElement(d) => d.op,
            InstData::SetElementImm(d) => d.op,
            InstData::SetElementConst(d) => d.op,
            InstData::BitsMatch(_) => Opcode::BitsMatch,
            InstData::BitsMatchSkip(_) => Opcode::BitsMatchSkip,
            InstData::BitsPush(_) => Opcode::BitsPush,
        }
    }

    /// Whether the instruction ends its block: branches, switches,
    /// returns, tail calls and raises.
    pub open spec fn is_terminator_spec(&self) -> bool {
        match self {
            InstData::Br(d) => d.op == Opcode::Br,
            InstData::CondBr(_) => true,
            InstData::Switch(_) => true,
            InstData::Ret(_) => true,
            InstData::RetImm(_) => true,
            InstData::Call(d) => d.op == Opcode::Enter,
            InstData::CallIndirect(d) => d.op == Opcode::EnterIndirect,
            InstData::PrimOp(d) => d.op == Opcode::Raise || d.op == Opcode::MatchFail,
            InstData::PrimOpImm(d) => d.op == Opcode::Raise || d.op == Opcode::MatchFail,
            _ => false,
        }
    }

    #[verifier::when_used_as_spec(is_terminator_spec)]
    pub fn is_terminator(&self) -> (r: bool)
        ensures
            r == self.is_terminator_spec(),
    {
        match self {
            InstData::Br(d) => matches!(d.op, Opcode::Br),
            InstData::CondBr(_) => true,
            InstData::Switch(_) => true,
            InstData::Ret(_) => true,
            InstData::RetImm(_) => true,
            InstData::Call(d) => matches!(d.op, Opcode::Enter),
            InstData::CallIndirect(d) => matches!(d.op, Opcode::EnterIndirect),
            InstData::PrimOp(d) => matches!(d.op, Opcode::Raise | Opcode::MatchFail),
            InstData::PrimOpImm(d) => matches!(d.op, Opcode::Raise | Opcode::MatchFail),
            _ => false,
        }
    }
}

} // verus!
