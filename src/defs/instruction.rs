use vstd::prelude::*;

use crate::defs::text::{chars_of_str, same_chars};
use crate::defs::{Bits, UnknownKeyword};

verus! {

/// The instruction format defines how the bits that compose it are interpreted.
/// The three possible variants contain documentation for the respective bit layout.
#[derive(Debug, Clone, Copy, PartialEq, Eq, Structural)]
pub enum InstructionFormat {
    /// opcode | rs | rt | rd | shamt | funct |
    /// 6 bits | 5  | 5  | 5  | 5     | 6     |
    R,
    /// opcode | rs | rt | const |
    /// 6 bits | 5  | 5  | 16    |
    I,
    /// opcode | pseudo-address |
    /// 6 bits | 26 bits        |
    J,
}

/// Information on a specific instruction.
pub trait InstructionEncoding {
    fn format(&self) -> InstructionFormat;

    fn opcode(&self) -> Bits<6>;

    fn funct(&self) -> Option<Bits<6>>;
}

/// All the instructions, each written as its lowercase mnemonic.
#[derive(Debug, Clone, Copy, PartialEq, Eq, Structural)]
pub enum InstructionKind {
    // ARITHMETIC INSTRUCTIONS
    /// Add Word
    Add,
    /// Add Immediate Word
    Addi,
    /// Add Immediate Unsigned Word
    Addiu,
    /// Add unsigned word
    Addu,
    /// Count leading ones in word
    Clo,
    /// Count leading zeros in word
    Clz,
    /// Divide word
    Div,
    /// Divide unsigned word
    Divu,
    /// Multiply and add word to hi, lo
    Madd,
    /// Multiply and add unsigned word to hi, lo
    Maddu,
    /// Multiply and subtract word to hi, lo
    Msub,
    /// Multiply and subtract unsigned word to hi, lo
    Msubu,
    /// Multiply word to gpr
    Mul,
    /// Multiply word
    Mult,
    /// Multiply unsigned word
    Multu,
    /// Set on less than
    Slt,
    /// Set on less than immediate
    Slti,
    /// Set on less than immediate unsigned
    Sltiu,
    /// Set on less than unsigned
    Sltu,
    /// Subtract word
    Sub,
    /// Subtract unsigned word
    Subu,
    // BRANCH AND JUMP
    /// Unconditional Branch
    B,
    /// Branch and link
    Bal,
    /// Branch on equal
    Beq,
    /// Branch on greater than or equal to zero
    Bgez,
    /// Branch on greater than or equal to zero and link
    Bgezal,
    /// Branch on greater than zero
    Bgtz,
    /// Branch on less than or equal to zero
    Blez,
    /// Branch on less than zero
    Bltz,
    /// Branch on less than zero and link
    Bbltzal,
    /// Branch on not equal
    Bne,
    /// Jump
    J,
    /// Jump and link
    Jal,
    /// Jump and link register
    Jalr,
    /// Jump register
    Jr,
    // CPU CONTROL
    /// No Operation
    Nop,
    /// Superscalar No Operation
    Ssnop,
    // LOAD, STORE, AND MEMORY
    /// Load Byte
    Lb,
    /// Load Byte Unsigned
    Lbu,
    /// Load Halfword
    Lh,
    /// Load Halfword Unsigned
    Lhu,
    /// Load Linked Word
    Ll,
    /// Load Word
    Lw,
    /// Load Word Left
    Lwl,
    /// Load Word Right
    Lwr,
    /// Prefetch
    Pref,
    /// Store Byte
    Sb,
    /// Store Conditional Word
    Sc,
    /// Store Doubleword
    Sd,
    /// Store Halfword
    Sh,
    /// Store Word
    Sw,
    /// Store Word Left
    Swl,
    /// Store Word Right
    Swr,
    /// Synchronize Shared Memory
    Sync,
    // LOGICAL INSTRUCTIONS
    /// And
    And,
    /// And Immediate
    Andi,
    /// Load Upper Immediate
    Lui,
    /// Not Or
    Nor,
    /// Or
    Or,
    /// Or Immediate
    Ori,
    /// Exclusive Or
    Xor,
    /// Exclusive Or Immediate
    Xori,
    // MOVE INSTRUCTIONS
    /// Move From HI Register
    Mfhi,
    /// Move From LO Register
    Mflo,
    /// Move Conditional on Floating Point False
    Movf,
    /// Move Conditional on Not Zero
    Movn,
    /// Move Conditional on Floating Point True
    Movt,
    /// Move Conditional on Zero
    Movz,
    /// Move To HI Register
    Mthi,
    /// Move To LO Register
    Mtlo,
    // SHIFT INSTRUCTIONS
    /// Shift Word Left Logical
    Sll,
    /// Shift Word Left Logical Variable
    Sllv,
    /// Shift Word Right Arithmetic
    Sra,
    /// Shift Word Right Arithmetic Variable
    Srav,
    /// Shift Word Right Logical
    Srl,
    /// Shift Word Right Logical Variable
    Srlv,
    // TRAP INSTRUCTIONS
    /// Breakpoint
    Break,
    /// System Call
    Syscall,
    /// Trap if Equal
    Teq,
    /// Trap if Equal Immediate
    Teqi,
    /// Trap if Greater or Equal
    Tge,
    /// Trap if Greater of Equal Immediate
    Tgei,
    /// Trap if Greater or Equal Immediate Unsigned
    Tgeiu,
    /// Trap if Greater or Equal Unsigned
    Tgeu,
    /// Trap if Less Than
    Tlt,
    /// Trap if Less Than Immediate
    Tlti,
    /// Trap if Less Than Immediate Unsigned
    Tltiu,
    /// Trap if Less Than Unsigned
    Tltu,
    /// Trap if Not Equal
    Tne,
    /// Trap if Not Equal Immediate
    Tnei,
    // PRIVILEGED INSTRUCTIONS
    /// Perform Cache Operation
    Cache,
    /// Exception Return
    Eret,
    /// Move from Coprocessor 0
    Mfc0,
    /// Move to Coprocessor 0
    Mtc0,
    /// Probe TLB for Matching Entry
    Tlbp,
    /// Read Indexed TLB Entry
    Tlbr,
    /// Write Indexed TLB Entry
    Tlbwi,
    /// Write Random TLB Entry
    Tlbwr,
    /// Enter Standby Mode
    Wait,
    /// Debug Exception Return
    Deret,
    /// Software Debug Breakpoint
    Sdbbp,
}

impl InstructionKind {
    /// The exact text that names this keyword.
    pub open spec fn text(self) -> Seq<char> {
        match self {
            InstructionKind::Add => seq!['a', 'd', 'd'],
            InstructionKind::Addi => seq!['a', 'd', 'd', 'i'],
            InstructionKind::Addiu => seq!['a', 'd', 'd', 'i', 'u'],
            InstructionKind::Addu => seq!['a', 'd', 'd', 'u'],
            InstructionKind::Clo => seq!['c', 'l', 'o'],
            InstructionKind::Clz => seq!['c', 'l', 'z'],
            InstructionKind::Div => seq!['d', 'i', 'v'],
            InstructionKind::Divu => seq!['d', 'i', 'v', 'u'],
            InstructionKind::Madd => seq!['m', 'a', 'd', 'd'],
            InstructionKind::Maddu => seq!['m', 'a', 'd', 'd', 'u'],
            InstructionKind::Msub => seq!['m', 's', 'u', 'b'],
            InstructionKind::Msubu => seq!['m', 's', 'u', 'b', 'u'],
            InstructionKind::Mul => seq!['m', 'u', 'l'],
            InstructionKind::Mult => seq!['m', 'u', 'l', 't'],
            InstructionKind::Multu => seq!['m', 'u', 'l', 't', 'u'],
            InstructionKind::Slt => seq!['s', 'l', 't'],
            InstructionKind::Slti => seq!['s', 'l', 't', 'i'],
            InstructionKind::Sltiu => seq!['s', 'l', 't', 'i', 'u'],
            InstructionKind::Sltu => seq!['s', 'l', 't', 'u'],
            InstructionKind::Sub => seq!['s', 'u', 'b'],
            InstructionKind::Subu => seq!['s', 'u', 'b', 'u'],
            InstructionKind::B => seq!['b'],
            InstructionKind::Bal => seq!['b', 'a', 'l'],
            InstructionKind::Beq => seq!['b', 'e', 'q'],
            InstructionKind::Bgez => seq!['b', 'g', 'e', 'z'],
            InstructionKind::Bgezal => seq!['b', 'g', 'e', 'z', 'a', 'l'],
            InstructionKind::Bgtz => seq!['b', 'g', 't', 'z'],
            InstructionKind::Blez => seq!['b', 'l', 'e', 'z'],
            InstructionKind::Bltz => seq!['b', 'l', 't', 'z'],
            InstructionKind::Bbltzal => seq!['b', 'b', 'l', 't', 'z', 'a', 'l'],
            InstructionKind::Bne => seq!['b', 'n', 'e'],
            InstructionKind::J => seq!['j'],
            InstructionKind::Jal => seq!['j', 'a', 'l'],
            InstructionKind::Jalr => seq!['j', 'a', 'l', 'r'],
            InstructionKind::Jr => seq!['j', 'r'],
            InstructionKind::Nop => seq!['n', 'o', 'p'],
            InstructionKind::Ssnop => seq!['s', 's', 'n', 'o', 'p'],
            InstructionKind::Lb => seq!['l', 'b'],
            InstructionKind::Lbu => seq!['l', 'b', 'u'],
            InstructionKind::Lh => seq!['l', 'h'],
            InstructionKind::Lhu => seq!['l', 'h', 'u'],
            InstructionKind::Ll => seq!['l', 'l'],
            InstructionKind::Lw => seq!['l', 'w'],
            InstructionKind::Lwl => seq!['l', 'w', 'l'],
            InstructionKind::Lwr => seq!['l', 'w', 'r'],
            InstructionKind::Pref => seq!['p', 'r', 'e', 'f'],
            InstructionKind::Sb => seq!['s', 'b'],
            InstructionKind::Sc => seq!['s', 'c'],
            InstructionKind::Sd => seq!['s', 'd'],
            InstructionKind::Sh => seq!['s', 'h'],
            InstructionKind::Sw => seq!['s', 'w'],
            InstructionKind::Swl => seq!['s', 'w', 'l'],
            InstructionKind::Swr => seq!['s', 'w', 'r'],
            InstructionKind::Sync => seq!['s', 'y', 'n', 'c'],
            InstructionKind::And => seq!['a', 'n', 'd'],
            InstructionKind::Andi => seq!['a', 'n', 'd', 'i'],
            InstructionKind::Lui => seq!['l', 'u', 'i'],
            InstructionKind::Nor => seq!['n', 'o', 'r'],
            InstructionKind::Or => seq!['o', 'r'],
            InstructionKind::Ori => seq!['o', 'r', 'i'],
            InstructionKind::Xor => seq!['x', 'o', 'r'],
            InstructionKind::Xori => seq!['x', 'o', 'r', 'i'],
            InstructionKind::Mfhi => seq!['m', 'f', 'h', 'i'],
            InstructionKind::Mflo => seq!['m', 'f', 'l', 'o'],
            InstructionKind::Movf => seq!['m', 'o', 'v', 'f'],
            InstructionKind::Movn => seq!['m', 'o', 'v', 'n'],
            InstructionKind::Movt => seq!['m', 'o', 'v', 't'],
            InstructionKind::Movz => seq!['m', 'o', 'v', 'z'],
            InstructionKind::Mthi => seq!['m', 't', 'h', 'i'],
            InstructionKind::Mtlo => seq!['m', 't', 'l', 'o'],
            InstructionKind::Sll => seq!['s', 'l', 'l'],
            InstructionKind::Sllv => seq!['s', 'l', 'l', 'v'],
            InstructionKind::Sra => seq!['s', 'r', 'a'],
            InstructionKind::Srav => seq!['s', 'r', 'a', 'v'],
            InstructionKind::Srl => seq!['s', 'r', 'l'],
            InstructionKind::Srlv => seq!['s', 'r', 'l', 'v'],
            InstructionKind::Break => seq!['b', 'r', 'e', 'a', 'k'],
            InstructionKind::Syscall => seq!['s', 'y', 's', 'c', 'a', 'l', 'l'],
            InstructionKind::Teq => seq!['t', 'e', 'q'],
            InstructionKind::Teqi => seq!['t', 'e', 'q', 'i'],
            InstructionKind::Tge => seq!['t', 'g', 'e'],
            InstructionKind::Tgei => seq!['t', 'g', 'e', 'i'],
            InstructionKind::Tgeiu => seq!['t', 'g', 'e', 'i', 'u'],
            InstructionKind::Tgeu => seq!['t', 'g', 'e', 'u'],
            InstructionKind::Tlt => seq!['t', 'l', 't'],
            InstructionKind::Tlti => seq!['t', 'l', 't', 'i'],
            InstructionKind::Tltiu => seq!['t', 'l', 't', 'i', 'u'],
            InstructionKind::Tltu => seq!['t', 'l', 't', 'u'],
            InstructionKind::Tne => seq!['t', 'n', 'e'],
            InstructionKind::Tnei => seq!['t', 'n', 'e', 'i'],
            InstructionKind::Cache => seq!['c', 'a', 'c', 'h', 'e'],
            InstructionKind::Eret => seq!['e', 'r', 'e', 't'],
            InstructionKind::Mfc0 => seq!['m', 'f', 'c', '0'],
            InstructionKind::Mtc0 => seq!['m', 't', 'c', '0'],
            InstructionKind::Tlbp => seq!['t', 'l', 'b', 'p'],
            InstructionKind::Tlbr => seq!['t', 'l', 'b', 'r'],
            InstructionKind::Tlbwi => seq!['t', 'l', 'b', 'w', 'i'],
            InstructionKind::Tlbwr => seq!['t', 'l', 'b', 'w', 'r'],
            InstructionKind::Wait => seq!['w', 'a', 'i', 't'],
            InstructionKind::Deret => seq!['d', 'e', 'r', 'e', 't'],
            InstructionKind::Sdbbp => seq!['s', 'd', 'b', 'b', 'p'],
        }
    }

    /// The keyword whose text is exactly `t`, if any.
    pub open spec fn from_text(t: Seq<char>) -> Option<InstructionKind> {
        if exists|k: InstructionKind| k.text() == t {
            Some(choose|k: InstructionKind| k.text() == t)
        } else {
            None
        }
    }

    /// No two keywords share a text.
    pub proof fn lemma_text_injective(a: InstructionKind, b: InstructionKind)
        requires
            a.text() == b.text(),
        ensures
            a == b,
    {
        let (t, u) = (a.text(), b.text());
        assert(t.len() == u.len());
        assert(t.len() > 0 ==> t[0] == u[0]);
        assert(t.len() > 1 ==> t[1] == u[1]);
        assert(t.len() > 2 ==> t[2] == u[2]);
        assert(t.len() > 3 ==> t[3] == u[3]);
        assert(t.len() > 4 ==> t[4] == u[4]);
        assert(t.len() > 5 ==> t[5] == u[5]);
        assert(t.len() > 6 ==> t[6] == u[6]);
    }

    /// The lookup finds each keyword by its own text.
    pub proof fn lemma_from_text(k: InstructionKind)
        ensures
            InstructionKind::from_text(k.text()) == Some(k),
    {
        let c = choose|m: InstructionKind| m.text() == k.text();
        InstructionKind::lemma_text_injective(c, k);
    }

    /// The place of this instruction in the order of declaration.
    pub open spec fn index(self) -> nat {
        match self {
            InstructionKind::Add => 0,
            InstructionKind::Addi => 1,
            InstructionKind::Addiu => 2,
            InstructionKind::Addu => 3,
            InstructionKind::Clo => 4,
            InstructionKind::Clz => 5,
            InstructionKind::Div => 6,
            InstructionKind::Divu => 7,
            InstructionKind::Madd => 8,
            InstructionKind::Maddu => 9,
            InstructionKind::Msub => 10,
            InstructionKind::Msubu => 11,
            InstructionKind::Mul => 12,
            InstructionKind::Mult => 13,
            InstructionKind::Multu => 14,
            InstructionKind::Slt => 15,
            InstructionKind::Slti => 16,
            InstructionKind::Sltiu => 17,
            InstructionKind::Sltu => 18,
            InstructionKind::Sub => 19,
            InstructionKind::Subu => 20,
            InstructionKind::B => 21,
            InstructionKind::Bal => 22,
            InstructionKind::Beq => 23,
            InstructionKind::Bgez => 24,
            InstructionKind::Bgezal => 25,
            InstructionKind::Bgtz => 26,
            InstructionKind::Blez => 27,
            InstructionKind::Bltz => 28,
            InstructionKind::Bbltzal => 29,
            InstructionKind::Bne => 30,
            InstructionKind::J => 31,
            InstructionKind::Jal => 32,
            InstructionKind::Jalr => 33,
            InstructionKind::Jr => 34,
            InstructionKind::Nop => 35,
            InstructionKind::Ssnop => 36,
            InstructionKind::Lb => 37,
            InstructionKind::Lbu => 38,
            InstructionKind::Lh => 39,
            InstructionKind::Lhu => 40,
            InstructionKind::Ll => 41,
            InstructionKind::Lw => 42,
            InstructionKind::Lwl => 43,
            InstructionKind::Lwr => 44,
            InstructionKind::Pref => 45,
            InstructionKind::Sb => 46,
            InstructionKind::Sc => 47,
            InstructionKind::Sd => 48,
            InstructionKind::Sh => 49,
            InstructionKind::Sw => 50,
            InstructionKind::Swl => 51,
            InstructionKind::Swr => 52,
            InstructionKind::Sync => 53,
            InstructionKind::And => 54,
            InstructionKind::Andi => 55,
            InstructionKind::Lui => 56,
            InstructionKind::Nor => 57,
            InstructionKind::Or => 58,
            InstructionKind::Ori => 59,
            InstructionKind::Xor => 60,
            InstructionKind::Xori => 61,
            InstructionKind::Mfhi => 62,
            InstructionKind::Mflo => 63,
            InstructionKind::Movf => 64,
            InstructionKind::Movn => 65,
            InstructionKind::Movt => 66,
            InstructionKind::Movz => 67,
            InstructionKind::Mthi => 68,
            InstructionKind::Mtlo => 69,
            InstructionKind::Sll => 70,
            InstructionKind::Sllv => 71,
            InstructionKind::Sra => 72,
            InstructionKind::Srav => 73,
            InstructionKind::Srl => 74,
            InstructionKind::Srlv => 75,
            InstructionKind::Break => 76,
            InstructionKind::Syscall => 77,
            InstructionKind::Teq => 78,
            InstructionKind::Teqi => 79,
            InstructionKind::Tge => 80,
            InstructionKind::Tgei => 81,
            InstructionKind::Tgeiu => 82,
            InstructionKind::Tgeu => 83,
            InstructionKind::Tlt => 84,
            InstructionKind::Tlti => 85,
            InstructionKind::Tltiu => 86,
            InstructionKind::Tltu => 87,
            InstructionKind::Tne => 88,
            InstructionKind::Tnei => 89,
            InstructionKind::Cache => 90,
            InstructionKind::Eret => 91,
            InstructionKind::Mfc0 => 92,
            InstructionKind::Mtc0 => 93,
            InstructionKind::Tlbp => 94,
            InstructionKind::Tlbr => 95,
            InstructionKind::Tlbwi => 96,
            InstructionKind::Tlbwr => 97,
            InstructionKind::Wait => 98,
            InstructionKind::Deret => 99,
            InstructionKind::Sdbbp => 100,
        }
    }

    /// Every instruction has a place below the number of instructions.
    pub proof fn lemma_index_bound(k: InstructionKind)
        ensures
            k.index() < 101,
    {
    }

    /// The instruction at place `i` of the order of declaration.
    fn nth(i: usize) -> (r: Option<InstructionKind>)
        ensures
            i < 101 ==> r is Some,
            r matches Some(k) ==> k.index() == i,
    {
        match i {
            0 => Some(InstructionKind::Add),
            1 => Some(InstructionKind::Addi),
            2 => Some(InstructionKind::Addiu),
            3 => Some(InstructionKind::Addu),
            4 => Some(InstructionKind::Clo),
            5 => Some(InstructionKind::Clz),
            6 => Some(InstructionKind::Div),
            7 => Some(InstructionKind::Divu),
            8 => Some(InstructionKind::Madd),
            9 => Some(InstructionKind::Maddu),
            10 => Some(InstructionKind::Msub),
            11 => Some(InstructionKind::Msubu),
            12 => Some(InstructionKind::Mul),
            13 => Some(InstructionKind::Mult),
            14 => Some(InstructionKind::Multu),
            15 => Some(InstructionKind::Slt),
            16 => Some(InstructionKind::Slti),
            17 => Some(InstructionKind::Sltiu),
            18 => Some(InstructionKind::Sltu),
            19 => Some(InstructionKind::Sub),
            20 => Some(InstructionKind::Subu),
            21 => Some(InstructionKind::B),
            22 => Some(InstructionKind::Bal),
            23 => Some(InstructionKind::Beq),
            24 => Some(InstructionKind::Bgez),
            25 => Some(InstructionKind::Bgezal),
            26 => Some(InstructionKind::Bgtz),
            27 => Some(InstructionKind::Blez),
            28 => Some(InstructionKind::Bltz),
            29 => Some(InstructionKind::Bbltzal),
            30 => Some(InstructionKind::Bne),
            31 => Some(InstructionKind::J),
            32 => Some(InstructionKind::Jal),
            33 => Some(InstructionKind::Jalr),
            34 => Some(InstructionKind::Jr),
            35 => Some(InstructionKind::Nop),
            36 => Some(InstructionKind::Ssnop),
            37 => Some(InstructionKind::Lb),
            38 => Some(InstructionKind::Lbu),
            39 => Some(InstructionKind::Lh),
            40 => Some(InstructionKind::Lhu),
            41 => Some(InstructionKind::Ll),
            42 => Some(InstructionKind::Lw),
            43 => Some(InstructionKind::Lwl),
            44 => Some(InstructionKind::Lwr),
            45 => Some(InstructionKind::Pref),
            46 => Some(InstructionKind::Sb),
            47 => Some(InstructionKind::Sc),
            48 => Some(InstructionKind::Sd),
            49 => Some(InstructionKind::Sh),
            50 => Some(InstructionKind::Sw),
            51 => Some(InstructionKind::Swl),
            52 => Some(InstructionKind::Swr),
            53 => Some(InstructionKind::Sync),
            54 => Some(InstructionKind::And),
            55 => Some(InstructionKind::Andi),
            56 => Some(InstructionKind::Lui),
            57 => Some(InstructionKind::Nor),
            58 => Some(InstructionKind::Or),
            59 => Some(InstructionKind::Ori),
            60 => Some(InstructionKind::Xor),
            61 => Some(InstructionKind::Xori),
            62 => Some(InstructionKind::Mfhi),
            63 => Some(InstructionKind::Mflo),
            64 => Some(InstructionKind::Movf),
            65 => Some(InstructionKind::Movn),
            66 => Some(InstructionKind::Movt),
            67 => Some(InstructionKind::Movz),
            68 => Some(InstructionKind::Mthi),
            69 => Some(InstructionKind::Mtlo),
            70 => Some(InstructionKind::Sll),
            71 => Some(InstructionKind::Sllv),
            72 => Some(InstructionKind::Sra),
            73 => Some(InstructionKind::Srav),
            74 => Some(InstructionKind::Srl),
            75 => Some(InstructionKind::Srlv),
            76 => Some(InstructionKind::Break),
            77 => Some(InstructionKind::Syscall),
            78 => Some(InstructionKind::Teq),
            79 => Some(InstructionKind::Teqi),
            80 => Some(InstructionKind::Tge),
            81 => Some(InstructionKind::Tgei),
            82 => Some(InstructionKind::Tgeiu),
            83 => Some(InstructionKind::Tgeu),
            84 => Some(InstructionKind::Tlt),
            85 => Some(InstructionKind::Tlti),
            86 => Some(InstructionKind::Tltiu),
            87 => Some(InstructionKind::Tltu),
            88 => Some(InstructionKind::Tne),
            89 => Some(InstructionKind::Tnei),
            90 => Some(InstructionKind::Cache),
            91 => Some(InstructionKind::Eret),
            92 => Some(InstructionKind::Mfc0),
            93 => Some(InstructionKind::Mtc0),
            94 => Some(InstructionKind::Tlbp),
            95 => Some(InstructionKind::Tlbr),
            96 => Some(InstructionKind::Tlbwi),
            97 => Some(InstructionKind::Tlbwr),
            98 => Some(InstructionKind::Wait),
            99 => Some(InstructionKind::Deret),
            100 => Some(InstructionKind::Sdbbp),
            _ => None,
        }
    }

    /// The text of this instruction, as characters.
    pub fn chars(&self) -> (r: &'static [char])
        ensures
            r@ == self.text(),
    {
        match self {
            InstructionKind::Add => &['a', 'd', 'd'],
            InstructionKind::Addi => &['a', 'd', 'd', 'i'],
            InstructionKind::Addiu => &['a', 'd', 'd', 'i', 'u'],
            InstructionKind::Addu => &['a', 'd', 'd', 'u'],
            InstructionKind::Clo => &['c', 'l', 'o'],
            InstructionKind::Clz => &['c', 'l', 'z'],
            InstructionKind::Div => &['d', 'i', 'v'],
            InstructionKind::Divu => &['d', 'i', 'v', 'u'],
            InstructionKind::Madd => &['m', 'a', 'd', 'd'],
            InstructionKind::Maddu => &['m', 'a', 'd', 'd', 'u'],
            InstructionKind::Msub => &['m', 's', 'u', 'b'],
            InstructionKind::Msubu => &['m', 's', 'u', 'b', 'u'],
            InstructionKind::Mul => &['m', 'u', 'l'],
            InstructionKind::Mult => &['m', 'u', 'l', 't'],
            InstructionKind::Multu => &['m', 'u', 'l', 't', 'u'],
            InstructionKind::Slt => &['s', 'l', 't'],
            InstructionKind::Slti => &['s', 'l', 't', 'i'],
            InstructionKind::Sltiu => &['s', 'l', 't', 'i', 'u'],
            InstructionKind::Sltu => &['s', 'l', 't', 'u'],
            InstructionKind::Sub => &['s', 'u', 'b'],
            InstructionKind::Subu => &['s', 'u', 'b', 'u'],
            InstructionKind::B => &['b'],
            InstructionKind::Bal => &['b', 'a', 'l'],
            InstructionKind::Beq => &['b', 'e', 'q'],
            InstructionKind::Bgez => &['b', 'g', 'e', 'z'],
            InstructionKind::Bgezal => &['b', 'g', 'e', 'z', 'a', 'l'],
            InstructionKind::Bgtz => &['b', 'g', 't', 'z'],
            InstructionKind::Blez => &['b', 'l', 'e', 'z'],
            InstructionKind::Bltz => &['b', 'l', 't', 'z'],
            InstructionKind::Bbltzal => &['b', 'b', 'l', 't', 'z', 'a', 'l'],
            InstructionKind::Bne => &['b', 'n', 'e'],
            InstructionKind::J => &['j'],
            InstructionKind::Jal => &['j', 'a', 'l'],
            InstructionKind::Jalr => &['j', 'a', 'l', 'r'],
            InstructionKind::Jr => &['j', 'r'],
            InstructionKind::Nop => &['n', 'o', 'p'],
            InstructionKind::Ssnop => &['s', 's', 'n', 'o', 'p'],
            InstructionKind::Lb => &['l', 'b'],
            InstructionKind::Lbu => &['l', 'b', 'u'],
            InstructionKind::Lh => &['l', 'h'],
            InstructionKind::Lhu => &['l', 'h', 'u'],
            InstructionKind::Ll => &['l', 'l'],
            InstructionKind::Lw => &['l', 'w'],
            InstructionKind::Lwl => &['l', 'w', 'l'],
            InstructionKind::Lwr => &['l', 'w', 'r'],
            InstructionKind::Pref => &['p', 'r', 'e', 'f'],
            InstructionKind::Sb => &['s', 'b'],
            InstructionKind::Sc => &['s', 'c'],
            InstructionKind::Sd => &['s', 'd'],
            InstructionKind::Sh => &['s', 'h'],
            InstructionKind::Sw => &['s', 'w'],
            InstructionKind::Swl => &['s', 'w', 'l'],
            InstructionKind::Swr => &['s', 'w', 'r'],
            InstructionKind::Sync => &['s', 'y', 'n', 'c'],
            InstructionKind::And => &['a', 'n', 'd'],
            InstructionKind::Andi => &['a', 'n', 'd', 'i'],
            InstructionKind::Lui => &['l', 'u', 'i'],
            InstructionKind::Nor => &['n', 'o', 'r'],
            InstructionKind::Or => &['o', 'r'],
            InstructionKind::Ori => &['o', 'r', 'i'],
            InstructionKind::Xor => &['x', 'o', 'r'],
            InstructionKind::Xori => &['x', 'o', 'r', 'i'],
            InstructionKind::Mfhi => &['m', 'f', 'h', 'i'],
            InstructionKind::Mflo => &['m', 'f', 'l', 'o'],
            InstructionKind::Movf => &['m', 'o', 'v', 'f'],
            InstructionKind::Movn => &['m', 'o', 'v', 'n'],
            InstructionKind::Movt => &['m', 'o', 'v', 't'],
            InstructionKind::Movz => &['m', 'o', 'v', 'z'],
            InstructionKind::Mthi => &['m', 't', 'h', 'i'],
            InstructionKind::Mtlo => &['m', 't', 'l', 'o'],
            InstructionKind::Sll => &['s', 'l', 'l'],
            InstructionKind::Sllv => &['s', 'l', 'l', 'v'],
            InstructionKind::Sra => &['s', 'r', 'a'],
            InstructionKind::Srav => &['s', 'r', 'a', 'v'],
            InstructionKind::Srl => &['s', 'r', 'l'],
            InstructionKind::Srlv => &['s', 'r', 'l', 'v'],
            InstructionKind::Break => &['b', 'r', 'e', 'a', 'k'],
            InstructionKind::Syscall => &['s', 'y', 's', 'c', 'a', 'l', 'l'],
            InstructionKind::Teq => &['t', 'e', 'q'],
            InstructionKind::Teqi => &['t', 'e', 'q', 'i'],
            InstructionKind::Tge => &['t', 'g', 'e'],
            InstructionKind::Tgei => &['t', 'g', 'e', 'i'],
            InstructionKind::Tgeiu => &['t', 'g', 'e', 'i', 'u'],
            InstructionKind::Tgeu => &['t', 'g', 'e', 'u'],
            InstructionKind::Tlt => &['t', 'l', 't'],
            InstructionKind::Tlti => &['t', 'l', 't', 'i'],
            InstructionKind::Tltiu => &['t', 'l', 't', 'i', 'u'],
            InstructionKind::Tltu => &['t', 'l', 't', 'u'],
            InstructionKind::Tne => &['t', 'n', 'e'],
            InstructionKind::Tnei => &['t', 'n', 'e', 'i'],
            InstructionKind::Cache => &['c', 'a', 'c', 'h', 'e'],
            InstructionKind::Eret => &['e', 'r', 'e', 't'],
            InstructionKind::Mfc0 => &['m', 'f', 'c', '0'],
            InstructionKind::Mtc0 => &['m', 't', 'c', '0'],
            InstructionKind::Tlbp => &['t', 'l', 'b', 'p'],
            InstructionKind::Tlbr => &['t', 'l', 'b', 'r'],
            InstructionKind::Tlbwi => &['t', 'l', 'b', 'w', 'i'],
            InstructionKind::Tlbwr => &['t', 'l', 'b', 'w', 'r'],
            InstructionKind::Wait => &['w', 'a', 'i', 't'],
            InstructionKind::Deret => &['d', 'e', 'r', 'e', 't'],
            InstructionKind::Sdbbp => &['s', 'd', 'b', 'b', 'p'],
        }
    }

    /// Looks up the keyword written exactly as `w` (case-sensitive).
    pub fn from_chars(w: &[char]) -> (r: Option<InstructionKind>)
        ensures
            r == InstructionKind::from_text(w@),
    {
        let mut i: usize = 0;
        while i < 101
            invariant
                i <= 101,
                forall|k: InstructionKind| k.index() < i ==> k.text() != w@,
            decreases 101 - i,
        {
            let k = match InstructionKind::nth(i) {
                Some(k) => k,
                None => return None,
            };
            if same_chars(k.chars(), w) {
                proof {
                    InstructionKind::lemma_from_text(k);
                }
                return Some(k);
            }
            i += 1;
        }
        assert forall|k: InstructionKind| k.text() != w@ by {
            InstructionKind::lemma_index_bound(k);
        }
        None
    }
}

impl core::str::FromStr for InstructionKind {
    type Err = UnknownKeyword;

    fn from_str(s: &str) -> (r: Result<InstructionKind, UnknownKeyword>)
        ensures
            r == match InstructionKind::from_text(s@) {
                Some(k) => Ok(k),
                None => Err(UnknownKeyword),
            },
    {
        let chars = chars_of_str(s);
        match InstructionKind::from_chars(chars.as_slice()) {
            Some(k) => Ok(k),
            None => Err(UnknownKeyword),
        }
    }
}

} // verus!
