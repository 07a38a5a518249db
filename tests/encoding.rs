use mips_parser::defs::instruction::{InstructionEncoding, InstructionFormat};
use mips_parser::defs::Bits;

/// An instruction set with the encoding that `#[instruction(opcode, format)]` gives each
/// variant.
enum Instruction {
    Add,
    Jump,
    Addi,
}

impl InstructionEncoding for Instruction {
    fn format(&self) -> InstructionFormat {
        match self {
            Instruction::Add => InstructionFormat::R,
            Instruction::Jump => InstructionFormat::J,
            Instruction::Addi => InstructionFormat::I,
        }
    }
    fn opcode(&self) -> Bits<6> {
        match self {
            Instruction::Add => Bits::new(0b011010 as u32),
            Instruction::Jump => Bits::new(0b011011 as u32),
            Instruction::Addi => Bits::new(0b010000 as u32),
        }
    }
    fn funct(&self) -> Option<Bits<6>> {
        match self {
            Instruction::Add => None,
            Instruction::Jump => None,
            Instruction::Addi => None,
        }
    }
}

#[test]
fn instruction_derive_macro() {
    let add = Instruction::Add;
    let addi = Instruction::Addi;
    let jump = Instruction::Jump;

    assert_eq!(add.opcode(), Bits::<6>::new(0b011010));
    assert_eq!(add.format(), InstructionFormat::R);
    assert_eq!(jump.opcode(), Bits::new(0b011011));
    assert_eq!(jump.format(), InstructionFormat::J);
    assert_eq!(addi.opcode(), Bits::new(0b010000));
    assert_eq!(addi.format(), InstructionFormat::I);
    assert!(add.funct().is_none());
}

#[test]
fn bits_keep_their_value() {
    assert_eq!(Bits::<6>::new(0b111111).get(), 63);
    assert_eq!(Bits::<5>::new(17).get(), 17);
    assert_eq!(Bits::<32>::new(u32::MAX).get(), u32::MAX);
    assert_ne!(Bits::<6>::new(1), Bits::<6>::new(2));
}
