use vstd::prelude::*;

verus! {

pub const OP_ADC: u8 = 0;

pub const OP_AND: u8 = 1;

pub const OP_BIT: u8 = 2;

/// Compare with the accumulator.
pub const OP_CPA: u8 = 3;

pub const OP_CPX: u8 = 4;

pub const OP_CPY: u8 = 5;

pub const OP_EOR: u8 = 6;

pub const OP_LDA: u8 = 7;

pub const OP_LDX: u8 = 8;

pub const OP_LDY: u8 = 9;

pub const OP_ORA: u8 = 10;

pub const OP_SBC: u8 = 11;

/// Load A and X.
pub const OP_LAX: u8 = 12;

pub const OP_ALR: u8 = 13;

pub const OP_ARR: u8 = 14;

pub const OP_XAA: u8 = 15;

pub const OP_OAL: u8 = 16;

pub const OP_ANC: u8 = 17;

pub const OP_LAS: u8 = 18;

pub const OP_STA: u8 = 19;

pub const OP_STX: u8 = 20;

pub const OP_STY: u8 = 21;

/// Store A AND X.
pub const OP_AXS: u8 = 22;

pub const OP_TAS: u8 = 23;

pub const OP_SAY: u8 = 24;

pub const OP_XAS: u8 = 25;

pub const OP_AXA: u8 = 26;

pub const OP_ASL: u8 = 27;

pub const OP_LSR: u8 = 28;

pub const OP_ROL: u8 = 29;

pub const OP_ROR: u8 = 30;

pub const OP_INC: u8 = 31;

pub const OP_DEC: u8 = 32;

/// Shift memory left, then OR into the accumulator.
pub const OP_ASO: u8 = 33;

/// Rotate memory left, then AND into the accumulator.
pub const OP_RLA: u8 = 34;

/// Shift memory right, then XOR into the accumulator.
pub const OP_LSE: u8 = 35;

/// Rotate memory right, then add to the accumulator.
pub const OP_RRA: u8 = 36;

/// Decrement memory, then compare with the accumulator.
pub const OP_DCP: u8 = 37;

/// Increment memory, then subtract from the accumulator.
pub const OP_INS: u8 = 38;

pub const OP_BCC: u8 = 39;

pub const OP_BCS: u8 = 40;

pub const OP_BEQ: u8 = 41;

pub const OP_BMI: u8 = 42;

pub const OP_BNE: u8 = 43;

pub const OP_BPL: u8 = 44;

pub const OP_BVC: u8 = 45;

pub const OP_BVS: u8 = 46;

pub const OP_BRK: u8 = 47;

pub const OP_CLC: u8 = 48;

pub const OP_CLD: u8 = 49;

pub const OP_CLI: u8 = 50;

pub const OP_CLV: u8 = 51;

pub const OP_DEX: u8 = 52;

pub const OP_DEY: u8 = 53;

pub const OP_INX: u8 = 54;

pub const OP_INY: u8 = 55;

pub const OP_JMP: u8 = 56;

pub const OP_JSR: u8 = 57;

pub const OP_NOP: u8 = 58;

pub const OP_PHA: u8 = 59;

pub const OP_PHP: u8 = 60;

pub const OP_PLA: u8 = 61;

pub const OP_PLP: u8 = 62;

pub const OP_RTI: u8 = 63;

pub const OP_RTS: u8 = 64;

pub const OP_SEC: u8 = 65;

pub const OP_SED: u8 = 66;

pub const OP_SEI: u8 = 67;

pub const OP_TAX: u8 = 68;

pub const OP_TAY: u8 = 69;

pub const OP_TSX: u8 = 70;

pub const OP_TXA: u8 = 71;

pub const OP_TXS: u8 = 72;

pub const OP_TYA: u8 = 73;

/// Skip the next byte.
pub const OP_SKB: u8 = 74;

/// Skip the next two bytes.
pub const OP_SKW: u8 = 75;

/// Halt.
pub const OP_HLT: u8 = 76;

/// First of the operations that read an operand and work on the registers.
pub const FIRST_READ_OP: u8 = 0;

/// First of the operations that store a register.
pub const FIRST_STORE_OP: u8 = 19;

/// First of the operations that store a register masked by the high byte of the address.
pub const FIRST_HIGH_STORE_OP: u8 = 23;

/// First of the operations that read, modify and write back.
pub const FIRST_MODIFY_OP: u8 = 27;

/// First of the branches.
pub const FIRST_BRANCH_OP: u8 = 39;

/// First of the remaining operations.
pub const FIRST_OTHER_OP: u8 = 47;

/// The operation of each opcode. The codes that the documented set leaves
/// free hold the combined operations, the skips and the halts.
pub const OPCODE_OP: [u8; 256] = [
    47, 10, 76, 33, 74, 10, 27, 33, 60, 10, 27, 17, 75, 10, 27, 33,
    44, 10, 76, 33, 74, 10, 27, 33, 48, 10, 58, 33, 75, 10, 27, 33,
    57,  1, 76, 34,  2,  1, 29, 34, 62,  1, 29, 17,  2,  1, 29, 34,
    42,  1, 76, 34, 74,  1, 29, 34, 65,  1, 58, 34, 75,  1, 29, 34,
    63,  6, 76, 35, 74,  6, 28, 35, 59,  6, 28, 13, 56,  6, 28, 35,
    45,  6, 76, 35, 74,  6, 28, 35, 50,  6, 58, 35, 75,  6, 28, 35,
    64,  0, 76, 36, 74,  0, 30, 36, 61,  0, 30, 14, 56,  0, 30, 36,
    46,  0, 76, 36, 74,  0, 30, 36, 67,  0, 58, 36, 75,  0, 30, 36,
    74, 19, 74, 22, 21, 19, 20, 22, 53, 74, 71, 15, 21, 19, 20, 22,
    39, 19, 76, 26, 21, 19, 20, 22, 73, 19, 72, 23, 24, 19, 25, 26,
     9,  7,  8, 12,  9,  7,  8, 12, 69,  7, 68, 16,  9,  7,  8, 12,
    40,  7, 76, 12,  9,  7,  8, 12, 51,  7, 70, 18,  9,  7,  8, 12,
     5,  3, 74, 37,  5,  3, 32, 37, 55,  3, 52, 58,  5,  3, 32, 37,
    43,  3, 76, 37, 74,  3, 32, 37, 49,  3, 58, 37, 75,  3, 32, 37,
     4, 11, 74, 38,  4, 11, 31, 38, 54, 11, 58, 11,  4, 11, 31, 38,
    41, 11, 76, 38, 74, 11, 31, 38, 66, 11, 58, 38, 75, 11, 31, 38,
];

/// The addressing mode of each opcode.
pub const OPCODE_MODE: [u8; 256] = [
     0, 11,  0, 11,  0,  4,  4,  4,  0,  2,  1,  2,  0,  7,  7,  7,
     3, 12,  0, 12,  0,  5,  5,  5,  0,  9,  0,  9,  0,  8,  8,  8,
     7, 11,  0, 11,  4,  4,  4,  4,  0,  2,  1,  2,  7,  7,  7,  7,
     3, 12,  0, 12,  0,  5,  5,  5,  0,  9,  0,  9,  0,  8,  8,  8,
     0, 11,  0, 11,  0,  4,  4,  4,  0,  2,  1,  2,  7,  7,  7,  7,
     3, 12,  0, 12,  0,  5,  5,  5,  0,  9,  0,  9,  0,  8,  8,  8,
     0, 11,  0, 11,  0,  4,  4,  4,  0,  2,  1,  2, 10,  7,  7,  7,
     3, 12,  0, 12,  0,  5,  5,  5,  0,  9,  0,  9,  0,  8,  8,  8,
     0, 11,  0, 11,  4,  4,  4,  4,  0,  0,  0,  2,  7,  7,  7,  7,
     3, 12,  0, 12,  5,  5,  6,  6,  0,  9,  0,  9,  8,  8,  9,  9,
     2, 11,  2, 11,  4,  4,  4,  4,  0,  2,  0,  2,  7,  7,  7,  7,
     3, 12,  0, 12,  5,  5,  6,  6,  0,  9,  0,  9,  8,  8,  9,  9,
     2, 11,  0, 11,  4,  4,  4,  4,  0,  2,  0,  0,  7,  7,  7,  7,
     3, 12,  0, 12,  0,  5,  5,  5,  0,  9,  0,  9,  0,  8,  8,  8,
     2, 11,  0, 11,  4,  4,  4,  4,  0,  2,  0,  2,  7,  7,  7,  7,
     3, 12,  0, 12,  0,  5,  5,  5,  0,  9,  0,  9,  0,  8,  8,  8,
];

/// The cycles each opcode takes before penalties.
pub const OPCODE_CYCLES: [u8; 256] = [
    7, 6, 2, 8, 3, 3, 5, 5, 3, 2, 2, 2, 4, 4, 6, 6,
    2, 5, 2, 8, 4, 4, 6, 6, 2, 4, 2, 7, 4, 4, 7, 7,
    6, 6, 2, 8, 3, 3, 5, 5, 4, 2, 2, 2, 4, 4, 6, 6,
    2, 5, 2, 8, 4, 4, 6, 6, 2, 4, 2, 7, 4, 4, 7, 7,
    6, 6, 2, 8, 3, 3, 5, 5, 3, 2, 2, 2, 3, 4, 6, 6,
    2, 5, 2, 8, 4, 4, 6, 6, 2, 4, 2, 7, 4, 4, 7, 7,
    6, 6, 2, 8, 3, 3, 5, 5, 4, 2, 2, 2, 5, 4, 6, 6,
    2, 5, 2, 8, 4, 4, 6, 6, 2, 4, 2, 7, 4, 4, 7, 7,
    2, 6, 2, 6, 3, 3, 3, 3, 2, 2, 2, 2, 4, 4, 4, 4,
    2, 6, 2, 6, 4, 4, 4, 4, 2, 5, 2, 5, 5, 5, 5, 5,
    2, 6, 2, 6, 3, 3, 3, 3, 2, 2, 2, 2, 4, 4, 4, 4,
    2, 5, 2, 5, 4, 4, 4, 4, 2, 4, 2, 4, 4, 4, 4, 4,
    2, 6, 2, 8, 3, 3, 5, 5, 2, 2, 2, 2, 4, 4, 6, 6,
    2, 5, 2, 8, 4, 4, 6, 6, 2, 4, 2, 7, 4, 4, 7, 7,
    2, 6, 3, 8, 3, 3, 5, 5, 2, 2, 2, 2, 4, 4, 6, 6,
    2, 5, 2, 8, 4, 4, 6, 6, 2, 4, 2, 7, 4, 4, 7, 7,
];

} // verus!
