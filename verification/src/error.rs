use vstd::prelude::*;

verus! {

/// What can go wrong while loading a cartridge or running guest code.
#[derive(Clone, Copy, Debug, PartialEq, Eq)]
pub enum NesError {
    /// The image is shorter than its header announces, or the magic is wrong.
    InvalidInesImage,
    /// The image asks for a mapper this core does not implement.
    UnsupportedMapper,
    /// The guest executed one of the halting opcodes.
    FatalCpuHalt,
    /// The guest stored to cartridge ROM on a mapper that treats this as fatal.
    RomWrite,
}

impl NesError {
    /// A short diagnostic for the error.
    pub fn message(&self) -> (text: &'static str)
        ensures
            text@ == match *self {
                NesError::InvalidInesImage => "invalid iNES image"@,
                NesError::UnsupportedMapper => "unsupported mapper"@,
                NesError::FatalCpuHalt => "CPU halted"@,
                NesError::RomWrite => "write to cartridge ROM"@,
            },
    {
        match self {
            NesError::InvalidInesImage => "invalid iNES image",
            NesError::UnsupportedMapper => "unsupported mapper",
            NesError::FatalCpuHalt => "CPU halted",
            NesError::RomWrite => "write to cartridge ROM",
        }
    }
}

} // verus!
