//! Instruction files: the built-in instruction and what a read file is
//! accepted as.
use vstd::prelude::*;

use crate::text::{concat_str, is_blank, str_is_blank};

verus! {

/// The instruction used when no usable instruction file exists.
pub const DEFAULT_INSTRUCTION: &'static str = "You are a helpful AI assistant. Improve the user's text for clarity,
grammar, and style while preserving the original meaning and tone. Focus on
making the text more professional and polished without adding unnecessary
information.";

/// The instruction used when no usable instruction file exists.
pub fn default_instruction() -> (res: String)
    ensures
        res@ == DEFAULT_INSTRUCTION@,
{
    DEFAULT_INSTRUCTION.to_string()
}

/// Why an instruction file could not be used.
#[derive(Debug)]
pub enum InstructionError {
    FileNotFound(String),
    EmptyFile(String),
    IoError(String),
}

/// The message an instruction failure is shown with.
pub open spec fn instruction_error_text(e: &InstructionError) -> Seq<char> {
    match e {
        InstructionError::FileNotFound(p) => "Instruction file not found: "@ + p@,
        InstructionError::EmptyFile(p) => "Instruction file is empty: "@ + p@,
        InstructionError::IoError(m) => "IO error: "@ + m@,
    }
}

impl InstructionError {
    /// The message this failure is shown with.
    pub fn to_string(&self) -> (res: String)
        ensures
            res@ == instruction_error_text(self),
    {
        match self {
            InstructionError::FileNotFound(p) => concat_str("Instruction file not found: ", p.as_str()),
            InstructionError::EmptyFile(p) => concat_str("Instruction file is empty: ", p.as_str()),
            InstructionError::IoError(m) => concat_str("IO error: ", m.as_str()),
        }
    }
}

/// What a read instruction file is accepted as: its content, unless that is
/// nothing but white space, which makes it an empty file (named by `path`).
pub fn accept_instruction(path: &str, content: String) -> (res: Result<String, InstructionError>)
    ensures
        is_blank(content@) ==> (res matches Err(InstructionError::EmptyFile(p)) && p@ == path@),
        !is_blank(content@) ==> (res matches Ok(c) && c@ == content@),
{
    if str_is_blank(content.as_str()) {
        Err(InstructionError::EmptyFile(path.to_string()))
    } else {
        Ok(content)
    }
}

} // verus!
