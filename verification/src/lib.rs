//! A small RISC-V assembler and the decision logic of an LLM-driven
//! instruction loop, with their behaviour stated and proved in Verus.

pub mod assembler;
pub mod encode;
pub mod isa;
pub mod llm;
pub mod number;
pub mod operand;
pub mod render;
pub mod roundtrip;
pub mod session;
pub mod text;
