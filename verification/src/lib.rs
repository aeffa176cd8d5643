//! A small virtual machine for class files.
//!
//! `class` loads the binary format: the constant pool with its 1-based
//! indices, and the records of the class, its fields, methods and
//! attributes. `jvm` is the machine: typed values, a heap of objects and
//! arrays, frames with their operand stacks, and an interpreter that runs
//! one thread, step by step, for as many steps as it is given.
//!
//! The library reads no file and does no floating-point arithmetic. A host
//! hands it the bytes of a class file, and makes the floating-point sums
//! that the machine asks for; numbers of the types `float` and `double`
//! travel as bit patterns.

pub mod class;
pub mod jvm;
