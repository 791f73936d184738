//! Small building blocks of a console greeter: integer helpers, decimal
//! rendering, greeting texts and the fixed sequence of lines that the
//! program writes.

pub mod decimal;
pub mod entry;
pub mod greeting;
pub mod numbers;
