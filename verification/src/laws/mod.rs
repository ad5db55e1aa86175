//! What holds of the library as a whole, beside what each function says of itself.

pub mod acting;
pub mod asking;
pub mod calling;
pub mod chatting;
pub mod cleaning;
pub mod grepping;
pub mod leading;
pub mod measuring;
pub mod modelling;
pub mod noting;
pub mod offering;
pub mod parts;
pub mod patching;
pub mod promising;
pub mod prompting;
pub mod reading;
pub mod serving;
pub mod streaming;
pub mod structuring;
pub mod telling;
pub mod undoing;
pub mod wording;
pub mod working;
