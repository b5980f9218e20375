pub mod arithmetic;
pub mod common;
pub mod control;
pub mod flags;
pub mod incdec;
pub mod load;
pub mod logic;
pub mod results;
pub mod stack;
pub mod dispatch;
pub mod flag_mask;
pub mod frame;
pub mod timing;
