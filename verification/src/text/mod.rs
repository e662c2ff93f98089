pub mod chars;
pub mod lines;
pub mod number;
pub mod order;
pub mod search;
pub mod trim;
pub mod utf8;
