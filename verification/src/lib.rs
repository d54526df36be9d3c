mod arena;
mod callable;
mod laws;
mod list;
mod numerals;
mod ops;

pub use arena::Program;

pub use callable::Apply;
pub use callable::FnValue;
pub use callable::__mk_pair;
pub use callable::hint_app;

pub use laws::lemma_map_composition;
pub use laws::lemma_map_elementwise;
pub use laws::lemma_map_identity;

pub use list::Coq_Init_Datatypes_list;
pub use list::MapCurried;
pub use list::MapCurried1;

pub use numerals::ArithmeticOverflow;
pub use numerals::__N_elim;
pub use numerals::__N_frompos;
pub use numerals::__Z_elim;
pub use numerals::__Z_fromneg;
pub use numerals::__Z_frompos;
pub use numerals::__nat_elim;
pub use numerals::__nat_succ;
pub use numerals::__pos_elim;
pub use numerals::__pos_onebit;
pub use numerals::__pos_zerobit;
pub use numerals::lemma_nat_round_trip;
pub use numerals::lemma_onebit_round_trip;
pub use numerals::lemma_zerobit_round_trip;
pub use numerals::nat_pred;
pub use numerals::pos_shift;

pub use ops::NegbCurried;
pub use ops::Repeat2Curried;
pub use ops::Repeat2Curried1;
pub use ops::Repeat2Curried2;
pub use ops::Repeat2Curried3;
