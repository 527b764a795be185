//! A wrapping 8-bit counter driven by button commands, with the text that
//! a window shows for it.

pub mod label;
pub mod model;

pub use label::{decimal, digit_char, label_of, label_text_of};
pub use model::{
    lemma_increment_decrement_round_trip, lemma_no_op_keeps_label, lemma_run_net_delta, net_delta, run,
    step, wrap_dec, wrap_inc, AppInput, AppModel,
};
