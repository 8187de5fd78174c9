//! Text held in the structure of composed values: characters, concatenation,
//! repetition and an exchange of the two renderings a value has.
//!
//! Every value has a primary rendering (the user-facing text), a secondary
//! rendering (a diagnostic form) and the path of its type. Each is written by
//! an executable method whose contract states the text it appends.

mod laws;
mod text;

pub use laws::{
    lemma_chain_associative, lemma_chain_nil, lemma_char_alone, lemma_repeat, lemma_repeat_seq,
    lemma_repeat_zero_one, lemma_swap_involution,
};
pub use text::{repeat_seq, Chain, Char, DisplaySwapDebug, Nil, Render, Repeat};
