//! Typing-speed test engine: the target phrase, the live character diff
//! against what was typed, and the session state machine with its statistics.

mod diff;
mod laws;
mod phrase;
mod session;

pub use diff::{CharClass, DiffCell, correct_count, count_correct, diff, diff_cell, diff_spec, lemma_diff_len, PLACEHOLDER};
pub use phrase::{get_word_list, is_listed_word, join_spec, join_words, word_entry, word_list_size};
pub use session::{after_backspace, after_char, calculate_wpm, elapsed_spec, feed, finish_spec, fresh, scored_len, stats_at, wf_view, wpm_spec, App, KeyInput, Phase, SessionStats, SessionView, Wpm, WORDS_PER_PHRASE};
pub use laws::{lemma_completion_trigger, lemma_finished_is_frozen, lemma_restart_resets, lemma_snapshot_idempotent, lemma_typing_appends, room};
