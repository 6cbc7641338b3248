//! The AI mentor's panel: its state and the history of what was asked.

use vstd::prelude::*;
use vstd::string::*;
use crate::number::{digit_char, char_of_digit};

verus! {

/// What the panel shows.
#[derive(Debug, Clone, Copy, PartialEq, Eq, Structural)]
pub enum AiMode {
    Menu,
    Input,
    Result,
    History,
}

/// One question to the mentor with its answer.
#[derive(Debug, Clone)]
pub struct AiHistoryEntry {
    pub query: String,
    pub response: String,
    /// The time of day of the question, as `HH:MM`.
    pub timestamp: String,
}

/// The state of the mentor's panel.
#[derive(Debug, Clone)]
pub struct AiMentorState {
    pub mode: AiMode,
    pub selected: usize,
    pub input: String,
    pub result_text: String,
    pub result_scroll: u16,
    pub last_action: Option<String>,
    pub history: Vec<AiHistoryEntry>,
    pub history_selected: usize,
    pub history_scroll: u16,
}

/// The mathematical value of an `AiHistoryEntry`.
pub struct AiHistoryEntryView {
    pub query: Seq<char>,
    pub response: Seq<char>,
    pub timestamp: Seq<char>,
}

impl View for AiHistoryEntry {
    type V = AiHistoryEntryView;

    open spec fn view(&self) -> AiHistoryEntryView {
        AiHistoryEntryView {
            query: self.query@,
            response: self.response@,
            timestamp: self.timestamp@,
        }
    }
}

impl DeepView for AiHistoryEntry {
    type V = AiHistoryEntryView;

    open spec fn deep_view(&self) -> AiHistoryEntryView {
        self@
    }
}

/// The number of entries that the history keeps.
pub const MAX_HISTORY: usize = 50;

/// A number below a hundred in two digits.
pub open spec fn two_digits(n: nat) -> Seq<char>
    recommends
        n < 100,
{
    seq![digit_char(n / 10), digit_char(n % 10)]
}

/// The time of day, as `HH:MM`, of a moment given in seconds since the
/// epoch.
pub open spec fn time_of_day(secs: nat) -> Seq<char> {
    two_digits((secs / 3600) % 24) + seq![':'] + two_digits((secs / 60) % 60)
}

/// The history with one more entry: the oldest entry leaves where there
/// are more than `MAX_HISTORY`.
pub open spec fn history_with(history: Seq<AiHistoryEntryView>, entry: AiHistoryEntryView) -> Seq<
    AiHistoryEntryView,
> {
    if history.len() + 1 > MAX_HISTORY {
        history.push(entry).drop_first()
    } else {
        history.push(entry)
    }
}

/// The time of day, as `HH:MM`, of a moment given in seconds since the
/// epoch.
pub fn time_of_day_text(secs: u64) -> (text: String)
    ensures
        text@ == time_of_day(secs as nat),
{
    let hours = (secs / 3600) % 24;
    let mins = (secs / 60) % 60;
    let mut text = String::new();
    text.push(char_of_digit((hours / 10) as u32));
    text.push(char_of_digit((hours % 10) as u32));
    text.push(':');
    text.push(char_of_digit((mins / 10) as u32));
    text.push(char_of_digit((mins % 10) as u32));
    assert(text@ =~= time_of_day(secs as nat));
    text
}

impl AiMentorState {
    /// Adds a question and its answer to the history, with the time of day
    /// of the moment `now_secs` (in seconds since the epoch). The rest of
    /// the state stays as it is; the history is to be saved afterwards.
    pub fn add_history(&mut self, query: String, response: String, now_secs: u64)
        ensures
            final(self).history.deep_view() == history_with(
                old(self).history.deep_view(),
                AiHistoryEntryView {
                    query: query@,
                    response: response@,
                    timestamp: time_of_day(now_secs as nat),
                },
            ),
            final(self).history@.len() <= MAX_HISTORY || final(self).history@.len() == old(
                self,
            ).history@.len(),
            final(self).mode == old(self).mode,
            final(self).selected == old(self).selected,
            final(self).input == old(self).input,
            final(self).result_text == old(self).result_text,
            final(self).result_scroll == old(self).result_scroll,
            final(self).last_action == old(self).last_action,
            final(self).history_selected == old(self).history_selected,
            final(self).history_scroll == old(self).history_scroll,
    {
        let entry = AiHistoryEntry { query, response, timestamp: time_of_day_text(now_secs) };
        let ghost before = self.history.deep_view();
        self.history.push(entry);
        assert(self.history.deep_view() =~= before.push(entry@));
        if self.history.len() > MAX_HISTORY {
            let ghost full = self.history.deep_view();
            self.history.remove(0);
            assert(self.history.deep_view() =~= full.drop_first());
        }
    }
}

} // verus!
