//! The action report of one command: an ordered log of what each step did,
//! and the tallied summary that closes it.

use vstd::prelude::*;
use vstd::string::StringExecFns;
use crate::text::push_decimal;
use crate::text::texts;

verus! {

/// What a single idempotent step did.
#[derive(Debug, Clone, Copy, PartialEq, Eq, Structural)]
pub enum ActionOutcome {
    Created,
    Skipped,
    Updated,
    Removed,
    NotFound,
}

impl ActionOutcome {
    /// The outcome as it is shown to the user.
    pub open spec fn label_text(self) -> Seq<char> {
        match self {
            ActionOutcome::Created => "Created"@,
            ActionOutcome::Skipped => "Skipped"@,
            ActionOutcome::Updated => "Updated"@,
            ActionOutcome::Removed => "Removed"@,
            ActionOutcome::NotFound => "Not Found"@,
        }
    }

    /// The outcome as it is shown to the user.
    pub fn label(&self) -> (r: &'static str)
        ensures
            r@ == self.label_text(),
    {
        match self {
            ActionOutcome::Created => "Created",
            ActionOutcome::Skipped => "Skipped",
            ActionOutcome::Updated => "Updated",
            ActionOutcome::Removed => "Removed",
            ActionOutcome::NotFound => "Not Found",
        }
    }

    /// The label as an owned string.
    pub fn to_display_string(&self) -> (r: String)
        ensures
            r@ == self.label_text(),
    {
        String::from_str(self.label())
    }
}

/// One entry of a report: what was acted on, and what happened.
#[derive(Debug, Clone, PartialEq, Eq)]
pub struct ActionRecord {
    pub description: String,
    pub outcome: ActionOutcome,
}

/// The mathematical content of an [`ActionRecord`].
pub struct RecordView {
    pub description: Seq<char>,
    pub outcome: ActionOutcome,
}

impl View for ActionRecord {
    type V = RecordView;

    open spec fn view(&self) -> RecordView {
        RecordView { description: self.description@, outcome: self.outcome }
    }
}

/// The line printed when an entry is recorded.
pub open spec fn record_line(description: Seq<char>, outcome: ActionOutcome) -> Seq<char> {
    outcome.label_text() + ": "@ + description
}

/// How many of the entries carry the outcome `which`.
pub open spec fn tally(entries: Seq<RecordView>, which: ActionOutcome) -> nat
    decreases entries.len(),
{
    if entries.len() == 0 {
        0
    } else if entries.last().outcome == which {
        tally(entries.drop_last(), which) + 1
    } else {
        tally(entries.drop_last(), which)
    }
}

/// The mathematical content of an [`ActionReport`].
pub struct ReportView {
    pub command_name: Seq<char>,
    pub entries: Seq<RecordView>,
}

/// `head` followed by the decimal numeral of `count`.
pub open spec fn counted_line(head: Seq<char>, count: nat) -> Seq<char> {
    head + crate::text::decimal(count)
}

/// The tally line of one outcome, present only when the count is positive.
pub open spec fn tally_lines(head: Seq<char>, count: nat) -> Seq<Seq<char>> {
    if count > 0 {
        seq![counted_line(head, count)]
    } else {
        Seq::empty()
    }
}

/// The summary of a report, line by line: a blank line, the title, the
/// total, one line for each outcome that occurred (in the order Created,
/// Skipped, Updated, Removed, Not Found), and a closing rule.
pub open spec fn summary_text(report: ReportView) -> Seq<Seq<char>> {
    seq![
        Seq::<char>::empty(),
        "=== "@ + report.command_name + " Summary ==="@,
        counted_line("Total actions: "@, report.entries.len()),
    ] + tally_lines("  Created: "@, tally(report.entries, ActionOutcome::Created)) + tally_lines(
        "  Skipped: "@,
        tally(report.entries, ActionOutcome::Skipped),
    ) + tally_lines("  Updated: "@, tally(report.entries, ActionOutcome::Updated)) + tally_lines(
        "  Removed: "@,
        tally(report.entries, ActionOutcome::Removed),
    ) + tally_lines("  Not Found: "@, tally(report.entries, ActionOutcome::NotFound))
        + seq!["=================="@]
}

/// The entries held by a sequence of records.
pub open spec fn record_views(records: Seq<ActionRecord>) -> Seq<RecordView> {
    Seq::new(records.len(), |i: int| records[i]@)
}

/// Collects the actions of one command, in the order they were taken.
#[derive(Debug, Clone, PartialEq, Eq)]
pub struct ActionReport {
    command_name: String,
    actions: Vec<ActionRecord>,
}

impl View for ActionReport {
    type V = ReportView;

    closed spec fn view(&self) -> ReportView {
        ReportView { command_name: self.command_name@, entries: record_views(self.actions@) }
    }
}

impl ActionReport {
    /// An empty report for the command called `command_name`.
    pub fn new(command_name: &str) -> (report: Self)
        ensures
            report@.command_name == command_name@,
            report@.entries == Seq::<RecordView>::empty(),
    {
        let report = ActionReport {
            command_name: String::from_str(command_name),
            actions: Vec::new(),
        };
        assert(report@.entries =~= Seq::<RecordView>::empty());
        report
    }

    /// Appends an entry and returns the line that announces it.
    pub fn record(&mut self, description: &str, outcome: ActionOutcome) -> (line: String)
        ensures
            final(self)@.command_name == old(self)@.command_name,
            final(self)@.entries == old(self)@.entries.push(
                RecordView { description: description@, outcome },
            ),
            line@ == record_line(description@, outcome),
    {
        let mut line = outcome.to_display_string();
        line.append(": ");
        line.append(description);
        self.actions.push(ActionRecord { description: String::from_str(description), outcome });
        assert(self@.entries =~= old(self)@.entries.push(
            RecordView { description: description@, outcome },
        ));
        line
    }

    /// The number of entries recorded so far.
    pub fn len(&self) -> (n: usize)
        ensures
            n == self@.entries.len(),
    {
        self.actions.len()
    }

    /// The outcome of the entry at `index`.
    pub fn outcome_at(&self, index: usize) -> (outcome: ActionOutcome)
        requires
            index < self@.entries.len(),
        ensures
            outcome == self@.entries[index as int].outcome,
    {
        self.actions[index].outcome
    }

    /// The description of the entry at `index`.
    pub fn description_at(&self, index: usize) -> (description: &String)
        requires
            index < self@.entries.len(),
        ensures
            description@ == self@.entries[index as int].description,
    {
        &self.actions[index].description
    }

    /// The number of entries with the outcome `which`.
    pub fn count(&self, which: ActionOutcome) -> (n: usize)
        ensures
            n == tally(self@.entries, which),
    {
        let mut n: usize = 0;
        let mut i: usize = 0;
        while i < self.actions.len()
            invariant
                i <= self.actions.len(),
                n <= i,
                n == tally(self@.entries.take(i as int), which),
            decreases self.actions.len() - i,
        {
            assert(self@.entries.take(i + 1).drop_last() =~= self@.entries.take(i as int));
            if self.actions[i].outcome == which {
                n = n + 1;
            }
            i = i + 1;
        }
        assert(self@.entries.take(i as int) =~= self@.entries);
        n
    }

    /// The closing summary, one string per line.
    pub fn summary_lines(&self) -> (lines: Vec<String>)
        ensures
            texts(lines@) == summary_text(self@),
    {
        let mut lines: Vec<String> = Vec::new();
        lines.push(String::new());
        let mut title = String::from_str("=== ");
        title.append(self.command_name.as_str());
        title.append(" Summary ===");
        lines.push(title);
        let mut total = String::from_str("Total actions: ");
        push_decimal(&mut total, self.actions.len() as u64);
        lines.push(total);
        assert(texts(lines@) =~= seq![
            Seq::<char>::empty(),
            "=== "@ + self@.command_name + " Summary ==="@,
            counted_line("Total actions: "@, self@.entries.len()),
        ]);
        push_tally(&mut lines, "  Created: ", self.count(ActionOutcome::Created));
        push_tally(&mut lines, "  Skipped: ", self.count(ActionOutcome::Skipped));
        push_tally(&mut lines, "  Updated: ", self.count(ActionOutcome::Updated));
        push_tally(&mut lines, "  Removed: ", self.count(ActionOutcome::Removed));
        push_tally(&mut lines, "  Not Found: ", self.count(ActionOutcome::NotFound));
        lines.push(String::from_str("=================="));
        assert(texts(lines@) =~= summary_text(self@));
        lines
    }
}

/// Appends the tally line of one outcome, if the outcome occurred.
fn push_tally(lines: &mut Vec<String>, head: &str, count: usize)
    ensures
        texts(final(lines)@) == texts(old(lines)@) + tally_lines(head@, count as nat),
{
    if count > 0 {
        let mut line = String::from_str(head);
        push_decimal(&mut line, count as u64);
        lines.push(line);
    }
    assert(texts(lines@) =~= texts(old(lines)@) + tally_lines(head@, count as nat));
}

} // verus!
