//! Operator diagnostics.
use vstd::prelude::*;

use crate::journal_scan::{dangling_experiments, JournalRow};
use crate::text::decimal;

verus! {

/// What reading the journal came to: its rows, no journal table, or the words in
/// which the read failed.
pub type JournalRead = Result<Option<Vec<JournalRow>>, String>;

/// The state of the journal in words.
pub open spec fn journal_words(read: JournalRead) -> Seq<char> {
    match read {
        Ok(Some(rows)) => if crate::journal_scan::dangling(rows@).len() == 0 {
            "ready"@
        } else {
            "ready ("@ + crate::text::decimal_digits(crate::journal_scan::dangling(rows@).len())
                + " dangling experiment(s) missing a terminal outcome)"@
        },
        Ok(None) => "unavailable (experiment_journal table missing)"@,
        Err(why) => "unavailable ("@ + why@ + ")"@,
    }
}

/// Puts the state of the journal in words.
pub fn journal_report(read: &JournalRead) -> (words: String)
    ensures
        words@ == journal_words(*read),
{
    match read {
        Ok(Some(rows)) => {
            let count: usize = dangling_experiments(rows);
            if count == 0 {
                "ready".to_owned()
            } else {
                "ready (".to_owned()
                    .concat(decimal(count as u64).as_str())
                    .concat(" dangling experiment(s) missing a terminal outcome)")
            }
        },
        Ok(None) => "unavailable (experiment_journal table missing)".to_owned(),
        Err(why) => "unavailable (".to_owned().concat(why.as_str()).concat(")"),
    }
}

/// The words for a journal file; `None` where there is no such file.
pub open spec fn status_words(read: Option<JournalRead>) -> Seq<char> {
    match read {
        Some(read) => journal_words(read),
        None => "missing (no experiments journaled yet)"@,
    }
}

/// The diagnostics report.
pub open spec fn doctor_words(read: Option<JournalRead>, path: Seq<char>) -> Seq<char> {
    "FPSMaxxing diagnostics\n  contracts: ready\n  provider SDK: ready\n  gateway: MCP mock path available\n  journal: "@
        + status_words(read) + " ("@ + path
        + ")\n  hardware writes: disabled\n  status: read-only alpha mock path ready"@
}

/// Writes the diagnostics report on the journal file at `path`; `read` is `None`
/// where there is no such file.
pub fn doctor(read: &Option<JournalRead>, path: &str) -> (words: String)
    ensures
        words@ == doctor_words(*read, path@),
{
    let status = match read {
        Some(read) => journal_report(read),
        None => "missing (no experiments journaled yet)".to_owned(),
    };
    "FPSMaxxing diagnostics\n  contracts: ready\n  provider SDK: ready\n  gateway: MCP mock path available\n  journal: ".to_owned()
        .concat(status.as_str())
        .concat(" (")
        .concat(path)
        .concat(")\n  hardware writes: disabled\n  status: read-only alpha mock path ready")
}

} // verus!
