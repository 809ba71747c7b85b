//! What the two prompts show and accept.

use crate::settings::{ConnectionConfig, ConnectionConfigView};
use vstd::prelude::*;

verus! {

/// The question that offers to create a default settings file.
pub open spec fn default_offer_text() -> Seq<char> {
    "Would you like to create a default config?"@
}

/// The question above the offer of a default settings file.
pub fn default_offer_question() -> (text: &'static str)
    ensures
        text@ == default_offer_text(),
{
    "Would you like to create a default config?"
}

/// The heading of the instance list.
pub open spec fn instance_text() -> Seq<char> {
    "Select instance \u{2191}/\u{2193}: (type to filter)"@
}

/// The heading above the instance list.
pub fn instance_question() -> (text: &'static str)
    ensures
        text@ == instance_text(),
{
    "Select instance \u{2191}/\u{2193}: (type to filter)"
}

/// The question for the port.
pub open spec fn port_text() -> Seq<char> {
    "Which port would you like to connect on?"@
}

/// The question above the port field.
pub fn port_question() -> (text: &'static str)
    ensures
        text@ == port_text(),
{
    "Which port would you like to connect on?"
}

/// The complaint shown for a port that was left empty.
pub open spec fn empty_port_complaint() -> Seq<char> {
    "Port cannot be empty"@
}

/// The complaint for an empty port, as text.
pub fn port_complaint() -> (text: &'static str)
    ensures
        text@ == empty_port_complaint(),
{
    "Port cannot be empty"
}

/// Whether a submitted port is taken: any text but the empty one. The text
/// need not be a number.
pub open spec fn port_accepted(input: Seq<char>) -> bool {
    input.len() > 0
}

/// Judges a submitted port: an empty one is refused with the complaint that
/// the prompt shows before asking again, any other is accepted as it is.
pub fn validate_port(input: &str) -> (verdict: Result<(), &'static str>)
    ensures
        verdict is Ok <==> port_accepted(input@),
        verdict matches Err(complaint) ==> complaint@ == empty_port_complaint(),
{
    if input.is_empty() {
        Err(port_complaint())
    } else {
        Ok(())
    }
}

/// One row of the instance list: the entry that choosing the row yields, the
/// label under which it is listed, and the hint beside it.
pub open spec fn row_of(entry: ConnectionConfigView) -> (ConnectionConfigView, Seq<char>, Seq<char>) {
    (entry, entry.instance, Seq::<char>::empty())
}

/// What a row holds, as plain values.
pub open spec fn row_view(row: (ConnectionConfig, String, String)) -> (
    ConnectionConfigView,
    Seq<char>,
    Seq<char>,
) {
    (row.0@, row.1@, row.2@)
}

/// The rows of the instance list: one per entry and in the entries' order,
/// each labelled by its instance and carrying the entry unchanged, without a hint.
pub fn instance_items(options: &Vec<ConnectionConfig>) -> (rows: Vec<(ConnectionConfig, String, String)>)
    ensures
        rows@.len() == options@.len(),
        forall|i: int| 0 <= i < options@.len() ==> row_view(#[trigger] rows@[i]) == row_of(options@[i]@),
{
    let mut rows: Vec<(ConnectionConfig, String, String)> = Vec::new();
    let mut k: usize = 0;
    while k < options.len()
        invariant
            k <= options@.len(),
            rows@.len() == k,
            forall|i: int| 0 <= i < k ==> row_view(#[trigger] rows@[i]) == row_of(options@[i]@),
        decreases options@.len() - k,
    {
        let entry = options[k].duplicate();
        let label = options[k].instance.clone();
        rows.push((entry, label, String::new()));
        k += 1;
    }
    rows
}

} // verus!
