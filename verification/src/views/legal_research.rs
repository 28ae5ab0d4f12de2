//! The legal research workbench: the label that each reader intent carries
//! on its button. Interaction state holds UI intent only; it never holds or
//! changes payment, applicability, claim-truth or authority state.
use vstd::prelude::*;
use crate::reader_model::ReaderIntent;

verus! {

/// The button label of a reader intent.
pub open spec fn intent_label_text(intent: ReaderIntent) -> Seq<char> {
    match intent {
        ReaderIntent::Explain => "Explain"@,
        ReaderIntent::WhyClaim => "Why claim?"@,
        ReaderIntent::OpenSource => "Open source"@,
        ReaderIntent::ExpandProofCone => "Expand proof cone"@,
        ReaderIntent::Back => "Back"@,
    }
}

/// The button label of a reader intent.
pub fn intent_label(intent: ReaderIntent) -> (label: &'static str)
    ensures
        label@ == intent_label_text(intent),
{
    match intent {
        ReaderIntent::Explain => "Explain",
        ReaderIntent::WhyClaim => "Why claim?",
        ReaderIntent::OpenSource => "Open source",
        ReaderIntent::ExpandProofCone => "Expand proof cone",
        ReaderIntent::Back => "Back",
    }
}

/// Each intent has a label of its own, so a label names exactly one intent.
pub proof fn lemma_intent_labels_distinct(a: ReaderIntent, b: ReaderIntent)
    requires
        a != b,
    ensures
        intent_label_text(a) != intent_label_text(b),
{
    reveal_strlit("Explain");
    reveal_strlit("Why claim?");
    reveal_strlit("Open source");
    reveal_strlit("Expand proof cone");
    reveal_strlit("Back");
    assert(intent_label_text(a).len() != intent_label_text(b).len());
}

/// What each button says: explain, ask why the claim holds, open the exact
/// source, expand the proof cone, or go back.
pub proof fn lemma_intent_labels_name_their_intent(intent: ReaderIntent)
    ensures
        intent == ReaderIntent::Explain ==> intent_label_text(intent) == "Explain"@,
        intent == ReaderIntent::WhyClaim ==> intent_label_text(intent) == "Why claim?"@,
        intent == ReaderIntent::OpenSource ==> intent_label_text(intent) == "Open source"@,
        intent == ReaderIntent::ExpandProofCone ==> intent_label_text(intent)
            == "Expand proof cone"@,
        intent == ReaderIntent::Back ==> intent_label_text(intent) == "Back"@,
{
}

} // verus!
