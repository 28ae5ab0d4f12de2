use solfunmeme_dioxus::reader_model::ReaderIntent;
use solfunmeme_dioxus::views::legal_research::intent_label;

#[allow(non_snake_case)]
#[test]
fn UI_intents_are_exact_reader_intents() {
    assert_eq!(intent_label(ReaderIntent::WhyClaim), "Why claim?");
    assert_eq!(intent_label(ReaderIntent::OpenSource), "Open source");
}

#[test]
fn every_intent_has_its_own_label() {
    let intents = [
        ReaderIntent::Explain,
        ReaderIntent::WhyClaim,
        ReaderIntent::OpenSource,
        ReaderIntent::ExpandProofCone,
        ReaderIntent::Back,
    ];
    let labels: Vec<&str> = intents.iter().map(|i| intent_label(*i)).collect();
    assert_eq!(labels, vec!["Explain", "Why claim?", "Open source", "Expand proof cone", "Back"]);
}
