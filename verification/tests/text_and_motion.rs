use solfunmeme_dioxus::extractor::system::clipboard::combined_snippet_text;
use solfunmeme_dioxus::stubs::motion::prelude::{
    use_motion, AnimationConfig, AnimationManager, AnimationSequence,
};
use solfunmeme_dioxus::stubs::motion::LoopMode;
use solfunmeme_dioxus::text::push_decimal;

#[test]
fn decimal_rendering_matches_display() {
    for n in [0usize, 7, 9, 10, 42, 100, 1234567890, usize::MAX] {
        let mut s = String::from("x");
        push_decimal(&mut s, n);
        assert_eq!(s, format!("x{}", n));
    }
}

#[test]
fn combined_snippets_are_separated_by_a_blank_line() {
    assert_eq!(combined_snippet_text(&vec![]), "");
    assert_eq!(combined_snippet_text(&vec!["fn a() {}".to_string()]), "fn a() {}");
    assert_eq!(
        combined_snippet_text(&vec!["a".to_string(), "b".to_string(), "c".to_string()]),
        "a\n\nb\n\nc"
    );
}

#[test]
fn motion_handle_jumps_to_targets() {
    let mut handle = use_motion(3i32);
    assert_eq!(handle.get_value(), 3);
    handle.animate_to(8, AnimationConfig::new(()));
    assert_eq!(handle.get_value(), 8);

    let seq: AnimationSequence<i32, ()> = AnimationSequence::new()
        .then(1, AnimationConfig::new(()))
        .then(5, AnimationConfig::new(()).with_loop(LoopMode::Infinite));
    handle.animate_sequence(seq);
    assert_eq!(handle.get_value(), 5);

    handle.animate_sequence(AnimationSequence::<i32, ()>::new());
    assert_eq!(handle.get_value(), 5);
}

#[test]
fn animation_config_loops() {
    let config = AnimationConfig::new(7u8);
    assert_eq!(config.loop_mode, None);
    let looped = config.with_loop(LoopMode::Infinite);
    assert_eq!(looped.mode, 7);
    assert_eq!(looped.loop_mode, Some(LoopMode::Infinite));
    assert_eq!(LoopMode::default(), LoopMode::NoLoop);
}
