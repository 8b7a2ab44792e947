use spotatui::app::Source;
use spotatui::first_run::{
    compiled_in_sources, picker_needed, prompt_choice_step, prompt_line_step, source_note, PromptStep,
};
use spotatui::queue::BuildFeatures;

#[test]
fn sources_are_offered_in_display_order() {
    let all = BuildFeatures { streaming: true, local_files: true, subsonic: true, youtube: true, internet_radio: true };
    assert_eq!(
        compiled_in_sources(all),
        vec![Source::Spotify, Source::YouTube, Source::Subsonic, Source::Radio, Source::Local]
    );
    let slim = BuildFeatures { streaming: true, local_files: false, subsonic: false, youtube: false, internet_radio: false };
    assert_eq!(compiled_in_sources(slim), vec![Source::Spotify]);
    assert!(!picker_needed(compiled_in_sources(slim).len()));
    assert!(picker_needed(compiled_in_sources(all).len()));
}

#[test]
fn source_notes_say_what_each_needs() {
    assert_eq!(source_note(Source::Spotify), " (needs login)");
    assert_eq!(source_note(Source::YouTube), " (free, needs the yt-dlp binary)");
    assert_eq!(source_note(Source::Radio), " (free)");
}

#[test]
fn choices_outside_the_range_are_retried_then_given_up() {
    assert_eq!(prompt_choice_step(Some(2), 3, 0), PromptStep::Accept(2));
    assert_eq!(prompt_choice_step(Some(0), 3, 0), PromptStep::Retry(1));
    assert_eq!(prompt_choice_step(Some(4), 3, 3), PromptStep::Retry(4));
    assert_eq!(prompt_choice_step(None, 3, 4), PromptStep::GiveUp);
    assert_eq!(prompt_line_step("url".to_string(), 0), PromptStep::Accept("url".to_string()));
    assert_eq!(prompt_line_step(String::new(), 4), PromptStep::GiveUp);
}
