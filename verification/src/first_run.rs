//! The first-run source picker: which sources to offer, how each is
//! described, and how a typed answer is taken (with a bounded number of
//! retries). The prompting itself happens outside.

use vstd::prelude::*;

use crate::app::Source;
use crate::queue::BuildFeatures;

verus! {

/// The sources a build offers, in display order: Spotify always, then each
/// source whose feature the build carries.
pub open spec fn offered_sources(f: BuildFeatures) -> Seq<Source> {
    let s1 = seq![Source::Spotify];
    let s2 = if f.youtube {
        s1.push(Source::YouTube)
    } else {
        s1
    };
    let s3 = if f.subsonic {
        s2.push(Source::Subsonic)
    } else {
        s2
    };
    let s4 = if f.internet_radio {
        s3.push(Source::Radio)
    } else {
        s3
    };
    if f.local_files {
        s4.push(Source::Local)
    } else {
        s4
    }
}

/// The sources compiled into a build with `features`, in display order.
pub fn compiled_in_sources(features: BuildFeatures) -> (r: Vec<Source>)
    ensures
        r@ == offered_sources(features),
{
    let mut options: Vec<Source> = Vec::new();
    options.push(Source::Spotify);
    if features.youtube {
        options.push(Source::YouTube);
    }
    if features.subsonic {
        options.push(Source::Subsonic);
    }
    if features.internet_radio {
        options.push(Source::Radio);
    }
    if features.local_files {
        options.push(Source::Local);
    }
    assert(options@ =~= offered_sources(features));
    options
}

/// The picker only runs when there is a choice to make: a Spotify-only
/// build keeps the Spotify sign-in flow.
pub fn picker_needed(options_len: usize) -> (b: bool)
    ensures
        b == (options_len != 1),
{
    options_len != 1
}

/// What each source needs, shown after its name.
pub fn source_note(source: Source) -> (note: &'static str)
    ensures
        note@ == match source {
            Source::Spotify => " (needs login)"@,
            Source::YouTube => " (free, needs the yt-dlp binary)"@,
            Source::Subsonic => " (free, needs a Subsonic/Navidrome server)"@,
            Source::Radio => " (free)"@,
            Source::Local => " (free)"@,
        },
{
    match source {
        Source::Spotify => " (needs login)",
        Source::YouTube => " (free, needs the yt-dlp binary)",
        Source::Subsonic => " (free, needs a Subsonic/Navidrome server)",
        Source::Radio => " (free)",
        Source::Local => " (free)",
    }
}

/// How many invalid answers a prompt takes before giving up.
pub const MAX_RETRIES: u8 = 5;

/// What a prompt does after an answer.
#[derive(Debug, Clone, PartialEq, Eq)]
pub enum PromptStep<T> {
    /// The answer is taken.
    Accept(T),
    /// Ask again; this many invalid answers so far.
    Retry(u8),
    /// Too many invalid answers.
    GiveUp,
}

/// After an invalid answer with `retries` before it: ask again, unless this
/// was the last allowed.
pub open spec fn after_invalid<T>(retries: u8) -> PromptStep<T> {
    if retries + 1 >= MAX_RETRIES {
        PromptStep::GiveUp
    } else {
        PromptStep::Retry((retries + 1) as u8)
    }
}

/// The step after answering "Choose (1-max)".
pub open spec fn choice_step(parsed: Option<usize>, max: usize, retries: u8) -> PromptStep<usize> {
    match parsed {
        Some(n) => if 1 <= n <= max {
            PromptStep::Accept(n)
        } else {
            after_invalid(retries)
        },
        None => after_invalid(retries),
    }
}

/// Take an answer to "Choose (1-max)": a number from 1 to `max` is taken;
/// anything else (including no number) counts as an invalid answer.
pub fn prompt_choice_step(parsed: Option<usize>, max: usize, retries: u8) -> (r: PromptStep<usize>)
    requires
        retries < MAX_RETRIES,
    ensures
        r == choice_step(parsed, max, retries),
{
    if let Some(n) = parsed {
        if 1 <= n && n <= max {
            return PromptStep::Accept(n);
        }
    }
    if retries + 1 >= MAX_RETRIES {
        PromptStep::GiveUp
    } else {
        PromptStep::Retry(retries + 1)
    }
}

/// Take an answer to a required text prompt (already trimmed): any
/// non-empty answer is taken; an empty one counts as invalid.
pub fn prompt_line_step(trimmed: String, retries: u8) -> (r: PromptStep<String>)
    requires
        retries < MAX_RETRIES,
    ensures
        trimmed@.len() > 0 ==> r == PromptStep::Accept(trimmed),
        trimmed@.len() == 0 ==> r == after_invalid::<String>(retries),
{
    if !trimmed.as_str().is_empty() {
        PromptStep::Accept(trimmed)
    } else {
        if retries + 1 >= MAX_RETRIES {
            PromptStep::GiveUp
        } else {
            PromptStep::Retry(retries + 1)
        }
    }
}

/// A prompt never asks more than the allowed number of times: each invalid
/// answer either gives up or counts one more retry, still under the bound.
pub proof fn law_prompts_are_bounded(retries: u8)
    requires
        retries < MAX_RETRIES,
    ensures
        after_invalid::<usize>(retries) matches PromptStep::Retry(k) ==> k == retries + 1 && k
            < MAX_RETRIES,
        retries + 1 == MAX_RETRIES ==> after_invalid::<usize>(retries) is GiveUp,
{
}

/// The picker offers each source exactly when the build carries it:
/// Spotify always and first, every other source once and only with its
/// feature; a build with no optional source offers Spotify alone.
pub proof fn law_offered_sources_follow_the_build(f: BuildFeatures)
    ensures
        offered_sources(f)[0] == Source::Spotify,
        offered_sources(f).contains(Source::YouTube) <==> f.youtube,
        offered_sources(f).contains(Source::Subsonic) <==> f.subsonic,
        offered_sources(f).contains(Source::Radio) <==> f.internet_radio,
        offered_sources(f).contains(Source::Local) <==> f.local_files,
        offered_sources(f).len() == 1 + (if f.youtube { 1int } else { 0 }) + (if f.subsonic {
            1int
        } else {
            0
        }) + (if f.internet_radio { 1int } else { 0 }) + (if f.local_files { 1int } else { 0 }),
        offered_sources(f).no_duplicates(),
{
    let s = offered_sources(f);
    let y: int = if f.youtube { 1 } else { 0 };
    let b: int = if f.subsonic { 1 } else { 0 };
    let r: int = if f.internet_radio { 1 } else { 0 };
    if f.youtube {
        assert(s[1] == Source::YouTube);
    }
    if f.subsonic {
        assert(s[1 + y] == Source::Subsonic);
    }
    if f.internet_radio {
        assert(s[1 + y + b] == Source::Radio);
    }
    if f.local_files {
        assert(s[s.len() - 1] == Source::Local);
    }
}

/// Five invalid answers in a row end the prompt: starting from none, the
/// retry count climbs by one per invalid answer and the fifth gives up.
pub proof fn law_fifth_invalid_answer_gives_up()
    ensures
        after_invalid::<usize>(0) == PromptStep::<usize>::Retry(1),
        after_invalid::<usize>(1) == PromptStep::<usize>::Retry(2),
        after_invalid::<usize>(2) == PromptStep::<usize>::Retry(3),
        after_invalid::<usize>(3) == PromptStep::<usize>::Retry(4),
        after_invalid::<usize>(4) == PromptStep::<usize>::GiveUp,
{
}

/// A choice is taken exactly when it names one of the offered options
/// (1 to `max`), and then as given; any other answer is one more invalid
/// answer.
pub proof fn law_only_listed_choices_are_taken(parsed: Option<usize>, max: usize, retries: u8)
    ensures
        choice_step(parsed, max, retries) is Accept <==> (parsed matches Some(n) && 1 <= n <= max),
        choice_step(parsed, max, retries) matches PromptStep::Accept(n) ==> parsed == Some(n),
        !(choice_step(parsed, max, retries) is Accept) ==> choice_step(parsed, max, retries)
            == after_invalid::<usize>(retries),
{
}

} // verus!
