//! The prompt drawn before the command input: context chips and the `$` sign.
use vstd::prelude::*;
use crate::config::{PromptSettings, PromptStyle};
use crate::text::{concat3, is_digit, owned, string_views};

verus! {

/// A piece of the prompt: its text and the terminal colour it is drawn in (`None` for
/// the theme's foreground colour), with whether the bright variant is used.
#[derive(Debug)]
pub struct PromptSegment {
    pub text: String,
    pub color: Option<String>,
    pub bright: bool,
}

/// A prompt segment as values.
pub struct SegmentView {
    pub text: Seq<char>,
    pub color: Option<Seq<char>>,
    pub bright: bool,
}

pub open spec fn segment_views(v: Seq<PromptSegment>) -> Seq<SegmentView> {
    v.map_values(|s: PromptSegment| SegmentView {
        text: s.text@,
        color: match s.color { Some(c) => Some(c@), None => None },
        bright: s.bright,
    })
}

/// The segment of one context chip, if it is one the prompt knows: the directory name
/// (when there is one), a git placeholder, the time, and a Kubernetes placeholder.
pub open spec fn chip_segment(chip: Seq<char>, dir_name: Option<Seq<char>>, time_hm: Seq<char>) -> Option<SegmentView> {
    if chip == "cwd"@ {
        match dir_name {
            Some(d) => Some(SegmentView { text: " "@ + d + " "@, color: Some("blue"@), bright: true }),
            None => None,
        }
    } else if chip == "git"@ {
        Some(SegmentView { text: " (git:main*) "@, color: Some("green"@), bright: true })
    } else if chip == "time"@ {
        Some(SegmentView { text: " "@ + time_hm + " "@, color: Some("white"@), bright: false })
    } else if chip == "kubernetes"@ {
        Some(SegmentView { text: " (kube:dev) "@, color: Some("cyan"@), bright: true })
    } else {
        None
    }
}

/// The segments of the chips, in order, skipping unknown chips.
pub open spec fn chip_segments(chips: Seq<Seq<char>>, dir_name: Option<Seq<char>>, time_hm: Seq<char>) -> Seq<SegmentView>
    decreases chips.len(),
{
    if chips.len() == 0 {
        Seq::empty()
    } else {
        let rest = chip_segments(chips.drop_last(), dir_name, time_hm);
        match chip_segment(chips.last(), dir_name, time_hm) {
            Some(s) => rest.push(s),
            None => rest,
        }
    }
}

/// The whole prompt: in the Warp style the chips' segments then ` $ `; in the shell
/// style a single ` (Shell Prompt) $ `.
pub open spec fn prompt_of(
    style: PromptStyle,
    chips: Seq<Seq<char>>,
    dir_name: Option<Seq<char>>,
    time_hm: Seq<char>,
) -> Seq<SegmentView> {
    match style {
        PromptStyle::Warp => chip_segments(chips, dir_name, time_hm).push(
            SegmentView { text: " $ "@, color: None, bright: false },
        ),
        PromptStyle::Shell => seq![SegmentView { text: " (Shell Prompt) $ "@, color: None, bright: false }],
    }
}

/// The last component of a path (`std::path::Path::file_name`), if it has one and it is
/// valid text.
pub uninterp spec fn path_file_name(path: Seq<char>) -> Option<Seq<char>>;

/// `std::path::Path::new(path).file_name()`, as text. What it picks is left to the
/// name `path_file_name`, a function of the path alone.
#[verifier::external_body]
fn file_name_of(path: &str) -> (r: Option<String>)
    ensures
        r matches Some(s) ==> path_file_name(path@) == Some(s@),
        r is None ==> path_file_name(path@) is None,
{
    match std::path::Path::new(path).file_name() {
        Some(n) => match n.to_str() {
            Some(s) => Some(s.to_string()),
            None => None,
        },
        None => None,
    }
}

/// A time of day written `HH:MM`: two digits, a colon, two digits.
pub open spec fn is_hm_text(t: Seq<char>) -> bool {
    &&& t.len() == 5
    &&& is_digit(t[0]) && is_digit(t[1]) && t[2] == ':' && is_digit(t[3]) && is_digit(t[4])
}

/// The local time of day as `HH:MM` (`chrono::Local::now().format("%H:%M")`). Which
/// time it is is not stated; chrono documents `%H` and `%M` as zero-padded two-digit
/// hour and minute, so the text always has that shape.
#[verifier::external_body]
fn local_time_hm() -> (r: String)
    ensures
        is_hm_text(r@),
{
    chrono::Local::now().format("%H:%M").to_string()
}

/// Draws prompts.
pub struct PromptRenderer {}

impl PromptRenderer {
    pub fn new() -> (r: Self) {
        PromptRenderer {}
    }

    /// The prompt for the settings, the name of the current directory and the time.
    pub fn prompt_segments(settings: &PromptSettings, dir_name: Option<&str>, time_hm: &str) -> (r: Vec<PromptSegment>)
        ensures
            segment_views(r@) == prompt_of(
                settings.style,
                string_views(settings.context_chips@),
                match dir_name { Some(d) => Some(d@), None => None },
                time_hm@,
            ),
    {
        let ghost dn = match dir_name { Some(d) => Some(d@), None => None };
        let ghost chips = string_views(settings.context_chips@);
        let mut r: Vec<PromptSegment> = Vec::new();
        match settings.style {
            PromptStyle::Warp => {
                let mut i: usize = 0;
                while i < settings.context_chips.len()
                    invariant
                        i <= settings.context_chips@.len(),
                        chips == string_views(settings.context_chips@),
                        dn == (match dir_name { Some(d) => Some(d@), None => None }),
                        segment_views(r@) == chip_segments(chips.take(i as int), dn, time_hm@),
                    decreases settings.context_chips.len() - i,
                {
                    let chip = &settings.context_chips[i];
                    assert(chips.take(i + 1).drop_last() =~= chips.take(i as int));
                    assert(chips.take(i + 1).last() == chip@);
                    let seg = chip_segment_of(chip.as_str(), dir_name, time_hm);
                    match seg {
                        Some(s) => {
                            let ghost before = r@;
                            r.push(s);
                            assert(segment_views(r@) =~= segment_views(before).push(chip_segment(chip@, dn, time_hm@).unwrap()));
                        },
                        None => {},
                    }
                    i = i + 1;
                }
                assert(chips.take(settings.context_chips@.len() as int) =~= chips);
                let ghost before = r@;
                r.push(PromptSegment { text: owned(" $ "), color: None, bright: false });
                assert(segment_views(r@) =~= segment_views(before).push(SegmentView { text: " $ "@, color: None, bright: false }));
            },
            PromptStyle::Shell => {
                r.push(PromptSegment { text: owned(" (Shell Prompt) $ "), color: None, bright: false });
                assert(segment_views(r@) =~= seq![SegmentView { text: " (Shell Prompt) $ "@, color: None, bright: false }]);
            },
        }
        r
    }

    /// The prompt for the settings in directory `current_dir`, now.
    pub fn render_prompt(&self, settings: &PromptSettings, current_dir: &str) -> (r: Vec<PromptSegment>)
        ensures
            exists|t: Seq<char>| is_hm_text(t) && segment_views(r@) == #[trigger] prompt_of(
                settings.style,
                string_views(settings.context_chips@),
                path_file_name(current_dir@),
                t,
            ),
    {
        let name = file_name_of(current_dir);
        let time = local_time_hm();
        let r = match &name {
            Some(n) => PromptRenderer::prompt_segments(settings, Some(n.as_str()), time.as_str()),
            None => PromptRenderer::prompt_segments(settings, None, time.as_str()),
        };
        r
    }
}

fn chip_segment_of(chip: &str, dir_name: Option<&str>, time_hm: &str) -> (r: Option<PromptSegment>)
    ensures
        (match r {
            Some(s) => Some(SegmentView {
                text: s.text@,
                color: match s.color { Some(c) => Some(c@), None => None },
                bright: s.bright,
            }),
            None => None,
        }) == chip_segment(chip@, match dir_name { Some(d) => Some(d@), None => None }, time_hm@),
{
    let c = owned(chip);
    if c.eq(&owned("cwd")) {
        match dir_name {
            Some(d) => Some(PromptSegment { text: concat3(" ", d, " "), color: Some(owned("blue")), bright: true }),
            None => None,
        }
    } else if c.eq(&owned("git")) {
        Some(PromptSegment { text: owned(" (git:main*) "), color: Some(owned("green")), bright: true })
    } else if c.eq(&owned("time")) {
        Some(PromptSegment { text: concat3(" ", time_hm, " "), color: Some(owned("white")), bright: false })
    } else if c.eq(&owned("kubernetes")) {
        Some(PromptSegment { text: owned(" (kube:dev) "), color: Some(owned("cyan")), bright: true })
    } else {
        None
    }
}

} // verus!
