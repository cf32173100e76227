//! Whether live zoom can be offered here: the GNOME Shell magnifier, driven
//! through two of the user's accessibility settings.
//!
//! The magnifier belongs to the Shell, and the same settings schema is
//! installed on desktops that ignore it, so GNOME is recognised from the
//! desktop's name, one of the colon-separated names in
//! `XDG_CURRENT_DESKTOP`. Reading that variable and asking `gsettings` are
//! the program's; what they mean is decided here.
use vstd::prelude::*;
use crate::capability::{CapabilityState, StateView};
use crate::text::{debug_quoted, lowered, lowered_range_is, quoted, same_text, trim_bounds, trimmed};

verus! {

/// Whether characters `start..end` of `s` are one of its colon-separated
/// names.
pub open spec fn is_name(s: Seq<char>, start: int, end: int) -> bool {
    &&& 0 <= start <= end <= s.len()
    &&& start == 0 || s[start - 1] == ':'
    &&& end == s.len() || s[end] == ':'
    &&& forall|k: int| start <= k < end ==> s[k] != ':'
}

/// Whether one of the colon-separated names of `desktop` is GNOME, in any
/// ASCII case.
pub open spec fn names_gnome_spec(desktop: Seq<char>) -> bool {
    exists|start: int, end: int|
        is_name(desktop, start, end) && #[trigger] lowered(desktop.subrange(start, end)) == "gnome"@
}

/// A name's end is the first colon at or after its start, or the end.
proof fn lemma_name_end(s: Seq<char>, start: int, end: int, other: int)
    requires
        is_name(s, start, end),
        is_name(s, start, other),
    ensures
        end == other,
{
    if end < other {
        assert(s[end] != ':');
    } else if other < end {
        assert(s[other] != ':');
    }
}

/// Whether one of the colon-separated names of `desktop` is GNOME, in any
/// ASCII case.
pub fn names_gnome(desktop: &str) -> (gnome: bool)
    ensures
        gnome == names_gnome_spec(desktop@),
{
    let ghost s = desktop@;
    let n = desktop.unicode_len();
    let mut start: usize = 0;
    let mut i: usize = 0;
    while i < n
        invariant
            n == s.len(),
            s == desktop@,
            start <= i <= n,
            start == 0 || s[start - 1] == ':',
            forall|k: int| start <= k < i ==> s[k] != ':',
            forall|a: int, b: int| is_name(s, a, b) && a < start
                ==> #[trigger] lowered(s.subrange(a, b)) != "gnome"@,
        decreases n - i,
    {
        if desktop.get_char(i) == ':' {
            assert(is_name(s, start as int, i as int));
            if lowered_range_is(desktop, start, i, "gnome") {
                return true;
            }
            assert forall|a: int, b: int| is_name(s, a, b) && a < i + 1
                implies #[trigger] lowered(s.subrange(a, b)) != "gnome"@ by {
                if a >= start {
                    if a > start {
                        assert(s[a - 1] == ':');
                    }
                    lemma_name_end(s, start as int, i as int, b);
                }
            }
            start = i + 1;
        }
        i = i + 1;
    }
    assert(is_name(s, start as int, n as int));
    if lowered_range_is(desktop, start, n, "gnome") {
        return true;
    }
    assert forall|a: int, b: int| is_name(s, a, b)
        implies #[trigger] lowered(s.subrange(a, b)) != "gnome"@ by {
        if a >= start {
            if a > start {
                assert(s[a - 1] == ':');
            }
            lemma_name_end(s, start as int, n as int, b);
        }
    }
    false
}

/// What the report says of live zoom, given the desktop's name and whether
/// the magnifier's settings could be read: available on GNOME with the
/// settings present, which is the configuration where zooming was seen to
/// work; unavailable, with the reason, anywhere else.
pub open spec fn magnifier_state_spec(desktop: Seq<char>, settings_present: bool) -> StateView {
    if !names_gnome_spec(desktop) {
        StateView::Unavailable(
            "no GNOME Shell magnifier: the desktop is "@ + debug_quoted(desktop) + ", and ADR-008 has no route for it"@,
        )
    } else if settings_present {
        StateView::Available(
            "E017: the GNOME Shell magnifier's settings are present here, and on GNOME 46 switching them zoomed live with drawing intact"@,
        )
    } else {
        StateView::Unavailable("GNOME, but `gsettings` or the magnifier schema is missing"@)
    }
}

/// What the report says of live zoom here. The settings are only asked
/// about on GNOME; elsewhere whether they are present does not matter.
pub fn magnifier_state(desktop: &str, settings_present: bool) -> (state: CapabilityState)
    ensures
        state@ == magnifier_state_spec(desktop@, settings_present),
{
    if !names_gnome(desktop) {
        let mut reason = String::from_str("no GNOME Shell magnifier: the desktop is ");
        let shown = quoted(desktop);
        reason.append(shown.as_str());
        reason.append(", and ADR-008 has no route for it");
        return CapabilityState::unavailable(reason.as_str());
    }
    if settings_present {
        CapabilityState::available(
            "E017: the GNOME Shell magnifier's settings are present here, and on GNOME 46 switching them zoomed live with drawing intact",
        )
    } else {
        CapabilityState::unavailable("GNOME, but `gsettings` or the magnifier schema is missing")
    }
}

/// The user's own magnifier values, as `gsettings get` printed them. They
/// are kept as text and written back verbatim, so nothing is lost in a round
/// trip through a type.
#[derive(Clone, Debug, PartialEq, Eq)]
pub struct Saved {
    pub enabled: String,
    pub factor: String,
}

/// The settings schema that holds whether the magnifier is on.
pub const APPLICATIONS: &'static str = "org.gnome.desktop.a11y.applications";
/// The key that switches the magnifier on and off.
pub const ENABLED: &'static str = "screen-magnifier-enabled";
/// The settings schema that holds the magnifier's own settings.
pub const MAGNIFIER: &'static str = "org.gnome.desktop.a11y.magnifier";
/// The key that holds the zoom factor.
pub const FACTOR: &'static str = "mag-factor";

/// The changes that put the user's own values back: the magnifier is set
/// as it was before the factor is restored, so someone who was not using it
/// never sees their own level flash up, and someone who was gets it back as
/// they had it.
pub fn restore_plan(saved: &Saved) -> (changes: Vec<(&'static str, &'static str, String)>)
    ensures
        changes@.len() == 2,
        changes@[0].0 == APPLICATIONS && changes@[0].1 == ENABLED && changes@[0].2@ == saved.enabled@,
        changes@[1].0 == MAGNIFIER && changes@[1].1 == FACTOR && changes@[1].2@ == saved.factor@,
{
    let mut changes = Vec::new();
    changes.push((APPLICATIONS, ENABLED, saved.enabled.clone()));
    changes.push((MAGNIFIER, FACTOR, saved.factor.clone()));
    changes
}

/// The restore file for saved values: each on a line of its own.
pub open spec fn encoded(enabled: Seq<char>, factor: Seq<char>) -> Seq<char> {
    enabled + seq!['\n'] + factor + seq!['\n']
}

/// Writes the restore file's text for `saved`.
pub fn encode(saved: &Saved) -> (text: String)
    ensures
        text@ == encoded(saved.enabled@, saved.factor@),
{
    proof {
        reveal_strlit("\n");
    }
    let mut text = saved.enabled.clone();
    text.append("\n");
    text.append(saved.factor.as_str());
    text.append("\n");
    text
}

/// Where the line that starts at `from` ends: at the first line break at or
/// after `from`, or at the end of the text.
pub open spec fn line_end(text: Seq<char>, from: int) -> int
    decreases text.len() - from,
{
    if from >= text.len() {
        text.len() as int
    } else if text[from] == '\n' {
        from
    } else {
        line_end(text, from + 1)
    }
}

/// What a restore file holds, if it holds two lines of which the first is
/// `true` or `false`: those two lines, each without white space at either
/// end. A carriage return before a line break is white space, so a file with
/// Windows line endings reads the same. Whether the second line is a
/// plausible zoom factor is a question about a floating-point number, and is
/// asked of what this returns.
pub open spec fn restore_fields_spec(text: Seq<char>) -> Option<(Seq<char>, Seq<char>)> {
    let first_end = line_end(text, 0);
    if first_end + 1 >= text.len() {
        None
    } else {
        let enabled = trimmed(text.subrange(0, first_end));
        let factor = trimmed(text.subrange(first_end + 1, line_end(text, first_end + 1)));
        if enabled == "true"@ || enabled == "false"@ {
            Some((enabled, factor))
        } else {
            None
        }
    }
}

/// Where the line that starts at `from` ends.
fn line_end_at(text: &str, from: usize) -> (end: usize)
    requires
        from <= text@.len(),
    ensures
        end == line_end(text@, from as int),
        from <= end <= text@.len(),
{
    let n = text.unicode_len();
    let mut i = from;
    while i < n && text.get_char(i) != '\n'
        invariant
            n == text@.len(),
            from <= i <= n,
            line_end(text@, from as int) == line_end(text@, i as int),
        decreases n - i,
    {
        i = i + 1;
    }
    i
}

/// Characters `from..to` of `text`, without white space at either end.
fn trimmed_part(text: &str, from: usize, to: usize) -> (part: String)
    requires
        from <= to <= text@.len(),
    ensures
        part@ == trimmed(text@.subrange(from as int, to as int)),
{
    let whole = text.substring_char(from, to);
    let (start, end) = trim_bounds(whole);
    String::from_str(whole.substring_char(start, end))
}

/// Reads a restore file: its first two lines, trimmed, when the first is
/// `true` or `false`; nothing otherwise, so a damaged file cannot be used to
/// write something arbitrary into the user's settings.
pub fn restore_fields(text: &str) -> (fields: Option<Saved>)
    ensures
        match restore_fields_spec(text@) {
            Some((enabled, factor)) => fields matches Some(saved) && saved.enabled@ == enabled
                && saved.factor@ == factor,
            None => fields is None,
        },
{
    proof {
        reveal_strlit("true");
        reveal_strlit("false");
    }
    let n = text.unicode_len();
    let first_end = line_end_at(text, 0);
    if first_end >= n || first_end + 1 >= n {
        return None;
    }
    let enabled = trimmed_part(text, 0, first_end);
    let second_end = line_end_at(text, first_end + 1);
    let factor = trimmed_part(text, first_end + 1, second_end);
    if same_text(enabled.as_str(), "true") || same_text(enabled.as_str(), "false") {
        Some(Saved { enabled, factor })
    } else {
        None
    }
}

/// A line that holds no line break ends where the text does, or at the
/// break that follows it.
proof fn lemma_line_end_at(text: Seq<char>, from: int, end: int)
    requires
        0 <= from <= end <= text.len(),
        end == text.len() || text[end] == '\n',
        forall|k: int| from <= k < end ==> text[k] != '\n',
    ensures
        line_end(text, from) == end,
    decreases end - from,
{
    if from < end {
        lemma_line_end_at(text, from + 1, end);
    }
}

/// The restore file round trips: what `encode` writes, `restore_fields`
/// reads back exactly, for a switch that is `true` or `false` and a factor
/// that is one line with no white space at either end, which is how
/// `gsettings get` prints them once trimmed.
pub proof fn law_restore_file_round_trips(enabled: Seq<char>, factor: Seq<char>)
    requires
        enabled == "true"@ || enabled == "false"@,
        forall|k: int| 0 <= k < factor.len() ==> factor[k] != '\n',
        trimmed(factor) == factor,
    ensures
        restore_fields_spec(encoded(enabled, factor)) == Some((enabled, factor)),
{
    reveal_strlit("true");
    reveal_strlit("false");
    let text = encoded(enabled, factor);
    let e = enabled.len() as int;
    let f = factor.len() as int;
    assert(text.len() == e + f + 2);
    assert(text[e] == '\n');
    assert(text[e + 1 + f] == '\n');
    assert forall|k: int| 0 <= k < e implies text[k] != '\n' by {
        assert(text[k] == enabled[k]);
    }
    assert forall|k: int| e + 1 <= k < e + 1 + f implies text[k] != '\n' by {
        assert(text[k] == factor[k - e - 1]);
    }
    lemma_line_end_at(text, 0, e);
    lemma_line_end_at(text, e + 1, e + 1 + f);
    assert(text.subrange(0, e) =~= enabled);
    assert(text.subrange(e + 1, e + 1 + f) =~= factor);
    assert(trimmed(enabled) == enabled);
}

} // verus!
