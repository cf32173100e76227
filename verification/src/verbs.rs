//! The remote-control verbs: `yappyink toggle-draw` and the rest.
//!
//! One closed list, shared by every way a verb can travel: as a line over a
//! local socket, or as a window message numbered by the verb's position here.
use vstd::prelude::*;
use crate::text::{lowered, lowered_range_is, trim_bounds, trim_end, trim_start, trimmed};
use crate::modes::{requested_mode, Mode};
use crate::tool::Action;

verus! {

/// What a client may ask for. A closed set: adding a verb is a deliberate
/// act.
#[derive(Clone, Copy, Debug, PartialEq, Eq, Structural)]
pub enum ControlCommand {
    /// Draw if not drawing, PassThrough if drawing.
    ToggleDraw,
    /// Enter Draw directly.
    Draw,
    /// Enter PassThrough directly.
    PassThrough,
    /// Hide the ink, keeping it in memory.
    Hide,
    /// Withdraw everything at once, cancelling any gesture.
    EmergencyHide,
    /// Write the document to the session file.
    Save,
    /// Replace the document with the session file's contents.
    Load,
    /// Ask the running overlay to exit.
    Quit,
}

/// Every verb, in order.
pub open spec fn all_verbs() -> Seq<ControlCommand> {
    seq![
        ControlCommand::ToggleDraw,
        ControlCommand::Draw,
        ControlCommand::PassThrough,
        ControlCommand::Hide,
        ControlCommand::EmergencyHide,
        ControlCommand::Save,
        ControlCommand::Load,
        ControlCommand::Quit,
    ]
}

/// The verb a (trimmed, lower-cased) line names, if any.
pub open spec fn verb_named(text: Seq<char>) -> Option<ControlCommand> {
    if text == ControlCommand::ToggleDraw.name() {
        Some(ControlCommand::ToggleDraw)
    } else if text == ControlCommand::Draw.name() {
        Some(ControlCommand::Draw)
    } else if text == ControlCommand::PassThrough.name() {
        Some(ControlCommand::PassThrough)
    } else if text == ControlCommand::Hide.name() {
        Some(ControlCommand::Hide)
    } else if text == ControlCommand::EmergencyHide.name() {
        Some(ControlCommand::EmergencyHide)
    } else if text == ControlCommand::Save.name() {
        Some(ControlCommand::Save)
    } else if text == ControlCommand::Load.name() {
        Some(ControlCommand::Load)
    } else if text == ControlCommand::Quit.name() {
        Some(ControlCommand::Quit)
    } else {
        None
    }
}

/// The verb a line asks for: surrounding white space ignored, ASCII case
/// ignored.
pub open spec fn parsed(line: Seq<char>) -> Option<ControlCommand> {
    verb_named(lowered(trimmed(line)))
}

impl ControlCommand {
    /// The verb's name, as typed on a command line.
    pub open spec fn name(self) -> Seq<char> {
        match self {
            ControlCommand::ToggleDraw => seq!['t', 'o', 'g', 'g', 'l', 'e', '-', 'd', 'r', 'a', 'w'],
            ControlCommand::Draw => seq!['d', 'r', 'a', 'w'],
            ControlCommand::PassThrough => seq!['p', 'a', 's', 's', '-', 't', 'h', 'r', 'o', 'u', 'g', 'h'],
            ControlCommand::Hide => seq!['h', 'i', 'd', 'e'],
            ControlCommand::EmergencyHide => seq!['e', 'm', 'e', 'r', 'g', 'e', 'n', 'c', 'y', '-', 'h', 'i', 'd', 'e'],
            ControlCommand::Save => seq!['s', 'a', 'v', 'e'],
            ControlCommand::Load => seq!['l', 'o', 'a', 'd'],
            ControlCommand::Quit => seq!['q', 'u', 'i', 't'],
        }
    }

    /// The verb's position in the list of every verb.
    pub open spec fn index_of(self) -> u32 {
        match self {
            ControlCommand::ToggleDraw => 0,
            ControlCommand::Draw => 1,
            ControlCommand::PassThrough => 2,
            ControlCommand::Hide => 3,
            ControlCommand::EmergencyHide => 4,
            ControlCommand::Save => 5,
            ControlCommand::Load => 6,
            ControlCommand::Quit => 7,
        }
    }

    /// The controller action a verb asks for; `Quit` is not one.
    pub open spec fn action_spec(self) -> Option<Action> {
        match self {
            ControlCommand::ToggleDraw => Some(Action::ToggleDraw),
            ControlCommand::Draw => Some(Action::EnterDraw),
            ControlCommand::PassThrough => Some(Action::EnterPassThrough),
            ControlCommand::Hide => Some(Action::EnterHidden),
            ControlCommand::EmergencyHide => Some(Action::EmergencyHide),
            ControlCommand::Save => Some(Action::Save),
            ControlCommand::Load => Some(Action::Load),
            ControlCommand::Quit => None,
        }
    }

    /// Parses one line. Case-insensitive, surrounding white space ignored;
    /// anything else is refused.
    pub fn parse(line: &str) -> (command: Option<Self>)
        ensures
            command == parsed(line@),
    {
        let (start, end) = trim_bounds(line);
        let verbs = ControlCommand::all();
        let mut i: usize = 0;
        while i < 8
            invariant
                i <= 8,
                verbs@ == all_verbs(),
                start <= end <= line@.len(),
                line@.subrange(start as int, end as int) == trimmed(line@),
                forall|j: int| 0 <= j < i ==> lowered(trimmed(line@)) != #[trigger] all_verbs()[j].name(),
            decreases 8 - i,
        {
            let verb = verbs[i];
            if lowered_range_is(line, start, end, verb.as_str()) {
                return Some(verb);
            }
            i = i + 1;
        }
        assert(lowered(trimmed(line@)) != all_verbs()[0].name());
        assert(lowered(trimmed(line@)) != all_verbs()[1].name());
        assert(lowered(trimmed(line@)) != all_verbs()[2].name());
        assert(lowered(trimmed(line@)) != all_verbs()[3].name());
        assert(lowered(trimmed(line@)) != all_verbs()[4].name());
        assert(lowered(trimmed(line@)) != all_verbs()[5].name());
        assert(lowered(trimmed(line@)) != all_verbs()[6].name());
        assert(lowered(trimmed(line@)) != all_verbs()[7].name());
        None
    }

    pub fn as_str(self) -> (name: &'static str)
        ensures
            name@ == self.name(),
    {
        proof {
            reveal_strlit("toggle-draw");
            reveal_strlit("draw");
            reveal_strlit("pass-through");
            reveal_strlit("hide");
            reveal_strlit("emergency-hide");
            reveal_strlit("save");
            reveal_strlit("load");
            reveal_strlit("quit");
        }
        let name = match self {
            ControlCommand::ToggleDraw => "toggle-draw",
            ControlCommand::Draw => "draw",
            ControlCommand::PassThrough => "pass-through",
            ControlCommand::Hide => "hide",
            ControlCommand::EmergencyHide => "emergency-hide",
            ControlCommand::Save => "save",
            ControlCommand::Load => "load",
            ControlCommand::Quit => "quit",
        };
        assert(name@ =~= self.name());
        name
    }

    /// The controller action this asks for, if it is one. `Quit` is not.
    pub fn action(self) -> (action: Option<Action>)
        ensures
            action == self.action_spec(),
    {
        match self {
            ControlCommand::ToggleDraw => Some(Action::ToggleDraw),
            ControlCommand::Draw => Some(Action::EnterDraw),
            ControlCommand::PassThrough => Some(Action::EnterPassThrough),
            ControlCommand::Hide => Some(Action::EnterHidden),
            ControlCommand::EmergencyHide => Some(Action::EmergencyHide),
            ControlCommand::Save => Some(Action::Save),
            ControlCommand::Load => Some(Action::Load),
            ControlCommand::Quit => None,
        }
    }

    /// Every verb. Used for help text and to keep the tests exhaustive.
    pub fn all() -> (verbs: [Self; 8])
        ensures
            verbs@ == all_verbs(),
    {
        let verbs = [
            ControlCommand::ToggleDraw,
            ControlCommand::Draw,
            ControlCommand::PassThrough,
            ControlCommand::Hide,
            ControlCommand::EmergencyHide,
            ControlCommand::Save,
            ControlCommand::Load,
            ControlCommand::Quit,
        ];
        assert(verbs@ =~= all_verbs());
        verbs
    }

    /// The verb's position in [`ControlCommand::all`], which is what a window
    /// message carries.
    pub fn index(self) -> (index: u32)
        ensures
            index == self.index_of(),
            index < 8,
            all_verbs()[index as int] == self,
    {
        match self {
            ControlCommand::ToggleDraw => 0,
            ControlCommand::Draw => 1,
            ControlCommand::PassThrough => 2,
            ControlCommand::Hide => 3,
            ControlCommand::EmergencyHide => 4,
            ControlCommand::Save => 5,
            ControlCommand::Load => 6,
            ControlCommand::Quit => 7,
        }
    }

    /// The verb at a position, or `None` for a number that is not one.
    pub fn from_index(index: u32) -> (command: Option<Self>)
        ensures
            index < 8 ==> command == Some(all_verbs()[index as int]),
            index >= 8 ==> command is None,
    {
        let verbs = ControlCommand::all();
        if index < 8 {
            Some(verbs[index as usize])
        } else {
            None
        }
    }
}

/// Every verb reads back from its own name, and from nothing else's: the
/// names are distinct, need no trimming and are already lower case.
pub proof fn law_every_verb_parses_from_its_name(command: ControlCommand)
    ensures
        parsed(command.name()) == Some(command),
{
    let name = command.name();
    assert(trim_start(name) == name);
    assert(trim_end(name) == name);
    assert(lowered(name) =~= name);
    let t = ControlCommand::ToggleDraw.name();
    let d = ControlCommand::Draw.name();
    let p = ControlCommand::PassThrough.name();
    let h = ControlCommand::Hide.name();
    let e = ControlCommand::EmergencyHide.name();
    let s = ControlCommand::Save.name();
    let l = ControlCommand::Load.name();
    let q = ControlCommand::Quit.name();
    assert(d != t && d.len() != t.len());
    assert(p != t && p != d);
    assert(h != t && h != d && h[0] != d[0] && h != p);
    assert(e != t && e != d && e != p && e != h);
    assert(s != t && s != d && s[0] != d[0] && s != p && s[0] != h[0] && s != e);
    assert(l != t && l[0] != d[0] && l != p && l[0] != h[0] && l != e && l[0] != s[0]);
    assert(q != t && q[0] != d[0] && q != p && q[0] != h[0] && q != e && q[0] != s[0] && q[0] != l[0]);
}

/// A verb's position names it: the verb at a verb's own index is that verb,
/// so every verb round-trips through its number.
pub proof fn law_index_round_trips(command: ControlCommand)
    ensures
        command.index_of() < 8,
        all_verbs()[command.index_of() as int] == command,
{
}

/// The direct verbs ask for their own mode whatever is desired when they
/// arrive: `draw` for Draw, `pass-through` for PassThrough, `hide` for
/// Hidden. Only `toggle-draw` depends on the mode desired.
pub proof fn law_direct_verbs_ask_for_their_own_mode(desired: Mode)
    ensures
        requested_mode(ControlCommand::Draw.action_spec().unwrap(), desired) == Some(Mode::Draw),
        requested_mode(ControlCommand::PassThrough.action_spec().unwrap(), desired) == Some(Mode::PassThrough),
        requested_mode(ControlCommand::Hide.action_spec().unwrap(), desired) == Some(Mode::Hidden),
{
}

/// Every verb but `quit` asks for the action of its own name: `save`
/// saves and `load` loads, `toggle-draw` toggles draw, `emergency-hide`
/// hides at once, and the direct mode verbs enter their mode.
pub proof fn law_each_verb_asks_for_its_own_action()
    ensures
        ControlCommand::ToggleDraw.action_spec() == Some(Action::ToggleDraw),
        ControlCommand::Draw.action_spec() == Some(Action::EnterDraw),
        ControlCommand::PassThrough.action_spec() == Some(Action::EnterPassThrough),
        ControlCommand::Hide.action_spec() == Some(Action::EnterHidden),
        ControlCommand::EmergencyHide.action_spec() == Some(Action::EmergencyHide),
        ControlCommand::Save.action_spec() == Some(Action::Save),
        ControlCommand::Load.action_spec() == Some(Action::Load),
        ControlCommand::Quit.action_spec() == None::<Action>,
{
}

/// Quitting is the only verb that is not a controller action.
pub proof fn law_only_quit_is_not_an_action(command: ControlCommand)
    ensures
        command.action_spec() is None <==> command == ControlCommand::Quit,
{
}

} // verus!
