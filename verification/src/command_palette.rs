//! The command palette: a searchable list of commands that can be run by name.
use vstd::prelude::*;
use crate::input::EditorMessage;
use crate::text::{contains, contains_seq, lemma_contains_empty, lowercase, owned, to_lowercase};

verus! {

/// Messages to the palette.
#[derive(Debug)]
pub enum CommandPaletteMessage {
    ToggleVisibility,
    SearchInputChanged(String),
    InputSubmitted(String),
    ExecuteCommand(String),
    Editor(EditorMessage),
}

/// What running a palette command does.
#[derive(Debug)]
pub enum CommandAction {
    ClearTerminal,
    ToggleFullscreen,
    OpenPreferences,
    OpenThemeCustomizer,
    OpenProfileManager,
    OpenWorkflowBrowser,
    OpenWarpDrive,
    /// A shell command line.
    Custom(String),
}

/// An action as a value.
pub enum ActionView {
    ClearTerminal,
    ToggleFullscreen,
    OpenPreferences,
    OpenThemeCustomizer,
    OpenProfileManager,
    OpenWorkflowBrowser,
    OpenWarpDrive,
    Custom(Seq<char>),
}

impl CommandAction {
    pub open spec fn view(self) -> ActionView {
        match self {
            CommandAction::ClearTerminal => ActionView::ClearTerminal,
            CommandAction::ToggleFullscreen => ActionView::ToggleFullscreen,
            CommandAction::OpenPreferences => ActionView::OpenPreferences,
            CommandAction::OpenThemeCustomizer => ActionView::OpenThemeCustomizer,
            CommandAction::OpenProfileManager => ActionView::OpenProfileManager,
            CommandAction::OpenWorkflowBrowser => ActionView::OpenWorkflowBrowser,
            CommandAction::OpenWarpDrive => ActionView::OpenWarpDrive,
            CommandAction::Custom(s) => ActionView::Custom(s@),
        }
    }

    /// The name of a predefined action, or the command line of a custom one.
    pub fn to_string(&self) -> (r: String)
        ensures
            r@ == action_name(self.view()),
    {
        match self {
            CommandAction::ClearTerminal => owned("ClearTerminal"),
            CommandAction::ToggleFullscreen => owned("ToggleFullscreen"),
            CommandAction::OpenPreferences => owned("OpenPreferences"),
            CommandAction::OpenThemeCustomizer => owned("OpenThemeCustomizer"),
            CommandAction::OpenProfileManager => owned("OpenProfileManager"),
            CommandAction::OpenWorkflowBrowser => owned("OpenWorkflowBrowser"),
            CommandAction::OpenWarpDrive => owned("OpenWarpDrive"),
            CommandAction::Custom(s) => s.clone(),
        }
    }

    /// The action named `s`; a text that names no predefined action is a custom
    /// command line. Always `Some`.
    pub fn from_string(s: &str) -> (r: Option<Self>)
        ensures
            r matches Some(a) && a.view() == parse_action(s@),
    {
        let t = owned(s);
        if t.eq(&owned("ClearTerminal")) {
            Some(CommandAction::ClearTerminal)
        } else if t.eq(&owned("ToggleFullscreen")) {
            Some(CommandAction::ToggleFullscreen)
        } else if t.eq(&owned("OpenPreferences")) {
            Some(CommandAction::OpenPreferences)
        } else if t.eq(&owned("OpenThemeCustomizer")) {
            Some(CommandAction::OpenThemeCustomizer)
        } else if t.eq(&owned("OpenProfileManager")) {
            Some(CommandAction::OpenProfileManager)
        } else if t.eq(&owned("OpenWorkflowBrowser")) {
            Some(CommandAction::OpenWorkflowBrowser)
        } else if t.eq(&owned("OpenWarpDrive")) {
            Some(CommandAction::OpenWarpDrive)
        } else {
            Some(CommandAction::Custom(t))
        }
    }

    /// A copy of the action.
    pub fn duplicate(&self) -> (r: Self)
        ensures
            r.view() == self.view(),
    {
        match self {
            CommandAction::ClearTerminal => CommandAction::ClearTerminal,
            CommandAction::ToggleFullscreen => CommandAction::ToggleFullscreen,
            CommandAction::OpenPreferences => CommandAction::OpenPreferences,
            CommandAction::OpenThemeCustomizer => CommandAction::OpenThemeCustomizer,
            CommandAction::OpenProfileManager => CommandAction::OpenProfileManager,
            CommandAction::OpenWorkflowBrowser => CommandAction::OpenWorkflowBrowser,
            CommandAction::OpenWarpDrive => CommandAction::OpenWarpDrive,
            CommandAction::Custom(s) => CommandAction::Custom(s.clone()),
        }
    }
}

/// The text of an action.
pub open spec fn action_name(a: ActionView) -> Seq<char> {
    match a {
        ActionView::ClearTerminal => "ClearTerminal"@,
        ActionView::ToggleFullscreen => "ToggleFullscreen"@,
        ActionView::OpenPreferences => "OpenPreferences"@,
        ActionView::OpenThemeCustomizer => "OpenThemeCustomizer"@,
        ActionView::OpenProfileManager => "OpenProfileManager"@,
        ActionView::OpenWorkflowBrowser => "OpenWorkflowBrowser"@,
        ActionView::OpenWarpDrive => "OpenWarpDrive"@,
        ActionView::Custom(s) => s,
    }
}

/// The action a text names.
pub open spec fn parse_action(s: Seq<char>) -> ActionView {
    if s == "ClearTerminal"@ {
        ActionView::ClearTerminal
    } else if s == "ToggleFullscreen"@ {
        ActionView::ToggleFullscreen
    } else if s == "OpenPreferences"@ {
        ActionView::OpenPreferences
    } else if s == "OpenThemeCustomizer"@ {
        ActionView::OpenThemeCustomizer
    } else if s == "OpenProfileManager"@ {
        ActionView::OpenProfileManager
    } else if s == "OpenWorkflowBrowser"@ {
        ActionView::OpenWorkflowBrowser
    } else if s == "OpenWarpDrive"@ {
        ActionView::OpenWarpDrive
    } else {
        ActionView::Custom(s)
    }
}

/// Naming the action a text denotes gives that text back.
pub proof fn law_name_of_parsed_action(s: Seq<char>)
    ensures
        action_name(parse_action(s)) == s,
{
}

/// Reading back the name of an action gives the action, except for a custom command
/// line that spells the name of a predefined action.
pub proof fn law_parse_action_name(a: ActionView)
    requires
        a matches ActionView::Custom(s) ==> parse_action(s) is Custom,
    ensures
        parse_action(action_name(a)) == a,
{
    reveal_strlit("ClearTerminal");
    reveal_strlit("ToggleFullscreen");
    reveal_strlit("OpenPreferences");
    reveal_strlit("OpenThemeCustomizer");
    reveal_strlit("OpenProfileManager");
    reveal_strlit("OpenWorkflowBrowser");
    reveal_strlit("OpenWarpDrive");
    assert("ClearTerminal"@ != "ToggleFullscreen"@ && "ClearTerminal"@ != "OpenPreferences"@ && "ClearTerminal"@ != "OpenThemeCustomizer"@ && "ClearTerminal"@ != "OpenProfileManager"@ && "ClearTerminal"@ != "OpenWorkflowBrowser"@ && "ClearTerminal"@ != "OpenWarpDrive"@) by {
        assert("ClearTerminal"@.len() == 13);
        assert("OpenWarpDrive"@[0] != "ClearTerminal"@[0]);
        assert("OpenPreferences"@.len() != 13);
    }
    assert("ToggleFullscreen"@ != "OpenPreferences"@ && "ToggleFullscreen"@ != "OpenThemeCustomizer"@ && "ToggleFullscreen"@ != "OpenProfileManager"@ && "ToggleFullscreen"@ != "OpenWorkflowBrowser"@ && "ToggleFullscreen"@ != "OpenWarpDrive"@) by {
        assert("ToggleFullscreen"@[0] != "OpenPreferences"@[0]);
        assert("ToggleFullscreen"@[0] != "OpenThemeCustomizer"@[0]);
        assert("ToggleFullscreen"@[0] != "OpenProfileManager"@[0]);
        assert("ToggleFullscreen"@[0] != "OpenWorkflowBrowser"@[0]);
        assert("ToggleFullscreen"@[0] != "OpenWarpDrive"@[0]);
    }
    assert("OpenPreferences"@ != "OpenThemeCustomizer"@ && "OpenPreferences"@ != "OpenProfileManager"@ && "OpenPreferences"@ != "OpenWorkflowBrowser"@ && "OpenPreferences"@ != "OpenWarpDrive"@) by {
        assert("OpenPreferences"@.len() == 15 && "OpenThemeCustomizer"@.len() == 19);
        assert("OpenProfileManager"@.len() == 18 && "OpenWorkflowBrowser"@.len() == 19);
        assert("OpenWarpDrive"@.len() == 13);
    }
    assert("OpenThemeCustomizer"@ != "OpenProfileManager"@ && "OpenThemeCustomizer"@ != "OpenWorkflowBrowser"@ && "OpenThemeCustomizer"@ != "OpenWarpDrive"@) by {
        assert("OpenThemeCustomizer"@[4] != "OpenWorkflowBrowser"@[4]);
    }
    assert("OpenProfileManager"@ != "OpenWorkflowBrowser"@ && "OpenProfileManager"@ != "OpenWarpDrive"@);
    assert("OpenWorkflowBrowser"@ != "OpenWarpDrive"@);
}

/// A palette entry.
#[derive(Debug)]
pub struct Command {
    pub name: String,
    pub description: String,
    pub action: CommandAction,
}

/// A palette entry as a value.
pub struct CommandView {
    pub name: Seq<char>,
    pub description: Seq<char>,
    pub action: ActionView,
}

impl Command {
    pub open spec fn view(self) -> CommandView {
        CommandView { name: self.name@, description: self.description@, action: self.action.view() }
    }

    /// A copy of the entry.
    pub fn duplicate(&self) -> (r: Self)
        ensures
            r.view() == self.view(),
    {
        Command { name: self.name.clone(), description: self.description.clone(), action: self.action.duplicate() }
    }
}

/// Views of palette entries.
pub open spec fn command_views(v: Seq<Command>) -> Seq<CommandView> {
    v.map_values(|c: Command| c.view())
}

/// An entry matches a search when its lowercase name or description contains the
/// lowercase search text.
pub open spec fn matches_query(c: CommandView, q: Seq<char>) -> bool {
    contains_seq(lowercase(c.name), lowercase(q)) || contains_seq(lowercase(c.description), lowercase(q))
}

/// The entries matching a search, in their order.
pub open spec fn filter_query(s: Seq<CommandView>, q: Seq<char>) -> Seq<CommandView>
    decreases s.len(),
{
    if s.len() == 0 {
        Seq::empty()
    } else if matches_query(s.last(), q) {
        filter_query(s.drop_last(), q).push(s.last())
    } else {
        filter_query(s.drop_last(), q)
    }
}

/// What the palette asks the terminal to do after a message.
#[derive(Debug)]
pub enum PaletteOutput {
    /// Route this message back to the palette.
    Palette(CommandPaletteMessage),
    /// Run a palette action.
    ExecuteCommandAction(CommandAction),
    /// Run a shell command line.
    ExecuteCommand(String),
}

/// A searchable list of commands.
pub struct CommandPalette {
    is_visible: bool,
    search_input: String,
    commands: Vec<Command>,
    filtered_commands: Vec<Command>,
}

/// The nine built-in commands, by name.
pub open spec fn builtin_command_names() -> Seq<Seq<char>> {
    seq![
        "Clear Terminal"@,
        "Toggle Fullscreen"@,
        "Open Preferences"@,
        "Open Theme Customizer"@,
        "Open Profile Manager"@,
        "Open Workflow Browser"@,
        "Open Warp Drive"@,
        "Run 'ls -la'"@,
        "Show current directory"@,
    ]
}

fn entry(name: &str, description: &str, action: CommandAction) -> (c: Command)
    ensures
        c.view() == (CommandView { name: name@, description: description@, action: action.view() }),
{
    Command { name: owned(name), description: owned(description), action }
}

impl CommandPalette {
    pub closed spec fn visible(self) -> bool {
        self.is_visible
    }

    pub closed spec fn search(self) -> Seq<char> {
        self.search_input@
    }

    /// All the commands.
    pub closed spec fn commands(self) -> Seq<CommandView> {
        command_views(self.commands@)
    }

    /// The commands shown: those matching the search.
    pub closed spec fn filtered(self) -> Seq<CommandView> {
        command_views(self.filtered_commands@)
    }

    /// A hidden palette with the nine built-in commands, all shown.
    pub fn new() -> (p: Self)
        ensures
            !p.visible(),
            p.search() == Seq::<char>::empty(),
            p.commands().map_values(|c: CommandView| c.name) == builtin_command_names(),
            p.commands()[7].action == ActionView::Custom("ls -la"@),
            p.commands()[8].action == ActionView::Custom("pwd"@),
            p.filtered() == p.commands(),
    {
        let mut all: Vec<Command> = Vec::new();
        all.push(entry("Clear Terminal", "Clears all output from the terminal.", CommandAction::ClearTerminal));
        all.push(entry("Toggle Fullscreen", "Toggles fullscreen mode.", CommandAction::ToggleFullscreen));
        all.push(entry("Open Preferences", "Opens the application preferences window.", CommandAction::OpenPreferences));
        all.push(entry("Open Theme Customizer", "Opens the theme customization window.", CommandAction::OpenThemeCustomizer));
        all.push(entry("Open Profile Manager", "Opens the profile management window.", CommandAction::OpenProfileManager));
        all.push(entry("Open Workflow Browser", "Opens the workflow browser.", CommandAction::OpenWorkflowBrowser));
        all.push(entry(
            "Open Warp Drive",
            "Opens the Warp Drive panel for workflows, notebooks, and env vars.",
            CommandAction::OpenWarpDrive,
        ));
        all.push(entry("Run 'ls -la'", "Executes the 'ls -la' command in the shell.", CommandAction::Custom(owned("ls -la"))));
        all.push(entry("Show current directory", "Displays the current working directory.", CommandAction::Custom(owned("pwd"))));
        let filtered = copy_commands(&all);
        let p = CommandPalette { is_visible: false, search_input: String::new(), filtered_commands: filtered, commands: all };
        assert(p.commands().map_values(|c: CommandView| c.name) =~= builtin_command_names());
        p
    }

    /// Shows the palette with an empty search, so every command is listed.
    pub fn show(&mut self)
        ensures
            final(self).visible(),
            final(self).search() == Seq::<char>::empty(),
            final(self).commands() == old(self).commands(),
            final(self).filtered() == old(self).commands(),
    {
        self.is_visible = true;
        self.search_input = String::new();
        self.filter_commands();
    }

    /// Hides the palette; the search and the listing stay as they were.
    pub fn close(&mut self)
        ensures
            !final(self).visible(),
            final(self).search() == old(self).search(),
            final(self).commands() == old(self).commands(),
            final(self).filtered() == old(self).filtered(),
    {
        self.is_visible = false;
    }

    pub fn is_visible(&self) -> (r: bool)
        ensures
            r == self.visible(),
    {
        self.is_visible
    }

    /// The commands listed for the current search, in order, as drawn.
    pub fn listed_commands(&self) -> (r: &Vec<Command>)
        ensures
            command_views(r@) == self.filtered(),
    {
        &self.filtered_commands
    }

    /// The current search text.
    pub fn search_text(&self) -> (r: &str)
        ensures
            r@ == self.search(),
    {
        self.search_input.as_str()
    }

    /// Lists the commands that match the current search.
    pub fn filter_commands(&mut self)
        ensures
            final(self).filtered() == filter_query(old(self).commands(), old(self).search()),
            old(self).search().len() == 0 ==> final(self).filtered() == old(self).commands(),
            final(self).visible() == old(self).visible(),
            final(self).search() == old(self).search(),
            final(self).commands() == old(self).commands(),
    {
        let q = to_lowercase(self.search_input.as_str());
        let mut out: Vec<Command> = Vec::new();
        let mut i: usize = 0;
        let ghost cs = command_views(self.commands@);
        let ghost qv = self.search_input@;
        assert(cs.take(0) =~= Seq::<CommandView>::empty());
        while i < self.commands.len()
            invariant
                i <= self.commands.len(),
                cs == command_views(self.commands@),
                qv == self.search_input@,
                q@ == lowercase(qv),
                command_views(out@) == filter_query(cs.take(i as int), qv),
            decreases self.commands.len() - i,
        {
            let c = &self.commands[i];
            let hit = contains(to_lowercase(c.name.as_str()).as_str(), q.as_str()) || contains(
                to_lowercase(c.description.as_str()).as_str(),
                q.as_str(),
            );
            assert(cs.take(i + 1).drop_last() =~= cs.take(i as int));
            assert(cs.take(i + 1).last() == c.view());
            if hit {
                out.push(c.duplicate());
                assert(command_views(out@) =~= filter_query(cs.take(i as int), qv).push(c.view()));
            }
            i = i + 1;
        }
        assert(cs.take(self.commands.len() as int) =~= cs);
        if self.search_input.as_str().unicode_len() == 0 {
            proof {
                assert(qv =~= Seq::<char>::empty());
                assert(q@ =~= Seq::<char>::empty());
                lemma_empty_search_lists_all(cs);
            }
        }
        self.filtered_commands = out;
    }

    /// Handles a message: toggling shows (with an empty search) or hides the palette;
    /// a new search text refilters; submitting the search or the editor runs the first
    /// listed command and hides the palette (nothing happens when none is listed);
    /// running a command by name hides the palette and asks for its action.
    pub fn update(&mut self, message: CommandPaletteMessage) -> (out: Option<PaletteOutput>)
        ensures
            final(self).commands() == old(self).commands(),
            !(message is ToggleVisibility || message is SearchInputChanged
                || message matches CommandPaletteMessage::Editor(EditorMessage::InputChanged(_)))
                ==> final(self).search() == old(self).search() && final(self).filtered() == old(self).filtered(),
            (match message {
                CommandPaletteMessage::ToggleVisibility => {
                    &&& final(self).visible() == !old(self).visible()
                    &&& if final(self).visible() {
                        final(self).search() == Seq::<char>::empty() && final(self).filtered() == old(self).commands()
                    } else {
                        final(self).search() == old(self).search() && final(self).filtered() == old(self).filtered()
                    }
                    &&& out is None
                },
                CommandPaletteMessage::SearchInputChanged(s) => {
                    &&& final(self).search() == s@
                    &&& final(self).filtered() == filter_query(old(self).commands(), s@)
                    &&& final(self).visible() == old(self).visible()
                    &&& out is None
                },
                CommandPaletteMessage::InputSubmitted(_) => if old(self).filtered().len() > 0 {
                    &&& !final(self).visible()
                    &&& out matches Some(PaletteOutput::Palette(CommandPaletteMessage::ExecuteCommand(s))) && s@ == action_name(old(self).filtered()[0].action)
                } else {
                    &&& final(self).visible() == old(self).visible()
                    &&& out is None
                },
                CommandPaletteMessage::ExecuteCommand(s) => {
                    &&& !final(self).visible()
                    &&& out matches Some(PaletteOutput::ExecuteCommandAction(a)) && a.view() == parse_action(s@)
                },
                CommandPaletteMessage::Editor(EditorMessage::InputChanged(s)) => {
                    &&& final(self).search() == s@
                    &&& final(self).filtered() == filter_query(old(self).commands(), s@)
                    &&& final(self).visible() == old(self).visible()
                    &&& out is None
                },
                CommandPaletteMessage::Editor(EditorMessage::Submit) => if old(self).filtered().len() > 0 {
                    &&& !final(self).visible()
                    &&& out matches Some(PaletteOutput::ExecuteCommandAction(a)) && a.view() == old(self).filtered()[0].action
                } else {
                    &&& final(self).visible() == old(self).visible()
                    &&& out is None
                },
                CommandPaletteMessage::Editor(_) => {
                    &&& final(self).visible() == old(self).visible()
                    &&& final(self).search() == old(self).search()
                    &&& out is None
                },
            }),
    {
        match message {
            CommandPaletteMessage::ToggleVisibility => {
                self.is_visible = !self.is_visible;
                if self.is_visible {
                    self.search_input = String::new();
                    self.filter_commands();
                }
                None
            },
            CommandPaletteMessage::SearchInputChanged(input) => {
                self.search_input = input;
                self.filter_commands();
                None
            },
            CommandPaletteMessage::InputSubmitted(_input) => {
                if self.filtered_commands.len() > 0 {
                    let name = self.filtered_commands[0].action.to_string();
                    self.is_visible = false;
                    return Some(PaletteOutput::Palette(CommandPaletteMessage::ExecuteCommand(name)));
                }
                None
            },
            CommandPaletteMessage::ExecuteCommand(command_str) => {
                self.is_visible = false;
                match CommandAction::from_string(command_str.as_str()) {
                    Some(action) => Some(PaletteOutput::ExecuteCommandAction(action)),
                    None => Some(PaletteOutput::ExecuteCommand(command_str)),
                }
            },
            CommandPaletteMessage::Editor(editor_message) => {
                match editor_message {
                    EditorMessage::InputChanged(value) => {
                        self.search_input = value;
                        self.filter_commands();
                    },
                    EditorMessage::Submit => {
                        if self.filtered_commands.len() > 0 {
                            let action = self.filtered_commands[0].action.duplicate();
                            self.is_visible = false;
                            return Some(PaletteOutput::ExecuteCommandAction(action));
                        }
                    },
                    _ => {},
                }
                None
            },
        }
    }
}

/// Copies of the entries.
fn copy_commands(v: &Vec<Command>) -> (r: Vec<Command>)
    ensures
        command_views(r@) == command_views(v@),
{
    let mut r: Vec<Command> = Vec::new();
    let mut i: usize = 0;
    while i < v.len()
        invariant
            i <= v.len(),
            r.len() == i,
            command_views(r@) == command_views(v@).take(i as int),
        decreases v.len() - i,
    {
        let ghost r0 = r@;
        let d = v[i].duplicate();
        r.push(d);
        assert(r@ == r0.push(d));
        assert forall|j: int| 0 <= j < i + 1 implies #[trigger] command_views(r@)[j] == command_views(v@).take(i + 1)[j] by {
            if j < i {
                assert(command_views(r0)[j] == command_views(v@).take(i as int)[j]);
            }
        }
        assert(command_views(r@) =~= command_views(v@).take(i + 1));
        i = i + 1;
    }
    assert(command_views(v@).take(v.len() as int) =~= command_views(v@));
    r
}

/// With an empty search every entry matches.
proof fn lemma_empty_search_lists_all(s: Seq<CommandView>)
    requires
        lowercase(Seq::<char>::empty()) == Seq::<char>::empty(),
    ensures
        filter_query(s, Seq::<char>::empty()) == s,
    decreases s.len(),
{
    if s.len() > 0 {
        lemma_empty_search_lists_all(s.drop_last());
        lemma_contains_empty(lowercase(s.last().name));
        assert(s.drop_last().push(s.last()) =~= s);
    }
}

/// The listed commands are always among the commands, in the same order.
pub proof fn law_filter_is_subsequence(s: Seq<CommandView>, q: Seq<char>)
    ensures
        filter_query(s, q).len() <= s.len(),
        forall|i: int| 0 <= i < filter_query(s, q).len() ==> s.contains(#[trigger] filter_query(s, q)[i])
            && matches_query(filter_query(s, q)[i], q),
    decreases s.len(),
{
    if s.len() > 0 {
        law_filter_is_subsequence(s.drop_last(), q);
        let f = filter_query(s, q);
        let g = filter_query(s.drop_last(), q);
        assert forall|i: int| 0 <= i < f.len() implies s.contains(#[trigger] f[i]) && matches_query(f[i], q) by {
            if i < g.len() {
                assert(f[i] == g[i]);
                let j = choose|j: int| 0 <= j < s.drop_last().len() && s.drop_last()[j] == g[i];
                assert(s[j] == g[i]);
            } else {
                assert(f[i] == s.last());
                assert(s[s.len() - 1] == s.last());
            }
        }
    }
}

/// Searching lists every command whose name or description, lowercased, contains the
/// lowercased search text.
pub proof fn law_filter_lists_every_match(s: Seq<CommandView>, q: Seq<char>, i: int)
    requires
        0 <= i < s.len(),
    ensures
        contains_seq(lowercase(s[i].name), lowercase(q)) ==> filter_query(s, q).contains(s[i]),
        contains_seq(lowercase(s[i].description), lowercase(q)) ==> filter_query(s, q).contains(s[i]),
    decreases s.len(),
{
    let d = s.drop_last();
    if i == s.len() - 1 {
        if contains_seq(lowercase(s[i].name), lowercase(q)) || contains_seq(lowercase(s[i].description), lowercase(q)) {
            let f = filter_query(s, q);
            assert(f == filter_query(d, q).push(s.last()));
            assert(f[f.len() - 1] == s[i]);
        }
    } else {
        assert(d[i] == s[i]);
        law_filter_lists_every_match(d, q, i);
        let g = filter_query(d, q);
        if g.contains(s[i]) {
            let j = choose|j: int| 0 <= j < g.len() && g[j] == s[i];
            if matches_query(s.last(), q) {
                assert(filter_query(s, q)[j] == s[i]);
            } else {
                assert(filter_query(s, q) == g);
            }
        }
    }
}

/// Every listed command is one of the commands whose name or description, lowercased,
/// contains the lowercased search text.
pub proof fn law_filtered_commands_match(s: Seq<CommandView>, q: Seq<char>, j: int)
    requires
        0 <= j < filter_query(s, q).len(),
    ensures
        s.contains(filter_query(s, q)[j]),
        contains_seq(lowercase(filter_query(s, q)[j].name), lowercase(q))
            || contains_seq(lowercase(filter_query(s, q)[j].description), lowercase(q)),
{
    law_filter_is_subsequence(s, q);
    assert(s.contains(filter_query(s, q)[j]) && matches_query(filter_query(s, q)[j], q));
}

} // verus!
