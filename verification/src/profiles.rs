//! User profiles: named bundles of configuration, themes and workspace settings, one
//! of them active, with rules that pick a profile from the working context and a
//! short list of profiles for quick switching.
//!
//! Identifiers are UUIDs held as 128-bit integers and instants are milliseconds since
//! the Unix epoch. Reading and writing the profiles file is left to the caller, which
//! saves the configuration (`ProfileManager::get_config`) after each change.
use vstd::prelude::*;
use crate::clock::{hm_seconds, now_millis, parse_hm};
use crate::config::{is_default_config, WarpConfig};
use crate::ids::new_id;
use crate::table::{Duplicate, Table};
use crate::text::{contains, contains_seq, copy_strings, lowercase, owned, to_lowercase};
use crate::themes::WarpTheme;

verus! {

/// Window geometry and behaviour; `opacity` is a single-precision fraction held by its
/// bit pattern.
#[derive(Debug, Clone, Copy)]
pub struct WindowSettings {
    pub width: u32,
    pub height: u32,
    pub position: Option<(i32, i32)>,
    pub maximized: bool,
    pub always_on_top: bool,
    pub opacity: u32,
}

impl Default for WindowSettings {
    fn default() -> (r: Self)
        ensures
            r == (WindowSettings {
                width: 1200,
                height: 800,
                position: None,
                maximized: false,
                always_on_top: false,
                opacity: crate::config::F32_ONE_BITS,
            }),
    {
        WindowSettings {
            width: 1200,
            height: 800,
            position: None,
            maximized: false,
            always_on_top: false,
            opacity: crate::config::F32_ONE_BITS,
        }
    }
}

/// Where and how a profile's sessions start.
#[derive(Debug)]
pub struct WorkspaceSettings {
    pub startup_directory: String,
    pub environment_variables: Table<String, String>,
    pub startup_commands: Vec<String>,
    pub session_restore: bool,
    pub window_settings: WindowSettings,
}

/// The user's home directory (`dirs::home_dir`, lossily as text). Nothing is stated
/// of it: it comes from the environment.
#[verifier::external_body]
fn home_dir() -> Option<String> {
    match dirs::home_dir() {
        Some(p) => Some(p.to_string_lossy().into_owned()),
        None => None,
    }
}

impl WorkspaceSettings {
    /// Settings that start in `home`, or in `/` when there is no home directory.
    pub fn for_home(home: Option<String>) -> (r: Self)
        ensures
            r.startup_directory@ == (match home {
                Some(h) => h@,
                None => "/"@,
            }),
            r.environment_variables.view() == Map::<Seq<char>, String>::empty(),
            r.startup_commands@.len() == 0,
            r.session_restore,
            r.window_settings == WindowSettings::default_spec(),
    {
        let dir = match home {
            Some(h) => h,
            None => owned("/"),
        };
        WorkspaceSettings {
            startup_directory: dir,
            environment_variables: Table::new(),
            startup_commands: Vec::new(),
            session_restore: true,
            window_settings: WindowSettings::default(),
        }
    }
}

impl WindowSettings {
    pub open spec fn default_spec() -> WindowSettings {
        WindowSettings {
            width: 1200,
            height: 800,
            position: None,
            maximized: false,
            always_on_top: false,
            opacity: crate::config::F32_ONE_BITS,
        }
    }
}

impl Default for WorkspaceSettings {
    /// Settings that start in the home directory (or `/`).
    fn default() -> (r: Self)
        ensures
            r.environment_variables.view() == Map::<Seq<char>, String>::empty(),
            r.startup_commands@.len() == 0,
            r.session_restore,
            r.window_settings == WindowSettings::default_spec(),
    {
        WorkspaceSettings::for_home(home_dir())
    }
}

impl Duplicate for WorkspaceSettings {
    open spec fn same_as(&self, other: &Self) -> bool {
        &&& self.startup_directory == other.startup_directory
        &&& self.environment_variables.key_seq() == other.environment_variables.key_seq()
        &&& self.environment_variables.view() == other.environment_variables.view()
        &&& self.startup_commands@ == other.startup_commands@
        &&& self.session_restore == other.session_restore
        &&& self.window_settings == other.window_settings
    }

    fn duplicate(&self) -> (r: Self) {
        let environment_variables = self.environment_variables.duplicate();
        assert(environment_variables.view() =~= self.environment_variables.view());
        WorkspaceSettings {
            startup_directory: self.startup_directory.clone(),
            environment_variables,
            startup_commands: copy_strings(&self.startup_commands),
            session_restore: self.session_restore,
            window_settings: self.window_settings,
        }
    }
}

/// A user profile.
#[derive(Debug)]
pub struct UserProfile {
    pub id: u128,
    pub name: String,
    pub description: Option<String>,
    pub avatar_path: Option<String>,
    pub config: WarpConfig,
    pub custom_themes: Table<String, WarpTheme>,
    pub created_at: i64,
    pub last_used: i64,
    pub is_default: bool,
    pub tags: Vec<String>,
    pub workspace_settings: WorkspaceSettings,
}

impl Duplicate for UserProfile {
    open spec fn same_as(&self, other: &Self) -> bool {
        &&& self.id == other.id
        &&& self.name == other.name
        &&& self.description == other.description
        &&& self.avatar_path == other.avatar_path
        &&& self.config.same_as(&other.config)
        &&& self.custom_themes.key_seq() == other.custom_themes.key_seq()
        &&& self.custom_themes.view().dom() == other.custom_themes.view().dom()
        &&& forall|k: Seq<char>| #[trigger] self.custom_themes.view().contains_key(k)
            ==> self.custom_themes.view()[k].same_as(&other.custom_themes.view()[k])
        &&& self.created_at == other.created_at
        &&& self.last_used == other.last_used
        &&& self.is_default == other.is_default
        &&& self.tags@ == other.tags@
        &&& self.workspace_settings.same_as(&other.workspace_settings)
    }

    fn duplicate(&self) -> (r: Self) {
        UserProfile {
            id: self.id,
            name: self.name.clone(),
            description: copy_opt(&self.description),
            avatar_path: copy_opt(&self.avatar_path),
            config: self.config.duplicate(),
            custom_themes: self.custom_themes.duplicate(),
            created_at: self.created_at,
            last_used: self.last_used,
            is_default: self.is_default,
            tags: copy_strings(&self.tags),
            workspace_settings: self.workspace_settings.duplicate(),
        }
    }
}

fn copy_opt(o: &Option<String>) -> (r: Option<String>)
    ensures
        r == *o,
{
    match o {
        Some(s) => Some(s.clone()),
        None => None,
    }
}

impl Default for UserProfile {
    /// The default profile: named `Default`, tagged `default`, with the default
    /// configuration, a fresh identifier, and created and used now.
    fn default() -> (r: Self)
        ensures
            r.name@ == "Default"@,
            r.description matches Some(d) && d@ == "Default user profile"@,
            r.avatar_path is None,
            r.is_default,
            r.tags@.len() == 1 && r.tags@[0]@ == "default"@,
            r.custom_themes.view() == Map::<Seq<char>, WarpTheme>::empty(),
            is_default_config(r.config),
            r.workspace_settings.environment_variables.view() == Map::<Seq<char>, String>::empty(),
            r.workspace_settings.startup_commands@.len() == 0,
            r.workspace_settings.session_restore,
            r.workspace_settings.window_settings == WindowSettings::default_spec(),
            r.created_at == r.last_used,
    {
        let now = now_millis();
        let mut tags: Vec<String> = Vec::new();
        tags.push(owned("default"));
        UserProfile {
            id: new_id(),
            name: owned("Default"),
            description: Some(owned("Default user profile")),
            avatar_path: None,
            config: WarpConfig::default(),
            custom_themes: Table::new(),
            created_at: now,
            last_used: now,
            is_default: true,
            tags,
            workspace_settings: WorkspaceSettings::default(),
        }
    }
}

/// What a rule looks at.
#[derive(Debug)]
pub enum SwitchCondition {
    /// The working directory contains this text.
    DirectoryPattern(String),
    /// The time of day lies between two `HH:MM` times, both included.
    TimeOfDay { start: String, end: String },
    /// Today's weekday name (`Mon`, `Tue`, ...) is one of these.
    DayOfWeek(Vec<String>),
    /// The working directory holds a marker file of this kind of project
    /// (`rust`, `node`, `python`, `go`).
    ProjectType(String),
    /// The working directory is a git repository whose `origin` URL contains this text.
    GitRepository(String),
}

/// A rule that picks a profile when its condition holds.
#[derive(Debug)]
pub struct AutoSwitchRule {
    pub id: u128,
    pub name: String,
    pub condition: SwitchCondition,
    pub target_profile_id: u128,
    pub enabled: bool,
}

/// What the rules are checked against, gathered from the environment: the working
/// directory as text, the local time of day (whole seconds past midnight and the
/// nanoseconds within that second), today's weekday name, which project marker files
/// exist in the directory, and the URL of the `origin` remote when the directory is a
/// git repository that has one.
#[derive(Debug)]
pub struct SwitchContext {
    pub directory: String,
    pub seconds_from_midnight: u32,
    pub nanosecond: u32,
    pub weekday: String,
    pub present_files: Vec<String>,
    pub origin_url: Option<String>,
}

/// The marker files of a kind of project.
pub open spec fn project_markers(project_type: Seq<char>) -> Seq<Seq<char>> {
    if project_type == "rust"@ {
        seq!["Cargo.toml"@]
    } else if project_type == "node"@ {
        seq!["package.json"@]
    } else if project_type == "python"@ {
        seq!["requirements.txt"@, "pyproject.toml"@]
    } else if project_type == "go"@ {
        seq!["go.mod"@]
    } else {
        Seq::empty()
    }
}

/// The marker files of a kind of project (none for an unknown kind).
pub fn project_files(project_type: &str) -> (r: Vec<String>)
    ensures
        r@.map_values(|s: String| s@) == project_markers(project_type@),
{
    let t = owned(project_type);
    let mut r: Vec<String> = Vec::new();
    if t.eq(&owned("rust")) {
        r.push(owned("Cargo.toml"));
    } else if t.eq(&owned("node")) {
        r.push(owned("package.json"));
    } else if t.eq(&owned("python")) {
        r.push(owned("requirements.txt"));
        r.push(owned("pyproject.toml"));
    } else if t.eq(&owned("go")) {
        r.push(owned("go.mod"));
    }
    assert(r@.map_values(|s: String| s@) =~= project_markers(project_type@));
    r
}

/// Every marker file that any kind of project looks for.
pub fn all_project_markers() -> (r: Vec<String>)
    ensures
        r@.map_values(|s: String| s@) == project_markers("rust"@) + project_markers("node"@)
            + project_markers("python"@) + project_markers("go"@),
{
    let mut r: Vec<String> = Vec::new();
    r.push(owned("Cargo.toml"));
    r.push(owned("package.json"));
    r.push(owned("requirements.txt"));
    r.push(owned("pyproject.toml"));
    r.push(owned("go.mod"));
    proof {
        reveal_strlit("rust");
        reveal_strlit("node");
        reveal_strlit("python");
        reveal_strlit("go");
        assert("rust"@[0] != "node"@[0] && "rust"@[0] != "python"@[0] && "rust"@[0] != "go"@[0]);
        assert("node"@[0] != "python"@[0] && "node"@[0] != "go"@[0] && "python"@[0] != "go"@[0]);
    }
    assert(r@.map_values(|s: String| s@) =~= project_markers("rust"@) + project_markers("node"@)
        + project_markers("python"@) + project_markers("go"@));
    r
}

proof fn lemma_filter_keeps_distinct(s: Seq<u128>, pred: spec_fn(u128) -> bool)
    requires
        s.no_duplicates(),
    ensures
        s.filter(pred).no_duplicates(),
    decreases s.len(),
{
    reveal(Seq::filter);
    if s.len() > 0 {
        let d = s.drop_last();
        assert(d.no_duplicates()) by {
            assert forall|i: int, j: int| 0 <= i < d.len() && 0 <= j < d.len() && i != j implies d[i] != d[j] by {
                assert(d[i] == s[i] && d[j] == s[j]);
            }
        }
        lemma_filter_keeps_distinct(d, pred);
        if pred(s.last()) {
            if d.filter(pred).contains(s.last()) {
                d.lemma_filter_contains_rev(pred, s.last());
                let k = choose|k: int| 0 <= k < d.len() && d[k] == s.last();
                assert(s[k] == s[s.len() - 1]);
            }
        }
    }
}

/// Whether some string of `v` equals `s`.
pub open spec fn has_string(v: Seq<String>, s: Seq<char>) -> bool {
    exists|i: int| 0 <= i < v.len() && #[trigger] v[i]@ == s
}

/// Whether the time of day (seconds and nanoseconds) lies between the two `HH:MM` times,
/// both included; a time that does not parse makes the condition false.
pub open spec fn time_between(start: Seq<char>, end: Seq<char>, secs: u32, nanos: u32) -> bool {
    match (hm_seconds(start), hm_seconds(end)) {
        (Some(s), Some(e)) => s <= secs && (secs < e || (secs == e && nanos == 0)),
        _ => false,
    }
}

/// Whether some marker file of a kind of project is among the present files.
pub open spec fn project_present(project_type: Seq<char>, present: Seq<String>) -> bool {
    exists|i: int| 0 <= i < project_markers(project_type).len() && has_string(present, #[trigger] project_markers(project_type)[i])
}

/// Whether a condition holds in a context.
pub open spec fn condition_holds(c: SwitchCondition, ctx: SwitchContext) -> bool {
    match c {
        SwitchCondition::DirectoryPattern(p) => contains_seq(ctx.directory@, p@),
        SwitchCondition::TimeOfDay { start, end } => time_between(start@, end@, ctx.seconds_from_midnight, ctx.nanosecond),
        SwitchCondition::DayOfWeek(days) => has_string(days@, ctx.weekday@),
        SwitchCondition::ProjectType(t) => project_present(t@, ctx.present_files@),
        SwitchCondition::GitRepository(name) => match ctx.origin_url {
            Some(u) => contains_seq(u@, name@),
            None => false,
        },
    }
}

/// The target of the first enabled rule whose condition holds.
pub open spec fn first_match(rules: Seq<AutoSwitchRule>, ctx: SwitchContext) -> Option<u128>
    decreases rules.len(),
{
    if rules.len() == 0 {
        None
    } else if rules[0].enabled && condition_holds(rules[0].condition, ctx) {
        Some(rules[0].target_profile_id)
    } else {
        first_match(rules.drop_first(), ctx)
    }
}

fn has_string_exec(v: &Vec<String>, s: &String) -> (r: bool)
    ensures
        r == has_string(v@, s@),
{
    let mut i: usize = 0;
    while i < v.len()
        invariant
            i <= v@.len(),
            forall|j: int| 0 <= j < i ==> v@[j]@ != s@,
        decreases v.len() - i,
    {
        if v[i].eq(s) {
            return true;
        }
        i = i + 1;
    }
    false
}

fn condition_holds_exec(c: &SwitchCondition, ctx: &SwitchContext) -> (r: bool)
    ensures
        r == condition_holds(*c, *ctx),
{
    match c {
        SwitchCondition::DirectoryPattern(p) => contains(ctx.directory.as_str(), p.as_str()),
        SwitchCondition::TimeOfDay { start, end } => {
            match (parse_hm(start.as_str()), parse_hm(end.as_str())) {
                (Some(s), Some(e)) => s <= ctx.seconds_from_midnight && (ctx.seconds_from_midnight < e || (
                ctx.seconds_from_midnight == e && ctx.nanosecond == 0)),
                _ => false,
            }
        },
        SwitchCondition::DayOfWeek(days) => has_string_exec(days, &ctx.weekday),
        SwitchCondition::ProjectType(t) => {
            let files = project_files(t.as_str());
            let ghost m = project_markers(t@);
            assert(forall|i: int| 0 <= i < files@.len() ==> #[trigger] files@[i]@ == m[i]) by {
                assert forall|i: int| 0 <= i < files@.len() implies #[trigger] files@[i]@ == m[i] by {
                    assert(files@.map_values(|s: String| s@)[i] == files@[i]@);
                }
            }
            let mut i: usize = 0;
            while i < files.len()
                invariant
                    i <= files@.len(),
                    files@.len() == m.len(),
                    m == project_markers(t@),
                    *c == SwitchCondition::ProjectType(*t),
                    forall|j: int| 0 <= j < files@.len() ==> #[trigger] files@[j]@ == m[j],
                    forall|j: int| 0 <= j < i ==> !has_string(ctx.present_files@, #[trigger] m[j]),
                decreases files.len() - i,
            {
                if has_string_exec(&ctx.present_files, &files[i]) {
                    assert(has_string(ctx.present_files@, project_markers(t@)[i as int]));
                    assert(project_present(t@, ctx.present_files@));
                    return true;
                }
                i = i + 1;
            }
            false
        },
        SwitchCondition::GitRepository(name) => match &ctx.origin_url {
            Some(u) => contains(u.as_str(), name.as_str()),
            None => false,
        },
    }
}

/// Why a profile operation was refused.
#[derive(Debug, Clone, Copy, PartialEq, Eq, Structural)]
pub enum ProfileError {
    /// No profile has the given identifier.
    NotFound,
    /// No profile has the identifier of the profile to copy.
    SourceNotFound,
    /// The default profile cannot be deleted.
    CannotDeleteDefault,
}

impl ProfileError {
    /// The message the error is reported with.
    pub fn message(&self) -> (r: String)
        ensures
            r@ == (match *self {
                ProfileError::NotFound => "Profile not found"@,
                ProfileError::SourceNotFound => "Source profile not found"@,
                ProfileError::CannotDeleteDefault => "Cannot delete default profile"@,
            }),
    {
        match self {
            ProfileError::NotFound => owned("Profile not found"),
            ProfileError::SourceNotFound => owned("Source profile not found"),
            ProfileError::CannotDeleteDefault => owned("Cannot delete default profile"),
        }
    }
}

/// The profiles, the active one, the switching rules and the quick-switch list.
#[derive(Debug)]
pub struct ProfilesConfig {
    pub active_profile_id: u128,
    pub profiles: Table<u128, UserProfile>,
    pub profile_switching_enabled: bool,
    pub auto_switch_rules: Vec<AutoSwitchRule>,
    pub quick_switch_profiles: Vec<u128>,
}

impl Default for ProfilesConfig {
    /// A configuration with one default profile, active and on the quick-switch list.
    fn default() -> (r: Self)
        ensures
            r.profiles.view().dom() == set![r.active_profile_id],
            r.profiles.view()[r.active_profile_id].is_default,
            r.profiles.view()[r.active_profile_id].name@ == "Default"@,
            r.profiles.view()[r.active_profile_id].id == r.active_profile_id,
            r.profile_switching_enabled,
            r.auto_switch_rules@.len() == 0,
            r.quick_switch_profiles@ == seq![r.active_profile_id],
    {
        let profile = UserProfile::default();
        let id = profile.id;
        let mut profiles: Table<u128, UserProfile> = Table::new();
        profiles.insert(id, profile);
        assert(profiles.view().dom() =~= set![id]);
        let mut quick: Vec<u128> = Vec::new();
        quick.push(id);
        ProfilesConfig {
            active_profile_id: id,
            profiles,
            profile_switching_enabled: true,
            auto_switch_rules: Vec::new(),
            quick_switch_profiles: quick,
        }
    }
}

/// The profiles of `m` listed by `ids`, in that order, skipping identifiers without one.
pub open spec fn profiles_of(ids: Seq<u128>, m: Map<u128, UserProfile>) -> Seq<UserProfile>
    decreases ids.len(),
{
    if ids.len() == 0 {
        Seq::empty()
    } else if m.contains_key(ids.last()) {
        profiles_of(ids.drop_last(), m).push(m[ids.last()])
    } else {
        profiles_of(ids.drop_last(), m)
    }
}

/// The profiles among `ps` carrying `tag`, in order.
pub open spec fn profiles_tagged(ps: Seq<UserProfile>, tag: Seq<char>) -> Seq<UserProfile>
    decreases ps.len(),
{
    if ps.len() == 0 {
        Seq::empty()
    } else if has_tag(ps.last(), tag) {
        profiles_tagged(ps.drop_last(), tag).push(ps.last())
    } else {
        profiles_tagged(ps.drop_last(), tag)
    }
}

/// The profiles among `ps` matching the search `q`, in order.
pub open spec fn profiles_matching(ps: Seq<UserProfile>, q: Seq<char>) -> Seq<UserProfile>
    decreases ps.len(),
{
    if ps.len() == 0 {
        Seq::empty()
    } else if matches_search(ps.last(), q) {
        profiles_matching(ps.drop_last(), q).push(ps.last())
    } else {
        profiles_matching(ps.drop_last(), q)
    }
}

/// Whether a profile carries a tag.
pub open spec fn has_tag(p: UserProfile, tag: Seq<char>) -> bool {
    has_string(p.tags@, tag)
}

/// Whether a profile matches a search: its lowercase name, description or one of its
/// tags contains the lowercase query.
pub open spec fn matches_search(p: UserProfile, q: Seq<char>) -> bool {
    ||| contains_seq(lowercase(p.name@), lowercase(q))
    ||| (p.description matches Some(d) && contains_seq(lowercase(d@), lowercase(q)))
    ||| exists|i: int| 0 <= i < p.tags@.len() && contains_seq(lowercase(#[trigger] p.tags@[i]@), lowercase(q))
}

/// Searching finds every profile whose name, description or one of whose tags,
/// lowercased, contains the lowercased query.
pub proof fn law_search_finds_every_match(ps: Seq<UserProfile>, q: Seq<char>, i: int)
    requires
        0 <= i < ps.len(),
    ensures
        contains_seq(lowercase(ps[i].name@), lowercase(q)) ==> profiles_matching(ps, q).contains(ps[i]),
        (ps[i].description matches Some(d) && contains_seq(lowercase(d@), lowercase(q)))
            ==> profiles_matching(ps, q).contains(ps[i]),
        forall|k: int| 0 <= k < ps[i].tags@.len() && contains_seq(lowercase(#[trigger] ps[i].tags@[k]@), lowercase(q))
            ==> profiles_matching(ps, q).contains(ps[i]),
    decreases ps.len(),
{
    let d = ps.drop_last();
    if i == ps.len() - 1 {
        if matches_search(ps[i], q) {
            let f = profiles_matching(ps, q);
            assert(f == profiles_matching(d, q).push(ps.last()));
            assert(f[f.len() - 1] == ps[i]);
        }
    } else {
        assert(d[i] == ps[i]);
        law_search_finds_every_match(d, q, i);
        let g = profiles_matching(d, q);
        if g.contains(ps[i]) {
            let j = choose|j: int| 0 <= j < g.len() && g[j] == ps[i];
            if matches_search(ps.last(), q) {
                assert(profiles_matching(ps, q)[j] == ps[i]);
            } else {
                assert(profiles_matching(ps, q) == g);
            }
        }
    }
}

/// Every profile a search finds is among the profiles searched, and its name,
/// description or one of its tags, lowercased, contains the lowercased query.
pub proof fn law_search_results_match(ps: Seq<UserProfile>, q: Seq<char>, j: int)
    requires
        0 <= j < profiles_matching(ps, q).len(),
    ensures
        ps.contains(profiles_matching(ps, q)[j]),
        ({
            let p = profiles_matching(ps, q)[j];
            ||| contains_seq(lowercase(p.name@), lowercase(q))
            ||| (p.description matches Some(d) && contains_seq(lowercase(d@), lowercase(q)))
            ||| exists|k: int| 0 <= k < p.tags@.len() && contains_seq(lowercase(#[trigger] p.tags@[k]@), lowercase(q))
        }),
    decreases ps.len(),
{
    let d = ps.drop_last();
    let g = profiles_matching(d, q);
    if matches_search(ps.last(), q) && j == g.len() {
        assert(profiles_matching(ps, q)[j] == ps.last());
        assert(ps[ps.len() - 1] == ps.last());
    } else {
        assert(profiles_matching(ps, q)[j] == g[j]);
        law_search_results_match(d, q, j);
        let k = choose|k: int| 0 <= k < d.len() && d[k] == g[j];
        assert(ps[k] == d[k]);
    }
}

/// A project-type condition holds exactly when one of that kind's marker files is among
/// the present files: a Rust project by `Cargo.toml`, a Node project by `package.json`,
/// a Python project by `requirements.txt` or `pyproject.toml`, a Go project by `go.mod`;
/// no other kind is recognised.
pub proof fn law_project_type_condition(t: String, ctx: SwitchContext)
    ensures
        condition_holds(SwitchCondition::ProjectType(t), ctx) <==> exists|i: int|
            0 <= i < project_markers(t@).len() && #[trigger] has_string(ctx.present_files@, project_markers(t@)[i]),
        t@ == "rust"@ ==> project_markers(t@) == seq!["Cargo.toml"@],
        t@ == "node"@ ==> project_markers(t@) == seq!["package.json"@],
        t@ == "python"@ ==> project_markers(t@) == seq!["requirements.txt"@, "pyproject.toml"@],
        t@ == "go"@ ==> project_markers(t@) == seq!["go.mod"@],
        t@ != "rust"@ && t@ != "node"@ && t@ != "python"@ && t@ != "go"@ ==> project_markers(t@).len() == 0,
{
    reveal_strlit("rust");
    reveal_strlit("node");
    reveal_strlit("python");
    reveal_strlit("go");
    assert("rust"@[0] != "node"@[0] && "rust"@[0] != "python"@[0] && "rust"@[0] != "go"@[0]);
    assert("node"@[0] != "python"@[0] && "node"@[0] != "go"@[0] && "python"@[0] != "go"@[0]);
}

/// Every marker file of a kind of project, when present, makes a project-type condition
/// for that kind hold.
pub proof fn law_marker_file_triggers_project(t: String, ctx: SwitchContext, i: int, n: int)
    requires
        0 <= i < project_markers(t@).len(),
        0 <= n < ctx.present_files@.len(),
        ctx.present_files@[n]@ == project_markers(t@)[i],
    ensures
        condition_holds(SwitchCondition::ProjectType(t), ctx),
{
    assert(has_string(ctx.present_files@, project_markers(t@)[i]));
}

/// Automatic switching picks the target of the first enabled rule whose condition holds:
/// when rule `j` is enabled and its condition holds, and no earlier rule is both, the
/// result is rule `j`'s target; when no rule is both, there is none.
pub proof fn law_first_matching_rule(rules: Seq<AutoSwitchRule>, ctx: SwitchContext, j: int)
    requires
        0 <= j <= rules.len(),
        forall|k: int| 0 <= k < j ==> !((#[trigger] rules[k]).enabled && condition_holds(rules[k].condition, ctx)),
    ensures
        j < rules.len() && rules[j].enabled && condition_holds(rules[j].condition, ctx)
            ==> first_match(rules, ctx) == Some(rules[j].target_profile_id),
        j == rules.len() ==> first_match(rules, ctx) is None,
    decreases j,
{
    if j > 0 {
        let rest = rules.drop_first();
        assert forall|k: int| 0 <= k < j - 1 implies !((#[trigger] rest[k]).enabled && condition_holds(rest[k].condition, ctx)) by {
            assert(rest[k] == rules[k + 1]);
        }
        law_first_matching_rule(rest, ctx, j - 1);
        assert(!(rules[0].enabled && condition_holds(rules[0].condition, ctx)));
        if j < rules.len() {
            assert(rest[j - 1] == rules[j]);
        }
    }
}

/// Keeps track of the profiles. The profiles directory and file are where the caller
/// reads and writes them.
pub struct ProfileManager {
    config: ProfilesConfig,
    profiles_directory: String,
    config_path: String,
}

impl ProfileManager {
    /// The profiles by identifier.
    pub closed spec fn profiles(self) -> Map<u128, UserProfile> {
        self.config.profiles.view()
    }

    /// The profiles in their stored order.
    pub closed spec fn profile_seq(self) -> Seq<UserProfile> {
        self.config.profiles.entries().map_values(|e: (u128, UserProfile)| e.1)
    }

    pub closed spec fn active(self) -> u128 {
        self.config.active_profile_id
    }

    pub closed spec fn rules(self) -> Seq<AutoSwitchRule> {
        self.config.auto_switch_rules@
    }

    pub closed spec fn quick(self) -> Seq<u128> {
        self.config.quick_switch_profiles@
    }

    pub closed spec fn switching_enabled(self) -> bool {
        self.config.profile_switching_enabled
    }

    pub closed spec fn directory(self) -> Seq<char> {
        self.profiles_directory@
    }

    pub closed spec fn path(self) -> Seq<char> {
        self.config_path@
    }

    proof fn lemma_profile_seq(self)
        requires
            self.config.profiles.wf(),
        ensures
            self.profile_seq().len() == self.profiles().dom().len(),
            forall|i: int| 0 <= i < self.profile_seq().len() ==> self.profiles().contains_key(
                #[trigger] self.config.profiles.key_seq()[i],
            ) && self.profiles()[self.config.profiles.key_seq()[i]] == self.profile_seq()[i],
            forall|k: u128| #[trigger] self.profiles().contains_key(k) ==> exists|i: int|
                0 <= i < self.profile_seq().len() && self.config.profiles.key_seq()[i] == k
                    && #[trigger] self.profile_seq()[i] == self.profiles()[k],
    {
        self.config.profiles.lemma_wf();
        let e = self.config.profiles.entries();
        assert forall|i: int| 0 <= i < self.profile_seq().len() implies self.profiles().contains_key(
            #[trigger] self.config.profiles.key_seq()[i],
        ) && self.profiles()[self.config.profiles.key_seq()[i]] == self.profile_seq()[i] by {
            crate::table::lemma_map_of_index(e, e[i].0);
        }
        assert forall|k: u128| #[trigger] self.profiles().contains_key(k) implies exists|i: int|
            0 <= i < self.profile_seq().len() && self.config.profiles.key_seq()[i] == k
                && #[trigger] self.profile_seq()[i] == self.profiles()[k] by {
            crate::table::lemma_map_of_index(e, k);
            let i = crate::table::index_of(e, k);
            assert(self.profile_seq()[i] == e[i].1);
        }
    }

    /// A manager over a configuration read from `config_path` in `profiles_directory`.
    pub fn from_config(config: ProfilesConfig, profiles_directory: String, config_path: String) -> (m: Self)
        ensures
            m.profiles() == config.profiles.view(),
            m.active() == config.active_profile_id,
            m.rules() == config.auto_switch_rules@,
            m.quick() == config.quick_switch_profiles@,
            m.switching_enabled() == config.profile_switching_enabled,
            m.directory() == profiles_directory@,
            m.path() == config_path@,
    {
        ProfileManager { config, profiles_directory, config_path }
    }

    /// The configuration, as it is to be saved.
    pub fn get_config(&self) -> (r: &ProfilesConfig)
        ensures
            r.profiles.view() == self.profiles(),
            r.active_profile_id == self.active(),
            r.auto_switch_rules@ == self.rules(),
            r.quick_switch_profiles@ == self.quick(),
            r.profile_switching_enabled == self.switching_enabled(),
    {
        &self.config
    }

    /// The file the profiles are saved to.
    pub fn config_path(&self) -> (r: &str)
        ensures
            r@ == self.path(),
    {
        self.config_path.as_str()
    }

    /// The directory holding the profiles.
    pub fn profiles_directory(&self) -> (r: &str)
        ensures
            r@ == self.directory(),
    {
        self.profiles_directory.as_str()
    }

    /// The active profile, if it exists.
    pub fn get_active_profile(&self) -> (r: Option<&UserProfile>)
        ensures
            r is Some == self.profiles().contains_key(self.active()),
            r matches Some(p) ==> *p == self.profiles()[self.active()],
    {
        self.config.profiles.get(&self.config.active_profile_id)
    }

    /// The profile with identifier `id`.
    pub fn get_profile(&self, id: &u128) -> (r: Option<&UserProfile>)
        ensures
            r is Some == self.profiles().contains_key(*id),
            r matches Some(p) ==> *p == self.profiles()[*id],
    {
        self.config.profiles.get(id)
    }

    /// Every profile, in stored order.
    pub fn get_all_profiles(&self) -> (r: Vec<&UserProfile>)
        ensures
            r@.len() == self.profile_seq().len(),
            r@.len() == self.profiles().dom().len(),
            forall|i: int| 0 <= i < r@.len() ==> *r@[i] == self.profile_seq()[i],
    {
        proof {
            use_type_invariant(&self.config.profiles);
            self.lemma_profile_seq();
        }
        let mut r: Vec<&UserProfile> = Vec::new();
        let n = self.config.profiles.len();
        let mut i: usize = 0;
        while i < n
            invariant
                i <= n,
                n == self.config.profiles.entries().len(),
                r@.len() == i,
                forall|j: int| 0 <= j < i ==> *r@[j] == self.profile_seq()[j],
            decreases n - i,
        {
            let (_, p) = self.config.profiles.entry(i);
            r.push(p);
            i = i + 1;
        }
        r
    }

    /// Adds a profile with a fresh identifier, the default configuration and
    /// workspace settings, no themes or tags, created and used now; returns its identifier.
    pub fn create_profile(&mut self, name: String, description: Option<String>) -> (id: u128)
        ensures
            final(self).profiles().contains_key(id),
            final(self).profiles()[id].id == id,
            final(self).profiles()[id].name == name,
            final(self).profiles()[id].description == description,
            final(self).profiles()[id].avatar_path is None,
            !final(self).profiles()[id].is_default,
            final(self).profiles()[id].tags@.len() == 0,
            final(self).profiles()[id].custom_themes.view() == Map::<Seq<char>, WarpTheme>::empty(),
            is_default_config(final(self).profiles()[id].config),
            final(self).profiles()[id].workspace_settings.environment_variables.view() == Map::<Seq<char>, String>::empty(),
            final(self).profiles()[id].workspace_settings.startup_commands@.len() == 0,
            final(self).profiles()[id].workspace_settings.session_restore,
            final(self).profiles()[id].workspace_settings.window_settings == WindowSettings::default_spec(),
            final(self).profiles()[id].created_at == final(self).profiles()[id].last_used,
            forall|k: u128| k != id ==> (#[trigger] final(self).profiles().contains_key(k) == old(self).profiles().contains_key(k))
                && (old(self).profiles().contains_key(k) ==> final(self).profiles()[k] == old(self).profiles()[k]),
            final(self).active() == old(self).active(),
            final(self).rules() == old(self).rules(),
            final(self).quick() == old(self).quick(),
    {
        let now = now_millis();
        let id = new_id();
        let profile = UserProfile {
            id,
            name,
            description,
            avatar_path: None,
            config: WarpConfig::default(),
            custom_themes: Table::new(),
            created_at: now,
            last_used: now,
            is_default: false,
            tags: Vec::new(),
            workspace_settings: WorkspaceSettings::default(),
        };
        self.config.profiles.insert(id, profile);
        id
    }

    /// Copies the profile `source_id` under a fresh identifier and the name `new_name`,
    /// created and used now and not the default; refused when there is no such profile.
    pub fn duplicate_profile(&mut self, source_id: &u128, new_name: String) -> (r: Result<u128, ProfileError>)
        ensures
            r is Err <==> !old(self).profiles().contains_key(*source_id),
            r matches Err(e) ==> e == ProfileError::SourceNotFound && final(self).profiles() == old(self).profiles(),
            r matches Ok(id) ==> {
                let src = old(self).profiles()[*source_id];
                let p = final(self).profiles()[id];
                &&& final(self).profiles().contains_key(id)
                &&& p.id == id
                &&& p.name == new_name
                &&& !p.is_default
                &&& p.created_at == p.last_used
                &&& p.description == src.description
                &&& p.avatar_path == src.avatar_path
                &&& p.config.same_as(&src.config)
                &&& p.custom_themes.key_seq() == src.custom_themes.key_seq()
                &&& p.custom_themes.view().dom() == src.custom_themes.view().dom()
                &&& forall|k: Seq<char>| #[trigger] p.custom_themes.view().contains_key(k)
                    ==> p.custom_themes.view()[k].same_as(&src.custom_themes.view()[k])
                &&& p.tags@ == src.tags@
                &&& p.workspace_settings.same_as(&src.workspace_settings)
                &&& forall|k: u128| k != id ==> (#[trigger] final(self).profiles().contains_key(k) == old(self).profiles().contains_key(k))
                    && (old(self).profiles().contains_key(k) ==> final(self).profiles()[k] == old(self).profiles()[k])
            },
            final(self).active() == old(self).active(),
            final(self).rules() == old(self).rules(),
            final(self).quick() == old(self).quick(),
    {
        let copy = match self.config.profiles.get(source_id) {
            Some(p) => p.duplicate(),
            None => {
                return Err(ProfileError::SourceNotFound);
            },
        };
        let now = now_millis();
        let id = new_id();
        let mut p = copy;
        p.id = id;
        p.name = new_name;
        p.created_at = now;
        p.last_used = now;
        p.is_default = false;
        self.config.profiles.insert(id, p);
        Ok(id)
    }

    /// Deletes the profile `id` (nothing to delete is no error), unless it is the
    /// default profile. When the active profile goes, a default profile becomes active,
    /// or else any remaining profile. The identifier leaves the quick-switch list.
    pub fn delete_profile(&mut self, id: &u128) -> (r: Result<(), ProfileError>)
        ensures
            r is Err <==> old(self).profiles().contains_key(*id) && old(self).profiles()[*id].is_default,
            r matches Err(e) ==> e == ProfileError::CannotDeleteDefault && final(self).profiles() == old(self).profiles()
                && final(self).active() == old(self).active() && final(self).quick() == old(self).quick(),
            r is Ok ==> {
                &&& final(self).profiles() == old(self).profiles().remove(*id)
                &&& final(self).quick() == old(self).quick().filter(|x: u128| x != *id)
                &&& old(self).quick().no_duplicates() ==> final(self).quick().no_duplicates()
                &&& old(self).active() != *id ==> final(self).active() == old(self).active()
                &&& old(self).active() == *id ==> {
                    if exists|k: u128| #[trigger] final(self).profiles().contains_key(k) && final(self).profiles()[k].is_default {
                        final(self).profiles().contains_key(final(self).active())
                            && final(self).profiles()[final(self).active()].is_default
                    } else if final(self).profiles().dom().len() > 0 {
                        final(self).profiles().contains_key(final(self).active())
                    } else {
                        final(self).active() == old(self).active()
                    }
                }
            },
            final(self).rules() == old(self).rules(),
    {
        match self.config.profiles.get(id) {
            Some(p) => {
                if p.is_default {
                    return Err(ProfileError::CannotDeleteDefault);
                }
            },
            None => {},
        }
        self.config.profiles.remove(id);
        if self.config.active_profile_id == *id {
            proof {
                use_type_invariant(&self.config.profiles);
                self.lemma_profile_seq();
            }
            let n = self.config.profiles.len();
            let mut found: Option<u128> = None;
            let mut i: usize = 0;
            while i < n && found.is_none()
                invariant
                    i <= n,
                    n == self.profile_seq().len(),
                    self.profile_seq().len() == self.profiles().dom().len(),
                    forall|j: int| 0 <= j < self.profile_seq().len() ==> self.profiles().contains_key(
                        #[trigger] self.config.profiles.key_seq()[j],
                    ) && self.profiles()[self.config.profiles.key_seq()[j]] == self.profile_seq()[j],
                    forall|k: u128| #[trigger] self.profiles().contains_key(k) ==> exists|j: int|
                        0 <= j < self.profile_seq().len() && self.config.profiles.key_seq()[j] == k
                            && #[trigger] self.profile_seq()[j] == self.profiles()[k],
                    found is None ==> forall|j: int| 0 <= j < i ==> !(#[trigger] self.profile_seq()[j]).is_default,
                    found matches Some(k) ==> self.profiles().contains_key(k) && self.profiles()[k].is_default,
                decreases n - i + (if found is None { 1int } else { 0int }),
            {
                let (k, p) = self.config.profiles.entry(i);
                assert(self.config.profiles.key_seq()[i as int] == *k);
                assert(self.profile_seq()[i as int] == *p);
                if p.is_default {
                    found = Some(*k);
                } else {
                    i = i + 1;
                }
            }
            match found {
                Some(k) => {
                    self.config.active_profile_id = k;
                },
                None => {
                    if n > 0 {
                        let (k, _) = self.config.profiles.entry(0);
                        assert(self.config.profiles.key_seq()[0] == *k);
                        self.config.active_profile_id = *k;
                    }
                    proof {
                        if exists|k: u128| #[trigger] self.profiles().contains_key(k) && self.profiles()[k].is_default {
                            let k = choose|k: u128| #[trigger] self.profiles().contains_key(k) && self.profiles()[k].is_default;
                            let j = choose|j: int| 0 <= j < self.profile_seq().len() && self.config.profiles.key_seq()[j] == k
                                && #[trigger] self.profile_seq()[j] == self.profiles()[k];
                            assert(!self.profile_seq()[j].is_default);
                        }
                    }
                },
            }
        }
        self.remove_from_quick_switch(id);
        Ok(())
    }

    /// Makes `id` the active profile and marks it used now; refused when there is no
    /// such profile.
    pub fn switch_profile(&mut self, id: &u128) -> (r: Result<(), ProfileError>)
        ensures
            r is Err <==> !old(self).profiles().contains_key(*id),
            r matches Err(e) ==> e == ProfileError::NotFound && final(self).profiles() == old(self).profiles()
                && final(self).active() == old(self).active(),
            r is Ok ==> {
                &&& final(self).active() == *id
                &&& final(self).profiles().dom() == old(self).profiles().dom()
                &&& forall|k: u128| k != *id && #[trigger] old(self).profiles().contains_key(k)
                    ==> final(self).profiles()[k] == old(self).profiles()[k]
                &&& {
                    let (a, b) = (final(self).profiles()[*id], old(self).profiles()[*id]);
                    a == (UserProfile { last_used: a.last_used, ..b })
                }
            },
            final(self).rules() == old(self).rules(),
            final(self).quick() == old(self).quick(),
    {
        match self.config.profiles.remove(id) {
            None => Err(ProfileError::NotFound),
            Some(p) => {
                let mut p = p;
                p.last_used = now_millis();
                self.config.profiles.insert(*id, p);
                self.config.active_profile_id = *id;
                assert(self.profiles().dom() =~= old(self).profiles().dom());
                Ok(())
            },
        }
    }

    /// Replaces the profile stored under `id`; refused when there is none.
    pub fn update_profile(&mut self, id: &u128, profile: UserProfile) -> (r: Result<(), ProfileError>)
        ensures
            r is Err <==> !old(self).profiles().contains_key(*id),
            r matches Err(e) ==> e == ProfileError::NotFound && final(self).profiles() == old(self).profiles(),
            r is Ok ==> final(self).profiles() == old(self).profiles().insert(*id, profile),
            final(self).active() == old(self).active(),
            final(self).rules() == old(self).rules(),
            final(self).quick() == old(self).quick(),
    {
        if !self.config.profiles.contains_key(id) {
            return Err(ProfileError::NotFound);
        }
        self.config.profiles.insert(*id, profile);
        Ok(())
    }

    /// Adds a profile read from elsewhere under a fresh identifier, created and used now
    /// and not the default; returns its identifier.
    pub fn import_profile(&mut self, profile: UserProfile) -> (id: u128)
        ensures
            final(self).profiles().contains_key(id),
            ({
                let p = final(self).profiles()[id];
                &&& p == (UserProfile { id, is_default: false, created_at: p.created_at, last_used: p.last_used, ..profile })
                &&& p.created_at == p.last_used
            }),
            forall|k: u128| k != id ==> (#[trigger] final(self).profiles().contains_key(k) == old(self).profiles().contains_key(k))
                && (old(self).profiles().contains_key(k) ==> final(self).profiles()[k] == old(self).profiles()[k]),
            final(self).active() == old(self).active(),
            final(self).rules() == old(self).rules(),
            final(self).quick() == old(self).quick(),
    {
        let mut profile = profile;
        let now = now_millis();
        let id = new_id();
        profile.id = id;
        profile.created_at = now;
        profile.last_used = now;
        profile.is_default = false;
        self.config.profiles.insert(id, profile);
        id
    }

    /// Appends a switching rule.
    pub fn add_auto_switch_rule(&mut self, rule: AutoSwitchRule)
        ensures
            final(self).rules() == old(self).rules().push(rule),
            final(self).profiles() == old(self).profiles(),
            final(self).active() == old(self).active(),
            final(self).quick() == old(self).quick(),
    {
        self.config.auto_switch_rules.push(rule);
    }

    /// Removes every rule with identifier `rule_id`; the others keep their order.
    pub fn remove_auto_switch_rule(&mut self, rule_id: &u128)
        ensures
            final(self).rules() == old(self).rules().filter(|r: AutoSwitchRule| r.id != *rule_id),
            final(self).profiles() == old(self).profiles(),
            final(self).active() == old(self).active(),
            final(self).quick() == old(self).quick(),
    {
        let mut rules: Vec<AutoSwitchRule> = Vec::new();
        std::mem::swap(&mut rules, &mut self.config.auto_switch_rules);
        let ghost q = rules@;
        let mut kept: Vec<AutoSwitchRule> = Vec::new();
        for r in it: rules.into_iter()
            invariant
                it.seq() == q,
                kept@ == q.take(it.index() as int).filter(|r: AutoSwitchRule| r.id != *rule_id),
        {
            proof {
                reveal(Seq::filter);
                assert(q.take(it.index() + 1).drop_last() =~= q.take(it.index() as int));
            }
            if r.id != *rule_id {
                kept.push(r);
            }
        }
        assert(q.take(q.len() as int) =~= q);
        self.config.auto_switch_rules = kept;
    }

    /// The profile the first enabled rule whose condition holds points to.
    pub fn check_auto_switch_rules(&self, ctx: &SwitchContext) -> (r: Option<u128>)
        ensures
            r == first_match(self.rules(), *ctx),
    {
        let rules = &self.config.auto_switch_rules;
        let ghost s = rules@;
        let mut i: usize = 0;
        assert(s.skip(0) =~= s);
        while i < rules.len()
            invariant
                i <= s.len(),
                s == rules@,
                s == self.rules(),
                first_match(s, *ctx) == first_match(s.skip(i as int), *ctx),
            decreases s.len() - i,
        {
            let rule = &rules[i];
            assert(s.skip(i as int).len() > 0);
            assert(s.skip(i as int)[0] == *rule);
            assert(s.skip(i as int).drop_first() =~= s.skip(i + 1));
            if rule.enabled && condition_holds_exec(&rule.condition, ctx) {
                assert(condition_holds(s.skip(i as int)[0].condition, *ctx));
                assert(first_match(s.skip(i as int), *ctx) == Some(rule.target_profile_id));
                return Some(rule.target_profile_id);
            }
            i = i + 1;
        }
        None
    }

    /// Puts `profile_id` at the end of the quick-switch list unless it is there already.
    pub fn add_to_quick_switch(&mut self, profile_id: u128)
        ensures
            old(self).quick().contains(profile_id) ==> final(self).quick() == old(self).quick(),
            !old(self).quick().contains(profile_id) ==> final(self).quick() == old(self).quick().push(profile_id),
            old(self).quick().no_duplicates() ==> final(self).quick().no_duplicates(),
            final(self).quick().contains(profile_id),
            final(self).profiles() == old(self).profiles(),
            final(self).active() == old(self).active(),
            final(self).rules() == old(self).rules(),
    {
        if !vec_contains_u128(&self.config.quick_switch_profiles, profile_id) {
            self.config.quick_switch_profiles.push(profile_id);
            assert(self.quick()[self.quick().len() - 1] == profile_id);
        }
    }

    /// Takes `profile_id` off the quick-switch list.
    pub fn remove_from_quick_switch(&mut self, profile_id: &u128)
        ensures
            final(self).quick() == old(self).quick().filter(|x: u128| x != *profile_id),
            !final(self).quick().contains(*profile_id),
            old(self).quick().no_duplicates() ==> final(self).quick().no_duplicates(),
            final(self).profiles() == old(self).profiles(),
            final(self).active() == old(self).active(),
            final(self).rules() == old(self).rules(),
    {
        let mut kept: Vec<u128> = Vec::new();
        let mut i: usize = 0;
        let ghost q = self.config.quick_switch_profiles@;
        while i < self.config.quick_switch_profiles.len()
            invariant
                i <= q.len(),
                q == self.config.quick_switch_profiles@,
                kept@ == q.take(i as int).filter(|x: u128| x != *profile_id),
            decreases q.len() - i,
        {
            let x = self.config.quick_switch_profiles[i];
            proof {
                reveal(Seq::filter);
                assert(q.take(i + 1).drop_last() =~= q.take(i as int));
            }
            if x != *profile_id {
                kept.push(x);
            }
            i = i + 1;
        }
        assert(q.take(q.len() as int) =~= q);
        self.config.quick_switch_profiles = kept;
        proof {
            let f = q.filter(|x: u128| x != *profile_id);
            if f.contains(*profile_id) {
                let j = choose|j: int| 0 <= j < f.len() && f[j] == *profile_id;
                q.lemma_filter_pred(|x: u128| x != *profile_id, j);
            }
            if q.no_duplicates() {
                lemma_filter_keeps_distinct(q, |x: u128| x != *profile_id);
            }
        }
    }

    /// The profiles on the quick-switch list, in list order, skipping identifiers that
    /// have no profile.
    pub fn get_quick_switch_profiles(&self) -> (r: Vec<&UserProfile>)
        ensures
            r@.len() == profiles_of(self.quick(), self.profiles()).len(),
            forall|i: int| 0 <= i < r@.len() ==> *r@[i] == profiles_of(self.quick(), self.profiles())[i],
    {
        let q = &self.config.quick_switch_profiles;
        let mut r: Vec<&UserProfile> = Vec::new();
        let mut i: usize = 0;
        while i < q.len()
            invariant
                i <= q@.len(),
                q@ == self.quick(),
                r@.len() == profiles_of(q@.take(i as int), self.profiles()).len(),
                forall|j: int| 0 <= j < r@.len() ==> *r@[j] == profiles_of(q@.take(i as int), self.profiles())[j],
            decreases q.len() - i,
        {
            assert(q@.take(i + 1).drop_last() =~= q@.take(i as int));
            match self.config.profiles.get(&q[i]) {
                Some(p) => {
                    r.push(p);
                },
                None => {},
            }
            i = i + 1;
        }
        assert(q@.take(q@.len() as int) =~= q@);
        r
    }

    /// The profiles carrying `tag`, in stored order.
    pub fn get_profiles_by_tag(&self, tag: &str) -> (r: Vec<&UserProfile>)
        ensures
            r@.len() == profiles_tagged(self.profile_seq(), tag@).len(),
            forall|i: int| 0 <= i < r@.len() ==> *r@[i] == profiles_tagged(self.profile_seq(), tag@)[i],
    {
        let t = owned(tag);
        let n = self.config.profiles.len();
        let mut r: Vec<&UserProfile> = Vec::new();
        let mut i: usize = 0;
        while i < n
            invariant
                i <= n,
                n == self.profile_seq().len(),
                t@ == tag@,
                r@.len() == profiles_tagged(self.profile_seq().take(i as int), tag@).len(),
                forall|j: int| 0 <= j < r@.len() ==> *r@[j] == profiles_tagged(self.profile_seq().take(i as int), tag@)[j],
            decreases n - i,
        {
            let (_, p) = self.config.profiles.entry(i);
            assert(self.profile_seq()[i as int] == *p);
            assert(self.profile_seq().take(i + 1).drop_last() =~= self.profile_seq().take(i as int));
            if has_string_exec(&p.tags, &t) {
                r.push(p);
            }
            i = i + 1;
        }
        assert(self.profile_seq().take(n as int) =~= self.profile_seq());
        r
    }

    /// The profiles whose name, description or a tag contains the query, ignoring case,
    /// in stored order.
    pub fn search_profiles(&self, query: &str) -> (r: Vec<&UserProfile>)
        ensures
            r@.len() == profiles_matching(self.profile_seq(), query@).len(),
            forall|i: int| 0 <= i < r@.len() ==> *r@[i] == profiles_matching(self.profile_seq(), query@)[i],
    {
        let q = to_lowercase(query);
        let n = self.config.profiles.len();
        let mut r: Vec<&UserProfile> = Vec::new();
        let mut i: usize = 0;
        while i < n
            invariant
                i <= n,
                n == self.profile_seq().len(),
                q@ == lowercase(query@),
                r@.len() == profiles_matching(self.profile_seq().take(i as int), query@).len(),
                forall|j: int| 0 <= j < r@.len() ==> *r@[j] == profiles_matching(self.profile_seq().take(i as int), query@)[j],
            decreases n - i,
        {
            let (_, p) = self.config.profiles.entry(i);
            assert(self.profile_seq()[i as int] == *p);
            assert(self.profile_seq().take(i + 1).drop_last() =~= self.profile_seq().take(i as int));
            if profile_matches(p, &q, Ghost(query@)) {
                r.push(p);
            }
            i = i + 1;
        }
        assert(self.profile_seq().take(n as int) =~= self.profile_seq());
        r
    }
}

fn profile_matches(p: &UserProfile, q: &String, Ghost(query): Ghost<Seq<char>>) -> (r: bool)
    requires
        q@ == lowercase(query),
    ensures
        r == matches_search(*p, query),
{
    if contains(to_lowercase(p.name.as_str()).as_str(), q.as_str()) {
        return true;
    }
    match &p.description {
        Some(d) => {
            if contains(to_lowercase(d.as_str()).as_str(), q.as_str()) {
                return true;
            }
        },
        None => {},
    }
    let mut i: usize = 0;
    while i < p.tags.len()
        invariant
            i <= p.tags@.len(),
            q@ == lowercase(query),
            forall|j: int| 0 <= j < i ==> !contains_seq(lowercase(#[trigger] p.tags@[j]@), lowercase(query)),
        decreases p.tags.len() - i,
    {
        if contains(to_lowercase(p.tags[i].as_str()).as_str(), q.as_str()) {
            return true;
        }
        i = i + 1;
    }
    false
}

fn vec_contains_u128(v: &Vec<u128>, x: u128) -> (r: bool)
    ensures
        r == v@.contains(x),
{
    let mut i: usize = 0;
    while i < v.len()
        invariant
            i <= v@.len(),
            forall|j: int| 0 <= j < i ==> v@[j] != x,
        decreases v.len() - i,
    {
        if v[i] == x {
            return true;
        }
        i = i + 1;
    }
    false
}

} // verus!
