//! The profile manager window: the list of profiles with their actions, and a form for
//! a new profile.
use vstd::prelude::*;
use crate::ids::new_id;
use crate::profiles::UserProfile;

verus! {

/// A request from the window.
#[derive(Debug)]
pub enum ProfileManagerMessage {
    ToggleVisibility,
    NewProfileNameChanged(String),
    NewProfileDescriptionChanged(String),
    CreateProfileClicked,
    SelectProfile(u128),
    DuplicateProfileClicked(u128),
    DeleteProfileClicked(u128),
    ToggleQuickSwitch(u128),
}

/// What the window asks the terminal to do with the profiles.
#[derive(Debug)]
pub enum ProfileRequest {
    CreateProfile(String, Option<String>),
    SwitchProfile(u128),
    DuplicateProfile(u128),
    DeleteProfile(u128),
    AddToQuickSwitch(u128),
    RemoveFromQuickSwitch(u128),
}

/// A button of the window: its label, whether it is drawn in the accent colour, and
/// what pressing it sends.
#[derive(Debug)]
pub struct ProfileButton {
    pub label: String,
    pub highlighted: bool,
    pub message: ProfileManagerMessage,
}

/// The two text inputs of the new-profile form.
#[derive(Debug, Clone, Copy, PartialEq, Eq, Structural)]
pub enum ProfileField {
    Name,
    Description,
}

/// What a form input sends for the text typed into it.
pub open spec fn field_message(field: ProfileField, typed: String) -> ProfileManagerMessage {
    match field {
        ProfileField::Name => ProfileManagerMessage::NewProfileNameChanged(typed),
        ProfileField::Description => ProfileManagerMessage::NewProfileDescriptionChanged(typed),
    }
}

impl ProfileField {
    /// What this input sends when `typed` is typed into it.
    pub fn message(&self, typed: String) -> (m: ProfileManagerMessage)
        ensures
            m == field_message(*self, typed),
    {
        match self {
            ProfileField::Name => ProfileManagerMessage::NewProfileNameChanged(typed),
            ProfileField::Description => ProfileManagerMessage::NewProfileDescriptionChanged(typed),
        }
    }
}

/// A text input of the new-profile form: its placeholder, the text it shows, and which
/// input it is.
#[derive(Debug)]
pub struct ProfileInput {
    pub placeholder: String,
    pub value: String,
    pub field: ProfileField,
}

/// One row of the profile list: the profile, whether it is active, the label of its
/// quick-switch button, and its buttons in the order they are drawn.
#[derive(Debug)]
pub struct ProfileRow {
    pub id: u128,
    pub name: String,
    pub is_active: bool,
    pub quick_switch_label: String,
    pub buttons: Vec<ProfileButton>,
}

/// The label of the quick-switch button of a profile: it takes the profile off the
/// quick-switch list when it is on it, and adds it otherwise.
pub open spec fn quick_label(on_list: bool) -> Seq<char> {
    if on_list {
        "Remove from Quick Switch"@
    } else {
        "Add to Quick Switch"@
    }
}

/// A button with this label, accent colour and message.
pub open spec fn button_is(b: ProfileButton, label: Seq<char>, highlighted: bool, message: ProfileManagerMessage) -> bool {
    b.label@ == label && b.highlighted == highlighted && b.message == message
}

/// The row drawn for profile `p` when `active` is the active profile and `quick` the
/// quick-switch list: the profile's name, highlighted when it is active, which selects
/// it; the quick-switch button; `Duplicate`; and `Delete`; each for this profile.
pub open spec fn row_shows(r: ProfileRow, p: UserProfile, active: u128, quick: Seq<u128>) -> bool {
    &&& r.id == p.id
    &&& r.name@ == p.name@
    &&& r.is_active == (p.id == active)
    &&& r.quick_switch_label@ == quick_label(quick.contains(p.id))
    &&& r.buttons@.len() == 4
    &&& button_is(r.buttons@[0], p.name@, p.id == active, ProfileManagerMessage::SelectProfile(p.id))
    &&& button_is(r.buttons@[1], quick_label(quick.contains(p.id)), false, ProfileManagerMessage::ToggleQuickSwitch(p.id))
    &&& button_is(r.buttons@[2], "Duplicate"@, false, ProfileManagerMessage::DuplicateProfileClicked(p.id))
    &&& button_is(r.buttons@[3], "Delete"@, false, ProfileManagerMessage::DeleteProfileClicked(p.id))
}

/// What handling `message` does: `after` is the window `before` once it has handled the
/// message, and `r` the request it made. Creating asks for a profile with the typed name
/// and the typed description (none when empty) and clears both inputs, unless the name
/// is empty; the list's buttons ask to switch to, copy or delete a profile, or to add it
/// to or take it off the quick-switch list according to whether it is on it.
pub open spec fn handled(before: ProfileManagerUI, after: ProfileManagerUI, message: ProfileManagerMessage, r: Option<ProfileRequest>) -> bool {
    &&& after.listed() == before.listed()
    &&& after.active() == before.active()
    &&& after.quick() == before.quick()
    &&& after.visible() == (if message is ToggleVisibility { !before.visible() } else { before.visible() })
    &&& match message {
        ProfileManagerMessage::ToggleVisibility => r is None && after.name_input() == before.name_input()
            && after.description_input() == before.description_input(),
        ProfileManagerMessage::NewProfileNameChanged(n) => r is None && after.name_input() == n@
            && after.description_input() == before.description_input(),
        ProfileManagerMessage::NewProfileDescriptionChanged(d) => r is None && after.description_input() == d@
            && after.name_input() == before.name_input(),
        ProfileManagerMessage::CreateProfileClicked => if before.name_input().len() == 0 {
            r is None && after.name_input() == before.name_input()
                && after.description_input() == before.description_input()
        } else {
            &&& r matches Some(ProfileRequest::CreateProfile(n, d)) && n@ == before.name_input()
                && (if before.description_input().len() == 0 {
                    d is None
                } else {
                    d matches Some(t) && t@ == before.description_input()
                })
            &&& after.name_input().len() == 0
            &&& after.description_input().len() == 0
        },
        ProfileManagerMessage::SelectProfile(id) => r == Some(ProfileRequest::SwitchProfile(id)),
        ProfileManagerMessage::DuplicateProfileClicked(id) => r == Some(ProfileRequest::DuplicateProfile(id)),
        ProfileManagerMessage::DeleteProfileClicked(id) => r == Some(ProfileRequest::DeleteProfile(id)),
        ProfileManagerMessage::ToggleQuickSwitch(id) => if before.quick().contains(id) {
            r == Some(ProfileRequest::RemoveFromQuickSwitch(id))
        } else {
            r == Some(ProfileRequest::AddToQuickSwitch(id))
        },
    }
}

/// The text a form input of `w` shows.
pub open spec fn input_value(w: ProfileManagerUI, field: ProfileField) -> Seq<char> {
    match field {
        ProfileField::Name => w.name_input(),
        ProfileField::Description => w.description_input(),
    }
}

/// Typing into a form input changes exactly that input: after the window handles what
/// the input sends for `typed`, the input shows `typed`, the other input is unchanged,
/// no request is made, and the list, the active profile, the quick-switch list and the
/// visibility stay as they were.
pub proof fn law_form_input_sets_its_field(
    before: ProfileManagerUI,
    after: ProfileManagerUI,
    field: ProfileField,
    typed: String,
    r: Option<ProfileRequest>,
)
    requires
        handled(before, after, field_message(field, typed), r),
    ensures
        input_value(after, field) == typed@,
        forall|other: ProfileField| other != field ==> input_value(after, other) == input_value(before, other),
        r is None,
        after.listed() == before.listed(),
        after.active() == before.active(),
        after.quick() == before.quick(),
        after.visible() == before.visible(),
{
}

/// Each button of a profile's row asks for its own profile: pressing the name switches
/// to it, the quick-switch button takes it off the quick-switch list or adds it to it
/// (as its label says), `Duplicate` copies it and `Delete` deletes it.
pub proof fn law_row_buttons_ask_for_their_profile(
    before: ProfileManagerUI,
    after: ProfileManagerUI,
    row: ProfileRow,
    p: UserProfile,
    k: int,
    req: Option<ProfileRequest>,
)
    requires
        row_shows(row, p, before.active(), before.quick()),
        0 <= k < 4,
        handled(before, after, row.buttons@[k].message, req),
    ensures
        k == 0 ==> req == Some(ProfileRequest::SwitchProfile(p.id)),
        k == 1 ==> req == Some(
            if before.quick().contains(p.id) {
                ProfileRequest::RemoveFromQuickSwitch(p.id)
            } else {
                ProfileRequest::AddToQuickSwitch(p.id)
            },
        ),
        k == 2 ==> req == Some(ProfileRequest::DuplicateProfile(p.id)),
        k == 3 ==> req == Some(ProfileRequest::DeleteProfile(p.id)),
        after.listed() == before.listed(),
        after.visible() == before.visible(),
{
}

/// The profile manager window.
pub struct ProfileManagerUI {
    is_visible: bool,
    profiles: Vec<UserProfile>,
    active_profile_id: u128,
    quick_switch_profile_ids: Vec<u128>,
    new_profile_name: String,
    new_profile_description: String,
}

impl ProfileManagerUI {
    pub closed spec fn visible(self) -> bool {
        self.is_visible
    }

    pub closed spec fn listed(self) -> Seq<UserProfile> {
        self.profiles@
    }

    pub closed spec fn active(self) -> u128 {
        self.active_profile_id
    }

    pub closed spec fn quick(self) -> Seq<u128> {
        self.quick_switch_profile_ids@
    }

    pub closed spec fn name_input(self) -> Seq<char> {
        self.new_profile_name@
    }

    pub closed spec fn description_input(self) -> Seq<char> {
        self.new_profile_description@
    }

    /// A hidden window with no profiles and empty inputs.
    pub fn new() -> (w: Self)
        ensures
            !w.visible(),
            w.listed().len() == 0,
            w.quick().len() == 0,
            w.name_input().len() == 0,
            w.description_input().len() == 0,
    {
        ProfileManagerUI {
            is_visible: false,
            profiles: Vec::new(),
            active_profile_id: new_id(),
            quick_switch_profile_ids: Vec::new(),
            new_profile_name: String::new(),
            new_profile_description: String::new(),
        }
    }

    pub fn show(&mut self)
        ensures
            final(self).visible(),
            final(self).listed() == old(self).listed(),
            final(self).active() == old(self).active(),
            final(self).quick() == old(self).quick(),
            final(self).name_input() == old(self).name_input(),
            final(self).description_input() == old(self).description_input(),
    {
        self.is_visible = true;
    }

    /// Hides the window.
    pub fn close(&mut self)
        ensures
            !final(self).visible(),
            final(self).listed() == old(self).listed(),
            final(self).active() == old(self).active(),
            final(self).quick() == old(self).quick(),
            final(self).name_input() == old(self).name_input(),
            final(self).description_input() == old(self).description_input(),
    {
        self.is_visible = false;
    }

    pub fn is_visible(&self) -> (r: bool)
        ensures
            r == self.visible(),
    {
        self.is_visible
    }

    /// Shows these profiles, this active one and this quick-switch list.
    pub fn update_profiles(&mut self, profiles: Vec<UserProfile>, active_id: u128, quick_switch_ids: Vec<u128>)
        ensures
            final(self).listed() == profiles@,
            final(self).active() == active_id,
            final(self).quick() == quick_switch_ids@,
            final(self).visible() == old(self).visible(),
            final(self).name_input() == old(self).name_input(),
            final(self).description_input() == old(self).description_input(),
    {
        self.profiles = profiles;
        self.active_profile_id = active_id;
        self.quick_switch_profile_ids = quick_switch_ids;
    }

    /// Handles a message (see `handled`).
    pub fn update(&mut self, message: ProfileManagerMessage) -> (r: Option<ProfileRequest>)
        ensures
            handled(*old(self), *final(self), message, r),
    {
        match message {
            ProfileManagerMessage::ToggleVisibility => {
                self.is_visible = !self.is_visible;
                None
            },
            ProfileManagerMessage::NewProfileNameChanged(name) => {
                self.new_profile_name = name;
                None
            },
            ProfileManagerMessage::NewProfileDescriptionChanged(desc) => {
                self.new_profile_description = desc;
                None
            },
            ProfileManagerMessage::CreateProfileClicked => {
                if self.new_profile_name.as_str().unicode_len() != 0 {
                    let mut name = String::new();
                    std::mem::swap(&mut name, &mut self.new_profile_name);
                    let mut desc = String::new();
                    std::mem::swap(&mut desc, &mut self.new_profile_description);
                    let description = if desc.as_str().unicode_len() == 0 {
                        None
                    } else {
                        Some(desc)
                    };
                    return Some(ProfileRequest::CreateProfile(name, description));
                }
                None
            },
            ProfileManagerMessage::SelectProfile(id) => Some(ProfileRequest::SwitchProfile(id)),
            ProfileManagerMessage::DuplicateProfileClicked(id) => Some(ProfileRequest::DuplicateProfile(id)),
            ProfileManagerMessage::DeleteProfileClicked(id) => Some(ProfileRequest::DeleteProfile(id)),
            ProfileManagerMessage::ToggleQuickSwitch(id) => {
                if contains_id(&self.quick_switch_profile_ids, id) {
                    Some(ProfileRequest::RemoveFromQuickSwitch(id))
                } else {
                    Some(ProfileRequest::AddToQuickSwitch(id))
                }
            },
        }
    }

    /// The rows of the profile list, one per profile in order (see `row_shows`).
    pub fn profile_rows(&self) -> (r: Vec<ProfileRow>)
        ensures
            r@.len() == self.listed().len(),
            forall|i: int| 0 <= i < r@.len() ==> row_shows(#[trigger] r@[i], self.listed()[i], self.active(), self.quick()),
    {
        let mut r: Vec<ProfileRow> = Vec::new();
        let mut i: usize = 0;
        while i < self.profiles.len()
            invariant
                i <= self.profiles@.len(),
                r@.len() == i,
                forall|j: int| 0 <= j < i ==> row_shows(#[trigger] r@[j], self.listed()[j], self.active(), self.quick()),
            decreases self.profiles.len() - i,
        {
            let p = &self.profiles[i];
            let on_list = contains_id(&self.quick_switch_profile_ids, p.id);
            let is_active = p.id == self.active_profile_id;
            let mut buttons: Vec<ProfileButton> = Vec::new();
            buttons.push(ProfileButton {
                label: p.name.clone(),
                highlighted: is_active,
                message: ProfileManagerMessage::SelectProfile(p.id),
            });
            buttons.push(ProfileButton {
                label: quick_switch_label(on_list),
                highlighted: false,
                message: ProfileManagerMessage::ToggleQuickSwitch(p.id),
            });
            buttons.push(ProfileButton {
                label: crate::text::owned("Duplicate"),
                highlighted: false,
                message: ProfileManagerMessage::DuplicateProfileClicked(p.id),
            });
            buttons.push(ProfileButton {
                label: crate::text::owned("Delete"),
                highlighted: false,
                message: ProfileManagerMessage::DeleteProfileClicked(p.id),
            });
            r.push(ProfileRow {
                id: p.id,
                name: p.name.clone(),
                is_active,
                quick_switch_label: quick_switch_label(on_list),
                buttons,
            });
            i = i + 1;
        }
        r
    }

    /// The inputs of the new-profile form, in order: the name, with placeholder
    /// `Profile Name`, and the description, with placeholder `Description (Optional)`,
    /// each showing what has been typed into it.
    pub fn form_inputs(&self) -> (r: Vec<ProfileInput>)
        ensures
            r@.len() == 2,
            r@[0].placeholder@ == "Profile Name"@,
            r@[0].value@ == self.name_input(),
            r@[0].field == ProfileField::Name,
            r@[1].placeholder@ == "Description (Optional)"@,
            r@[1].value@ == self.description_input(),
            r@[1].field == ProfileField::Description,
    {
        let mut r: Vec<ProfileInput> = Vec::new();
        r.push(ProfileInput {
            placeholder: crate::text::owned("Profile Name"),
            value: self.new_profile_name.clone(),
            field: ProfileField::Name,
        });
        r.push(ProfileInput {
            placeholder: crate::text::owned("Description (Optional)"),
            value: self.new_profile_description.clone(),
            field: ProfileField::Description,
        });
        r
    }

    /// The form's button, `Create Profile`, in the accent colour, which asks to create
    /// the profile.
    pub fn create_button(&self) -> (b: ProfileButton)
        ensures
            button_is(b, "Create Profile"@, true, ProfileManagerMessage::CreateProfileClicked),
    {
        ProfileButton {
            label: crate::text::owned("Create Profile"),
            highlighted: true,
            message: ProfileManagerMessage::CreateProfileClicked,
        }
    }

    /// The window's `Close` button, which hides the window.
    pub fn close_button(&self) -> (b: ProfileButton)
        ensures
            button_is(b, "Close"@, false, ProfileManagerMessage::ToggleVisibility),
    {
        ProfileButton {
            label: crate::text::owned("Close"),
            highlighted: false,
            message: ProfileManagerMessage::ToggleVisibility,
        }
    }
}

fn quick_switch_label(on_list: bool) -> (r: String)
    ensures
        r@ == quick_label(on_list),
{
    if on_list {
        crate::text::owned("Remove from Quick Switch")
    } else {
        crate::text::owned("Add to Quick Switch")
    }
}

/// Whether `v` holds `id`.
pub fn contains_id(v: &Vec<u128>, id: u128) -> (r: bool)
    ensures
        r == v@.contains(id),
{
    let mut i: usize = 0;
    while i < v.len()
        invariant
            i <= v@.len(),
            forall|j: int| 0 <= j < i ==> v@[j] != id,
        decreases v.len() - i,
    {
        if v[i] == id {
            return true;
        }
        i = i + 1;
    }
    false
}

} // verus!
