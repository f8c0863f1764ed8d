//! The quick profile switcher: a button per quick-switch profile, showing its avatar or
//! its initials.
use vstd::prelude::*;
use crate::ids::new_id;
use crate::profiles::UserProfile;
use crate::text::{owned, string_from_chars, to_uppercase, uppercase};

verus! {

/// A request from the switcher.
#[derive(Debug)]
pub enum ProfileSwitcherMessage {
    SwitchProfile(u128),
    OpenProfileManager,
}

/// A button of the switcher: what it shows, its tooltip, whether it is marked as the
/// active profile, and what pressing it sends.
#[derive(Debug)]
pub struct SwitcherButton {
    pub label: String,
    pub tooltip: String,
    pub is_active: bool,
    pub message: ProfileSwitcherMessage,
}

/// What a profile's button shows: an avatar sign when it has an avatar, else the first
/// two characters of its name in upper case.
pub open spec fn button_label(p: UserProfile) -> Seq<char> {
    if p.avatar_path is Some {
        "\u{1F464}"@
    } else {
        uppercase(p.name@.take(if p.name@.len() < 2 { p.name@.len() as int } else { 2 }))
    }
}

/// The quick switcher.
pub struct ProfileSwitcher {
    quick_switch_profiles: Vec<UserProfile>,
    active_profile_id: u128,
    is_visible: bool,
}

impl ProfileSwitcher {
    pub closed spec fn profiles(self) -> Seq<UserProfile> {
        self.quick_switch_profiles@
    }

    pub closed spec fn active(self) -> u128 {
        self.active_profile_id
    }

    pub closed spec fn visible(self) -> bool {
        self.is_visible
    }

    /// A visible switcher with no profiles.
    pub fn new() -> (s: Self)
        ensures
            s.visible(),
            s.profiles().len() == 0,
    {
        ProfileSwitcher { quick_switch_profiles: Vec::new(), active_profile_id: new_id(), is_visible: true }
    }

    /// Shows these profiles, this one active.
    pub fn update_profiles(&mut self, profiles: Vec<UserProfile>, active_id: u128)
        ensures
            final(self).profiles() == profiles@,
            final(self).active() == active_id,
            final(self).visible() == old(self).visible(),
    {
        self.quick_switch_profiles = profiles;
        self.active_profile_id = active_id;
    }

    pub fn set_visible(&mut self, visible: bool)
        ensures
            final(self).visible() == visible,
            final(self).profiles() == old(self).profiles(),
            final(self).active() == old(self).active(),
    {
        self.is_visible = visible;
    }

    /// The buttons drawn: one per profile in order, each with the profile's name as its
    /// tooltip, marked when it is the active profile and asking to switch to that
    /// profile; then the gear that opens the profile manager. None at all when the
    /// switcher is hidden or has no profiles.
    pub fn buttons(&self) -> (r: Vec<SwitcherButton>)
        ensures
            !self.visible() || self.profiles().len() == 0 ==> r@.len() == 0,
            self.visible() && self.profiles().len() > 0 ==> {
                &&& r@.len() == self.profiles().len() + 1
                &&& forall|i: int| 0 <= i < self.profiles().len() ==> {
                    &&& (#[trigger] r@[i]).message == ProfileSwitcherMessage::SwitchProfile(self.profiles()[i].id)
                    &&& r@[i].label@ == button_label(self.profiles()[i])
                    &&& r@[i].tooltip@ == self.profiles()[i].name@
                    &&& r@[i].is_active == (self.profiles()[i].id == self.active())
                }
                &&& r@.last().message == ProfileSwitcherMessage::OpenProfileManager
                &&& r@.last().label@ == "\u{2699}"@
                &&& r@.last().tooltip@ == "Manage Profiles"@
                &&& !r@.last().is_active
            },
    {
        let mut r: Vec<SwitcherButton> = Vec::new();
        if !self.is_visible || self.quick_switch_profiles.len() == 0 {
            return r;
        }
        let mut i: usize = 0;
        while i < self.quick_switch_profiles.len()
            invariant
                i <= self.profiles().len(),
                r@.len() == i,
                forall|j: int| 0 <= j < i ==> {
                    &&& (#[trigger] r@[j]).message == ProfileSwitcherMessage::SwitchProfile(self.profiles()[j].id)
                    &&& r@[j].label@ == button_label(self.profiles()[j])
                    &&& r@[j].tooltip@ == self.profiles()[j].name@
                    &&& r@[j].is_active == (self.profiles()[j].id == self.active())
                },
            decreases self.quick_switch_profiles.len() - i,
        {
            let p = &self.quick_switch_profiles[i];
            let label = if p.avatar_path.is_some() {
                owned("\u{1F464}")
            } else {
                initials(p.name.as_str())
            };
            r.push(SwitcherButton {
                label,
                tooltip: p.name.clone(),
                is_active: p.id == self.active_profile_id,
                message: ProfileSwitcherMessage::SwitchProfile(p.id),
            });
            i = i + 1;
        }
        r.push(SwitcherButton {
            label: owned("\u{2699}"),
            tooltip: owned("Manage Profiles"),
            is_active: false,
            message: ProfileSwitcherMessage::OpenProfileManager,
        });
        r
    }
}

/// The first two characters of `name` in upper case.
fn initials(name: &str) -> (r: String)
    ensures
        r@ == uppercase(name@.take(if name@.len() < 2 { name@.len() as int } else { 2 })),
{
    let mut first: Vec<char> = Vec::new();
    let mut n: usize = 0;
    for c in it: name.chars()
        invariant
            it.seq() == name@,
            n == (if it.index() < 2 { it.index() } else { 2 }),
            first@ == name@.take(n as int),
    {
        if n < 2 {
            first.push(c);
            assert(name@.take(n + 1) =~= name@.take(n as int).push(c));
            n = n + 1;
        }
    }
    assert(first@ =~= name@.take(if name@.len() < 2 { name@.len() as int } else { 2 }));
    let s = string_from_chars(&first);
    to_uppercase(s.as_str())
}

} // verus!
