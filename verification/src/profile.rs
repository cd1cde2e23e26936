//! The user's own profile: what the settings dialog saves, the status bar
//! switches, and the greetings built from the name.

use vstd::prelude::*;
use crate::text::{lowercase, to_lowercase_string, trim_str, trimmed};

verus! {

/// The signed-in user as the client shows them.
pub struct UserProfile {
    pub username: String,
    pub avatar: String,
    pub banner: String,
    pub bio: String,
    pub is_muted: bool,
    pub is_deafened: bool,
}

/// The values edited in the profile dialog.
pub struct ProfileForm {
    pub name: String,
    pub avatar: String,
    pub banner: String,
    pub bio: String,
}

impl UserProfile {
    /// Nobody signed in yet: empty texts, microphone and sound on.
    pub fn new() -> (res: Self)
        ensures
            res.username@.len() == 0,
            res.avatar@.len() == 0,
            res.banner@.len() == 0,
            res.bio@.len() == 0,
            !res.is_muted,
            !res.is_deafened,
    {
        UserProfile {
            username: String::new(),
            avatar: String::new(),
            banner: String::new(),
            bio: String::new(),
            is_muted: false,
            is_deafened: false,
        }
    }

    /// The dialog opens with the current values.
    pub fn form(&self) -> (res: ProfileForm)
        ensures
            res.name@ == self.username@,
            res.avatar@ == self.avatar@,
            res.banner@ == self.banner@,
            res.bio@ == self.bio@,
    {
        ProfileForm {
            name: self.username.clone(),
            avatar: self.avatar.clone(),
            banner: self.banner.clone(),
            bio: self.bio.clone(),
        }
    }

    /// Saving the dialog: a blank name keeps the old one (a non-blank one is
    /// taken as typed); avatar, banner and bio take the edited values.
    pub fn save(&mut self, form: &ProfileForm)
        ensures
            final(self).username@ == if trimmed(form.name@).len() > 0 { form.name@ } else { old(self).username@ },
            final(self).avatar@ == form.avatar@,
            final(self).banner@ == form.banner@,
            final(self).bio@ == form.bio@,
            final(self).is_muted == old(self).is_muted,
            final(self).is_deafened == old(self).is_deafened,
    {
        if !trim_str(form.name.as_str()).is_empty() {
            self.username = form.name.clone();
        }
        self.avatar = form.avatar.clone();
        self.banner = form.banner.clone();
        self.bio = form.bio.clone();
    }

    /// The server's profile arrived: name and avatar are taken from it.
    pub fn loaded(&mut self, username: String, avatar: String)
        ensures
            final(self).username@ == username@,
            final(self).avatar@ == avatar@,
            final(self).banner == old(self).banner,
            final(self).bio == old(self).bio,
            final(self).is_muted == old(self).is_muted,
            final(self).is_deafened == old(self).is_deafened,
    {
        self.username = username;
        self.avatar = avatar;
    }

    /// The microphone button.
    pub fn toggle_mute(&mut self)
        ensures
            *final(self) == (UserProfile { is_muted: !old(self).is_muted, ..*old(self) }),
    {
        self.is_muted = !self.is_muted;
    }

    /// The headphones button.
    pub fn toggle_deafen(&mut self)
        ensures
            *final(self) == (UserProfile { is_deafened: !old(self).is_deafened, ..*old(self) }),
    {
        self.is_deafened = !self.is_deafened;
    }
}

/// The handle under the name: `@` and the lower-cased name.
pub fn user_tag(username: &str) -> (res: String)
    ensures
        res@ == "@"@ + lowercase(username@),
{
    let lower = to_lowercase_string(username);
    tag_from_lowercase(lower.as_str())
}

/// The handle made of an already lower-cased name.
pub fn tag_from_lowercase(lower: &str) -> (res: String)
    ensures
        res@ == "@"@ + lower@,
{
    let mut res = String::from_str("@");
    res.append(lower);
    res
}

/// The greeting of the home dashboard.
pub fn greeting(username: &str) -> (res: String)
    ensures
        username@.len() == 0 ==> res@ == "Добро пожаловать в Gilvave! 👋"@,
        username@.len() > 0 ==> res@ == "Добро пожаловать, "@ + username@ + "! 👋"@,
{
    if username.is_empty() {
        String::from_str("Добро пожаловать в Gilvave! 👋")
    } else {
        let mut res = String::from_str("Добро пожаловать, ");
        res.append(username);
        res.append("! 👋");
        res
    }
}

/// Look of a status bar button.
pub struct ButtonLook {
    pub class: &'static str,
    pub title: &'static str,
}

/// The microphone button, by whether the microphone is muted.
pub fn mic_button(is_muted: bool) -> (res: ButtonLook)
    ensures
        is_muted ==> res.class@ == "footer-btn muted"@ && res.title@ == "Включить микрофон"@,
        !is_muted ==> res.class@ == "footer-btn"@ && res.title@ == "Отключить микрофон"@,
{
    if is_muted {
        ButtonLook { class: "footer-btn muted", title: "Включить микрофон" }
    } else {
        ButtonLook { class: "footer-btn", title: "Отключить микрофон" }
    }
}

/// The headphones button, by whether the sound is off.
pub fn deafen_button(is_deafened: bool) -> (res: ButtonLook)
    ensures
        is_deafened ==> res.class@ == "footer-btn deafened"@ && res.title@ == "Включить звук"@,
        !is_deafened ==> res.class@ == "footer-btn"@ && res.title@ == "Заглушить звук"@,
{
    if is_deafened {
        ButtonLook { class: "footer-btn deafened", title: "Включить звук" }
    } else {
        ButtonLook { class: "footer-btn", title: "Заглушить звук" }
    }
}

} // verus!
