//! Which screen the application shows, and the switches between them.

use vstd::prelude::*;
use crate::text::same_text;

verus! {

/// The screens of the application.
#[derive(Clone, Copy, PartialEq, Eq, Structural, Debug)]
pub enum ActiveScreen {
    Login,
    Register,
    Home,
}

/// Name of a screen, as it is displayed and parsed.
pub open spec fn screen_name(s: ActiveScreen) -> Seq<char> {
    match s {
        ActiveScreen::Login => "Login"@,
        ActiveScreen::Register => "Register"@,
        ActiveScreen::Home => "Home"@,
    }
}

/// The screen with the given name, if any.
pub open spec fn screen_named(t: Seq<char>) -> Option<ActiveScreen> {
    if t == "Login"@ {
        Some(ActiveScreen::Login)
    } else if t == "Register"@ {
        Some(ActiveScreen::Register)
    } else if t == "Home"@ {
        Some(ActiveScreen::Home)
    } else {
        None
    }
}

impl ActiveScreen {
    /// The screen's name ("Login", "Register", "Home").
    pub fn as_str(&self) -> (res: &'static str)
        ensures
            res@ == screen_name(*self),
    {
        match self {
            ActiveScreen::Login => "Login",
            ActiveScreen::Register => "Register",
            ActiveScreen::Home => "Home",
        }
    }

    /// Parses a screen name; names are matched exactly.
    pub fn parse(t: &str) -> (res: Option<ActiveScreen>)
        ensures
            res == screen_named(t@),
    {
        if same_text(t, "Login") {
            Some(ActiveScreen::Login)
        } else if same_text(t, "Register") {
            Some(ActiveScreen::Register)
        } else if same_text(t, "Home") {
            Some(ActiveScreen::Home)
        } else {
            None
        }
    }

    /// All screens, in declaration order.
    pub fn all() -> (res: Vec<ActiveScreen>)
        ensures
            res@ == seq![ActiveScreen::Login, ActiveScreen::Register, ActiveScreen::Home],
    {
        vec![ActiveScreen::Login, ActiveScreen::Register, ActiveScreen::Home]
    }
}

/// Parsing a screen's name gives the screen back.
pub proof fn law_screen_name_round_trip(s: ActiveScreen)
    ensures
        screen_named(screen_name(s)) == Some(s),
{
    reveal_strlit("Login");
    reveal_strlit("Register");
    reveal_strlit("Home");
    assert("Login"@.len() == 5);
    assert("Register"@.len() == 8);
    assert("Home"@.len() == 4);
}

/// Holds the current screen.
#[derive(Clone, Copy, PartialEq, Eq, Structural)]
pub struct ScreenWrapper(pub ActiveScreen);

impl ScreenWrapper {
    pub fn get(&self) -> (res: ActiveScreen)
        ensures
            res == self.0,
    {
        self.0
    }

    pub fn set(&mut self, value: ActiveScreen)
        ensures
            final(self).0 == value,
    {
        self.0 = value;
    }

    pub fn is_login(&self) -> (res: bool)
        ensures
            res == (self.0 == ActiveScreen::Login),
    {
        self.get() == ActiveScreen::Login
    }

    pub fn is_register(&self) -> (res: bool)
        ensures
            res == (self.0 == ActiveScreen::Register),
    {
        self.get() == ActiveScreen::Register
    }

    /// One of the two sign-in screens is shown.
    pub fn is_auth(&self) -> (res: bool)
        ensures
            res == (self.0 == ActiveScreen::Login || self.0 == ActiveScreen::Register),
    {
        self.is_login() || self.is_register()
    }

    pub fn is_home(&self) -> (res: bool)
        ensures
            res == (self.0 == ActiveScreen::Home),
    {
        self.get() == ActiveScreen::Home
    }
}

/// Exactly one of the sign-in screen, the sign-up screen and the home
/// screen is shown, and the authentication screens are all but the home one.
pub proof fn law_one_screen_at_a_time(w: ScreenWrapper)
    ensures
        (w.0 == ActiveScreen::Login) as int + (w.0 == ActiveScreen::Register) as int + (w.0
            == ActiveScreen::Home) as int == 1,
        (w.0 == ActiveScreen::Login || w.0 == ActiveScreen::Register) == (w.0
            != ActiveScreen::Home),
{
}

/// Which form the sign-in card shows.
#[derive(Clone, Copy, PartialEq, Eq, Structural)]
pub struct LoginMode(pub bool);

impl LoginMode {
    pub fn is_login(&self) -> (res: bool)
        ensures
            res == self.0,
    {
        self.0
    }

    pub fn toggle(&mut self)
        ensures
            final(self).0 == !old(self).0,
    {
        self.0 = !self.0;
    }
}

/// Toggling the form twice brings back the form shown before.
pub proof fn law_toggle_twice(m: LoginMode)
    ensures
        LoginMode(!LoginMode(!m.0).0) == m,
{
}

/// The tabs above the sign-in card.
#[derive(Clone, Copy, PartialEq, Eq, Structural)]
pub enum AuthTab {
    Login,
    Register,
}

/// The sign-in and sign-up screens switch into each other; the home screen
/// stays.
pub open spec fn switched(s: ActiveScreen) -> ActiveScreen {
    match s {
        ActiveScreen::Login => ActiveScreen::Register,
        ActiveScreen::Register => ActiveScreen::Login,
        ActiveScreen::Home => ActiveScreen::Home,
    }
}

/// Switches between the sign-in and the sign-up form.
pub fn switch_form(current: ActiveScreen) -> (res: ActiveScreen)
    ensures
        res == switched(current),
{
    match current {
        ActiveScreen::Login => ActiveScreen::Register,
        ActiveScreen::Register => ActiveScreen::Login,
        ActiveScreen::Home => ActiveScreen::Home,
    }
}

/// A click on a tab switches the form only when the other form is shown.
pub fn select_auth_tab(current: ActiveScreen, tab: AuthTab) -> (res: ActiveScreen)
    ensures
        res == match tab {
            AuthTab::Login => if current == ActiveScreen::Register { switched(current) } else { current },
            AuthTab::Register => if current == ActiveScreen::Login { switched(current) } else { current },
        },
{
    match tab {
        AuthTab::Login => if current == ActiveScreen::Register { switch_form(current) } else { current },
        AuthTab::Register => if current == ActiveScreen::Login { switch_form(current) } else { current },
    }
}

/// Switching twice changes nothing.
pub proof fn law_switch_twice(s: ActiveScreen)
    ensures
        switched(switched(s)) == s,
{
}

/// On an authentication screen a tab always leads to its own form; on the
/// home screen the tabs change nothing.
pub proof fn law_tab_selects_its_form(s: ActiveScreen, tab: AuthTab)
    ensures
        s != ActiveScreen::Home ==> (match tab {
            AuthTab::Login => if s == ActiveScreen::Register { switched(s) } else { s },
            AuthTab::Register => if s == ActiveScreen::Login { switched(s) } else { s },
        }) == (match tab {
            AuthTab::Login => ActiveScreen::Login,
            AuthTab::Register => ActiveScreen::Register,
        }),
        s == ActiveScreen::Home ==> (match tab {
            AuthTab::Login => if s == ActiveScreen::Register { switched(s) } else { s },
            AuthTab::Register => if s == ActiveScreen::Login { switched(s) } else { s },
        }) == s,
{
}

/// The screen shown once the startup profile check answered: home when the
/// stored session is still valid, otherwise the screen stays as it was.
pub fn screen_after_profile_check(current: ActiveScreen, profile_loaded: bool) -> (res: ActiveScreen)
    ensures
        profile_loaded ==> res == ActiveScreen::Home,
        !profile_loaded ==> res == current,
{
    if profile_loaded { ActiveScreen::Home } else { current }
}

/// The screen after a sign-in attempt: home on success, unchanged on error.
pub fn screen_after_login(current: ActiveScreen, signed_in: bool) -> (res: ActiveScreen)
    ensures
        signed_in ==> res == ActiveScreen::Home,
        !signed_in ==> res == current,
{
    if signed_in { ActiveScreen::Home } else { current }
}

/// Signing out leads back to the sign-in form.
pub fn screen_after_logout() -> (res: ActiveScreen)
    ensures
        res == ActiveScreen::Login,
{
    ActiveScreen::Login
}

/// The tabs of the home screen on narrow windows.
#[derive(Clone, Copy, PartialEq, Eq, Structural, Debug)]
pub enum HomeTab {
    Chats,
    Dashboard,
}

impl HomeTab {
    /// The tab shown first.
    pub fn default_tab() -> (res: HomeTab)
        ensures
            res == HomeTab::Chats,
    {
        HomeTab::Chats
    }
}

} // verus!
