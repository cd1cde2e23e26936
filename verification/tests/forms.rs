use gilvave_ui::navigation::{
    screen_after_login, screen_after_logout, screen_after_profile_check, select_auth_tab, switch_form,
    ActiveScreen, AuthTab, HomeTab, LoginMode, ScreenWrapper,
};
use gilvave_ui::profile::{deafen_button, greeting, mic_button, user_tag, ProfileForm, UserProfile};
use gilvave_ui::styling::{class_name, classes, ClassRule};
use gilvave_ui::validation::{
    check_login, check_register_form, email_looks_valid, login_request, password_change_outcome,
    registration_errors, validate_registration, PasswordChange, RegisterData,
};

#[test]
fn login_needs_an_email_and_a_password() {
    let c = check_login("  ", "");
    assert!(c.email_error && c.password_error && !c.is_valid());
    let c = check_login(" a@b.c ", "x");
    assert!(!c.email_error && !c.password_error && c.is_valid());
    let c = check_login("a", " ");
    assert!(c.is_valid());
    let r = login_request(" a@b.c ", "secret").unwrap();
    assert_eq!(r.email, " a@b.c ");
    assert_eq!(r.password, "secret");
    assert!(login_request("", "secret").is_none());
}

#[test]
fn email_shape_of_the_sign_up_form() {
    assert!(email_looks_valid("a@b.c"));
    assert!(email_looks_valid("ivan.petrov@mail.example.ru"));
    assert!(email_looks_valid("a@b.c."));
    assert!(email_looks_valid("a@b..c"));
    assert!(!email_looks_valid("a@b"));
    assert!(!email_looks_valid("@b.c"));
    assert!(!email_looks_valid("a@.c"));
    assert!(!email_looks_valid("a@b."));
    assert!(!email_looks_valid("a@@b.c"));
    assert!(!email_looks_valid("a b@c.d"));
    assert!(!email_looks_valid("a@b.c\u{a0}"));
    assert!(!email_looks_valid("a@b.c\n"));
    assert!(!email_looks_valid(""));
}

#[test]
fn sign_up_form_with_terms() {
    let pw = "secret".to_string();
    let c = check_register_form(" Iv ", "iv@an.ru", &pw, &pw, true);
    assert!(c.is_valid());
    let c = check_register_form(" I ", "ivan", &"12345".to_string(), &"54321".to_string(), false);
    assert!(c.name_error && c.email_error && c.password_error && c.confirm_error && c.terms_missing);
    // Lengths count characters, whatever their size in bytes.
    let c = check_register_form("Я", "a@b.c", &"абвгд".to_string(), &"абвгд".to_string(), true);
    assert!(c.name_error && c.password_error && !c.is_valid());
    let c = check_register_form("Ян", "a@b.c", &"абвгде".to_string(), &"абвгде".to_string(), true);
    assert!(c.is_valid());
}

#[test]
fn sign_up_panel_field_errors() {
    let data = RegisterData {
        name: "Ислам".to_string(),
        email: "islam@example.com".to_string(),
        password: "пароль".to_string(),
        confirm_password: "пароль".to_string(),
    };
    assert!(validate_registration(&data).none());
    let bad = RegisterData {
        name: "И".to_string(),
        email: "islam".to_string(),
        password: "x".repeat(51),
        confirm_password: "y".to_string(),
    };
    let e = validate_registration(&bad);
    assert!(e.name && e.email && e.password && e.confirm_password);
    let e = registration_errors(&data, false);
    assert!(!e.name && e.email && !e.password && !e.confirm_password);
    let edge = RegisterData {
        name: "x".repeat(50),
        email: "".to_string(),
        password: "абвгде".to_string(),
        confirm_password: "абвгде".to_string(),
    };
    let e = validate_registration(&edge);
    assert!(!e.name && e.email && !e.password && !e.confirm_password);
}

#[test]
fn password_change() {
    let p = password_change_outcome(&"12345".to_string(), &"12345".to_string());
    assert!(matches!(p, PasswordChange::TooShort));
    assert_eq!(p.message(), "Пароль должен быть не менее 6 символов");
    let p = password_change_outcome(&"абвг".to_string(), &"абвг".to_string());
    assert!(matches!(p, PasswordChange::TooShort));
    let p = password_change_outcome(&"абвгде".to_string(), &"абвгде".to_string());
    assert!(matches!(p, PasswordChange::Updated));
    let p = password_change_outcome(&"123456".to_string(), &"123457".to_string());
    assert!(matches!(p, PasswordChange::Mismatch));
    assert_eq!(p.message(), "Пароли не совпадают");
    let p = password_change_outcome(&"123456".to_string(), &"123456".to_string());
    assert!(matches!(p, PasswordChange::Updated));
    assert_eq!(p.message(), "Пароль успешно обновлён!");
}

#[test]
fn screens_and_their_names() {
    for s in ActiveScreen::all() {
        assert_eq!(ActiveScreen::parse(s.as_str()), Some(s));
    }
    assert_eq!(ActiveScreen::all(), vec![ActiveScreen::Login, ActiveScreen::Register, ActiveScreen::Home]);
    assert_eq!(ActiveScreen::parse("login"), None);
    assert_eq!(ActiveScreen::parse("Home"), Some(ActiveScreen::Home));
    let mut w = ScreenWrapper(ActiveScreen::Login);
    assert!(w.is_login() && w.is_auth() && !w.is_home());
    w.set(ActiveScreen::Register);
    assert_eq!(w.get(), ActiveScreen::Register);
    assert!(w.is_register() && w.is_auth());
    w.set(ActiveScreen::Home);
    assert!(w.is_home() && !w.is_auth());
}

#[test]
fn switching_forms() {
    assert_eq!(switch_form(ActiveScreen::Login), ActiveScreen::Register);
    assert_eq!(switch_form(switch_form(ActiveScreen::Login)), ActiveScreen::Login);
    assert_eq!(switch_form(ActiveScreen::Home), ActiveScreen::Home);
    assert_eq!(select_auth_tab(ActiveScreen::Login, AuthTab::Login), ActiveScreen::Login);
    assert_eq!(select_auth_tab(ActiveScreen::Login, AuthTab::Register), ActiveScreen::Register);
    assert_eq!(select_auth_tab(ActiveScreen::Register, AuthTab::Login), ActiveScreen::Login);
    assert_eq!(select_auth_tab(ActiveScreen::Home, AuthTab::Register), ActiveScreen::Home);
    let mut m = LoginMode(true);
    m.toggle();
    assert!(!m.is_login());
    m.toggle();
    assert!(m.is_login());
    assert_eq!(screen_after_profile_check(ActiveScreen::Login, true), ActiveScreen::Home);
    assert_eq!(screen_after_profile_check(ActiveScreen::Register, false), ActiveScreen::Register);
    assert_eq!(screen_after_login(ActiveScreen::Login, false), ActiveScreen::Login);
    assert_eq!(screen_after_login(ActiveScreen::Login, true), ActiveScreen::Home);
    assert_eq!(screen_after_logout(), ActiveScreen::Login);
    assert_eq!(HomeTab::default_tab(), HomeTab::Chats);
}

#[test]
fn class_lists() {
    let rules = vec![
        ClassRule::from("server-browser-card"),
        ClassRule::from(("expanded", true)),
        ClassRule::from(("hidden", false)),
        ClassRule::Always(""),
        ClassRule::Ternary(false, "on", "off"),
        ClassRule::Ternary(true, "", "off"),
    ];
    assert_eq!(classes(&rules), "server-browser-card expanded off");
    assert_eq!(classes(&vec![]), "");
    assert_eq!(classes(&vec![ClassRule::Always(""), ClassRule::IfTrue("x", true)]), "x");
    assert_eq!(class_name("form-panel", true, "active", ""), "form-panel active");
    assert_eq!(class_name("form-panel", false, "active", ""), "form-panel ");
}

#[test]
fn profile_saving_and_labels() {
    let mut p = UserProfile::new();
    p.loaded("Ivan".to_string(), "i.png".to_string());
    let mut f = p.form();
    assert_eq!(f.name, "Ivan");
    f.name = "   ".to_string();
    f.bio = "about".to_string();
    p.save(&f);
    assert_eq!(p.username, "Ivan");
    assert_eq!(p.bio, "about");
    p.save(&ProfileForm { name: " Пётр ".to_string(), avatar: String::new(), banner: "b".to_string(), bio: String::new() });
    assert_eq!(p.username, " Пётр ");
    assert_eq!(p.avatar, "");
    p.toggle_mute();
    assert!(p.is_muted && !p.is_deafened);
    p.toggle_deafen();
    assert!(p.is_deafened);
    assert_eq!(user_tag("Ivan Petrov"), "@ivan petrov");
    assert_eq!(greeting(""), "Добро пожаловать в Gilvave! 👋");
    assert_eq!(greeting("Ivan"), "Добро пожаловать, Ivan! 👋");
    assert_eq!(mic_button(true).class, "footer-btn muted");
    assert_eq!(mic_button(false).title, "Отключить микрофон");
    assert_eq!(deafen_button(true).title, "Включить звук");
}
