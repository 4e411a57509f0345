use riv::account::{
    check_login_details, create_account, login_outcome, registration_form_valid, AccountError,
};
use riv::api::{GlobalSettings, Image, ServerError};
use riv::editing::{SaveRequest, TagEditSession};
use riv::linking::{LinkAction, LinkEvent, LinkPhase, TagLinker};
use riv::pages::{
    check_image_content_type, image_route, plan_search, profile_page, profile_sections, ProfileError, search_route,
    search_terms, tags_route, SearchPlan,
};
use riv::permission::{PermissionEvent, PermissionQuery, PermissionStep};
use riv::settings::{
    apply_global_settings, get_global_settings, global_settings, set_global_settings,
    AccessError, SettingsStore,
};
use riv::tags::{tags_to_diff, TagSet};
use riv::text::{compare_text, same_text, TextOrder};
use riv::user::{default_perms, Permission, Permissions, User};
use riv::words::split_ascii_whitespace;

fn set_of(tags: &[&str]) -> TagSet {
    TagSet::from_vec(tags.iter().map(|t| t.to_string()).collect())
}

fn strings(tags: &[&str]) -> Vec<String> {
    tags.iter().map(|t| t.to_string()).collect()
}

fn user(id: i64) -> User {
    User { id, username: format!("user{}", id) }
}

fn settings(create: bool, delete_any: bool, upload: bool) -> GlobalSettings {
    GlobalSettings {
        create_unknown_tags: create,
        anyone_can_delete_any_image: delete_any,
        anyone_can_upload: upload,
    }
}

#[test]
fn default_settings_values() {
    let s = GlobalSettings::default();
    assert!(s.create_unknown_tags);
    assert!(!s.anyone_can_delete_any_image);
    assert!(s.anyone_can_upload);
}

#[test]
fn default_user_is_the_visitor() {
    let u = User::default();
    assert_eq!(u.id, -1);
    assert_eq!(u.username, "");
    assert!(!u.is_authenticated());
    assert!(u.is_active());
    assert!(!u.is_anonymous());
    assert!(user(5).is_authenticated());
    assert!(user(1).is_anonymous());
    assert!(!user(2).is_anonymous());
}

#[test]
fn server_error_messages() {
    assert_eq!(ServerError::CreateUnknownTag.message(), "Cannot create image with unknown tags");
    assert_eq!(ServerError::InvalidImageLink.message(), "Invalid image link");
    assert_eq!(ServerError::NotAnImage.message(), "Not an image");
    assert_eq!(ServerError::UsernameExists.message(), "Username already exists");
    assert_eq!(ServerError::FailedLogin.message(), "Invalid username or password");
    assert_eq!(
        ServerError::InvalidPerms.message(),
        "You don't have the permission to perform this action"
    );
    assert_eq!(ServerError::UnknownError.message(), "Unknown error");
}

#[test]
fn visitor_permissions_follow_settings() {
    let p = Permissions::default(&settings(true, true, false));
    assert_eq!(
        p,
        Permissions {
            can_upload: false,
            can_change_admin_settings: false,
            can_delete_own_image: false,
            can_delete_any_image: true,
        }
    );
    assert!(p.allows(Permission::DeleteAnyImage));
    assert!(!p.allows(Permission::Upload));
}

#[test]
fn default_perms_by_name() {
    let s = GlobalSettings::default();
    assert!(default_perms("upload", &s));
    assert!(!default_perms("change_admin_settings", &s));
    assert!(!default_perms("delete_own_image", &s));
    assert!(!default_perms("delete_any_image", &s));
    assert!(!default_perms("fly", &s));
    assert!(!default_perms("Upload", &s));
    assert!(default_perms("delete_any_image", &settings(true, true, true)));
    assert_eq!(Permission::from_name("change_admin_settings"), Some(Permission::ChangeAdminSettings));
    assert_eq!(Permission::from_name(""), None);
}

#[test]
fn permission_check_for_the_visitor_needs_no_database() {
    let s = GlobalSettings::default();
    let visitor = User::default();
    assert_eq!(
        visitor.permission_step("upload", &s, PermissionEvent::Begin),
        PermissionStep::Decided(true)
    );
    assert_eq!(
        visitor.permission_step("change_admin_settings", &s, PermissionEvent::Begin),
        PermissionStep::Decided(false)
    );
}

#[test]
fn permission_check_through_a_role() {
    let s = GlobalSettings::default();
    let u = user(7);
    assert_eq!(
        u.permission_step("delete_any_image", &s, PermissionEvent::Begin),
        PermissionStep::Ask(PermissionQuery::RoleOf { user_id: 7 })
    );
    assert_eq!(
        u.permission_step("delete_any_image", &s, PermissionEvent::RoleLoaded(Some(3))),
        PermissionStep::Ask(PermissionQuery::RoleGrants {
            role_id: 3,
            permission: Permission::DeleteAnyImage
        })
    );
    assert_eq!(
        u.permission_step("delete_any_image", &s, PermissionEvent::GrantLoaded(true)),
        PermissionStep::Decided(true)
    );
    assert_eq!(
        u.permission_step("delete_any_image", &s, PermissionEvent::GrantLoaded(false)),
        PermissionStep::Decided(false)
    );
}

#[test]
fn permission_check_failures_and_unknown_names_deny() {
    let s = settings(true, true, true);
    let u = user(7);
    assert_eq!(
        u.permission_step("upload", &s, PermissionEvent::RoleLookupFailed),
        PermissionStep::Decided(false)
    );
    assert_eq!(
        u.permission_step("upload", &s, PermissionEvent::GrantLookupFailed),
        PermissionStep::Decided(false)
    );
    assert_eq!(
        u.permission_step("paint", &s, PermissionEvent::RoleLoaded(Some(1))),
        PermissionStep::Decided(false)
    );
    // a user without a role has the visitor permissions
    assert_eq!(
        u.permission_step("upload", &s, PermissionEvent::RoleLoaded(None)),
        PermissionStep::Decided(true)
    );
    assert_eq!(
        u.permission_step("delete_own_image", &s, PermissionEvent::RoleLoaded(None)),
        PermissionStep::Decided(false)
    );
}

#[test]
fn settings_read_gives_last_write() {
    let mut store = SettingsStore::load(None);
    assert_eq!(global_settings(&store), GlobalSettings::default());
    let first = settings(false, true, false);
    let second = settings(true, true, false);
    set_global_settings(&mut store, first);
    assert_eq!(global_settings(&store), first);
    set_global_settings(&mut store, second);
    assert_eq!(global_settings(&store), second);
    let loaded = SettingsStore::load(Some(first));
    assert_eq!(global_settings(&loaded), first);
}

#[test]
fn admin_settings_need_the_admin_permission() {
    let mut store = SettingsStore::load(None);
    let admin = Permissions {
        can_upload: true,
        can_change_admin_settings: true,
        can_delete_own_image: true,
        can_delete_any_image: true,
    };
    let plain = Permissions { can_change_admin_settings: false, ..admin };
    let wanted = settings(false, false, false);
    assert_eq!(get_global_settings(&store, None), Err(AccessError::Forbidden));
    assert_eq!(get_global_settings(&store, Some(plain)), Err(AccessError::Forbidden));
    assert_eq!(apply_global_settings(&mut store, Some(plain), wanted), Err(AccessError::Forbidden));
    assert_eq!(apply_global_settings(&mut store, None, wanted), Err(AccessError::Forbidden));
    assert_eq!(global_settings(&store), GlobalSettings::default());
    assert_eq!(apply_global_settings(&mut store, Some(admin), wanted), Ok(()));
    assert_eq!(get_global_settings(&store, Some(admin)), Ok(wanted));
}

#[test]
fn created_account_logs_in_with_its_password() {
    let hash = create_account("hunter2", Some(false)).unwrap();
    assert_eq!(hash.len(), 60);
    assert!(hash.starts_with("$2b$12$"));
    assert_eq!(check_login_details(Some((42, hash.as_str())), "hunter2").unwrap(), 42);
    match check_login_details(Some((42, hash.as_str())), "hunter3") {
        Err(AccountError::Server(ServerError::FailedLogin)) => {}
        other => panic!("unexpected {:?}", other),
    }
}

#[test]
fn create_account_refusals() {
    match create_account("pw", Some(true)) {
        Err(AccountError::Server(ServerError::UsernameExists)) => {}
        other => panic!("unexpected {:?}", other),
    }
    match create_account("pw", None) {
        Err(AccountError::Server(ServerError::UnknownError)) => {}
        other => panic!("unexpected {:?}", other),
    }
}

#[test]
fn login_against_a_known_hash() {
    // a hash of "password" made by another bcrypt implementation
    let known = "$2a$04$UuTkLRZZ6QofpDOlMz32MuuxEHA43WOemOYHPz6.SjsVsyO1tDU96";
    assert_eq!(check_login_details(Some((3, known)), "password").unwrap(), 3);
    assert!(matches!(
        check_login_details(Some((3, known)), "passw0rd"),
        Err(AccountError::Server(ServerError::FailedLogin))
    ));
    assert!(matches!(
        check_login_details(Some((3, "not a hash")), "password"),
        Err(AccountError::Hashing(_))
    ));
}

#[test]
fn unknown_name_is_refused_like_a_wrong_password() {
    assert!(matches!(
        check_login_details(None, "anything"),
        Err(AccountError::Server(ServerError::FailedLogin))
    ));
}

#[test]
fn login_outcome_cases() {
    assert_eq!(login_outcome(9, Ok(true)).unwrap(), 9);
    assert!(matches!(
        login_outcome(9, Ok(false)),
        Err(AccountError::Server(ServerError::FailedLogin))
    ));
}

#[test]
fn registration_form_checks() {
    assert!(registration_form_valid("ann", "abc", "abc"));
    assert!(!registration_form_valid("", "abc", "abc"));
    assert!(!registration_form_valid("ann", "abc", "abd"));
    assert!(!registration_form_valid("ann", "ab", "ab"));
    // the length is counted in bytes: two characters, three bytes
    assert!(registration_form_valid("ann", "aé", "aé"));
}

#[test]
fn text_order_is_byte_order() {
    assert_eq!(compare_text("a", "b"), TextOrder::Less);
    assert_eq!(compare_text("B", "a"), TextOrder::Less);
    assert_eq!(compare_text("ab", "a"), TextOrder::Greater);
    assert_eq!(compare_text("é", "z"), TextOrder::Greater);
    assert_eq!(compare_text("same", "same"), TextOrder::Equal);
    assert!(same_text("x", "x"));
    assert!(!same_text("x", "y"));
}

#[test]
fn tag_set_keeps_order_and_no_duplicates() {
    let mut s = set_of(&["cat", "Dog", "bird", "cat"]);
    assert_eq!(s.to_vec(), strings(&["Dog", "bird", "cat"]));
    assert!(s.contains("bird"));
    assert!(!s.contains("fish"));
    assert!(s.insert("ant".to_string()));
    assert!(!s.insert("cat".to_string()));
    assert_eq!(s.len(), 4);
    assert!(s.remove("bird"));
    assert!(!s.remove("bird"));
    assert_eq!(s.as_vec(), &strings(&["Dog", "ant", "cat"]));
}

#[test]
fn tag_editor_adds_words() {
    let mut s = set_of(&["b"]);
    s.extend_from_input("  c a\tb\n\x0cd\r ");
    assert_eq!(s.to_vec(), strings(&["a", "b", "c", "d"]));
    s.extend_from_input("");
    assert_eq!(s.len(), 4);
}

#[test]
fn split_at_ascii_whitespace() {
    assert_eq!(split_ascii_whitespace("  one two\tthree\n"), strings(&["one", "two", "three"]));
    assert_eq!(split_ascii_whitespace(""), Vec::<String>::new());
    assert_eq!(split_ascii_whitespace(" \t "), Vec::<String>::new());
    // vertical tab and non-breaking space are not ASCII whitespace here
    assert_eq!(split_ascii_whitespace("a\x0bb c\u{a0}d"), strings(&["a\x0bb", "c\u{a0}d"]));
    assert_eq!(split_ascii_whitespace("héllo wörld"), strings(&["héllo", "wörld"]));
}

#[test]
fn tags_diff() {
    let new = set_of(&["a", "b", "d"]);
    let old = set_of(&["b", "c"]);
    let (added, removed) = tags_to_diff(new.duplicate(), old.duplicate());
    assert_eq!(added.to_vec(), strings(&["a", "d"]));
    assert_eq!(removed.to_vec(), strings(&["c"]));
    // diffing the change once more, as the server does, gives it back
    let (again_added, again_removed) = tags_to_diff(added.duplicate(), removed.duplicate());
    assert!(again_added.same_tags(&added));
    assert!(again_removed.same_tags(&removed));
    // an unchanged list sends nothing
    let (none_added, none_removed) = tags_to_diff(old.duplicate(), old.duplicate());
    assert_eq!(none_added.len(), 0);
    assert_eq!(none_removed.len(), 0);
}

#[test]
fn same_tags_compares_sets() {
    assert!(set_of(&["x", "y"]).same_tags(&set_of(&["y", "x", "y"])));
    assert!(!set_of(&["x"]).same_tags(&set_of(&["x", "y"])));
    assert!(!set_of(&["x", "z"]).same_tags(&set_of(&["x", "y"])));
}

fn run_linker(
    tags: &[&str],
    create: bool,
    known: &[(&str, i64)],
) -> (Vec<String>, Result<(), ServerError>) {
    let set = set_of(tags);
    let mut linker = TagLinker::new(10, &set, create);
    let mut log = Vec::new();
    let mut next_id = 100;
    let mut action = linker.step(LinkEvent::Start);
    loop {
        match action {
            LinkAction::LookUp(tag) => {
                log.push(format!("lookup {}", tag));
                let found = known.iter().find(|(t, _)| *t == tag).map(|(_, id)| *id);
                action = linker.step(LinkEvent::Found(found));
            }
            LinkAction::Create(tag) => {
                next_id += 1;
                log.push(format!("create {} as {}", tag, next_id));
                action = linker.step(LinkEvent::Created(next_id));
            }
            LinkAction::Link { image_id, tag_id } => {
                log.push(format!("link {} {}", image_id, tag_id));
                action = linker.step(LinkEvent::Linked);
            }
            LinkAction::Commit => {
                log.push("commit".to_string());
                return (log, Ok(()));
            }
            LinkAction::Rollback(e) => {
                log.push("rollback".to_string());
                return (log, Err(e));
            }
        }
    }
}

#[test]
fn linking_known_and_new_tags() {
    let (log, res) = run_linker(&["sky", "cat"], true, &[("sky", 5)]);
    assert_eq!(res, Ok(()));
    assert_eq!(
        log,
        strings(&[
            "lookup cat",
            "create cat as 101",
            "link 10 101",
            "lookup sky",
            "link 10 5",
            "commit"
        ])
    );
}

#[test]
fn linking_unknown_tag_without_creation_rolls_back() {
    let (log, res) = run_linker(&["a", "b"], false, &[("a", 1)]);
    assert_eq!(res, Err(ServerError::CreateUnknownTag));
    assert_eq!(log, strings(&["lookup a", "link 10 1", "lookup b", "rollback"]));
}

#[test]
fn linking_nothing_commits_at_once() {
    let set = TagSet::new();
    let mut linker = TagLinker::new(1, &set, false);
    assert!(linker.expects(LinkEvent::Start));
    assert!(matches!(linker.step(LinkEvent::Start), LinkAction::Commit));
    assert!(!linker.expects(LinkEvent::Linked));
    let _ = LinkPhase::Committed;
}

#[test]
fn edit_session_flow() {
    let mut session = TagEditSession::new(strings(&["b", "a"]));
    assert!(!session.is_editing());
    session.toggle_edit();
    assert!(session.is_editing());
    // saving an unchanged draft just ends editing
    assert!(matches!(session.save(), SaveRequest::Unchanged));
    assert!(!session.is_editing());
    session.toggle_edit();
    session.add_from_input("c d");
    session.remove_from_draft("a");
    match session.save() {
        SaveRequest::Send { added, removed } => {
            assert_eq!(added.to_vec(), strings(&["c", "d"]));
            assert_eq!(removed.to_vec(), strings(&["a"]));
        }
        SaveRequest::Unchanged => panic!("the draft changed"),
    }
    assert!(session.is_editing());
    assert_eq!(session.saved_tags().to_vec(), strings(&["a", "b"]));
    session.confirm_saved();
    assert!(!session.is_editing());
    assert_eq!(session.saved_tags().to_vec(), strings(&["b", "c", "d"]));
    assert_eq!(session.draft_tags().to_vec(), strings(&["b", "c", "d"]));
}

#[test]
fn routes() {
    assert_eq!(image_route(42), "/img/42");
    assert_eq!(image_route(0), "/img/0");
    assert_eq!(image_route(-7), "/img/-7");
    assert_eq!(image_route(i64::MAX), format!("/img/{}", i64::MAX));
    assert_eq!(image_route(i64::MIN), format!("/img/{}", i64::MIN));
    assert_eq!(tags_route("cat dog"), "/search?tags=cat dog");
    assert_eq!(search_route(""), "/search");
    assert_eq!(search_route("cat"), "/search?tags=cat");
}

#[test]
fn preview_source_prefers_preview() {
    let with = Image { id: 1, link: "full".to_string(), preview_link: Some("small".to_string()) };
    let without = Image { id: 2, link: "full".to_string(), preview_link: None };
    assert_eq!(with.preview_source(), "small");
    assert_eq!(without.preview_source(), "full");
}

#[test]
fn searching() {
    assert_eq!(search_terms(Some(" cat  dog ")), strings(&["cat", "dog"]));
    assert_eq!(search_terms(None), Vec::<String>::new());
    assert!(matches!(plan_search(vec![]), SearchPlan::All));
    match plan_search(strings(&["cat", "cat"])) {
        SearchPlan::ByTags(t) => assert_eq!(t, strings(&["cat", "cat"])),
        SearchPlan::All => panic!("terms were given"),
    }
}

#[test]
fn upload_content_type() {
    assert_eq!(check_image_content_type(Some("image/png")), Ok(()));
    assert_eq!(check_image_content_type(Some("image")), Ok(()));
    assert_eq!(check_image_content_type(Some("imag")), Err(ServerError::NotAnImage));
    assert_eq!(check_image_content_type(Some("text/html")), Err(ServerError::NotAnImage));
    assert_eq!(check_image_content_type(Some("Image/png")), Err(ServerError::NotAnImage));
    assert_eq!(check_image_content_type(None), Err(ServerError::NotAnImage));
}

#[test]
fn profile_page_sections() {
    let me = user(3);
    let other = user(4);
    let admin = Permissions {
        can_upload: true,
        can_change_admin_settings: true,
        can_delete_own_image: true,
        can_delete_any_image: true,
    };
    let s = profile_sections(Some(&me), &admin, &me);
    assert!(s.account_settings && s.admin_panel);
    let s = profile_sections(Some(&me), &admin, &other);
    assert!(!s.account_settings && !s.admin_panel);
    let s = profile_sections(None, &admin, &me);
    assert!(!s.account_settings && !s.admin_panel);
    let plain = Permissions { can_change_admin_settings: false, ..admin };
    let s = profile_sections(Some(&me), &plain, &me);
    assert!(s.account_settings && !s.admin_panel);
}

#[test]
fn profile_page_of_missing_user_is_not_found() {
    let me = user(3);
    let perms = Permissions::default(&GlobalSettings::default());
    assert_eq!(profile_page(None, Some(&me), &perms), Err(ProfileError::NotFound));
    let shown = profile_page(Some(&me), Some(&me), &perms).unwrap();
    assert!(shown.account_settings && !shown.admin_panel);
    let shown = profile_page(Some(&me), None, &perms).unwrap();
    assert!(!shown.account_settings && !shown.admin_panel);
}
