//! How the server decides whether a user holds a permission.
//!
//! The decision needs up to two database reads: the user's role, then the
//! role's flag for the permission. The database is driven from outside; this
//! module says, for each answer, what to ask next or what the decision is.

use vstd::prelude::*;

use crate::api::GlobalSettings;
use crate::user::{
    default_perms, default_perms_spec, permission_named, Permission, User,
};

verus! {

/// A question the decision needs the database to answer.
#[derive(Clone, Copy, Debug, PartialEq, Eq, Structural)]
pub enum PermissionQuery {
    /// The role of the user with this id (a user may have none).
    RoleOf { user_id: i64 },
    /// Whether the role with this id grants the permission.
    RoleGrants { role_id: i64, permission: Permission },
}

/// What the decision needs next.
#[derive(Clone, Copy, Debug, PartialEq, Eq, Structural)]
pub enum PermissionStep {
    /// The decision is made.
    Decided(bool),
    /// The database must answer this first.
    Ask(PermissionQuery),
}

/// What happened since the last step.
#[derive(Clone, Copy, Debug, PartialEq, Eq, Structural)]
pub enum PermissionEvent {
    /// The check starts.
    Begin,
    /// The user's role was read: its id, or none.
    RoleLoaded(Option<i64>),
    /// Reading the user's role failed.
    RoleLookupFailed,
    /// The role's flag for the permission was read.
    GrantLoaded(bool),
    /// Reading the role's flag failed.
    GrantLookupFailed,
}

/// The step that follows `event` when user `user_id` asks for the permission
/// named `perm`.
pub open spec fn permission_step_spec(
    user_id: i64,
    perm: Seq<char>,
    settings: GlobalSettings,
    event: PermissionEvent,
) -> PermissionStep {
    match event {
        PermissionEvent::Begin => if user_id == -1 {
            PermissionStep::Decided(default_perms_spec(perm, settings))
        } else {
            PermissionStep::Ask(PermissionQuery::RoleOf { user_id })
        },
        PermissionEvent::RoleLoaded(Some(role_id)) => match permission_named(perm) {
            Some(permission) => PermissionStep::Ask(
                PermissionQuery::RoleGrants { role_id, permission },
            ),
            None => PermissionStep::Decided(false),
        },
        PermissionEvent::RoleLoaded(None) => PermissionStep::Decided(
            default_perms_spec(perm, settings),
        ),
        PermissionEvent::RoleLookupFailed => PermissionStep::Decided(false),
        PermissionEvent::GrantLoaded(granted) => PermissionStep::Decided(granted),
        PermissionEvent::GrantLookupFailed => PermissionStep::Decided(false),
    }
}

impl User {
    /// One step of deciding whether this user holds the permission named `perm`.
    ///
    /// The visitor (id `-1`) is decided at once from the visitor permissions. A
    /// user's role is read first; a user without a role has the visitor
    /// permissions; a role's flag decides for a user with one. A failed read
    /// and an unknown permission name decide `false`.
    pub fn permission_step(
        &self,
        perm: &str,
        settings: &GlobalSettings,
        event: PermissionEvent,
    ) -> (step: PermissionStep)
        ensures
            step == permission_step_spec(self.id, perm@, *settings, event),
            event == PermissionEvent::Begin && self.id != -1 ==> step == PermissionStep::Ask(
                PermissionQuery::RoleOf { user_id: self.id },
            ),
            event == PermissionEvent::Begin && self.id == -1 ==> step == PermissionStep::Decided(
                default_perms_spec(perm@, *settings),
            ),
            event matches PermissionEvent::RoleLoaded(Some(role_id)) ==> match permission_named(
                perm@,
            ) {
                Some(permission) => step == PermissionStep::Ask(
                    PermissionQuery::RoleGrants { role_id, permission },
                ),
                None => step == PermissionStep::Decided(false),
            },
            event == PermissionEvent::RoleLoaded(None) ==> step == PermissionStep::Decided(
                default_perms_spec(perm@, *settings),
            ),
            event == PermissionEvent::RoleLookupFailed ==> step == PermissionStep::Decided(false),
            event == PermissionEvent::GrantLookupFailed ==> step == PermissionStep::Decided(false),
            event matches PermissionEvent::GrantLoaded(granted) ==> step == PermissionStep::Decided(
                granted,
            ),
    {
        match event {
            PermissionEvent::Begin => {
                if self.id == -1 {
                    PermissionStep::Decided(default_perms(perm, settings))
                } else {
                    PermissionStep::Ask(PermissionQuery::RoleOf { user_id: self.id })
                }
            },
            PermissionEvent::RoleLoaded(Some(role_id)) => match Permission::from_name(perm) {
                Some(permission) => PermissionStep::Ask(
                    PermissionQuery::RoleGrants { role_id, permission },
                ),
                None => PermissionStep::Decided(false),
            },
            PermissionEvent::RoleLoaded(None) => PermissionStep::Decided(
                default_perms(perm, settings),
            ),
            PermissionEvent::RoleLookupFailed => PermissionStep::Decided(false),
            PermissionEvent::GrantLoaded(granted) => PermissionStep::Decided(granted),
            PermissionEvent::GrantLookupFailed => PermissionStep::Decided(false),
        }
    }
}

/// The event that reports an answer to the role query: `None` when the read failed.
pub open spec fn role_event(role: Option<Option<i64>>) -> PermissionEvent {
    match role {
        Some(r) => PermissionEvent::RoleLoaded(r),
        None => PermissionEvent::RoleLookupFailed,
    }
}

/// The event that reports an answer to the flag query: `None` when the read failed.
pub open spec fn grant_event(grant: Option<bool>) -> PermissionEvent {
    match grant {
        Some(g) => PermissionEvent::GrantLoaded(g),
        None => PermissionEvent::GrantLookupFailed,
    }
}

/// The decision reached by driving the steps from `Begin`, when the database
/// answers the role query with `role` and the flag query with `grant`
/// (`None` for a failed read).
pub open spec fn permission_decision(
    user_id: i64,
    perm: Seq<char>,
    settings: GlobalSettings,
    role: Option<Option<i64>>,
    grant: Option<bool>,
) -> bool {
    match permission_step_spec(user_id, perm, settings, PermissionEvent::Begin) {
        PermissionStep::Decided(b) => b,
        PermissionStep::Ask(_) => match permission_step_spec(
            user_id,
            perm,
            settings,
            role_event(role),
        ) {
            PermissionStep::Decided(b) => b,
            PermissionStep::Ask(_) => match permission_step_spec(
                user_id,
                perm,
                settings,
                grant_event(grant),
            ) {
                PermissionStep::Decided(b) => b,
                PermissionStep::Ask(_) => false,
            },
        },
    }
}

/// Every run of the check ends after at most three steps: the first step asks
/// at most for the role, the second at most for the role's flag, the third decides.
pub proof fn lemma_permission_check_terminates(
    user_id: i64,
    perm: Seq<char>,
    settings: GlobalSettings,
    role: Option<Option<i64>>,
    grant: Option<bool>,
)
    ensures
        permission_step_spec(user_id, perm, settings, PermissionEvent::Begin) is Ask ==>
            permission_step_spec(user_id, perm, settings, PermissionEvent::Begin)
                == PermissionStep::Ask(PermissionQuery::RoleOf { user_id }),
        permission_step_spec(user_id, perm, settings, role_event(role)) is Ask ==>
            permission_step_spec(user_id, perm, settings, role_event(role))->Ask_0
                is RoleGrants,
        permission_step_spec(user_id, perm, settings, grant_event(grant)) is Decided,
{
}

/// A permission name the server does not know is never granted, whatever the
/// database answers.
pub proof fn lemma_unknown_permission_denied(
    user_id: i64,
    perm: Seq<char>,
    settings: GlobalSettings,
    role: Option<Option<i64>>,
    grant: Option<bool>,
)
    requires
        permission_named(perm) is None,
    ensures
        !permission_decision(user_id, perm, settings, role, grant),
{
}

/// A failed database read never grants a permission.
pub proof fn lemma_failed_lookup_denied(
    user_id: i64,
    perm: Seq<char>,
    settings: GlobalSettings,
    grant: Option<bool>,
)
    requires
        user_id != -1,
    ensures
        !permission_decision(user_id, perm, settings, None, grant),
        permission_named(perm) is Some ==> forall|role_id: i64|
            !permission_decision(user_id, perm, settings, Some(Some(role_id)), None),
{
}

/// The visitor who is not logged in gets the visitor permissions without any
/// database read, and so does a user without a role.
pub proof fn lemma_visitor_and_roleless_get_defaults(
    user_id: i64,
    perm: Seq<char>,
    settings: GlobalSettings,
    role: Option<Option<i64>>,
    grant: Option<bool>,
)
    ensures
        permission_step_spec(-1i64, perm, settings, PermissionEvent::Begin)
            == PermissionStep::Decided(default_perms_spec(perm, settings)),
        permission_decision(-1i64, perm, settings, role, grant) == default_perms_spec(perm, settings),
        user_id != -1 ==> permission_decision(user_id, perm, settings, Some(None), grant)
            == default_perms_spec(perm, settings),
{
}

/// Once a user's role is known, the flag read is the flag of the very
/// permission asked for, of that role; an unknown name reads no flag.
pub proof fn lemma_role_step_reads_asked_flag(
    user_id: i64,
    perm: Seq<char>,
    settings: GlobalSettings,
    role_id: i64,
)
    ensures
        permission_named(perm) matches Some(p) ==> permission_step_spec(
            user_id,
            perm,
            settings,
            PermissionEvent::RoleLoaded(Some(role_id)),
        ) == PermissionStep::Ask(PermissionQuery::RoleGrants { role_id, permission: p }),
        permission_named(perm) is None ==> permission_step_spec(
            user_id,
            perm,
            settings,
            PermissionEvent::RoleLoaded(Some(role_id)),
        ) == PermissionStep::Decided(false),
{
}

/// Each step in plain terms: a logged-in user's check starts by asking for the
/// user's own role; the visitor, and a user without a role, are decided by the
/// visitor permissions; a loaded flag decides as it says; a failed read denies.
pub proof fn lemma_permission_steps(
    user_id: i64,
    perm: Seq<char>,
    settings: GlobalSettings,
    granted: bool,
)
    ensures
        user_id != -1 ==> permission_step_spec(user_id, perm, settings, PermissionEvent::Begin)
            == PermissionStep::Ask(PermissionQuery::RoleOf { user_id }),
        permission_step_spec(-1i64, perm, settings, PermissionEvent::Begin)
            == PermissionStep::Decided(default_perms_spec(perm, settings)),
        permission_step_spec(user_id, perm, settings, PermissionEvent::RoleLoaded(None))
            == PermissionStep::Decided(default_perms_spec(perm, settings)),
        permission_step_spec(user_id, perm, settings, PermissionEvent::RoleLookupFailed)
            == PermissionStep::Decided(false),
        permission_step_spec(user_id, perm, settings, PermissionEvent::GrantLookupFailed)
            == PermissionStep::Decided(false),
        permission_step_spec(user_id, perm, settings, PermissionEvent::GrantLoaded(granted))
            == PermissionStep::Decided(granted),
{
}

/// A user with a role holds a known permission exactly when the role's flag says so.
pub proof fn lemma_role_flag_decides(
    user_id: i64,
    perm: Seq<char>,
    settings: GlobalSettings,
    role_id: i64,
    granted: bool,
)
    requires
        user_id != -1,
        permission_named(perm) is Some,
    ensures
        permission_decision(user_id, perm, settings, Some(Some(role_id)), Some(granted))
            == granted,
{
}

/// Nobody who is not logged in, nor any user without a role, may change the
/// admin settings.
pub proof fn lemma_admin_settings_need_a_role(
    user_id: i64,
    settings: GlobalSettings,
    grant: Option<bool>,
)
    ensures
        !permission_decision(-1i64, "change_admin_settings"@, settings, Some(None), grant),
        !permission_decision(user_id, "change_admin_settings"@, settings, Some(None), grant),
{
    reveal_strlit("upload");
    reveal_strlit("change_admin_settings");
    assert("upload"@ != "change_admin_settings"@) by {
        assert("upload"@.len() != "change_admin_settings"@.len());
    }
    assert(permission_named("change_admin_settings"@) == Some(Permission::ChangeAdminSettings));
}

} // verus!
