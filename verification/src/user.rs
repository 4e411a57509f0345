//! Users, what they may do, and how the server decides it.

use vstd::prelude::*;

use crate::api::GlobalSettings;
use crate::text::same_text;

verus! {

/// A user account, or the visitor who is not logged in (id `-1`).
#[derive(Clone, Debug, PartialEq)]
pub struct User {
    pub id: i64,
    pub username: String,
}

impl Default for User {
    /// The visitor who is not logged in.
    fn default() -> (user: Self)
        ensures
            user.id == -1,
            user.username@ == Seq::<char>::empty(),
    {
        User { id: -1, username: String::new() }
    }
}

impl User {
    /// A user is authenticated once logged in, that is when it is not the visitor.
    pub fn is_authenticated(&self) -> (b: bool)
        ensures
            b == (self.id != -1),
    {
        self.id != -1
    }

    /// Every account is active.
    pub fn is_active(&self) -> (b: bool)
        ensures
            b,
    {
        true
    }

    /// The account that the session layer treats as anonymous: the one with id 1.
    pub fn is_anonymous(&self) -> (b: bool)
        ensures
            b == (self.id == 1),
    {
        self.id == 1
    }
}

/// What a user may do.
#[derive(Clone, Copy, Debug, PartialEq, Eq, Structural)]
pub struct Permissions {
    pub can_upload: bool,
    pub can_change_admin_settings: bool,
    pub can_delete_own_image: bool,
    pub can_delete_any_image: bool,
}

/// One of the things a user may be allowed to do.
#[derive(Clone, Copy, Debug, PartialEq, Eq, Structural)]
pub enum Permission {
    Upload,
    ChangeAdminSettings,
    DeleteOwnImage,
    DeleteAnyImage,
}

/// The permission a name stands for, if any.
pub open spec fn permission_named(name: Seq<char>) -> Option<Permission> {
    if name == "upload"@ {
        Some(Permission::Upload)
    } else if name == "change_admin_settings"@ {
        Some(Permission::ChangeAdminSettings)
    } else if name == "delete_own_image"@ {
        Some(Permission::DeleteOwnImage)
    } else if name == "delete_any_image"@ {
        Some(Permission::DeleteAnyImage)
    } else {
        None
    }
}

impl Permission {
    /// The permission a name stands for: `upload`, `change_admin_settings`,
    /// `delete_own_image` or `delete_any_image`.
    pub fn from_name(name: &str) -> (p: Option<Permission>)
        ensures
            p == permission_named(name@),
    {
        if same_text(name, "upload") {
            Some(Permission::Upload)
        } else if same_text(name, "change_admin_settings") {
            Some(Permission::ChangeAdminSettings)
        } else if same_text(name, "delete_own_image") {
            Some(Permission::DeleteOwnImage)
        } else if same_text(name, "delete_any_image") {
            Some(Permission::DeleteAnyImage)
        } else {
            None
        }
    }
}

/// The permissions of a visitor who is not logged in, under the given settings.
pub open spec fn visitor_permissions(settings: GlobalSettings) -> Permissions {
    Permissions {
        can_upload: settings.anyone_can_upload,
        can_change_admin_settings: false,
        can_delete_own_image: false,
        can_delete_any_image: settings.anyone_can_delete_any_image,
    }
}

impl Permissions {
    /// Whether these permissions grant `p`.
    pub open spec fn grants(self, p: Permission) -> bool {
        match p {
            Permission::Upload => self.can_upload,
            Permission::ChangeAdminSettings => self.can_change_admin_settings,
            Permission::DeleteOwnImage => self.can_delete_own_image,
            Permission::DeleteAnyImage => self.can_delete_any_image,
        }
    }

    /// Whether these permissions grant `p`.
    pub fn allows(&self, p: Permission) -> (b: bool)
        ensures
            b == self.grants(p),
    {
        match p {
            Permission::Upload => self.can_upload,
            Permission::ChangeAdminSettings => self.can_change_admin_settings,
            Permission::DeleteOwnImage => self.can_delete_own_image,
            Permission::DeleteAnyImage => self.can_delete_any_image,
        }
    }

    /// The permissions of a visitor who is not logged in. Nobody may change the
    /// admin settings this way, and without an account no image is one's own.
    pub fn default(settings: &GlobalSettings) -> (perms: Permissions)
        ensures
            perms == visitor_permissions(*settings),
    {
        Permissions {
            can_upload: settings.anyone_can_upload,
            can_change_admin_settings: false,
            can_delete_own_image: false,
            can_delete_any_image: settings.anyone_can_delete_any_image,
        }
    }
}

/// The four permission names, each naming its own permission, and no other
/// text naming one.
pub proof fn lemma_permission_names(name: Seq<char>)
    ensures
        permission_named("upload"@) == Some(Permission::Upload),
        permission_named("change_admin_settings"@) == Some(Permission::ChangeAdminSettings),
        permission_named("delete_own_image"@) == Some(Permission::DeleteOwnImage),
        permission_named("delete_any_image"@) == Some(Permission::DeleteAnyImage),
        permission_named(name) matches Some(p) ==> name == match p {
            Permission::Upload => "upload"@,
            Permission::ChangeAdminSettings => "change_admin_settings"@,
            Permission::DeleteOwnImage => "delete_own_image"@,
            Permission::DeleteAnyImage => "delete_any_image"@,
        },
{
    reveal_strlit("upload");
    reveal_strlit("change_admin_settings");
    reveal_strlit("delete_own_image");
    reveal_strlit("delete_any_image");
    assert("upload"@.len() == 6);
    assert("change_admin_settings"@.len() == 21);
    assert("delete_own_image"@.len() == 16);
    assert("delete_any_image"@.len() == 16);
    assert("delete_own_image"@[7] != "delete_any_image"@[7]);
}

/// Each permission is granted by its own flag.
pub proof fn lemma_grants_own_flag(perms: Permissions)
    ensures
        perms.grants(Permission::Upload) == perms.can_upload,
        perms.grants(Permission::ChangeAdminSettings) == perms.can_change_admin_settings,
        perms.grants(Permission::DeleteOwnImage) == perms.can_delete_own_image,
        perms.grants(Permission::DeleteAnyImage) == perms.can_delete_any_image,
{
}

/// What a visitor may do, flag by flag: upload as the settings allow, delete
/// any image as the settings allow, never change the admin settings, never
/// delete an image as its owner.
pub proof fn lemma_visitor_permissions(settings: GlobalSettings, perm: Seq<char>)
    ensures
        visitor_permissions(settings).can_upload == settings.anyone_can_upload,
        visitor_permissions(settings).can_delete_any_image == settings.anyone_can_delete_any_image,
        !visitor_permissions(settings).can_change_admin_settings,
        !visitor_permissions(settings).can_delete_own_image,
        default_perms_spec(perm, settings) == match permission_named(perm) {
            Some(Permission::Upload) => settings.anyone_can_upload,
            Some(Permission::DeleteAnyImage) => settings.anyone_can_delete_any_image,
            _ => false,
        },
{
}

/// Whether a visitor holds the permission named `perm`; unknown names grant nothing.
pub open spec fn default_perms_spec(perm: Seq<char>, settings: GlobalSettings) -> bool {
    match permission_named(perm) {
        Some(p) => visitor_permissions(settings).grants(p),
        None => false,
    }
}

/// Whether a visitor who is not logged in holds the permission named `perm`.
pub fn default_perms(perm: &str, settings: &GlobalSettings) -> (b: bool)
    ensures
        b == default_perms_spec(perm@, *settings),
{
    let permissions = Permissions::default(settings);
    match Permission::from_name(perm) {
        Some(p) => permissions.allows(p),
        None => false,
    }
}

} // verus!
