//! The site-wide settings the server runs with, and who may change them.

use vstd::prelude::*;

use crate::api::{default_settings, GlobalSettings};
use crate::user::{visitor_permissions, Permissions};

verus! {

/// The settings the server currently runs with.
///
/// The server keeps one store for its whole life; it is created from the
/// configuration file when that file holds valid settings.
pub struct SettingsStore {
    current: GlobalSettings,
}

impl View for SettingsStore {
    type V = GlobalSettings;

    closed spec fn view(&self) -> GlobalSettings {
        self.current
    }
}

impl SettingsStore {
    /// The store at start-up: the settings read from the configuration file, or
    /// the default settings when the file was missing or did not hold valid settings.
    pub fn load(saved: Option<GlobalSettings>) -> (store: SettingsStore)
        ensures
            store@ == match saved {
                Some(s) => s,
                None => default_settings(),
            },
    {
        match saved {
            Some(s) => SettingsStore { current: s },
            None => SettingsStore { current: GlobalSettings::default() },
        }
    }
}

/// What a read of a store holding `current` gives.
pub open spec fn read_settings(current: GlobalSettings) -> GlobalSettings {
    current
}

/// What a store holding `current` holds once `new_settings` is written.
pub open spec fn write_settings(
    current: GlobalSettings,
    new_settings: GlobalSettings,
) -> GlobalSettings {
    new_settings
}

/// The settings in force.
pub fn global_settings(store: &SettingsStore) -> (settings: GlobalSettings)
    ensures
        settings == read_settings(store@),
        settings == store@,
{
    store.current
}

/// Puts new settings in force.
pub fn set_global_settings(store: &mut SettingsStore, new_settings: GlobalSettings)
    ensures
        final(store)@ == write_settings(old(store)@, new_settings),
        final(store)@ == new_settings,
{
    store.current = new_settings;
}

/// A read gives exactly the settings held, field by field, and a write holds
/// exactly the settings written, whatever was held before.
pub proof fn lemma_read_and_write_are_exact(current: GlobalSettings, new_settings: GlobalSettings)
    ensures
        read_settings(current) == current,
        read_settings(current).create_unknown_tags == current.create_unknown_tags,
        read_settings(current).anyone_can_upload == current.anyone_can_upload,
        read_settings(current).anyone_can_delete_any_image == current.anyone_can_delete_any_image,
        write_settings(current, new_settings) == new_settings,
        write_settings(current, new_settings).create_unknown_tags == new_settings.create_unknown_tags,
        write_settings(current, new_settings).anyone_can_upload == new_settings.anyone_can_upload,
{
}

/// A read gives back the last settings written; a second write leaves nothing
/// of the first; writing back what was read changes nothing.
pub proof fn lemma_read_gives_last_write(
    current: GlobalSettings,
    first: GlobalSettings,
    second: GlobalSettings,
)
    ensures
        read_settings(write_settings(current, first)) == first,
        write_settings(write_settings(current, first), second) == write_settings(current, second),
        write_settings(current, read_settings(current)) == current,
{
}

/// Why a request about the admin settings was refused.
#[derive(Clone, Copy, Debug, PartialEq, Eq, Structural)]
pub enum AccessError {
    /// The requester may not change the admin settings.
    Forbidden,
}

/// The permissions a request is judged by: the requester's own, or the visitor
/// permissions when the requester has none on record.
pub open spec fn effective_permissions(
    perms: Option<Permissions>,
    settings: GlobalSettings,
) -> Permissions {
    match perms {
        Some(p) => p,
        None => visitor_permissions(settings),
    }
}

/// Whether a requester with these permissions may see and change the admin settings.
pub open spec fn may_administer(perms: Option<Permissions>, settings: GlobalSettings) -> bool {
    effective_permissions(perms, settings).can_change_admin_settings
}

fn admin_allowed(store: &SettingsStore, perms: Option<Permissions>) -> (ok: bool)
    ensures
        ok == may_administer(perms, store@),
{
    let effective = match perms {
        Some(p) => p,
        None => Permissions::default(&store.current),
    };
    effective.can_change_admin_settings
}

/// The settings in force, for a requester allowed to change them.
pub fn get_global_settings(store: &SettingsStore, perms: Option<Permissions>) -> (res: Result<
    GlobalSettings,
    AccessError,
>)
    ensures
        may_administer(perms, store@) ==> res == Ok::<GlobalSettings, AccessError>(store@),
        !may_administer(perms, store@) ==> res == Err::<GlobalSettings, AccessError>(
            AccessError::Forbidden,
        ),
{
    if !admin_allowed(store, perms) {
        return Err(AccessError::Forbidden);
    }
    Ok(global_settings(store))
}

/// Puts new settings in force, for a requester allowed to change them; a
/// refused request leaves the settings as they were.
pub fn apply_global_settings(
    store: &mut SettingsStore,
    perms: Option<Permissions>,
    settings: GlobalSettings,
) -> (res: Result<(), AccessError>)
    ensures
        may_administer(perms, old(store)@) ==> res is Ok && final(store)@ == settings,
        !may_administer(perms, old(store)@) ==> res == Err::<(), AccessError>(
            AccessError::Forbidden,
        ) && final(store)@ == old(store)@,
{
    if !admin_allowed(store, perms) {
        return Err(AccessError::Forbidden);
    }
    set_global_settings(store, settings);
    Ok(())
}

/// A requester may see and change the admin settings exactly when it has
/// permissions on record that allow changing them.
pub proof fn lemma_who_may_administer(perms: Option<Permissions>, settings: GlobalSettings)
    ensures
        may_administer(perms, settings) <==> (perms matches Some(p)
            && p.can_change_admin_settings),
{
}

/// Whether a requester may administer never depends on the settings in force
/// once the requester has permissions on record, and a requester without any
/// never may; so settings applied by an allowed requester are what that
/// requester reads back.
pub proof fn lemma_admin_round_trip(
    perms: Option<Permissions>,
    current: GlobalSettings,
    new_settings: GlobalSettings,
)
    ensures
        !may_administer(None, current),
        perms is Some ==> may_administer(perms, current) == may_administer(perms, new_settings),
        may_administer(perms, current) ==> may_administer(
            perms,
            write_settings(current, new_settings),
        ) && read_settings(write_settings(current, new_settings)) == new_settings,
{
}

} // verus!
