//! The commands of the setup and settings screens: first-run setup, PIN
//! checks and changes, profile edits, and the vendor lookup of a hardware
//! address. Errors are texts, made to be shown.

use crate::db::{
    default_of, has_name, ids_exhausted, is_listing, pin_checked, position, saved,
    single_default, well_formed, ApiInfo, ApiInfoView, Database, DatabaseView, StoreError,
};
use crate::hasher::HashError;
use crate::http_client::{message_of, GatewayError, GatewayErrorView};
use crate::text::{joined, replace_char, replaced};
use vstd::prelude::*;

verus! {

/// What the first-run setup asks for: one profile and the PIN.
#[derive(Debug, PartialEq, Eq)]
pub struct InitialConfig {
    pub profile_name: String,
    pub api_key: String,
    pub api_secret: String,
    pub api_url: String,
    pub port: u16,
    pub pin: String,
}

/// An initial configuration as plain values.
#[verifier::ext_equal]
pub struct InitialConfigView {
    pub profile_name: Seq<char>,
    pub api_key: Seq<char>,
    pub api_secret: Seq<char>,
    pub api_url: Seq<char>,
    pub port: int,
    pub pin: Seq<char>,
}

impl View for InitialConfig {
    type V = InitialConfigView;

    open spec fn view(&self) -> InitialConfigView {
        InitialConfigView {
            profile_name: self.profile_name@,
            api_key: self.api_key@,
            api_secret: self.api_secret@,
            api_url: self.api_url@,
            port: self.port as int,
            pin: self.pin@,
        }
    }
}

/// A result whose error is a text, as plain values.
pub open spec fn shown<T>(r: Result<T, String>) -> Result<T, Seq<char>> {
    match r {
        Ok(value) => Ok(value),
        Err(text) => Err(text@),
    }
}

/// Whether the first-run setup is still to be done.
pub fn check_first_run(database: &Database) -> (r: Result<bool, String>)
    ensures
        shown(r) == Ok::<bool, Seq<char>>(database@.first_run is None),
{
    match database.is_first_run() {
        Ok(first) => Ok(first),
        Err(error) => Err(error.message()),
    }
}

/// The profile that an initial configuration asks for. It asks to be the
/// default.
pub open spec fn initial_profile(config: InitialConfigView) -> ApiInfoView {
    ApiInfoView {
        id: 0,
        profile_name: config.profile_name,
        api_key: config.api_key,
        api_secret: config.api_secret,
        api_url: config.api_url,
        port: config.port,
        is_default: true,
    }
}

/// The store after an initial configuration with the PIN hash `hash` was
/// saved: the hash is the PIN hash, the profile is saved, and the first-run
/// setup is recorded as done.
pub open spec fn configured(
    before: DatabaseView,
    config: InitialConfigView,
    hash: Seq<char>,
) -> DatabaseView {
    DatabaseView {
        first_run: Some(true),
        password_hash: Some(hash),
        profiles: saved(before.profiles, initial_profile(config)),
    }
}

/// Saves an initial configuration whose PIN has been hashed: first the
/// hash, then the profile, then the record that the setup is done. Where
/// the profile cannot be saved the hash stays, and the setup is not
/// recorded as done.
pub fn store_initial_config(
    config: &InitialConfig,
    password_hash: &str,
    database: &mut Database,
) -> (r: Result<(), String>)
    ensures
        well_formed(final(database)@.profiles),
        r is Err <==> ids_exhausted(old(database)@.profiles),
        r is Ok ==> final(database)@ == configured(old(database)@, config@, password_hash@),
        r is Err ==> final(database)@ == (DatabaseView {
            password_hash: Some(password_hash@),
            ..old(database)@
        }) && r->Err_0@ == "Failed to save API info: "@ + StoreError::Conflict.text(),
{
    match database.update_password_hash(password_hash) {
        Ok(()) => {},
        Err(error) => {
            return Err(joined("Failed to save password hash: ", error.message().as_str()));
        },
    }
    let api_info = ApiInfo {
        id: 0,
        profile_name: config.profile_name.clone(),
        api_key: config.api_key.clone(),
        api_secret: config.api_secret.clone(),
        api_url: config.api_url.clone(),
        port: config.port,
        is_default: true,
    };
    assert(api_info@ == initial_profile(config@));
    match database.save_api_info(&api_info) {
        Ok(()) => {},
        Err(error) => {
            return Err(joined("Failed to save API info: ", error.message().as_str()));
        },
    }
    match database.set_has_run() {
        Ok(()) => Ok(()),
        Err(error) => Err(joined("Failed to set has_run flag: ", error.message().as_str())),
    }
}

/// The first-run setup: the PIN is hashed with a fresh salt, and the hash,
/// the profile and the record that the setup is done are saved. After
/// success the PIN of the configuration is the PIN of the store.
pub fn save_initial_config(config: InitialConfig, database: &mut Database) -> (r: Result<
    (),
    String,
>)
    ensures
        r is Ok ==> final(database)@.password_hash is Some && final(database)@ == configured(
            old(database)@,
            config@,
            final(database)@.password_hash->0,
        ),
        r is Ok ==> pin_checked(final(database)@.password_hash, config@.pin) == Ok::<
            bool,
            StoreError,
        >(true),
        ids_exhausted(old(database)@.profiles) ==> r is Err,
        r is Err ==> final(database)@.profiles == old(database)@.profiles,
        r is Err ==> final(database)@.first_run == old(database)@.first_run,
        r is Err && !ids_exhausted(old(database)@.profiles) ==> final(database)@ == old(database)@
            && r->Err_0@ == "Failed to hash password: "@ + HashError::Failed.text(),
{
    match Database::hash_password(config.pin.as_str()) {
        Ok(password_hash) => store_initial_config(&config, password_hash.as_str(), database),
        Err(error) => Err(joined("Failed to hash password: ", error.message().as_str())),
    }
}

/// What a PIN check shows: whether the PIN is right, or why that cannot be
/// told.
pub open spec fn pin_shown(stored: Option<Seq<char>>, pin: Seq<char>) -> Result<bool, Seq<char>> {
    match pin_checked(stored, pin) {
        Ok(matches) => Ok(matches),
        Err(error) => Err("Failed to verify PIN: "@ + error.text()),
    }
}

/// Whether `pin` is the PIN of the store.
pub fn verify_pin(pin: String, database: &Database) -> (r: Result<bool, String>)
    ensures
        shown(r) == pin_shown(database@.password_hash, pin@),
{
    match database.verify_pin(pin.as_str()) {
        Ok(matches) => Ok(matches),
        Err(error) => Err(joined("Failed to verify PIN: ", error.message().as_str())),
    }
}

/// The default profile.
pub fn get_api_info(database: &Database) -> (r: Result<Option<ApiInfo>, String>)
    ensures
        r is Ok,
        r->Ok_0.deep_view() == default_of(database@.profiles),
{
    match database.get_default_api_info() {
        Ok(found) => Ok(found),
        Err(error) => Err(error.message()),
    }
}

/// All profiles, in the order of their names.
pub fn get_api_profiles(database: &Database) -> (r: Result<Vec<ApiInfo>, String>)
    ensures
        r is Ok,
        is_listing(r->Ok_0.deep_view(), database@.profiles),
{
    match database.list_api_profiles() {
        Ok(list) => Ok(list),
        Err(error) => Err(joined("Failed to get API profiles: ", error.message().as_str())),
    }
}

/// A profile with its credentials, address and default flag overwritten.
pub open spec fn overwritten(
    profile: ApiInfoView,
    api_key: Seq<char>,
    api_secret: Seq<char>,
    api_url: Seq<char>,
    port: int,
    is_default: bool,
) -> ApiInfoView {
    ApiInfoView { api_key, api_secret, api_url, port, is_default, ..profile }
}

/// The rows after the named profile was updated: it is saved with its new
/// fields. Exactly one profile is the default afterwards: the updated one
/// where it asks to be, else the one that was; where the updated one was
/// the default and no longer asks to be, the one with the lowest identifier.
pub open spec fn updated(
    rows: Seq<ApiInfoView>,
    name: Seq<char>,
    api_key: Seq<char>,
    api_secret: Seq<char>,
    api_url: Seq<char>,
    port: int,
    is_default: bool,
) -> Seq<ApiInfoView> {
    saved(
        rows,
        overwritten(rows[position(rows, name)], api_key, api_secret, api_url, port, is_default),
    )
}

/// Overwrites the credentials, the address and the default flag of the
/// named profile. The store has exactly one default afterwards.
pub fn update_api_info(
    profile_name: String,
    api_key: String,
    api_secret: String,
    api_url: String,
    port: u16,
    is_default: bool,
    database: &mut Database,
) -> (r: Result<(), String>)
    ensures
        well_formed(final(database)@.profiles),
        final(database)@.first_run == old(database)@.first_run,
        final(database)@.password_hash == old(database)@.password_hash,
        r is Err <==> !has_name(old(database)@.profiles, profile_name@) || ids_exhausted(
            old(database)@.profiles,
        ),
        r is Err ==> final(database)@ == old(database)@,
        r is Err ==> r->Err_0@ == (if !has_name(old(database)@.profiles, profile_name@) {
            "API profile '"@ + profile_name@ + "' not found"@
        } else {
            StoreError::Conflict.text()
        }),
        r is Ok ==> final(database)@.profiles == updated(
            old(database)@.profiles,
            profile_name@,
            api_key@,
            api_secret@,
            api_url@,
            port as int,
            is_default,
        ),
        r is Ok ==> single_default(final(database)@.profiles),
{
    let found = match database.get_api_info(Some(profile_name.as_str())) {
        Ok(found) => found,
        Err(error) => {
            return Err(error.message());
        },
    };
    let mut api_info = match found {
        Some(api_info) => api_info,
        None => {
            let mut text = joined("API profile '", profile_name.as_str());
            text.append("' not found");
            return Err(text);
        },
    };
    let ghost before = database@.profiles;
    api_info.api_key = api_key;
    api_info.api_secret = api_secret;
    api_info.api_url = api_url;
    api_info.port = port;
    api_info.is_default = is_default;
    assert(api_info@ == overwritten(
        before[position(before, profile_name@)],
        api_key@,
        api_secret@,
        api_url@,
        port as int,
        is_default,
    ));
    match database.save_api_info(&api_info) {
        Ok(()) => Ok(()),
        Err(error) => Err(error.message()),
    }
}

/// Why a PIN change is refused before the new PIN is looked at, as the text
/// shown: the current PIN cannot be checked, or it is wrong.
pub open spec fn pin_refusal(stored: Option<Seq<char>>, current_pin: Seq<char>) -> Option<
    Seq<char>,
> {
    match pin_checked(stored, current_pin) {
        Err(error) => Some("Failed to verify current PIN: "@ + error.text()),
        Ok(false) => Some("Current PIN is incorrect"@),
        Ok(true) => None,
    }
}

/// Ends a PIN change with what hashing the new PIN gave: the hash becomes
/// the PIN hash of the store, or the store stays as it is.
pub fn store_new_pin(hashed: Result<String, HashError>, database: &mut Database) -> (r: Result<
    (),
    String,
>)
    ensures
        match hashed {
            Ok(hash) => r is Ok && final(database)@ == (DatabaseView {
                password_hash: Some(hash@),
                ..old(database)@
            }),
            Err(error) => shown(r) == Err::<(), Seq<char>>(error.text()) && final(database)@
                == old(database)@,
        },
{
    match hashed {
        Ok(hash) => match database.update_password_hash(hash.as_str()) {
            Ok(()) => Ok(()),
            Err(error) => Err(error.message()),
        },
        Err(error) => Err(error.message()),
    }
}

/// Changes the PIN. The current PIN must be right and the new one must be
/// given twice alike; it is then hashed with a fresh salt. After success
/// the new PIN is the PIN of the store, and nothing else has changed.
pub fn update_pin(
    current_pin: String,
    new_pin: String,
    confirm_new_pin: String,
    database: &mut Database,
) -> (r: Result<(), String>)
    ensures
        final(database)@.first_run == old(database)@.first_run,
        final(database)@.profiles == old(database)@.profiles,
        pin_refusal(old(database)@.password_hash, current_pin@) is Some ==> shown(r) == Err::<
            (),
            Seq<char>,
        >(pin_refusal(old(database)@.password_hash, current_pin@)->0),
        pin_refusal(old(database)@.password_hash, current_pin@) is None && new_pin@
            != confirm_new_pin@ ==> shown(r) == Err::<(), Seq<char>>(
            "New PIN and confirmation do not match"@,
        ),
        r is Err ==> final(database)@ == old(database)@,
        pin_refusal(old(database)@.password_hash, current_pin@) is None && new_pin@
            == confirm_new_pin@ && r is Err ==> r->Err_0@ == HashError::Failed.text(),
        r is Ok ==> pin_checked(final(database)@.password_hash, new_pin@) == Ok::<
            bool,
            StoreError,
        >(true),
{
    match database.verify_pin(current_pin.as_str()) {
        Err(error) => {
            return Err(joined("Failed to verify current PIN: ", error.message().as_str()));
        },
        Ok(false) => {
            return Err("Current PIN is incorrect".to_owned());
        },
        Ok(true) => {},
    }
    if new_pin != confirm_new_pin {
        return Err("New PIN and confirmation do not match".to_owned());
    }
    store_new_pin(Database::hash_password(new_pin.as_str()), database)
}

/// The address at which the vendor of a hardware address is looked up: the
/// colons of the address become hyphens.
pub open spec fn vendor_url_of(mac: Seq<char>) -> Seq<char> {
    "https://api.macvendors.com/"@ + replaced(mac, ':', '-')
}

/// The address at which the vendor of a hardware address is looked up.
pub fn vendor_lookup_url(mac: &str) -> (url: String)
    ensures
        url@ == vendor_url_of(mac@),
{
    let mut url = "https://api.macvendors.com/".to_owned();
    url.append(replace_char(mac, ':', '-').as_str());
    url
}

/// What a vendor lookup shows for each outcome of its request.
pub open spec fn vendor_shown(outcome: Result<Option<Seq<char>>, GatewayErrorView>) -> Result<
    Seq<char>,
    Seq<char>,
> {
    match outcome {
        Ok(Some(body)) => Ok(body),
        Ok(None) => Ok("Unknown"@),
        Err(GatewayErrorView::RequestFailed { url, status, body }) if status == 404 => Ok(
            "Unknown"@,
        ),
        Err(error) => Err("Failed to get vendor info: "@ + message_of(error)),
    }
}

/// What a vendor lookup shows: the body of the answer; `Unknown` where the
/// body could not be read (`Ok(None)`) or the answer was 404, no such
/// vendor; else the error of the request.
pub fn vendor_from_outcome(outcome: Result<Option<String>, GatewayError>) -> (r: Result<
    String,
    String,
>)
    ensures
        (match r {
            Ok(name) => Ok::<Seq<char>, Seq<char>>(name@),
            Err(text) => Err::<Seq<char>, Seq<char>>(text@),
        }) == vendor_shown(
            match outcome {
                Ok(Some(body)) => Ok(Some(body@)),
                Ok(None) => Ok(None),
                Err(error) => Err(error@),
            },
        ),
{
    match outcome {
        Ok(Some(body)) => Ok(body),
        Ok(None) => Ok("Unknown".to_owned()),
        Err(error) => {
            let not_found = match &error {
                GatewayError::RequestFailed { url, status, body } => *status == 404,
                _ => false,
            };
            if not_found {
                Ok("Unknown".to_owned())
            } else {
                Err(joined("Failed to get vendor info: ", error.message().as_str()))
            }
        },
    }
}

} // verus!
