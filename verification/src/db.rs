//! The credential store: the first-run flag, the PIN hash and the named
//! connection profiles, with the rules that keep them consistent.

use crate::hasher::{argon2_hash, argon2_verdict, argon2_verify, checked, HashError};
use crate::invariants::{
    lemma_promoted_single_default, lemma_settled_single_default, lemma_with_default_single,
};
use crate::migration::{
    initialize_tables, initialized, migrate_data, migrated, StoreImage, StoreImageView, StoredRow,
    StoredRowView,
};
use crate::text::{lemma_text_before_total, lemma_text_before_transitive, str_before, text_before};
use vstd::prelude::*;

verus! {

/// One named connection profile of a firewall appliance.
#[derive(Debug, PartialEq, Eq)]
pub struct ApiInfo {
    pub id: i64,
    pub profile_name: String,
    pub api_key: String,
    pub api_secret: String,
    pub api_url: String,
    pub port: u16,
    pub is_default: bool,
}

/// What a profile is, as plain mathematical values.
#[verifier::ext_equal]
pub struct ApiInfoView {
    pub id: int,
    pub profile_name: Seq<char>,
    pub api_key: Seq<char>,
    pub api_secret: Seq<char>,
    pub api_url: Seq<char>,
    pub port: int,
    pub is_default: bool,
}

impl ApiInfoView {
    /// The same profile under another identifier and default flag.
    pub open spec fn stored_as(self, id: int, is_default: bool) -> ApiInfoView {
        ApiInfoView { id, is_default, ..self }
    }

    /// The same profile with another default flag.
    pub open spec fn flagged(self, is_default: bool) -> ApiInfoView {
        ApiInfoView { is_default, ..self }
    }
}

impl View for ApiInfo {
    type V = ApiInfoView;

    open spec fn view(&self) -> ApiInfoView {
        ApiInfoView {
            id: self.id as int,
            profile_name: self.profile_name@,
            api_key: self.api_key@,
            api_secret: self.api_secret@,
            api_url: self.api_url@,
            port: self.port as int,
            is_default: self.is_default,
        }
    }
}

impl DeepView for ApiInfo {
    type V = ApiInfoView;

    open spec fn deep_view(&self) -> ApiInfoView {
        self@
    }
}

impl Clone for ApiInfo {
    fn clone(&self) -> (copy: Self)
        ensures
            copy == *self,
    {
        ApiInfo {
            id: self.id,
            profile_name: self.profile_name.clone(),
            api_key: self.api_key.clone(),
            api_secret: self.api_secret.clone(),
            api_url: self.api_url.clone(),
            port: self.port,
            is_default: self.is_default,
        }
    }
}

impl ApiInfo {
    /// A copy of the profile under another identifier and default flag.
    pub fn stored_as(&self, id: i64, is_default: bool) -> (copy: ApiInfo)
        ensures
            copy@ == self@.stored_as(id as int, is_default),
    {
        ApiInfo {
            id,
            profile_name: self.profile_name.clone(),
            api_key: self.api_key.clone(),
            api_secret: self.api_secret.clone(),
            api_url: self.api_url.clone(),
            port: self.port,
            is_default,
        }
    }
}

/// Why a store operation failed.
#[derive(Debug, Clone, Copy, PartialEq, Eq, Structural)]
pub enum StoreError {
    /// No profile has the given name.
    NotFound,
    /// No identifier is left to store the profile under.
    Conflict,
    /// No PIN has been set yet.
    NotConfigured,
    /// The stored PIN hash is not a well-formed hash record.
    MalformedHash,
    /// The store as found cannot be brought to the current layout.
    MigrationError,
}

impl StoreError {
    /// The text of the error.
    pub open spec fn text(self) -> Seq<char> {
        match self {
            StoreError::NotFound => "no profile has that name"@,
            StoreError::Conflict => "no identifier is left for the profile"@,
            StoreError::NotConfigured => "no PIN has been set"@,
            StoreError::MalformedHash => "the stored PIN hash cannot be read"@,
            StoreError::MigrationError => "the store cannot be brought to the current layout"@,
        }
    }

    /// The text of the error.
    pub fn message(&self) -> (text: String)
        ensures
            text@ == self.text(),
    {
        match self {
            StoreError::NotFound => "no profile has that name".to_owned(),
            StoreError::Conflict => "no identifier is left for the profile".to_owned(),
            StoreError::NotConfigured => "no PIN has been set".to_owned(),
            StoreError::MalformedHash => "the stored PIN hash cannot be read".to_owned(),
            StoreError::MigrationError => "the store cannot be brought to the current layout".to_owned(),
        }
    }
}

/// Identifiers grow along the rows.
pub open spec fn ids_ascending(rows: Seq<ApiInfoView>) -> bool {
    forall|i: int, j: int| 0 <= i < j < rows.len() ==> rows[i].id < rows[j].id
}

/// No two rows have the same name.
pub open spec fn names_distinct(rows: Seq<ApiInfoView>) -> bool {
    forall|i: int, j: int| 0 <= i < j < rows.len() ==> rows[i].profile_name != rows[j].profile_name
}

/// The rows stand in the order of their identifiers, and each name occurs
/// once.
pub open spec fn ordered(rows: Seq<ApiInfoView>) -> bool {
    ids_ascending(rows) && names_distinct(rows)
}

/// Some row has this name.
pub open spec fn has_name(rows: Seq<ApiInfoView>, name: Seq<char>) -> bool {
    exists|i: int| 0 <= i < rows.len() && #[trigger] rows[i].profile_name == name
}

/// Where the row of this name stands, if there is one.
pub open spec fn position(rows: Seq<ApiInfoView>, name: Seq<char>) -> int {
    choose|i: int| 0 <= i < rows.len() && #[trigger] rows[i].profile_name == name
}

/// The row of this name.
pub open spec fn named(rows: Seq<ApiInfoView>, name: Seq<char>) -> Option<ApiInfoView> {
    if has_name(rows, name) {
        Some(rows[position(rows, name)])
    } else {
        None
    }
}

/// No row is flagged default.
pub open spec fn no_default(rows: Seq<ApiInfoView>) -> bool {
    forall|i: int| 0 <= i < rows.len() ==> !(#[trigger] rows[i]).is_default
}

/// Row `i` is flagged default and no row before it is.
pub open spec fn is_first_default(rows: Seq<ApiInfoView>, i: int) -> bool {
    &&& 0 <= i < rows.len()
    &&& rows[i].is_default
    &&& forall|j: int| 0 <= j < i ==> !(#[trigger] rows[j]).is_default
}

/// The default profile: of the rows flagged default, the one with the lowest
/// identifier.
pub open spec fn default_of(rows: Seq<ApiInfoView>) -> Option<ApiInfoView> {
    if no_default(rows) {
        None
    } else {
        Some(rows[choose|i: int| is_first_default(rows, i)])
    }
}

/// Exactly one row is flagged default.
pub open spec fn single_default(rows: Seq<ApiInfoView>) -> bool {
    exists|i: int|
        0 <= i < rows.len() && (#[trigger] rows[i]).is_default && forall|j: int|
            0 <= j < rows.len() && j != i ==> !(#[trigger] rows[j]).is_default
}

/// What holds of the profile rows of every store: they stand in the order of
/// their identifiers, each name occurs once, and where there is a profile
/// exactly one is the default.
pub open spec fn well_formed(rows: Seq<ApiInfoView>) -> bool {
    ordered(rows) && (rows.len() > 0 ==> single_default(rows))
}

/// The rows with the lowest identifier promoted to default where none is.
pub open spec fn promoted(rows: Seq<ApiInfoView>) -> Seq<ApiInfoView> {
    if rows.len() > 0 && no_default(rows) {
        rows.update(0, rows[0].flagged(true))
    } else {
        rows
    }
}

/// Where the row stands that is the default once the flags are settled: the
/// first row flagged default, or the row with the lowest identifier where
/// none is flagged.
pub open spec fn settled_default(rows: Seq<ApiInfoView>) -> int {
    if no_default(rows) {
        0
    } else {
        choose|i: int| is_first_default(rows, i)
    }
}

/// The rows with their flags settled: exactly one row is the default.
pub open spec fn settled(rows: Seq<ApiInfoView>) -> Seq<ApiInfoView> {
    Seq::new(rows.len(), |i: int| rows[i].flagged(i == settled_default(rows)))
}

/// The rows with one more, before the flags are looked at: the first
/// profile of a store gets identifier 1; a later one takes the place of the
/// row of its name, if any, under a fresh identifier.
pub open spec fn stored(rows: Seq<ApiInfoView>, profile: ApiInfoView) -> Seq<ApiInfoView> {
    if rows.len() == 0 {
        seq![profile.stored_as(1, profile.is_default)]
    } else {
        let kept = if has_name(rows, profile.profile_name) {
            rows.remove(position(rows, profile.profile_name))
        } else {
            rows
        };
        kept.push(profile.stored_as(rows.last().id + 1, profile.is_default))
    }
}

/// The rows after a profile was saved. A profile that asks to be the
/// default becomes the only one. One that does not leaves the default where
/// it is; where that leaves none, because it is the first profile or took
/// the place of the default, the row with the lowest identifier becomes the
/// default.
pub open spec fn saved(rows: Seq<ApiInfoView>, profile: ApiInfoView) -> Seq<ApiInfoView> {
    if profile.is_default {
        with_default(stored(rows, profile), profile.profile_name)
    } else {
        settled(stored(rows, profile))
    }
}

/// The rows with the named one as the only default.
pub open spec fn with_default(rows: Seq<ApiInfoView>, name: Seq<char>) -> Seq<ApiInfoView> {
    Seq::new(rows.len(), |i: int| rows[i].flagged(rows[i].profile_name == name))
}

/// The rows after the named one was deleted: the others, with their flags
/// settled.
pub open spec fn deleted(rows: Seq<ApiInfoView>, name: Seq<char>) -> Seq<ApiInfoView> {
    settled(rows.remove(position(rows, name)))
}

/// No identifier is left above the highest one in use.
pub open spec fn ids_exhausted(rows: Seq<ApiInfoView>) -> bool {
    rows.len() > 0 && rows.last().id == i64::MAX
}

/// Where the row of this name stands among `rows`.
fn find_name(rows: &Vec<ApiInfo>, name: &str) -> (found: Option<usize>)
    ensures
        match found {
            Some(k) => k < rows.len() && rows[k as int]@.profile_name == name@,
            None => !has_name(rows.deep_view(), name@),
        },
{
    let wanted = name.to_owned();
    let mut i: usize = 0;
    while i < rows.len()
        invariant
            i <= rows.len(),
            wanted@ == name@,
            forall|j: int| 0 <= j < i ==> rows[j]@.profile_name != name@,
        decreases rows.len() - i,
    {
        if rows[i].profile_name == wanted {
            return Some(i);
        }
        i += 1;
    }
    None
}

/// In a well-formed store the row of a name is the one found under it.
proof fn lemma_position(rows: Seq<ApiInfoView>, name: Seq<char>, k: int)
    requires
        names_distinct(rows),
        0 <= k < rows.len(),
        rows[k].profile_name == name,
    ensures
        has_name(rows, name),
        position(rows, name) == k,
{
    let p = position(rows, name);
    if p < k {
        assert(rows[p].profile_name != rows[k].profile_name);
    } else if k < p {
        assert(rows[k].profile_name != rows[p].profile_name);
    }
}

/// Storing keeps the rows in order: the new row has the highest identifier,
/// and the only row that had its name has left.
pub proof fn lemma_stored_ordered(rows: Seq<ApiInfoView>, profile: ApiInfoView)
    requires
        ordered(rows),
    ensures
        ordered(stored(rows, profile)),
        stored(rows, profile).len() > 0,
        stored(rows, profile).last() == profile.stored_as(
            if rows.len() == 0 {
                1
            } else {
                rows.last().id + 1
            },
            profile.is_default,
        ),
        has_name(stored(rows, profile), profile.profile_name),
        position(stored(rows, profile), profile.profile_name) == stored(rows, profile).len() - 1,
{
    let after = stored(rows, profile);
    if rows.len() > 0 {
        let name = profile.profile_name;
        let fresh = profile.stored_as(rows.last().id + 1, profile.is_default);
        if has_name(rows, name) {
            let k = position(rows, name);
            let kept = rows.remove(k);
            assert forall|i: int| 0 <= i < kept.len() implies (#[trigger] kept[i]).profile_name
                != name && kept[i].id < fresh.id by {
                let from = if i < k {
                    i
                } else {
                    i + 1
                };
                assert(kept[i] == rows[from]);
                if from < k {
                    assert(rows[from].profile_name != rows[k].profile_name);
                } else {
                    assert(rows[k].profile_name != rows[from].profile_name);
                }
                if from < rows.len() - 1 {
                    assert(rows[from].id < rows[rows.len() - 1].id);
                }
            }
            assert forall|i: int, j: int| 0 <= i < j < kept.len() implies kept[i].id < kept[j].id
                && kept[i].profile_name != kept[j].profile_name by {
                let from_i = if i < k {
                    i
                } else {
                    i + 1
                };
                let from_j = if j < k {
                    j
                } else {
                    j + 1
                };
                assert(kept[i] == rows[from_i] && kept[j] == rows[from_j]);
            }
        } else {
            assert forall|i: int| 0 <= i < rows.len() implies (#[trigger] rows[i]).profile_name
                != name && rows[i].id < fresh.id by {
                if i < rows.len() - 1 {
                    assert(rows[i].id < rows[rows.len() - 1].id);
                }
            }
        }
    }
    assert(after[after.len() - 1].profile_name == profile.profile_name);
    lemma_position(after, profile.profile_name, after.len() - 1);
}

/// Saving keeps the rows well formed, and leaves exactly one default.
pub proof fn lemma_saved_well_formed(rows: Seq<ApiInfoView>, profile: ApiInfoView)
    requires
        ordered(rows),
    ensures
        well_formed(saved(rows, profile)),
        single_default(saved(rows, profile)),
        saved(rows, profile).len() == stored(rows, profile).len(),
{
    lemma_stored_ordered(rows, profile);
    lemma_order_kept(stored(rows, profile), profile.profile_name, 0);
    if profile.is_default {
        lemma_with_default_single(stored(rows, profile), profile.profile_name);
    } else {
        lemma_settled_single_default(stored(rows, profile));
    }
}

/// The first row flagged default is the default profile.
proof fn lemma_first_default(rows: Seq<ApiInfoView>, k: int)
    requires
        is_first_default(rows, k),
    ensures
        !no_default(rows),
        default_of(rows) == Some(rows[k]),
{
    assert(rows[k].is_default);
    let c = choose|i: int| is_first_default(rows, i);
    if c < k {
        assert(!rows[c].is_default);
    } else if k < c {
        assert(!rows[k].is_default);
    }
}

/// Taking a row out and changing default flags keep the rows in order.
pub proof fn lemma_order_kept(rows: Seq<ApiInfoView>, name: Seq<char>, k: int)
    requires
        ordered(rows),
    ensures
        ordered(promoted(rows)),
        ordered(settled(rows)),
        ordered(with_default(rows, name)),
        0 <= k < rows.len() ==> ordered(rows.remove(k)),
        0 <= k < rows.len() ==> ordered(settled(rows.remove(k))),
{
    let p = promoted(rows);
    assert forall|i: int, j: int| 0 <= i < j < p.len() implies p[i].id < p[j].id
        && p[i].profile_name != p[j].profile_name by {
        assert(p[i].id == rows[i].id && p[i].profile_name == rows[i].profile_name);
        assert(p[j].id == rows[j].id && p[j].profile_name == rows[j].profile_name);
    }
    if 0 <= k < rows.len() {
        let kept = rows.remove(k);
        assert forall|i: int, j: int| 0 <= i < j < kept.len() implies kept[i].id < kept[j].id
            && kept[i].profile_name != kept[j].profile_name by {
            let from_i = if i < k {
                i
            } else {
                i + 1
            };
            let from_j = if j < k {
                j
            } else {
                j + 1
            };
            assert(kept[i] == rows[from_i] && kept[j] == rows[from_j]);
        }
    }
}

/// Where the first row flagged default stands among `rows`.
fn first_default(rows: &Vec<ApiInfo>) -> (found: Option<usize>)
    ensures
        match found {
            Some(k) => is_first_default(rows.deep_view(), k as int),
            None => no_default(rows.deep_view()),
        },
{
    let mut i: usize = 0;
    while i < rows.len()
        invariant
            i <= rows.len(),
            forall|j: int| 0 <= j < i ==> !(#[trigger] rows.deep_view()[j]).is_default,
        decreases rows.len() - i,
    {
        if rows[i].is_default {
            return Some(i);
        }
        i += 1;
    }
    None
}

/// The rows with the one at `only` as the only default.
fn flag_only(rows: &Vec<ApiInfo>, only: usize) -> (out: Vec<ApiInfo>)
    ensures
        out.deep_view() == Seq::new(
            rows.len() as nat,
            |i: int| rows.deep_view()[i].flagged(i == only),
        ),
{
    let mut out: Vec<ApiInfo> = Vec::new();
    let mut i: usize = 0;
    while i < rows.len()
        invariant
            i <= rows.len(),
            out.len() == i,
            forall|j: int|
                0 <= j < i ==> (#[trigger] out.deep_view()[j]) == rows.deep_view()[j].flagged(
                    j == only,
                ),
        decreases rows.len() - i,
    {
        let row = &rows[i];
        let ghost done = out.deep_view();
        out.push(row.stored_as(row.id, i == only));
        proof {
            assert(rows.deep_view()[i as int] == row@);
            assert forall|j: int| 0 <= j < i implies (#[trigger] out.deep_view()[j]) == done[j] by {}
        }
        i += 1;
    }
    out
}

/// Settles the flags: the first row flagged default stays the default, or
/// the row with the lowest identifier becomes it, and no other row is.
fn settle(rows: &Vec<ApiInfo>) -> (out: Vec<ApiInfo>)
    ensures
        out.deep_view() == settled(rows.deep_view()),
{
    let only = match first_default(rows) {
        Some(k) => {
            proof {
                lemma_first_default(rows.deep_view(), k as int);
                let c = choose|i: int| is_first_default(rows.deep_view(), i);
                if c < k {
                    assert(!rows.deep_view()[c].is_default);
                } else if k < c {
                    assert(!rows.deep_view()[k as int].is_default);
                }
            }
            k
        },
        None => 0,
    };
    let out = flag_only(rows, only);
    assert(out.deep_view() =~= settled(rows.deep_view()));
    out
}

/// The rows stand in the order of their names.
pub open spec fn names_ordered(list: Seq<ApiInfoView>) -> bool {
    forall|i: int, j: int|
        0 <= i < j < list.len() ==> text_before(list[i].profile_name, list[j].profile_name)
}

/// `list` holds the rows of `rows`, each once, in the order of their names.
pub open spec fn is_listing(list: Seq<ApiInfoView>, rows: Seq<ApiInfoView>) -> bool {
    &&& list.len() == rows.len()
    &&& names_ordered(list)
    &&& forall|i: int| 0 <= i < list.len() ==> rows.contains(#[trigger] list[i])
    &&& forall|i: int| 0 <= i < rows.len() ==> list.contains(#[trigger] rows[i])
}

/// Puts `row` where its name belongs among rows that stand in the order of
/// their names.
fn insert_by_name(list: &mut Vec<ApiInfo>, row: ApiInfo)
    requires
        names_ordered(old(list).deep_view()),
        !has_name(old(list).deep_view(), row@.profile_name),
    ensures
        names_ordered(final(list).deep_view()),
        exists|at: int|
            0 <= at <= old(list).len() && final(list).deep_view() == old(list).deep_view().insert(
                at,
                row@,
            ),
{
    let ghost before = list.deep_view();
    let ghost name = row@.profile_name;
    let mut at: usize = 0;
    while at < list.len() && str_before(list[at].profile_name.as_str(), row.profile_name.as_str())
        invariant
            at <= list.len(),
            list.deep_view() == before,
            name == row@.profile_name,
            forall|j: int| 0 <= j < at ==> text_before((#[trigger] before[j]).profile_name, name),
        decreases list.len() - at,
    {
        assert(before[at as int] == list[at as int]@);
        at += 1;
    }
    proof {
        if at < list.len() {
            assert(before[at as int] == list[at as int]@);
            assert(before[at as int].profile_name != name);
            lemma_text_before_total(before[at as int].profile_name, name);
            assert forall|j: int| at < j < before.len() implies text_before(
                name,
                (#[trigger] before[j]).profile_name,
            ) by {
                lemma_text_before_transitive(
                    name,
                    before[at as int].profile_name,
                    before[j].profile_name,
                );
            }
        }
    }
    list.insert(at, row);
    proof {
        let after = list.deep_view();
        assert(after =~= before.insert(at as int, row@));
        assert forall|i: int, j: int| 0 <= i < j < after.len() implies text_before(
            after[i].profile_name,
            after[j].profile_name,
        ) by {
            let from_i = if i < at {
                i
            } else {
                i - 1
            };
            let from_j = if j < at {
                j
            } else {
                j - 1
            };
            if i != at {
                assert(after[i] == before[from_i]);
            }
            if j != at {
                assert(after[j] == before[from_j]);
            }
        }
    }
}

/// What a PIN check reports for each outcome of checking the PIN against
/// the stored hash.
pub open spec fn pin_verdict(outcome: Result<bool, HashError>) -> Result<bool, StoreError> {
    match outcome {
        Ok(matches) => Ok(matches),
        Err(_) => Err(StoreError::MalformedHash),
    }
}

/// What checking `pin` against a store with the PIN hash `stored` reports.
pub open spec fn pin_checked(stored: Option<Seq<char>>, pin: Seq<char>) -> Result<
    bool,
    StoreError,
> {
    match stored {
        None => Err(StoreError::NotConfigured),
        Some(hash) => pin_verdict(checked(argon2_verdict(hash, pin))),
    }
}

/// Turns the outcome of checking a PIN against the stored hash into what
/// the store reports: a hash that cannot be read is the store's fault.
pub fn judge_pin(outcome: Result<bool, HashError>) -> (r: Result<bool, StoreError>)
    ensures
        r == pin_verdict(outcome),
{
    match outcome {
        Ok(matches) => Ok(matches),
        Err(_) => Err(StoreError::MalformedHash),
    }
}

/// The profiles that the rows of a profile table hold.
pub open spec fn profiles_of(rows: Seq<StoredRowView>) -> Seq<ApiInfoView> {
    Seq::new(rows.len(), |i: int| rows[i].profile)
}

/// The store that opening an image gives: the image is given a profile
/// table if it has none and brought to the current layout, and the default
/// flags of its profiles are settled. `None` where its profiles do not stand
/// in the order of their identifiers, or two of them have one name.
pub open spec fn opened(image: StoreImageView) -> Option<DatabaseView> {
    let current = migrated(initialized(image));
    let profiles = profiles_of(current.api_info->0.rows);
    if ordered(profiles) {
        Some(
            DatabaseView {
                first_run: current.first_run,
                password_hash: current.password_hash,
                profiles: settled(profiles),
            },
        )
    } else {
        None
    }
}

/// A store that is not there yet opens as an empty store: no first-run
/// record, no PIN, no profile.
pub proof fn lemma_opened_absent()
    ensures
        opened(StoreImageView { first_run: None, password_hash: None, api_info: None }) == Some(
            DatabaseView { first_run: None, password_hash: None, profiles: Seq::empty() },
        ),
{
    let image = StoreImageView { first_run: None, password_hash: None, api_info: None };
    let rows = migrated(initialized(image)).api_info->0.rows;
    assert(profiles_of(rows) =~= Seq::<ApiInfoView>::empty());
    assert(settled(profiles_of(rows)) =~= Seq::<ApiInfoView>::empty());
}

/// Whether identifiers grow along the rows and no name occurs twice.
fn check_ordered(rows: &Vec<ApiInfo>) -> (ok: bool)
    ensures
        ok == ordered(rows.deep_view()),
{
    let ghost all = rows.deep_view();
    let mut i: usize = 1;
    while i < rows.len()
        invariant
            1 <= i,
            all == rows.deep_view(),
            forall|a: int, b: int| 0 <= a < b < i && b < all.len() ==> all[a].id < all[b].id,
        decreases rows.len() - i,
    {
        if rows[i - 1].id >= rows[i].id {
            assert(!(all[i - 1].id < all[i as int].id));
            return false;
        }
        assert forall|a: int, b: int| 0 <= a < b < i + 1 && b < all.len() implies all[a].id
            < all[b].id by {
            if b == i && a < i - 1 {
                assert(all[a].id < all[i - 1].id);
            }
        }
        i += 1;
    }
    assert(ids_ascending(all));
    let mut i: usize = 0;
    while i < rows.len()
        invariant
            i <= rows.len(),
            all == rows.deep_view(),
            forall|a: int, b: int|
                0 <= a < b < all.len() && a < i ==> all[a].profile_name != all[b].profile_name,
        decreases rows.len() - i,
    {
        let mut j: usize = i + 1;
        while j < rows.len()
            invariant
                i < rows.len(),
                i < j <= rows.len(),
                all == rows.deep_view(),
                forall|b: int| i < b < j ==> all[i as int].profile_name != all[b].profile_name,
            decreases rows.len() - j,
        {
            if rows[i].profile_name == rows[j].profile_name {
                assert(all[i as int].profile_name == all[j as int].profile_name);
                return false;
            }
            j += 1;
        }
        i += 1;
    }
    true
}

/// The credential store, held as plain values.
pub struct Database {
    first_run: Option<bool>,
    password_hash: Option<String>,
    profiles: Vec<ApiInfo>,
}

/// What a store holds: the first-run record, the PIN hash, and the profile
/// rows in the order of their identifiers.
#[verifier::ext_equal]
pub struct DatabaseView {
    /// The flag of the first-run record, where there is such a record.
    pub first_run: Option<bool>,
    /// The hash of the PIN, once one was set.
    pub password_hash: Option<Seq<char>>,
    pub profiles: Seq<ApiInfoView>,
}

impl View for Database {
    type V = DatabaseView;

    closed spec fn view(&self) -> DatabaseView {
        DatabaseView {
            first_run: self.first_run,
            password_hash: match self.password_hash {
                Some(hash) => Some(hash@),
                None => None,
            },
            profiles: self.profiles.deep_view(),
        }
    }
}

impl Database {
    #[verifier::type_invariant]
    spec fn rows_well_formed(self) -> bool {
        well_formed(self.profiles.deep_view())
    }

    /// Opens a store from what was found of it: an image without a profile
    /// table gets one, and an image of the older layout is brought to the
    /// current one before anything else is done with it. Of the profiles
    /// found exactly one is the default afterwards: the first that was
    /// flagged, or the one with the lowest identifier where none was.
    pub fn new(image: StoreImage) -> (r: Result<Database, StoreError>)
        ensures
            match r {
                Ok(db) => opened(image@) == Some(db@) && well_formed(db@.profiles),
                Err(e) => e == StoreError::MigrationError && opened(image@) is None,
            },
    {
        let current = migrate_data(initialize_tables(image));
        let StoreImage { first_run, password_hash, api_info } = current;
        let rows: Vec<StoredRow> = match api_info {
            Some(table) => table.rows,
            None => Vec::new(),
        };
        let mut profiles: Vec<ApiInfo> = Vec::new();
        let mut i: usize = 0;
        while i < rows.len()
            invariant
                i <= rows.len(),
                profiles.len() == i,
                forall|j: int|
                    0 <= j < i ==> (#[trigger] profiles.deep_view()[j])
                        == rows.deep_view()[j].profile,
            decreases rows.len() - i,
        {
            let ghost done = profiles.deep_view();
            profiles.push(rows[i].profile.clone());
            proof {
                assert forall|j: int| 0 <= j < i implies (#[trigger] profiles.deep_view()[j])
                    == done[j] by {}
            }
            i += 1;
        }
        assert(profiles.deep_view() =~= profiles_of(rows.deep_view()));
        if check_ordered(&profiles) {
            proof {
                lemma_order_kept(profiles.deep_view(), Seq::empty(), 0);
                if profiles.len() > 0 {
                    lemma_settled_single_default(profiles.deep_view());
                }
            }
            let profiles = settle(&profiles);
            Ok(Database { first_run, password_hash, profiles })
        } else {
            Err(StoreError::MigrationError)
        }
    }

    /// Whether the first-run setup is still to be done: no first-run record
    /// exists.
    pub fn is_first_run(&self) -> (r: Result<bool, StoreError>)
        ensures
            r == Ok::<bool, StoreError>(self@.first_run is None),
    {
        Ok(self.first_run.is_none())
    }

    /// Records that the first-run setup was completed.
    pub fn set_has_run(&mut self) -> (r: Result<(), StoreError>)
        ensures
            r is Ok,
            final(self)@ == (DatabaseView { first_run: Some(true), ..old(self)@ }),
    {
        proof {
            use_type_invariant(&*self);
        }
        self.first_run = Some(true);
        Ok(())
    }

    /// Stores a profile under its name, in place of the one that had the
    /// name. The identifier that `api_info` carries is not used: the store
    /// assigns one. Exactly one profile is the default afterwards: the one
    /// saved where it asks to be, else the one that was; where none is left,
    /// the one with the lowest identifier.
    pub fn save_api_info(&mut self, api_info: &ApiInfo) -> (r: Result<(), StoreError>)
        ensures
            well_formed(final(self)@.profiles),
            final(self)@.first_run == old(self)@.first_run,
            final(self)@.password_hash == old(self)@.password_hash,
            r is Err <==> ids_exhausted(old(self)@.profiles),
            r is Err ==> r == Err::<(), StoreError>(StoreError::Conflict) && final(self)@ == old(
                self,
            )@,
            r is Ok ==> final(self)@.profiles == saved(old(self)@.profiles, api_info@),
            r is Ok ==> single_default(final(self)@.profiles),
    {
        proof {
            use_type_invariant(&*self);
        }
        let n = self.profiles.len();
        let id: i64 = if n == 0 {
            1
        } else {
            let last_id = self.profiles[n - 1].id;
            if last_id == i64::MAX {
                return Err(StoreError::Conflict);
            }
            last_id + 1
        };
        let mut rows: Vec<ApiInfo> = Vec::new();
        std::mem::swap(&mut rows, &mut self.profiles);
        let ghost before = rows.deep_view();
        proof {
            lemma_stored_ordered(before, api_info@);
            lemma_saved_well_formed(before, api_info@);
        }
        match find_name(&rows, api_info.profile_name.as_str()) {
            Some(k) => {
                proof {
                    lemma_position(before, api_info@.profile_name, k as int);
                }
                rows.remove(k);
                assert(rows.deep_view() =~= before.remove(k as int));
            },
            None => {},
        }
        let ghost kept = rows.deep_view();
        rows.push(api_info.stored_as(id, api_info.is_default));
        assert(rows.deep_view() =~= kept.push(api_info@.stored_as(id as int, api_info@.is_default)));
        let ghost all = rows.deep_view();
        assert(all =~= stored(before, api_info@));
        let settled_rows = if api_info.is_default {
            proof {
                assert forall|i: int| 0 <= i < all.len() implies (all[i].profile_name
                    == api_info@.profile_name) == (i == all.len() - 1) by {
                    if i < all.len() - 1 {
                        assert(all[i].profile_name != all[all.len() - 1].profile_name);
                    }
                }
            }
            let flagged = flag_only(&rows, rows.len() - 1);
            assert(flagged.deep_view() =~= with_default(all, api_info@.profile_name));
            flagged
        } else {
            settle(&rows)
        };
        self.profiles = settled_rows;
        Ok(())
    }

    /// Makes the named profile the only default.
    pub fn set_default_profile(&mut self, profile_name: &str) -> (r: Result<(), StoreError>)
        ensures
            well_formed(final(self)@.profiles),
            final(self)@.first_run == old(self)@.first_run,
            final(self)@.password_hash == old(self)@.password_hash,
            r is Err <==> !has_name(old(self)@.profiles, profile_name@),
            r is Err ==> r == Err::<(), StoreError>(StoreError::NotFound) && final(self)@ == old(
                self,
            )@,
            r is Ok ==> final(self)@.profiles == with_default(old(self)@.profiles, profile_name@),
            r is Ok ==> single_default(final(self)@.profiles),
    {
        proof {
            use_type_invariant(&*self);
        }
        let found = find_name(&self.profiles, profile_name);
        match found {
            None => Err(StoreError::NotFound),
            Some(k) => {
                let ghost before = self.profiles.deep_view();
                proof {
                    lemma_position(before, profile_name@, k as int);
                    lemma_order_kept(before, profile_name@, k as int);
                    lemma_with_default_single(before, profile_name@);
                }
                let rows = flag_only(&self.profiles, k);
                proof {
                    assert forall|i: int| 0 <= i < before.len() implies (before[i].profile_name
                        == profile_name@) == (i == k) by {
                        if i < k {
                            assert(before[i].profile_name != before[k as int].profile_name);
                        } else if k < i {
                            assert(before[k as int].profile_name != before[i].profile_name);
                        }
                    }
                }
                assert(rows.deep_view() =~= with_default(before, profile_name@));
                self.profiles = rows;
                Ok(())
            },
        }
    }

    /// The profile of the given name, or the default profile where no name
    /// is given.
    pub fn get_api_info(&self, profile_name: Option<&str>) -> (r: Result<
        Option<ApiInfo>,
        StoreError,
    >)
        ensures
            well_formed(self@.profiles),
            r is Ok,
            r->Ok_0.deep_view() == (match profile_name {
                Some(name) => named(self@.profiles, name@),
                None => default_of(self@.profiles),
            }),
    {
        proof {
            use_type_invariant(self);
        }
        let found = match profile_name {
            Some(name) => {
                let found = find_name(&self.profiles, name);
                proof {
                    if let Some(k) = found {
                        lemma_position(self.profiles.deep_view(), name@, k as int);
                    }
                }
                found
            },
            None => {
                let found = first_default(&self.profiles);
                proof {
                    if let Some(k) = found {
                        lemma_first_default(self.profiles.deep_view(), k as int);
                    }
                }
                found
            },
        };
        match found {
            Some(k) => Ok(Some(self.profiles[k].clone())),
            None => Ok(None),
        }
    }

    /// The default profile.
    pub fn get_default_api_info(&self) -> (r: Result<Option<ApiInfo>, StoreError>)
        ensures
            well_formed(self@.profiles),
            r is Ok,
            r->Ok_0.deep_view() == default_of(self@.profiles),
    {
        self.get_api_info(None)
    }

    /// Deletes the named profile. Of the profiles that stay exactly one is
    /// the default afterwards: the first that was flagged, or the one with
    /// the lowest identifier where none was.
    pub fn delete_api_profile(&mut self, profile_name: &str) -> (r: Result<(), StoreError>)
        ensures
            well_formed(final(self)@.profiles),
            final(self)@.first_run == old(self)@.first_run,
            final(self)@.password_hash == old(self)@.password_hash,
            r is Err <==> !has_name(old(self)@.profiles, profile_name@),
            r is Err ==> r == Err::<(), StoreError>(StoreError::NotFound) && final(self)@ == old(
                self,
            )@,
            r is Ok ==> final(self)@.profiles == deleted(old(self)@.profiles, profile_name@),
            r is Ok ==> final(self)@.profiles.len() == old(self)@.profiles.len() - 1,
            r is Ok ==> final(self)@.profiles.len() == 0 || single_default(final(self)@.profiles),
    {
        proof {
            use_type_invariant(&*self);
        }
        let found = find_name(&self.profiles, profile_name);
        match found {
            None => Err(StoreError::NotFound),
            Some(k) => {
                let mut rows: Vec<ApiInfo> = Vec::new();
                std::mem::swap(&mut rows, &mut self.profiles);
                let ghost before = rows.deep_view();
                proof {
                    lemma_position(before, profile_name@, k as int);
                    lemma_order_kept(before, profile_name@, k as int);
                }
                rows.remove(k);
                assert(rows.deep_view() =~= before.remove(k as int));
                proof {
                    if rows.len() > 0 {
                        lemma_settled_single_default(rows.deep_view());
                    }
                }
                self.profiles = settle(&rows);
                Ok(())
            },
        }
    }

    /// Makes sure that a store with profiles has a default. Every operation
    /// leaves one, so there is never anything to mend: the store stays as
    /// it is.
    pub fn ensure_default_profile(&mut self) -> (r: Result<(), StoreError>)
        ensures
            well_formed(final(self)@.profiles),
            r is Ok,
            final(self)@ == old(self)@,
            final(self)@.profiles == promoted(old(self)@.profiles),
    {
        proof {
            use_type_invariant(&*self);
            if self.profiles.len() > 0 {
                lemma_promoted_single_default(self.profiles.deep_view());
            }
        }
        Ok(())
    }

    /// Sets the PIN hash, in place of the one that was there.
    pub fn update_password_hash(&mut self, new_hash: &str) -> (r: Result<(), StoreError>)
        ensures
            r is Ok,
            final(self)@ == (DatabaseView { password_hash: Some(new_hash@), ..old(self)@ }),
    {
        proof {
            use_type_invariant(&*self);
        }
        self.password_hash = Some(new_hash.to_owned());
        Ok(())
    }

    /// All profiles, in the order of their names.
    pub fn list_api_profiles(&self) -> (r: Result<Vec<ApiInfo>, StoreError>)
        ensures
            well_formed(self@.profiles),
            r is Ok,
            is_listing(r->Ok_0.deep_view(), self@.profiles),
    {
        proof {
            use_type_invariant(self);
        }
        let ghost rows = self.profiles.deep_view();
        let mut list: Vec<ApiInfo> = Vec::new();
        let mut i: usize = 0;
        while i < self.profiles.len()
            invariant
                i <= self.profiles.len(),
                rows == self.profiles.deep_view(),
                names_distinct(rows),
                list.len() == i,
                names_ordered(list.deep_view()),
                forall|j: int|
                    0 <= j < list.len() ==> exists|m: int|
                        0 <= m < i && rows[m] == #[trigger] list.deep_view()[j],
                forall|m: int| 0 <= m < i ==> list.deep_view().contains(#[trigger] rows[m]),
            decreases self.profiles.len() - i,
        {
            let row = self.profiles[i].clone();
            let ghost done = list.deep_view();
            proof {
                assert(row@ == rows[i as int]);
                assert forall|j: int| 0 <= j < done.len() implies (#[trigger] done[j]).profile_name
                    != row@.profile_name by {
                    let m = choose|m: int| 0 <= m < i && rows[m] == done[j];
                    assert(rows[m].profile_name != rows[i as int].profile_name);
                }
            }
            insert_by_name(&mut list, row);
            proof {
                let grown = list.deep_view();
                let at = choose|at: int|
                    0 <= at <= done.len() && grown == done.insert(at, rows[i as int]);
                assert forall|j: int| 0 <= j < grown.len() implies exists|m: int|
                    0 <= m < i + 1 && rows[m] == #[trigger] grown[j] by {
                    if j < at {
                        assert(grown[j] == done[j]);
                        let m = choose|m: int| 0 <= m < i && rows[m] == done[j];
                        assert(rows[m] == grown[j]);
                    } else if j == at {
                        assert(rows[i as int] == grown[j]);
                    } else {
                        assert(grown[j] == done[j - 1]);
                        let m = choose|m: int| 0 <= m < i && rows[m] == done[j - 1];
                        assert(rows[m] == grown[j]);
                    }
                }
                assert forall|m: int| 0 <= m < i + 1 implies grown.contains(
                    #[trigger] rows[m],
                ) by {
                    if m < i {
                        let j = choose|j: int| 0 <= j < done.len() && done[j] == rows[m];
                        if j < at {
                            assert(grown[j] == rows[m]);
                        } else {
                            assert(grown[j + 1] == rows[m]);
                        }
                    } else {
                        assert(grown[at] == rows[m]);
                    }
                }
            }
            i += 1;
        }
        proof {
            let listed = list.deep_view();
            assert forall|j: int| 0 <= j < listed.len() implies rows.contains(
                #[trigger] listed[j],
            ) by {
                let m = choose|m: int| 0 <= m < i && rows[m] == listed[j];
                assert(rows[m] == listed[j]);
            }
        }
        Ok(list)
    }

    /// A fresh salted hash record of `password`. The salt is drawn at
    /// random, so two records of one password differ; the password checks
    /// against each. Where the system's random source fails the draw does
    /// not return, and no error comes back.
    pub fn hash_password(password: &str) -> (r: Result<String, HashError>)
        ensures
            r is Ok ==> argon2_verdict(r->Ok_0@, password@) == Some(true),
            r is Err ==> r == Err::<String, HashError>(HashError::Failed),
    {
        match argon2_hash(password) {
            Ok(record) => Ok(record),
            Err(_) => Err(HashError::Failed),
        }
    }

    /// Whether `password` is the one that the record `hash` was made from.
    /// A mismatch is `Ok(false)`; only a record that cannot be read is an
    /// error.
    pub fn verify_password(hash: &str, password: &str) -> (r: Result<bool, HashError>)
        ensures
            r == checked(argon2_verdict(hash@, password@)),
    {
        match argon2_verify(hash, password) {
            Ok(matches) => Ok(matches),
            Err(_) => Err(HashError::Malformed),
        }
    }

    /// Whether `pin` is the PIN of this store.
    pub fn verify_pin(&self, pin: &str) -> (r: Result<bool, StoreError>)
        ensures
            r == pin_checked(self@.password_hash, pin@),
    {
        match &self.password_hash {
            None => Err(StoreError::NotConfigured),
            Some(hash) => judge_pin(Self::verify_password(hash.as_str(), pin)),
        }
    }

    /// The stored PIN hash.
    pub fn password_hash(&self) -> (hash: Option<String>)
        ensures
            hash.deep_view() == self@.password_hash,
    {
        match &self.password_hash {
            Some(hash) => Some(hash.clone()),
            None => None,
        }
    }

    /// The flag of the first-run record, where there is such a record.
    pub fn first_run(&self) -> (flag: Option<bool>)
        ensures
            flag == self@.first_run,
    {
        self.first_run
    }
}

} // verus!
