//! The store as it is found when it is opened, in whatever layout an earlier
//! version left it, and the steps that bring it to the current layout.
//!
//! The older layout kept the PIN hash in a column of the profile table and
//! knew neither profile names nor a default flag.

use crate::db::{ApiInfo, ApiInfoView};
use vstd::prelude::*;

verus! {

/// The layouts that a store can be found in.
#[derive(Debug, Clone, Copy, PartialEq, Eq, Structural)]
pub enum SchemaVersion {
    /// There is no profile table yet.
    Absent,
    /// The profile table lacks a column of the current layout, or still has
    /// the deprecated PIN hash column.
    LegacySingleProfile,
    /// The profile table has the current columns.
    Current,
}

/// One row of the profile table as found. A field whose column the table
/// lacks holds no information.
#[derive(Debug, PartialEq, Eq)]
pub struct StoredRow {
    pub profile: ApiInfo,
    /// The deprecated PIN hash column.
    pub password_hash: String,
}

/// A row as plain values.
#[verifier::ext_equal]
pub struct StoredRowView {
    pub profile: ApiInfoView,
    pub password_hash: Seq<char>,
}

impl View for StoredRow {
    type V = StoredRowView;

    open spec fn view(&self) -> StoredRowView {
        StoredRowView { profile: self.profile@, password_hash: self.password_hash@ }
    }
}

impl DeepView for StoredRow {
    type V = StoredRowView;

    open spec fn deep_view(&self) -> StoredRowView {
        self@
    }
}

/// The profile table as found: which of the columns that changed between
/// the layouts it has, and its rows.
#[derive(Debug, PartialEq, Eq)]
pub struct ProfileTable {
    pub has_profile_name: bool,
    pub has_is_default: bool,
    pub has_password_hash: bool,
    pub rows: Vec<StoredRow>,
}

/// A profile table as plain values.
#[verifier::ext_equal]
pub struct ProfileTableView {
    pub has_profile_name: bool,
    pub has_is_default: bool,
    pub has_password_hash: bool,
    pub rows: Seq<StoredRowView>,
}

impl View for ProfileTable {
    type V = ProfileTableView;

    open spec fn view(&self) -> ProfileTableView {
        ProfileTableView {
            has_profile_name: self.has_profile_name,
            has_is_default: self.has_is_default,
            has_password_hash: self.has_password_hash,
            rows: self.rows.deep_view(),
        }
    }
}

/// A store as found when it is opened.
#[derive(Debug, PartialEq, Eq)]
pub struct StoreImage {
    /// The flag of the first-run record, where there is such a record.
    pub first_run: Option<bool>,
    /// The PIN hash of the settings record, where there is such a record.
    pub password_hash: Option<String>,
    /// The profile table, where there is one.
    pub api_info: Option<ProfileTable>,
}

/// A store image as plain values.
#[verifier::ext_equal]
pub struct StoreImageView {
    pub first_run: Option<bool>,
    pub password_hash: Option<Seq<char>>,
    pub api_info: Option<ProfileTableView>,
}

impl View for StoreImage {
    type V = StoreImageView;

    open spec fn view(&self) -> StoreImageView {
        StoreImageView {
            first_run: self.first_run,
            password_hash: match self.password_hash {
                Some(hash) => Some(hash@),
                None => None,
            },
            api_info: match self.api_info {
                Some(table) => Some(table@),
                None => None,
            },
        }
    }
}

/// The name that a profile of the older layout gets.
pub open spec fn default_name() -> Seq<char> {
    "Default"@
}

/// The layout of an image.
pub open spec fn schema_version_of(image: StoreImageView) -> SchemaVersion {
    match image.api_info {
        None => SchemaVersion::Absent,
        Some(table) => if table.has_profile_name && table.has_is_default
            && !table.has_password_hash {
            SchemaVersion::Current
        } else {
            SchemaVersion::LegacySingleProfile
        },
    }
}

/// A profile table of the current layout without rows.
pub open spec fn empty_table() -> ProfileTableView {
    ProfileTableView {
        has_profile_name: true,
        has_is_default: true,
        has_password_hash: false,
        rows: Seq::empty(),
    }
}

/// Row `i` has the lowest identifier; of several such rows it is the first.
pub open spec fn is_lowest(rows: Seq<StoredRowView>, i: int) -> bool {
    &&& 0 <= i < rows.len()
    &&& forall|j: int|
        0 <= j < rows.len() ==> rows[i].profile.id <= (#[trigger] rows[j]).profile.id
    &&& forall|j: int| 0 <= j < i ==> rows[i].profile.id < (#[trigger] rows[j]).profile.id
}

/// Where the row with the lowest identifier stands.
pub open spec fn lowest(rows: Seq<StoredRowView>) -> int {
    choose|i: int| is_lowest(rows, i)
}

/// The image with a profile table: the one it has, or an empty one of the
/// current layout.
pub open spec fn initialized(image: StoreImageView) -> StoreImageView {
    match image.api_info {
        Some(_) => image,
        None => StoreImageView { api_info: Some(empty_table()), ..image },
    }
}

/// First step: a table without profile names gets the column, and every row
/// the name `Default`.
pub open spec fn names_added(table: ProfileTableView) -> ProfileTableView {
    if table.has_profile_name {
        table
    } else {
        ProfileTableView {
            has_profile_name: true,
            rows: Seq::new(
                table.rows.len(),
                |i: int|
                    StoredRowView {
                        profile: ApiInfoView {
                            profile_name: default_name(),
                            ..table.rows[i].profile
                        },
                        ..table.rows[i]
                    },
            ),
            ..table
        }
    }
}

/// Second step: a table without default flags gets the column, and the row
/// with the lowest identifier becomes the default.
pub open spec fn defaults_added(table: ProfileTableView) -> ProfileTableView {
    if table.has_is_default {
        table
    } else {
        ProfileTableView {
            has_is_default: true,
            rows: Seq::new(
                table.rows.len(),
                |i: int|
                    StoredRowView {
                        profile: table.rows[i].profile.flagged(i == lowest(table.rows)),
                        ..table.rows[i]
                    },
            ),
            ..table
        }
    }
}

/// The PIN hash after the third step: the one embedded in the row with the
/// lowest identifier, where the table has the deprecated column and a row.
pub open spec fn hash_moved(stored: Option<Seq<char>>, table: ProfileTableView) -> Option<
    Seq<char>,
> {
    if table.has_password_hash && table.rows.len() > 0 {
        Some(table.rows[lowest(table.rows)].password_hash)
    } else {
        stored
    }
}

/// The table after the third step: the deprecated column is dropped.
pub open spec fn hash_dropped(table: ProfileTableView) -> ProfileTableView {
    if table.has_password_hash {
        ProfileTableView {
            has_password_hash: false,
            rows: Seq::new(
                table.rows.len(),
                |i: int| StoredRowView { password_hash: Seq::empty(), ..table.rows[i] },
            ),
            ..table
        }
    } else {
        table
    }
}

/// The image brought to the current layout.
pub open spec fn migrated(image: StoreImageView) -> StoreImageView {
    match image.api_info {
        None => StoreImageView { api_info: Some(empty_table()), ..image },
        Some(table) => {
            let flagged = defaults_added(names_added(table));
            StoreImageView {
                first_run: image.first_run,
                password_hash: hash_moved(image.password_hash, flagged),
                api_info: Some(hash_dropped(flagged)),
            }
        },
    }
}

/// Migration always ends in the current layout.
pub proof fn lemma_migrated_is_current(image: StoreImageView)
    ensures
        schema_version_of(migrated(image)) == SchemaVersion::Current,
        schema_version_of(migrated(initialized(image))) == SchemaVersion::Current,
{
}

/// Migration is idempotent: an image of the current layout is left as it
/// is, so migrating twice gives what migrating once gives.
pub proof fn lemma_migration_idempotent(image: StoreImageView)
    ensures
        schema_version_of(image) == SchemaVersion::Current ==> migrated(image) == image,
        migrated(migrated(image)) == migrated(image),
{
    lemma_migrated_is_current(image);
}

/// A store of the older layout with one profile keeps what it held: the
/// embedded PIN hash becomes the PIN hash of the store, the profile is the
/// default, its credentials are as they were, and the deprecated column is
/// gone.
pub proof fn lemma_legacy_profile_migrated(image: StoreImageView)
    requires
        image.api_info is Some,
        !image.api_info->0.has_profile_name,
        !image.api_info->0.has_is_default,
        image.api_info->0.has_password_hash,
        image.api_info->0.rows.len() == 1,
    ensures
        ({
            let found = image.api_info->0.rows[0];
            let after = migrated(image);
            &&& after.password_hash == Some(found.password_hash)
            &&& after.first_run == image.first_run
            &&& !after.api_info->0.has_password_hash
            &&& after.api_info->0.rows.len() == 1
            &&& after.api_info->0.rows[0].profile == ApiInfoView {
                profile_name: default_name(),
                is_default: true,
                ..found.profile
            }
        }),
{
    let named = names_added(image.api_info->0);
    assert(is_lowest(named.rows, 0));
    let flagged = defaults_added(named);
    assert(is_lowest(flagged.rows, 0));
}

/// Migration loses nothing: every row is still there under its identifier,
/// with its credentials, address and port, and a table that had profile
/// names keeps them.
pub proof fn lemma_migration_keeps_profiles(image: StoreImageView, i: int)
    requires
        image.api_info is Some,
        0 <= i < image.api_info->0.rows.len(),
    ensures
        ({
            let before = image.api_info->0;
            let after = migrated(image).api_info->0;
            &&& after.rows.len() == before.rows.len()
            &&& after.rows[i].profile.id == before.rows[i].profile.id
            &&& after.rows[i].profile.api_key == before.rows[i].profile.api_key
            &&& after.rows[i].profile.api_secret == before.rows[i].profile.api_secret
            &&& after.rows[i].profile.api_url == before.rows[i].profile.api_url
            &&& after.rows[i].profile.port == before.rows[i].profile.port
            &&& before.has_profile_name ==> after.rows[i].profile.profile_name
                == before.rows[i].profile.profile_name
            &&& before.has_is_default ==> after.rows[i].profile.is_default
                == before.rows[i].profile.is_default
        }),
{
}

/// The layout of an image.
pub fn schema_version(image: &StoreImage) -> (version: SchemaVersion)
    ensures
        version == schema_version_of(image@),
{
    match &image.api_info {
        None => SchemaVersion::Absent,
        Some(table) => if table.has_profile_name && table.has_is_default
            && !table.has_password_hash {
            SchemaVersion::Current
        } else {
            SchemaVersion::LegacySingleProfile
        },
    }
}

/// Makes sure that the image has a profile table: where it has none, it
/// gets an empty one of the current layout.
pub fn initialize_tables(image: StoreImage) -> (ready: StoreImage)
    ensures
        ready@ == initialized(image@),
{
    match image.api_info {
        Some(table) => StoreImage {
            first_run: image.first_run,
            password_hash: image.password_hash,
            api_info: Some(table),
        },
        None => {
            let table = ProfileTable {
                has_profile_name: true,
                has_is_default: true,
                has_password_hash: false,
                rows: Vec::new(),
            };
            assert(table@ == empty_table());
            StoreImage {
                first_run: image.first_run,
                password_hash: image.password_hash,
                api_info: Some(table),
            }
        },
    }
}

/// A row as a migration step leaves it: renamed to `Default` where `rename`
/// holds, flagged as `flag` says, without its PIN hash where `drop_hash`
/// holds.
pub open spec fn altered(
    row: StoredRowView,
    rename: bool,
    flag: Option<bool>,
    drop_hash: bool,
) -> StoredRowView {
    StoredRowView {
        profile: ApiInfoView {
            profile_name: if rename {
                default_name()
            } else {
                row.profile.profile_name
            },
            is_default: match flag {
                Some(is_default) => is_default,
                None => row.profile.is_default,
            },
            ..row.profile
        },
        password_hash: if drop_hash {
            Seq::empty()
        } else {
            row.password_hash
        },
    }
}

/// The rows as a migration step leaves them. With `promote`, the row at
/// that place becomes the only default.
fn alter(rows: &Vec<StoredRow>, rename: bool, promote: Option<usize>, drop_hash: bool) -> (out:
    Vec<StoredRow>)
    ensures
        out.len() == rows.len(),
        forall|i: int|
            0 <= i < rows.len() ==> (#[trigger] out.deep_view()[i]) == altered(
                rows.deep_view()[i],
                rename,
                match promote {
                    Some(k) => Some(i == k),
                    None => None,
                },
                drop_hash,
            ),
{
    let mut out: Vec<StoredRow> = Vec::new();
    let mut i: usize = 0;
    while i < rows.len()
        invariant
            i <= rows.len(),
            out.len() == i,
            forall|j: int|
                0 <= j < i ==> (#[trigger] out.deep_view()[j]) == altered(
                    rows.deep_view()[j],
                    rename,
                    match promote {
                        Some(k) => Some(j == k),
                        None => None,
                    },
                    drop_hash,
                ),
        decreases rows.len() - i,
    {
        let row = &rows[i];
        let profile = ApiInfo {
            id: row.profile.id,
            profile_name: if rename {
                "Default".to_owned()
            } else {
                row.profile.profile_name.clone()
            },
            api_key: row.profile.api_key.clone(),
            api_secret: row.profile.api_secret.clone(),
            api_url: row.profile.api_url.clone(),
            port: row.profile.port,
            is_default: match promote {
                Some(k) => i == k,
                None => row.profile.is_default,
            },
        };
        let password_hash = if drop_hash {
            String::new()
        } else {
            row.password_hash.clone()
        };
        let ghost done = out.deep_view();
        out.push(StoredRow { profile, password_hash });
        proof {
            assert(rows.deep_view()[i as int] == row@);
            assert forall|j: int| 0 <= j < i implies (#[trigger] out.deep_view()[j]) == done[j] by {}
        }
        i += 1;
    }
    out
}

/// Where the row with the lowest identifier stands.
fn lowest_row(rows: &Vec<StoredRow>) -> (k: usize)
    requires
        rows.len() > 0,
    ensures
        is_lowest(rows.deep_view(), k as int),
        lowest(rows.deep_view()) == k,
{
    let mut k: usize = 0;
    let mut i: usize = 1;
    while i < rows.len()
        invariant
            1 <= i <= rows.len(),
            k < i,
            forall|j: int|
                0 <= j < i ==> rows.deep_view()[k as int].profile.id <= (
                #[trigger] rows.deep_view()[j]).profile.id,
            forall|j: int|
                0 <= j < k ==> rows.deep_view()[k as int].profile.id < (
                #[trigger] rows.deep_view()[j]).profile.id,
        decreases rows.len() - i,
    {
        if rows[i].profile.id < rows[k].profile.id {
            k = i;
        }
        i += 1;
    }
    proof {
        let all = rows.deep_view();
        let c = lowest(all);
        assert(is_lowest(all, k as int));
        if c < k {
            assert(all[k as int].profile.id < all[c].profile.id);
            assert(all[c].profile.id <= all[k as int].profile.id);
        } else if k < c {
            assert(all[c].profile.id < all[k as int].profile.id);
            assert(all[k as int].profile.id <= all[c].profile.id);
        }
    }
    k
}

/// Brings an image to the current layout. A table without profile names
/// gets them, each row the name `Default`; one without default flags gets
/// them, with the lowest identifier as the default; a PIN hash embedded in
/// the profile table moves to the settings record, and its column goes.
/// An image of the current layout is returned as it is.
pub fn migrate_data(image: StoreImage) -> (current: StoreImage)
    ensures
        current@ == migrated(image@),
{
    let ghost found = image@;
    let StoreImage { first_run, password_hash, api_info } = image;
    let table = match api_info {
        None => {
            let table = ProfileTable {
                has_profile_name: true,
                has_is_default: true,
                has_password_hash: false,
                rows: Vec::new(),
            };
            assert(table@ == empty_table());
            return StoreImage { first_run, password_hash, api_info: Some(table) };
        },
        Some(table) => table,
    };
    let ProfileTable { has_profile_name, has_is_default, has_password_hash, rows } = table;
    let ghost start = found.api_info->0;
    let rows = if has_profile_name {
        rows
    } else {
        alter(&rows, true, None, false)
    };
    let ghost named = ProfileTableView {
        has_profile_name: true,
        has_is_default,
        has_password_hash,
        rows: rows.deep_view(),
    };
    assert(named == names_added(start));
    let rows = if has_is_default {
        rows
    } else if rows.len() == 0 {
        rows
    } else {
        let low = lowest_row(&rows);
        alter(&rows, false, Some(low), false)
    };
    let ghost flagged = ProfileTableView {
        has_profile_name: true,
        has_is_default: true,
        has_password_hash,
        rows: rows.deep_view(),
    };
    assert(flagged == defaults_added(named));
    let password_hash = if has_password_hash && rows.len() > 0 {
        let low = lowest_row(&rows);
        Some(rows[low].password_hash.clone())
    } else {
        password_hash
    };
    let rows = if has_password_hash {
        alter(&rows, false, None, true)
    } else {
        rows
    };
    let table = ProfileTable {
        has_profile_name: true,
        has_is_default: true,
        has_password_hash: false,
        rows,
    };
    assert(table@ == hash_dropped(flagged));
    StoreImage { first_run, password_hash, api_info: Some(table) }
}

} // verus!
