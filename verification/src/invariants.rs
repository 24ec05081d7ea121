//! What the store operations keep: a store with profiles has one default.

use crate::db::{
    default_of, deleted, has_name, is_first_default, lemma_saved_well_formed,
    lemma_stored_ordered, names_distinct, no_default, ordered, position, promoted, saved, settled,
    settled_default, single_default, stored, well_formed, with_default, ApiInfoView,
};
use vstd::prelude::*;

verus! {

/// Promoting the lowest identifier gives a store with profiles and no
/// default exactly one, and leaves a store with a default as it is.
pub proof fn lemma_promoted_single_default(rows: Seq<ApiInfoView>)
    requires
        rows.len() > 0,
    ensures
        no_default(rows) ==> single_default(promoted(rows)) && promoted(rows)[0].is_default,
        !no_default(rows) ==> promoted(rows) == rows,
{
    if no_default(rows) {
        let s = promoted(rows);
        assert(s[0].is_default);
        assert forall|j: int| 0 <= j < s.len() && j != 0 implies !(#[trigger] s[j]).is_default by {
            assert(s[j] == rows[j]);
        }
    }
}

/// Among rows of which one is flagged default, one is the first that is.
proof fn lemma_first_default_exists(rows: Seq<ApiInfoView>, k: int) -> (first: int)
    requires
        0 <= k < rows.len(),
        rows[k].is_default,
    ensures
        is_first_default(rows, first),
        first <= k,
    decreases k,
{
    if exists|j: int| 0 <= j < k && (#[trigger] rows[j]).is_default {
        let j = choose|j: int| 0 <= j < k && (#[trigger] rows[j]).is_default;
        lemma_first_default_exists(rows, j)
    } else {
        k
    }
}

/// Rows whose flags are settled have exactly one default. Rows that had
/// exactly one are left as they are, and rows that had none get the lowest
/// identifier as theirs.
pub proof fn lemma_settled_single_default(rows: Seq<ApiInfoView>)
    requires
        rows.len() > 0,
    ensures
        single_default(settled(rows)),
        0 <= settled_default(rows) < rows.len(),
        settled(rows)[settled_default(rows)].is_default,
        single_default(rows) ==> settled(rows) == rows,
        no_default(rows) ==> settled(rows) == promoted(rows),
        default_of(settled(rows)) == Some(settled(rows)[settled_default(rows)]),
{
    let s = settled(rows);
    let d = settled_default(rows);
    if !no_default(rows) {
        let k = choose|i: int| 0 <= i < rows.len() && (#[trigger] rows[i]).is_default;
        let first = lemma_first_default_exists(rows, k);
        assert(is_first_default(rows, d));
    }
    assert(s[d].is_default);
    assert forall|j: int| 0 <= j < s.len() && j != d implies !(#[trigger] s[j]).is_default by {}
    if single_default(rows) {
        let only = choose|i: int|
            0 <= i < rows.len() && (#[trigger] rows[i]).is_default && forall|j: int|
                0 <= j < rows.len() && j != i ==> !(#[trigger] rows[j]).is_default;
        assert(rows[d].is_default);
        assert(d == only);
        assert forall|i: int| 0 <= i < rows.len() implies s[i] == rows[i] by {
            if i != d {
                assert(!rows[i].is_default);
            }
        }
        assert(s =~= rows);
    }
    if no_default(rows) {
        assert forall|i: int| 0 <= i < rows.len() implies s[i] == promoted(rows)[i] by {
            if i != 0 {
                assert(!rows[i].is_default);
            }
        }
        assert(s =~= promoted(rows));
    }
    assert(is_first_default(s, d)) by {
        assert forall|j: int| 0 <= j < d implies !(#[trigger] s[j]).is_default by {}
    }
    let c = choose|i: int| is_first_default(s, i);
    if c < d {
        assert(!s[c].is_default);
    } else if d < c {
        assert(!s[d].is_default);
    }
    assert(!no_default(s));
}

/// After a profile was made the default it is the only one.
pub proof fn lemma_with_default_single(rows: Seq<ApiInfoView>, name: Seq<char>)
    requires
        names_distinct(rows),
        has_name(rows, name),
    ensures
        single_default(with_default(rows, name)),
        with_default(rows, name)[position(rows, name)].is_default,
{
    let k = position(rows, name);
    let w = with_default(rows, name);
    assert(w[k].is_default);
    assert forall|j: int| 0 <= j < w.len() && j != k implies !(#[trigger] w[j]).is_default by {
        if j < k {
            assert(rows[j].profile_name != rows[k].profile_name);
        } else {
            assert(rows[k].profile_name != rows[j].profile_name);
        }
    }
}

/// An empty store has no default profile. The first profile saved to it is
/// its default, whatever flag it asked for.
pub proof fn lemma_first_save_is_default(profile: ApiInfoView)
    ensures
        default_of(Seq::empty()) is None,
        saved(Seq::empty(), profile) == seq![profile.stored_as(1, true)],
        single_default(saved(Seq::empty(), profile)),
        default_of(saved(Seq::empty(), profile)) == Some(profile.stored_as(1, true)),
{
    let s = saved(Seq::empty(), profile);
    assert(s[0].is_default);
    assert(is_first_default(s, 0));
    let c = choose|i: int| is_first_default(s, i);
    assert(c == 0);
}

/// A saved profile that asks to be the default is the only default
/// afterwards.
pub proof fn lemma_save_makes_default(rows: Seq<ApiInfoView>, profile: ApiInfoView)
    requires
        ordered(rows),
        profile.is_default,
    ensures
        single_default(saved(rows, profile)),
        saved(rows, profile).last().profile_name == profile.profile_name,
        saved(rows, profile).last().is_default,
{
    lemma_stored_ordered(rows, profile);
    lemma_with_default_single(stored(rows, profile), profile.profile_name);
}

/// Saving a profile under a new name, without asking for it to be the
/// default, leaves the rows that were there as they were: the default of
/// the store stays the default.
pub proof fn lemma_save_keeps_default(rows: Seq<ApiInfoView>, profile: ApiInfoView)
    requires
        well_formed(rows),
        rows.len() > 0,
        !has_name(rows, profile.profile_name),
        !profile.is_default,
    ensures
        saved(rows, profile) == rows.push(profile.stored_as(rows.last().id + 1, false)),
        single_default(saved(rows, profile)),
{
    let s = stored(rows, profile);
    let k = choose|i: int|
        0 <= i < rows.len() && (#[trigger] rows[i]).is_default && forall|j: int|
            0 <= j < rows.len() && j != i ==> !(#[trigger] rows[j]).is_default;
    assert(s[k] == rows[k]);
    assert(s[k].is_default);
    assert forall|j: int| 0 <= j < s.len() && j != k implies !(#[trigger] s[j]).is_default by {
        if j < rows.len() {
            assert(s[j] == rows[j]);
        }
    }
    assert(single_default(s));
    lemma_settled_single_default(s);
}

/// The rows after a run of saves, one after the other.
pub open spec fn saved_all(rows: Seq<ApiInfoView>, profiles: Seq<ApiInfoView>) -> Seq<ApiInfoView>
    decreases profiles.len(),
{
    if profiles.len() == 0 {
        rows
    } else {
        saved(saved_all(rows, profiles.drop_last()), profiles.last())
    }
}

/// A run of saves keeps the rows in order.
proof fn lemma_saved_all_ordered(profiles: Seq<ApiInfoView>)
    ensures
        ordered(saved_all(Seq::empty(), profiles)),
    decreases profiles.len(),
{
    if profiles.len() > 0 {
        lemma_saved_all_ordered(profiles.drop_last());
        lemma_saved_well_formed(saved_all(Seq::empty(), profiles.drop_last()), profiles.last());
    }
}

/// Whatever run of profiles is saved to an empty store, under different
/// names or not, asking to be the default or not, the store has exactly one
/// default after each save.
pub proof fn lemma_saves_keep_single_default(profiles: Seq<ApiInfoView>, count: int)
    requires
        1 <= count <= profiles.len(),
    ensures
        single_default(saved_all(Seq::empty(), profiles.take(count))),
{
    let run = profiles.take(count);
    lemma_saved_all_ordered(run.drop_last());
    lemma_saved_well_formed(saved_all(Seq::empty(), run.drop_last()), run.last());
}

/// Deleting the default of a store with several profiles leaves exactly one
/// default among those that stay: the one with the lowest identifier.
pub proof fn lemma_delete_default_promotes_lowest(rows: Seq<ApiInfoView>, name: Seq<char>)
    requires
        ordered(rows),
        rows.len() > 1,
        single_default(rows),
        has_name(rows, name),
        rows[position(rows, name)].is_default,
    ensures
        deleted(rows, name).len() == rows.len() - 1,
        !has_name(deleted(rows, name), name),
        single_default(deleted(rows, name)),
        deleted(rows, name)[0].is_default,
        forall|i: int|
            0 < i < deleted(rows, name).len() ==> deleted(rows, name)[0].id < (
            #[trigger] deleted(rows, name)[i]).id,
        deleted(rows, name) == rows.remove(position(rows, name)).update(
            0,
            rows.remove(position(rows, name))[0].flagged(true),
        ),
{
    let k = position(rows, name);
    let rest = rows.remove(k);
    let d = choose|i: int|
        0 <= i < rows.len() && (#[trigger] rows[i]).is_default && forall|j: int|
            0 <= j < rows.len() && j != i ==> !(#[trigger] rows[j]).is_default;
    assert(d == k);
    assert forall|i: int| 0 <= i < rest.len() implies !(#[trigger] rest[i]).is_default
        && rest[i].profile_name != name by {
        let from = if i < k {
            i
        } else {
            i + 1
        };
        assert(rest[i] == rows[from]);
        if from < k {
            assert(rows[from].profile_name != rows[k].profile_name);
        } else {
            assert(rows[k].profile_name != rows[from].profile_name);
        }
    }
    assert(no_default(rest));
    lemma_settled_single_default(rest);
    lemma_promoted_single_default(rest);
    let after = deleted(rows, name);
    assert(after =~= rest.update(0, rest[0].flagged(true)));
    assert forall|i: int| 0 < i < after.len() implies after[0].id < (#[trigger] after[i]).id by {
        let from_first = if 0 < k {
            0int
        } else {
            1int
        };
        let from = if i < k {
            i
        } else {
            i + 1
        };
        assert(rest[0] == rows[from_first] && rest[i] == rows[from]);
        assert(rows[from_first].id < rows[from].id);
    }
    assert forall|i: int| 0 <= i < after.len() implies (#[trigger] after[i]).profile_name
        != name by {
        assert(after[i].profile_name == rest[i].profile_name);
    }
}

/// Deleting the last profile of a store leaves no profile and no default.
pub proof fn lemma_delete_last_profile(rows: Seq<ApiInfoView>, name: Seq<char>)
    requires
        rows.len() == 1,
        has_name(rows, name),
    ensures
        deleted(rows, name).len() == 0,
        no_default(deleted(rows, name)),
{
}

/// Whatever profile is deleted, and whatever the flags were, the profiles
/// that stay have exactly one default between them.
pub proof fn lemma_delete_leaves_single_default(rows: Seq<ApiInfoView>, name: Seq<char>)
    requires
        rows.len() > 1,
        has_name(rows, name),
    ensures
        deleted(rows, name).len() == rows.len() - 1,
        single_default(deleted(rows, name)),
{
    lemma_settled_single_default(rows.remove(position(rows, name)));
}

/// Deleting a profile that is not the default leaves the default of a
/// store with one default as it was.
pub proof fn lemma_delete_keeps_default(rows: Seq<ApiInfoView>, name: Seq<char>)
    requires
        ordered(rows),
        single_default(rows),
        has_name(rows, name),
        !rows[position(rows, name)].is_default,
    ensures
        deleted(rows, name) == rows.remove(position(rows, name)),
        default_of(deleted(rows, name)) == default_of(rows),
{
    let k = position(rows, name);
    let rest = rows.remove(k);
    let d = choose|i: int|
        0 <= i < rows.len() && (#[trigger] rows[i]).is_default && forall|j: int|
            0 <= j < rows.len() && j != i ==> !(#[trigger] rows[j]).is_default;
    let at = if d < k {
        d
    } else {
        d - 1
    };
    assert(rest[at] == rows[d]);
    assert(rest[at].is_default);
    assert forall|j: int| 0 <= j < rest.len() && j != at implies !(#[trigger] rest[j]).is_default by {
        let from = if j < k {
            j
        } else {
            j + 1
        };
        assert(rest[j] == rows[from]);
    }
    assert(single_default(rest));
    lemma_settled_single_default(rest);
    assert(is_first_default(rows, d));
    assert(is_first_default(rest, at));
    let c = choose|i: int| is_first_default(rows, i);
    if c < d {
        assert(!rows[c].is_default);
    } else if d < c {
        assert(!rows[d].is_default);
    }
    let e = choose|i: int| is_first_default(rest, i);
    if e < at {
        assert(!rest[e].is_default);
    } else if at < e {
        assert(!rest[at].is_default);
    }
}

} // verus!
