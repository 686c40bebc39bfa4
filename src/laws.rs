//! Properties of the store that relate several operations, proved over the
//! models that the operations' contracts speak of.
use crate::clock::{expiry_after, is_expired};
use crate::db::is_lower_hex_digit;
use crate::error::ascii_chars;
use crate::db::FishRecord;
use crate::fish::{FishFields, FishPatch, FishView};
use crate::rows::lemma_filter_ids_increasing;
use crate::store::{
    expired_sessions, is_header_char, is_header_text, login_outcome, names_live_session, owned_by,
    owned_by_any, reap_outcome, visible, StoreView,
};
use vstd::prelude::*;

verus! {

/// A fish that session `owner` created (what [`crate::SessionStore::create`]
/// returns as `created` and leaves behind as `after`) is seen by no other
/// scope: neither another session nor the template view finds it by id or
/// lists it.
pub proof fn created_fish_stay_in_their_session(
    before: StoreView,
    after: StoreView,
    owner: Seq<char>,
    created: FishView,
    scope: Option<Seq<char>>,
)
    requires
        after.wf(),
        after.fish == before.fish.push(
            FishRecord { id: created.id, owner: Some(owner), fields: created.fields },
        ),
        scope != Some(owner),
    ensures
        !after.holds(scope, created.id),
        forall|k: int|
            0 <= k < visible(after.fish, scope).len() ==> (#[trigger] visible(
                after.fish,
                scope,
            )[k]).id != created.id,
{
    let last = after.fish.len() - 1;
    assert(after.fish[last].owner == Some(owner));
    assert forall|i: int| 0 <= i < after.fish.len() && after.fish[i].id == created.id implies i
        == last by {
        if i < last {
            assert(after.fish[i].id < after.fish[last].id);
        }
    }
    assert forall|k: int| 0 <= k < visible(after.fish, scope).len() implies (#[trigger] visible(
        after.fish,
        scope,
    )[k]).id != created.id by {
        let v = visible(after.fish, scope);
        let p = owned_by(scope);
        lemma_filter_ids_increasing(after.fish, p);
        after.fish.lemma_filter_pred(p, k);
        assert(after.fish.contains(v[k]));
        let i = choose|i: int| 0 <= i < after.fish.len() && after.fish[i] == v[k];
        assert(v[k].owner == scope);
    }
}

/// An update that gives no field leaves the fish's fields as they were.
pub proof fn empty_update_changes_nothing(fields: FishFields, patch: FishPatch)
    requires
        patch.is_empty(),
    ensures
        fields.patched(patch) == fields,
{
}

/// An update changes exactly the fields that it gives, to the values given.
pub proof fn update_changes_only_given_fields(fields: FishFields, patch: FishPatch)
    ensures
        fields.patched(patch).name == match patch.name {
            Some(n) => n,
            None => fields.name,
        },
        fields.patched(patch).species == match patch.species {
            Some(s) => s,
            None => fields.species,
        },
        fields.patched(patch).age == match patch.age {
            Some(a) => a,
            None => fields.age,
        },
        fields.patched(patch).weight == match patch.weight {
            Some(w) => w,
            None => fields.weight,
        },
{
}

/// Once reaping has deleted a session, no scope finds any of the fish that
/// the session owned.
pub proof fn reaped_fish_are_gone(
    before: StoreView,
    after: StoreView,
    ids: Seq<Seq<char>>,
    now: i64,
    fish_id: u32,
    scope: Option<Seq<char>>,
)
    requires
        before.wf(),
        reap_outcome(before, after, ids, now),
        exists|i: int|
            0 <= i < before.fish.len() && before.fish[i].id == fish_id && owned_by_any(
                before.fish[i],
                expired_sessions(before.sessions, now),
            ),
    ensures
        !after.holds(scope, fish_id),
{
    let expired = expired_sessions(before.sessions, now);
    let p = |row: FishRecord| !owned_by_any(row, expired);
    let i = choose|i: int|
        0 <= i < before.fish.len() && before.fish[i].id == fish_id && owned_by_any(
            before.fish[i],
            expired,
        );
    lemma_filter_ids_increasing(before.fish, p);
    assert forall|k: int| 0 <= k < after.fish.len() implies after.fish[k].id != fish_id by {
        before.fish.lemma_filter_pred(p, k);
        assert(before.fish.contains(after.fish[k]));
        let j = choose|j: int| 0 <= j < before.fish.len() && before.fish[j] == after.fish[k];
        assert(p(after.fish[k]));
        if j < i {
            assert(before.fish[j].id < before.fish[i].id);
        } else if i < j {
            assert(before.fish[i].id < before.fish[j].id);
        }
    }
}

/// Reaping at `now` keeps, unchanged, every session whose expiry is not
/// before `now` (one that expires at `now` itself included), and deletes and
/// reports every session whose expiry is before `now`.
pub proof fn reaping_goes_by_expiry(
    before: StoreView,
    after: StoreView,
    ids: Seq<Seq<char>>,
    now: i64,
    token: Seq<char>,
)
    requires
        reap_outcome(before, after, ids, now),
        before.sessions.contains_key(token),
    ensures
        before.sessions[token] >= now ==> after.sessions.contains_key(token)
            && after.sessions[token] == before.sessions[token] && !ids.contains(token),
        before.sessions[token] == now ==> after.sessions.contains_key(token),
        before.sessions[token] < now ==> !after.sessions.contains_key(token) && ids.contains(
            token,
        ),
{
    let expired = expired_sessions(before.sessions, now);
    assert(expired.contains(token) == is_expired(before.sessions[token], now));
    if ids.contains(token) {
        let k = choose|k: int| 0 <= k < ids.len() && ids[k] == token;
        assert(expired.contains(ids[k]));
    }
}

/// After a login at `now` that handed out the token `token`, a session
/// header whose bytes spell that token names a live session at every
/// instant before the expiry; so [`crate::SessionStore::from_header_at`]
/// answers such a request with that session's view.
pub proof fn login_token_names_its_session(
    before: StoreView,
    after: StoreView,
    token: Seq<char>,
    expires_at: Seq<char>,
    now: i64,
    header: Seq<u8>,
    later: i64,
)
    requires
        login_outcome(before, after, token, expires_at, now),
        ascii_chars(header) == token,
        later < expiry_after(now),
    ensures
        names_live_session(after, header, later),
{
    assert forall|i: int| 0 <= i < header.len() implies is_header_char(
        #[trigger] header[i],
    ) by {
        assert(ascii_chars(header)[i] == header[i] as char);
        assert(is_lower_hex_digit(token[i]));
    }
    assert(is_header_text(header));
}

} // verus!
