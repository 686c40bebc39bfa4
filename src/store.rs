//! The store: one database connection holding the sessions and their fish,
//! and the session-scoped view through which all fish are read and changed.
use crate::clock::{
    expiry_after, format_timestamp, in_timestamp_range, is_expired, is_live, now_second,
    session_expiry, timestamp_text,
};
use crate::db::{
    backup_holds, backup_to_file, owner_view,
    delete_fish_row, delete_session, fish_table, insert_fish, insert_session, is_token,
    open_database, row_record, select_all_fish, select_all_sessions, select_fish,
    select_session_expiry, session_table, update_fish_row, FishRecord, FishRow,
};
use crate::error::{all_ascii, ascii_chars, text_of_bytes, StoreError};
use crate::fish::{
    apply_update, CreateFishRequest, Fish, FishFields, FishId, LoginResponse, SessionId,
    UpdateFishRequest, WeightKg,
};
use crate::rows::{
    ids_increasing, lemma_filter_filter, lemma_filter_ids_increasing, lemma_filter_keeps_all,
    lemma_filter_keeps_none, lemma_filter_take_next,
};
use vstd::prelude::*;

verus! {

/// The fields of the template fish that every new session gets a copy of.
pub open spec fn seed_fields() -> Seq<FishFields> {
    seq![
        FishFields { name: "Nemo"@, species: "Clownfish"@, age: 2, weight: 4591870180066957722 },
        FishFields { name: "Dory"@, species: "Blue Tang"@, age: 5, weight: 4599075939470750515 },
        FishFields {
            name: "Sam"@,
            species: "Sockeye Salmon"@,
            age: 5,
            weight: 4617540697942969549,
        },
        FishFields {
            name: "Barry"@,
            species: "Great Barracuda"@,
            age: 11,
            weight: 4620862102668155290,
        },
    ]
}

/// The template fish, as bodies to insert.
pub fn seed_fish() -> (r: Vec<CreateFishRequest>)
    ensures
        r@.map_values(|b: CreateFishRequest| b@) == seed_fields(),
{
    let r = vec![
        CreateFishRequest {
            name: String::from_str("Nemo"),
            species: String::from_str("Clownfish"),
            age: 2,
            weight_kg: WeightKg(4591870180066957722),
        },
        CreateFishRequest {
            name: String::from_str("Dory"),
            species: String::from_str("Blue Tang"),
            age: 5,
            weight_kg: WeightKg(4599075939470750515),
        },
        CreateFishRequest {
            name: String::from_str("Sam"),
            species: String::from_str("Sockeye Salmon"),
            age: 5,
            weight_kg: WeightKg(4617540697942969549),
        },
        CreateFishRequest {
            name: String::from_str("Barry"),
            species: String::from_str("Great Barracuda"),
            age: 11,
            weight_kg: WeightKg(4620862102668155290),
        },
    ];
    assert(r@.map_values(|b: CreateFishRequest| b@) =~= seed_fields());
    r
}

/// What the store holds: the session table and the rows of the fish table.
pub struct StoreView {
    pub sessions: Map<Seq<char>, i64>,
    pub fish: Seq<FishRecord>,
}

/// The rows that `scope` sees: those that it owns, or the templates for no
/// session.
pub open spec fn visible(fish: Seq<FishRecord>, scope: Option<Seq<char>>) -> Seq<FishRecord> {
    fish.filter(owned_by(scope))
}

/// Whether a row belongs to `scope`.
pub open spec fn owned_by(scope: Option<Seq<char>>) -> spec_fn(FishRecord) -> bool {
    |r: FishRecord| r.owner == scope
}

/// The fish that rows describe.
pub open spec fn fish_of(rows: Seq<FishRecord>) -> Seq<crate::fish::FishView> {
    rows.map_values(|r: FishRecord| r.fish())
}

/// Tokens of the sessions in `sessions` that are due for reaping at `now`.
pub open spec fn expired_sessions(sessions: Map<Seq<char>, i64>, now: i64) -> Set<Seq<char>> {
    Set::new(|t: Seq<char>| sessions.contains_key(t) && is_expired(sessions[t], now))
}

/// The row is owned by one of `tokens`.
pub open spec fn owned_by_any(r: FishRecord, tokens: Set<Seq<char>>) -> bool {
    r.owner matches Some(t) && tokens.contains(t)
}

/// The row is a template, or its owner is one of `sessions`.
pub open spec fn owner_known(r: FishRecord, sessions: Map<Seq<char>, i64>) -> bool {
    r.owner matches Some(t) ==> sessions.contains_key(t)
}

impl StoreView {
    /// Ids are unique and grow with insertion; each owned row belongs to a
    /// session of the table.
    pub open spec fn wf(self) -> bool {
        &&& ids_increasing(self.fish)
        &&& forall|i: int|
            0 <= i < self.fish.len() ==> owner_known(#[trigger] self.fish[i], self.sessions)
    }

    /// `scope` holds a fish with this id.
    pub open spec fn holds(self, scope: Option<Seq<char>>, id: u32) -> bool {
        exists|i: int|
            0 <= i < self.fish.len() && self.fish[i].id == id && self.fish[i].owner == scope
    }

    /// The session exists and is live at `now`.
    pub open spec fn is_live_session(self, token: Seq<char>, now: i64) -> bool {
        self.sessions.contains_key(token) && is_live(self.sessions[token], now)
    }
}

/// The catalog: sessions and fish in one database connection.
#[derive(Debug)]
pub struct Store {
    conn: rusqlite::Connection,
}

impl View for Store {
    type V = StoreView;

    closed spec fn view(&self) -> StoreView {
        StoreView { sessions: session_table(self.conn), fish: fish_table(self.conn) }
    }
}

/// The fish of a row read from the database.
fn fish_from_row(row: &FishRow) -> (r: Fish)
    ensures
        r@ == row_record(*row).fish(),
{
    Fish {
        id: FishId(row.0),
        name: row.2.clone(),
        species: row.3.clone(),
        age: row.4,
        weight_kg: WeightKg(row.5),
    }
}

/// The row belongs to `session`, or is a template when there is none.
fn row_in_scope(row: &FishRow, session: &Option<SessionId>) -> (r: bool)
    ensures
        r == (row_record(*row).owner == match session {
            Some(s) => Some(s@),
            None => None::<Seq<char>>,
        }),
{
    match &row.1 {
        None => session.is_none(),
        Some(owner) => match session {
            Some(s) => owner.eq(&s.0),
            None => false,
        },
    }
}

/// The store after a login at `now` that returned `resp`: a new session with
/// a fresh token and an expiry one lifetime later, owning a copy of each
/// template fish and nothing else; all rows that were there are kept.
pub open spec fn login_outcome(
    before: StoreView,
    after: StoreView,
    resp_id: Seq<char>,
    resp_expires_at: Seq<char>,
    now: i64,
) -> bool {
    &&& is_token(resp_id)
    &&& !before.sessions.contains_key(resp_id)
    &&& after.sessions == before.sessions.insert(resp_id, expiry_after(now))
    &&& resp_expires_at == timestamp_text(expiry_after(now))
    &&& after.fish == before.fish + visible(after.fish, Some(resp_id))
    &&& visible(after.fish, Some(resp_id)).map_values(|x: FishRecord| x.fields) == visible(
        before.fish,
        None,
    ).map_values(|x: FishRecord| x.fields)
}

/// The store after reaping at `now` that returned the tokens `ids`: exactly
/// the sessions that had expired are gone, with the fish they owned, and
/// `ids` names each of them once.
pub open spec fn reap_outcome(
    before: StoreView,
    after: StoreView,
    ids: Seq<Seq<char>>,
    now: i64,
) -> bool {
    let expired = expired_sessions(before.sessions, now);
    &&& forall|k: int| 0 <= k < ids.len() ==> expired.contains(#[trigger] ids[k])
    &&& forall|a: int, b: int| 0 <= a < b < ids.len() ==> ids[a] != ids[b]
    &&& forall|t: Seq<char>| #[trigger] expired.contains(t) ==> ids.contains(t)
    &&& after.sessions == before.sessions.remove_keys(expired)
    &&& after.fish == before.fish.filter(|row: FishRecord| !owned_by_any(row, expired))
}

/// The store after reaping at `now` stopped part-way: some of the sessions
/// that had expired are gone, with the fish they owned; every other session
/// and fish is kept.
pub open spec fn partly_reaped(before: StoreView, after: StoreView, now: i64) -> bool {
    exists|gone: Set<Seq<char>>|
        {
            &&& gone.subset_of(expired_sessions(before.sessions, now))
            &&& after.sessions == before.sessions.remove_keys(gone)
            &&& after.fish == before.fish.filter(|row: FishRecord| !owned_by_any(row, gone))
        }
}

/// Views of session tokens.
pub open spec fn token_views(ids: Seq<SessionId>) -> Seq<Seq<char>> {
    ids.map_values(|s: SessionId| s@)
}

/// A byte that a header value may hold as text: visible ASCII or a tab.
pub open spec fn is_header_char(b: u8) -> bool {
    (32 <= b && b < 127) || b == 9
}

/// The header value is text.
pub open spec fn is_header_text(h: Seq<u8>) -> bool {
    forall|i: int| 0 <= i < h.len() ==> is_header_char(#[trigger] h[i])
}

/// Whether a header value is text.
fn header_is_text(h: &Vec<u8>) -> (r: bool)
    ensures
        r == is_header_text(h@),
{
    let mut i: usize = 0;
    while i < h.len()
        invariant
            i <= h@.len(),
            forall|k: int| 0 <= k < i ==> is_header_char(#[trigger] h@[k]),
        decreases h@.len() - i,
    {
        let b = h[i];
        if !((32 <= b && b < 127) || b == 9) {
            return false;
        }
        i = i + 1;
    }
    true
}

/// The header names a session that is live at `now`.
pub open spec fn names_live_session(store: StoreView, h: Seq<u8>, now: i64) -> bool {
    is_header_text(h) && store.is_live_session(ascii_chars(h), now)
}

/// The store after a login at `now` that failed half-way and could not be
/// undone: one session has been added whose token was never handed out,
/// expiring one lifetime later, owning copies of some template fish; it
/// stays until it is reaped. All rows that were there are kept.
pub open spec fn abandoned_login(before: StoreView, after: StoreView, now: i64) -> bool {
    exists|t: Seq<char>|
        {
            &&& is_token(t)
            &&& !before.sessions.contains_key(t)
            &&& after.sessions == before.sessions.insert(t, expiry_after(now))
            &&& after.fish == before.fish + visible(after.fish, Some(t))
        }
}

/// Deleting a session that a failed login added takes the store back to
/// where it was before the login.
proof fn lemma_login_undone(
    start: StoreView,
    token: Seq<char>,
    expires_at: i64,
    copied: Seq<FishRecord>,
    after: StoreView,
)
    requires
        forall|k: int|
            0 <= k < start.fish.len() ==> (#[trigger] start.fish[k]).owner != Some(token),
        !start.sessions.contains_key(token),
        forall|k: int| 0 <= k < copied.len() ==> (#[trigger] copied[k]).owner == Some(token),
        after.sessions == start.sessions.insert(token, expires_at).remove(token),
        after.fish == (start.fish + copied).filter(|row: FishRecord| row.owner != Some(token)),
    ensures
        after == start,
{
    lemma_new_session_removed(start, token, copied);
    assert(after.sessions =~= start.sessions);
}

/// A failed login that could not be undone leaves an abandoned session.
proof fn lemma_login_abandoned(
    start: StoreView,
    token: Seq<char>,
    now: i64,
    copied: Seq<FishRecord>,
    after: StoreView,
)
    requires
        forall|k: int|
            0 <= k < start.fish.len() ==> (#[trigger] start.fish[k]).owner != Some(token),
        is_token(token),
        !start.sessions.contains_key(token),
        forall|k: int| 0 <= k < copied.len() ==> (#[trigger] copied[k]).owner == Some(token),
        after.sessions == start.sessions.insert(token, expiry_after(now)),
        after.fish == start.fish + copied,
    ensures
        abandoned_login(start, after, now),
{
    lemma_new_session_rows(start, token, copied);
    assert(after.fish == start.fish + visible(after.fish, Some(token)));
}

/// Rows appended for a session that owns no row of `start` are exactly the
/// rows that session sees.
proof fn lemma_new_session_rows(start: StoreView, token: Seq<char>, copied: Seq<FishRecord>)
    requires
        forall|k: int|
            0 <= k < start.fish.len() ==> (#[trigger] start.fish[k]).owner != Some(token),
        forall|k: int| 0 <= k < copied.len() ==> (#[trigger] copied[k]).owner == Some(token),
    ensures
        visible(start.fish + copied, Some(token)) == copied,
{
    let mine = owned_by(Some(token));
    assert forall|k: int| 0 <= k < start.fish.len() implies !mine(#[trigger] start.fish[k]) by {}
    Seq::filter_distributes_over_add(start.fish, copied, mine);
    lemma_filter_keeps_none(start.fish, mine);
    lemma_filter_keeps_all(copied, mine);
    assert(visible(start.fish + copied, Some(token)) =~= copied);
}

/// Deleting a session that owns no row of `start` but every row appended
/// after them leaves the rows of `start`.
proof fn lemma_new_session_removed(start: StoreView, token: Seq<char>, copied: Seq<FishRecord>)
    requires
        forall|k: int|
            0 <= k < start.fish.len() ==> (#[trigger] start.fish[k]).owner != Some(token),
        forall|k: int| 0 <= k < copied.len() ==> (#[trigger] copied[k]).owner == Some(token),
    ensures
        (start.fish + copied).filter(|row: FishRecord| row.owner != Some(token)) == start.fish,
{
    let others = |row: FishRecord| row.owner != Some(token);
    Seq::filter_distributes_over_add(start.fish, copied, others);
    lemma_filter_keeps_all(start.fish, others);
    lemma_filter_keeps_none(copied, others);
    assert((start.fish + copied).filter(others) =~= start.fish);
}

impl Store {
    /// Opens a new database and fills it with the template fish, owned by no
    /// session.
    pub fn new() -> (r: Result<Store, StoreError>)
        ensures
            r matches Ok(s) ==> {
                &&& s@.wf()
                &&& s@.sessions == Map::<Seq<char>, i64>::empty()
                &&& s@.fish.len() == seed_fields().len()
                &&& forall|i: int|
                    0 <= i < s@.fish.len() ==> (#[trigger] s@.fish[i]).owner is None
                        && s@.fish[i].fields == seed_fields()[i]
            },
            r matches Err(e) ==> e is Sqlite,
    {
        let mut conn = match open_database() {
            Ok(c) => c,
            Err(e) => return Err(StoreError::Sqlite(e)),
        };
        let seeds = seed_fish();
        let none: Option<SessionId> = None;
        let mut i: usize = 0;
        while i < seeds.len()
            invariant
                0 <= i <= seeds@.len(),
                seeds@.map_values(|b: CreateFishRequest| b@) == seed_fields(),
                session_table(conn) == Map::<Seq<char>, i64>::empty(),
                ids_increasing(fish_table(conn)),
                fish_table(conn).len() == i,
                none is None,
                forall|k: int|
                    0 <= k < i ==> (#[trigger] fish_table(conn)[k]).owner is None
                        && fish_table(conn)[k].fields == seed_fields()[k],
            decreases seeds@.len() - i,
        {
            let ghost before = fish_table(conn);
            match insert_fish(&mut conn, &none, &seeds[i]) {
                Ok(_) => {},
                Err(e) => return Err(StoreError::Sqlite(e)),
            }
            assert(seeds@.map_values(|b: CreateFishRequest| b@)[i as int] == seeds@[i as int]@);
            assert(fish_table(conn)[i as int] == fish_table(conn).last());
            assert forall|k: int| 0 <= k < i implies #[trigger] fish_table(conn)[k]
                == before[k] by {}
            i = i + 1;
        }
        let s = Store { conn };
        assert(s@.wf());
        Ok(s)
    }

    /// Writes a snapshot of the whole database to the file at `path`.
    pub fn dump(&self, path: &str) -> (r: Result<(), StoreError>)
        ensures
            r is Ok ==> backup_holds(path@, self@.fish, self@.sessions),
            r matches Err(e) ==> e is Sqlite,
    {
        match backup_to_file(&self.conn, path) {
            Ok(()) => Ok(()),
            Err(e) => Err(StoreError::Sqlite(e)),
        }
    }

    /// Whether the session exists and is live at `now`.
    pub fn contains_session_at(&self, session_id: &SessionId, now: i64) -> (r: Result<
        bool,
        StoreError,
    >)
        ensures
            r matches Ok(b) ==> b == self@.is_live_session(session_id@, now),
            r matches Err(e) ==> e is Sqlite,
    {
        match select_session_expiry(&self.conn, session_id.as_str()) {
            Ok(Some(expires_at)) => Ok(expires_at > now),
            Ok(None) => Ok(false),
            Err(e) => Err(StoreError::Sqlite(e)),
        }
    }

    /// Deletes a session, and with it the fish it owns.
    fn drop_session(&mut self, id: &SessionId) -> (r: Result<(), StoreError>)
        requires
            old(self)@.wf(),
        ensures
            final(self)@.wf(),
            r is Ok ==> final(self)@.sessions == old(self)@.sessions.remove(id@)
                && final(self)@.fish == old(self)@.fish.filter(
                |row: FishRecord| row.owner != Some(id@),
            ),
            r is Err ==> final(self)@ == old(self)@,
            r matches Err(e) ==> e is Sqlite,
    {
        let ghost before = self@;
        match delete_session(&mut self.conn, id) {
            Ok(_) => {
                let ghost p = |row: FishRecord| row.owner != Some(id@);
                proof {
                    lemma_filter_ids_increasing(before.fish, p);
                    assert forall|i: int| 0 <= i < self@.fish.len() implies owner_known(
                        #[trigger] self@.fish[i],
                        self@.sessions,
                    ) by {
                        assert(before.fish.contains(self@.fish[i]));
                        assert(p(self@.fish[i]));
                    }
                }
                Ok(())
            },
            Err(e) => Err(StoreError::Sqlite(e)),
        }
    }

    /// Undoes a login that failed with `cause` after its session was added:
    /// deletes the session, which takes its copied fish with it. When that
    /// deletion fails too, the half-made session is left to the reaper.
    fn abandon_login(&mut self, id: &SessionId, cause: rusqlite::Error) -> (e: StoreError)
        requires
            old(self)@.wf(),
        ensures
            final(self)@.wf(),
            e is Sqlite ==> final(self)@.sessions == old(self)@.sessions.remove(id@)
                && final(self)@.fish == old(self)@.fish.filter(
                |row: FishRecord| row.owner != Some(id@),
            ),
            e is LoginAbandoned ==> final(self)@ == old(self)@,
            e is Sqlite || e is LoginAbandoned,
    {
        match self.drop_session(id) {
            Ok(()) => StoreError::Sqlite(cause),
            Err(_) => StoreError::LoginAbandoned(cause),
        }
    }

    /// Copies each template row among `rows` (the fish table as `start`
    /// held it) into a new row owned by `owner`, in order. Also reports the
    /// rows it added, all of them when it succeeds.
    fn copy_templates(
        &mut self,
        owner: &Option<SessionId>,
        rows: &Vec<FishRow>,
        Ghost(start): Ghost<StoreView>,
    ) -> (r: (Result<(), rusqlite::Error>, Ghost<Seq<FishRecord>>))
        requires
            old(self)@.wf(),
            old(self)@.fish == start.fish,
            rows@.map_values(|row: FishRow| row_record(row)) == start.fish,
            owner matches Some(o) && old(self)@.sessions.contains_key(o@),
        ensures
            final(self)@.wf(),
            final(self)@.sessions == old(self)@.sessions,
            final(self)@.fish == start.fish + r.1@,
            forall|k: int| 0 <= k < r.1@.len() ==> (#[trigger] r.1@[k]).owner == owner_view(*owner),
            r.0 is Ok ==> r.1@.map_values(|x: FishRecord| x.fields) == visible(
                start.fish,
                None,
            ).map_values(|x: FishRecord| x.fields),
    {
        let ghost token = owner_view(*owner)->Some_0;
        let ghost templates = owned_by(None);
        let ghost mut copied: Seq<FishRecord> = Seq::empty();
        assert(start.fish + copied =~= start.fish);
        let n = rows.len();
        let mut i: usize = 0;
        while i < n
            invariant
                n == rows@.len(),
                i <= n,
                rows@.map_values(|row: FishRow| row_record(row)) == start.fish,
                templates == owned_by(None),
                owner_view(*owner) == Some(token),
                self@.wf(),
                self@.sessions == old(self)@.sessions,
                self@.sessions.contains_key(token),
                self@.fish == start.fish + copied,
                forall|k: int|
                    0 <= k < copied.len() ==> (#[trigger] copied[k]).owner == Some(token),
                copied.map_values(|x: FishRecord| x.fields) == start.fish.take(i as int).filter(
                    templates,
                ).map_values(|x: FishRecord| x.fields),
            decreases n - i,
        {
            let row = &rows[i];
            assert(row_record(*row) == start.fish[i as int]);
            proof {
                lemma_filter_take_next(start.fish, templates, i as int);
            }
            if row.1.is_none() {
                let body = CreateFishRequest {
                    name: row.2.clone(),
                    species: row.3.clone(),
                    age: row.4,
                    weight_kg: WeightKg(row.5),
                };
                let ghost before = self@;
                match insert_fish(&mut self.conn, owner, &body) {
                    Ok(fish_id) => {
                        let ghost rec = FishRecord {
                            id: fish_id.0,
                            owner: Some(token),
                            fields: body@,
                        };
                        assert(self@.fish == before.fish.push(rec));
                        assert forall|a: int, b: int|
                            0 <= a < b < self@.fish.len() implies self@.fish[a].id
                                < self@.fish[b].id by {
                            if b == self@.fish.len() - 1 {
                                assert(before.fish[a].id < fish_id.0);
                            } else {
                                assert(before.fish[a] == self@.fish[a]);
                                assert(before.fish[b] == self@.fish[b]);
                            }
                        }
                        assert forall|k: int| 0 <= k < self@.fish.len() implies owner_known(
                            #[trigger] self@.fish[k],
                            self@.sessions,
                        ) by {
                            if k < before.fish.len() {
                                assert(before.fish[k] == self@.fish[k]);
                            }
                        }
                        let ghost old_copied = copied;
                        proof {
                            copied = copied.push(rec);
                        }
                        assert(self@.fish =~= start.fish + copied);
                        assert(copied.map_values(|x: FishRecord| x.fields)
                            =~= old_copied.map_values(|x: FishRecord| x.fields).push(rec.fields));
                        assert(start.fish.take(i + 1).filter(templates).map_values(
                            |x: FishRecord| x.fields,
                        ) =~= start.fish.take(i as int).filter(templates).map_values(
                            |x: FishRecord| x.fields,
                        ).push(start.fish[i as int].fields));
                    },
                    Err(e) => {
                        return (Err(e), Ghost(copied));
                    },
                }
            }
            i = i + 1;
        }
        assert(start.fish.take(n as int) =~= start.fish);
        (Ok(()), Ghost(copied))
    }

    /// Creates a session at `now`: a fresh random token, expiring one
    /// lifetime later, that owns a copy of every template fish.
    pub fn create_session_at(&mut self, now: i64) -> (r: Result<LoginResponse, StoreError>)
        requires
            old(self)@.wf(),
            in_timestamp_range(now),
        ensures
            final(self)@.wf(),
            r matches Ok(resp) ==> login_outcome(
                old(self)@,
                final(self)@,
                resp.id@,
                resp.expires_at@,
                now,
            ),
            r matches Err(e) ==> e is Sqlite || e is LoginAbandoned,
            r matches Err(e) ==> (e is Sqlite ==> final(self)@ == old(self)@),
            r matches Err(e) ==> (e is LoginAbandoned ==> abandoned_login(
                old(self)@,
                final(self)@,
                now,
            )),
    {
        let expires_at = session_expiry(now);
        let expires_text = format_timestamp(expires_at).unwrap();
        let ghost start = self@;
        let id = match insert_session(&mut self.conn, expires_at) {
            Ok(id) => id,
            Err(e) => {
                assert(self@ == start);
                return Err(StoreError::Sqlite(e));
            },
        };
        let ghost token = id@;
        assert(self@.wf());
        assert forall|k: int| 0 <= k < start.fish.len() implies (#[trigger] start.fish[k]).owner
            != Some(token) by {
            assert(owner_known(start.fish[k], start.sessions));
        }
        let rows = match select_all_fish(&self.conn) {
            Ok(rows) => rows,
            Err(e) => {
                let err = self.abandon_login(&id, e);
                proof {
                    let none = Seq::<FishRecord>::empty();
                    assert(start.fish + none =~= start.fish);
                    if err is Sqlite {
                        lemma_login_undone(start, token, expires_at, none, self@);
                    } else {
                        lemma_login_abandoned(start, token, now, none, self@);
                    }
                }
                return Err(err);
            },
        };
        let owner = Some(id.duplicate());
        let (copy_result, Ghost(copied)) = self.copy_templates(&owner, &rows, Ghost(start));
        if let Err(e) = copy_result {
            let err = self.abandon_login(&id, e);
            proof {
                if err is Sqlite {
                    lemma_login_undone(start, token, expires_at, copied, self@);
                } else {
                    lemma_login_abandoned(start, token, now, copied, self@);
                }
            }
            return Err(err);
        }
        proof {
            lemma_new_session_rows(start, token, copied);
        }
        Ok(LoginResponse { id, expires_at: expires_text })
    }

    /// Creates a session that expires one lifetime from now; see
    /// [`Store::create_session_at`].
    pub fn create_session(&mut self) -> (r: Result<LoginResponse, StoreError>)
        requires
            old(self)@.wf(),
        ensures
            final(self)@.wf(),
            r matches Ok(resp) ==> exists|now: i64|
                in_timestamp_range(now) && login_outcome(
                    old(self)@,
                    final(self)@,
                    resp.id@,
                    resp.expires_at@,
                    now,
                ),
            r matches Err(e) ==> e is Sqlite || e is LoginAbandoned || e is ClockOutOfRange,
            r matches Err(e) ==> (e is Sqlite || e is ClockOutOfRange ==> final(self)@ == old(
                self,
            )@),
            r matches Err(e) ==> (e is LoginAbandoned ==> exists|now: i64|
                in_timestamp_range(now) && abandoned_login(old(self)@, final(self)@, now)),
    {
        match now_second() {
            Some(now) => self.create_session_at(now),
            None => Err(StoreError::ClockOutOfRange),
        }
    }

    /// Deletes every session that has expired at `now`, and the fish it
    /// owned, and returns their tokens. A session whose expiry is `now`
    /// itself is kept.
    pub fn reap_sessions_at(&mut self, now: i64) -> (r: Result<Vec<SessionId>, StoreError>)
        requires
            old(self)@.wf(),
        ensures
            final(self)@.wf(),
            r matches Ok(ids) ==> reap_outcome(old(self)@, final(self)@, token_views(ids@), now),
            r matches Err(e) ==> e is Sqlite,
            r is Err ==> partly_reaped(old(self)@, final(self)@, now),
    {
        let ghost start = self@;
        let ghost mut gone: Set<Seq<char>> = Set::empty();
        proof {
            lemma_filter_keeps_all(start.fish, |row: FishRecord| !owned_by_any(row, gone));
            assert(start.sessions.remove_keys(gone) =~= start.sessions);
        }
        let rows = match select_all_sessions(&self.conn) {
            Ok(rows) => rows,
            Err(e) => {
                assert(gone.subset_of(expired_sessions(start.sessions, now)));
                assert(self@.sessions == start.sessions.remove_keys(gone));
                assert(self@.fish == start.fish.filter(
                    |row: FishRecord| !owned_by_any(row, gone),
                ));
                assert(partly_reaped(start, self@, now));
                return Err(StoreError::Sqlite(e));
            },
        };
        let mut ids: Vec<SessionId> = Vec::new();
        let n = rows.len();
        let mut i: usize = 0;
        while i < n
            invariant
                n == rows@.len(),
                i <= n,
                forall|j: int|
                    0 <= j < rows@.len() ==> start.sessions.contains_key(#[trigger] rows@[j].0@)
                        && start.sessions[rows@[j].0@] == rows@[j].1,
                forall|t: Seq<char>|
                    #[trigger] start.sessions.contains_key(t) ==> exists|j: int|
                        0 <= j < rows@.len() && #[trigger] rows@[j].0@ == t,
                self@.wf(),
                self@.sessions == start.sessions.remove_keys(gone),
                self@.fish == start.fish.filter(|row: FishRecord| !owned_by_any(row, gone)),
                forall|k: int| 0 <= k < ids@.len() ==> gone.contains(#[trigger] ids@[k]@),
                forall|t: Seq<char>| #[trigger] gone.contains(t) ==> token_views(ids@).contains(t),
                forall|t: Seq<char>|
                    #[trigger] gone.contains(t) ==> expired_sessions(start.sessions, now).contains(
                        t,
                    ),
                forall|j: int|
                    0 <= j < i && #[trigger] rows@[j].1 < now ==> gone.contains(rows@[j].0@),
                forall|a: int, b: int| 0 <= a < b < rows@.len() ==> rows@[a].0@ != rows@[b].0@,
                forall|t: Seq<char>|
                    #[trigger] gone.contains(t) ==> exists|j: int| 0 <= j < i && rows@[j].0@ == t,
                forall|a: int, b: int| 0 <= a < b < ids@.len() ==> ids@[a]@ != ids@[b]@,
                start == old(self)@,
            decreases n - i,
        {
            if rows[i].1 < now {
                let id = SessionId(rows[i].0.clone());
                match self.drop_session(&id) {
                    Ok(()) => {},
                    Err(e) => {
                        assert(gone.subset_of(expired_sessions(start.sessions, now)));
                        assert(partly_reaped(start, self@, now));
                        return Err(e);
                    },
                }
                proof {
                    let p = |row: FishRecord| !owned_by_any(row, gone);
                    let q = |row: FishRecord| row.owner != Some(id@);
                    let next = gone.insert(id@);
                    lemma_filter_filter(start.fish, p, q);
                    assert((|row: FishRecord| p(row) && q(row)) =~= (|row: FishRecord|
                        !owned_by_any(row, next)));
                    assert(self@.sessions =~= start.sessions.remove_keys(next));
                }
                let ghost old_ids = ids@;
                proof {
                    assert forall|k: int| 0 <= k < old_ids.len() implies old_ids[k]@ != id@ by {
                        assert(gone.contains(old_ids[k]@));
                        let j = choose|j: int| 0 <= j < i && rows@[j].0@ == old_ids[k]@;
                    }
                }
                ids.push(id);
                proof {
                    gone = gone.insert(ids@.last()@);
                    assert forall|t: Seq<char>| #[trigger] gone.contains(t) implies token_views(
                        ids@,
                    ).contains(t) by {
                        if t == ids@.last()@ {
                            assert(token_views(ids@)[ids@.len() - 1] == t);
                        } else {
                            let k = choose|k: int|
                                0 <= k < old_ids.len() && token_views(old_ids)[k] == t;
                            assert(token_views(ids@)[k] == t);
                        }
                    }
                }
            }
            i = i + 1;
        }
        proof {
            let expired = expired_sessions(start.sessions, now);
            assert forall|t: Seq<char>| #[trigger] expired.contains(t) implies gone.contains(t) by {
                let j = choose|j: int| 0 <= j < rows@.len() && #[trigger] rows@[j].0@ == t;
                assert(rows@[j].1 < now);
            }
            assert(gone =~= expired);
        }
        Ok(ids)
    }

    /// Deletes every session that has expired by now; see
    /// [`Store::reap_sessions_at`].
    pub fn reap_sessions(&mut self) -> (r: Result<Vec<SessionId>, StoreError>)
        requires
            old(self)@.wf(),
        ensures
            final(self)@.wf(),
            r matches Ok(ids) ==> exists|now: i64|
                in_timestamp_range(now) && reap_outcome(
                    old(self)@,
                    final(self)@,
                    token_views(ids@),
                    now,
                ),
            r matches Err(e) ==> e is Sqlite || e is ClockOutOfRange,
            r matches Err(e) ==> (e is Sqlite ==> exists|now: i64|
                in_timestamp_range(now) && partly_reaped(old(self)@, final(self)@, now)),
            r matches Err(e) ==> (e is ClockOutOfRange ==> final(self)@ == old(self)@),
    {
        match now_second() {
            Some(now) => self.reap_sessions_at(now),
            None => Err(StoreError::ClockOutOfRange),
        }
    }
}

/// A [`Store`] seen from one session, or from no session, in which case
/// only the template fish are seen and nothing can be changed.
///
/// Each session is isolated: what one session does is never seen by another
/// or by the templates.
#[derive(Debug)]
pub struct SessionStore {
    session_id: Option<SessionId>,
}

impl SessionStore {
    /// The owner whose rows this view sees: the session's token, or none for
    /// the template view.
    pub closed spec fn scope(&self) -> Option<Seq<char>> {
        match self.session_id {
            Some(s) => Some(s@),
            None => None,
        }
    }

    /// The view for a request that carries `header` as its session token, at
    /// `now`: no header gives the template view; a header that is text and
    /// names a live session gives that session's view; any other header is
    /// refused as an unknown session.
    pub fn from_header_at(store: &Store, header: Option<Vec<u8>>, now: i64) -> (r: Result<
        SessionStore,
        StoreError,
    >)
        ensures
            header is None ==> r is Ok,
            r matches Ok(s) ==> match header {
                None => s.scope() is None,
                Some(h) => names_live_session(store@, h@, now) && s.scope() == Some(
                    ascii_chars(h@),
                ),
            },
            r matches Err(e) ==> e is Sqlite || (header matches Some(h) && !names_live_session(
                store@,
                h@,
                now,
            ) && e == (StoreError::SessionNotFound { session_id: h })),
            header matches Some(h) ==> (!is_header_text(h@) ==> r
                == Err::<SessionStore, StoreError>((StoreError::SessionNotFound { session_id: h }))),
    {
        let h = match header {
            None => return Ok(SessionStore { session_id: None }),
            Some(h) => h,
        };
        if !header_is_text(&h) {
            return Err(StoreError::SessionNotFound { session_id: h });
        }
        proof {
            assert(all_ascii(h@));
        }
        let id = SessionId(text_of_bytes(h.as_slice()));
        match store.contains_session_at(&id, now) {
            Ok(true) => Ok(SessionStore { session_id: Some(id) }),
            Ok(false) => Err(StoreError::SessionNotFound { session_id: h }),
            Err(e) => Err(e),
        }
    }

    /// The view for a request that carries `header` as its session token;
    /// see [`SessionStore::from_header_at`].
    pub fn from_header(store: &Store, header: Option<Vec<u8>>) -> (r: Result<
        SessionStore,
        StoreError,
    >)
        ensures
            header is None ==> r is Ok,
            r matches Ok(s) ==> match header {
                None => s.scope() is None,
                Some(h) => s.scope() == Some(ascii_chars(h@)) && exists|now: i64|
                    in_timestamp_range(now) && names_live_session(store@, h@, now),
            },
            r matches Err(e) ==> e is Sqlite || e is ClockOutOfRange || (header matches Some(h)
                && e == (StoreError::SessionNotFound { session_id: h })),
            header matches Some(h) ==> (!is_header_text(h@) ==> r
                == Err::<SessionStore, StoreError>((StoreError::SessionNotFound { session_id: h }))),
    {
        let h = match header {
            None => return Ok(SessionStore { session_id: None }),
            Some(h) => h,
        };
        if !header_is_text(&h) {
            return Err(StoreError::SessionNotFound { session_id: h });
        }
        match now_second() {
            Some(now) => SessionStore::from_header_at(store, Some(h), now),
            None => Err(StoreError::ClockOutOfRange),
        }
    }

    /// All fish of this scope, in the order in which they were inserted.
    pub fn list(&self, store: &Store) -> (r: Result<Vec<Fish>, StoreError>)
        requires
            store@.wf(),
        ensures
            r matches Ok(v) ==> v@.map_values(|f: Fish| f@) == fish_of(
                visible(store@.fish, self.scope()),
            ),
            r matches Err(e) ==> e is Sqlite,
    {
        let rows = match select_all_fish(&store.conn) {
            Ok(rows) => rows,
            Err(e) => return Err(StoreError::Sqlite(e)),
        };
        let ghost table = store@.fish;
        let ghost scope = self.scope();
        let ghost p = owned_by(scope);
        let mut out: Vec<Fish> = Vec::new();
        let n = rows.len();
        let mut i: usize = 0;
        while i < n
            invariant
                n == rows@.len(),
                i <= n,
                rows@.map_values(|row: FishRow| row_record(row)) == table,
                scope == self.scope(),
                p == owned_by(scope),
                out@.map_values(|f: Fish| f@) == fish_of(table.take(i as int).filter(p)),
            decreases n - i,
        {
            let row = &rows[i];
            assert(row_record(*row) == table[i as int]);
            proof {
                lemma_filter_take_next(table, p, i as int);
            }
            let keep = row_in_scope(row, &self.session_id);
            assert(keep == p(table[i as int]));
            if keep {
                let ghost before = out@;
                out.push(fish_from_row(row));
                assert(out@.map_values(|f: Fish| f@) =~= before.map_values(|f: Fish| f@).push(
                    table[i as int].fish(),
                ));
                assert(fish_of(table.take(i + 1).filter(p)) =~= fish_of(
                    table.take(i as int).filter(p),
                ).push(table[i as int].fish()));
            }
            i = i + 1;
        }
        assert(table.take(n as int) =~= table);
        Ok(out)
    }

    /// The row with this id, if this scope holds it.
    fn find(&self, store: &Store, id: FishId) -> (r: Result<Option<FishRow>, StoreError>)
        requires
            store@.wf(),
        ensures
            r matches Ok(Some(row)) ==> row.0 == id.0 && exists|i: int|
                0 <= i < store@.fish.len() && store@.fish[i] == row_record(row)
                    && store@.fish[i].owner == self.scope(),
            r matches Ok(None) ==> !store@.holds(self.scope(), id.0),
            r matches Err(e) ==> e is Sqlite,
    {
        let found = match select_fish(&store.conn, id) {
            Ok(found) => found,
            Err(e) => return Err(StoreError::Sqlite(e)),
        };
        match found {
            None => Ok(None),
            Some(row) => {
                let ghost rec = row_record(row);
                let ghost j = choose|j: int| 0 <= j < store@.fish.len() && store@.fish[j] == rec;
                if row_in_scope(&row, &self.session_id) {
                    Ok(Some(row))
                } else {
                    assert forall|i: int|
                        0 <= i < store@.fish.len() && store@.fish[i].id == id.0
                            implies store@.fish[i].owner != self.scope() by {
                        if i < j {
                            assert(store@.fish[i].id < store@.fish[j].id);
                        } else if j < i {
                            assert(store@.fish[j].id < store@.fish[i].id);
                        }
                    }
                    Ok(None)
                }
            },
        }
    }

    /// The fish with this id, if this scope holds it.
    pub fn get(&self, store: &Store, id: FishId) -> (r: Result<Fish, StoreError>)
        requires
            store@.wf(),
        ensures
            r matches Ok(f) ==> f@.id == id.0 && exists|i: int|
                0 <= i < store@.fish.len() && store@.fish[i].owner == self.scope()
                    && store@.fish[i].fish() == f@,
            r matches Err(e) ==> (e is NotFound && !store@.holds(self.scope(), id.0))
                || e is Sqlite,
    {
        match self.find(store, id) {
            Ok(Some(row)) => Ok(fish_from_row(&row)),
            Ok(None) => Err(StoreError::NotFound),
            Err(e) => Err(e),
        }
    }

    /// Adds a fish owned by this session; the database gives it a new id.
    /// Without a session nothing is added.
    pub fn create(&self, store: &mut Store, body: CreateFishRequest) -> (r: Result<
        Fish,
        StoreError,
    >)
        requires
            old(store)@.wf(),
        ensures
            final(store)@.wf(),
            final(store)@.sessions == old(store)@.sessions,
            self.scope() is None ==> r is Err,
            r matches Ok(f) ==> {
                &&& self.scope() is Some
                &&& f@.fields == body@
                &&& forall|i: int|
                    0 <= i < old(store)@.fish.len() ==> #[trigger] old(store)@.fish[i].id != f@.id
                &&& final(store)@.fish == old(store)@.fish.push(
                    FishRecord { id: f@.id, owner: self.scope(), fields: body@ },
                )
            },
            r matches Err(e) ==> {
                &&& final(store)@ == old(store)@
                &&& (e is SessionRequired <==> self.scope() is None)
                &&& e is SessionRequired || e is Sqlite
            },
    {
        if self.session_id.is_none() {
            return Err(StoreError::SessionRequired);
        }
        let ghost before = store@;
        match insert_fish(&mut store.conn, &self.session_id, &body) {
            Ok(id) => {
                assert forall|i: int|
                    0 <= i < before.fish.len() implies #[trigger] before.fish[i].id != id.0 by {
                    assert(fish_table(store.conn)[i] == before.fish[i]);
                }
                assert(store@.fish.last().id == id.0);
                assert forall|i: int|
                    0 <= i < store@.fish.len() - 1 implies #[trigger] store@.fish[i]
                        == before.fish[i] by {}
                assert(store@.wf());
                Ok(
                    Fish {
                        id,
                        name: body.name,
                        species: body.species,
                        age: body.age,
                        weight_kg: body.weight_kg,
                    },
                )
            },
            Err(e) => {
                assert(store@ == before);
                Err(StoreError::Sqlite(e))
            },
        }
    }

    /// Changes the fields of one of this session's fish: each field that the
    /// body holds replaces the stored one, the others are kept.
    pub fn update(&self, store: &mut Store, id: FishId, body: UpdateFishRequest) -> (r: Result<
        Fish,
        StoreError,
    >)
        requires
            old(store)@.wf(),
        ensures
            final(store)@.wf(),
            final(store)@.sessions == old(store)@.sessions,
            self.scope() is None ==> r is Err,
            r matches Ok(f) ==> {
                &&& self.scope() is Some
                &&& f@.id == id.0
                &&& exists|i: int|
                    0 <= i < old(store)@.fish.len() && old(store)@.fish[i].id == id.0
                        && old(store)@.fish[i].owner == self.scope() && f@.fields
                        == old(store)@.fish[i].fields.patched(body@)
                &&& final(store)@.fish == old(store)@.fish.map_values(
                    |row: FishRecord|
                        if row.id == id.0 {
                            FishRecord { fields: f@.fields, ..row }
                        } else {
                            row
                        },
                )
            },
            r matches Err(e) ==> {
                &&& final(store)@ == old(store)@
                &&& (e is SessionRequired <==> self.scope() is None)
                &&& (e is NotFound ==> !old(store)@.holds(self.scope(), id.0))
                &&& e is SessionRequired || e is NotFound || e is Sqlite
            },
    {
        if self.session_id.is_none() {
            return Err(StoreError::SessionRequired);
        }
        let row = match self.find(store, id) {
            Ok(Some(row)) => row,
            Ok(None) => return Err(StoreError::NotFound),
            Err(e) => return Err(e),
        };
        let ghost before = store@;
        let fish = apply_update(fish_from_row(&row), body);
        match update_fish_row(&mut store.conn, &fish) {
            Ok(_) => {
                assert forall|i: int, j: int|
                    0 <= i < j < store@.fish.len() implies store@.fish[i].id
                        < store@.fish[j].id by {
                    assert(store@.fish[i].id == before.fish[i].id);
                    assert(store@.fish[j].id == before.fish[j].id);
                }
                assert forall|i: int| 0 <= i < store@.fish.len() implies owner_known(
                    #[trigger] store@.fish[i],
                    store@.sessions,
                ) by {
                    assert(store@.fish[i].owner == before.fish[i].owner);
                }
                Ok(fish)
            },
            Err(e) => Err(StoreError::Sqlite(e)),
        }
    }

    /// Removes one of this session's fish and returns it as it was.
    pub fn delete(&self, store: &mut Store, id: FishId) -> (r: Result<Fish, StoreError>)
        requires
            old(store)@.wf(),
        ensures
            final(store)@.wf(),
            final(store)@.sessions == old(store)@.sessions,
            self.scope() is None ==> r is Err,
            r matches Ok(f) ==> {
                &&& self.scope() is Some
                &&& f@.id == id.0
                &&& exists|i: int|
                    0 <= i < old(store)@.fish.len() && old(store)@.fish[i].owner == self.scope()
                        && old(store)@.fish[i].fish() == f@
                &&& final(store)@.fish == old(store)@.fish.filter(|row: FishRecord| row.id != id.0)
            },
            r matches Err(e) ==> {
                &&& final(store)@ == old(store)@
                &&& (e is SessionRequired <==> self.scope() is None)
                &&& (e is NotFound ==> !old(store)@.holds(self.scope(), id.0))
                &&& e is SessionRequired || e is NotFound || e is Sqlite
            },
    {
        if self.session_id.is_none() {
            return Err(StoreError::SessionRequired);
        }
        let row = match self.find(store, id) {
            Ok(Some(row)) => row,
            Ok(None) => return Err(StoreError::NotFound),
            Err(e) => return Err(e),
        };
        let ghost before = store@;
        match delete_fish_row(&mut store.conn, id) {
            Ok(_) => {
                let ghost p = |row: FishRecord| row.id != id.0;
                proof {
                    lemma_filter_ids_increasing(before.fish, p);
                    assert forall|i: int| 0 <= i < store@.fish.len() implies owner_known(
                        #[trigger] store@.fish[i],
                        store@.sessions,
                    ) by {
                        assert(before.fish.contains(store@.fish[i]));
                    }
                }
                Ok(fish_from_row(&row))
            },
            Err(e) => Err(StoreError::Sqlite(e)),
        }
    }
}

} // verus!
