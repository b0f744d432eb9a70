//! Table-agnostic persistence primitives: a keyed record store with
//! insert-only creation, merge updates and soft deletion.
//!
//! A [`Table`] holds records addressed by their identifier. Every record
//! carries the server-owned fields (`uuid`, `deleted`, `date_created`,
//! `date_modified`) in [`Stored`], around an entity-specific payload.

use vstd::pervasive::VecAdditionalExecFns;
use vstd::prelude::*;

verus! {

/// Holds of the records that the active listing keeps.
pub open spec fn active_pred<T>() -> spec_fn(Stored<T>) -> bool {
    |s: Stored<T>| !s.deleted
}

/// Holds of the records that the deleted listing keeps.
pub open spec fn deleted_pred<T>() -> spec_fn(Stored<T>) -> bool {
    |s: Stored<T>| s.deleted
}

/// An entity payload that a table can store: a value with a mathematical
/// view, which can be duplicated without changing that view, so that lookups
/// can hand out copies of stored records.
pub trait Fields: View + Sized {
    fn dup(&self) -> (r: Self)
        ensures
            r@ == self@,
    ;
}

/// Duplicates a vector of plain values without loss.
pub fn dup_copy_vec<T: Copy>(v: &Vec<T>) -> (r: Vec<T>)
    ensures
        r@ == v@,
{
    let mut out: Vec<T> = Vec::new();
    let n = v.len();
    for i in 0..n
        invariant
            n == v@.len(),
            out@ == v@.take(i as int),
    {
        out.push(v[i]);
        proof {
            assert(out@ =~= v@.take(i as int + 1));
        }
    }
    proof {
        assert(v@.take(n as int) =~= v@);
    }
    out
}

/// The view of an optional string.
pub open spec fn view_opt_string(o: Option<String>) -> Option<Seq<char>> {
    match o {
        Some(s) => Some(s@),
        None => None,
    }
}

/// Duplicates an optional string without loss.
pub fn dup_opt_string(s: &Option<String>) -> (r: Option<String>)
    ensures
        r == *s,
{
    match s {
        Some(v) => Some(v.clone()),
        None => None,
    }
}

/// A record as the store keeps it: the server-owned fields around the
/// entity-specific payload.
///
/// `uuid` and `date_created` never change after creation; `deleted` starts
/// `false` and is flipped by soft deletion; `date_modified` is refreshed by
/// every update and every soft deletion.
#[derive(Debug)]
pub struct Stored<T> {
    pub uuid: String,
    pub deleted: bool,
    pub date_created: i64,
    pub date_modified: i64,
    pub fields: T,
}

/// The view of a stored record: the identifier as a character sequence, the
/// flags and timestamps as they are, and the payload's own view.
pub struct StoredView<FV> {
    pub uuid: Seq<char>,
    pub deleted: bool,
    pub date_created: i64,
    pub date_modified: i64,
    pub fields: FV,
}

impl<T: View> View for Stored<T> {
    type V = StoredView<T::V>;

    open spec fn view(&self) -> StoredView<T::V> {
        StoredView {
            uuid: self.uuid@,
            deleted: self.deleted,
            date_created: self.date_created,
            date_modified: self.date_modified,
            fields: self.fields@,
        }
    }
}

impl<T: Fields> Fields for Stored<T> {
    fn dup(&self) -> (r: Self) {
        Stored {
            uuid: self.uuid.clone(),
            deleted: self.deleted,
            date_created: self.date_created,
            date_modified: self.date_modified,
            fields: self.fields.dup(),
        }
    }
}

/// The record that an insert at `uuid` creates: not deleted, with both
/// timestamps set to the moment of creation.
pub open spec fn spec_new_record<T>(uuid: String, fields: T, now: i64) -> Stored<T> {
    Stored { uuid, deleted: false, date_created: now, date_modified: now, fields }
}

/// The record that a merge update leaves behind: the identifier and the
/// creation time of the stored record, everything else from the update.
pub open spec fn spec_merged<T>(stored: Stored<T>, fields: T, deleted: bool, now: i64) -> Stored<
    T,
> {
    Stored { deleted, date_modified: now, fields, ..stored }
}

/// The record that a soft-delete patch leaves behind: only the deletion flag
/// and the modification time change.
pub open spec fn spec_soft_deleted<T>(stored: Stored<T>, now: i64) -> Stored<T> {
    Stored { deleted: true, date_modified: now, ..stored }
}

/// Builds the record that an insert creates.
pub fn new_record<T>(uuid: String, fields: T, now: i64) -> (r: Stored<T>)
    ensures
        r == spec_new_record(uuid, fields, now),
{
    Stored { uuid, deleted: false, date_created: now, date_modified: now, fields }
}

/// Merges client-submitted fields onto a stored record: fields present in the
/// update overwrite, the server-owned identifier and creation time are kept,
/// and the modification time is refreshed.
pub fn merged_record<T: Fields>(stored: &Stored<T>, fields: T, deleted: bool, now: i64) -> (r:
    Stored<T>)
    ensures
        r@ == spec_merged(*stored, fields, deleted, now)@,
{
    Stored {
        uuid: stored.uuid.clone(),
        deleted,
        date_created: stored.date_created,
        date_modified: now,
        fields,
    }
}

/// One table of the store: records addressed by their identifier, which is
/// unique within the table.
pub struct Table<T> {
    rows: Vec<Stored<T>>,
}

impl<T> Table<T> {
    /// The stored records, in insertion order.
    pub closed spec fn rows_view(self) -> Seq<Stored<T>> {
        self.rows@
    }

    /// Identifiers are unique within a table.
    pub open spec fn wf(self) -> bool {
        forall|i: int, j: int|
            0 <= i < j < self.rows_view().len() ==> self.rows_view()[i].uuid@
                != self.rows_view()[j].uuid@
    }

    /// Whether some record is stored at identifier `k`.
    pub open spec fn has_key(self, k: Seq<char>) -> bool {
        exists|i: int| 0 <= i < self.rows_view().len() && self.rows_view()[i].uuid@ == k
    }

    /// The position of the record stored at identifier `k`.
    pub open spec fn spec_index_of(self, k: Seq<char>) -> int {
        choose|i: int| 0 <= i < self.rows_view().len() && self.rows_view()[i].uuid@ == k
    }

    /// The record stored at identifier `k`.
    pub open spec fn at_key(self, k: Seq<char>) -> Stored<T> {
        self.rows_view()[self.spec_index_of(k)]
    }

    /// The records that soft deletion has not removed, in insertion order.
    pub open spec fn active_view(self) -> Seq<Stored<T>> {
        self.rows_view().filter(active_pred())
    }

    /// The records that soft deletion has removed, in insertion order.
    pub open spec fn deleted_view(self) -> Seq<Stored<T>> {
        self.rows_view().filter(deleted_pred())
    }

    /// Creates an empty table.
    pub fn new() -> (r: Self)
        ensures
            r.wf(),
            r.rows_view() == Seq::<Stored<T>>::empty(),
    {
        Table { rows: Vec::new() }
    }
}

/// In a table with unique identifiers, the record found at position `i` is
/// the record stored at its identifier.
pub proof fn lemma_row_is_at_its_key<T>(t: Table<T>, i: int)
    requires
        t.wf(),
        0 <= i < t.rows_view().len(),
    ensures
        t.has_key(t.rows_view()[i].uuid@),
        t.spec_index_of(t.rows_view()[i].uuid@) == i,
        t.at_key(t.rows_view()[i].uuid@) == t.rows_view()[i],
{
    let k = t.rows_view()[i].uuid@;
    assert(t.has_key(k));
    let j = t.spec_index_of(k);
    assert(0 <= j < t.rows_view().len() && t.rows_view()[j].uuid@ == k);
    if i < j {
        assert(t.rows_view()[i].uuid@ != t.rows_view()[j].uuid@);
    } else if j < i {
        assert(t.rows_view()[j].uuid@ != t.rows_view()[i].uuid@);
    }
}

impl<T> Table<T> {
    /// The position of the record stored at `key`, if any.
    fn index_of_key(&self, key: &String) -> (r: Option<usize>)
        requires
            self.wf(),
        ensures
            match r {
                Some(i) => i < self.rows_view().len() && self.rows_view()[i as int].uuid@ == key@
                    && self.has_key(key@) && self.spec_index_of(key@) == i,
                None => !self.has_key(key@),
            },
    {
        let n = self.rows.len();
        for i in 0..n
            invariant
                n == self.rows_view().len(),
                self.wf(),
                forall|j: int| 0 <= j < i ==> self.rows_view()[j].uuid@ != key@,
        {
            if self.rows[i].uuid == *key {
                proof {
                    lemma_row_is_at_its_key(*self, i as int);
                }
                return Some(i);
            }
        }
        None
    }
}

/// Returns the record at `uuid`, or nothing when the identifier is absent.
/// Both outcomes are non-error results.
pub fn util_find_one<T: Fields>(table: &Table<T>, uuid: &String) -> (r: Option<Stored<T>>)
    requires
        table.wf(),
    ensures
        match r {
            Some(rec) => table.has_key(uuid@) && rec@ == table.at_key(uuid@)@,
            None => !table.has_key(uuid@),
        },
{
    match table.index_of_key(uuid) {
        Some(i) => Some(table.rows[i].dup()),
        None => None,
    }
}

/// Creates a record at `uuid` — an insert, not an upsert: when an occupant
/// already exists there, the table is left unchanged and nothing is returned.
/// On success the stored record is returned, with the server-applied
/// defaults: not deleted, both timestamps set to `now`.
pub fn util_add_one<T: Fields>(table: &mut Table<T>, uuid: String, fields: T, now: i64) -> (r:
    Option<Stored<T>>)
    requires
        old(table).wf(),
    ensures
        final(table).wf(),
        match r {
            Some(rec) => {
                &&& !old(table).has_key(uuid@)
                &&& rec@ == spec_new_record(uuid, fields, now)@
                &&& final(table).rows_view() == old(table).rows_view().push(
                    spec_new_record(uuid, fields, now),
                )
                &&& final(table).has_key(uuid@)
                &&& final(table).at_key(uuid@) == spec_new_record(uuid, fields, now)
                &&& forall|k: Seq<char>|
                    k != uuid@ ==> (final(table).has_key(k) <==> old(table).has_key(k))
                        && (old(table).has_key(k) ==> final(table).at_key(k) == old(
                        table,
                    ).at_key(k))
            },
            None => old(table).has_key(uuid@) && *final(table) == *old(table),
        },
{
    match table.index_of_key(&uuid) {
        Some(_) => None,
        None => {
            let rec = new_record(uuid, fields, now);
            let copy = rec.dup();
            let ghost pre = *table;
            let ghost stored = rec;
            table.rows.push(rec);
            proof {
                law_insert_then_lookup(pre, *table, stored);
            }
            Some(copy)
        },
    }
}

/// A filtered singleton is the singleton when the predicate holds of its
/// element, and empty otherwise.
proof fn lemma_filter_singleton<T>(x: Stored<T>, pred: spec_fn(Stored<T>) -> bool)
    ensures
        seq![x].filter(pred) == (if pred(x) {
            seq![x]
        } else {
            Seq::<Stored<T>>::empty()
        }),
{
    reveal_with_fuel(Seq::filter, 2);
    assert(seq![x].drop_last() =~= Seq::<Stored<T>>::empty());
    assert(seq![x].last() == x);
    if pred(x) {
        assert(seq![x].filter(pred) =~= seq![x]);
    } else {
        assert(seq![x].filter(pred) =~= Seq::<Stored<T>>::empty());
    }
}

/// Extends a prefix of the rows filtered by `pred` with row `i`.
proof fn lemma_filter_prefix_step<T>(t: Table<T>, i: int, pred: spec_fn(Stored<T>) -> bool)
    requires
        0 <= i < t.rows_view().len(),
    ensures
        t.rows_view().take(i + 1).filter(pred) == (if pred(t.rows_view()[i]) {
            t.rows_view().take(i).filter(pred).push(t.rows_view()[i])
        } else {
            t.rows_view().take(i).filter(pred)
        }),
{
    let rows = t.rows_view();
    let x = rows[i];
    assert(rows.take(i + 1) =~= rows.take(i) + seq![x]);
    Seq::filter_distributes_over_add(rows.take(i), seq![x], pred);
    lemma_filter_singleton(x, pred);
    if pred(x) {
        assert(rows.take(i).filter(pred) + seq![x] =~= rows.take(i).filter(pred).push(x));
    } else {
        assert(rows.take(i).filter(pred) + Seq::<Stored<T>>::empty() =~= rows.take(i).filter(
            pred,
        ));
    }
}

/// The records of `a` are copies of the records of `b`, position by position.
pub open spec fn views_match<T: View>(a: Seq<Stored<T>>, b: Seq<Stored<T>>) -> bool {
    a.len() == b.len() && forall|i: int| 0 <= i < a.len() ==> #[trigger] a[i]@ == b[i]@
}

/// Returns every record in the table, in insertion order.
pub fn util_find_all<T: Fields>(table: &Table<T>) -> (r: Vec<Stored<T>>)
    requires
        table.wf(),
    ensures
        views_match(r@, table.rows_view()),
{
    let mut out: Vec<Stored<T>> = Vec::new();
    let n = table.rows.len();
    for i in 0..n
        invariant
            n == table.rows_view().len(),
            views_match(out@, table.rows_view().take(i as int)),
    {
        out.push(table.rows[i].dup());
        proof {
            assert(views_match(out@, table.rows_view().take(i as int + 1)));
        }
    }
    proof {
        assert(table.rows_view().take(n as int) =~= table.rows_view());
    }
    out
}

/// Returns the records whose soft-delete flag is still `false`, in insertion
/// order — the active listing.
pub fn util_find_all_non_deleted<T: Fields>(table: &Table<T>) -> (r: Vec<Stored<T>>)
    requires
        table.wf(),
    ensures
        views_match(r@, table.active_view()),
{
    let mut out: Vec<Stored<T>> = Vec::new();
    let n = table.rows.len();
    for i in 0..n
        invariant
            n == table.rows_view().len(),
            views_match(out@, table.rows_view().take(i as int).filter(active_pred())),
    {
        proof {
            lemma_filter_prefix_step(*table, i as int, active_pred());
        }
        if !table.rows[i].deleted {
            out.push(table.rows[i].dup());
            proof {
                assert(views_match(
                    out@,
                    table.rows_view().take(i as int + 1).filter(active_pred()),
                ));
            }
        }
    }
    proof {
        assert(table.rows_view().take(n as int) =~= table.rows_view());
    }
    out
}

/// Returns the records whose soft-delete flag is `true`, in insertion order —
/// the deleted listing.
pub fn util_find_all_deleted<T: Fields>(table: &Table<T>) -> (r: Vec<Stored<T>>)
    requires
        table.wf(),
    ensures
        views_match(r@, table.deleted_view()),
{
    let mut out: Vec<Stored<T>> = Vec::new();
    let n = table.rows.len();
    for i in 0..n
        invariant
            n == table.rows_view().len(),
            views_match(out@, table.rows_view().take(i as int).filter(deleted_pred())),
    {
        proof {
            lemma_filter_prefix_step(*table, i as int, deleted_pred());
        }
        if table.rows[i].deleted {
            out.push(table.rows[i].dup());
            proof {
                assert(views_match(
                    out@,
                    table.rows_view().take(i as int + 1).filter(deleted_pred()),
                ));
            }
        }
    }
    proof {
        assert(table.rows_view().take(n as int) =~= table.rows_view());
    }
    out
}

/// Verifies existence first — when the identifier is absent the table is left
/// unchanged and nothing is returned, never creating a record — then merges
/// the incoming fields onto the stored record: fields present in the update
/// overwrite, the identifier and the creation time are left untouched, and
/// the modification time is refreshed. Returns the post-merge record.
pub fn util_update_one<T: Fields>(
    table: &mut Table<T>,
    uuid: &String,
    fields: T,
    deleted: bool,
    now: i64,
) -> (r: Option<Stored<T>>)
    requires
        old(table).wf(),
    ensures
        final(table).wf(),
        match r {
            Some(rec) => {
                &&& old(table).has_key(uuid@)
                &&& rec@ == spec_merged(old(table).at_key(uuid@), fields, deleted, now)@
                &&& rec.uuid@ == uuid@
                &&& rec.date_created == old(table).at_key(uuid@).date_created
                &&& rec.date_modified == now
                &&& final(table).rows_view() == old(table).rows_view().update(
                    old(table).spec_index_of(uuid@),
                    spec_merged(old(table).at_key(uuid@), fields, deleted, now),
                )
                &&& final(table).has_key(uuid@)
                &&& final(table).at_key(uuid@) == spec_merged(
                    old(table).at_key(uuid@),
                    fields,
                    deleted,
                    now,
                )
                &&& forall|k: Seq<char>|
                    k != uuid@ ==> (final(table).has_key(k) <==> old(table).has_key(k))
                        && (old(table).has_key(k) ==> final(table).at_key(k) == old(
                        table,
                    ).at_key(k))
            },
            None => !old(table).has_key(uuid@) && *final(table) == *old(table),
        },
{
    match table.index_of_key(uuid) {
        Some(i) => {
            let ghost pre = *table;
            let row = table.rows.remove(i);
            let rec = Stored {
                uuid: row.uuid,
                deleted,
                date_created: row.date_created,
                date_modified: now,
                fields,
            };
            let copy = rec.dup();
            let ghost stored = rec;
            table.rows.insert(i, rec);
            proof {
                assert(table.rows@ =~= pre.rows_view().update(i as int, stored));
                law_replace_then_lookup(pre, *table, i as int, stored);
            }
            Some(copy)
        },
        None => None,
    }
}

/// Verifies existence first — when the identifier is absent the table is left
/// unchanged and nothing is returned — then applies the soft-delete patch:
/// the deletion flag is set and the modification time refreshed, everything
/// else is left untouched. Returns the patched record.
pub fn util_delete_one<T: Fields>(table: &mut Table<T>, uuid: &String, now: i64) -> (r: Option<
    Stored<T>,
>)
    requires
        old(table).wf(),
    ensures
        final(table).wf(),
        match r {
            Some(rec) => {
                &&& old(table).has_key(uuid@)
                &&& rec@ == spec_soft_deleted(old(table).at_key(uuid@), now)@
                &&& rec.deleted
                &&& rec.uuid@ == uuid@
                &&& rec.date_created == old(table).at_key(uuid@).date_created
                &&& rec.fields@ == old(table).at_key(uuid@).fields@
                &&& rec.date_modified == now
                &&& final(table).rows_view() == old(table).rows_view().update(
                    old(table).spec_index_of(uuid@),
                    spec_soft_deleted(old(table).at_key(uuid@), now),
                )
                &&& final(table).has_key(uuid@)
                &&& final(table).at_key(uuid@) == spec_soft_deleted(old(table).at_key(uuid@), now)
                &&& forall|k: Seq<char>|
                    k != uuid@ ==> (final(table).has_key(k) <==> old(table).has_key(k))
                        && (old(table).has_key(k) ==> final(table).at_key(k) == old(
                        table,
                    ).at_key(k))
            },
            None => !old(table).has_key(uuid@) && *final(table) == *old(table),
        },
{
    match table.index_of_key(uuid) {
        Some(i) => {
            let ghost pre = *table;
            let row = table.rows.remove(i);
            let rec = Stored {
                uuid: row.uuid,
                deleted: true,
                date_created: row.date_created,
                date_modified: now,
                fields: row.fields,
            };
            let copy = rec.dup();
            let ghost stored = rec;
            table.rows.insert(i, rec);
            proof {
                assert(table.rows@ =~= pre.rows_view().update(i as int, stored));
                law_replace_then_lookup(pre, *table, i as int, stored);
            }
            Some(copy)
        },
        None => None,
    }
}

/// Law: replacing the record at a position with one that keeps its identifier
/// rebinds exactly that identifier, and leaves every other identifier bound
/// as before.
pub proof fn law_replace_then_lookup<T>(pre: Table<T>, post: Table<T>, i: int, rec: Stored<T>)
    requires
        pre.wf(),
        0 <= i < pre.rows_view().len(),
        rec.uuid@ == pre.rows_view()[i].uuid@,
        post.rows_view() == pre.rows_view().update(i, rec),
    ensures
        post.wf(),
        post.has_key(rec.uuid@),
        post.at_key(rec.uuid@) == rec,
        forall|k: Seq<char>|
            k != rec.uuid@ ==> (post.has_key(k) <==> pre.has_key(k)) && (pre.has_key(k)
                ==> post.at_key(k) == pre.at_key(k)),
{
    assert forall|a: int, b: int| 0 <= a < b < post.rows_view().len() implies post.rows_view()[a].uuid@
        != post.rows_view()[b].uuid@ by {
        assert(pre.rows_view()[a].uuid@ != pre.rows_view()[b].uuid@);
    }
    assert(post.rows_view()[i] == rec);
    lemma_row_is_at_its_key(post, i);
    assert forall|k: Seq<char>| k != rec.uuid@ implies (post.has_key(k) <==> pre.has_key(k)) && (
    pre.has_key(k) ==> post.at_key(k) == pre.at_key(k)) by {
        if post.has_key(k) {
            let j = post.spec_index_of(k);
            assert(post.rows_view()[j].uuid@ == k);
            assert(j != i);
            assert(pre.rows_view()[j].uuid@ == k);
            assert(pre.has_key(k));
        }
        if pre.has_key(k) {
            let j = pre.spec_index_of(k);
            assert(pre.rows_view()[j].uuid@ == k);
            assert(j != i);
            assert(post.rows_view()[j].uuid@ == k);
            assert(post.has_key(k));
            lemma_row_is_at_its_key(post, j);
            lemma_row_is_at_its_key(pre, j);
        }
    }
}

/// Law: inserting a fresh identifier makes its record retrievable at exactly
/// that identifier, and leaves every other identifier bound as before.
pub proof fn law_insert_then_lookup<T>(pre: Table<T>, post: Table<T>, rec: Stored<T>)
    requires
        pre.wf(),
        !pre.has_key(rec.uuid@),
        post.rows_view() == pre.rows_view().push(rec),
    ensures
        post.wf(),
        post.has_key(rec.uuid@),
        post.at_key(rec.uuid@) == rec,
        forall|k: Seq<char>|
            k != rec.uuid@ ==> (post.has_key(k) <==> pre.has_key(k)) && (pre.has_key(k)
                ==> post.at_key(k) == pre.at_key(k)),
{
    let n = pre.rows_view().len() as int;
    assert forall|i: int, j: int| 0 <= i < j < post.rows_view().len() implies post.rows_view()[i].uuid@
        != post.rows_view()[j].uuid@ by {
        if j < n {
            assert(pre.rows_view()[i].uuid@ != pre.rows_view()[j].uuid@);
        } else {
            assert(post.rows_view()[j] == rec);
            assert(pre.has_key(pre.rows_view()[i].uuid@));
        }
    }
    assert(post.rows_view()[n] == rec);
    lemma_row_is_at_its_key(post, n);
    assert forall|k: Seq<char>| k != rec.uuid@ implies (post.has_key(k) <==> pre.has_key(k)) && (
    pre.has_key(k) ==> post.at_key(k) == pre.at_key(k)) by {
        if post.has_key(k) {
            let i = post.spec_index_of(k);
            assert(post.rows_view()[i].uuid@ == k);
            assert(i != n);
            assert(pre.rows_view()[i].uuid@ == k);
            assert(pre.has_key(k));
        }
        if pre.has_key(k) {
            let i = pre.spec_index_of(k);
            assert(pre.rows_view()[i].uuid@ == k);
            assert(post.rows_view()[i].uuid@ == k);
            assert(post.has_key(k));
            lemma_row_is_at_its_key(post, i);
            lemma_row_is_at_its_key(pre, i);
        }
    }
}

} // verus!
