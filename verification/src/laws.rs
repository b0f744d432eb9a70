//! The store's laws, stated on their own: what creation, merge updates and
//! soft deletion guarantee across operations. Each law is proved from the
//! table model that the operations' contracts are stated over.

use crate::crud::active_pred;
use crate::crud::deleted_pred;
use crate::crud::law_insert_then_lookup;
use crate::crud::spec_merged;
use crate::crud::spec_new_record;
use crate::crud::spec_soft_deleted;
use crate::crud::Stored;
use crate::crud::Table;
use vstd::prelude::*;

verus! {

/// Law: a successful creation binds a previously unused identifier to exactly
/// the submitted payload with the server-applied defaults — not deleted, both
/// timestamps at the moment of creation — and a lookup of that identifier
/// afterwards finds that record, every other identifier being bound as
/// before.
pub proof fn law_create_round_trip<T>(
    pre: Table<T>,
    post: Table<T>,
    uuid: String,
    fields: T,
    now: i64,
)
    requires
        pre.wf(),
        !pre.has_key(uuid@),
        post.rows_view() == pre.rows_view().push(spec_new_record(uuid, fields, now)),
    ensures
        post.wf(),
        post.has_key(uuid@),
        post.at_key(uuid@).fields == fields,
        post.at_key(uuid@).uuid == uuid,
        !post.at_key(uuid@).deleted,
        post.at_key(uuid@).date_created == now,
        post.at_key(uuid@).date_modified == now,
        forall|k: Seq<char>|
            k != uuid@ ==> (post.has_key(k) <==> pre.has_key(k)) && (pre.has_key(k)
                ==> post.at_key(k) == pre.at_key(k)),
{
    law_insert_then_lookup(pre, post, spec_new_record(uuid, fields, now));
}

/// Law: a merge update never changes a record's creation time, and stamps the
/// moment of the update as its modification time — strictly later than the
/// old one whenever the update happens at a strictly later moment.
pub proof fn law_update_preserves_creation<T>(stored: Stored<T>, fields: T, deleted: bool, now: i64)
    ensures
        spec_merged(stored, fields, deleted, now).date_created == stored.date_created,
        spec_merged(stored, fields, deleted, now).date_modified == now,
        now > stored.date_modified ==> spec_merged(stored, fields, deleted, now).date_modified
            > stored.date_modified,
{
}

/// Law: a soft-deleted record stays retrievable by direct lookup, disappears
/// from the active listing, and appears in the deleted listing.
pub proof fn law_soft_delete_listings<T>(t: Table<T>, k: Seq<char>)
    requires
        t.wf(),
        t.has_key(k),
        t.at_key(k).deleted,
    ensures
        !t.active_view().contains(t.at_key(k)),
        t.deleted_view().contains(t.at_key(k)),
{
    let rows = t.rows_view();
    let i = t.spec_index_of(k);
    if t.active_view().contains(t.at_key(k)) {
        let j = choose|j: int| 0 <= j < t.active_view().len() && t.active_view()[j] == t.at_key(k);
        rows.lemma_filter_pred(active_pred(), j);
    }
    rows.lemma_filter_contains(deleted_pred(), i);
}

/// Law: soft deletion is idempotent — deleting an already deleted record
/// leaves exactly what deleting it once at the later moment leaves, and the
/// deletion flag, once set, stays set.
pub proof fn law_soft_delete_idempotent<T>(rec: Stored<T>, first: i64, second: i64)
    ensures
        spec_soft_deleted(spec_soft_deleted(rec, first), second) == spec_soft_deleted(rec, second),
        spec_soft_deleted(rec, first).deleted,
{
}

} // verus!
