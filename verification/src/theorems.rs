//! What holds of the store's operations taken together, stated over the
//! functions on rows by which the operations are specified.

use vstd::prelude::*;
use crate::error::ArticleError;
use crate::models::{new_row, ArticleView};
use crate::store::{
    delete_result, delete_rows, has_id, insert_result, insert_rows, lemma_absent_untouched,
    lemma_row_of, publish_result, publish_rows, published_rows, released, retitled, row_of,
    unique_ids, update_result, update_rows,
};

verus! {

/// An article that was created and then published is listed among the
/// published articles, with the title and body it was created with.
pub proof fn created_then_published_is_listed(
    rows: Seq<ArticleView>,
    uuid: u128,
    title: Seq<char>,
    body: Seq<char>,
)
    requires
        unique_ids(rows),
        !has_id(rows, uuid),
    ensures
        ({
            let created = insert_rows(rows, new_row(uuid, title, body));
            let published = publish_rows(created, uuid);
            &&& insert_result(rows, new_row(uuid, title, body)) == Ok::<ArticleView, ArticleError>(
                new_row(uuid, title, body),
            )
            &&& publish_result(created, uuid) == Ok::<ArticleView, ArticleError>(
                released(new_row(uuid, title, body)),
            )
            &&& published_rows(published).contains(released(new_row(uuid, title, body)))
        }),
{
    let row = new_row(uuid, title, body);
    let created = insert_rows(rows, row);
    let published = publish_rows(created, uuid);
    let last = rows.len() as int;
    assert(created == rows.push(row));
    assert(created[last] == row);
    assert forall|i: int, j: int| 0 <= i < j < created.len() implies (#[trigger] created[i]).uuid
        != (#[trigger] created[j]).uuid by {
        if j < last {
            assert(rows[i].uuid != rows[j].uuid);
        } else {
            assert(rows[i].uuid != uuid);
        }
    }
    lemma_row_of(created, last);
    assert(published[last] == released(row));
    published.lemma_filter_contains(|r: ArticleView| r.published, last);
}

/// An update of an existing article changes the title and body of its row
/// and nothing else: the row keeps its place, its identifier and its
/// publication flag, every other row stays as it is, and the answer is the
/// row as it then is.
pub proof fn update_changes_only_title_and_body(
    rows: Seq<ArticleView>,
    uuid: u128,
    title: Seq<char>,
    body: Seq<char>,
)
    requires
        unique_ids(rows),
        has_id(rows, uuid),
    ensures
        ({
            let updated = update_rows(rows, uuid, title, body);
            &&& updated.len() == rows.len()
            &&& unique_ids(updated)
            &&& forall|i: int|
                0 <= i < rows.len() ==> #[trigger] updated[i] == if rows[i].uuid == uuid {
                    ArticleView { uuid, title, body, published: rows[i].published }
                } else {
                    rows[i]
                }
            &&& update_result(rows, uuid, title, body) == Ok::<ArticleView, ArticleError>(
                row_of(updated, uuid),
            )
            &&& row_of(updated, uuid) == ArticleView {
                uuid,
                title,
                body,
                published: row_of(rows, uuid).published,
            }
        }),
{
    let updated = update_rows(rows, uuid, title, body);
    let k = choose|k: int| 0 <= k < rows.len() && (#[trigger] rows[k]).uuid == uuid;
    assert forall|i: int, j: int| 0 <= i < j < updated.len() implies (#[trigger] updated[i]).uuid
        != (#[trigger] updated[j]).uuid by {
        assert(rows[i].uuid != rows[j].uuid);
    }
    lemma_row_of(rows, k);
    assert(updated[k] == retitled(rows[k], title, body));
    lemma_row_of(updated, k);
}

/// Updating, deleting or publishing an article that does not exist answers
/// `NotFound` and leaves every row as it is.
pub proof fn absent_id_is_not_found(
    rows: Seq<ArticleView>,
    uuid: u128,
    title: Seq<char>,
    body: Seq<char>,
)
    requires
        !has_id(rows, uuid),
    ensures
        update_result(rows, uuid, title, body) == Err::<ArticleView, ArticleError>(
            ArticleError::NotFound,
        ),
        update_rows(rows, uuid, title, body) == rows,
        delete_result(rows, uuid) == Err::<ArticleView, ArticleError>(ArticleError::NotFound),
        delete_rows(rows, uuid) == rows,
        publish_result(rows, uuid) == Err::<ArticleView, ArticleError>(ArticleError::NotFound),
        publish_rows(rows, uuid) == rows,
{
    lemma_absent_untouched(rows, uuid);
    assert(update_rows(rows, uuid, title, body) == rows);
}

/// Publishing is idempotent: publishing an existing article a second time
/// succeeds like the first time, with the same answer, which is marked
/// published, and leaves the rows as the first time left them.
pub proof fn publish_is_idempotent(rows: Seq<ArticleView>, uuid: u128)
    requires
        unique_ids(rows),
        has_id(rows, uuid),
    ensures
        ({
            let once = publish_rows(rows, uuid);
            &&& publish_result(rows, uuid) is Ok
            &&& publish_result(rows, uuid)->Ok_0.published
            &&& publish_result(once, uuid) == publish_result(rows, uuid)
            &&& publish_rows(once, uuid) == once
        }),
{
    let once = publish_rows(rows, uuid);
    let k = choose|k: int| 0 <= k < rows.len() && (#[trigger] rows[k]).uuid == uuid;
    assert forall|i: int, j: int| 0 <= i < j < once.len() implies (#[trigger] once[i]).uuid != (
    #[trigger] once[j]).uuid by {
        assert(rows[i].uuid != rows[j].uuid);
    }
    lemma_row_of(rows, k);
    assert(once[k] == released(rows[k]));
    lemma_row_of(once, k);
    assert(publish_rows(once, uuid) =~= once);
}

/// Once an article is deleted it is gone: no row has its identifier, and an
/// update, a publication or another deletion of it answers `NotFound`.
pub proof fn deleted_is_not_found(
    rows: Seq<ArticleView>,
    uuid: u128,
    title: Seq<char>,
    body: Seq<char>,
)
    ensures
        ({
            let remaining = delete_rows(rows, uuid);
            &&& !has_id(remaining, uuid)
            &&& update_result(remaining, uuid, title, body) == Err::<ArticleView, ArticleError>(
                ArticleError::NotFound,
            )
            &&& publish_result(remaining, uuid) == Err::<ArticleView, ArticleError>(
                ArticleError::NotFound,
            )
            &&& delete_result(remaining, uuid) == Err::<ArticleView, ArticleError>(
                ArticleError::NotFound,
            )
        }),
{
    let remaining = delete_rows(rows, uuid);
    assert forall|i: int| 0 <= i < remaining.len() implies (#[trigger] remaining[i]).uuid
        != uuid by {
        rows.lemma_filter_pred(|row: ArticleView| row.uuid != uuid, i);
    }
}

/// The listing of published articles holds no unpublished article, and
/// holds every published one.
pub proof fn listing_is_exactly_the_published(rows: Seq<ArticleView>)
    ensures
        forall|i: int|
            0 <= i < published_rows(rows).len() ==> (#[trigger] published_rows(rows)[i]).published,
        forall|i: int|
            0 <= i < published_rows(rows).len() ==> rows.contains(
                #[trigger] published_rows(rows)[i],
            ),
        forall|i: int|
            0 <= i < rows.len() && (#[trigger] rows[i]).published ==> published_rows(
                rows,
            ).contains(rows[i]),
{
    let listed = published_rows(rows);
    let keep = |row: ArticleView| row.published;
    assert forall|i: int| 0 <= i < listed.len() implies (#[trigger] listed[i]).published
        && rows.contains(listed[i]) by {
        rows.lemma_filter_pred(keep, i);
        assert(listed.contains(listed[i]));
        rows.lemma_filter_contains_rev(keep, listed[i]);
    }
    assert forall|i: int| 0 <= i < rows.len() && (#[trigger] rows[i]).published implies listed.contains(
        rows[i],
    ) by {
        rows.lemma_filter_contains(keep, i);
    }
}

} // verus!
