//! The table of articles: what each operation does to the rows, as
//! functions on sequences, and an in-memory table that implements them.
//!
//! Rows are kept in the order in which they were inserted; no two rows
//! share an identifier.

use vstd::prelude::*;
use crate::error::ArticleError;
use crate::models::{Article, ArticleView, NewArticle};

verus! {

/// Some row of `rows` has the identifier `uuid`.
pub open spec fn has_id(rows: Seq<ArticleView>, uuid: u128) -> bool {
    exists|i: int| 0 <= i < rows.len() && (#[trigger] rows[i]).uuid == uuid
}

/// No two rows of `rows` share an identifier.
pub open spec fn unique_ids(rows: Seq<ArticleView>) -> bool {
    forall|i: int, j: int|
        0 <= i < j < rows.len() ==> (#[trigger] rows[i]).uuid != (#[trigger] rows[j]).uuid
}

/// A row of `rows` with the identifier `uuid`; the only one where
/// identifiers are unique.
pub open spec fn row_of(rows: Seq<ArticleView>, uuid: u128) -> ArticleView {
    rows[choose|i: int| 0 <= i < rows.len() && (#[trigger] rows[i]).uuid == uuid]
}

/// `row` with its title and body replaced.
pub open spec fn retitled(row: ArticleView, title: Seq<char>, body: Seq<char>) -> ArticleView {
    ArticleView { uuid: row.uuid, title, body, published: row.published }
}

/// `row` marked as published.
pub open spec fn released(row: ArticleView) -> ArticleView {
    ArticleView { uuid: row.uuid, title: row.title, body: row.body, published: true }
}

/// The rows after inserting `row`: unchanged if its identifier is taken,
/// else with `row` at the end.
pub open spec fn insert_rows(rows: Seq<ArticleView>, row: ArticleView) -> Seq<ArticleView> {
    if has_id(rows, row.uuid) {
        rows
    } else {
        rows.push(row)
    }
}

/// What inserting `row` answers: the row, or `StorageError` if its
/// identifier is taken.
pub open spec fn insert_result(rows: Seq<ArticleView>, row: ArticleView) -> Result<
    ArticleView,
    ArticleError,
> {
    if has_id(rows, row.uuid) {
        Err(ArticleError::StorageError)
    } else {
        Ok(row)
    }
}

/// The rows after an update: every row with the identifier `uuid` gets the
/// new title and body, all else stays.
pub open spec fn update_rows(
    rows: Seq<ArticleView>,
    uuid: u128,
    title: Seq<char>,
    body: Seq<char>,
) -> Seq<ArticleView> {
    rows.map_values(
        |row: ArticleView|
            if row.uuid == uuid {
                retitled(row, title, body)
            } else {
                row
            },
    )
}

/// What an update answers: the row as it is afterwards, or `NotFound`.
pub open spec fn update_result(
    rows: Seq<ArticleView>,
    uuid: u128,
    title: Seq<char>,
    body: Seq<char>,
) -> Result<ArticleView, ArticleError> {
    if has_id(rows, uuid) {
        Ok(retitled(row_of(rows, uuid), title, body))
    } else {
        Err(ArticleError::NotFound)
    }
}

/// The rows after deleting `uuid`: those with another identifier, in their
/// order.
pub open spec fn delete_rows(rows: Seq<ArticleView>, uuid: u128) -> Seq<ArticleView> {
    rows.filter(|row: ArticleView| row.uuid != uuid)
}

/// What a deletion answers: the row as it was, or `NotFound`.
pub open spec fn delete_result(rows: Seq<ArticleView>, uuid: u128) -> Result<
    ArticleView,
    ArticleError,
> {
    if has_id(rows, uuid) {
        Ok(row_of(rows, uuid))
    } else {
        Err(ArticleError::NotFound)
    }
}

/// The rows after publishing `uuid`: every row with that identifier is
/// marked published, all else stays.
pub open spec fn publish_rows(rows: Seq<ArticleView>, uuid: u128) -> Seq<ArticleView> {
    rows.map_values(
        |row: ArticleView|
            if row.uuid == uuid {
                released(row)
            } else {
                row
            },
    )
}

/// What publishing answers: the row as it is afterwards, or `NotFound`.
pub open spec fn publish_result(rows: Seq<ArticleView>, uuid: u128) -> Result<
    ArticleView,
    ArticleError,
> {
    if has_id(rows, uuid) {
        Ok(released(row_of(rows, uuid)))
    } else {
        Err(ArticleError::NotFound)
    }
}

/// The published rows, in their order.
pub open spec fn published_rows(rows: Seq<ArticleView>) -> Seq<ArticleView> {
    rows.filter(|row: ArticleView| row.published)
}

/// The rows that a vector of articles stands for.
pub open spec fn views(articles: Seq<Article>) -> Seq<ArticleView> {
    articles.map_values(|article: Article| article@)
}

/// A command's result with the article taken by its view.
pub open spec fn outcome(result: Result<Article, ArticleError>) -> Result<
    ArticleView,
    ArticleError,
> {
    match result {
        Ok(article) => Ok(article@),
        Err(error) => Err(error),
    }
}

/// A listing's result with each article taken by its view.
pub open spec fn listing(result: Result<Vec<Article>, ArticleError>) -> Result<
    Seq<ArticleView>,
    ArticleError,
> {
    match result {
        Ok(articles) => Ok(views(articles@)),
        Err(error) => Err(error),
    }
}

/// Where identifiers are unique, the row at a position is the row of its
/// identifier.
pub proof fn lemma_row_of(rows: Seq<ArticleView>, k: int)
    requires
        unique_ids(rows),
        0 <= k < rows.len(),
    ensures
        has_id(rows, rows[k].uuid),
        row_of(rows, rows[k].uuid) == rows[k],
{
    let uuid = rows[k].uuid;
    let i = choose|i: int| 0 <= i < rows.len() && (#[trigger] rows[i]).uuid == uuid;
    if i < k {
        assert(rows[i].uuid != rows[k].uuid);
    } else if k < i {
        assert(rows[k].uuid != rows[i].uuid);
    }
}

/// An in-memory table of articles. No two of its rows share an identifier:
/// the type keeps that as its invariant, so every operation can be called
/// on every table.
pub struct ArticleTable {
    rows: Vec<Article>,
}

impl View for ArticleTable {
    type V = Seq<ArticleView>;

    closed spec fn view(&self) -> Seq<ArticleView> {
        views(self.rows@)
    }
}

impl ArticleTable {
    #[verifier::type_invariant]
    spec fn unique(&self) -> bool {
        unique_ids(views(self.rows@))
    }

    /// An empty table.
    pub fn new() -> (table: Self)
        ensures
            table@ == Seq::<ArticleView>::empty(),
    {
        ArticleTable { rows: Vec::new() }
    }

    /// The number of rows; it also tells that their identifiers are unique.
    pub fn len(&self) -> (count: usize)
        ensures
            count == self@.len(),
            unique_ids(self@),
    {
        proof {
            use_type_invariant(self);
        }
        self.rows.len()
    }

    /// The position of the first row with the identifier `uuid`, if any.
    fn locate(&self, uuid: u128) -> (found: Option<usize>)
        ensures
            match found {
                Some(k) => k < self@.len() && self@[k as int].uuid == uuid,
                None => !has_id(self@, uuid),
            },
    {
        let mut k: usize = 0;
        while k < self.rows.len()
            invariant
                k <= self.rows.len(),
                forall|i: int| 0 <= i < k ==> (#[trigger] self@[i]).uuid != uuid,
            decreases self.rows.len() - k,
        {
            if self.rows[k].uuid == uuid {
                return Some(k);
            }
            k += 1;
        }
        None
    }

    /// Whether some row has the identifier `uuid`.
    pub fn contains(&self, uuid: u128) -> (found: bool)
        ensures
            found == has_id(self@, uuid),
    {
        self.locate(uuid).is_some()
    }

    /// Takes the rows out, leaving the table empty, so that they can be
    /// changed and put back.
    fn take_rows(&mut self) -> (rows: Vec<Article>)
        ensures
            rows == old(self).rows,
    {
        let mut rows: Vec<Article> = Vec::new();
        std::mem::swap(&mut rows, &mut self.rows);
        rows
    }

    /// Inserts `new` as an unpublished row at the end and answers the row.
    /// An identifier that is already taken violates the table's uniqueness
    /// constraint: the table stays as it is and the answer is
    /// `StorageError`.
    pub fn insert(&mut self, new: NewArticle) -> (result: Result<Article, ArticleError>)
        ensures
            unique_ids(final(self)@),
            final(self)@ == insert_rows(old(self)@, new.row()),
            outcome(result) == insert_result(old(self)@, new.row()),
    {
        proof {
            use_type_invariant(&*self);
        }
        match self.locate(new.uuid) {
            Some(_) => Err(ArticleError::StorageError),
            None => {
                let article = new.into_article();
                let answer = article.clone();
                let mut rows = self.take_rows();
                rows.push(article);
                assert(views(rows@) =~= old(self)@.push(new.row()));
                self.rows = rows;
                Ok(answer)
            },
        }
    }

    /// Gives the row with the identifier `uuid` a new title and body and
    /// answers the row as it then is. Where no row has that identifier the
    /// table stays as it is and the answer is `NotFound`.
    pub fn update(&mut self, uuid: u128, title: String, body: String) -> (result: Result<
        Article,
        ArticleError,
    >)
        ensures
            unique_ids(final(self)@),
            final(self)@ == update_rows(old(self)@, uuid, title@, body@),
            outcome(result) == update_result(old(self)@, uuid, title@, body@),
    {
        proof {
            use_type_invariant(&*self);
        }
        match self.locate(uuid) {
            Some(k) => {
                let published = self.rows[k].published;
                let article = Article { uuid, title, body, published };
                let answer = article.clone();
                let mut rows = self.take_rows();
                rows.set(k, article);
                proof {
                    lemma_row_of(old(self)@, k as int);
                    lemma_replace_row(old(self)@, k as int, answer@);
                    assert(views(rows@) =~= old(self)@.update(k as int, answer@));
                }
                self.rows = rows;
                Ok(answer)
            },
            None => {
                proof {
                    lemma_absent_untouched(self@, uuid);
                }
                Err(ArticleError::NotFound)
            },
        }
    }

    /// Marks the row with the identifier `uuid` as published and answers
    /// the row as it then is; a row that was published already stays so.
    /// Where no row has that identifier the table stays as it is and the
    /// answer is `NotFound`.
    pub fn publish(&mut self, uuid: u128) -> (result: Result<Article, ArticleError>)
        ensures
            unique_ids(final(self)@),
            final(self)@ == publish_rows(old(self)@, uuid),
            outcome(result) == publish_result(old(self)@, uuid),
    {
        proof {
            use_type_invariant(&*self);
        }
        match self.locate(uuid) {
            Some(k) => {
                let current = self.rows[k].clone();
                let article = Article {
                    uuid: current.uuid,
                    title: current.title,
                    body: current.body,
                    published: true,
                };
                let answer = article.clone();
                let mut rows = self.take_rows();
                rows.set(k, article);
                proof {
                    lemma_row_of(old(self)@, k as int);
                    lemma_replace_row(old(self)@, k as int, answer@);
                    assert(views(rows@) =~= old(self)@.update(k as int, answer@));
                }
                self.rows = rows;
                Ok(answer)
            },
            None => {
                proof {
                    lemma_absent_untouched(self@, uuid);
                }
                Err(ArticleError::NotFound)
            },
        }
    }

    /// Removes the row with the identifier `uuid` and answers the row as it
    /// was. Where no row has that identifier the table stays as it is and
    /// the answer is `NotFound`.
    pub fn delete(&mut self, uuid: u128) -> (result: Result<Article, ArticleError>)
        ensures
            unique_ids(final(self)@),
            final(self)@ == delete_rows(old(self)@, uuid),
            outcome(result) == delete_result(old(self)@, uuid),
    {
        proof {
            use_type_invariant(&*self);
        }
        match self.locate(uuid) {
            Some(k) => {
                let mut rows = self.take_rows();
                let removed = rows.remove(k);
                proof {
                    lemma_row_of(old(self)@, k as int);
                    lemma_remove_row(old(self)@, k as int);
                    assert(views(rows@) =~= old(self)@.remove(k as int));
                }
                self.rows = rows;
                Ok(removed)
            },
            None => {
                proof {
                    lemma_absent_untouched(self@, uuid);
                }
                Err(ArticleError::NotFound)
            },
        }
    }

    /// The published rows, in the order in which they were inserted.
    pub fn published(&self) -> (articles: Vec<Article>)
        ensures
            views(articles@) == published_rows(self@),
            forall|i: int| 0 <= i < articles@.len() ==> (#[trigger] articles@[i]).published,
    {
        let mut articles: Vec<Article> = Vec::new();
        let mut k: usize = 0;
        proof {
            reveal(Seq::filter);
            assert(self@.take(0) =~= Seq::<ArticleView>::empty());
        }
        while k < self.rows.len()
            invariant
                k <= self.rows.len(),
                views(articles@) == published_rows(self@.take(k as int)),
            decreases self.rows.len() - k,
        {
            proof {
                reveal(Seq::filter);
                assert(self@.take(k + 1).drop_last() =~= self@.take(k as int));
            }
            if self.rows[k].published {
                let ghost before = articles@;
                articles.push(self.rows[k].clone());
                assert(views(articles@) =~= views(before).push(self@[k as int]));
            }
            k += 1;
        }
        assert(self@.take(k as int) =~= self@);
        assert forall|i: int| 0 <= i < articles@.len() implies (#[trigger] articles@[i]).published by {
            self@.lemma_filter_pred(|row: ArticleView| row.published, i);
            assert(views(articles@)[i] == articles@[i]@);
        }
        articles
    }
}

/// Replacing the row at position `k` by one with the same identifier is
/// the same as replacing every row with that identifier, where identifiers
/// are unique; and they stay unique.
proof fn lemma_replace_row(rows: Seq<ArticleView>, k: int, row: ArticleView)
    requires
        unique_ids(rows),
        0 <= k < rows.len(),
        row.uuid == rows[k].uuid,
    ensures
        unique_ids(rows.update(k, row)),
        rows.update(k, row) == rows.map_values(
            |r: ArticleView|
                if r.uuid == row.uuid {
                    row
                } else {
                    r
                },
        ),
{
    let replaced = rows.update(k, row);
    assert forall|i: int, j: int| 0 <= i < j < replaced.len() implies (#[trigger] replaced[i]).uuid
        != (#[trigger] replaced[j]).uuid by {
        assert(rows[i].uuid != rows[j].uuid);
    }
    let mapped = rows.map_values(
        |r: ArticleView|
            if r.uuid == row.uuid {
                row
            } else {
                r
            },
    );
    assert forall|i: int| 0 <= i < rows.len() implies replaced[i] == mapped[i] by {
        if i < k {
            assert(rows[i].uuid != rows[k].uuid);
        } else if k < i {
            assert(rows[k].uuid != rows[i].uuid);
        }
    }
    assert(replaced =~= mapped);
}

/// Where no row has the identifier `uuid`, updating, publishing and
/// deleting it leave the rows as they are.
pub proof fn lemma_absent_untouched(rows: Seq<ArticleView>, uuid: u128)
    requires
        !has_id(rows, uuid),
    ensures
        forall|title: Seq<char>, body: Seq<char>| #[trigger]
            update_rows(rows, uuid, title, body) == rows,
        publish_rows(rows, uuid) == rows,
        delete_rows(rows, uuid) == rows,
    decreases rows.len(),
{
    assert forall|title: Seq<char>, body: Seq<char>| #[trigger]
        update_rows(rows, uuid, title, body) == rows by {
        assert forall|i: int| 0 <= i < rows.len() implies update_rows(rows, uuid, title, body)[i]
            == rows[i] by {
            assert(rows[i].uuid != uuid);
        }
        assert(update_rows(rows, uuid, title, body) =~= rows);
    }
    assert forall|i: int| 0 <= i < rows.len() implies publish_rows(rows, uuid)[i] == rows[i] by {
        assert(rows[i].uuid != uuid);
    }
    assert(publish_rows(rows, uuid) =~= rows);
    reveal(Seq::filter);
    if rows.len() > 0 {
        let front = rows.drop_last();
        assert forall|i: int| 0 <= i < front.len() implies (#[trigger] front[i]).uuid != uuid by {
            assert(rows[i].uuid != uuid);
        }
        lemma_absent_untouched(front, uuid);
        assert(rows.last().uuid != uuid);
        assert(front.push(rows.last()) =~= rows);
    }
}

/// Where identifiers are unique, taking out the row at position `k` is the
/// same as keeping the rows with another identifier; and they stay unique.
proof fn lemma_remove_row(rows: Seq<ArticleView>, k: int)
    requires
        unique_ids(rows),
        0 <= k < rows.len(),
    ensures
        unique_ids(rows.remove(k)),
        rows.remove(k) == delete_rows(rows, rows[k].uuid),
    decreases rows.len(),
{
    let uuid = rows[k].uuid;
    let rest = rows.remove(k);
    assert forall|i: int, j: int| 0 <= i < j < rest.len() implies (#[trigger] rest[i]).uuid != (
    #[trigger] rest[j]).uuid by {
        let a = if i < k { i } else { i + 1 };
        let b = if j < k { j } else { j + 1 };
        assert(rows[a].uuid != rows[b].uuid);
    }
    reveal(Seq::filter);
    let front = rows.drop_last();
    assert forall|i: int, j: int| 0 <= i < j < front.len() implies (#[trigger] front[i]).uuid != (
    #[trigger] front[j]).uuid by {
        assert(rows[i].uuid != rows[j].uuid);
    }
    if k == rows.len() - 1 {
        assert forall|i: int| 0 <= i < front.len() implies (#[trigger] front[i]).uuid != uuid by {
            assert(rows[i].uuid != rows[k].uuid);
        }
        assert(!has_id(front, uuid));
        lemma_absent_untouched(front, uuid);
        assert(rest =~= front);
    } else {
        lemma_remove_row(front, k);
        assert(front[k] == rows[k]);
        assert(rows[k].uuid != rows[rows.len() - 1].uuid);
        assert(rest =~= front.remove(k).push(rows.last()));
    }
}

} // verus!
