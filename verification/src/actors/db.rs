//! The store worker and the commands it answers. A worker owns its table
//! and carries out one command at a time, each as a single operation on the
//! table.

use vstd::prelude::*;
use crate::error::ArticleError;
use crate::ident::{is_random_uuid, random_uuid};
use crate::models::{new_row, Article, ArticleView, NewArticle};
use crate::store::{
    delete_result, delete_rows, has_id, listing, outcome, publish_result, publish_rows,
    published_rows, unique_ids, update_result, update_rows, ArticleTable,
};

verus! {

/// The number of workers that answer commands side by side.
pub const WORKERS: usize = 5;

/// Create an article with this title and body.
pub struct Create {
    pub title: String,
    pub body: String,
}

/// Replace the title and body of the article `uuid`.
pub struct Update {
    pub uuid: u128,
    pub title: String,
    pub body: String,
}

/// Remove the article `uuid`.
pub struct Delete {
    pub uuid: u128,
}

/// Mark the article `uuid` as published.
pub struct Publish {
    pub uuid: u128,
}

/// List the published articles.
pub struct GetArticles {}

impl Create {
    /// The article to insert for this command under the identifier `uuid`.
    pub fn with_id(self, uuid: u128) -> (new: NewArticle)
        ensures
            new.row() == new_row(uuid, self.title@, self.body@),
    {
        NewArticle { uuid, title: self.title, body: self.body }
    }

    /// The article to insert for this command under a fresh random
    /// identifier.
    pub fn with_fresh_id(self) -> (new: NewArticle)
        ensures
            is_random_uuid(new.uuid),
            new.row() == new_row(new.uuid, self.title@, self.body@),
    {
        self.with_id(random_uuid())
    }
}

/// A worker of the store, with the table it works on.
pub struct DbActor(pub ArticleTable);

impl View for DbActor {
    type V = Seq<ArticleView>;

    open spec fn view(&self) -> Seq<ArticleView> {
        self.0@
    }
}

/// Some row of `rows` has a random identifier, so that a fresh one could
/// collide with it.
pub open spec fn has_random_id(rows: Seq<ArticleView>) -> bool {
    exists|i: int| 0 <= i < rows.len() && is_random_uuid((#[trigger] rows[i]).uuid)
}

/// A worker that answers commands of type `M`.
pub trait Handler<M> {
    /// What the worker answers.
    type Result;

    /// Carries out `msg` and answers.
    fn handle(&mut self, msg: M) -> Self::Result;
}

impl Handler<Create> for DbActor {
    type Result = Result<Article, ArticleError>;

    /// Inserts an unpublished article with the command's title and body
    /// under a fresh random identifier and answers the new row. Should the
    /// identifier be taken already, the table stays as it is and the answer
    /// is `StorageError`; that can only happen where some row has a random
    /// identifier.
    fn handle(&mut self, msg: Create) -> (result: Self::Result)
        ensures
            unique_ids(final(self)@),
            match outcome(result) {
                Ok(row) => {
                    &&& is_random_uuid(row.uuid)
                    &&& row == new_row(row.uuid, msg.title@, msg.body@)
                    &&& !has_id(old(self)@, row.uuid)
                    &&& final(self)@ == old(self)@.push(row)
                },
                Err(error) => {
                    &&& error == ArticleError::StorageError
                    &&& has_random_id(old(self)@)
                    &&& final(self)@ == old(self)@
                },
            },
    {
        self.0.insert(msg.with_fresh_id())
    }
}

impl Handler<Update> for DbActor {
    type Result = Result<Article, ArticleError>;

    /// Gives the article `msg.uuid` the command's title and body and
    /// answers the row as it then is, or `NotFound` where there is no such
    /// article.
    fn handle(&mut self, msg: Update) -> (result: Self::Result)
        ensures
            unique_ids(final(self)@),
            final(self)@ == update_rows(old(self)@, msg.uuid, msg.title@, msg.body@),
            outcome(result) == update_result(old(self)@, msg.uuid, msg.title@, msg.body@),
    {
        self.0.update(msg.uuid, msg.title, msg.body)
    }
}

impl Handler<Delete> for DbActor {
    type Result = Result<Article, ArticleError>;

    /// Removes the article `msg.uuid` and answers the row as it was, or
    /// `NotFound` where there is no such article.
    fn handle(&mut self, msg: Delete) -> (result: Self::Result)
        ensures
            unique_ids(final(self)@),
            final(self)@ == delete_rows(old(self)@, msg.uuid),
            outcome(result) == delete_result(old(self)@, msg.uuid),
    {
        self.0.delete(msg.uuid)
    }
}

impl Handler<Publish> for DbActor {
    type Result = Result<Article, ArticleError>;

    /// Marks the article `msg.uuid` as published and answers the row as it
    /// then is, or `NotFound` where there is no such article.
    fn handle(&mut self, msg: Publish) -> (result: Self::Result)
        ensures
            unique_ids(final(self)@),
            final(self)@ == publish_rows(old(self)@, msg.uuid),
            outcome(result) == publish_result(old(self)@, msg.uuid),
    {
        self.0.publish(msg.uuid)
    }
}

impl Handler<GetArticles> for DbActor {
    type Result = Result<Vec<Article>, ArticleError>;

    /// Answers the published articles in the order in which they were
    /// created; the table stays as it is.
    fn handle(&mut self, msg: GetArticles) -> (result: Self::Result)
        ensures
            final(self)@ == old(self)@,
            listing(result) == Ok::<Seq<ArticleView>, ArticleError>(published_rows(old(self)@)),
    {
        Ok(self.0.published())
    }
}

} // verus!
