//! The article record and the values from which one is made.

use vstd::prelude::*;

verus! {

/// What an article is, as a mathematical value: its identifier as the
/// 128-bit number of its UUID, its two texts as sequences of characters,
/// and whether it has been published.
pub struct ArticleView {
    pub uuid: u128,
    pub title: Seq<char>,
    pub body: Seq<char>,
    pub published: bool,
}

/// A stored article.
#[derive(Debug, PartialEq, Eq)]
pub struct Article {
    pub uuid: u128,
    pub title: String,
    pub body: String,
    pub published: bool,
}

impl View for Article {
    type V = ArticleView;

    open spec fn view(&self) -> ArticleView {
        ArticleView {
            uuid: self.uuid,
            title: self.title@,
            body: self.body@,
            published: self.published,
        }
    }
}

impl Clone for Article {
    /// A copy with the same identifier, texts and publication flag.
    fn clone(&self) -> (copy: Self)
        ensures
            copy@ == self@,
    {
        Article {
            uuid: self.uuid,
            title: self.title.clone(),
            body: self.body.clone(),
            published: self.published,
        }
    }
}

/// The row of a newly created article: not yet published.
pub open spec fn new_row(uuid: u128, title: Seq<char>, body: Seq<char>) -> ArticleView {
    ArticleView { uuid, title, body, published: false }
}

/// The title and body that a client sends to create or update an article.
#[derive(Debug, PartialEq, Eq)]
pub struct ArticleData {
    pub title: String,
    pub body: String,
}

/// An article that is about to be inserted: it has its identifier already
/// and is not published.
#[derive(Debug, PartialEq, Eq)]
pub struct NewArticle {
    pub uuid: u128,
    pub title: String,
    pub body: String,
}

impl NewArticle {
    /// The row that inserting this article creates.
    pub open spec fn row(&self) -> ArticleView {
        new_row(self.uuid, self.title@, self.body@)
    }

    /// Turns the pending article into the stored one, unpublished.
    pub fn into_article(self) -> (article: Article)
        ensures
            article@ == self.row(),
    {
        Article { uuid: self.uuid, title: self.title, body: self.body, published: false }
    }
}

} // verus!
