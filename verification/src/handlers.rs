//! The request handlers: one per route. Each turns its request into a
//! command, has the store worker carry it out, and turns the worker's
//! answer into a response with a status and a body.

use vstd::prelude::*;
use crate::actors::db::{has_random_id, Create, DbActor, Delete, GetArticles, Handler, Publish, Update};
use crate::error::ArticleError;
use crate::ident::{checked_id, is_random_uuid, parse_id, parsed_uuid};
use crate::models::{new_row, Article, ArticleData, ArticleView};
use crate::store::{
    delete_result, delete_rows, has_id, listing, outcome, publish_result, publish_rows,
    published_rows, update_result, update_rows, views,
};

verus! {

/// Status of a request that was carried out.
pub const OK: u16 = 200;

/// Status of a request that was malformed.
pub const BAD_REQUEST: u16 = 400;

/// Status of a request for an article that does not exist.
pub const NOT_FOUND: u16 = 404;

/// Status of a request that failed for any other reason.
pub const INTERNAL_SERVER_ERROR: u16 = 500;

/// What the handlers share: the store worker.
pub struct AppState {
    pub db: DbActor,
}

impl View for AppState {
    type V = Seq<ArticleView>;

    open spec fn view(&self) -> Seq<ArticleView> {
        self.db@
    }
}

/// The body of a response, before it is written as JSON.
#[derive(Debug, PartialEq, Eq)]
pub enum Body {
    /// One article.
    Article(Article),
    /// An array of articles.
    Articles(Vec<Article>),
    /// A text that says what went wrong.
    Message(String),
}

/// A response: its HTTP status and its body.
#[derive(Debug, PartialEq, Eq)]
pub struct Response {
    pub status: u16,
    pub body: Body,
}

/// A body as a mathematical value.
pub enum BodyView {
    Article(ArticleView),
    Articles(Seq<ArticleView>),
    Message(Seq<char>),
}

/// A response as a mathematical value.
pub struct ResponseView {
    pub status: u16,
    pub body: BodyView,
}

impl View for Body {
    type V = BodyView;

    open spec fn view(&self) -> BodyView {
        match self {
            Body::Article(article) => BodyView::Article(article@),
            Body::Articles(articles) => BodyView::Articles(views(articles@)),
            Body::Message(text) => BodyView::Message(text@),
        }
    }
}

impl View for Response {
    type V = ResponseView;

    open spec fn view(&self) -> ResponseView {
        ResponseView { status: self.status, body: self.body@ }
    }
}

/// The status with which an error is reported.
pub open spec fn error_status(error: ArticleError) -> u16 {
    match error {
        ArticleError::NotFound => NOT_FOUND,
        ArticleError::StorageError => INTERNAL_SERVER_ERROR,
        ArticleError::ValidationError => BAD_REQUEST,
    }
}

/// The text that goes with a failure status.
pub open spec fn reason(status: u16) -> Seq<char> {
    if status == NOT_FOUND {
        "Article not found"@
    } else if status == BAD_REQUEST {
        "Invalid article id"@
    } else {
        "Something went wrong"@
    }
}

/// The response that reports a failure with `status`.
pub open spec fn failure(status: u16) -> ResponseView {
    ResponseView { status, body: BodyView::Message(reason(status)) }
}

/// The response that carries one article.
pub open spec fn success(row: ArticleView) -> ResponseView {
    ResponseView { status: OK, body: BodyView::Article(row) }
}

/// The response to a creation: the new article, or status 500 whatever
/// went wrong.
pub open spec fn created_response(reply: Result<ArticleView, ArticleError>) -> ResponseView {
    match reply {
        Ok(row) => success(row),
        Err(_) => failure(INTERNAL_SERVER_ERROR),
    }
}

/// The response to an update, a deletion or a publication: the article, or
/// the status that belongs to the error.
pub open spec fn article_response(reply: Result<ArticleView, ArticleError>) -> ResponseView {
    match reply {
        Ok(row) => success(row),
        Err(error) => failure(error_status(error)),
    }
}

/// The response to a listing: the articles, or status 500 whatever went
/// wrong.
pub open spec fn articles_response(reply: Result<Seq<ArticleView>, ArticleError>) -> ResponseView {
    match reply {
        Ok(rows) => ResponseView { status: OK, body: BodyView::Articles(rows) },
        Err(_) => failure(INTERNAL_SERVER_ERROR),
    }
}

/// Builds the response that reports a failure with `status`.
fn fail(status: u16) -> (response: Response)
    ensures
        response@ == failure(status),
{
    let text = if status == NOT_FOUND {
        "Article not found"
    } else if status == BAD_REQUEST {
        "Invalid article id"
    } else {
        "Something went wrong"
    };
    Response { status, body: Body::Message(text.to_owned()) }
}

/// The status with which `error` is reported: 404 for an unknown article,
/// 400 for a malformed request, 500 for a failure of the storage.
pub fn status_of(error: ArticleError) -> (status: u16)
    ensures
        status == error_status(error),
{
    match error {
        ArticleError::NotFound => NOT_FOUND,
        ArticleError::StorageError => INTERNAL_SERVER_ERROR,
        ArticleError::ValidationError => BAD_REQUEST,
    }
}

/// Answers a creation: status 200 with the new article, or status 500.
pub fn respond_created(reply: Result<Article, ArticleError>) -> (response: Response)
    ensures
        response@ == created_response(outcome(reply)),
{
    match reply {
        Ok(article) => Response { status: OK, body: Body::Article(article) },
        Err(_) => fail(INTERNAL_SERVER_ERROR),
    }
}

/// Answers an update, a deletion or a publication: status 200 with the
/// article, 404 where it does not exist, 400 where the request was
/// malformed, 500 otherwise.
pub fn respond_article(reply: Result<Article, ArticleError>) -> (response: Response)
    ensures
        response@ == article_response(outcome(reply)),
{
    match reply {
        Ok(article) => Response { status: OK, body: Body::Article(article) },
        Err(error) => fail(status_of(error)),
    }
}

/// Answers a listing: status 200 with the articles, or status 500.
pub fn respond_articles(reply: Result<Vec<Article>, ArticleError>) -> (response: Response)
    ensures
        response@ == articles_response(listing(reply)),
{
    match reply {
        Ok(articles) => Response { status: OK, body: Body::Articles(articles) },
        Err(_) => fail(INTERNAL_SERVER_ERROR),
    }
}

/// `POST /new`: creates an unpublished article with the given title and
/// body under a fresh random identifier. The response carries the new
/// article with status 200; should the identifier be taken already, which
/// needs a row with a random identifier, the store stays as it is and the
/// status is 500.
pub fn create_article(article: ArticleData, state: &mut AppState) -> (response: Response)
    ensures
        match response@.body {
            BodyView::Article(row) => {
                &&& response@.status == OK
                &&& is_random_uuid(row.uuid)
                &&& row == new_row(row.uuid, article.title@, article.body@)
                &&& !has_id(old(state)@, row.uuid)
                &&& final(state)@ == old(state)@.push(row)
            },
            _ => {
                &&& response@ == failure(INTERNAL_SERVER_ERROR)
                &&& has_random_id(old(state)@)
                &&& final(state)@ == old(state)@
            },
        },
{
    let reply = state.db.handle(Create { title: article.title, body: article.body });
    respond_created(reply)
}

/// `PUT /{id}` with the identifier read already: gives the article `id`
/// the new title and body. Status 200 with the article as it then is, or
/// 404 where there is no such article.
pub fn update_article(id: u128, article: ArticleData, state: &mut AppState) -> (response: Response)
    ensures
        final(state)@ == update_rows(old(state)@, id, article.title@, article.body@),
        response@ == article_response(
            update_result(old(state)@, id, article.title@, article.body@),
        ),
{
    let reply = state.db.handle(Update { uuid: id, title: article.title, body: article.body });
    respond_article(reply)
}

/// `DELETE /{id}` with the identifier read already: removes the article
/// `id`. Status 200 with the article as it was, or 404 where there is no
/// such article.
pub fn delete_article(id: u128, state: &mut AppState) -> (response: Response)
    ensures
        final(state)@ == delete_rows(old(state)@, id),
        response@ == article_response(delete_result(old(state)@, id)),
{
    let reply = state.db.handle(Delete { uuid: id });
    respond_article(reply)
}

/// `POST /{id}/publish` with the identifier read already: marks the
/// article `id` as published. Status 200 with the article as it then is,
/// or 404 where there is no such article.
pub fn publish_article(id: u128, state: &mut AppState) -> (response: Response)
    ensures
        final(state)@ == publish_rows(old(state)@, id),
        response@ == article_response(publish_result(old(state)@, id)),
{
    let reply = state.db.handle(Publish { uuid: id });
    respond_article(reply)
}

/// `GET /published`: status 200 with the published articles in the order
/// in which they were created. The store stays as it is.
pub fn get_published(state: &mut AppState) -> (response: Response)
    ensures
        final(state)@ == old(state)@,
        response@ == articles_response(
            Ok::<Seq<ArticleView>, ArticleError>(published_rows(old(state)@)),
        ),
{
    let reply = state.db.handle(GetArticles {  });
    respond_articles(reply)
}

/// `PUT /{id}` from the text of the path segment: status 400 where the
/// text is no UUID, and the store stays as it is; else as `update_article`
/// answers for the identifier read.
pub fn update_article_at(id: &str, article: ArticleData, state: &mut AppState) -> (response:
    Response)
    ensures
        match checked_id(parsed_uuid(id@)) {
            Ok(uuid) => {
                &&& final(state)@ == update_rows(old(state)@, uuid, article.title@, article.body@)
                &&& response@ == article_response(
                    update_result(old(state)@, uuid, article.title@, article.body@),
                )
            },
            Err(error) => final(state)@ == old(state)@ && response@ == failure(BAD_REQUEST),
        },
{
    match parse_id(id) {
        Ok(uuid) => update_article(uuid, article, state),
        Err(error) => respond_article(Err(error)),
    }
}

/// `DELETE /{id}` from the text of the path segment: status 400 where the
/// text is no UUID, and the store stays as it is; else as `delete_article`
/// answers for the identifier read.
pub fn delete_article_at(id: &str, state: &mut AppState) -> (response: Response)
    ensures
        match checked_id(parsed_uuid(id@)) {
            Ok(uuid) => {
                &&& final(state)@ == delete_rows(old(state)@, uuid)
                &&& response@ == article_response(delete_result(old(state)@, uuid))
            },
            Err(error) => final(state)@ == old(state)@ && response@ == failure(BAD_REQUEST),
        },
{
    match parse_id(id) {
        Ok(uuid) => delete_article(uuid, state),
        Err(error) => respond_article(Err(error)),
    }
}

/// `POST /{id}/publish` from the text of the path segment: status 400
/// where the text is no UUID, and the store stays as it is; else as
/// `publish_article` answers for the identifier read.
pub fn publish_article_at(id: &str, state: &mut AppState) -> (response: Response)
    ensures
        match checked_id(parsed_uuid(id@)) {
            Ok(uuid) => {
                &&& final(state)@ == publish_rows(old(state)@, uuid)
                &&& response@ == article_response(publish_result(old(state)@, uuid))
            },
            Err(error) => final(state)@ == old(state)@ && response@ == failure(BAD_REQUEST),
        },
{
    match parse_id(id) {
        Ok(uuid) => publish_article(uuid, state),
        Err(error) => respond_article(Err(error)),
    }
}

} // verus!
