use article_service::actors::db::DbActor;
use article_service::error::ArticleError;
use article_service::handlers::{
    create_article, delete_article, delete_article_at, get_published, publish_article,
    publish_article_at, respond_article, respond_articles, respond_created, status_of,
    update_article, update_article_at, AppState, Body, Response, BAD_REQUEST,
    INTERNAL_SERVER_ERROR, NOT_FOUND, OK,
};
use article_service::models::{Article, ArticleData, NewArticle};
use article_service::store::ArticleTable;

fn fresh() -> AppState {
    AppState { db: DbActor(ArticleTable::new()) }
}

fn data(title: &str, body: &str) -> ArticleData {
    ArticleData { title: title.to_string(), body: body.to_string() }
}

fn message(status: u16, text: &str) -> Response {
    Response { status, body: Body::Message(text.to_string()) }
}

fn article_in(response: &Response) -> Article {
    match &response.body {
        Body::Article(article) => article.clone(),
        other => panic!("no article in {:?}", other),
    }
}

fn text_of(uuid: u128) -> String {
    uuid::Uuid::from_u128(uuid).to_hyphenated().to_string()
}

#[test]
fn status_codes() {
    assert_eq!(OK, 200);
    assert_eq!(BAD_REQUEST, 400);
    assert_eq!(NOT_FOUND, 404);
    assert_eq!(INTERNAL_SERVER_ERROR, 500);
    assert_eq!(status_of(ArticleError::NotFound), 404);
    assert_eq!(status_of(ArticleError::StorageError), 500);
    assert_eq!(status_of(ArticleError::ValidationError), 400);
}

#[test]
fn respond_created_is_500_on_any_failure() {
    let article =
        Article { uuid: 1, title: "A".to_string(), body: "B".to_string(), published: false };
    assert_eq!(
        respond_created(Ok(article.clone())),
        Response { status: 200, body: Body::Article(article) }
    );
    assert_eq!(
        respond_created(Err(ArticleError::StorageError)),
        message(500, "Something went wrong")
    );
    assert_eq!(
        respond_created(Err(ArticleError::NotFound)),
        message(500, "Something went wrong")
    );
    assert_eq!(
        respond_created(Err(ArticleError::ValidationError)),
        message(500, "Something went wrong")
    );
}

#[test]
fn respond_article_maps_each_error_to_its_status() {
    let article =
        Article { uuid: 1, title: "A".to_string(), body: "B".to_string(), published: true };
    assert_eq!(
        respond_article(Ok(article.clone())),
        Response { status: 200, body: Body::Article(article) }
    );
    assert_eq!(respond_article(Err(ArticleError::NotFound)), message(404, "Article not found"));
    assert_eq!(
        respond_article(Err(ArticleError::StorageError)),
        message(500, "Something went wrong")
    );
    assert_eq!(
        respond_article(Err(ArticleError::ValidationError)),
        message(400, "Invalid article id")
    );
}

#[test]
fn respond_articles_is_500_on_any_failure() {
    let article =
        Article { uuid: 1, title: "A".to_string(), body: "B".to_string(), published: true };
    assert_eq!(
        respond_articles(Ok(vec![article.clone()])),
        Response { status: 200, body: Body::Articles(vec![article]) }
    );
    assert_eq!(respond_articles(Ok(vec![])), Response { status: 200, body: Body::Articles(vec![]) });
    assert_eq!(
        respond_articles(Err(ArticleError::StorageError)),
        message(500, "Something went wrong")
    );
    assert_eq!(
        respond_articles(Err(ArticleError::NotFound)),
        message(500, "Something went wrong")
    );
}

#[test]
fn create_publish_list_delete_scenario() {
    let mut state = fresh();

    let created = create_article(data("A", "B"), &mut state);
    assert_eq!(created.status, 200);
    let article = article_in(&created);
    assert_eq!(article.title, "A");
    assert_eq!(article.body, "B");
    assert!(!article.published);
    let id = text_of(article.uuid);
    assert_eq!(id.len(), 36);

    let published = publish_article_at(&id, &mut state);
    let expected =
        Article { uuid: article.uuid, title: "A".to_string(), body: "B".to_string(), published: true };
    assert_eq!(published, Response { status: 200, body: Body::Article(expected.clone()) });

    let listed = get_published(&mut state);
    assert_eq!(listed, Response { status: 200, body: Body::Articles(vec![expected.clone()]) });

    let deleted = delete_article_at(&id, &mut state);
    assert_eq!(deleted, Response { status: 200, body: Body::Article(expected) });

    let listed = get_published(&mut state);
    assert_eq!(listed, Response { status: 200, body: Body::Articles(vec![]) });
}

#[test]
fn routes_with_a_known_identifier() {
    let mut state = fresh();
    assert!(state
        .db
        .0
        .insert(NewArticle { uuid: 7, title: "A".to_string(), body: "B".to_string() })
        .is_ok());
    let updated = update_article(7, data("A2", "B2"), &mut state);
    assert_eq!(
        updated,
        Response {
            status: 200,
            body: Body::Article(Article {
                uuid: 7,
                title: "A2".to_string(),
                body: "B2".to_string(),
                published: false
            })
        }
    );
    let published = publish_article(7, &mut state);
    assert_eq!(published.status, 200);
    assert!(article_in(&published).published);
    let deleted = delete_article(7, &mut state);
    assert_eq!(deleted.status, 200);
    assert_eq!(article_in(&deleted), article_in(&published));
    assert_eq!(state.db.0.len(), 0);
}

#[test]
fn routes_with_an_unknown_identifier_are_404() {
    let mut state = fresh();
    let created = article_in(&create_article(data("A", "B"), &mut state));
    let other = created.uuid ^ 1;
    assert_eq!(update_article(other, data("X", "Y"), &mut state), message(404, "Article not found"));
    assert_eq!(delete_article(other, &mut state), message(404, "Article not found"));
    assert_eq!(publish_article(other, &mut state), message(404, "Article not found"));
    let id = text_of(other);
    assert_eq!(update_article_at(&id, data("X", "Y"), &mut state), message(404, "Article not found"));
    assert_eq!(delete_article_at(&id, &mut state), message(404, "Article not found"));
    assert_eq!(publish_article_at(&id, &mut state), message(404, "Article not found"));
    assert_eq!(state.db.0.len(), 1);
    assert_eq!(get_published(&mut state), Response { status: 200, body: Body::Articles(vec![]) });
}

#[test]
fn routes_with_a_malformed_identifier_are_400() {
    let mut state = fresh();
    let created = article_in(&create_article(data("A", "B"), &mut state));
    let id = text_of(created.uuid);
    let cut = &id[..35];
    assert_eq!(update_article_at(cut, data("X", "Y"), &mut state), message(400, "Invalid article id"));
    assert_eq!(delete_article_at("published", &mut state), message(400, "Invalid article id"));
    assert_eq!(publish_article_at("", &mut state), message(400, "Invalid article id"));
    assert_eq!(state.db.0.len(), 1);
    assert_eq!(
        update_article_at(&id, data("X", "Y"), &mut state),
        Response {
            status: 200,
            body: Body::Article(Article {
                uuid: created.uuid,
                title: "X".to_string(),
                body: "Y".to_string(),
                published: false
            })
        }
    );
}

#[test]
fn text_routes_read_the_identifier_they_are_given() {
    let mut state = fresh();
    let first = article_in(&create_article(data("A", "B"), &mut state));
    let second = article_in(&create_article(data("C", "D"), &mut state));
    let published = publish_article_at(&text_of(second.uuid), &mut state);
    assert_eq!(article_in(&published).uuid, second.uuid);
    let listed = get_published(&mut state);
    assert_eq!(
        listed,
        Response {
            status: 200,
            body: Body::Articles(vec![Article {
                uuid: second.uuid,
                title: "C".to_string(),
                body: "D".to_string(),
                published: true
            }])
        }
    );
    let deleted = delete_article_at(&text_of(first.uuid).to_uppercase(), &mut state);
    assert_eq!(article_in(&deleted), first);
}
