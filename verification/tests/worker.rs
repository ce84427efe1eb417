use article_service::actors::db::{Create, DbActor, Delete, GetArticles, Handler, Publish, Update};
use article_service::error::ArticleError;
use article_service::models::{Article, NewArticle};
use article_service::store::ArticleTable;

fn create(title: &str, body: &str) -> Create {
    Create { title: title.to_string(), body: body.to_string() }
}

fn is_random(uuid: u128) -> bool {
    (uuid >> 76) & 0xf == 4 && (uuid >> 62) & 0x3 == 2
}

#[test]
fn with_id_keeps_title_and_body() {
    let new = create("A", "B").with_id(17);
    assert_eq!(new, NewArticle { uuid: 17, title: "A".to_string(), body: "B".to_string() });
}

#[test]
fn create_answers_an_unpublished_article_with_a_random_uuid() {
    let mut actor = DbActor(ArticleTable::new());
    let article = actor.handle(create("A", "B")).unwrap();
    assert_eq!(article.title, "A");
    assert_eq!(article.body, "B");
    assert!(!article.published);
    assert!(is_random(article.uuid));
    assert_eq!(
        uuid::Uuid::from_u128(article.uuid).get_version(),
        Some(uuid::Version::Random)
    );
    assert_eq!(
        uuid::Uuid::from_u128(article.uuid).get_variant(),
        Some(uuid::Variant::RFC4122)
    );
    assert!(actor.0.contains(article.uuid));
    assert_eq!(actor.0.len(), 1);
}

#[test]
fn create_gives_each_article_its_own_uuid() {
    let mut actor = DbActor(ArticleTable::new());
    let first = actor.handle(create("A", "B")).unwrap();
    let second = actor.handle(create("A", "B")).unwrap();
    assert_ne!(first.uuid, second.uuid);
    assert_eq!(actor.0.len(), 2);
}

#[test]
fn create_publish_list() {
    let mut actor = DbActor(ArticleTable::new());
    let article = actor.handle(create("Title", "Body")).unwrap();
    assert_eq!(actor.handle(GetArticles {}), Ok(vec![]));
    let published = actor.handle(Publish { uuid: article.uuid }).unwrap();
    assert_eq!(
        published,
        Article {
            uuid: article.uuid,
            title: "Title".to_string(),
            body: "Body".to_string(),
            published: true
        }
    );
    assert_eq!(actor.handle(GetArticles {}), Ok(vec![published]));
}

#[test]
fn update_keeps_uuid_and_publication() {
    let mut actor = DbActor(ArticleTable::new());
    let draft = actor.handle(create("A", "B")).unwrap();
    let live = actor.handle(create("C", "D")).unwrap();
    actor.handle(Publish { uuid: live.uuid }).unwrap();
    let draft2 = actor
        .handle(Update { uuid: draft.uuid, title: "A2".to_string(), body: "B2".to_string() })
        .unwrap();
    assert_eq!(
        draft2,
        Article {
            uuid: draft.uuid,
            title: "A2".to_string(),
            body: "B2".to_string(),
            published: false
        }
    );
    let live2 = actor
        .handle(Update { uuid: live.uuid, title: "C2".to_string(), body: "D2".to_string() })
        .unwrap();
    assert_eq!(
        live2,
        Article { uuid: live.uuid, title: "C2".to_string(), body: "D2".to_string(), published: true }
    );
    assert_eq!(actor.handle(GetArticles {}), Ok(vec![live2]));
}

#[test]
fn commands_on_an_unknown_uuid_are_not_found() {
    let mut actor = DbActor(ArticleTable::new());
    let article = actor.handle(create("A", "B")).unwrap();
    let other = article.uuid ^ 1;
    assert_eq!(
        actor.handle(Update { uuid: other, title: "X".to_string(), body: "Y".to_string() }),
        Err(ArticleError::NotFound)
    );
    assert_eq!(actor.handle(Delete { uuid: other }), Err(ArticleError::NotFound));
    assert_eq!(actor.handle(Publish { uuid: other }), Err(ArticleError::NotFound));
    assert_eq!(actor.0.len(), 1);
    assert_eq!(actor.handle(GetArticles {}), Ok(vec![]));
    assert_eq!(actor.handle(Delete { uuid: article.uuid }), Ok(article));
}

#[test]
fn publish_is_idempotent() {
    let mut actor = DbActor(ArticleTable::new());
    let article = actor.handle(create("A", "B")).unwrap();
    let once = actor.handle(Publish { uuid: article.uuid }).unwrap();
    let twice = actor.handle(Publish { uuid: article.uuid }).unwrap();
    assert!(once.published);
    assert_eq!(once, twice);
    assert_eq!(actor.handle(GetArticles {}), Ok(vec![once]));
}

#[test]
fn delete_answers_the_last_state_and_the_article_is_gone() {
    let mut actor = DbActor(ArticleTable::new());
    let article = actor.handle(create("A", "B")).unwrap();
    let published = actor.handle(Publish { uuid: article.uuid }).unwrap();
    assert_eq!(actor.handle(Delete { uuid: article.uuid }), Ok(published));
    assert_eq!(
        actor.handle(Update { uuid: article.uuid, title: "X".to_string(), body: "Y".to_string() }),
        Err(ArticleError::NotFound)
    );
    assert_eq!(actor.handle(GetArticles {}), Ok(vec![]));
}

#[test]
fn empty_title_and_body_are_accepted() {
    let mut actor = DbActor(ArticleTable::new());
    let article = actor.handle(create("", "")).unwrap();
    assert_eq!(article.title, "");
    assert_eq!(article.body, "");
}
