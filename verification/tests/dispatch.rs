use easyalgolia::algoliaobject::AlgoliaObject;
use easyalgolia::dispatch::accepted;
use easyalgolia::dispatch::classify;
use easyalgolia::dispatch::classify_settings;
use easyalgolia::dispatch::plan;
use easyalgolia::dispatch::resolve;
use easyalgolia::dispatch::resolve_delete;
use easyalgolia::dispatch::resolve_document;
use easyalgolia::dispatch::resolve_settings;
use easyalgolia::dispatch::Method;
use easyalgolia::dispatch::Reply;
use easyalgolia::error::ErrorKind;
use easyalgolia::AlgoliaIndexSetting;
use easyalgolia::Index;
use easyalgolia::ObjectId;

struct Game {
    name: String,
}

impl AlgoliaObject for Game {
    fn get_object_id(&self) -> String {
        String::from(&self.name)
    }
}

struct Anonymous;

impl AlgoliaObject for Anonymous {}

#[test]
fn empty_identity_creates_in_the_collection() {
    let index: Index = "Games".into();
    let target = resolve(&index, "");
    assert_eq!(target.method, Method::Post);
    assert_eq!(target.path, "indexes/Games");
}

#[test]
fn identity_puts_the_item() {
    let index: Index = "Games".into();
    let target = resolve(&index, "god-of-war");
    assert_eq!(target.method, Method::Put);
    assert_eq!(target.path, "indexes/Games/god-of-war");
}

#[test]
fn resolving_twice_gives_the_same_target() {
    let index = Index::from(String::from("Test"));
    let first = resolve(&index, "LastO fUs");
    let second = resolve(&index, "LastO fUs");
    assert_eq!(first.method, second.method);
    assert_eq!(first.path, second.path);
    assert_eq!(first.path, "indexes/Test/LastO fUs");
}

#[test]
fn documents_resolve_by_their_identity() {
    let index: Index = "Test".into();
    let game = Game { name: String::from("tetris") };
    let target = resolve_document(&index, &game);
    assert_eq!(target.method, Method::Put);
    assert_eq!(target.path, "indexes/Test/tetris");

    let target = resolve_document(&index, &Anonymous);
    assert_eq!(target.method, Method::Post);
    assert_eq!(target.path, "indexes/Test");

    let id: ObjectId = "42".into();
    assert_eq!(id.get_object_id(), "42");
    let target = resolve_document(&index, &id);
    assert_eq!(target.method, Method::Put);
    assert_eq!(target.path, "indexes/Test/42");

    let id = ObjectId::from(String::from("43"));
    assert_eq!(resolve_document(&index, &id).path, "indexes/Test/43");
}

#[test]
fn json_values_have_no_identity() {
    let index: Index = "Test".into();
    let value = serde_json::Value::from("anything");
    assert_eq!(value.get_object_id(), "");
    let target = resolve_document(&index, &value);
    assert_eq!(target.method, Method::Post);
    assert_eq!(target.path, "indexes/Test");
}

#[test]
fn delete_without_identity_is_a_client_error() {
    let index: Index = "Games".into();
    match resolve_delete(&index, "") {
        Ok(_) => panic!("a target without an identity"),
        Err(e) => {
            assert_eq!(e.error_kind(), ErrorKind::ClientError);
            assert_eq!(e.cause(), Some("object id must be present for document delete method"));
        }
    }
}

#[test]
fn delete_with_identity_targets_the_item() {
    let index: Index = "Games".into();
    match resolve_delete(&index, "god-of-war") {
        Ok(target) => {
            assert_eq!(target.method, Method::Delete);
            assert_eq!(target.path, "indexes/Games/god-of-war");
        }
        Err(_) => panic!("an identity was given"),
    }
}

#[test]
fn settings_are_read_with_get_and_written_with_put() {
    let index: Index = "Games".into();
    let read = resolve_settings(&index, false);
    assert_eq!(read.method, Method::Get);
    assert_eq!(read.path, "indexes/Games/settings");
    let write = resolve_settings(&index, true);
    assert_eq!(write.method, Method::Put);
    assert_eq!(write.path, "indexes/Games/settings");
}

#[test]
fn a_request_has_the_host_of_the_application_and_two_headers() {
    let index: Index = "Games".into();
    let request = plan("key-1", "APP", resolve(&index, "7"), true);
    assert_eq!(request.method, Method::Put);
    assert_eq!(request.url, "https://APP.algolia.net/1/indexes/Games/7");
    assert!(request.has_body);
    assert_eq!(request.headers.len(), 2);
    assert_eq!(request.headers[0].name, "X-Algolia-API-Key");
    assert_eq!(request.headers[0].value, "key-1");
    assert_eq!(request.headers[1].name, "X-Algolia-Application-Id");
    assert_eq!(request.headers[1].value, "APP");

    let request = plan("k", "a", resolve_settings(&index, false), false);
    assert_eq!(request.method, Method::Get);
    assert_eq!(request.url, "https://a.algolia.net/1/indexes/Games/settings");
    assert!(!request.has_body);
}

#[test]
fn only_status_200_is_accepted() {
    assert!(accepted(200));
    assert!(!accepted(201));
    assert!(!accepted(204));
    assert!(!accepted(199));
    assert!(!accepted(404));
    assert!(!accepted(500));
    assert!(!accepted(0));
    assert!(!accepted(u16::MAX));
}

#[test]
fn status_200_is_success() {
    assert!(classify(Reply::Answered { status: 200, diagnostic: None }).is_ok());
    assert!(classify(Reply::Answered { status: 200, diagnostic: Some(String::from("{}")) }).is_ok());
}

fn failure_of(status: u16, body: &str) {
    let reply = Reply::Answered { status, diagnostic: Some(String::from(body)) };
    match classify(reply) {
        Ok(()) => panic!("status {} taken for a success", status),
        Err(e) => {
            assert_eq!(e.error_kind(), ErrorKind::RequestError);
            assert_eq!(e.cause(), Some(body));
        }
    }
}

#[test]
fn every_other_status_is_a_request_error() {
    failure_of(201, "created");
    failure_of(204, "");
    failure_of(404, "{\"message\":\"Index does not exist\"}");
    failure_of(500, "boom");
    failure_of(100, "continue");
    failure_of(301, "moved");
    failure_of(199, "below");
}

#[test]
fn a_failure_without_readable_body_has_no_cause() {
    match classify(Reply::Answered { status: 503, diagnostic: None }) {
        Ok(()) => panic!("status 503 taken for a success"),
        Err(e) => {
            assert_eq!(e.error_kind(), ErrorKind::RequestError);
            assert_eq!(e.cause(), None);
        }
    }
}

#[test]
fn no_response_is_a_request_error_without_cause() {
    match classify(Reply::Unreachable) {
        Ok(()) => panic!("no response taken for a success"),
        Err(e) => {
            assert_eq!(e.error_kind(), ErrorKind::RequestError);
            assert_eq!(e.cause(), None);
        }
    }
}

#[test]
fn settings_come_from_a_decoded_success() {
    let mut setting = AlgoliaIndexSetting::default();
    setting.hits_per_page = 20;
    setting.ranking = vec![String::from("typo"), String::from("geo")];
    let reply = Reply::Answered { status: 200, diagnostic: None };
    match classify_settings(reply, Some(setting)) {
        Ok(setting) => {
            assert_eq!(setting.hits_per_page, 20);
            assert_eq!(setting.ranking, vec![String::from("typo"), String::from("geo")]);
        }
        Err(_) => panic!("decoded settings were lost"),
    }
}

#[test]
fn settings_that_do_not_decode_are_a_request_error_without_cause() {
    let reply = Reply::Answered { status: 200, diagnostic: None };
    match classify_settings(reply, None) {
        Ok(_) => panic!("settings out of nothing"),
        Err(e) => {
            assert_eq!(e.error_kind(), ErrorKind::RequestError);
            assert_eq!(e.cause(), None);
        }
    }
}

#[test]
fn settings_of_a_failed_request_are_a_request_error() {
    let reply = Reply::Answered { status: 404, diagnostic: Some(String::from("no such index")) };
    match classify_settings(reply, Some(AlgoliaIndexSetting::default())) {
        Ok(_) => panic!("status 404 taken for a success"),
        Err(e) => {
            assert_eq!(e.error_kind(), ErrorKind::RequestError);
            assert_eq!(e.cause(), Some("no such index"));
        }
    }
    match classify_settings(Reply::Unreachable, None) {
        Ok(_) => panic!("no response taken for a success"),
        Err(e) => {
            assert_eq!(e.error_kind(), ErrorKind::RequestError);
            assert_eq!(e.cause(), None);
        }
    }
}

#[test]
fn default_settings_have_nothing_set() {
    let setting = AlgoliaIndexSetting::default();
    assert_eq!(setting.min_word_size_for_1_typo, 0);
    assert_eq!(setting.min_word_size_for_2_typos, 0);
    assert_eq!(setting.hits_per_page, 0);
    assert_eq!(setting.max_values_per_facet, 0);
    assert_eq!(setting.version, 0);
    assert_eq!(setting.pagination_limited_to, 0);
    assert_eq!(setting.searchable_attributes, None);
    assert_eq!(setting.numeric_attributes_to_index, None);
    assert_eq!(setting.attributes_to_retrieve, None);
    assert_eq!(setting.unretrievable_attributes, None);
    assert_eq!(setting.optional_words, None);
    assert_eq!(setting.attributes_for_faceting, None);
    assert_eq!(setting.attributes_to_snippet, None);
    assert_eq!(setting.attributes_to_highlight, None);
    assert_eq!(setting.attribute_for_distinct, None);
    assert_eq!(setting.custom_ranking, None);
    assert_eq!(setting.exact_on_single_word_query, "");
    assert_eq!(setting.separators_to_index, "");
    assert_eq!(setting.remove_words_if_no_results, "");
    assert_eq!(setting.query_type, "");
    assert_eq!(setting.highlight_pre_tag, "");
    assert_eq!(setting.highlight_post_tag, "");
    assert!(setting.ranking.is_empty());
    assert!(setting.alternatives_as_exact.is_empty());
}

#[test]
fn paths_take_names_as_they_are() {
    let index: Index = "jeux vidéo".into();
    let target = resolve(&index, "née/1");
    assert_eq!(target.method, Method::Put);
    assert_eq!(target.path, "indexes/jeux vidéo/née/1");
    let index: Index = "".into();
    assert_eq!(resolve(&index, "").path, "indexes/");
    assert_eq!(index.index(), "");
}
