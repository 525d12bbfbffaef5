use shadertoy_browser::query::{
    QueryError, SearchFilter, SearchParams, SearchQuery, SearchResponse, SearchSortOrder,
};
use shadertoy_browser::search::{SearchCommand, SearchEvent, SearchFailure, SearchJob, SearchPhase};

fn query<'a>() -> SearchQuery<'a> {
    SearchParams { string: "car", sort_order: SearchSortOrder::Popular, filters: vec![SearchFilter::MultiPass] }
        .with_key("Bd8tWD")
}

const SERIALIZED: &str = "{\"string\":\"car\",\"sort_order\":\"Popular\",\"filters\":[\"MultiPass\"]}";
const PATH: &str = "output/query/ZMKS9J7oSQnsSEeGHsAtRgve4LPPpzeFGAwfa7Tk8Xm7g8eJEzoPKdhjmqcxnoN3axjqCJKM5YpJUn3X5x5wDW";

fn response(error: &str, results: &[&str]) -> SearchResponse {
    SearchResponse {
        error: String::from(error),
        shaders: results.len() as u64,
        results: results.iter().map(|s| String::from(*s)).collect(),
    }
}

#[test]
fn cached_search_is_not_sent() {
    let (mut job, first) = SearchJob::start(&query(), SERIALIZED);
    match first {
        SearchCommand::LoadCache { path } => assert_eq!(path, PATH),
        other => panic!("unexpected {:?}", other),
    }
    match job.step(SearchEvent::Cached(String::from("[\"4d2BDy\",\"Xds3zN\"]"))) {
        SearchCommand::Finish(ids) => assert_eq!(ids, vec!["4d2BDy", "Xds3zN"]),
        other => panic!("unexpected {:?}", other),
    }
    assert_eq!(job.phase(), SearchPhase::Over);
    assert!(matches!(job.step(SearchEvent::CacheMissing), SearchCommand::Stop));
}

#[test]
fn new_search_is_sent_and_cached() {
    let (mut job, _) = SearchJob::start(&query(), SERIALIZED);
    match job.step(SearchEvent::CacheMissing) {
        SearchCommand::Query { url } => assert_eq!(
            url,
            "https://www.shadertoy.com/api/v1/shaders/query/car?sort=popular&filter=multipass&key=Bd8tWD"
        ),
        other => panic!("unexpected {:?}", other),
    }
    match job.step(SearchEvent::Response(Ok(response("", &["4d2BDy", "a\"b"])))) {
        SearchCommand::WriteCache { path, contents } => {
            assert_eq!(path, PATH);
            assert_eq!(contents, "[\"4d2BDy\",\"a\\\"b\"]");
        }
        other => panic!("unexpected {:?}", other),
    }
    match job.step(SearchEvent::Written) {
        SearchCommand::Finish(ids) => assert_eq!(ids, vec!["4d2BDy", "a\"b"]),
        other => panic!("unexpected {:?}", other),
    }
    assert_eq!(job.phase(), SearchPhase::Over);
}

#[test]
fn undecodable_cache_fails_the_search() {
    let (mut job, _) = SearchJob::start(&query(), SERIALIZED);
    assert!(matches!(
        job.step(SearchEvent::Cached(String::from("{\"Results\":[]}"))),
        SearchCommand::Fail(SearchFailure::CacheUndecodable(_))
    ));
}

#[test]
fn server_complaint_fails_the_search() {
    let (mut job, _) = SearchJob::start(&query(), SERIALIZED);
    job.step(SearchEvent::CacheMissing);
    match job.step(SearchEvent::Response(Ok(response("Invalid key", &[])))) {
        SearchCommand::Fail(SearchFailure::Query(QueryError::Server(m))) => {
            assert_eq!(m, "Invalid key")
        }
        other => panic!("unexpected {:?}", other),
    }
}

#[test]
fn transport_and_cache_failures() {
    let (mut job, _) = SearchJob::start(&query(), SERIALIZED);
    assert!(matches!(
        job.step(SearchEvent::Failed),
        SearchCommand::Fail(SearchFailure::CacheUnreadable)
    ));
    let (mut job, _) = SearchJob::start(&query(), SERIALIZED);
    job.step(SearchEvent::CacheMissing);
    assert!(matches!(job.step(SearchEvent::Failed), SearchCommand::Fail(SearchFailure::Transport)));
    let (mut job, _) = SearchJob::start(&query(), SERIALIZED);
    job.step(SearchEvent::CacheMissing);
    job.step(SearchEvent::Response(Ok(response("", &["a"]))));
    assert!(matches!(
        job.step(SearchEvent::Failed),
        SearchCommand::Fail(SearchFailure::CacheUnwritable)
    ));
    let (mut job, _) = SearchJob::start(&query(), SERIALIZED);
    assert!(matches!(
        job.step(SearchEvent::Written),
        SearchCommand::Fail(SearchFailure::Unexpected)
    ));
}
