use shadertoy_browser::query::{
    QueryError, SearchFilter, SearchQuery, SearchResponse, SearchSortOrder, ShaderQuery,
    ShaderResponse,
};
use shadertoy_browser::types::{Shader, ShaderInfo};
use std::str::FromStr;

#[test]
fn search_url_with_text_and_filter() {
    let query = SearchQuery {
        string: "car",
        sort_order: SearchSortOrder::Popular,
        filters: vec![SearchFilter::MultiPass],
        api_key: "Bd8tWD",
    };
    assert_eq!(
        query.url(),
        "https://www.shadertoy.com/api/v1/shaders/query/car?sort=popular&filter=multipass&key=Bd8tWD"
    );
}

#[test]
fn search_url_without_text() {
    let query = SearchQuery {
        string: "",
        sort_order: SearchSortOrder::Newest,
        filters: vec![],
        api_key: "k",
    };
    assert_eq!(query.url(), "https://www.shadertoy.com/api/v1/shaders?sort=newest&key=k");
}

#[test]
fn search_url_keeps_the_order_of_filters() {
    let query = SearchQuery {
        string: "x",
        sort_order: SearchSortOrder::Hot,
        filters: vec![
            SearchFilter::Vr,
            SearchFilter::SoundOutput,
            SearchFilter::SoundInput,
            SearchFilter::Webcam,
            SearchFilter::MusicStream,
            SearchFilter::Vr,
        ],
        api_key: "k",
    };
    assert_eq!(
        query.url(),
        "https://www.shadertoy.com/api/v1/shaders/query/x?sort=hot&filter=vr&filter=soundoutput&filter=soundinput&filter=webcam&filter=musicstream&filter=vr&key=k"
    );
}

#[test]
fn sort_orders_in_addresses() {
    assert_eq!(SearchSortOrder::Name.as_query_str(), "name");
    assert_eq!(SearchSortOrder::Love.as_query_str(), "love");
    assert_eq!(SearchSortOrder::Popular.as_query_str(), "popular");
    assert_eq!(SearchSortOrder::Newest.as_query_str(), "newest");
    assert_eq!(SearchSortOrder::Hot.as_query_str(), "hot");
}

#[test]
fn shader_url_names_the_shader() {
    let query = ShaderQuery { shader_id: "4d2BDy", api_key: "Bd8tWD" };
    assert_eq!(query.url(), "https://www.shadertoy.com/api/v1/shaders/4d2BDy?key=Bd8tWD");
}

#[test]
fn sort_order_from_name() {
    assert_eq!(SearchSortOrder::from_str("Name"), Ok(SearchSortOrder::Name));
    assert_eq!(SearchSortOrder::from_str("Love"), Ok(SearchSortOrder::Love));
    assert_eq!(SearchSortOrder::from_str("Popular"), Ok(SearchSortOrder::Popular));
    assert_eq!(SearchSortOrder::from_str("Newest"), Ok(SearchSortOrder::Newest));
    assert_eq!(SearchSortOrder::from_str("Hot"), Ok(SearchSortOrder::Hot));
    assert_eq!(SearchSortOrder::from_str("name"), Err(()));
    assert_eq!(SearchSortOrder::from_str(""), Err(()));
}

#[test]
fn filter_from_name() {
    assert_eq!(SearchFilter::from_str("VR"), Ok(SearchFilter::Vr));
    assert_eq!(SearchFilter::from_str("SoundOutput"), Ok(SearchFilter::SoundOutput));
    assert_eq!(SearchFilter::from_str("SoundInput"), Ok(SearchFilter::SoundInput));
    assert_eq!(SearchFilter::from_str("Webcam"), Ok(SearchFilter::Webcam));
    assert_eq!(SearchFilter::from_str("MultiPass"), Ok(SearchFilter::MultiPass));
    assert_eq!(SearchFilter::from_str("MusicStream"), Ok(SearchFilter::MusicStream));
    assert_eq!(SearchFilter::from_str("Vr"), Err(()));
}

fn decoding_failure() -> serde_json::Error {
    serde_json::from_str::<Vec<String>>("{").unwrap_err()
}

#[test]
fn search_response_with_results() {
    let response = SearchResponse {
        error: String::new(),
        shaders: 2,
        results: vec![String::from("4d2BDy"), String::from("Xds3zN")],
    };
    assert_eq!(SearchQuery::process_response(Ok(response)).unwrap(), vec!["4d2BDy", "Xds3zN"]);
}

#[test]
fn search_response_with_complaint() {
    let response = SearchResponse {
        error: String::from("Invalid key"),
        shaders: 0,
        results: vec![String::from("ignored")],
    };
    match SearchQuery::process_response(Ok(response)) {
        Err(QueryError::Server(m)) => assert_eq!(m, "Invalid key"),
        other => panic!("unexpected {:?}", other),
    }
}

#[test]
fn search_response_undecodable() {
    let failure = decoding_failure();
    let words = failure.to_string();
    match SearchQuery::process_response(Err(failure)) {
        Err(e) => {
            assert!(e.source().is_some());
            assert_eq!(e.message(), format!("Failed parsing JSON server response: {}", words));
        }
        other => panic!("unexpected {:?}", other),
    }
}

fn some_shader() -> Shader {
    Shader {
        ver: String::from("0.1"),
        info: ShaderInfo {
            id: String::from("4d2BDy"),
            date: String::from("1"),
            viewed: 1,
            name: String::from("n"),
            username: String::from("u"),
            description: String::new(),
            likes: 0,
            published: 3,
            flags: 0,
            tags: vec![],
            hasliked: 0,
            use_preview: 0,
        },
        renderpass: vec![],
    }
}

#[test]
fn shader_response() {
    let ok = ShaderResponse { error: String::new(), shader: some_shader() };
    assert_eq!(ShaderQuery::process_response(Ok(ok)).unwrap().info.id, "4d2BDy");
    let complaint = ShaderResponse { error: String::from("Shader not found"), shader: some_shader() };
    match ShaderQuery::process_response(Ok(complaint)) {
        Err(e) => {
            assert!(e.source().is_none());
            assert_eq!(e.message(), "Server error: Shader not found");
        }
        other => panic!("unexpected {:?}", other),
    }
    assert!(matches!(
        ShaderQuery::process_response(Err(decoding_failure())),
        Err(QueryError::JsonParse(_))
    ));
}
