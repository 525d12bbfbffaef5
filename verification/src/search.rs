//! A search of the catalog with its result cache: a search that was
//! answered before is answered from the cache, and only a new one is sent
//! to the catalog, whose answer is then cached.

use vstd::prelude::*;
use vstd::string::*;
use crate::layout::{search_cache_path, search_cache_path_of};
use crate::query::{search_url, QueryError, SearchQuery, SearchResponse};

verus! {

/// The list of strings that `text` is the JSON notation of, as
/// `serde_json` reads it; none if it refuses the text.
pub uninterp spec fn json_id_list(text: Seq<char>) -> Option<Seq<Seq<char>>>;

/// The JSON notation of a list of strings, as `serde_json` writes it; none
/// if it refuses the list.
pub uninterp spec fn id_list_json(ids: Seq<Seq<char>>) -> Option<Seq<char>>;

/// `serde_json::from_str::<Vec<String>>`: what is read depends on the text
/// alone.
#[verifier::external_body]
fn read_id_list(text: &str) -> (r: Result<Vec<String>, serde_json::Error>)
    ensures
        match r {
            Ok(ids) => json_id_list(text@) == Some(ids.deep_view()),
            Err(_) => json_id_list(text@) is None,
        },
{
    serde_json::from_str::<Vec<String>>(text)
}

/// `serde_json::to_string` on a `Vec<String>`: what is written depends on
/// the strings alone.
#[verifier::external_body]
fn write_id_list(ids: &Vec<String>) -> (r: Result<String, serde_json::Error>)
    ensures
        match r {
            Ok(text) => id_list_json(ids.deep_view()) == Some(text@),
            Err(_) => id_list_json(ids.deep_view()) is None,
        },
{
    serde_json::to_string(ids)
}

/// Why a search produced no result.
#[derive(Debug)]
pub enum SearchFailure {
    /// The cached result could not be read.
    CacheUnreadable,
    /// The cached result is not a list of identifiers.
    CacheUndecodable(serde_json::Error),
    /// The catalog could not be reached.
    Transport,
    /// The catalog's answer was a complaint, or could not be decoded.
    Query(QueryError),
    /// The result could not be written to the cache.
    CacheUnwritable,
    /// The event reported does not answer the command that was handed out.
    Unexpected,
}

/// What a search is waiting for.
#[derive(Debug, PartialEq, Eq, Structural, Copy, Clone)]
pub enum SearchPhase {
    /// The cached result.
    CacheLoad,
    /// The catalog's answer.
    Query,
    /// The result to be written to the cache.
    CacheWrite,
    /// Nothing: the search has come to its end.
    Over,
}

/// What the caller reports back after carrying out a command.
#[derive(Debug)]
pub enum SearchEvent {
    /// Answer to `LoadCache`: the text found.
    Cached(String),
    /// Answer to `LoadCache`: the cache holds no result for this search.
    CacheMissing,
    /// Answer to `Query`: the catalog's answer, decoded or not.
    Response(Result<SearchResponse, serde_json::Error>),
    /// Answer to `WriteCache`: it is done.
    Written,
    /// The command could not be carried out.
    Failed,
}

/// What the caller is asked to do next.
#[derive(Debug)]
pub enum SearchCommand {
    /// Read the cached result at `path`, if there is one.
    LoadCache { path: String },
    /// Send the search to the catalog at `url` and decode its answer.
    Query { url: String },
    /// Write `contents` to `path`.
    WriteCache { path: String, contents: String },
    /// The search is answered with these identifiers.
    Finish(Vec<String>),
    /// The search has failed.
    Fail(SearchFailure),
    /// Nothing is left to do.
    Stop,
}

/// A search in progress.
#[derive(Debug)]
pub struct SearchJob {
    path: String,
    url: String,
    phase: SearchPhase,
    results: Vec<String>,
}

/// The state of a search as contracts speak of it.
pub struct SearchJobView {
    /// Where the result of this search is cached.
    pub path: Seq<char>,
    /// Where this search is sent to.
    pub url: Seq<char>,
    /// What the search is waiting for.
    pub phase: SearchPhase,
    /// The identifiers that the catalog answered with.
    pub results: Seq<Seq<char>>,
}

impl View for SearchJob {
    type V = SearchJobView;

    closed spec fn view(&self) -> SearchJobView {
        SearchJobView {
            path: self.path@,
            url: self.url@,
            phase: self.phase,
            results: self.results.deep_view(),
        }
    }
}

/// What a command says, with every text and list taken by its view. A
/// failure is told apart by its kind only.
pub enum SearchCommandView {
    LoadCache { path: Seq<char> },
    Query { url: Seq<char> },
    WriteCache { path: Seq<char>, contents: Seq<char> },
    Finish(Seq<Seq<char>>),
    FailCacheUndecodable,
    FailTransport,
    FailQuery(QueryError),
    FailCacheUnwritable,
    FailUnexpected,
    FailCacheUnreadable,
    Stop,
}

impl View for SearchCommand {
    type V = SearchCommandView;

    open spec fn view(&self) -> SearchCommandView {
        match self {
            SearchCommand::LoadCache { path } => SearchCommandView::LoadCache { path: path@ },
            SearchCommand::Query { url } => SearchCommandView::Query { url: url@ },
            SearchCommand::WriteCache { path, contents } => SearchCommandView::WriteCache {
                path: path@,
                contents: contents@,
            },
            SearchCommand::Finish(ids) => SearchCommandView::Finish(ids.deep_view()),
            SearchCommand::Fail(
                SearchFailure::CacheUnreadable,
            ) => SearchCommandView::FailCacheUnreadable,
            SearchCommand::Fail(
                SearchFailure::CacheUndecodable(_),
            ) => SearchCommandView::FailCacheUndecodable,
            SearchCommand::Fail(SearchFailure::Transport) => SearchCommandView::FailTransport,
            SearchCommand::Fail(SearchFailure::Query(e)) => SearchCommandView::FailQuery(*e),
            SearchCommand::Fail(
                SearchFailure::CacheUnwritable,
            ) => SearchCommandView::FailCacheUnwritable,
            SearchCommand::Fail(SearchFailure::Unexpected) => SearchCommandView::FailUnexpected,
            SearchCommand::Stop => SearchCommandView::Stop,
        }
    }
}

/// The search comes to its end with `command`.
pub open spec fn search_over(job: SearchJobView, command: SearchCommandView) -> (
    SearchJobView,
    SearchCommandView,
) {
    (SearchJobView { phase: SearchPhase::Over, ..job }, command)
}

/// A search that has just been started, and its first command.
pub open spec fn search_started(serialized: Seq<char>, url: Seq<char>) -> (
    SearchJobView,
    SearchCommandView,
) {
    let path = search_cache_path_of(serialized);
    (
        SearchJobView { path, url, phase: SearchPhase::CacheLoad, results: Seq::empty() },
        SearchCommandView::LoadCache { path },
    )
}

/// What follows once the cached text has been read as a list.
pub open spec fn after_cache_read(job: SearchJobView, read: Option<Seq<Seq<char>>>) -> (
    SearchJobView,
    SearchCommandView,
) {
    match read {
        Some(ids) => search_over(job, SearchCommandView::Finish(ids)),
        None => search_over(job, SearchCommandView::FailCacheUndecodable),
    }
}

/// What follows once the catalog's answer has been judged and its list
/// written as JSON: `written` is the notation, none if the list could not
/// be written.
pub open spec fn after_answer(
    job: SearchJobView,
    answer: Result<Vec<String>, QueryError>,
    written: Option<Seq<char>>,
) -> (SearchJobView, SearchCommandView) {
    match answer {
        Ok(ids) => match written {
            Some(text) => (
                SearchJobView {
                    phase: SearchPhase::CacheWrite,
                    results: ids.deep_view(),
                    ..job
                },
                SearchCommandView::WriteCache { path: job.path, contents: text },
            ),
            None => search_over(job, SearchCommandView::FailCacheUnwritable),
        },
        Err(e) => search_over(job, SearchCommandView::FailQuery(e)),
    }
}

/// The answer that a decoded response amounts to.
pub open spec fn judged(parsed: Result<SearchResponse, serde_json::Error>) -> Result<
    Vec<String>,
    QueryError,
> {
    match parsed {
        Ok(response) => if response.error@.len() == 0 {
            Ok(response.results)
        } else {
            Err(QueryError::Server(response.error))
        },
        Err(err) => Err(QueryError::JsonParse(err)),
    }
}

/// The transition function of a search. The catalog is asked only if the
/// cache holds no result; its answer is cached before it is handed out.
pub open spec fn search_step_of(job: SearchJobView, event: SearchEvent) -> (
    SearchJobView,
    SearchCommandView,
) {
    match job.phase {
        SearchPhase::Over => (job, SearchCommandView::Stop),
        SearchPhase::CacheLoad => match event {
            SearchEvent::Cached(text) => after_cache_read(job, json_id_list(text@)),
            SearchEvent::CacheMissing => (
                SearchJobView { phase: SearchPhase::Query, ..job },
                SearchCommandView::Query { url: job.url },
            ),
            SearchEvent::Failed => search_over(job, SearchCommandView::FailCacheUnreadable),
            _ => search_over(job, SearchCommandView::FailUnexpected),
        },
        SearchPhase::Query => match event {
            SearchEvent::Response(parsed) => after_answer(
                job,
                judged(parsed),
                match judged(parsed) {
                    Ok(ids) => id_list_json(ids.deep_view()),
                    Err(_) => None,
                },
            ),
            SearchEvent::Failed => search_over(job, SearchCommandView::FailTransport),
            _ => search_over(job, SearchCommandView::FailUnexpected),
        },
        SearchPhase::CacheWrite => match event {
            SearchEvent::Written => (
                SearchJobView { phase: SearchPhase::Over, results: Seq::empty(), ..job },
                SearchCommandView::Finish(job.results),
            ),
            SearchEvent::Failed => search_over(job, SearchCommandView::FailCacheUnwritable),
            _ => search_over(job, SearchCommandView::FailUnexpected),
        },
    }
}

impl SearchJob {
    /// Starts the search `query`, whose parameters serialise to
    /// `serialized`. The first command asks for the cached result.
    pub fn start(query: &SearchQuery, serialized: &str) -> (r: (SearchJob, SearchCommand))
        ensures
            (r.0@, r.1@) == search_started(
                serialized@,
                search_url(query.string@, query.sort_order, query.filters@, query.api_key@),
            ),
    {
        let path = search_cache_path(serialized);
        let job = SearchJob {
            path: path.clone(),
            url: query.url(),
            phase: SearchPhase::CacheLoad,
            results: Vec::new(),
        };
        proof {
            assert(job.results.deep_view() =~= Seq::<Seq<char>>::empty());
        }
        (job, SearchCommand::LoadCache { path })
    }

    /// What the search is waiting for.
    pub fn phase(&self) -> (phase: SearchPhase)
        ensures
            phase == self@.phase,
    {
        self.phase
    }

    fn finish(&mut self, command: SearchCommand) -> (handed: SearchCommand)
        ensures
            (final(self)@, handed@) == search_over(old(self)@, command@),
    {
        self.phase = SearchPhase::Over;
        command
    }

    /// Goes on after the cached text has been read as a list.
    pub fn cache_read(&mut self, read: Result<Vec<String>, serde_json::Error>) -> (command:
        SearchCommand)
        ensures
            (final(self)@, command@) == after_cache_read(
                old(self)@,
                match read {
                    Ok(ids) => Some(ids.deep_view()),
                    Err(_) => None,
                },
            ),
    {
        match read {
            Ok(ids) => self.finish(SearchCommand::Finish(ids)),
            Err(e) => self.finish(SearchCommand::Fail(SearchFailure::CacheUndecodable(e))),
        }
    }

    /// Goes on after the catalog's answer has been judged and its list
    /// written as JSON; `written` is disregarded unless there is a list.
    pub fn answered(
        &mut self,
        answer: Result<Vec<String>, QueryError>,
        written: Result<String, serde_json::Error>,
    ) -> (command: SearchCommand)
        ensures
            (final(self)@, command@) == after_answer(
                old(self)@,
                answer,
                match written {
                    Ok(text) => Some(text@),
                    Err(_) => None,
                },
            ),
    {
        match answer {
            Ok(ids) => match written {
                Ok(text) => {
                    self.results = ids;
                    self.phase = SearchPhase::CacheWrite;
                    SearchCommand::WriteCache { path: self.path.clone(), contents: text }
                },
                Err(_) => self.finish(SearchCommand::Fail(SearchFailure::CacheUnwritable)),
            },
            Err(e) => self.finish(SearchCommand::Fail(SearchFailure::Query(e))),
        }
    }

    /// Takes the report on the command that was handed out last, and hands
    /// out the next one.
    pub fn step(&mut self, event: SearchEvent) -> (command: SearchCommand)
        ensures
            (final(self)@, command@) == search_step_of(old(self)@, event),
    {
        match self.phase {
            SearchPhase::Over => SearchCommand::Stop,
            SearchPhase::CacheLoad => match event {
                SearchEvent::Cached(text) => {
                    let read = read_id_list(text.as_str());
                    self.cache_read(read)
                },
                SearchEvent::CacheMissing => {
                    self.phase = SearchPhase::Query;
                    SearchCommand::Query { url: self.url.clone() }
                },
                SearchEvent::Failed => self.finish(
                    SearchCommand::Fail(SearchFailure::CacheUnreadable),
                ),
                _ => self.finish(SearchCommand::Fail(SearchFailure::Unexpected)),
            },
            SearchPhase::Query => match event {
                SearchEvent::Response(parsed) => {
                    let answer = SearchQuery::process_response(parsed);
                    let written = match &answer {
                        Ok(ids) => write_id_list(ids),
                        Err(_) => Ok(String::new()),
                    };
                    assert(answer is Err ==> after_answer(self@, answer, None) == after_answer(
                        self@,
                        answer,
                        Some(Seq::<char>::empty()),
                    ));
                    self.answered(answer, written)
                },
                SearchEvent::Failed => self.finish(SearchCommand::Fail(SearchFailure::Transport)),
                _ => self.finish(SearchCommand::Fail(SearchFailure::Unexpected)),
            },
            SearchPhase::CacheWrite => match event {
                SearchEvent::Written => {
                    let mut results: Vec<String> = Vec::new();
                    std::mem::swap(&mut results, &mut self.results);
                    self.phase = SearchPhase::Over;
                    proof {
                        assert(self.results.deep_view() =~= Seq::<Seq<char>>::empty());
                    }
                    SearchCommand::Finish(results)
                },
                SearchEvent::Failed => self.finish(
                    SearchCommand::Fail(SearchFailure::CacheUnwritable),
                ),
                _ => self.finish(SearchCommand::Fail(SearchFailure::Unexpected)),
            },
        }
    }
}

} // verus!
