//! Queries against the catalog's REST interface: the address each query is
//! sent to, and what a decoded answer means.

use vstd::prelude::*;
use vstd::string::*;
use crate::text::str_eq;
use crate::types::Shader;

verus! {

/// The order in which the catalog lists the shaders it found.
#[derive(Debug, PartialEq, Eq, Structural, Copy, Clone)]
pub enum SearchSortOrder {
    Name,
    Love,
    Popular,
    Newest,
    Hot,
}

/// An inclusion filter: only shaders with the feature are listed.
#[derive(Debug, PartialEq, Eq, Structural, Copy, Clone)]
pub enum SearchFilter {
    Vr,
    SoundOutput,
    SoundInput,
    Webcam,
    MultiPass,
    MusicStream,
}

impl SearchSortOrder {
    /// The value of the `sort` parameter that selects this order.
    pub open spec fn query_name(self) -> Seq<char> {
        match self {
            SearchSortOrder::Name => "name"@,
            SearchSortOrder::Love => "love"@,
            SearchSortOrder::Popular => "popular"@,
            SearchSortOrder::Newest => "newest"@,
            SearchSortOrder::Hot => "hot"@,
        }
    }

    /// The order that a capitalised name selects, if any.
    pub open spec fn named(s: Seq<char>) -> Option<SearchSortOrder> {
        if s == "Name"@ {
            Some(SearchSortOrder::Name)
        } else if s == "Love"@ {
            Some(SearchSortOrder::Love)
        } else if s == "Popular"@ {
            Some(SearchSortOrder::Popular)
        } else if s == "Newest"@ {
            Some(SearchSortOrder::Newest)
        } else if s == "Hot"@ {
            Some(SearchSortOrder::Hot)
        } else {
            None
        }
    }

    /// The lower-case name under which the catalog knows this order.
    pub fn as_query_str(&self) -> (s: &'static str)
        ensures
            s@ == self.query_name(),
    {
        match self {
            SearchSortOrder::Name => "name",
            SearchSortOrder::Love => "love",
            SearchSortOrder::Popular => "popular",
            SearchSortOrder::Newest => "newest",
            SearchSortOrder::Hot => "hot",
        }
    }
}

impl std::str::FromStr for SearchSortOrder {
    type Err = ();

    /// Reads a sort order from its capitalised name; any other text is
    /// refused.
    fn from_str(s: &str) -> (r: Result<SearchSortOrder, ()>)
        ensures
            r == match SearchSortOrder::named(s@) {
                Some(order) => Ok::<SearchSortOrder, ()>(order),
                None => Err::<SearchSortOrder, ()>(()),
            },
    {
        if str_eq(s, "Name") {
            Ok(SearchSortOrder::Name)
        } else if str_eq(s, "Love") {
            Ok(SearchSortOrder::Love)
        } else if str_eq(s, "Popular") {
            Ok(SearchSortOrder::Popular)
        } else if str_eq(s, "Newest") {
            Ok(SearchSortOrder::Newest)
        } else if str_eq(s, "Hot") {
            Ok(SearchSortOrder::Hot)
        } else {
            Err(())
        }
    }
}

impl SearchFilter {
    /// The value of a `filter` parameter that selects this filter.
    pub open spec fn query_name(self) -> Seq<char> {
        match self {
            SearchFilter::Vr => "vr"@,
            SearchFilter::SoundOutput => "soundoutput"@,
            SearchFilter::SoundInput => "soundinput"@,
            SearchFilter::Webcam => "webcam"@,
            SearchFilter::MultiPass => "multipass"@,
            SearchFilter::MusicStream => "musicstream"@,
        }
    }

    /// The filter that a name selects, if any.
    pub open spec fn named(s: Seq<char>) -> Option<SearchFilter> {
        if s == "VR"@ {
            Some(SearchFilter::Vr)
        } else if s == "SoundOutput"@ {
            Some(SearchFilter::SoundOutput)
        } else if s == "SoundInput"@ {
            Some(SearchFilter::SoundInput)
        } else if s == "Webcam"@ {
            Some(SearchFilter::Webcam)
        } else if s == "MultiPass"@ {
            Some(SearchFilter::MultiPass)
        } else if s == "MusicStream"@ {
            Some(SearchFilter::MusicStream)
        } else {
            None
        }
    }

    /// The lower-case name under which the catalog knows this filter.
    pub fn as_query_str(&self) -> (s: &'static str)
        ensures
            s@ == self.query_name(),
    {
        match self {
            SearchFilter::Vr => "vr",
            SearchFilter::SoundOutput => "soundoutput",
            SearchFilter::SoundInput => "soundinput",
            SearchFilter::Webcam => "webcam",
            SearchFilter::MultiPass => "multipass",
            SearchFilter::MusicStream => "musicstream",
        }
    }
}

impl std::str::FromStr for SearchFilter {
    type Err = ();

    /// Reads a filter from its name; any other text is refused.
    fn from_str(s: &str) -> (r: Result<SearchFilter, ()>)
        ensures
            r == match SearchFilter::named(s@) {
                Some(filter) => Ok::<SearchFilter, ()>(filter),
                None => Err::<SearchFilter, ()>(()),
            },
    {
        if str_eq(s, "VR") {
            Ok(SearchFilter::Vr)
        } else if str_eq(s, "SoundOutput") {
            Ok(SearchFilter::SoundOutput)
        } else if str_eq(s, "SoundInput") {
            Ok(SearchFilter::SoundInput)
        } else if str_eq(s, "Webcam") {
            Ok(SearchFilter::Webcam)
        } else if str_eq(s, "MultiPass") {
            Ok(SearchFilter::MultiPass)
        } else if str_eq(s, "MusicStream") {
            Ok(SearchFilter::MusicStream)
        } else {
            Err(())
        }
    }
}

/// The `filter=..&` parameters of a search address, one per filter, in the
/// order given.
pub open spec fn filter_params(filters: Seq<SearchFilter>) -> Seq<char>
    decreases filters.len(),
{
    if filters.len() == 0 {
        Seq::<char>::empty()
    } else {
        filter_params(filters.drop_last()) + "filter="@ + filters.last().query_name() + "&"@
    }
}

/// The address of a search for `string`, sorted and filtered as given.
pub open spec fn search_url(
    string: Seq<char>,
    sort_order: SearchSortOrder,
    filters: Seq<SearchFilter>,
    api_key: Seq<char>,
) -> Seq<char> {
    "https://www.shadertoy.com/api/v1/"@ + "shaders"@ + (if string.len() == 0 {
        Seq::<char>::empty()
    } else {
        "/query/"@ + string
    }) + "?sort="@ + sort_order.query_name() + "&"@ + filter_params(filters) + "key="@ + api_key
}

/// The address under which the catalog delivers the shader `shader_id`.
pub open spec fn shader_url(shader_id: Seq<char>, api_key: Seq<char>) -> Seq<char> {
    "https://www.shadertoy.com/api/v1/"@ + "shaders/"@ + shader_id + "?key="@ + api_key
}

/// What to search for, without the key that authorises the search.
#[derive(Debug, Clone)]
pub struct SearchParams<'a> {
    /// Search string, empty to list every shader.
    pub string: &'a str,
    /// Sort order of the resulting list.
    pub sort_order: SearchSortOrder,
    /// Inclusion filters: only shaders matching all of them are listed.
    pub filters: Vec<SearchFilter>,
}

/// A search for shaders by text.
#[derive(Debug, Clone)]
pub struct SearchQuery<'a> {
    /// Search string, empty to list every shader.
    pub string: &'a str,
    /// Sort order of the resulting list.
    pub sort_order: SearchSortOrder,
    /// Inclusion filters: only shaders matching all of them are listed.
    pub filters: Vec<SearchFilter>,
    /// The user's API key.
    pub api_key: &'a str,
}

/// The retrieval of one shader by its identifier.
#[derive(Debug, Clone)]
pub struct ShaderQuery<'a> {
    /// Identifier of the shader to retrieve.
    pub shader_id: &'a str,
    /// The user's API key.
    pub api_key: &'a str,
}

/// The decoded answer to a search.
#[derive(Debug, Clone)]
pub struct SearchResponse {
    /// The server's complaint, empty when it has none.
    pub error: String,
    /// How many shaders matched.
    pub shaders: u64,
    /// The identifiers of the shaders on this page of the result.
    pub results: Vec<String>,
}

/// The decoded answer to a shader retrieval.
#[derive(Debug, Clone)]
pub struct ShaderResponse {
    /// The server's complaint, empty when it has none.
    pub error: String,
    /// The shader that was asked for.
    pub shader: Shader,
}

/// `serde_json::Error`: the decoder's account of why a text was refused.
/// It is carried through as it is; nothing is known of what it holds.
#[verifier::external_type_specification]
#[verifier::external_body]
pub struct ExJsonError(serde_json::Error);

/// Why a query produced no result.
#[derive(Debug)]
pub enum QueryError {
    /// The server answered with a complaint of its own.
    Server(String),
    /// The server's answer could not be decoded.
    JsonParse(serde_json::Error),
}

/// `serde_json::Error`'s `Display` output, as an owned string. Nothing is
/// claimed about the text.
#[verifier::external_body]
fn json_error_text(err: &serde_json::Error) -> (text: String) {
    err.to_string()
}

impl QueryError {
    /// The decoding failure underneath this error, if that is what it is.
    pub fn source(&self) -> (cause: Option<&serde_json::Error>)
        ensures
            cause == match self {
                QueryError::Server(_) => None::<&serde_json::Error>,
                QueryError::JsonParse(err) => Some(err),
            },
    {
        match self {
            QueryError::Server(_) => None,
            QueryError::JsonParse(err) => Some(err),
        }
    }

    /// A one-line description for the user. A server complaint is quoted in
    /// full; a decoding failure is introduced by a fixed phrase and followed
    /// by the decoder's own words.
    pub fn message(&self) -> (text: String)
        ensures
            match self {
                QueryError::Server(msg) => text@ == "Server error: "@ + msg@,
                QueryError::JsonParse(_) => "Failed parsing JSON server response: "@.is_prefix_of(
                    text@,
                ),
            },
    {
        match self {
            QueryError::Server(msg) => {
                let mut text = String::from_str("Server error: ");
                text.append(msg.as_str());
                text
            },
            QueryError::JsonParse(err) => {
                let mut text = String::from_str("Failed parsing JSON server response: ");
                let detail = json_error_text(err);
                text.append(detail.as_str());
                assert(text@.subrange(0, "Failed parsing JSON server response: "@.len() as int)
                    =~= "Failed parsing JSON server response: "@);
                text
            },
        }
    }
}

impl<'a> SearchParams<'a> {
    /// The query that carries out this search under `api_key`.
    pub fn with_key(self, api_key: &'a str) -> (query: SearchQuery<'a>)
        ensures
            query.string == self.string,
            query.sort_order == self.sort_order,
            query.filters == self.filters,
            query.api_key == api_key,
    {
        SearchQuery {
            string: self.string,
            sort_order: self.sort_order,
            filters: self.filters,
            api_key,
        }
    }
}

impl<'a> SearchQuery<'a> {
    /// The address to which this query is sent.
    pub fn url(&self) -> (address: String)
        ensures
            address@ == search_url(self.string@, self.sort_order, self.filters@, self.api_key@),
    {
        let mut address = String::from_str("https://www.shadertoy.com/api/v1/");
        address.append("shaders");
        if !self.string.is_empty() {
            address.append("/query/");
            address.append(self.string);
        }
        address.append("?sort=");
        address.append(self.sort_order.as_query_str());
        address.append("&");
        let ghost before = address@;
        let mut i: usize = 0;
        while i < self.filters.len()
            invariant
                i <= self.filters.len(),
                address@ == before + filter_params(self.filters@.take(i as int)),
            decreases self.filters.len() - i,
        {
            address.append("filter=");
            address.append(self.filters[i].as_query_str());
            address.append("&");
            proof {
                let next = self.filters@.take(i + 1);
                assert(next.drop_last() =~= self.filters@.take(i as int));
                assert(next.last() == self.filters@[i as int]);
                assert(address@ =~= before + filter_params(next));
            }
            i += 1;
        }
        proof {
            assert(self.filters@.take(i as int) =~= self.filters@);
        }
        address.append("key=");
        address.append(self.api_key);
        proof {
            assert(address@ =~= search_url(
                self.string@,
                self.sort_order,
                self.filters@,
                self.api_key@,
            ));
        }
        address
    }

    /// Judges a decoded answer to a search: the identifiers found, unless
    /// the server complained or its answer could not be decoded.
    pub fn process_response(parsed: Result<SearchResponse, serde_json::Error>) -> (r: Result<
        Vec<String>,
        QueryError,
    >)
        ensures
            match parsed {
                Ok(response) => if response.error@.len() == 0 {
                    r == Ok::<Vec<String>, QueryError>(response.results)
                } else {
                    r == Err::<Vec<String>, QueryError>(QueryError::Server(response.error))
                },
                Err(err) => r == Err::<Vec<String>, QueryError>(QueryError::JsonParse(err)),
            },
    {
        match parsed {
            Ok(response) => {
                if !response.error.as_str().is_empty() {
                    return Err(QueryError::Server(response.error));
                }
                Ok(response.results)
            },
            Err(err) => Err(QueryError::JsonParse(err)),
        }
    }
}

impl<'a> ShaderQuery<'a> {
    /// The address to which this query is sent.
    pub fn url(&self) -> (address: String)
        ensures
            address@ == shader_url(self.shader_id@, self.api_key@),
    {
        let mut address = String::from_str("https://www.shadertoy.com/api/v1/");
        address.append("shaders/");
        address.append(self.shader_id);
        address.append("?key=");
        address.append(self.api_key);
        address
    }

    /// Judges a decoded answer to a shader retrieval: the shader, unless the
    /// server complained or its answer could not be decoded.
    pub fn process_response(parsed: Result<ShaderResponse, serde_json::Error>) -> (r: Result<
        Shader,
        QueryError,
    >)
        ensures
            match parsed {
                Ok(response) => if response.error@.len() == 0 {
                    r == Ok::<Shader, QueryError>(response.shader)
                } else {
                    r == Err::<Shader, QueryError>(QueryError::Server(response.error))
                },
                Err(err) => r == Err::<Shader, QueryError>(QueryError::JsonParse(err)),
            },
    {
        match parsed {
            Ok(response) => {
                if !response.error.as_str().is_empty() {
                    return Err(QueryError::Server(response.error));
                }
                Ok(response.shader)
            },
            Err(err) => Err(QueryError::JsonParse(err)),
        }
    }
}

} // verus!
