//! Where each artifact lives in the content cache, and where assets are
//! fetched from. Every key is derived from an identifier or from content,
//! never from time or order.

use vstd::prelude::*;
use vstd::string::*;
use crate::digest::{content_hash, fingerprint, spell, spelled};
use crate::text::{decimal, is_digit, lemma_decimal_digits, lemma_decimal_injective, push_decimal};

verus! {

/// The record of the shader definition `id`.
pub open spec fn definition_path_of(id: Seq<char>) -> Seq<char> {
    "output/shader/"@ + id + "/"@ + id + ".json"@
}

/// The common stem of everything kept for the pass `pass_name` of the
/// shader `id`.
pub open spec fn pass_stem_of(id: Seq<char>, pass_name: Seq<char>) -> Seq<char> {
    "output/shader/"@ + id + "/"@ + id + pass_name
}

/// The assembled source of a pass, kept for inspection.
pub open spec fn source_path_of(stem: Seq<char>) -> Seq<char> {
    stem + ".glsl"@
}

/// The backend-native source of a pass.
pub open spec fn native_path_of(stem: Seq<char>) -> Seq<char> {
    stem + ".metal"@
}

/// The downloaded asset that the catalog serves under `src`.
pub open spec fn asset_path_of(src: Seq<char>) -> Seq<char> {
    "output"@ + src
}

/// The address from which the asset `src` is downloaded.
pub open spec fn asset_url_of(src: Seq<char>) -> Seq<char> {
    "https://www.shadertoy.com/"@ + src
}

/// The memo that records that `source` failed to build under the pipeline
/// format `version`.
pub open spec fn failure_memo_path_of(source: Seq<char>, version: u64) -> Seq<char> {
    "output/pipeline_fail/"@ + decimal(version as nat) + "/"@ + fingerprint(source)
}

/// The cached result of the search whose parameters serialise to
/// `serialized`.
pub open spec fn search_cache_path_of(serialized: Seq<char>) -> Seq<char> {
    "output/query/"@ + spelled(serialized)
}

/// The page of the shader `id` on the catalog's site.
pub open spec fn shader_page_url_of(id: Seq<char>) -> Seq<char> {
    "https://www.shadertoy.com/view/"@ + id
}

/// The address of the page of the shader `id`.
pub fn shader_page_url(id: &str) -> (address: String)
    ensures
        address@ == shader_page_url_of(id@),
{
    let mut address = String::from_str("https://www.shadertoy.com/view/");
    address.append(id);
    address
}

/// Where the definition of the shader `id` is kept.
pub fn definition_path(id: &str) -> (path: String)
    ensures
        path@ == definition_path_of(id@),
{
    let mut path = String::from_str("output/shader/");
    path.append(id);
    path.append("/");
    path.append(id);
    path.append(".json");
    path
}

/// The stem of everything kept for the pass `pass_name` of the shader `id`.
pub fn pass_stem(id: &str, pass_name: &str) -> (stem: String)
    ensures
        stem@ == pass_stem_of(id@, pass_name@),
{
    let mut stem = String::from_str("output/shader/");
    stem.append(id);
    stem.append("/");
    stem.append(id);
    stem.append(pass_name);
    stem
}

/// Where the assembled source of the pass with the stem `stem` is kept.
pub fn source_path(stem: &str) -> (path: String)
    ensures
        path@ == source_path_of(stem@),
{
    let mut path = String::from_str(stem);
    path.append(".glsl");
    path
}

/// Where the native source of the pass with the stem `stem` is kept.
pub fn native_path(stem: &str) -> (path: String)
    ensures
        path@ == native_path_of(stem@),
{
    let mut path = String::from_str(stem);
    path.append(".metal");
    path
}

/// Where the asset that the catalog serves under `src` is kept.
pub fn asset_path(src: &str) -> (path: String)
    ensures
        path@ == asset_path_of(src@),
{
    let mut path = String::from_str("output");
    path.append(src);
    path
}

pub fn asset_url(src: &str) -> (address: String)
    ensures
        address@ == asset_url_of(src@),
{
    let mut address = String::from_str("https://www.shadertoy.com/");
    address.append(src);
    address
}

/// Where it is recorded that `source` fails to build under `version`.
pub fn failure_memo_path(source: &str, version: u64) -> (path: String)
    ensures
        path@ == failure_memo_path_of(source@, version),
{
    let mut path = String::from_str("output/pipeline_fail/");
    push_decimal(&mut path, version);
    path.append("/");
    let hash = content_hash(source);
    path.append(hash.as_str());
    path
}

/// Where the result of the search that serialises to `serialized` is kept.
pub fn search_cache_path(serialized: &str) -> (path: String)
    ensures
        path@ == search_cache_path_of(serialized@),
{
    let mut path = String::from_str("output/query/");
    let name = spell(serialized);
    path.append(name.as_str());
    path
}

/// A numeral followed by a slash can be told apart from any other: if two
/// such texts agree, so do the numerals.
proof fn lemma_numeral_then_slash(a: nat, x: Seq<char>, b: nat, y: Seq<char>)
    requires
        decimal(a) + seq!['/'] + x == decimal(b) + seq!['/'] + y,
    ensures
        a == b,
{
    let da = decimal(a);
    let db = decimal(b);
    let left = da + seq!['/'] + x;
    let right = db + seq!['/'] + y;
    lemma_decimal_digits(a);
    lemma_decimal_digits(b);
    if da.len() < db.len() {
        assert(left[da.len() as int] == '/');
        assert(right[da.len() as int] == db[da.len() as int]);
        assert(is_digit(db[da.len() as int]));
        assert(false);
    }
    if db.len() < da.len() {
        assert(right[db.len() as int] == '/');
        assert(left[db.len() as int] == da[db.len() as int]);
        assert(is_digit(da[db.len() as int]));
        assert(false);
    }
    assert(da =~= db) by {
        assert forall|i: int| 0 <= i < da.len() implies da[i] == db[i] by {
            assert(left[i] == da[i]);
            assert(right[i] == db[i]);
        }
    }
    lemma_decimal_injective(a, b);
}

/// A failure memo belongs to one pipeline format version: memos written
/// under different versions never share a path, whatever the sources.
pub proof fn lemma_memo_path_tells_version(s1: Seq<char>, v1: u64, s2: Seq<char>, v2: u64)
    requires
        failure_memo_path_of(s1, v1) == failure_memo_path_of(s2, v2),
    ensures
        v1 == v2,
{
    reveal_strlit("/");
    let prefix = "output/pipeline_fail/"@;
    let left = failure_memo_path_of(s1, v1);
    let right = failure_memo_path_of(s2, v2);
    let left_tail = decimal(v1 as nat) + seq!['/'] + fingerprint(s1);
    let right_tail = decimal(v2 as nat) + seq!['/'] + fingerprint(s2);
    assert("/"@ =~= seq!['/']);
    assert(left =~= prefix + left_tail);
    assert(right =~= prefix + right_tail);
    assert(left_tail =~= left.subrange(prefix.len() as int, left.len() as int));
    assert(right_tail =~= right.subrange(prefix.len() as int, right.len() as int));
    lemma_numeral_then_slash(v1 as nat, fingerprint(s1), v2 as nat, fingerprint(s2));
}

/// The record of a definition is never the assembled source of a pass:
/// the two are told apart by their last letter.
pub proof fn lemma_definition_is_no_source(id: Seq<char>, stem: Seq<char>)
    ensures
        definition_path_of(id) != source_path_of(stem),
{
    reveal_strlit(".json");
    reveal_strlit(".glsl");
    let d = definition_path_of(id);
    let g = source_path_of(stem);
    assert(d.last() == ".json"@[4]);
    assert(g.last() == ".glsl"@[4]);
}

/// Failure memos are kept apart from everything that belongs to a shader:
/// a memo is neither the record of a definition nor the assembled source
/// of a pass.
pub proof fn lemma_memo_is_elsewhere(
    source: Seq<char>,
    version: u64,
    id: Seq<char>,
    pass_name: Seq<char>,
)
    ensures
        failure_memo_path_of(source, version) != definition_path_of(id),
        failure_memo_path_of(source, version) != source_path_of(pass_stem_of(id, pass_name)),
{
    reveal_strlit("output/pipeline_fail/");
    reveal_strlit("output/shader/");
    let m = failure_memo_path_of(source, version);
    let d = definition_path_of(id);
    let g = source_path_of(pass_stem_of(id, pass_name));
    assert(m[7] == "output/pipeline_fail/"@[7]);
    assert(d[7] == "output/shader/"@[7]);
    assert(g[7] == "output/shader/"@[7]);
}

} // verus!
