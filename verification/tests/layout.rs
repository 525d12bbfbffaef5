use shadertoy_browser::digest::{content_hash, spell};
use shadertoy_browser::layout::{
    asset_path, asset_url, definition_path, failure_memo_path, native_path, pass_stem,
    search_cache_path, shader_page_url, source_path,
};
use shadertoy_browser::text::decimal_string;

#[test]
fn decimal_numerals() {
    assert_eq!(decimal_string(0), "0");
    assert_eq!(decimal_string(7), "7");
    assert_eq!(decimal_string(10), "10");
    assert_eq!(decimal_string(1024), "1024");
    assert_eq!(decimal_string(u64::MAX), "18446744073709551615");
}

#[test]
fn spelling_is_base58_of_the_bytes() {
    assert_eq!(spell("abc"), "ZiCa");
    assert_eq!(spell(""), "");
}

#[test]
fn content_hash_is_sha3_256_in_base58() {
    assert_eq!(content_hash("abc"), "4wjQBD6GwEqGV8N5SZiW9x23vPQbYnHpvRkb5yfY7gzm");
    assert_eq!(content_hash(""), "CJoJBSg8E3aV6YxYs1DRZae79AFjt97nLHpPL8rHA4MF");
}

#[test]
fn content_hash_depends_on_content_only() {
    let a = String::from("void mainImage_(){}");
    let b = String::from("void mainImage_(){}");
    assert_eq!(content_hash(&a), content_hash(&b));
    assert_ne!(content_hash(&a), content_hash("void mainImage_(){ }"));
}

#[test]
fn paths_of_a_shader() {
    assert_eq!(definition_path("abc123"), "output/shader/abc123/abc123.json");
    assert_eq!(pass_stem("abc123", "Image"), "output/shader/abc123/abc123Image");
    assert_eq!(source_path("output/shader/abc123/abc123Image"), "output/shader/abc123/abc123Image.glsl");
    assert_eq!(native_path("output/shader/abc123/abc123Image"), "output/shader/abc123/abc123Image.metal");
    assert_eq!(shader_page_url("abc123"), "https://www.shadertoy.com/view/abc123");
}

#[test]
fn paths_of_an_asset() {
    assert_eq!(asset_path("/media/a/tex.png"), "output/media/a/tex.png");
    assert_eq!(asset_url("/media/a/tex.png"), "https://www.shadertoy.com//media/a/tex.png");
}

#[test]
fn failure_memo_is_keyed_by_version_and_content() {
    assert_eq!(
        failure_memo_path("abc", 1),
        "output/pipeline_fail/1/4wjQBD6GwEqGV8N5SZiW9x23vPQbYnHpvRkb5yfY7gzm"
    );
    assert_eq!(
        failure_memo_path("abc", 12),
        "output/pipeline_fail/12/4wjQBD6GwEqGV8N5SZiW9x23vPQbYnHpvRkb5yfY7gzm"
    );
    assert_ne!(failure_memo_path("abc", 1), failure_memo_path("abc", 2));
    assert_eq!(failure_memo_path("abc", 1), failure_memo_path("abc", 1));
}

#[test]
fn search_cache_is_keyed_by_the_parameters() {
    assert_eq!(
        search_cache_path("{\"string\":\"car\",\"sort_order\":\"Popular\",\"filters\":[\"MultiPass\"]}"),
        "output/query/ZMKS9J7oSQnsSEeGHsAtRgve4LPPpzeFGAwfa7Tk8Xm7g8eJEzoPKdhjmqcxnoN3axjqCJKM5YpJUn3X5x5wDW"
    );
}
