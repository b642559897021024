use julia_explorer::{find_first, splice_library, uniforms, UniformKind};

fn libs(entries: &[(&str, &str)]) -> Vec<(String, String)> {
    entries.iter().map(|(p, c)| (p.to_string(), c.to_string())).collect()
}

#[test]
fn find_first_occurrence() {
    assert_eq!(find_first("abcabc", "bc"), Some(1));
    assert_eq!(find_first("abcabc", "cb"), None);
    assert_eq!(find_first("abc", ""), Some(0));
    assert_eq!(find_first("ab", "abc"), None);
    assert_eq!(find_first("żółw żółw", "łw"), Some(2));
}

#[test]
fn splices_at_first_occurrence_only() {
    let r = splice_library("x #LIB y #LIB", &libs(&[("#LIB", "fn f(){}")]));
    assert_eq!(r, "x fn f(){} y #LIB");
}

#[test]
fn first_matching_library_wins() {
    let r = splice_library("a #B #A", &libs(&[("#C", "c"), ("#A", "aaa"), ("#B", "bbb")]));
    assert_eq!(r, "a #B aaa");
}

#[test]
fn source_without_placeholder_is_unchanged() {
    let r = splice_library("void main() {}", &libs(&[("#LIB", "code")]));
    assert_eq!(r, "void main() {}");
    let r = splice_library("void main() {}", &libs(&[]));
    assert_eq!(r, "void main() {}");
}

#[test]
fn empty_placeholder_prepends_code() {
    let r = splice_library("main", &libs(&[("", "lib;")]));
    assert_eq!(r, "main".replacen("", "lib;", 1));
    assert_eq!(r, "lib;main");
}

#[test]
fn splice_matches_std_replacen() {
    let src = "uniform float t; //#complex\nvoid main(){ //#complex }";
    let r = splice_library(src, &libs(&[("//#complex", "vec2 cmul(vec2 a, vec2 b);")]));
    assert_eq!(r, src.replacen("//#complex", "vec2 cmul(vec2 a, vec2 b);", 1));
}

#[test]
fn shader_uniform_layout() {
    let u = uniforms();
    let expected = vec![
        ("topLeft".to_string(), UniformKind::Float2),
        ("bottomRight".to_string(), UniformKind::Float2),
        ("picked".to_string(), UniformKind::Float2),
        ("juliaInterpolation".to_string(), UniformKind::Float1),
        ("iterations".to_string(), UniformKind::Int1),
        ("power".to_string(), UniformKind::Float1),
    ];
    assert_eq!(u, expected);
}
