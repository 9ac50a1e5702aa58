//! Bracket-notation parsing, citation reconstruction, and the
//! phonological classifiers.

use inflector::filters::{dash, is_vowel, skerping};
use inflector::{parse_root, Extra, Root};

#[test]
fn parse_plain_stem() {
    let r = Root::parse("vin");
    assert_eq!(r.first_stem, "vin");
    assert_eq!(r.deletable, "");
    assert_eq!(r.end, "");
    assert_eq!(r.extra, Extra::Nothing);
}

#[test]
fn parse_bracketed() {
    let r = Root::parse("sum(ma)r");
    assert_eq!(r.first_stem, "sum");
    assert_eq!(r.deletable, "ma");
    assert_eq!(r.end, "r");
    assert_eq!(r.extra, Extra::Nothing);
}

#[test]
fn parse_palatal_marker() {
    let r = Root::parse("veggʲ");
    assert_eq!(r.first_stem, "vegg");
    assert_eq!(r.deletable, "");
    assert_eq!(r.end, "");
    assert_eq!(r.extra, Extra::Palatalised);
}

#[test]
fn parse_skerping_marker_with_brackets() {
    let r = Root::parse("hey(g)ˠ");
    assert_eq!(r.first_stem, "hey");
    assert_eq!(r.deletable, "g");
    assert_eq!(r.end, "");
    assert_eq!(r.extra, Extra::Skerping);
}

#[test]
fn parse_empty_string() {
    let r = Root::parse("");
    assert_eq!(r.first_stem, "");
    assert_eq!(r.deletable, "");
    assert_eq!(r.end, "");
    assert_eq!(r.extra, Extra::Nothing);
}

#[test]
fn parse_marker_alone() {
    let r = Root::parse("ʲ");
    assert_eq!(r.first_stem, "");
    assert_eq!(r.extra, Extra::Palatalised);
}

#[test]
fn parse_unclosed_paren_is_stem() {
    let r = Root::parse("a(b");
    assert_eq!(r.first_stem, "a(b");
    assert_eq!(r.deletable, "");
    assert_eq!(r.end, "");
}

#[test]
fn parse_out_of_order_parens_is_stem() {
    let r = Root::parse(")a(");
    assert_eq!(r.first_stem, ")a(");
    assert_eq!(r.deletable, "");
    assert_eq!(r.end, "");
}

#[test]
fn parse_empty_deletable() {
    let r = Root::parse("a()r");
    assert_eq!(r.first_stem, "a");
    assert_eq!(r.deletable, "");
    assert_eq!(r.end, "r");
}

#[test]
fn citation_reconstructs_notation() {
    assert_eq!(Root::parse("hey(g)ˠ").citation(), "hey(g)ˠ");
    assert_eq!(Root::parse("veggʲ").citation(), "veggʲ");
    assert_eq!(Root::parse("sum(ma)r").citation(), "sum(ma)r");
    assert_eq!(Root::parse("vin").citation(), "vin");
}

#[test]
fn marked_roots_round_trip() {
    for w in ["hey(g)ˠ", "sjó(v)ˠ", "skóˠ", "veggʲ", "merk(i)ʲ", "hylʲ"] {
        let first = Root::parse(w);
        let again = Root::parse(&first.citation());
        assert_eq!(first.first_stem, again.first_stem);
        assert_eq!(first.deletable, again.deletable);
        assert_eq!(first.end, again.end);
        assert_eq!(first.extra, again.extra);
    }
}

#[test]
fn notation_is_backticked() {
    assert_eq!(Root::parse("vin").notation(), "`vin`");
    assert_eq!(parse_root("hey(g)ˠ"), "`hey(g)ˠ`");
}

#[test]
fn skerping_ok_detects_unmapped_stems() {
    assert!(Root::parse("hey(g)ˠ").skerping_ok());
    assert!(Root::parse("skóˠ").skerping_ok());
    assert!(Root::parse("vin").skerping_ok());
    assert!(!Root::parse("abˠ").skerping_ok());
    assert!(!Root::parse("ˠ").skerping_ok());
}

#[test]
fn root_and_extra_defaults() {
    let r = Root::default();
    assert_eq!(r.first_stem, "");
    assert_eq!(r.deletable, "");
    assert_eq!(r.end, "");
    assert_eq!(r.extra, Extra::Nothing);
    assert_eq!(Extra::default(), Extra::Nothing);
}

#[test]
fn vowel_classifier() {
    for c in ['a', 'e', 'i', 'y', 'o', 'u', 'ø', 'á', 'æ', 'í', 'ý', 'ó', 'ú'] {
        assert!(is_vowel(c));
    }
    for c in ['b', 'g', 'j', 'r', 's', '(', '-'] {
        assert!(!is_vowel(c));
    }
}

#[test]
fn skerping_clusters() {
    assert_eq!(skerping('ó'), Some("gv"));
    assert_eq!(skerping('ú'), Some("gv"));
    assert_eq!(skerping('í'), Some("ggj"));
    assert_eq!(skerping('ý'), Some("ggj"));
    assert_eq!(skerping('y'), Some("ggj"));
    assert_eq!(skerping('i'), Some("ggj"));
    assert_eq!(skerping('a'), None);
    assert_eq!(skerping('e'), None);
}

#[test]
fn dash_placeholders() {
    assert!(dash('-'));
    assert!(dash('~'));
    assert!(!dash('a'));
    assert!(!dash('('));
}
