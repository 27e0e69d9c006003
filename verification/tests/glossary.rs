use rmap::glossary::{all_terms, entry, GlossaryTerm};

/// The Glossary window can iterate every term and produce a non-empty
/// headline + body.
#[test]
fn glossary_window_assembles_every_term() {
    for &term in all_terms() {
        let e = entry(term);
        assert!(!e.headline.is_empty(), "glossary window: headline empty for {term:?}");
        assert!(!e.body.is_empty(), "glossary window: body empty for {term:?}");
    }
}

/// Every term produces a non-empty, not suspiciously short entry.
#[test]
fn lint_terms_have_entries() {
    for &t in all_terms() {
        let e = entry(t);
        assert!(!e.headline.is_empty(), "headline empty for {t:?}");
        assert!(!e.body.is_empty(), "body empty for {t:?}");
        assert!(e.body.len() > 20, "body suspiciously short for {t:?}: {:?}", e.body);
    }
}

/// `all_terms()` covers every variant.
#[test]
fn all_terms_covers_every_variant() {
    const EXPECTED_VARIANT_COUNT: usize = 147;
    assert_eq!(
        all_terms().len(),
        EXPECTED_VARIANT_COUNT,
        "all_terms() has {} entries but expected {}.",
        all_terms().len(),
        EXPECTED_VARIANT_COUNT,
    );
}

#[test]
fn all_terms_has_no_duplicates_and_known_ends() {
    let terms = all_terms();
    for i in 0..terms.len() {
        for j in (i + 1)..terms.len() {
            assert_ne!(terms[i], terms[j]);
        }
    }
    assert_eq!(terms[0], GlossaryTerm::Warp);
    assert_eq!(terms[terms.len() - 1], GlossaryTerm::PortalWarp);
}

#[test]
fn entry_text_for_known_terms() {
    let e = entry(GlossaryTerm::Warp);
    assert_eq!(e.headline, "Warp");
    assert!(e.body.starts_with("Per-layer corner-pin quad"));
    assert_eq!(entry(GlossaryTerm::TestPattern).headline, "Test Pattern");
    assert_eq!(entry(GlossaryTerm::BlendMode).headline, "Blend Mode");
}
