use paperplane::ident::{correlation_text, parse_correlation};

#[test]
fn correlation_text_is_lower_case_hyphenated() {
    assert_eq!(
        correlation_text(0x0123456789abcdef0123456789abcdef),
        "01234567-89ab-cdef-0123-456789abcdef"
    );
    assert_eq!(
        correlation_text(0x67e55044_10b1_426f_9247_bb680e5fe0c8),
        "67e55044-10b1-426f-9247-bb680e5fe0c8"
    );
}

#[test]
fn correlation_text_of_the_extremes() {
    assert_eq!(correlation_text(0), "00000000-0000-0000-0000-000000000000");
    assert_eq!(correlation_text(1), "00000000-0000-0000-0000-000000000001");
    assert_eq!(correlation_text(u128::MAX), "ffffffff-ffff-ffff-ffff-ffffffffffff");
    assert_eq!(correlation_text(1u128 << 127), "80000000-0000-0000-0000-000000000000");
}

#[test]
fn correlation_text_has_thirty_six_characters() {
    for id in [0u128, 7, 0xdead_beef, u128::MAX / 3, u128::MAX] {
        let text = correlation_text(id);
        assert_eq!(text.chars().count(), 36);
        for (at, c) in text.chars().enumerate() {
            if at == 8 || at == 13 || at == 18 || at == 23 {
                assert_eq!(c, '-');
            } else {
                assert!(c.is_ascii_digit() || ('a'..='f').contains(&c));
            }
        }
    }
}

#[test]
fn parse_correlation_reads_hyphenated_text() {
    assert_eq!(
        parse_correlation("67e55044-10b1-426f-9247-bb680e5fe0c8"),
        Some(0x67e55044_10b1_426f_9247_bb680e5fe0c8)
    );
    assert_eq!(parse_correlation("00000000-0000-0000-0000-000000000000"), Some(0));
}

#[test]
fn parse_correlation_reads_other_forms() {
    let id = 0xf9168c5e_ceb2_4faa_b6bf_329bf39fa1e4u128;
    assert_eq!(parse_correlation("F9168C5E-CEB2-4faa-B6BF-329BF39FA1E4"), Some(id));
    assert_eq!(parse_correlation("f9168c5eceb24faab6bf329bf39fa1e4"), Some(id));
    assert_eq!(parse_correlation("urn:uuid:f9168c5e-ceb2-4faa-b6bf-329bf39fa1e4"), Some(id));
}

#[test]
fn parse_correlation_refuses_what_is_no_identifier() {
    assert_eq!(parse_correlation(""), None);
    assert_eq!(parse_correlation("abc"), None);
    assert_eq!(parse_correlation("67e55044-10b1-426f-9247-bb680e5fe0c"), None);
    assert_eq!(parse_correlation("67e55044-10b1-426f-9247-bb680e5fe0cg"), None);
    assert_eq!(parse_correlation("67e55044x10b1-426f-9247-bb680e5fe0c8"), None);
    assert_eq!(parse_correlation("\u{fc}7e55044-10b1-426f-9247-bb680e5fe0c"), None);
}

#[test]
fn correlation_text_reads_back_as_the_identifier() {
    let mut id: u128 = 0x9e3779b97f4a7c15f39cc0605cedc835;
    for _ in 0..200 {
        assert_eq!(parse_correlation(&correlation_text(id)), Some(id));
        id = id.wrapping_mul(0x2545f4914f6cdd1d).wrapping_add(0x1234567);
    }
}
