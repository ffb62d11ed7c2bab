use queubious::identity::{resolve_identity, resolve_with, Identity, IdentityError, VisitorId};

#[test]
fn text_is_lower_case_hyphenated() {
    let id = VisitorId { value: 0xa1a2a3a4b1b2c1c2d1d2d3d4d5d6d7d8 };
    assert_eq!(id.to_text(), "a1a2a3a4-b1b2-c1c2-d1d2-d3d4d5d6d7d8");
    assert_eq!(VisitorId { value: 0 }.to_text(), "00000000-0000-0000-0000-000000000000");
    assert_eq!(VisitorId { value: 1 }.to_text(), "00000000-0000-0000-0000-000000000001");
    assert_eq!(VisitorId { value: u128::MAX }.to_text(), "ffffffff-ffff-ffff-ffff-ffffffffffff");
    assert_eq!(
        VisitorId { value: 0x0123456789abcdef0fedcba987654321 }.to_text(),
        "01234567-89ab-cdef-0fed-cba987654321"
    );
}

#[test]
fn parse_reads_the_canonical_text_back() {
    for value in [0u128, 1, 0x936da01f9abd4d9d80c702af85c822a8, u128::MAX] {
        let id = VisitorId { value };
        assert_eq!(VisitorId::parse(&id.to_text()), Some(id));
    }
    assert_eq!(
        VisitorId::parse("936DA01F-9ABD-4D9D-80C7-02AF85C822A8"),
        Some(VisitorId { value: 0x936da01f9abd4d9d80c702af85c822a8 })
    );
    assert_eq!(
        VisitorId::parse("936da01f9abd4d9d80c702af85c822a8"),
        Some(VisitorId { value: 0x936da01f9abd4d9d80c702af85c822a8 })
    );
}

#[test]
fn parse_refuses_what_is_no_identifier() {
    assert_eq!(VisitorId::parse(""), None);
    assert_eq!(VisitorId::parse("queue"), None);
    assert_eq!(VisitorId::parse("936da01f-9abd-4d9d-80c7-02af85c822a"), None);
    assert_eq!(VisitorId::parse("936da01f-9abd-4d9d-80c7-02af85c822ag"), None);
    assert_eq!(VisitorId::parse("936da01f_9abd_4d9d_80c7_02af85c822a8"), None);
}

#[test]
fn generated_identifiers_are_random_version_four() {
    let a = VisitorId::generate();
    let b = VisitorId::generate();
    assert_ne!(a, b);
    for id in [a, b] {
        assert_eq!((id.value >> 76) & 0xf, 4);
        assert_eq!((id.value >> 62) & 0x3, 2);
        let text = id.to_text();
        assert_eq!(text.len(), 36);
        assert_eq!(&text[14..15], "4");
    }
}

#[test]
fn stored_identifier_is_reused() {
    let stored = "936da01f-9abd-4d9d-80c7-02af85c822a8";
    let expected = Identity {
        id: VisitorId { value: 0x936da01f9abd4d9d80c702af85c822a8 },
        created: false,
    };
    assert_eq!(resolve_identity(Some(stored)), Ok(expected));
    assert_eq!(resolve_with(Some(stored), VisitorId { value: 5 }), Ok(expected));
}

#[test]
fn session_without_identifier_receives_a_new_one() {
    let fresh = VisitorId { value: 77 };
    assert_eq!(resolve_with(None, fresh), Ok(Identity { id: fresh, created: true }));
    let made = resolve_identity(None).unwrap();
    assert!(made.created);
    assert_eq!((made.id.value >> 76) & 0xf, 4);
}

#[test]
fn malformed_stored_identifier_is_an_error() {
    assert_eq!(resolve_identity(Some("nonsense")), Err(IdentityError::Malformed));
    assert_eq!(
        resolve_with(Some(""), VisitorId { value: 1 }),
        Err(IdentityError::Malformed)
    );
}
