use vagabond::data::{attribute_index, attribute_letter, infer_auth, AttributeKind, AuthLevel};

#[test]
fn attribute_rows_in_order() {
    assert_eq!(attribute_index(AttributeKind::Analyze), 0);
    assert_eq!(attribute_index(AttributeKind::Breach), 1);
    assert_eq!(attribute_index(AttributeKind::Compute), 2);
    assert_eq!(attribute_index(AttributeKind::Disrupt), 3);
}

#[test]
fn attribute_letters() {
    assert_eq!(attribute_letter(AttributeKind::Analyze), 'A');
    assert_eq!(attribute_letter(AttributeKind::Breach), 'B');
    assert_eq!(attribute_letter(AttributeKind::Compute), 'C');
    assert_eq!(attribute_letter(AttributeKind::Disrupt), 'D');
}

#[test]
fn auth_from_low_bits() {
    assert_eq!(infer_auth(0), AuthLevel::Guest);
    assert_eq!(infer_auth(7), AuthLevel::Guest);
    assert_eq!(infer_auth(8), AuthLevel::User);
    assert_eq!(infer_auth(11), AuthLevel::User);
    assert_eq!(infer_auth(12), AuthLevel::Admin);
    assert_eq!(infer_auth(15), AuthLevel::Admin);
    assert_eq!(infer_auth(0x1234_5678_9ABC_DEF9), AuthLevel::User);
}

#[test]
fn auth_never_root_on_concrete_ids() {
    for id in [0u64, 15, 16, 31, 0xFFFF_FFFF_FFFF_FFFF, 0x10] {
        assert_ne!(infer_auth(id), AuthLevel::Root);
    }
    assert_eq!(infer_auth(16), AuthLevel::Guest);
}

#[test]
fn auth_labels() {
    assert_eq!(AuthLevel::Guest.as_str(), "Guest");
    assert_eq!(AuthLevel::User.as_str(), "User");
    assert_eq!(AuthLevel::Admin.as_str(), "Admin");
    assert_eq!(AuthLevel::Root.as_str(), "Root");
}
