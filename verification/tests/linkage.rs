use ir_core::attributes::linkage::Linkage;

const ALL_LINKAGES: [Linkage; 11] = [
    Linkage::Private,
    Linkage::Internal,
    Linkage::AvailableExternally,
    Linkage::LinkOnce,
    Linkage::Weak,
    Linkage::Common,
    Linkage::Appending,
    Linkage::ExternWeak,
    Linkage::LinkOnceODR,
    Linkage::WeakODR,
    Linkage::External,
];

#[test]
fn test_stringify() {
    assert_eq!(Linkage::LinkOnce.encode(), "link_once");
    assert_eq!(Linkage::External.encode(), "external");
}

#[test]
fn encode_matches_keyword_table() {
    assert_eq!(Linkage::Private.encode(), "private");
    assert_eq!(Linkage::Internal.encode(), "internal");
    assert_eq!(Linkage::AvailableExternally.encode(), "available_externally");
    assert_eq!(Linkage::LinkOnce.encode(), "link_once");
    assert_eq!(Linkage::Weak.encode(), "weak");
    assert_eq!(Linkage::Common.encode(), "common");
    assert_eq!(Linkage::Appending.encode(), "appending");
    assert_eq!(Linkage::ExternWeak.encode(), "extern_weak");
    assert_eq!(Linkage::LinkOnceODR.encode(), "link_once_odr");
    assert_eq!(Linkage::WeakODR.encode(), "weak_odr");
    assert_eq!(Linkage::External.encode(), "external");
}

#[test]
fn encode_is_injective() {
    for (i, a) in ALL_LINKAGES.iter().enumerate() {
        for (j, b) in ALL_LINKAGES.iter().enumerate() {
            if i != j {
                assert_ne!(a.encode(), b.encode());
            }
        }
    }
}

#[test]
fn variants_equal_iff_same_variant() {
    for (i, a) in ALL_LINKAGES.iter().enumerate() {
        for (j, b) in ALL_LINKAGES.iter().enumerate() {
            assert_eq!(a == b, i == j);
        }
    }
}
