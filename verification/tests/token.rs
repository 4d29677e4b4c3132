use openfund::token::{create_token, MetadataField, TokenStep};
use openfund::Address;

#[test]
fn create_token_with_token_2022_sets_metadata() {
    let program = Address::new(anchor_spl::token_2022::ID.to_bytes());
    let steps = create_token(&program, "Open".to_string(), "OPN".to_string(), "https://x".to_string(), 9);
    assert_eq!(steps.len(), 6);
    assert!(matches!(steps[0], TokenStep::InitializeMint { decimals: 9 }));
    assert!(matches!(steps[1], TokenStep::CreateMetadataPointer));
    assert!(matches!(&steps[2], TokenStep::UpdateMetadataField { field: MetadataField::Name, value } if value == "Open"));
    assert!(matches!(&steps[3], TokenStep::UpdateMetadataField { field: MetadataField::Symbol, value } if value == "OPN"));
    assert!(matches!(&steps[4], TokenStep::UpdateMetadataField { field: MetadataField::Uri, value } if value == "https://x"));
    assert!(matches!(steps[5], TokenStep::InitializeDexTokenAccount));
}

#[test]
fn create_token_with_token_program_skips_metadata() {
    let program = Address::new(anchor_spl::token::ID.to_bytes());
    let steps = create_token(&program, "Open".to_string(), "OPN".to_string(), "u".to_string(), 6);
    assert_eq!(steps.len(), 2);
    assert!(matches!(steps[0], TokenStep::InitializeMint { decimals: 6 }));
    assert!(matches!(steps[1], TokenStep::InitializeDexTokenAccount));
}

#[test]
fn address_comparison() {
    let a = Address::new([3; 32]);
    let mut bytes = [3u8; 32];
    assert!(a.same_as(&Address::new(bytes)));
    bytes[31] = 4;
    assert!(!a.same_as(&Address::new(bytes)));
}
