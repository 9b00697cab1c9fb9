use statefi_protocol::{
    create_user_profile, create_vault, initialize_protocol, text_len, whitelist_token,
    CreateUserProfile, CreateVault, InitializeProtocol, ProtocolConfig, Pubkey, StateFiError,
    TokenWhitelist, UserProfile, Vault, WhitelistToken,
};

fn key(n: u8) -> Pubkey {
    Pubkey { bytes: [n; 32] }
}

fn text(len: usize) -> String {
    "x".repeat(len)
}

fn profile_of(owner: Pubkey) -> UserProfile {
    UserProfile {
        owner,
        name: String::from("Ada"),
        email: String::from("ada@example.org"),
        is_kyc_verified: false,
        created_at: 1_700_000_000,
        bump: 254,
    }
}

fn whitelisting(admin: Pubkey, caller: Pubkey) -> WhitelistToken {
    WhitelistToken {
        admin: caller,
        protocol_config: ProtocolConfig { admin, admin_fee_basis_points: 250, bump: 255 },
        mint: key(30),
        token_whitelist: None,
        bump: 251,
    }
}

#[test]
fn keys_are_equal_when_all_bytes_are() {
    let mut bytes = [7u8; 32];
    assert!(Pubkey { bytes } == key(7));
    bytes[31] = 8;
    assert!(Pubkey { bytes } != key(7));
    bytes[31] = 7;
    bytes[0] = 0;
    assert!(Pubkey { bytes } != key(7));
}

#[test]
fn text_length_is_counted_in_characters() {
    assert_eq!(text_len(&String::new()), 0);
    assert_eq!(text_len(&String::from("abc")), 3);
    assert_eq!(text_len(&String::from("é")), 1);
    assert_eq!(text_len(&String::from("€uro")), 4);
    assert_eq!(text_len(&"é".repeat(50)), 50);
}

#[test]
fn protocol_is_initialized_with_the_caller_as_admin() {
    let mut ctx = InitializeProtocol { admin: key(1), protocol_config: None, bump: 255 };
    assert_eq!(initialize_protocol(&mut ctx, 250), Ok(()));
    assert_eq!(
        ctx,
        InitializeProtocol {
            admin: key(1),
            protocol_config: Some(ProtocolConfig {
                admin: key(1),
                admin_fee_basis_points: 250,
                bump: 255
            }),
            bump: 255,
        }
    );
}

#[test]
fn protocol_accepts_the_fee_rates_at_both_ends() {
    let mut ctx = InitializeProtocol { admin: key(1), protocol_config: None, bump: 0 };
    assert_eq!(initialize_protocol(&mut ctx, 0), Ok(()));
    assert_eq!(ctx.protocol_config.unwrap().admin_fee_basis_points, 0);
    let mut ctx = InitializeProtocol { admin: key(1), protocol_config: None, bump: 0 };
    assert_eq!(initialize_protocol(&mut ctx, 10_000), Ok(()));
    assert_eq!(ctx.protocol_config.unwrap().admin_fee_basis_points, 10_000);
}

#[test]
fn protocol_refuses_a_fee_above_all() {
    let mut ctx = InitializeProtocol { admin: key(1), protocol_config: None, bump: 255 };
    assert_eq!(initialize_protocol(&mut ctx, 10_001), Err(StateFiError::InvalidFeeBasisPoints));
    assert_eq!(ctx.protocol_config, None);
    assert_eq!(initialize_protocol(&mut ctx, u16::MAX), Err(StateFiError::InvalidFeeBasisPoints));
    assert_eq!(ctx.protocol_config, None);
}

#[test]
fn protocol_is_initialized_once() {
    let mut ctx = InitializeProtocol { admin: key(1), protocol_config: None, bump: 255 };
    assert_eq!(initialize_protocol(&mut ctx, 250), Ok(()));
    let first = ctx;
    ctx.admin = key(2);
    let before = ctx;
    assert_eq!(initialize_protocol(&mut ctx, 100), Err(StateFiError::AccountAlreadyInUse));
    assert_eq!(ctx, before);
    assert_eq!(ctx.protocol_config, first.protocol_config);
    assert_eq!(initialize_protocol(&mut ctx, 10_001), Err(StateFiError::InvalidFeeBasisPoints));
}

#[test]
fn profile_is_created_unverified() {
    let mut ctx = CreateUserProfile { user: key(2), user_profile: None, bump: 254 };
    let done = create_user_profile(
        &mut ctx,
        String::from("Ada"),
        String::from("ada@example.org"),
        1_700_000_000,
    );
    assert_eq!(done, Ok(()));
    assert_eq!(ctx.user, key(2));
    assert_eq!(ctx.bump, 254);
    assert_eq!(ctx.user_profile, Some(profile_of(key(2))));
}

#[test]
fn profile_texts_at_their_limits() {
    let mut ctx = CreateUserProfile { user: key(2), user_profile: None, bump: 254 };
    assert_eq!(create_user_profile(&mut ctx, text(50), text(100), 7), Ok(()));
    let profile = ctx.user_profile.unwrap();
    assert_eq!(profile.name, text(50));
    assert_eq!(profile.email, text(100));
    assert_eq!(profile.created_at, 7);
}

#[test]
fn profile_refuses_a_long_name() {
    let mut ctx = CreateUserProfile { user: key(2), user_profile: None, bump: 254 };
    assert_eq!(
        create_user_profile(&mut ctx, text(51), text(5), 7),
        Err(StateFiError::StringTooLong)
    );
    assert_eq!(ctx, CreateUserProfile { user: key(2), user_profile: None, bump: 254 });
}

#[test]
fn profile_refuses_a_long_email() {
    let mut ctx = CreateUserProfile { user: key(2), user_profile: None, bump: 254 };
    assert_eq!(
        create_user_profile(&mut ctx, text(5), text(101), 7),
        Err(StateFiError::StringTooLong)
    );
    assert_eq!(ctx.user_profile, None);
}

#[test]
fn profile_name_is_measured_in_characters() {
    let mut ctx = CreateUserProfile { user: key(2), user_profile: None, bump: 254 };
    // letters of two bytes each
    assert_eq!(
        create_user_profile(&mut ctx, "é".repeat(51), text(5), 7),
        Err(StateFiError::StringTooLong)
    );
    assert_eq!(ctx.user_profile, None);
    assert_eq!(create_user_profile(&mut ctx, "é".repeat(50), "€".repeat(100), 7), Ok(()));
    assert_eq!(ctx.user_profile.unwrap().name, "é".repeat(50));
}

#[test]
fn profile_is_created_once() {
    let mut ctx = CreateUserProfile { user: key(2), user_profile: None, bump: 254 };
    assert_eq!(create_user_profile(&mut ctx, text(3), text(4), 7), Ok(()));
    let before = ctx.clone();
    assert_eq!(
        create_user_profile(&mut ctx, text(5), text(6), 8),
        Err(StateFiError::AccountAlreadyInUse)
    );
    assert_eq!(ctx, before);
    assert_eq!(
        create_user_profile(&mut ctx, text(51), text(6), 8),
        Err(StateFiError::StringTooLong)
    );
    assert_eq!(ctx, before);
}

#[test]
fn vault_is_created_for_the_owner_of_the_profile() {
    let mut ctx =
        CreateVault { user: key(2), user_profile: profile_of(key(2)), vault: None, bump: 253 };
    assert_eq!(create_vault(&mut ctx, 1_700_000_100), Ok(()));
    assert_eq!(ctx.vault, Some(Vault { owner: key(2), created_at: 1_700_000_100, bump: 253 }));
    assert_eq!(ctx.user_profile, profile_of(key(2)));
}

#[test]
fn vault_needs_the_owner_of_the_profile() {
    let mut ctx =
        CreateVault { user: key(3), user_profile: profile_of(key(2)), vault: None, bump: 253 };
    assert_eq!(create_vault(&mut ctx, 1_700_000_100), Err(StateFiError::InvalidOwner));
    assert_eq!(ctx.vault, None);
}

#[test]
fn vault_is_created_once() {
    let mut ctx =
        CreateVault { user: key(2), user_profile: profile_of(key(2)), vault: None, bump: 253 };
    assert_eq!(create_vault(&mut ctx, 5), Ok(()));
    assert_eq!(create_vault(&mut ctx, 6), Err(StateFiError::AccountAlreadyInUse));
    assert_eq!(ctx.vault, Some(Vault { owner: key(2), created_at: 5, bump: 253 }));
    ctx.user = key(3);
    assert_eq!(create_vault(&mut ctx, 6), Err(StateFiError::InvalidOwner));
}

#[test]
fn token_is_whitelisted_active() {
    let mut ctx = whitelisting(key(1), key(1));
    let done = whitelist_token(&mut ctx, String::from("USDC"), String::from("USD Coin"), true, 42);
    assert_eq!(done, Ok(()));
    assert_eq!(
        ctx.token_whitelist,
        Some(TokenWhitelist {
            mint: key(30),
            symbol: String::from("USDC"),
            name: String::from("USD Coin"),
            is_stable: true,
            is_active: true,
            created_at: 42,
            bump: 251,
        })
    );
    let mut ctx = whitelisting(key(1), key(1));
    assert_eq!(whitelist_token(&mut ctx, text(10), text(50), false, 43), Ok(()));
    let entry = ctx.token_whitelist.unwrap();
    assert!(!entry.is_stable);
    assert!(entry.is_active);
}

#[test]
fn whitelisting_needs_the_admin() {
    let mut ctx = whitelisting(key(1), key(2));
    assert_eq!(
        whitelist_token(&mut ctx, String::from("USDC"), String::from("USD Coin"), true, 42),
        Err(StateFiError::Unauthorized)
    );
    assert_eq!(ctx, whitelisting(key(1), key(2)));
    // the caller is checked before anything else
    assert_eq!(
        whitelist_token(&mut ctx, text(11), text(51), true, 42),
        Err(StateFiError::Unauthorized)
    );
    ctx.token_whitelist = Some(TokenWhitelist {
        mint: key(30),
        symbol: String::from("USDC"),
        name: String::from("USD Coin"),
        is_stable: true,
        is_active: true,
        created_at: 42,
        bump: 251,
    });
    assert_eq!(
        whitelist_token(&mut ctx, String::from("USDC"), String::from("USD Coin"), true, 42),
        Err(StateFiError::Unauthorized)
    );
}

#[test]
fn whitelisting_refuses_long_texts() {
    let mut ctx = whitelisting(key(1), key(1));
    assert_eq!(
        whitelist_token(&mut ctx, text(11), text(5), true, 42),
        Err(StateFiError::StringTooLong)
    );
    assert_eq!(
        whitelist_token(&mut ctx, text(5), text(51), true, 42),
        Err(StateFiError::StringTooLong)
    );
    assert_eq!(ctx, whitelisting(key(1), key(1)));
}

#[test]
fn token_is_whitelisted_once() {
    let mut ctx = whitelisting(key(1), key(1));
    assert_eq!(whitelist_token(&mut ctx, text(4), text(8), true, 42), Ok(()));
    let before = ctx.clone();
    assert_eq!(
        whitelist_token(&mut ctx, text(3), text(7), false, 43),
        Err(StateFiError::AccountAlreadyInUse)
    );
    assert_eq!(ctx, before);
}

#[test]
fn every_error_has_its_message() {
    let all = [
        (StateFiError::InvalidFeeBasisPoints, "Invalid fee basis points (must be <= 10000)"),
        (StateFiError::Unauthorized, "Unauthorized access"),
        (StateFiError::InvalidDepositStatus, "Invalid deposit status"),
        (StateFiError::InvalidWithdrawalStatus, "Invalid withdrawal status"),
        (StateFiError::InvalidAmount, "Invalid amount"),
        (StateFiError::StringTooLong, "String too long"),
        (StateFiError::InvalidVaultOwner, "Invalid vault owner"),
        (StateFiError::InvalidTokenAccountOwner, "Invalid token account owner"),
        (StateFiError::InvalidMint, "Invalid mint"),
        (StateFiError::TokenNotActive, "Token not active"),
        (StateFiError::InsufficientFunds, "Insufficient funds"),
        (StateFiError::InvalidOwner, "Invalid owner"),
        (StateFiError::AccountAlreadyInUse, "Account already in use"),
        (StateFiError::BalanceOverflow, "Balance overflow"),
        (StateFiError::AccountNotInitialized, "Account not initialized"),
    ];
    for (error, message) in all {
        assert_eq!(error.message(), message);
    }
}
