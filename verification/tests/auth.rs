use libmarse::auth::email::validate_email;
use libmarse::auth::password::{
    hash_password, hash_password_with_salt, hasher, stored_lanes_fit, validate_password,
    verify_password,
};
use libmarse::auth::sign_in::DbUser;
use libmarse::auth::sign_up::{save_user, SaveError};
use libmarse::auth::token::{
    create_access_token, create_access_token_at, create_refresh_token, create_refresh_token_at,
    parse_access_token, parse_access_token_at, parse_refresh_token, parse_refresh_token_at,
};
use libmarse::auth::user::{
    check_permission, get_all_users, get_user, permission_subject, permission_verdict,
    update_user, user_row, AllUser, UserInfo,
};
use libmarse::auth::UpdateUser;
use libmarse::auth::{
    sign_in, sign_in_at, sign_up, Credentials, Email, Name, Password, PasswordHash, RefreshSecret, Role,
    UserId, USER_TAG,
};
use libmarse::config::{Argon2Params, BackupConfig, HasherConfig, JwtConfig};
use libmarse::id::{tag, Id, IdCipher};
use libmarse::state::AppState;
use libmarse::{Error, ErrorChain};

fn hasher_config() -> HasherConfig {
    HasherConfig {
        key: "server side key".to_owned(),
        params: Argon2Params {
            memory_size: 8,
            iterations: 1,
            parallelism_factor: 1,
            output_length: None,
        },
    }
}

fn jwt_config(access_ttl: u64, refresh_ttl: u64) -> JwtConfig {
    JwtConfig { key: "signing key".to_owned(), access_ttl, refresh_ttl }
}

fn state() -> AppState {
    AppState::init(
        [3u8; 16],
        jwt_config(900, 86_400),
        hasher_config(),
        BackupConfig { cmd: "pg_dump".to_owned(), args: vec![] },
    )
}

fn internal(context: &'static str) -> Error {
    Error::Internal(ErrorChain { context })
}

#[test]
fn user_tag_is_the_tag_of_its_name() {
    assert_eq!(tag("user"), USER_TAG);
}

#[test]
fn password_policy() {
    assert_eq!(validate_password("short1A"), Err("password must be at least 8 characters long"));
    assert_eq!(
        validate_password("ALLUPPER1"),
        Err("password must contain at least one lowercase character")
    );
    assert_eq!(
        validate_password("alllowercase1"),
        Err("password must contain at least one uppercase character")
    );
    assert_eq!(
        validate_password("NoDigitsHere"),
        Err("password must contain at least one number")
    );
    assert_eq!(validate_password("Valid123"), Ok(()));
    assert_eq!(
        validate_password("Abcd\u{e9}12"),
        Err("password must be at least 8 characters long")
    );
    assert_eq!(validate_password("Abcd\u{e9}123"), Ok(()));
    assert_eq!(
        validate_password("\u{e9}\u{e9}\u{e9}\u{e9}"),
        Err("password must be at least 8 characters long")
    );
    assert_eq!(validate_password(""), Err("password must be at least 8 characters long"));
    assert_eq!(
        validate_password("12345678"),
        Err("password must contain at least one lowercase character")
    );
}

#[test]
fn password_new_reports_the_rule() {
    assert!(Password::new("Valid123".to_owned()).is_ok());
    match Password::new("short1A".to_owned()) {
        Err(e) => {
            assert_eq!(e, Error::Validation("password must be at least 8 characters long"))
        }
        Ok(_) => panic!("accepted"),
    }
    match Password::new("NoDigitsHere".to_owned()) {
        Err(e) => assert_eq!(e, Error::Validation("password must contain at least one number")),
        Ok(_) => panic!("accepted"),
    }
}

#[test]
fn email_validation() {
    assert!(validate_email("a@b.co"));
    assert!(validate_email("first.last@mail.example.org"));
    assert!(validate_email("a_b-c@d-e.f"));
    assert!(!validate_email("no-at-sign.example.org"));
    assert!(!validate_email("a@b"));
    assert!(!validate_email("a..b@c.d"));
    assert!(!validate_email("a@c..d"));
    assert!(!validate_email("a b@c.d"));
    assert!(!validate_email("a@b@c.d"));
    assert!(!validate_email("a+b@c.d"));
    assert!(validate_email("@b.c"));
    let long = format!("{}@b.co", "a".repeat(46));
    assert_eq!(long.len(), 51);
    assert!(!validate_email(&long));
    let fits = format!("{}@b.co", "a".repeat(45));
    assert!(validate_email(&fits));
    assert!(Email::new("a@b.co".to_owned()).is_ok());
    match Email::new("nope".to_owned()) {
        Err(e) => assert_eq!(e, Error::Validation("unsupported email address")),
        Ok(_) => panic!("accepted"),
    }
}

#[test]
fn hasher_wants_usable_settings() {
    assert_eq!(hasher(&hasher_config()), Ok(()));
    let mut config = hasher_config();
    config.params.memory_size = 7;
    assert_eq!(hasher(&config), Err(internal("instantiate hasher")));
    let mut config = hasher_config();
    config.params.iterations = 0;
    assert_eq!(hasher(&config), Err(internal("instantiate hasher")));
    let mut config = hasher_config();
    config.params.parallelism_factor = 0;
    assert_eq!(hasher(&config), Err(internal("instantiate hasher")));
    let mut config = hasher_config();
    config.params.parallelism_factor = 2;
    assert_eq!(hasher(&config), Err(internal("instantiate hasher")));
    config.params.memory_size = 16;
    assert_eq!(hasher(&config), Ok(()));
    let mut config = hasher_config();
    config.params.parallelism_factor = 0x2000_0000;
    assert_eq!(hasher(&config), Err(internal("instantiate hasher")));
    let mut config = hasher_config();
    config.params.output_length = Some(3);
    assert_eq!(hasher(&config), Err(internal("instantiate hasher")));
}

#[test]
fn hash_then_verify() {
    let password = Password::new("Abcdef12".to_owned()).unwrap();
    let hash = hash_password(&password, hasher_config()).unwrap();
    assert!(hash.as_str().starts_with("$argon2id$v=19$m=8,t=1,p=1$"));
    assert_eq!(verify_password(&"Abcdef12".to_owned(), Some(&hash), hasher_config()), Ok(()));
    assert_eq!(
        verify_password(&"Abcdef13".to_owned(), Some(&hash), hasher_config()),
        Err(Error::InvalidCredentials)
    );
}

#[test]
fn hash_depends_on_the_salt_and_the_key() {
    let config = hasher_config();
    let one = hash_password_with_salt("Abcdef12", "c29tZXNhbHQxMjM0NTY", &config).unwrap();
    let same = hash_password_with_salt("Abcdef12", "c29tZXNhbHQxMjM0NTY", &config).unwrap();
    let other = hash_password_with_salt("Abcdef12", "b3RoZXJzYWx0MTIzNDU", &config).unwrap();
    assert_eq!(one.as_str(), same.as_str());
    assert_ne!(one.as_str(), other.as_str());
    assert_ne!(one.as_str(), "Abcdef12");
    let mut keyed = hasher_config();
    keyed.key = "another key".to_owned();
    assert_eq!(
        verify_password(&"Abcdef12".to_owned(), Some(&one), keyed),
        Err(Error::InvalidCredentials)
    );
    assert_eq!(verify_password(&"Abcdef12".to_owned(), Some(&one), config), Ok(()));
}

#[test]
fn hash_refuses_a_bad_salt_or_output_length() {
    let config = hasher_config();
    assert_eq!(
        hash_password_with_salt("Abcdef12", "!!", &config).err(),
        Some(internal("hash password"))
    );
    let mut short = hasher_config();
    short.params.output_length = Some(5);
    assert_eq!(
        hash_password_with_salt("Abcdef12", "c29tZXNhbHQxMjM0NTY", &short).err(),
        Some(internal("hash password"))
    );
    let mut unusable = hasher_config();
    unusable.params.iterations = 0;
    assert_eq!(
        hash_password_with_salt("Abcdef12", "c29tZXNhbHQxMjM0NTY", &unusable).err(),
        Some(internal("instantiate hasher"))
    );
}

#[test]
fn unknown_account_is_invalid_credentials() {
    assert_eq!(
        verify_password(&"Abcdef12".to_owned(), None, hasher_config()),
        Err(Error::InvalidCredentials)
    );
    let mut unusable = hasher_config();
    unusable.params.iterations = 0;
    assert_eq!(
        verify_password(&"Abcdef12".to_owned(), None, unusable),
        Err(internal("instantiate hasher"))
    );
}

#[test]
fn malformed_stored_hash_is_internal() {
    let hash = PasswordHash::new("not a phc string".to_owned());
    assert_eq!(
        verify_password(&"Abcdef12".to_owned(), Some(&hash), hasher_config()),
        Err(internal("parse password hash"))
    );
}

#[test]
fn refresh_secret_is_a_random_uuid() {
    let one = RefreshSecret::new();
    let two = RefreshSecret::new();
    assert_ne!(one.as_u128(), two.as_u128());
    assert_eq!(one.as_u128() & 0xf000_c000_0000_0000_0000, 0x4000_8000_0000_0000_0000);
    assert_eq!(RefreshSecret::from_u128(7).as_u128(), 7);
}

#[test]
fn access_token_round_trip() {
    let cipher = IdCipher::new([3u8; 16]);
    let config = jwt_config(900, 86_400);
    let id = UserId::new(17, &cipher);
    let token = create_access_token_at(id, &config, 1_000).unwrap();
    assert_eq!(token.split('.').count(), 3);
    let back = parse_access_token_at(&token, &config, 1_000).unwrap();
    assert_eq!(back.sql_id(&cipher), Ok(17));
    assert!(parse_access_token_at(&token, &config, 1_899).is_ok());
    assert_eq!(parse_access_token_at(&token, &config, 1_900).err(), Some(Error::LoggedOff));
    assert_eq!(parse_access_token_at(&token, &config, u64::MAX).err(), Some(Error::LoggedOff));
}

#[test]
fn refresh_token_round_trip() {
    let config = jwt_config(900, 86_400);
    let secret = RefreshSecret::from_u128(0xa1a2a3a4_b1b2_c1c2_d1d2_d3d4d5d6d7d8);
    let token = create_refresh_token_at(secret, &config, 5).unwrap();
    let back = parse_refresh_token_at(&token, &config, 5).unwrap();
    assert_eq!(back.as_u128(), secret.as_u128());
    assert!(parse_refresh_token_at(&token, &config, 86_404).is_ok());
    assert_eq!(parse_refresh_token_at(&token, &config, 86_405).err(), Some(Error::LoggedOff));
}

#[test]
fn token_claims_are_the_documented_json() {
    let cipher = IdCipher::new([3u8; 16]);
    let config = jwt_config(900, 86_400);
    let id = UserId::new(17, &cipher);
    let token = create_access_token_at(id, &config, 1_000).unwrap();
    let mut validation = jsonwebtoken::Validation::default();
    validation.validate_exp = false;
    let data = jsonwebtoken::decode::<serde_json::Value>(
        &token,
        &jsonwebtoken::DecodingKey::from_secret("signing key".as_bytes()),
        &validation,
    )
    .unwrap();
    assert_eq!(data.claims["iat"].as_u64(), Some(1_000));
    assert_eq!(data.claims["exp"].as_u64(), Some(1_900));
    assert_eq!(data.claims["id"].as_str(), Some(id.to_string().as_str()));
    let secret = RefreshSecret::from_u128(0xa1a2a3a4_b1b2_c1c2_d1d2_d3d4d5d6d7d8);
    let token = create_refresh_token_at(secret, &config, 5).unwrap();
    let data = jsonwebtoken::decode::<serde_json::Value>(
        &token,
        &jsonwebtoken::DecodingKey::from_secret("signing key".as_bytes()),
        &validation,
    )
    .unwrap();
    assert_eq!(data.claims["iat"].as_u64(), Some(5));
    assert_eq!(data.claims["exp"].as_u64(), Some(86_405));
    assert_eq!(data.claims["secret"].as_str(), Some("a1a2a3a4-b1b2-c1c2-d1d2-d3d4d5d6d7d8"));
}

#[test]
fn token_with_zero_ttl_is_expired() {
    let cipher = IdCipher::new([3u8; 16]);
    let config = jwt_config(0, 0);
    let id = UserId::new(1, &cipher);
    let token = create_access_token(id, &config).unwrap();
    assert_eq!(parse_access_token(&token, &config).err(), Some(Error::LoggedOff));
    let token = create_refresh_token(RefreshSecret::new(), &config).unwrap();
    assert_eq!(parse_refresh_token(&token, &config).err(), Some(Error::LoggedOff));
    let token = create_access_token_at(id, &config, 77).unwrap();
    assert_eq!(parse_access_token_at(&token, &config, 77).err(), Some(Error::LoggedOff));
    assert_eq!(parse_access_token_at(&token, &config, 78).err(), Some(Error::LoggedOff));
}

#[test]
fn token_issued_now_is_good_now() {
    let cipher = IdCipher::new([3u8; 16]);
    let config = jwt_config(900, 86_400);
    let id = UserId::new(99, &cipher);
    let token = create_access_token(id, &config).unwrap();
    let back = parse_access_token(&token, &config).unwrap();
    assert_eq!(back.sql_id(&cipher), Ok(99));
    let secret = RefreshSecret::new();
    let token = create_refresh_token(secret, &config).unwrap();
    assert_eq!(parse_refresh_token(&token, &config).unwrap().as_u128(), secret.as_u128());
}

#[test]
fn token_under_another_key_fails() {
    let cipher = IdCipher::new([3u8; 16]);
    let config = jwt_config(900, 86_400);
    let mut other = jwt_config(900, 86_400);
    other.key = "another signing key".to_owned();
    let token = create_access_token_at(UserId::new(1, &cipher), &config, 10).unwrap();
    assert_eq!(parse_access_token_at(&token, &other, 10).err(), Some(Error::LoggedOff));
    let token = create_refresh_token_at(RefreshSecret::new(), &config, 10).unwrap();
    assert_eq!(parse_refresh_token_at(&token, &other, 10).err(), Some(Error::LoggedOff));
}

#[test]
fn token_kinds_are_not_confused() {
    let cipher = IdCipher::new([3u8; 16]);
    let config = jwt_config(900, 86_400);
    let access = create_access_token_at(UserId::new(1, &cipher), &config, 10).unwrap();
    let refresh = create_refresh_token_at(RefreshSecret::new(), &config, 10).unwrap();
    assert_eq!(parse_refresh_token_at(&access, &config, 10).err(), Some(Error::LoggedOff));
    assert_eq!(parse_access_token_at(&refresh, &config, 10).err(), Some(Error::LoggedOff));
}

#[test]
fn garbage_is_no_token() {
    let config = jwt_config(900, 86_400);
    for text in ["", "a.b.c", "not a token", "a.b", "....."] {
        assert_eq!(parse_access_token_at(text, &config, 0).err(), Some(Error::LoggedOff));
        assert_eq!(parse_refresh_token_at(text, &config, 0).err(), Some(Error::LoggedOff));
    }
    let cipher = IdCipher::new([3u8; 16]);
    let token = create_access_token_at(UserId::new(1, &cipher), &config, 10).unwrap();
    let mut tampered = token.clone();
    let last = tampered.pop().unwrap();
    tampered.push(if last == 'A' { 'B' } else { 'A' });
    assert_eq!(parse_access_token_at(&tampered, &config, 10).err(), Some(Error::LoggedOff));
}

#[test]
fn token_is_not_issued_past_the_last_second() {
    let cipher = IdCipher::new([3u8; 16]);
    let config = jwt_config(u64::MAX, u64::MAX);
    assert_eq!(
        create_access_token(UserId::new(1, &cipher), &config).err(),
        Some(internal("encode jwt"))
    );
    assert_eq!(
        create_refresh_token(RefreshSecret::new(), &config).err(),
        Some(internal("encode jwt"))
    );
}

#[test]
fn permission_three_way_outcome() {
    let cipher = IdCipher::new([3u8; 16]);
    let admin = UserId::new(1, &cipher);
    let client = UserId::new(2, &cipher);
    let gone = UserId::new(3, &cipher);
    let find = |row: i64| -> Result<Option<Role>, Error> {
        Ok(match row {
            1 => Some(Role::Administrator),
            2 => Some(Role::Client),
            _ => None,
        })
    };
    let is_admin = |role: Role| matches!(role, Role::Administrator);
    assert_eq!(check_permission(admin, &cipher, find, is_admin), Ok(()));
    assert_eq!(check_permission(client, &cipher, find, is_admin), Err(Error::Unauthorized));
    assert_eq!(check_permission(gone, &cipher, find, is_admin), Err(Error::LoggedOff));
    assert_eq!(check_permission(client, &cipher, find, |_| true), Ok(()));
    assert_eq!(
        check_permission(client, &cipher, find, |role: Role| matches!(role, Role::Client)),
        Ok(())
    );
    let stranger = UserId::from_str("abc").unwrap();
    assert_eq!(check_permission(stranger, &cipher, find, |_| true), Err(Error::LoggedOff));
    let other_kind = Id::<0x6b6f_6f62>::new(1, &cipher).to_string();
    let forged = UserId::from_str(&other_kind).unwrap();
    assert_eq!(check_permission(forged, &cipher, find, |_| true), Err(Error::LoggedOff));
    let failing = |_: i64| -> Result<Option<Role>, Error> { Err(internal("execute sql")) };
    assert_eq!(
        check_permission(admin, &cipher, failing, |_| true),
        Err(internal("execute sql"))
    );
}

#[test]
fn permission_steps() {
    let cipher = IdCipher::new([3u8; 16]);
    assert_eq!(permission_subject(UserId::new(5, &cipher), &cipher), Ok(5));
    assert_eq!(
        permission_subject(UserId::from_str("").unwrap(), &cipher),
        Err(Error::LoggedOff)
    );
    assert_eq!(permission_verdict(Ok(None), |_| true), Err(Error::LoggedOff));
    assert_eq!(permission_verdict(Ok(Some(Role::Client)), |_| true), Ok(()));
    assert_eq!(permission_verdict(Ok(Some(Role::Client)), |_| false), Err(Error::Unauthorized));
    assert_eq!(
        permission_verdict(Err(internal("execute sql")), |_| true),
        Err(internal("execute sql"))
    );
}

#[test]
fn save_user_outcomes() {
    assert_eq!(save_user(Ok(())), Ok(()));
    assert_eq!(save_user(Err(SaveError::UniqueViolation)), Err(Error::AccountExists));
    assert_eq!(save_user(Err(SaveError::Other)), Err(internal("execute sql")));
}

#[test]
fn sign_up_rejects_bad_credentials() {
    let state = state();
    let bad_email = Credentials { email: "nope".to_owned(), password: "short".to_owned() };
    assert_eq!(
        sign_up(bad_email, &state).err(),
        Some(Error::Validation("unsupported email address"))
    );
    let bad_password = Credentials { email: "a@b.co".to_owned(), password: "short1A".to_owned() };
    assert_eq!(
        sign_up(bad_password, &state).err(),
        Some(Error::Validation("password must be at least 8 characters long"))
    );
}

#[test]
fn sign_up_then_sign_in() {
    let state = state();
    let credentials = Credentials { email: "a@b.co".to_owned(), password: "Abcdef12".to_owned() };
    let account = sign_up(credentials, &state).unwrap();
    assert_eq!(account.email.as_str(), "a@b.co");
    assert_eq!(account.name.as_str(), "");
    assert_eq!(account.role, Role::Client);
    assert!(account.refresh_secret.as_u128() != 0);
    assert_eq!(save_user(Ok(())), Ok(()));
    let row = 41;
    let stored = DbUser {
        id: row,
        password_hash: account.password_hash.clone(),
        refresh_secret: account.refresh_secret,
    };
    let credentials = Credentials { email: "a@b.co".to_owned(), password: "Abcdef12".to_owned() };
    let pair = sign_in(credentials, Some(stored), &state).unwrap();
    let id = parse_access_token(&pair.access_token, &state.jwt_config).unwrap();
    assert_eq!(id.to_string(), UserId::new(row, &state.id_cipher).to_string());
    assert_eq!(id.sql_id(&state.id_cipher), Ok(row));
    let secret = parse_refresh_token(&pair.refresh_token, &state.jwt_config).unwrap();
    assert_eq!(secret.as_u128(), account.refresh_secret.as_u128());
}

#[test]
fn sign_in_with_wrong_password_or_unknown_account() {
    let state = state();
    let password = Password::new("Abcdef12".to_owned()).unwrap();
    let hash = hash_password(&password, hasher_config()).unwrap();
    let stored = DbUser { id: 1, password_hash: hash, refresh_secret: RefreshSecret::new() };
    let wrong = Credentials { email: "a@b.co".to_owned(), password: "Abcdef13".to_owned() };
    assert_eq!(sign_in(wrong, Some(stored), &state).err(), Some(Error::InvalidCredentials));
    let unknown = Credentials { email: "x@b.co".to_owned(), password: "Abcdef12".to_owned() };
    assert_eq!(sign_in(unknown, None, &state).err(), Some(Error::InvalidCredentials));
}

#[test]
fn names_are_bounded() {
    assert!(Name::new("a".repeat(50)).is_ok());
    match Name::new("a".repeat(51)) {
        Err(e) => assert_eq!(e, Error::Validation("name is too long")),
        Ok(_) => panic!("accepted"),
    }
    assert!(Name::new("é".repeat(25)).is_ok());
    assert!(Name::new("é".repeat(26)).is_err());
    assert_eq!(Name::default().as_str(), "");
    assert_eq!(Name::new("Ann".to_owned()).unwrap().clone().as_str(), "Ann");
}

#[test]
fn accounts_are_shown_under_their_identifiers() {
    let cipher = IdCipher::new([3u8; 16]);
    let rows = vec![
        AllUser {
            id: 1,
            name: Name::new("Ann".to_owned()).unwrap(),
            email: Email::new("ann@b.co".to_owned()).unwrap(),
        },
        AllUser {
            id: 2,
            name: Name::default(),
            email: Email::new("bob@b.co".to_owned()).unwrap(),
        },
    ];
    let users = get_all_users(&rows, &cipher);
    assert_eq!(users.len(), 2);
    assert_eq!(users[0].id.sql_id(&cipher), Ok(1));
    assert_eq!(users[0].name.as_str(), "Ann");
    assert_eq!(users[1].id.sql_id(&cipher), Ok(2));
    assert_eq!(users[1].email.as_str(), "bob@b.co");
    assert!(get_all_users(&vec![], &cipher).is_empty());
}

#[test]
fn account_is_shown_or_not_found() {
    let cipher = IdCipher::new([3u8; 16]);
    let id = UserId::new(9, &cipher);
    assert_eq!(user_row(id, &cipher), Ok(9));
    assert_eq!(user_row(UserId::from_str("abc").unwrap(), &cipher), Err(Error::NotFound));
    let info = UserInfo {
        name: Name::new("Ann".to_owned()).unwrap(),
        email: Email::new("ann@b.co".to_owned()).unwrap(),
    };
    let user = get_user(id, Some(info)).unwrap();
    assert_eq!(user.id.to_string(), id.to_string());
    assert_eq!(user.name.as_str(), "Ann");
    assert_eq!(get_user(id, None).err(), Some(Error::NotFound));
}

#[test]
fn account_name_is_changed_or_refused() {
    let cipher = IdCipher::new([3u8; 16]);
    let id = UserId::new(9, &cipher);
    let info = update_user(id, UpdateUser { name: "Ann".to_owned() }, &cipher).unwrap();
    assert_eq!(info.id, 9);
    assert_eq!(info.name.as_str(), "Ann");
    assert_eq!(
        update_user(id, UpdateUser { name: "a".repeat(51) }, &cipher).err(),
        Some(Error::Validation("name is too long"))
    );
    assert_eq!(
        update_user(UserId::from_str("x").unwrap(), UpdateUser { name: "a".repeat(51) }, &cipher)
            .err(),
        Some(Error::NotFound)
    );
}

#[test]
fn hashes_of_one_password_differ_by_their_salt() {
    let password = Password::new("Abcdef12".to_owned()).unwrap();
    let one = hash_password(&password, hasher_config()).unwrap();
    let two = hash_password(&password, hasher_config()).unwrap();
    assert_ne!(one.as_str(), two.as_str());
    assert_eq!(verify_password(&"Abcdef12".to_owned(), Some(&one), hasher_config()), Ok(()));
    assert_eq!(verify_password(&"Abcdef12".to_owned(), Some(&two), hasher_config()), Ok(()));
}

#[test]
fn token_is_issued_at_the_time_of_the_clock() {
    let cipher = IdCipher::new([3u8; 16]);
    let config = jwt_config(900, 86_400);
    let before = std::time::SystemTime::now()
        .duration_since(std::time::UNIX_EPOCH)
        .unwrap()
        .as_secs();
    let token = create_access_token(UserId::new(1, &cipher), &config).unwrap();
    let mut validation = jsonwebtoken::Validation::default();
    validation.validate_exp = false;
    let data = jsonwebtoken::decode::<serde_json::Value>(
        &token,
        &jsonwebtoken::DecodingKey::from_secret("signing key".as_bytes()),
        &validation,
    )
    .unwrap();
    let iat = data.claims["iat"].as_u64().unwrap();
    let exp = data.claims["exp"].as_u64().unwrap();
    assert!(iat >= before && iat <= before + 5);
    assert_eq!(exp, iat + 900);
}

#[test]
fn refresh_secret_text_forms() {
    let config = jwt_config(900, 86_400);
    let secret = RefreshSecret::from_u128(0);
    let token = create_refresh_token_at(secret, &config, 1).unwrap();
    assert_eq!(parse_refresh_token_at(&token, &config, 1).unwrap().as_u128(), 0);
    let secret = RefreshSecret::from_u128(u128::MAX);
    let token = create_refresh_token_at(secret, &config, 1).unwrap();
    assert_eq!(parse_refresh_token_at(&token, &config, 1).unwrap().as_u128(), u128::MAX);
}

#[test]
fn stored_text_with_too_many_lanes_is_malformed() {
    let config = hasher_config();
    let hash = hash_password_with_salt("Abcdef12", "c29tZXNhbHQxMjM0NTY", &config).unwrap();
    assert!(stored_lanes_fit(hash.as_str()));
    assert!(stored_lanes_fit("not a phc string"));
    let most = PasswordHash::new(hash.as_str().replace("p=1", "p=16777215"));
    assert!(stored_lanes_fit(most.as_str()));
    assert_eq!(
        verify_password(&"Abcdef12".to_owned(), Some(&most), hasher_config()),
        Err(Error::InvalidCredentials)
    );
    for lanes in ["p=16777216", "p=536870912", "p=4294967295", "p=1,p=536870912"] {
        let text = hash.as_str().replace("p=1", lanes);
        assert!(!stored_lanes_fit(&text));
        let stored = PasswordHash::new(text);
        assert_eq!(
            verify_password(&"Abcdef12".to_owned(), Some(&stored), hasher_config()),
            Err(internal("parse password hash"))
        );
    }
    let not_a_number = PasswordHash::new(hash.as_str().replace("p=1", "p=x"));
    assert!(stored_lanes_fit(not_a_number.as_str()));
    assert_eq!(
        verify_password(&"Abcdef12".to_owned(), Some(&not_a_number), hasher_config()),
        Err(Error::InvalidCredentials)
    );
}

#[test]
fn sign_in_at_a_given_time() {
    let state = state();
    let password = Password::new("Abcdef12".to_owned()).unwrap();
    let hash = hash_password(&password, hasher_config()).unwrap();
    let secret = RefreshSecret::new();
    let stored = DbUser { id: 8, password_hash: hash.clone(), refresh_secret: secret };
    let credentials = Credentials { email: "a@b.co".to_owned(), password: "Abcdef12".to_owned() };
    let pair = sign_in_at(credentials, Some(stored), &state, 5_000).unwrap();
    let id = parse_access_token_at(&pair.access_token, &state.jwt_config, 5_000).unwrap();
    assert_eq!(id.sql_id(&state.id_cipher), Ok(8));
    assert!(parse_access_token_at(&pair.access_token, &state.jwt_config, 5_899).is_ok());
    assert!(parse_access_token_at(&pair.access_token, &state.jwt_config, 5_900).is_err());
    let back = parse_refresh_token_at(&pair.refresh_token, &state.jwt_config, 91_399).unwrap();
    assert_eq!(back.as_u128(), secret.as_u128());
    assert!(parse_refresh_token_at(&pair.refresh_token, &state.jwt_config, 91_400).is_err());
    let stored = DbUser { id: 8, password_hash: hash, refresh_secret: secret };
    let wrong = Credentials { email: "a@b.co".to_owned(), password: "Abcdef13".to_owned() };
    assert_eq!(
        sign_in_at(wrong, Some(stored), &state, 5_000).err(),
        Some(Error::InvalidCredentials)
    );
    let unknown = Credentials { email: "a@b.co".to_owned(), password: "Abcdef12".to_owned() };
    assert_eq!(sign_in_at(unknown, None, &state, 5_000).err(), Some(Error::InvalidCredentials));
}

#[test]
fn sign_in_past_the_last_second() {
    let mut state = state();
    state.jwt_config.refresh_ttl = u64::MAX;
    let password = Password::new("Abcdef12".to_owned()).unwrap();
    let hash = hash_password(&password, hasher_config()).unwrap();
    let stored =
        DbUser { id: 8, password_hash: hash.clone(), refresh_secret: RefreshSecret::new() };
    let credentials = Credentials { email: "a@b.co".to_owned(), password: "Abcdef12".to_owned() };
    assert_eq!(sign_in(credentials, Some(stored), &state).err(), Some(internal("encode jwt")));
    let stored = DbUser { id: 8, password_hash: hash, refresh_secret: RefreshSecret::new() };
    let wrong = Credentials { email: "a@b.co".to_owned(), password: "Abcdef13".to_owned() };
    assert_eq!(sign_in(wrong, Some(stored), &state).err(), Some(Error::InvalidCredentials));
}

#[test]
fn token_with_an_audience_is_refused() {
    let config = jwt_config(900, 86_400);
    let cipher = IdCipher::new([3u8; 16]);
    let id = UserId::new(1, &cipher).to_string();
    let mut claims = serde_json::Map::new();
    claims.insert("iat".to_owned(), serde_json::Value::from(10u64));
    claims.insert("exp".to_owned(), serde_json::Value::from(910u64));
    claims.insert("id".to_owned(), serde_json::Value::from(id));
    let key = jsonwebtoken::EncodingKey::from_secret("signing key".as_bytes());
    let plain = jsonwebtoken::encode(&jsonwebtoken::Header::default(), &claims, &key).unwrap();
    assert_eq!(parse_access_token_at(&plain, &config, 10).unwrap().sql_id(&cipher), Ok(1));
    claims.insert("aud".to_owned(), serde_json::Value::from("someone"));
    let aimed = jsonwebtoken::encode(&jsonwebtoken::Header::default(), &claims, &key).unwrap();
    assert_eq!(parse_access_token_at(&aimed, &config, 10).err(), Some(Error::LoggedOff));
}

#[test]
fn token_with_an_identifier_outside_the_alphabet_is_refused() {
    let config = jwt_config(900, 86_400);
    let mut claims = serde_json::Map::new();
    claims.insert("iat".to_owned(), serde_json::Value::from(10u64));
    claims.insert("exp".to_owned(), serde_json::Value::from(910u64));
    claims.insert("id".to_owned(), serde_json::Value::from("abc-def"));
    let key = jsonwebtoken::EncodingKey::from_secret("signing key".as_bytes());
    let token = jsonwebtoken::encode(&jsonwebtoken::Header::default(), &claims, &key).unwrap();
    assert_eq!(parse_access_token_at(&token, &config, 10).err(), Some(Error::LoggedOff));
    claims.insert("id".to_owned(), serde_json::Value::from(7u64));
    let token = jsonwebtoken::encode(&jsonwebtoken::Header::default(), &claims, &key).unwrap();
    assert_eq!(parse_access_token_at(&token, &config, 10).err(), Some(Error::LoggedOff));
}

#[test]
fn ascii_character_classes() {
    assert_eq!(validate_password("abcdefg{"), Err("password must contain at least one uppercase character"));
    assert_eq!(validate_password("ABCDEFG["), Err("password must contain at least one lowercase character"));
    assert_eq!(validate_password("Abcdefg/"), Err("password must contain at least one number"));
    assert_eq!(validate_password("Abcdefg:"), Err("password must contain at least one number"));
    assert_eq!(validate_password("Abcdefg0"), Ok(()));
    assert_eq!(validate_password("Abcdefg9"), Ok(()));
    assert_eq!(validate_password("@`[{zZ09"), Ok(()));
    for c in 0u8..128 {
        let c = c as char;
        let address = format!("{c}@b.co");
        let allowed = c.is_ascii_alphanumeric() || c == '.' || c == '-' || c == '_';
        assert_eq!(validate_email(&address), allowed);
    }
}

#[test]
fn logs_show_nothing_of_secrets() {
    let hash = PasswordHash::new("$argon2id$v=19$m=8,t=1,p=1$salt$hash".to_owned());
    assert_eq!(hash.debug(), "PasswordHash(...)");
    assert_eq!(PasswordHash::new(String::new()).debug(), "PasswordHash(...)");
    assert_eq!(RefreshSecret::new().debug(), "RefreshSecret()");
    assert_eq!(RefreshSecret::from_u128(7).debug(), "RefreshSecret()");
}

#[test]
fn hashing_succeeds_on_what_argon2_takes() {
    for length in [None, Some(10), Some(32), Some(64)] {
        let mut config = hasher_config();
        config.params.output_length = length;
        let hash = hash_password_with_salt("Abcdef12", "c29tZXNhbHQ", &config).unwrap();
        assert_eq!(verify_password(&"Abcdef12".to_owned(), Some(&hash), config), Ok(()));
    }
    for length in [Some(4), Some(9), Some(65), Some(1000)] {
        let mut config = hasher_config();
        config.params.output_length = length;
        assert_eq!(
            hash_password_with_salt("Abcdef12", "c29tZXNhbHQ", &config).err(),
            Some(internal("hash password"))
        );
    }
    let config = hasher_config();
    let longest = "QUJD".repeat(16);
    assert_eq!(longest.len(), 64);
    assert!(hash_password_with_salt("Abcdef12", &longest, &config).is_ok());
    assert!(hash_password_with_salt("", "c29tZXNhbHQ", &config).is_ok());
    for salt in ["c29tZXNhbA", "", "abc", "c29tZXNhbHQ=", "c29t.XNhbHQ", &"QUJD".repeat(17)] {
        assert_eq!(
            hash_password_with_salt("Abcdef12", salt, &config).err(),
            Some(internal("hash password"))
        );
    }
}

#[test]
fn fresh_salts_are_sixteen_bytes_of_b64() {
    let password = Password::new("Abcdef12".to_owned()).unwrap();
    for _ in 0..8 {
        let hash = hash_password(&password, hasher_config()).unwrap();
        let parts: Vec<&str> = hash.as_str().split('$').collect();
        assert_eq!(parts.len(), 6);
        assert_eq!(parts[4].len(), 22);
        assert!(parts[4].chars().all(|c| c.is_ascii_alphanumeric() || c == '+' || c == '/'));
    }
}
