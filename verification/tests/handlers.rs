use chat_relay::actors::session::SessionState;
use chat_relay::handlers::auth_handler::{
    format_otp, generate_otp, otp_hashed, send_otp, verify_otp, IssuedOtp, VerifyOtp,
    VerifyOtpAction, VerifyOtpEvent, VerifyOtpReply, VerifyOtpState, MAX_OTP,
};
use chat_relay::handlers::media_handler::{key_for_upload, new_upload_key, UPLOAD_URL_LIFETIME};
use chat_relay::handlers::qr_auth_handler::{
    poll_qr_session, scan_qr_session, PollReply, QrRecord, QrSessionStatus, ScanReply,
};
use chat_relay::handlers::ws_handler::{open_session, token_from_query, ws_connect, Handshake};
use chat_relay::models::{
    AuthResponse, Claims, SendOtpRequest, StoreError, User, VerifyOtpRequest,
};
use chat_relay::utils::auth_middleware::{JwtAuth, Verdict};
use chat_relay::utils::jwt::TOKEN_LIFETIME;
use chat_relay::text::{chars_of, digit, position_of, push_digits, starts_with_at};

const USER: u128 = 0x67e55044_10b1_426f_9247_bb680e5fe0c8;
const USER_TEXT: &str = "67e55044-10b1-426f-9247-bb680e5fe0c8";

fn failure() -> StoreError {
    StoreError { reason: "store is down".to_string() }
}

fn login(otp: &str) -> VerifyOtp {
    let (login, first) = verify_otp(VerifyOtpRequest {
        phone_number: "+15550100".to_string(),
        otp: otp.to_string(),
    });
    assert_eq!(first, VerifyOtpAction::FindOtp);
    login
}

#[test]
fn query_token_is_found_among_the_pieces() {
    assert_eq!(token_from_query("token=abc"), "abc");
    assert_eq!(token_from_query("a=1&token=abc&b=2"), "abc");
    assert_eq!(token_from_query("a=1&b=2&token=xyz"), "xyz");
    assert_eq!(token_from_query("token=first&token=second"), "first");
    assert_eq!(token_from_query("token=héllo&x=1"), "héllo");
}

#[test]
fn query_token_ends_at_the_next_equals_sign() {
    assert_eq!(token_from_query("token=abc=def"), "abc");
    assert_eq!(token_from_query("token=abc=def&x=1"), "abc");
    assert_eq!(token_from_query("token=="), "");
    assert_eq!(token_from_query("x=1&token=a.b.c=&y=token=z"), "a.b.c");
}

#[test]
fn query_without_a_token_piece_gives_the_empty_token() {
    assert_eq!(token_from_query(""), "");
    assert_eq!(token_from_query("token"), "");
    assert_eq!(token_from_query("token="), "");
    assert_eq!(token_from_query("token=&x=1"), "");
    assert_eq!(token_from_query("a=1&b=2"), "");
    assert_eq!(token_from_query("xtoken=abc"), "");
    assert_eq!(token_from_query("Token=abc"), "");
    assert_eq!(token_from_query("a=token=abc"), "");
    assert_eq!(token_from_query("&&&"), "");
    assert_eq!(token_from_query("&&token=abc"), "abc");
}

#[test]
fn query_token_agrees_with_splitting_by_hand() {
    let queries = [
        "token=abc",
        "a&token=b=c&token=d",
        "tok&en=1&token=zz&",
        "token=a&token=b",
        "=token=&token==x",
        "é=ü&token=ñ=1",
    ];
    for query in queries {
        let expected = query
            .split('&')
            .find(|piece| piece.starts_with("token="))
            .map(|piece| piece.split('=').nth(1).unwrap_or(""))
            .unwrap_or("");
        assert_eq!(token_from_query(query), expected, "{}", query);
    }
}

#[test]
fn text_tools_find_characters_and_prefixes() {
    let chars = chars_of("a=b&c=d");
    assert_eq!(chars, vec!['a', '=', 'b', '&', 'c', '=', 'd']);
    assert_eq!(position_of(&chars, '=', 0), 1);
    assert_eq!(position_of(&chars, '=', 1), 1);
    assert_eq!(position_of(&chars, '=', 2), 5);
    assert_eq!(position_of(&chars, '=', 6), 7);
    assert_eq!(position_of(&chars, '#', 0), 7);
    assert_eq!(position_of(&chars, 'a', 7), 7);
    assert!(starts_with_at(&chars, 4, &chars_of("c=")));
    assert!(starts_with_at(&chars, 7, &chars_of("")));
    assert!(!starts_with_at(&chars, 4, &chars_of("c=de")));
    assert!(!starts_with_at(&chars, 8, &chars_of("")));
    assert!(!starts_with_at(&chars, usize::MAX, &chars_of("a")));
    assert_eq!(chars_of("é!"), vec!['é', '!']);
}

#[test]
fn digits_are_written_most_significant_first() {
    assert_eq!(digit(0), '0');
    assert_eq!(digit(9), '9');
    assert_eq!(digit(10), 'a');
    assert_eq!(digit(15), 'f');

    let mut out = "x".to_string();
    push_digits(&mut out, 0x1a2b, 6, 16);
    assert_eq!(out, "x001a2b");
    push_digits(&mut out, 1234, 2, 10);
    assert_eq!(out, "x001a2b34");
    push_digits(&mut out, 5, 0, 10);
    assert_eq!(out, "x001a2b34");
    push_digits(&mut out, 5, 3, 2);
    assert_eq!(out, "x001a2b34101");

    let mut wide = String::new();
    push_digits(&mut wide, u128::MAX, 40, 10);
    assert_eq!(wide, format!("{:040}", u128::MAX));
    let mut hex = String::new();
    push_digits(&mut hex, u128::MAX - 1, 32, 16);
    assert_eq!(hex, format!("{:032x}", u128::MAX - 1));
}

#[test]
fn bearer_token_follows_the_scheme() {
    assert_eq!(JwtAuth::bearer_token("Bearer abc.def.ghi"), Some("abc.def.ghi"));
    assert_eq!(JwtAuth::bearer_token("Bearer "), Some(""));
    assert_eq!(JwtAuth::bearer_token("Bearer  two"), Some(" two"));
    assert_eq!(JwtAuth::bearer_token("Bearer é"), Some("é"));
}

#[test]
fn other_headers_carry_no_bearer_token() {
    assert_eq!(JwtAuth::bearer_token(""), None);
    assert_eq!(JwtAuth::bearer_token("Bearer"), None);
    assert_eq!(JwtAuth::bearer_token("bearer abc"), None);
    assert_eq!(JwtAuth::bearer_token("Basic abc"), None);
    assert_eq!(JwtAuth::bearer_token(" Bearer abc"), None);
    assert_eq!(JwtAuth::bearer_token("Bearer\tabc"), None);
}

#[test]
fn guard_forwards_with_claims_and_rejects_without() {
    let claims = Claims { sub: USER_TEXT.to_string(), exp: 10 };
    assert_eq!(
        JwtAuth::decide(Some(claims)),
        Verdict::Forward(Claims { sub: USER_TEXT.to_string(), exp: 10 })
    );
    assert_eq!(JwtAuth::decide(None), Verdict::Unauthorized);
    assert_eq!(JwtAuth::REJECTION, "Invalid or missing token");
}

#[test]
fn claims_expire_seventy_two_hours_after_issue() {
    assert_eq!(TOKEN_LIFETIME, 72 * 60 * 60);
    assert_eq!(
        Claims::issue(USER_TEXT, 1_700_000_000),
        Some(Claims { sub: USER_TEXT.to_string(), exp: 1_700_259_200 })
    );
    assert_eq!(Claims::issue("", 0), Some(Claims { sub: String::new(), exp: 259_200 }));
    assert_eq!(
        Claims::issue("x", -259_200),
        Some(Claims { sub: "x".to_string(), exp: 0 })
    );
    assert_eq!(Claims::issue("x", -259_201), None);
    assert_eq!(Claims::issue("x", i64::MIN), None);
}

#[test]
fn claims_name_the_user_of_their_subject() {
    assert_eq!(Claims { sub: USER_TEXT.to_string(), exp: 0 }.user_id(), Some(USER));
    assert_eq!(Claims { sub: "someone".to_string(), exp: 0 }.user_id(), None);
    assert_eq!(Claims { sub: String::new(), exp: 0 }.user_id(), None);
}

#[test]
fn connection_opens_for_claims_that_name_a_user() {
    let handshake = ws_connect(Some(Claims { sub: USER_TEXT.to_string(), exp: 0 }), 42);
    match handshake {
        Handshake::Accepted(session) => {
            assert_eq!(session.user_id(), USER);
            assert_eq!(session.last_seen(), 42);
            assert_eq!(session.state(), SessionState::Connecting);
        }
        other => panic!("unexpected {:?}", other),
    }
    assert_eq!(ws_connect(None, 42), Handshake::Unauthorized);
    assert_eq!(
        ws_connect(Some(Claims { sub: "nobody".to_string(), exp: 0 }), 42),
        Handshake::BadSubject
    );
    assert_eq!(open_session(None, 1), Handshake::BadSubject);
    assert!(matches!(open_session(Some(7), 1), Handshake::Accepted(_)));
}

#[test]
fn otp_is_six_digits_with_leading_zeros() {
    assert_eq!(MAX_OTP, 999_999);
    assert_eq!(format_otp(0), "000000");
    assert_eq!(format_otp(7), "000007");
    assert_eq!(format_otp(42), "000042");
    assert_eq!(format_otp(123_456), "123456");
    assert_eq!(format_otp(999_999), "999999");
    assert_eq!(format_otp(100_000), "100000");
    assert_eq!(format_otp(90_909), "090909");
    for number in [0u32, 5, 99, 1_000, 54_321, 999_999] {
        assert_eq!(format_otp(number), format!("{:06}", number));
    }
    assert_eq!(format_otp(1_000_000), "000000");
    assert_eq!(format_otp(u32::MAX), "967295");
}

#[test]
fn generated_otps_are_six_digits() {
    for _ in 0..50 {
        let otp = generate_otp();
        assert_eq!(otp.len(), 6);
        assert!(otp.chars().all(|c| c.is_ascii_digit()));
    }
}

#[test]
fn generated_otps_differ() {
    let drawn: Vec<String> = (0..40).map(|_| generate_otp()).collect();
    assert!(drawn.iter().any(|otp| otp != &drawn[0]));
    assert!(drawn.iter().any(|otp| otp != "999999"));
}

#[test]
fn a_fresh_login_awaits_the_hash() {
    let fresh = VerifyOtp::new(VerifyOtpRequest {
        phone_number: "+15550111".to_string(),
        otp: "000000".to_string(),
    });
    assert_eq!(fresh.current_state(), VerifyOtpState::AwaitingOtp);
    assert_eq!(fresh.request().phone_number, "+15550111");
    assert_eq!(fresh.request().otp, "000000");
}

#[test]
fn issued_otp_passes_its_own_hash_and_no_other_does() {
    let issued = send_otp(SendOtpRequest { phone_number: "+15550100".to_string() }).unwrap();
    assert_eq!(issued.phone_number, "+15550100");
    assert_eq!(issued.otp.len(), 6);
    assert!(issued.otp.chars().all(|c| c.is_ascii_digit()));
    assert!(bcrypt::verify(&issued.otp, &issued.otp_hash).unwrap());
    assert_ne!(issued.otp_hash, issued.otp);

    let mut right = login(&issued.otp);
    assert_eq!(
        right.step(VerifyOtpEvent::Otp(Ok(Some(issued.otp_hash.clone())))),
        VerifyOtpAction::FindUser
    );
    assert_eq!(right.current_state(), VerifyOtpState::AwaitingUser);

    let other = if issued.otp == "000000" { "000001" } else { "000000" };
    let mut wrong = login(other);
    assert_eq!(
        wrong.step(VerifyOtpEvent::Otp(Ok(Some(issued.otp_hash)))),
        VerifyOtpAction::Reply(VerifyOtpReply::InvalidOtp)
    );
    assert_eq!(wrong.current_state(), VerifyOtpState::Done);
}

#[test]
fn otp_is_issued_only_with_a_hash() {
    let request = SendOtpRequest { phone_number: "+15550100".to_string() };
    assert_eq!(
        otp_hashed(request, "004217".to_string(), Some("$2b$12$stored".to_string())),
        Some(IssuedOtp {
            phone_number: "+15550100".to_string(),
            otp: "004217".to_string(),
            otp_hash: "$2b$12$stored".to_string(),
        })
    );
    let request = SendOtpRequest { phone_number: "+15550100".to_string() };
    assert_eq!(otp_hashed(request, "004217".to_string(), None), None);
}

#[test]
fn every_issued_otp_is_accepted_by_its_hash() {
    for n in 0..3 {
        let phone_number = format!("+1555010{}", n);
        let issued = send_otp(SendOtpRequest { phone_number: phone_number.clone() }).unwrap();
        assert_eq!(issued.phone_number, phone_number);
        assert_eq!(bcrypt::verify(&issued.otp, &issued.otp_hash).ok(), Some(true));
        assert!(issued.otp_hash.starts_with("$2b$12$"));
    }
}

#[test]
fn login_with_an_unreadable_hash_is_an_invalid_otp() {
    let mut attempt = login("123456");
    assert_eq!(
        attempt.step(VerifyOtpEvent::Otp(Ok(Some("123456".to_string())))),
        VerifyOtpAction::Reply(VerifyOtpReply::InvalidOtp)
    );
}

#[test]
fn login_without_a_record_is_not_found() {
    let mut missing = login("123456");
    assert_eq!(
        missing.step(VerifyOtpEvent::Otp(Ok(None))),
        VerifyOtpAction::Reply(VerifyOtpReply::NotFound)
    );
    assert_eq!(missing.current_state(), VerifyOtpState::Done);
    let mut broken = login("123456");
    assert_eq!(
        broken.step(VerifyOtpEvent::Otp(Err(failure()))),
        VerifyOtpAction::Reply(VerifyOtpReply::NotFound)
    );
}

#[test]
fn otp_check_decides_how_the_login_goes_on() {
    assert_eq!(
        VerifyOtp::otp_checked(Some(true)),
        (VerifyOtpState::AwaitingUser, VerifyOtpAction::FindUser)
    );
    assert_eq!(
        VerifyOtp::otp_checked(Some(false)),
        (VerifyOtpState::Done, VerifyOtpAction::Reply(VerifyOtpReply::InvalidOtp))
    );
    assert_eq!(
        VerifyOtp::otp_checked(None),
        (VerifyOtpState::Done, VerifyOtpAction::Reply(VerifyOtpReply::InvalidOtp))
    );
}

fn accepted_login() -> VerifyOtp {
    let hash = bcrypt::hash("123456", 4).unwrap();
    let mut attempt = login("123456");
    assert_eq!(attempt.request().phone_number, "+15550100");
    assert_eq!(attempt.request().otp, "123456");
    assert_eq!(attempt.current_state(), VerifyOtpState::AwaitingOtp);
    assert_eq!(attempt.step(VerifyOtpEvent::Otp(Ok(Some(hash)))), VerifyOtpAction::FindUser);
    attempt
}

#[test]
fn login_of_a_known_user_ends_with_a_token() {
    let mut attempt = accepted_login();
    let user = User { id: USER, phone_number: "+15550100".to_string(), name: None };
    assert_eq!(attempt.step(VerifyOtpEvent::User(Ok(Some(user)))), VerifyOtpAction::RemoveOtp);
    assert_eq!(attempt.current_state(), VerifyOtpState::AwaitingRemoval { user_id: USER });
    assert_eq!(
        attempt.step(VerifyOtpEvent::Removed),
        VerifyOtpAction::IssueToken { user_id: USER }
    );
    assert_eq!(
        attempt.step(VerifyOtpEvent::Token("signed".to_string())),
        VerifyOtpAction::Reply(VerifyOtpReply::Authenticated(AuthResponse {
            token: "signed".to_string(),
            user_id: USER_TEXT.to_string()
        }))
    );
    assert_eq!(attempt.current_state(), VerifyOtpState::Done);
    assert_eq!(attempt.request().phone_number, "+15550100");
}

#[test]
fn login_of_a_new_user_makes_the_user_first() {
    let mut attempt = accepted_login();
    assert_eq!(attempt.step(VerifyOtpEvent::User(Ok(None))), VerifyOtpAction::CreateUser);
    assert_eq!(attempt.current_state(), VerifyOtpState::AwaitingNewUser);
    assert_eq!(attempt.step(VerifyOtpEvent::NewUser(9)), VerifyOtpAction::RemoveOtp);
    assert_eq!(
        attempt.step(VerifyOtpEvent::Removed),
        VerifyOtpAction::IssueToken { user_id: 9 }
    );
    assert_eq!(
        attempt.step(VerifyOtpEvent::Token("t".to_string())),
        VerifyOtpAction::Reply(VerifyOtpReply::Authenticated(AuthResponse {
            token: "t".to_string(),
            user_id: "00000000-0000-0000-0000-000000000009".to_string()
        }))
    );
}

#[test]
fn login_fails_when_the_user_store_fails() {
    let mut attempt = accepted_login();
    assert_eq!(
        attempt.step(VerifyOtpEvent::User(Err(failure()))),
        VerifyOtpAction::Reply(VerifyOtpReply::Failed)
    );
    assert_eq!(attempt.current_state(), VerifyOtpState::Done);
}

#[test]
fn an_answer_out_of_turn_fails_the_login() {
    let mut early = login("123456");
    assert_eq!(
        early.step(VerifyOtpEvent::Token("t".to_string())),
        VerifyOtpAction::Reply(VerifyOtpReply::Failed)
    );
    assert_eq!(early.current_state(), VerifyOtpState::Done);
    assert_eq!(
        early.step(VerifyOtpEvent::Otp(Ok(None))),
        VerifyOtpAction::Reply(VerifyOtpReply::Failed)
    );

    let mut attempt = accepted_login();
    assert_eq!(
        attempt.step(VerifyOtpEvent::Removed),
        VerifyOtpAction::Reply(VerifyOtpReply::Failed)
    );
    let mut late = accepted_login();
    late.step(VerifyOtpEvent::User(Ok(None)));
    assert_eq!(
        late.step(VerifyOtpEvent::User(Ok(None))),
        VerifyOtpAction::Reply(VerifyOtpReply::Failed)
    );
}

#[test]
fn poll_reports_the_token_once_the_code_is_scanned() {
    let scanned =
        QrRecord { status: QrSessionStatus::Scanned, jwt: Some("signed".to_string()) };
    assert_eq!(poll_qr_session(Ok(Some(scanned))), PollReply::Token(Some("signed".to_string())));
    let authenticated = QrRecord { status: QrSessionStatus::Authenticated, jwt: None };
    assert_eq!(poll_qr_session(Ok(Some(authenticated))), PollReply::Token(None));
    let pending = QrRecord { status: QrSessionStatus::Pending, jwt: Some("early".to_string()) };
    assert_eq!(poll_qr_session(Ok(Some(pending))), PollReply::Pending);
    assert_eq!(poll_qr_session(Ok(None)), PollReply::NotFound);
    assert_eq!(poll_qr_session(Err(failure())), PollReply::Failed);
}

#[test]
fn scan_is_confirmed_only_when_a_login_was_marked() {
    assert_eq!(scan_qr_session(Ok(1)), ScanReply::Scanned);
    assert_eq!(scan_qr_session(Ok(u64::MAX)), ScanReply::Scanned);
    assert_eq!(scan_qr_session(Ok(0)), ScanReply::NotFound);
    assert_eq!(scan_qr_session(Err(failure())), ScanReply::Failed);
}

#[test]
fn upload_keys_are_jpegs_under_uploads() {
    assert_eq!(UPLOAD_URL_LIFETIME, 300);
    assert_eq!(key_for_upload(USER), format!("uploads/{}.jpg", USER_TEXT));
    assert_eq!(key_for_upload(0), "uploads/00000000-0000-0000-0000-000000000000.jpg");
    let first = new_upload_key();
    let second = new_upload_key();
    assert_ne!(first, second);
    for key in [first, second] {
        assert!(key.starts_with("uploads/"));
        assert!(key.ends_with(".jpg"));
        let id = &key["uploads/".len()..key.len() - ".jpg".len()];
        assert_eq!(uuid::Uuid::parse_str(id).unwrap().hyphenated().to_string(), id);
    }
}
