use taqui::{Code, Details, Entry, Error, Keys};

#[test]
fn codes_statuses_and_messages() {
    assert_eq!(Code::RateLimited.code(), 3000);
    assert_eq!(Code::RateLimited.status_code(), 429);
    assert_eq!(Code::RateLimited.message(), "you are being rate limited");
    assert_eq!(Code::UnknownMessage.code(), 5006);
    assert_eq!(Code::UnknownMessage.status_code(), 404);
    assert_eq!(Code::UserAlreadyExists.status_code(), 409);
    assert_eq!(Code::Validation.status_code(), 422);
    assert_eq!(Code::InvalidCredentials.code(), 6002);
    assert_eq!(Code::InvalidCredentials.status_code(), 401);
    assert_eq!(Code::Internal.status_code(), 500);
}

#[test]
fn errors_carry_code_and_details() {
    let e = Error::of(Code::UnknownGroup);
    assert_eq!(e.code, Code::UnknownGroup);
    assert!(matches!(e.details, Details::Message("unknown group")));
    let s = Error::new_static("custom", Code::Internal);
    assert!(matches!(s.details, Details::Message("custom")));
    let v = Error::validation(vec![Entry { path: "name".to_string(), message: "too short".to_string() }]);
    assert_eq!(v.code, Code::Validation);
    match v.details {
        Details::Report(entries) => assert_eq!(entries[0].message, "too short"),
        Details::Message(_) => panic!("a validation error lists its checks"),
    }
}

#[test]
fn keys_hand_back_their_bytes() {
    let keys = Keys::new(vec![1, 2, 3], vec![9]);
    assert_eq!(keys.public_key(), &[1, 2, 3]);
    assert_eq!(keys.private_key(), &[9]);
}
