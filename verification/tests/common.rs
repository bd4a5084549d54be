use auth_core::common::{ErrorResponse, Page, ResponseBody};
use auth_core::config::Config;
use auth_core::constants;
use auth_core::modules::auth::controller;
use auth_core::modules::auth::controller::LoginReply;
use auth_core::modules::auth::dto::LoginResponse;
use auth_core::text::{chars_of, same_text, starts_with, trim_bounds, white_space};

#[test]
fn response_body_keeps_its_parts() {
    let body = ResponseBody::new("done", 7, true);
    assert_eq!(body, ResponseBody { success: true, message: "done".to_string(), data: 7 });
    let body = ResponseBody::new(
        constants::EMPTY_STR,
        LoginResponse { access_token: "a.b.c".to_string() },
        true,
    );
    assert_eq!(body.message, "");
    assert_eq!(body.data.access_token, "a.b.c");
    let body = ResponseBody::new("no", constants::EMPTY_STR, false);
    assert!(!body.success);
    assert_eq!(body.data, "");
}

#[test]
fn page_keeps_its_parts() {
    let page = Page::new("users", vec![1, 2, 3], constants::DEFAULT_PAGE_NUM, constants::DEFAULT_PER_PAGE, 3);
    assert_eq!(
        page,
        Page {
            message: "users".to_string(),
            data: vec![1, 2, 3],
            page_num: 1,
            page_size: 10,
            total_elements: 3,
        }
    );
    let empty: Page<String> = Page::new("", Vec::new(), 0, 0, 0);
    assert!(empty.data.is_empty());
}

#[test]
fn errors_have_their_status_and_message() {
    assert_eq!(
        ErrorResponse::unauthorized(),
        ErrorResponse { status: "401".to_string(), message: "Unauthorize".to_string() }
    );
    assert_eq!(
        ErrorResponse::invalid_token(),
        ErrorResponse {
            status: "401".to_string(),
            message: "Invalid token, please login again".to_string(),
        }
    );
    assert_eq!(
        ErrorResponse::conflict(),
        ErrorResponse { status: "400".to_string(), message: "User exist".to_string() }
    );
    assert_eq!(
        ErrorResponse::internal("store is down".to_string()),
        ErrorResponse { status: "500".to_string(), message: "store is down".to_string() }
    );
}

#[test]
fn config_needs_a_positive_lifetime() {
    let config = Config::new(
        "mongodb://localhost".to_string(),
        "test_rust_1".to_string(),
        "secret".to_string(),
        "60m".to_string(),
        60,
    )
    .unwrap();
    assert_eq!(config.mongodb_db_name.as_str(), "test_rust_1");
    assert_eq!(config.jwt_secret, "secret");
    assert_eq!(config.jwt_max_age, 60);
    for lifetime in [0, -1, i32::MIN] {
        assert!(Config::new(String::new(), String::new(), String::new(), String::new(), lifetime)
            .is_none());
    }
    assert!(Config::new(String::new(), String::new(), String::new(), String::new(), 1).is_some());
}

#[test]
fn chars_are_those_of_the_string() {
    assert_eq!(chars_of("a\u{e9}\u{1f600}"), vec!['a', '\u{e9}', '\u{1f600}']);
    assert_eq!(chars_of(""), Vec::<char>::new());
}

#[test]
fn prefixes_and_equal_texts() {
    let text = chars_of("/api/ping/x");
    assert!(starts_with(&text, &chars_of("/api/ping")));
    assert!(starts_with(&text, &chars_of("")));
    assert!(starts_with(&text, &text));
    assert!(!starts_with(&text, &chars_of("/api/pong")));
    assert!(!starts_with(&chars_of("/api"), &text));
    assert!(same_text(&text, &chars_of("/api/ping/x")));
    assert!(!same_text(&text, &chars_of("/api/ping/y")));
    assert!(!same_text(&text, &chars_of("/api/ping")));
    assert!(same_text(&chars_of(""), &chars_of("")));
}

#[test]
fn white_space_is_what_trim_removes() {
    for code in 0..=0x3100u32 {
        if let Some(c) = char::from_u32(code) {
            assert_eq!(white_space(c), c.is_whitespace(), "U+{:04X}", code);
        }
    }
    assert!(!white_space('\u{feff}'));
    assert!(!white_space('\u{10ffff}'));
}

#[test]
fn trim_bounds_are_those_of_trim() {
    for (text, from) in [("  ab c \t", 0), ("xx  ab", 2), ("   ", 0), ("", 0), ("ab", 2), ("a b", 1), ("\u{a0}\u{e9} ", 0)] {
        let chars = chars_of(text);
        let (start, end) = trim_bounds(&chars, from);
        let kept: String = chars[start..end].iter().collect();
        let rest: String = chars[from..].iter().collect();
        assert_eq!(kept, rest.trim(), "{:?} from {}", text, from);
        assert!(from <= start && start <= end && end <= chars.len());
    }
    assert_eq!(trim_bounds(&chars_of("  ab c \t"), 0), (2, 6));
    assert_eq!(trim_bounds(&chars_of("   "), 0), (3, 3));
}

#[test]
fn login_reply_carries_the_token_or_the_error() {
    assert_eq!(
        controller::login(Ok("a.b.c".to_string())),
        LoginReply::Granted {
            body: ResponseBody {
                success: true,
                message: String::new(),
                data: LoginResponse { access_token: "a.b.c".to_string() },
            },
        }
    );
    assert_eq!(
        controller::login(Err(ErrorResponse::unauthorized())),
        LoginReply::Refused {
            status: "401".to_string(),
            body: ResponseBody {
                success: false,
                message: "Unauthorize".to_string(),
                data: String::new(),
            },
        }
    );
}

#[test]
fn create_reply_carries_the_id_or_the_message() {
    assert_eq!(
        controller::create(Ok("000000000000000000000001".to_string())),
        ResponseBody {
            success: true,
            message: String::new(),
            data: "000000000000000000000001".to_string(),
        }
    );
    assert_eq!(
        controller::create(Err(ErrorResponse::conflict())),
        ResponseBody { success: false, message: "User exist".to_string(), data: String::new() }
    );
}
