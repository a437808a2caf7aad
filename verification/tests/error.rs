use rust_canvas_mcp::{CanvasError, ErrorKind};

fn text(s: &str) -> String {
    s.to_string()
}

#[test]
fn constructors_make_their_variants() {
    assert_eq!(CanvasError::config(text("c")), CanvasError::Config(text("c")));
    assert_eq!(
        CanvasError::api(418, text("teapot")),
        CanvasError::Api {
            status: 418,
            message: text("teapot")
        }
    );
    assert_eq!(CanvasError::not_found(text("n")), CanvasError::NotFound(text("n")));
    assert_eq!(CanvasError::auth(text("a")), CanvasError::Auth(text("a")));
    assert_eq!(CanvasError::internal(text("i")), CanvasError::Internal(text("i")));
}

#[test]
fn status_401_is_auth() {
    assert_eq!(
        CanvasError::from_status(401, text("who are you")),
        CanvasError::Auth(text("who are you"))
    );
}

#[test]
fn status_403_is_auth_and_says_forbidden() {
    assert_eq!(
        CanvasError::from_status(403, text("not yours")),
        CanvasError::Auth(text("Forbidden: not yours"))
    );
}

#[test]
fn status_404_is_not_found() {
    assert_eq!(
        CanvasError::from_status(404, text("no such course")),
        CanvasError::NotFound(text("no such course"))
    );
}

#[test]
fn status_429_is_rate_limit() {
    assert_eq!(
        CanvasError::from_status(429, text("slow down")),
        CanvasError::RateLimit(text("Rate limit exceeded: slow down"))
    );
}

#[test]
fn every_other_status_is_api_with_that_status() {
    for status in 0..=u16::MAX {
        if status == 401 || status == 403 || status == 404 || status == 429 {
            continue;
        }
        let error = CanvasError::from_status(status, text("m"));
        assert_eq!(
            error,
            CanvasError::Api {
                status,
                message: text("m")
            }
        );
        assert_eq!(error.kind(), ErrorKind::Api);
        assert_eq!(error.status(), Some(status));
    }
}

#[test]
fn getters_read_each_variant() {
    let all = [
        (CanvasError::Config(text("1")), ErrorKind::Config, "1"),
        (CanvasError::Http(text("2")), ErrorKind::Http, "2"),
        (CanvasError::Json(text("3")), ErrorKind::Json, "3"),
        (CanvasError::NotFound(text("5")), ErrorKind::NotFound, "5"),
        (CanvasError::Auth(text("6")), ErrorKind::Auth, "6"),
        (CanvasError::RateLimit(text("7")), ErrorKind::RateLimit, "7"),
        (
            CanvasError::InvalidParameter(text("8")),
            ErrorKind::InvalidParameter,
            "8",
        ),
        (CanvasError::Internal(text("9")), ErrorKind::Internal, "9"),
    ];
    for (error, kind, message) in all {
        assert_eq!(error.kind(), kind);
        assert_eq!(error.message(), message);
        assert_eq!(error.status(), None);
    }
    let api = CanvasError::api(500, text("4"));
    assert_eq!(api.kind(), ErrorKind::Api);
    assert_eq!(api.message(), "4");
    assert_eq!(api.status(), Some(500));
}

#[test]
fn describe_writes_each_kind_out() {
    assert_eq!(
        CanvasError::Config(text("no token")).describe(),
        "Configuration error: no token"
    );
    assert_eq!(
        CanvasError::Http(text("timed out")).describe(),
        "HTTP request failed: timed out"
    );
    assert_eq!(
        CanvasError::Json(text("eof")).describe(),
        "JSON parsing error: eof"
    );
    assert_eq!(
        CanvasError::api(500, text("boom")).describe(),
        "Canvas API error: 500 - boom"
    );
    assert_eq!(
        CanvasError::NotFound(text("course 7")).describe(),
        "Resource not found: course 7"
    );
    assert_eq!(
        CanvasError::Auth(text("bad token")).describe(),
        "Authentication failed: bad token"
    );
    assert_eq!(
        CanvasError::RateLimit(text("wait")).describe(),
        "Rate limit exceeded: wait"
    );
    assert_eq!(
        CanvasError::InvalidParameter(text("id")).describe(),
        "Invalid parameter: id"
    );
    assert_eq!(
        CanvasError::Internal(text("bug")).describe(),
        "Internal error: bug"
    );
}

#[test]
fn describe_writes_the_status_in_base_ten() {
    assert_eq!(CanvasError::api(0, text("")).describe(), "Canvas API error: 0 - ");
    assert_eq!(
        CanvasError::api(65535, text("x")).describe(),
        "Canvas API error: 65535 - x"
    );
}

#[test]
fn a_rate_limit_from_a_status_names_the_limit_twice_when_written_out() {
    assert_eq!(
        CanvasError::from_status(429, text("retry later")).describe(),
        "Rate limit exceeded: Rate limit exceeded: retry later"
    );
}
