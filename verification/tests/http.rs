use xid::http::{avatar_route, build_202, build_404, http_request, HttpRequest, NOT_FOUND_PAGE};
use xid::profile::upload_avatar;
use xid::types::{Avatar, State};

fn request(url: &str) -> HttpRequest {
    HttpRequest {
        method: "GET".to_string(),
        url: url.to_string(),
        headers: Vec::new(),
        body: Vec::new(),
    }
}

fn pair(name: &str, value: &str) -> (String, String) {
    (name.to_string(), value.to_string())
}

#[test]
fn avatar_route_has_three_pieces_and_avatar_in_the_middle() {
    for url in ["/avatar/x", "/avatar/x/", "/avatar/me.png", "a/avatar/b", "/avatar//", "/avatar/é"] {
        assert!(avatar_route(url.as_bytes()), "{:?}", url);
        let pieces: Vec<&str> = url.split_terminator("/").collect();
        assert!(pieces.len() == 3 && pieces[1] == "avatar");
    }
}

#[test]
fn other_addresses_are_not_the_avatar_route() {
    for url in [
        "", "/", "//", "///", "avatar", "/avatar", "/avatar/", "avatar/x", "/avatar/x/y",
        "/avatar/x//", "/Avatar/x", "/avatars/x", "/avata/x", "/x/avatar", "/ avatar/x", "//avatar/x",
        "/avatar",
    ] {
        assert!(!avatar_route(url.as_bytes()), "{:?}", url);
        let pieces: Vec<&str> = url.split_terminator("/").collect();
        assert!(!(pieces.len() == 3 && pieces[1] == "avatar"));
    }
}

#[test]
fn image_answer_carries_type_and_caching_rule() {
    let response = build_202(vec![1, 2, 3], "image/png".to_string());
    assert_eq!(response.status_code, 200);
    assert_eq!(
        response.headers,
        vec![
            pair("Content-Type", "image/png;charset=utf-8"),
            pair("Cache-Control", "max-age=680400"),
        ]
    );
    assert_eq!(response.body, vec![1, 2, 3]);
}

#[test]
fn not_found_answer_is_the_fixed_page() {
    let response = build_404();
    assert_eq!(response.status_code, 404);
    assert_eq!(response.headers, vec![pair("Content-Type", "text/html")]);
    assert_eq!(response.body, NOT_FOUND_PAGE.as_bytes());
    let expected = String::from("<html> <head> <meta charset=")
        + "UTF-8> <link href='//fonts.googleapis.com/css?family=Lato:100' \
            rel='stylesheet' type='text/css'> <style> body { margin: 0; padding: 0; \
            width: 100%; height: 100%; color: #B0BEC5; display: table; font-weight: 100; font-family: 'Lato'; } \
            .container { text-align: center; display: table-cell; vertical-align: middle; } .content { text-align: \
            center; display: inline-block; } .title { font-size: 42px; margin-bottom: 40px; } \
            </style> </head> <body> <div class="
        + "container"
        + "> <div class="
        + "content"
        + "> \
            <div class="
        + "title"
        + ">404 NOT FOUND</div> </div> </div> </body> </html>";
    assert_eq!(NOT_FOUND_PAGE, expected);
}

#[test]
fn request_for_the_avatar_is_answered_with_the_image() {
    let mut state = State::new();
    assert!(upload_avatar(
        &mut state,
        Avatar { image_data: vec![7, 8], image_type: "image/jpeg".to_string() }
    ));
    let response = http_request(&state, &request("/avatar/anything"));
    assert_eq!(response.status_code, 200);
    assert_eq!(response.body, vec![7, 8]);
    assert_eq!(response.headers[0], pair("Content-Type", "image/jpeg;charset=utf-8"));
    assert_eq!(state.avatar.image_data, vec![7, 8]);
}

#[test]
fn request_for_anything_else_is_not_found() {
    let state = State::new();
    for url in ["/", "/index.html", "/avatar", "/avatar/a/b"] {
        let response = http_request(&state, &request(url));
        assert_eq!(response.status_code, 404, "{:?}", url);
        assert_eq!(response.body, NOT_FOUND_PAGE.as_bytes());
    }
}
