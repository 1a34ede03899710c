use responder::counter::ErrorCounter;
use responder::redirect::RedirectTarget;
use responder::router::{respond, respond_counter_unavailable, route, Response, Route};
use responder::status::{BAD_REQUEST, INTERNAL_SERVER_ERROR, NOT_FOUND, OK};

fn get(path: &str) -> Route {
    route(true, path)
}

#[test]
fn fixed_paths_route() {
    assert_eq!(get("/"), Route::Home);
    assert_eq!(get("/responder.css"), Route::Stylesheet);
    assert_eq!(get("/healthz/"), Route::Healthz);
    assert_eq!(get("/error/count/reset/"), Route::ResetCounter);
    assert_eq!(get("/redirect/"), Route::FixedRedirect);
    assert_eq!(get("/redirect/nested"), Route::NestedRedirect);
}

#[test]
fn parameter_paths_route() {
    assert_eq!(get("/code/404/"), Route::Status(404));
    assert_eq!(get("/empty/201/"), Route::Status(201));
    assert_eq!(get("/code/+7/"), Route::Status(7));
    assert_eq!(get("/code/1000/"), Route::Status(1000));
    assert_eq!(get("/error/random/50/"), Route::RandomError(50));
    assert_eq!(get("/error/count/3/"), Route::ErrorCount(3));
    assert_eq!(get("/error/count/-3/"), Route::ErrorCount(-3));
    assert_eq!(get("/error/count/-2147483648/"), Route::ErrorCount(i32::MIN));
    assert_eq!(get("/error/count/2147483647/"), Route::ErrorCount(i32::MAX));
    assert_eq!(get("/redirect/302/"), Route::CodeRedirect(302));
}

#[test]
fn unreadable_parameters_are_bad_requests() {
    assert_eq!(get("/code/abc/"), Route::BadParameter);
    assert_eq!(get("/code/65536/"), Route::BadParameter);
    assert_eq!(get("/code/-1/"), Route::BadParameter);
    assert_eq!(get("/code/+/"), Route::BadParameter);
    assert_eq!(get("/error/random/1.5/"), Route::BadParameter);
    assert_eq!(get("/error/count/2147483648/"), Route::BadParameter);
    assert_eq!(get("/error/count/-/"), Route::BadParameter);
    assert_eq!(get("/redirect/nested/"), Route::BadParameter);
    assert_eq!(get("/code/\u{e9}/"), Route::BadParameter);
}

#[test]
fn other_requests_are_not_found() {
    assert_eq!(get(""), Route::NotFound);
    assert_eq!(get("/healthz"), Route::NotFound);
    assert_eq!(get("/code/200"), Route::NotFound);
    assert_eq!(get("/code//"), Route::NotFound);
    assert_eq!(get("/code/2/0/"), Route::NotFound);
    assert_eq!(get("/error/"), Route::NotFound);
    assert_eq!(get("/nowhere/"), Route::NotFound);
    assert_eq!(route(false, "/healthz/"), Route::NotFound);
    let mut c = ErrorCounter::new();
    assert_eq!(respond(get("/nowhere/"), &mut c), Response::Empty(NOT_FOUND));
}

#[test]
fn status_routes_answer_with_empty_bodies() {
    let mut c = ErrorCounter::new();
    assert_eq!(respond(get("/code/418/"), &mut c), Response::Empty(418));
    assert_eq!(respond(get("/empty/418/"), &mut c), Response::Empty(418));
    assert_eq!(respond(get("/code/1000/"), &mut c), Response::Empty(BAD_REQUEST));
    assert_eq!(respond(get("/code/x/"), &mut c), Response::Empty(BAD_REQUEST));
    assert_eq!(respond(get("/"), &mut c), Response::HomePage);
    assert_eq!(respond(get("/responder.css"), &mut c), Response::Stylesheet);
    assert_eq!(respond(get("/error/random/0/"), &mut c), Response::Empty(OK));
    assert_eq!(respond(get("/error/random/100/"), &mut c), Response::Empty(INTERNAL_SERVER_ERROR));
}

#[test]
fn redirect_routes_answer_with_targets() {
    let mut c = ErrorCounter::new();
    assert_eq!(
        respond(get("/redirect/"), &mut c),
        Response::Redirect(RedirectTarget { location: String::from("/code/200/"), permanent: false })
    );
    assert_eq!(
        respond(get("/redirect/404/"), &mut c),
        Response::Redirect(RedirectTarget { location: String::from("/code/404/"), permanent: false })
    );
    assert_eq!(
        respond(get("/redirect/nested"), &mut c),
        Response::Redirect(RedirectTarget { location: String::from("200"), permanent: true })
    );
}

#[test]
fn health_check_succeeds_whatever_the_counter() {
    let mut c = ErrorCounter::new();
    for _ in 0..5 {
        assert_eq!(respond(get("/healthz/"), &mut c), Response::Empty(OK));
        respond(get("/error/count/100/"), &mut c);
    }
    assert_eq!(c.value(), 5);
    assert_eq!(respond(get("/healthz/"), &mut c), Response::Empty(OK));
    assert_eq!(c.value(), 5);
    assert_eq!(respond_counter_unavailable(Route::Healthz), Response::Empty(OK));
}

#[test]
fn counting_path_fails_twice_then_succeeds() {
    let mut c = ErrorCounter::new();
    let statuses: Vec<Response> = (0..3).map(|_| respond(get("/error/count/2/"), &mut c)).collect();
    assert_eq!(
        statuses,
        vec![
            Response::Empty(INTERNAL_SERVER_ERROR),
            Response::Empty(INTERNAL_SERVER_ERROR),
            Response::Empty(OK)
        ]
    );
    assert_eq!(respond(get("/error/count/2/"), &mut c), Response::Empty(OK));
    assert_eq!(respond(get("/error/count/reset/"), &mut c), Response::Empty(OK));
    assert_eq!(respond(get("/error/count/2/"), &mut c), Response::Empty(INTERNAL_SERVER_ERROR));
}

#[test]
fn unavailable_counter_fails_closed() {
    assert_eq!(
        respond_counter_unavailable(Route::ErrorCount(3)),
        Response::Empty(INTERNAL_SERVER_ERROR)
    );
    assert_eq!(
        respond_counter_unavailable(Route::ResetCounter),
        Response::Empty(INTERNAL_SERVER_ERROR)
    );
    assert_eq!(respond_counter_unavailable(Route::Status(204)), Response::Empty(204));
    assert_eq!(respond_counter_unavailable(Route::NotFound), Response::Empty(NOT_FOUND));
}
