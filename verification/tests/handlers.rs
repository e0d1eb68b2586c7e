use endpoint_server::custom_handlers::{ResourceHandler, UserHandler};
use endpoint_server::handler::{
    ErrorStatus, Handler, HandlerContext, HandlerResult, HealthCheckHandler, StaticResponseHandler,
    StatusHandler,
};
use endpoint_server::params::Params;

fn context(path: &str, pairs: &[(&str, &str)], static_response: Option<&str>) -> HandlerContext {
    let mut params = Params::new();
    for (key, value) in pairs {
        params.insert(key.to_string(), value.to_string());
    }
    HandlerContext {
        path: path.to_string(),
        params,
        static_response: static_response.map(|s| s.to_string()),
    }
}

struct Echo;

impl Handler for Echo {
    fn handle(&self, ctx: HandlerContext) -> HandlerResult {
        Ok(ctx.path)
    }
}

#[test]
fn static_response_returns_the_configured_text() {
    let result = StaticResponseHandler.handle(context("/x", &[], Some("hello")));
    assert_eq!(result, Ok("hello".to_string()));
}

#[test]
fn static_response_returns_an_empty_text_verbatim() {
    let result = StaticResponseHandler.handle(context("/x", &[], Some("")));
    assert_eq!(result, Ok(String::new()));
}

#[test]
fn static_response_without_response_is_an_internal_error() {
    let result = StaticResponseHandler.handle(context("/x", &[], None));
    assert_eq!(
        result,
        Err((ErrorStatus::InternalError, "No static response configured".to_string()))
    );
}

#[test]
fn health_check_ignores_its_context() {
    assert_eq!(HealthCheckHandler.handle(context("/a", &[], None)), Ok("OK".to_string()));
    assert_eq!(
        HealthCheckHandler.handle(context("/b", &[("k", "v")], Some("ignored"))),
        Ok("OK".to_string())
    );
}

#[test]
fn status_ignores_its_context() {
    let body = "{ \"status\": \"running\", \"version\": \"1.0.0\" }".to_string();
    assert_eq!(StatusHandler.handle(context("/a", &[], None)), Ok(body.clone()));
    assert_eq!(StatusHandler.handle(context("", &[("k", "v")], Some("ignored"))), Ok(body));
}

#[test]
fn error_status_codes() {
    assert_eq!(ErrorStatus::BadRequest.code(), 400);
    assert_eq!(ErrorStatus::InternalError.code(), 500);
}

#[test]
fn a_handler_written_elsewhere_sees_the_context() {
    assert_eq!(Echo.handle(context("/seen", &[], None)), Ok("/seen".to_string()));
}

#[test]
fn user_handler_defaults_to_json_and_the_default_database() {
    let result = UserHandler.handle(context("/api/user/123", &[], None));
    assert_eq!(
        result,
        Ok("{ \"id\": \"123\", \"name\": \"User 123\", \"database\": \"default\" }".to_string())
    );
}

#[test]
fn user_handler_json_with_database() {
    let result = UserHandler.handle(context(
        "/api/user/123",
        &[("database", "users"), ("format", "json")],
        None,
    ));
    assert_eq!(
        result,
        Ok("{ \"id\": \"123\", \"name\": \"User 123\", \"database\": \"users\" }".to_string())
    );
}

#[test]
fn user_handler_text_format() {
    let result =
        UserHandler.handle(context("42", &[("format", "text"), ("database", "main")], None));
    assert_eq!(result, Ok("User ID: 42, Database: main".to_string()));
}

#[test]
fn user_handler_rejects_an_unknown_format() {
    let result = UserHandler.handle(context("/api/user/7", &[("format", "xml")], None));
    assert_eq!(result, Err((ErrorStatus::BadRequest, "Unsupported format: xml".to_string())));
}

#[test]
fn user_handler_format_is_case_sensitive() {
    let result = UserHandler.handle(context("/api/user/7", &[("format", "JSON")], None));
    assert_eq!(result, Err((ErrorStatus::BadRequest, "Unsupported format: JSON".to_string())));
}

#[test]
fn user_handler_takes_the_last_segment() {
    let trailing = UserHandler.handle(context("/api/user/", &[("format", "text")], None));
    assert_eq!(trailing, Ok("User ID: , Database: default".to_string()));
    let plain = UserHandler.handle(context("abc", &[("format", "text")], None));
    assert_eq!(plain, Ok("User ID: abc, Database: default".to_string()));
    let empty = UserHandler.handle(context("", &[("format", "text")], None));
    assert_eq!(empty, Ok("User ID: , Database: default".to_string()));
}

#[test]
fn resource_create_with_validation() {
    let handler = ResourceHandler::new("create");
    let result = handler.handle(context("/api/resource", &[("validate", "true")], None));
    assert_eq!(
        result,
        Ok("{ \"status\": \"created\", \"id\": 2, \"validated\": true }".to_string())
    );
}

#[test]
fn resource_create_without_validation() {
    let handler = ResourceHandler::new("create");
    let result = handler.handle(context("/api/resource", &[], None));
    assert_eq!(result, Ok("{ \"status\": \"created\", \"id\": 2 }".to_string()));
}

#[test]
fn resource_validate_must_be_the_word_true() {
    let handler = ResourceHandler::new("create");
    let result = handler.handle(context("/api/resource", &[("validate", "TRUE")], None));
    assert_eq!(result, Ok("{ \"status\": \"created\", \"id\": 2 }".to_string()));
    let other = handler.handle(context("/api/resource", &[("validate", "yes")], None));
    assert_eq!(other, Ok("{ \"status\": \"created\", \"id\": 2 }".to_string()));
}

#[test]
fn resource_update_with_and_without_validation() {
    let handler = ResourceHandler::new("update");
    assert_eq!(
        handler.handle(context("/api/resource/5", &[("validate", "true")], None)),
        Ok("{ \"status\": \"updated\", \"validated\": true }".to_string())
    );
    assert_eq!(
        handler.handle(context("/api/resource/5", &[], None)),
        Ok("{ \"status\": \"updated\" }".to_string())
    );
}

#[test]
fn resource_delete() {
    let handler = ResourceHandler::new("delete");
    assert_eq!(
        handler.handle(context("/api/resource/5", &[("validate", "true")], None)),
        Ok("{ \"status\": \"deleted\" }".to_string())
    );
}

#[test]
fn resource_get_uses_the_id_of_the_path() {
    let handler = ResourceHandler::new("get");
    assert_eq!(
        handler.handle(context("/api/resource/17", &[], None)),
        Ok("{ \"id\": 17, \"name\": \"Resource 17\", \"status\": \"active\" }".to_string())
    );
    assert_eq!(
        handler.handle(context("17", &[], None)),
        Ok("{ \"id\": 17, \"name\": \"Resource 17\", \"status\": \"active\" }".to_string())
    );
}

#[test]
fn resource_get_defaults_to_id_one() {
    let handler = ResourceHandler::new("get");
    let expected = Ok("{ \"id\": 1, \"name\": \"Resource 1\", \"status\": \"active\" }".to_string());
    assert_eq!(handler.handle(context("/api/resource", &[], None)), expected);
    assert_eq!(handler.handle(context("/api/resource/", &[], None)), expected);
    assert_eq!(handler.handle(context("", &[], None)), expected);
    assert_eq!(handler.handle(context("resource", &[], None)), expected);
}

#[test]
fn resource_rejects_an_unknown_operation() {
    let handler = ResourceHandler::new("patch");
    assert_eq!(
        handler.handle(context("/api/resource", &[], None)),
        Err((ErrorStatus::BadRequest, "Unsupported operation: patch".to_string()))
    );
    let upper = ResourceHandler::new("GET");
    assert_eq!(
        upper.handle(context("/api/resource", &[], None)),
        Err((ErrorStatus::BadRequest, "Unsupported operation: GET".to_string()))
    );
}

#[test]
fn params_last_binding_wins() {
    let mut params = Params::new();
    assert!(params.get("a").is_none());
    assert!(!params.contains_key("a"));
    params.insert("a".to_string(), "1".to_string());
    params.insert("b".to_string(), "2".to_string());
    params.insert("a".to_string(), "3".to_string());
    assert_eq!(params.get("a"), Some(&"3".to_string()));
    assert_eq!(params.get("b"), Some(&"2".to_string()));
    assert!(params.get("c").is_none());
    assert!(params.contains_key("b"));
}

#[test]
fn params_clone_keeps_the_bindings() {
    let mut params = Params::new();
    params.insert("a".to_string(), "1".to_string());
    params.insert("a".to_string(), "2".to_string());
    let mut copy = params.clone();
    assert_eq!(copy.get("a"), Some(&"2".to_string()));
    copy.insert("a".to_string(), "9".to_string());
    assert_eq!(params.get("a"), Some(&"2".to_string()));
    assert_eq!(copy.get("a"), Some(&"9".to_string()));
}
