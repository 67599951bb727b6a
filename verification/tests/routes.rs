use axum_mysql_api::routes::{
    create_user, health_check, middleware_stack, root, route_table, Endpoint, HealthResponse,
    Method, Middleware, Route, User, CREATED_USER_ID, STATUS_CREATED, STATUS_OK,
};

fn ada() -> User {
    User { id: None, name: "Ada".to_string(), email: "ada@example.com".to_string() }
}

#[test]
fn root_answers_the_greeting_with_200() {
    assert_eq!(root(), (200, "Welcome to Axum API with MySQL!"));
}

#[test]
fn root_answers_the_same_every_time() {
    assert_eq!(root(), root());
}

#[test]
fn health_check_reports_connected_when_the_probe_succeeds() {
    let probe: Result<(), String> = Ok(());
    let (status, body) = health_check(&probe);
    assert_eq!(status, 200);
    assert_eq!(
        body,
        HealthResponse { status: "ok".to_string(), database: "connected".to_string() }
    );
}

#[test]
fn health_check_reports_disconnected_with_200_when_the_probe_fails() {
    let probe: Result<(), String> = Err("connection refused".to_string());
    let (status, body) = health_check(&probe);
    assert_eq!(status, 200);
    assert!(!(500..600).contains(&status));
    assert_eq!(
        body,
        HealthResponse { status: "ok".to_string(), database: "disconnected".to_string() }
    );
}

#[test]
fn health_check_does_not_look_at_the_error() {
    let timeout: Result<(), u8> = Err(1);
    let refused: Result<(), u8> = Err(2);
    assert_eq!(health_check(&timeout), health_check(&refused));
}

#[test]
fn create_user_answers_201_with_id_1() {
    let (status, user) = create_user(ada());
    assert_eq!(status, 201);
    assert_eq!(
        user,
        User { id: Some(1), name: "Ada".to_string(), email: "ada@example.com".to_string() }
    );
}

#[test]
fn create_user_hands_out_the_same_id_twice() {
    let (first_status, first) = create_user(ada());
    let (second_status, second) = create_user(ada());
    assert_eq!(first_status, 201);
    assert_eq!(second_status, 201);
    assert_eq!(first.id, Some(1));
    assert_eq!(second.id, Some(1));
    assert_eq!(first, second);
}

#[test]
fn create_user_ignores_an_id_in_the_request() {
    let (_, user) = create_user(User {
        id: Some(42),
        name: "Grace".to_string(),
        email: "grace@example.com".to_string(),
    });
    assert_eq!(user.id, Some(1));
    assert_eq!(user.name, "Grace");
    assert_eq!(user.email, "grace@example.com");
}

#[test]
fn create_user_does_not_validate_name_or_email() {
    let (status, user) = create_user(User { id: None, name: String::new(), email: "x".to_string() });
    assert_eq!(status, 201);
    assert_eq!(user, User { id: Some(1), name: String::new(), email: "x".to_string() });
}

#[test]
fn status_and_id_constants_have_their_values() {
    assert_eq!(STATUS_OK, 200);
    assert_eq!(STATUS_CREATED, 201);
    assert_eq!(CREATED_USER_ID, 1);
}

#[test]
fn route_table_holds_the_three_bindings_in_order() {
    assert_eq!(
        route_table(),
        vec![
            Route { method: Method::Get, path: "/", endpoint: Endpoint::Root },
            Route { method: Method::Get, path: "/health", endpoint: Endpoint::Health },
            Route { method: Method::Post, path: "/users", endpoint: Endpoint::CreateUser },
        ]
    );
}

#[test]
fn route_table_binds_every_path_and_endpoint_once() {
    let routes = route_table();
    for (i, first) in routes.iter().enumerate() {
        for second in routes.iter().skip(i + 1) {
            assert_ne!(first.path, second.path);
            assert_ne!(first.endpoint, second.endpoint);
        }
    }
    for endpoint in [Endpoint::Root, Endpoint::Health, Endpoint::CreateUser] {
        assert_eq!(routes.iter().filter(|route| route.endpoint == endpoint).count(), 1);
    }
}

#[test]
fn middleware_stack_puts_cors_round_the_request_trace() {
    assert_eq!(middleware_stack(), vec![Middleware::RequestTrace, Middleware::PermissiveCors]);
    assert_eq!(middleware_stack().last(), Some(&Middleware::PermissiveCors));
}
