use http_body_util::BodyExt;
use tower::ServiceExt;
use bootstrap::configuration::{
    ApplicationSettings, DatabaseSettings, EmailClientSettings, Settings,
};
use bootstrap::secret::SecretValue;
use bootstrap::db::DbPool;
use bootstrap::startup::{health_check, prepare_startup, Application};

fn test_settings(port: u16) -> Settings {
    Settings {
        application: ApplicationSettings {
            host: String::from("127.0.0.1"),
            port,
            base_url: String::from("http://127.0.0.1"),
            hmac_secret: SecretValue::new(String::from("hmac-key")),
        },
        database: DatabaseSettings {
            host: String::from("127.0.0.1"),
            port: 1,
            username: String::from("postgres"),
            password: SecretValue::new(String::from("password")),
            database_name: String::from("newsletter"),
        },
        email_client: EmailClientSettings {
            base_url: String::from("http://mail.invalid"),
            sender_email: String::from("sender@example.com"),
            authorization_token: SecretValue::new(String::from("token")),
        },
        redis_url: SecretValue::new(String::from("redis://127.0.0.1:6379")),
    }
}

#[test]
fn health_check_reports_success() {
    assert_eq!(health_check(), 200);
    // Repeating the call changes nothing: it reads no state at all.
    for _ in 0..10 {
        assert_eq!(health_check(), 200);
    }
}

fn test_runtime() -> tokio::runtime::Runtime {
    tokio::runtime::Builder::new_multi_thread()
        .worker_threads(2)
        .enable_all()
        .build()
        .unwrap()
}

// Builds the pool the way the serving binary does: beside the runtime, with
// the library's verified settings-to-options conversion, and lazily — no
// connection is attempted.
fn test_pool(settings: &Settings) -> DbPool {
    DbPool {
        pool: sqlx::postgres::PgPoolOptions::new()
            .connect_lazy_with(settings.database.connect_options()),
    }
}

#[test]
fn lazy_pool_ignores_unreachable_database() {
    // Nothing listens on 127.0.0.1:1, yet building the pool succeeds: the
    // connection attempt is deferred to first use.
    let settings = test_settings(0);
    let pool = test_runtime().block_on(async { test_pool(&settings) });
    assert!(!pool.pool.is_closed());
}

#[test]
fn prepare_startup_derives_the_bind_address() {
    let plan = test_runtime().block_on(async {
        let settings = test_settings(8000);
        let pool = test_pool(&settings);
        prepare_startup(settings, pool)
    });
    assert_eq!(plan.address, "127.0.0.1:8000");
    assert_eq!(plan.base_url, "http://127.0.0.1");
    assert_eq!(plan.hmac_secret.expose_secret(), "hmac-key");
    assert_eq!(plan.redis_url.expose_secret(), "redis://127.0.0.1:6379");
    assert_eq!(plan.email_client.base_url(), "http://mail.invalid");
    assert_eq!(plan.email_client.sender(), "sender@example.com");
    assert_eq!(
        plan.email_client.authorization_token().expose_secret(),
        "token"
    );
}

#[test]
fn prepare_startup_succeeds_with_bad_database_settings() {
    // The whole first stage of `build` has no error path: unreachable
    // database settings cannot abort startup.
    let plan = test_runtime().block_on(async {
        let settings = test_settings(0);
        let pool = test_pool(&settings);
        prepare_startup(settings, pool)
    });
    assert_eq!(plan.address, "127.0.0.1:0");
    assert!(!plan.db_pool.pool.is_closed());
}

async fn health_handler() -> axum::http::StatusCode {
    axum::http::StatusCode::from_u16(health_check()).unwrap_or(axum::http::StatusCode::OK)
}

fn test_router() -> axum::Router {
    axum::Router::new().route("/health", axum::routing::get(health_handler))
}

fn health_request() -> axum::http::Request<axum::body::Body> {
    axum::http::Request::builder()
        .method("GET")
        .uri("/health")
        .body(axum::body::Body::empty())
        .unwrap()
}

#[test]
fn ephemeral_port_is_recorded() {
    test_runtime().block_on(async {
        let settings = test_settings(0);
        let pool = test_pool(&settings);
        let plan = prepare_startup(settings, pool);
        let listener = tokio::net::TcpListener::bind(plan.address.as_str())
            .await
            .expect("binding port 0 succeeds");
        let port = listener.local_addr().unwrap().port();
        assert_ne!(port, 0);
        let app = Application::new(port, test_router(), listener);
        assert_eq!(app.port(), port);
        // Consuming the application yields the open listener still bound to
        // the recorded port, ready for the serving loop.
        let (listener, _router) = app.into_serve_parts();
        assert_eq!(listener.local_addr().unwrap().port(), port);
    });
}

#[test]
fn health_endpoint_returns_200_with_empty_body() {
    test_runtime().block_on(async {
        let router = test_router();
        let response = router.oneshot(health_request()).await.unwrap();
        assert_eq!(response.status(), axum::http::StatusCode::OK);
        let body = response.into_body().collect().await.unwrap().to_bytes();
        assert!(body.is_empty());
    });
}

#[test]
fn repeated_health_checks_are_idempotent() {
    test_runtime().block_on(async {
        let router = test_router();
        for _ in 0..20 {
            let response = router.clone().oneshot(health_request()).await.unwrap();
            assert_eq!(response.status(), axum::http::StatusCode::OK);
        }
    });
}

#[test]
fn concurrent_health_checks_all_succeed() {
    let runtime = tokio::runtime::Builder::new_multi_thread()
        .worker_threads(4)
        .enable_all()
        .build()
        .unwrap();
    runtime.block_on(async {
        let router = test_router();
        let mut tasks = Vec::new();
        for _ in 0..100 {
            let router = router.clone();
            tasks.push(tokio::spawn(async move {
                router.oneshot(health_request()).await.unwrap().status()
            }));
        }
        for task in tasks {
            assert_eq!(task.await.unwrap(), axum::http::StatusCode::OK);
        }
    });
}

#[test]
fn connect_options_carry_the_database_settings() {
    let settings = test_settings(0);
    let options = settings.database.connect_options();
    assert_eq!(options.get_host(), "127.0.0.1");
    assert_eq!(options.get_port(), 1);
    assert_eq!(options.get_username(), "postgres");
    assert_eq!(options.get_database(), Some("newsletter"));
}
