use endpoint_server::config::{Config, EndpointConfig, ServerConfig};
use endpoint_server::params::Params;
use endpoint_server::registry::HandlerRegistry;
use endpoint_server::startup::{server_info, startup_lines};

fn sample_config() -> Config {
    Config {
        server: ServerConfig { host: "127.0.0.1".to_string(), port: 3000 },
        endpoints: vec![
            EndpointConfig {
                path: "/health".to_string(),
                method: "GET".to_string(),
                handler: "health".to_string(),
                response: "OK".to_string(),
                description: "Health check".to_string(),
                params: Params::new(),
            },
            EndpointConfig {
                path: "/hello".to_string(),
                method: "get".to_string(),
                handler: "greeter".to_string(),
                response: "Hello, World!".to_string(),
                description: "Says hello".to_string(),
                params: Params::new(),
            },
        ],
    }
}

#[test]
fn startup_lines_announce_server_and_endpoints() {
    let lines = startup_lines("config.yaml", &sample_config(), &HandlerRegistry::default());
    assert_eq!(
        lines,
        vec![
            "Server starting with configuration from config.yaml".to_string(),
            "Server will listen on 127.0.0.1:3000".to_string(),
            "Configured endpoint: GET /health - Health check".to_string(),
            "  Using custom handler: health".to_string(),
            "Configured endpoint: get /hello - Says hello".to_string(),
            "  Using default handler with static response".to_string(),
        ]
    );
}

#[test]
fn startup_lines_without_endpoints() {
    let config = Config {
        server: ServerConfig { host: "::1".to_string(), port: 0 },
        endpoints: vec![],
    };
    assert_eq!(
        startup_lines("", &config, &HandlerRegistry::new()),
        vec![
            "Server starting with configuration from ".to_string(),
            "Server will listen on ::1:0".to_string()
        ]
    );
}

#[test]
fn server_info_describes_the_configuration() {
    let info = server_info(&sample_config());
    assert_eq!(info.host, "127.0.0.1");
    assert_eq!(info.port, 3000);
    assert_eq!(info.endpoints.len(), 2);
    assert_eq!(info.endpoints[0].path, "/health");
    assert_eq!(info.endpoints[0].method, "GET");
    assert_eq!(info.endpoints[0].description, "Health check");
    assert_eq!(info.endpoints[1].path, "/hello");
    assert_eq!(info.endpoints[1].method, "get");
    assert_eq!(info.endpoints[1].description, "Says hello");
}
