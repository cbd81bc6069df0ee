use discord::errors::DiscordError;
use discord::intents::Status;

#[test]
fn descriptions_carry_the_context() {
    assert_eq!(
        DiscordError::ConnectionClosed { code: 4004, reason: "Authentication failed.".to_string() }
            .describe(),
        "Connection closed with code 4004: Authentication failed."
    );
    assert_eq!(
        DiscordError::RateLimited { retry_after_ms: 2500 }.describe(),
        "Rate limited, retry after 2500 ms"
    );
    assert_eq!(
        DiscordError::InvalidResponse { status: 418 }.describe(),
        "Unexpected HTTP status 418"
    );
    assert_eq!(
        DiscordError::InvalidData("not_a_flag".to_string()).describe(),
        "Invalid data: not_a_flag"
    );
    assert_eq!(
        DiscordError::Gateway("no gateway URL in response".to_string()).describe(),
        "Gateway error: no gateway URL in response"
    );
    assert_eq!(
        DiscordError::Http("timed out".to_string()).describe(),
        "HTTP error: timed out"
    );
    assert_eq!(
        DiscordError::WebSocket("reset".to_string()).describe(),
        "WebSocket error: reset"
    );
    assert_eq!(
        DiscordError::Json("expected value".to_string()).describe(),
        "JSON error: expected value"
    );
    assert_eq!(DiscordError::Forbidden.describe(), "Forbidden (403)");
    assert_eq!(DiscordError::NotFound.describe(), "Not found (404)");
    assert_eq!(DiscordError::ServerError.describe(), "Server error (5xx)");
}

#[test]
fn status_wire_names_are_lowercase() {
    assert_eq!(Status::Online.wire_name(), "online");
    assert_eq!(Status::Dnd.wire_name(), "dnd");
    assert_eq!(Status::Invisible.wire_name(), "invisible");
    assert_eq!(Status::Offline.wire_name(), "offline");
    assert_eq!(Status::Idle.wire_name(), "idle");
}
