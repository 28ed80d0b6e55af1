use ngrok_monitor::notify::{prepare_email, prepare_mailer, NotifyError};

#[test]
fn valid_addresses_build_the_email() {
    let r = prepare_email(
        "monitor@example.org",
        "ops@example.org",
        "Ngrok Tunnel Changed",
        "URL: https://x.ngrok.io".to_string(),
    );
    let email = r.expect("the email should build");
    assert_eq!(email.sender_name, "Tunnel Monitor");
    assert_eq!(email.from, "monitor@example.org");
    assert_eq!(email.to, "ops@example.org");
    assert_eq!(email.subject, "Ngrok Tunnel Changed");
    assert_eq!(email.body, "URL: https://x.ngrok.io");
    let bytes = email.message.formatted();
    let text = String::from_utf8_lossy(&bytes);
    assert!(text.contains("Tunnel Monitor"));
    assert!(text.contains("monitor@example.org"));
    assert!(text.contains("ops@example.org"));
    assert!(text.contains("Ngrok Tunnel Changed"));
    assert!(text.contains("URL: https://x.ngrok.io"));
}

#[test]
fn invalid_sender_is_an_address_error() {
    let r = prepare_email(
        "not an address",
        "ops@example.org",
        "s",
        "b".to_string(),
    );
    assert!(matches!(r, Err(NotifyError::Address)));
}

#[test]
fn invalid_recipient_is_an_address_error() {
    let r = prepare_email("monitor@example.org", "", "s", "b".to_string());
    assert!(matches!(r, Err(NotifyError::Address)));
}

#[test]
fn mailer_preparation_reports_connection_errors_only() {
    // Construction touches no network; whether it succeeds depends on the
    // TLS backend, and any failure must surface as a connection error.
    let r = prepare_mailer("smtp.gmail.com", 587, "user", "password");
    match r {
        Ok(mailer) => {
            assert_eq!(mailer.server, "smtp.gmail.com");
            assert_eq!(mailer.port, 587);
            assert_eq!(mailer.username, "user");
            assert_eq!(mailer.password, "password");
        }
        Err(e) => assert_eq!(e, NotifyError::Connection),
    }
}
