use task_fighter::panic_handler::{details, extract_payload_display, AppInfo, Link};

fn info() -> AppInfo {
    AppInfo {
        name: "Task Fighter",
        additional_text: "sorry",
        links: vec![Link { label: "issues", url: "https://example.org" }],
    }
}

#[test]
fn details_with_payload() {
    let payload = "boom".to_string();
    let text = details(Some(&payload), "at main.rs:1", &info(), "app", "1.2.3");
    assert_eq!(
        text,
        "**Panic report from boom**\n\nTask Fighter\n\nPackage name: `app`\nVersion: `1.2.3`\n\nPanic info:\n```\nat main.rs:1\n```"
    );
}

#[test]
fn details_without_payload() {
    let text = details(None, "x", &info(), "p", "v");
    assert!(text.starts_with("**Panic report from [PAYLOAD IS NOT A STRING]**\n\n"));
    assert!(text.ends_with("Panic info:\n```\nx\n```"));
}

#[test]
fn payload_display_prefers_str() {
    let owned = "owned".to_string();
    assert_eq!(extract_payload_display(Some("lit"), Some(&owned)), Some("lit".to_string()));
    assert_eq!(extract_payload_display(None, Some(&owned)), Some("owned".to_string()));
    assert_eq!(extract_payload_display(None, None), None);
}
