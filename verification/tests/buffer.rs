use dbx_bridge::buffer::{settle, slot_message, Buffer, Outcome};
use dbx_bridge::error::BridgeError;
use dbx_bridge::text::contains_nul;

fn buffer(s: &str) -> Buffer {
    Buffer::new(s.to_string()).unwrap()
}

#[test]
fn buffer_holds_text_without_nul() {
    let made = Buffer::new("{\"found\":true}".to_string()).unwrap();
    assert_eq!(made.as_str(), "{\"found\":true}");
    assert_eq!(made.into_string(), "{\"found\":true}");
    assert_eq!(Buffer::new(String::new()).unwrap().as_str(), "");
    assert_eq!(Buffer::new("gr\u{fc}\u{df}e".to_string()).unwrap().as_str(), "gr\u{fc}\u{df}e");
}

#[test]
fn buffer_refuses_text_with_nul() {
    assert_eq!(Buffer::new("\u{0}".to_string()), Err("\u{0}".to_string()));
    assert_eq!(Buffer::new("a\u{0}b".to_string()), Err("a\u{0}b".to_string()));
    assert_eq!(Buffer::new("tail\u{0}".to_string()), Err("tail\u{0}".to_string()));
}

#[test]
fn settle_hands_over_buffer_on_success() {
    assert_eq!(
        settle(Ok(buffer("{\"found\":true}"))),
        Outcome { buffer: Some(buffer("{\"found\":true}")), error: None }
    );
}

#[test]
fn settle_leaves_one_message_on_failure() {
    assert_eq!(
        settle(Err(BridgeError::NullHandle)),
        Outcome { buffer: None, error: Some(buffer("handle is null")) }
    );
    assert_eq!(
        settle(Err(BridgeError::Client("server responded with an error: 404: gone".to_string()))),
        Outcome {
            buffer: None,
            error: Some(buffer("server responded with an error: 404: gone")),
        }
    );
}

#[test]
fn settle_replaces_message_that_holds_nul() {
    assert_eq!(
        settle(Err(BridgeError::Client("bad\u{0}message".to_string()))),
        Outcome { buffer: None, error: Some(buffer("ffi error")) }
    );
    assert_eq!(
        settle(Err(BridgeError::Parse("\u{0}".to_string()))),
        Outcome { buffer: None, error: Some(buffer("ffi error")) }
    );
}

#[test]
fn slot_message_is_the_message_or_the_fixed_one() {
    assert_eq!(slot_message(&BridgeError::MissingToken), buffer("token is required"));
    assert_eq!(
        slot_message(&BridgeError::Encoding("at\u{0}".to_string())),
        buffer("ffi error")
    );
}

#[test]
fn contains_nul_finds_the_character() {
    assert!(!contains_nul(""));
    assert!(!contains_nul("plain text"));
    assert!(contains_nul("\u{0}"));
    assert!(contains_nul("end\u{0}"));
    assert!(!contains_nul("\\u0000"));
}
