use delivery::error::JobError;
use delivery::files::{content_digest, digests_need_update, file_needs_updated, path_to_string};
use delivery::token::{parse_saml, TokenClapOptions};
use std::path::PathBuf;

#[test]
fn saml_values() {
    assert_eq!(parse_saml("true"), Some(true));
    assert_eq!(parse_saml("false"), Some(false));
    assert_eq!(parse_saml(""), None);
    assert_eq!(parse_saml("yes"), None);
}

#[test]
fn token_options() {
    let d = TokenClapOptions::default();
    assert_eq!(d.server, "");
    assert!(!d.verify && !d.raw);
    assert_eq!(d.saml, None);
    let o = TokenClapOptions::new("srv", "8080", "ent", "me", true, false, "false");
    assert_eq!(o.server, "srv");
    assert_eq!(o.port, "8080");
    assert!(o.verify);
    assert_eq!(o.saml, Some(false));
}

#[test]
fn update_needed_by_digest() {
    assert!(file_needs_updated(false, "a", "a"));
    assert!(!file_needs_updated(true, "same text", "same text"));
    assert!(file_needs_updated(true, "new text", "old text"));
    assert!(!digests_need_update(true, &"d41d8cd98f00b204e9800998ecf8427e".to_string(), &"d41d8cd98f00b204e9800998ecf8427e".to_string()));
    assert!(digests_need_update(true, &"aa".to_string(), &"bb".to_string()));
}

#[test]
fn path_text() {
    assert_eq!(path_to_string(&PathBuf::from("/tmp/x")).unwrap(), "/tmp/x");
    let _ = JobError::InvalidPath;
}

#[test]
fn md5_digest_of_text() {
    assert_eq!(content_digest(""), "d41d8cd98f00b204e9800998ecf8427e");
    assert_eq!(content_digest("abc"), "900150983cd24fb0d6963f7d28e17f72");
}
