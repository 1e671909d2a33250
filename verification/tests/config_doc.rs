use kufefe::error::Error;
use kufefe::kubeconfig::{retry_delay_ms, Kubeconfig};

const SERVER: &str = "https://api.example:6443";

fn assemble(sa: &str, ca: &[u8], token: &[u8]) -> Result<Kubeconfig, Error> {
    Kubeconfig::new(Some(sa.to_string()), ca.to_vec(), token.to_vec(), SERVER.to_string())
}

#[test]
fn renders_the_full_document() {
    let config = assemble("user1", b"abc", b"mytoken").unwrap();
    let yaml = config.to_yaml();
    let expected = "apiVersion: \"v1\"\n\
        clusters:\n\
        - cluster:\n    \
        certificate-authority-data: \"YWJj\"\n    \
        server: \"https://api.example:6443\"\n  \
        name: \"kubernetes\"\n\
        contexts:\n\
        - context:\n    \
        cluster: \"kubernetes\"\n    \
        user: \"user1\"\n  \
        name: \"kubernetes\"\n\
        current-context: \"kubernetes\"\n\
        kind: \"Config\"\n\
        preferences: {}\n\
        users:\n\
        - name: \"user1\"\n  \
        user:\n    \
        token: \"mytoken\"\n";
    assert_eq!(yaml, expected);
}

#[test]
fn document_has_exactly_one_entry_of_each_kind() {
    let config = assemble("user1", b"certbytes", b"tok").unwrap();
    assert_eq!(config.clusters.len(), 1);
    assert_eq!(config.contexts.len(), 1);
    assert_eq!(config.users.len(), 1);
    assert_eq!(config.current_context, "kubernetes");
    assert_eq!(config.kind, "Config");
    assert_eq!(config.api_version, "v1");
    assert_eq!(config.clusters[0].name, "kubernetes");
    assert_eq!(config.contexts[0].name, "kubernetes");
    assert_eq!(config.users[0].name, "user1");
}

#[test]
fn ca_is_carried_base64_encoded() {
    // standard padded alphabet: "a" -> "YQ==", "ab" -> "YWI="
    let one = assemble("u", b"a", b"t").unwrap();
    assert_eq!(one.clusters[0].certificate_authority_data, "YQ==");
    let two = assemble("u", b"ab", b"t").unwrap();
    assert_eq!(two.clusters[0].certificate_authority_data, "YWI=");
    let empty = assemble("u", b"", b"t").unwrap();
    assert_eq!(empty.clusters[0].certificate_authority_data, "");
}

#[test]
fn token_bytes_must_be_text() {
    let e = assemble("u", b"ca", &[0xff, 0xfe]).unwrap_err();
    assert!(matches!(&e, Error::NotUtf8(f) if f == "token"));
    assert_eq!(e.message(), "Could not parse token");
}

#[test]
fn binary_ca_bytes_are_accepted() {
    // a DER certificate is not text; its bytes are encoded as they are
    let k = assemble("u", &[0xff, 0x01], b"tok").unwrap();
    assert_eq!(k.clusters[0].certificate_authority_data, "/wE=");
}

#[test]
fn payloads_with_breaking_characters_stay_quoted() {
    let k = assemble("user1", b"ca", b"line1\nline2\"x\\y").unwrap();
    let yaml = k.to_yaml();
    assert!(yaml.contains("token: \"line1\\x0aline2\\\"x\\\\y\"\n"));
}

#[test]
fn identity_name_is_required() {
    let e = Kubeconfig::new(None, b"ca".to_vec(), b"tok".to_vec(), SERVER.to_string())
        .unwrap_err();
    assert!(matches!(e, Error::MissingName));
    assert_eq!(e.message(), "ServiceAccount name is missing");
}

#[test]
fn backoff_starts_small_and_caps_at_a_minute() {
    assert_eq!(retry_delay_ms(0), Some(5));
    assert_eq!(retry_delay_ms(1), Some(5000));
    assert_eq!(retry_delay_ms(2), Some(60000));
    assert_eq!(retry_delay_ms(29), Some(60000));
    assert_eq!(retry_delay_ms(30), None);
    assert_eq!(retry_delay_ms(31), None);
}
