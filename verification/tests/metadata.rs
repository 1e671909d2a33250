use kufefe::crd::{Request, RequestStatus};
use kufefe::error::Error;
use kufefe::meta::{annotations, generate_name, labels, meta, ObjectMeta};
use kufefe::role::{check_role, role_eligible};

fn request_with_uid(name: &str, uid: &str, role: &str) -> Request {
    let mut r = Request::mock();
    r.metadata.name = Some(name.to_string());
    r.metadata.uid = Some(uid.to_string());
    r.spec.role = role.to_string();
    r
}

fn is_lower_alnum(c: char) -> bool {
    c.is_ascii_lowercase() || c.is_ascii_digit()
}

#[test]
fn labels_carry_the_managed_by_marker() {
    let l = labels();
    assert_eq!(l.len(), 1);
    assert_eq!(l[0].0, "app.kubernetes.io/managed-by");
    assert_eq!(l[0].1, "kufefe");
}

#[test]
fn annotations_carry_the_expiry_stamp() {
    let a = annotations(1700003600);
    assert_eq!(a.len(), 1);
    assert_eq!(a[0].0, "kufefe.io/expire-by");
    assert_eq!(a[0].1, "1700003600");
}

#[test]
fn annotations_render_negative_stamps() {
    let a = annotations(-5);
    assert_eq!(a[0].1, "-5");
}

#[test]
fn generated_names_match_the_pattern() {
    for _ in 0..32 {
        let n = generate_name();
        assert_eq!(n.len(), "kufefe-generated-".len() + 6);
        assert!(n.starts_with("kufefe-generated-"));
        assert!(n["kufefe-generated-".len()..].chars().all(is_lower_alnum));
    }
}

#[test]
fn meta_stamps_label_annotation_and_owner() {
    let owner = request_with_uid("r1", "uid-1", "reader");
    let m: ObjectMeta = meta(Some("sa-1".to_string()), Some("default".to_string()), 1234, &owner);
    assert_eq!(m.name, Some("sa-1".to_string()));
    assert_eq!(m.namespace, Some("default".to_string()));
    assert_eq!(m.labels[0], ("app.kubernetes.io/managed-by".to_string(), "kufefe".to_string()));
    assert_eq!(m.annotations[0], ("kufefe.io/expire-by".to_string(), "1234".to_string()));
    assert_eq!(m.owner_references.len(), 1);
    assert_eq!(m.owner_references[0].api_version, "kufefe.io/v1");
    assert_eq!(m.owner_references[0].kind, "Request");
    assert_eq!(m.owner_references[0].name, "r1");
    assert_eq!(m.owner_references[0].uid, "uid-1");
}

#[test]
fn meta_without_uid_has_no_owner_reference() {
    let owner = Request::mock();
    let m = meta(Some("sa-1".to_string()), None, 1234, &owner);
    assert_eq!(m.owner_references.len(), 0);
    assert_eq!(m.namespace, None);
}

#[test]
fn meta_generates_a_name_when_none_is_given() {
    let owner = Request::mock();
    let m = meta(None, None, 1, &owner);
    let n = m.name.unwrap();
    assert!(n.starts_with("kufefe-generated-"));
    assert_eq!(n.len(), 23);
}

#[test]
fn eligible_role_passes_the_gate() {
    let anns = vec![("kufefe.io/role".to_string(), "true".to_string())];
    assert!(role_eligible(Some(&anns)));
    assert!(check_role(Some(&anns)).is_ok());
}

#[test]
fn role_without_marker_is_rejected() {
    let anns = vec![("other".to_string(), "true".to_string())];
    assert!(!role_eligible(Some(&anns)));
    let e = check_role(Some(&anns)).unwrap_err();
    assert!(matches!(e, Error::RoleNotEligible));
    assert_eq!(e.message(), "Role lacks the annotation kufefe.io/role");
}

#[test]
fn role_with_wrong_marker_value_is_rejected() {
    let anns = vec![("kufefe.io/role".to_string(), "false".to_string())];
    assert!(!role_eligible(Some(&anns)));
}

#[test]
fn role_without_annotations_is_rejected() {
    assert!(!role_eligible(None));
    assert!(check_role(None).is_err());
}

#[test]
fn status_mutators_set_their_fields() {
    let mut r = Request::mock();
    r.ready(false);
    r.failed(false);
    r.message("Generated names for resources".to_string());
    r.account_names("sa".to_string(), "tk".to_string(), "rb".to_string());
    r.expires_at(99);
    r.kubeconfig("yaml".to_string());
    let st = r.status.unwrap();
    assert!(!st.ready);
    assert!(!st.failed);
    assert_eq!(st.message, "Generated names for resources");
    assert_eq!(st.service_account_name, "sa");
    assert_eq!(st.token_name, "tk");
    assert_eq!(st.rolebinding_name, "rb");
    assert_eq!(st.expires_at, Some(99));
    assert_eq!(st.kubeconfig.as_deref(), Some("yaml"));
}

#[test]
fn status_mutators_are_idempotent() {
    let mut once = Request::mock();
    once.ready(true);
    once.message("m".to_string());
    let mut twice = Request::mock();
    twice.ready(true);
    twice.ready(true);
    twice.message("m".to_string());
    twice.message("m".to_string());
    let a = once.status.unwrap();
    let b = twice.status.unwrap();
    assert_eq!(a.ready, b.ready);
    assert_eq!(a.message, b.message);
    assert_eq!(a.expires_at, b.expires_at);
}

#[test]
fn expires_at_without_status_is_a_no_op() {
    let mut r = Request::mock();
    r.expires_at(5);
    assert!(r.status.is_none());
    r.kubeconfig("k".to_string());
    assert!(r.status.is_none());
}

#[test]
fn status_new_falls_back_to_the_zero_record() {
    let st = RequestStatus::new(None);
    assert!(!st.ready);
    assert!(!st.failed);
    assert_eq!(st.service_account_name, "");
    assert_eq!(st.expires_at, None);
    assert_eq!(st.kubeconfig, None);
}

#[test]
fn status_new_keeps_an_existing_record() {
    let mut r = Request::mock();
    r.message("kept".to_string());
    let st = RequestStatus::new(r.status);
    assert_eq!(st.message, "kept");
}

#[test]
fn expiry_check_reads_the_status() {
    let probe = Request::mock();
    let mut r = Request::mock();
    r.ready(true);
    assert!(!probe.is_expired_at(&r, 100));
    r.expires_at(50);
    assert!(probe.is_expired_at(&r, 100));
    assert!(!probe.is_expired_at(&r, 50));
    assert!(!probe.is_expired(&Request::mock()));
}
