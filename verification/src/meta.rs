//! Object metadata for everything the controller issues: the universal
//! label, the `expire-by` annotation, the owner back-reference, and the
//! generated-name scheme.

use crate::crd::Request;
use crate::numfmt::{dec_seq_of_int, i64_to_string, push_char};
use rand::RngExt;
use vstd::prelude::*;

verus! {

/// The label key every issued artifact carries.
pub open spec fn managed_by_key() -> Seq<char> {
    "app.kubernetes.io/managed-by"@
}

/// The label value naming this controller.
pub open spec fn managed_by_value() -> Seq<char> {
    "kufefe"@
}

/// The annotation key carrying the expiry stamp.
pub open spec fn expire_by_key() -> Seq<char> {
    "kufefe.io/expire-by"@
}

/// A list of string pairs as its sequence of views.
pub open spec fn kvs_view(v: Seq<(String, String)>) -> Seq<(Seq<char>, Seq<char>)> {
    v.map_values(|p: (String, String)| (p.0@, p.1@))
}

/// Whether a key-value list holds the given pair.
pub open spec fn kv_contains(m: Seq<(Seq<char>, Seq<char>)>, k: Seq<char>, v: Seq<char>) -> bool {
    exists|i: int| 0 <= i < m.len() && m[i] == (k, v)
}

/// An owner back-reference: the resource that issued an artifact.
pub struct OwnerReference {
    pub api_version: String,
    pub kind: String,
    pub name: String,
    pub uid: String,
}

pub struct OwnerReferenceView {
    pub api_version: Seq<char>,
    pub kind: Seq<char>,
    pub name: Seq<char>,
    pub uid: Seq<char>,
}

impl View for OwnerReference {
    type V = OwnerReferenceView;

    open spec fn view(&self) -> OwnerReferenceView {
        OwnerReferenceView {
            api_version: self.api_version@,
            kind: self.kind@,
            name: self.name@,
            uid: self.uid@,
        }
    }
}

/// The metadata record stamped on every resource the controller creates.
pub struct ObjectMeta {
    pub name: Option<String>,
    pub namespace: Option<String>,
    pub labels: Vec<(String, String)>,
    pub annotations: Vec<(String, String)>,
    pub owner_references: Vec<OwnerReference>,
    pub uid: Option<String>,
}

pub struct ObjectMetaView {
    pub name: Option<Seq<char>>,
    pub namespace: Option<Seq<char>>,
    pub labels: Seq<(Seq<char>, Seq<char>)>,
    pub annotations: Seq<(Seq<char>, Seq<char>)>,
    pub owner_references: Seq<OwnerReferenceView>,
    pub uid: Option<Seq<char>>,
}

impl View for ObjectMeta {
    type V = ObjectMetaView;

    open spec fn view(&self) -> ObjectMetaView {
        ObjectMetaView {
            name: match self.name {
                Some(n) => Some(n@),
                None => None,
            },
            namespace: match self.namespace {
                Some(n) => Some(n@),
                None => None,
            },
            labels: kvs_view(self.labels@),
            annotations: kvs_view(self.annotations@),
            owner_references: self.owner_references@.map_values(|o: OwnerReference| o@),
            uid: match self.uid {
                Some(u) => Some(u@),
                None => None,
            },
        }
    }
}

/// The blank metadata record.
pub open spec fn empty_meta_view() -> ObjectMetaView {
    ObjectMetaView {
        name: None,
        namespace: None,
        labels: Seq::empty(),
        annotations: Seq::empty(),
        owner_references: Seq::empty(),
        uid: None,
    }
}

impl Default for ObjectMeta {
    /// Metadata with nothing set.
    fn default() -> (r: Self)
        ensures
            r@ == empty_meta_view(),
    {
        let r = ObjectMeta {
            name: None,
            namespace: None,
            labels: Vec::new(),
            annotations: Vec::new(),
            owner_references: Vec::new(),
            uid: None,
        };
        proof {
            assert(r@.labels =~= empty_meta_view().labels);
            assert(r@.annotations =~= empty_meta_view().annotations);
            assert(r@.owner_references =~= empty_meta_view().owner_references);
        }
        r
    }
}

/// The ownership labels stamped on every issued artifact: exactly the
/// `managed-by` marker the reaper filters on.
pub fn labels() -> (r: Vec<(String, String)>)
    ensures
        kvs_view(r@) =~= seq![(managed_by_key(), managed_by_value())],
{
    let mut m: Vec<(String, String)> = Vec::new();
    m.push(("app.kubernetes.io/managed-by".to_owned(), "kufefe".to_owned()));
    m
}

/// The annotations stamped on every issued artifact: exactly the `expire-by`
/// stamp, rendered in base ten.
pub fn annotations(expiry: i64) -> (r: Vec<(String, String)>)
    ensures
        kvs_view(r@) =~= seq![(expire_by_key(), dec_seq_of_int(expiry as int))],
{
    let mut m: Vec<(String, String)> = Vec::new();
    m.push(("kufefe.io/expire-by".to_owned(), i64_to_string(expiry)));
    m
}

/// An ASCII letter or digit as sampled for name suffixes.
pub open spec fn is_alnum_byte(b: u8) -> bool {
    (48 <= b <= 57) || (65 <= b <= 90) || (97 <= b <= 122)
}

/// A lowercase ASCII letter or digit, the alphabet of generated name
/// suffixes.
pub open spec fn is_lower_alnum(c: char) -> bool {
    ('a' <= c && c <= 'z') || ('0' <= c && c <= '9')
}

/// Relies on rand's `Alphanumeric` distribution: each sampled byte is an
/// ASCII letter or digit (a-z, A-Z, 0-9), drawn from a thread-local
/// generator.
#[verifier::external_body]
fn sample_alphanumeric(len: usize) -> (v: Vec<u8>)
    ensures
        v@.len() == len,
        forall|i: int| 0 <= i < v@.len() ==> is_alnum_byte(#[trigger] v@[i]),
{
    let mut rng = rand::rng();
    let mut v: Vec<u8> = Vec::with_capacity(len);
    for _ in 0..len {
        v.push(rng.sample(rand::distr::Alphanumeric));
    }
    v
}

/// An uppercase ASCII letter folded to lowercase; other bytes unchanged.
pub open spec fn lower_byte(b: u8) -> u8 {
    if 65 <= b <= 90 {
        (b + 32) as u8
    } else {
        b
    }
}

fn lower_byte_exec(b: u8) -> (r: u8)
    ensures
        r == lower_byte(b),
{
    if 65 <= b && b <= 90 {
        b + 32
    } else {
        b
    }
}

/// The prefix of every generated artifact name.
pub open spec fn name_prefix() -> Seq<char> {
    "kufefe-generated-"@
}

/// A well-formed generated artifact name: the controller prefix followed by
/// six lowercase alphanumeric characters.
pub open spec fn is_generated_name(s: Seq<char>) -> bool {
    &&& s.len() == name_prefix().len() + 6
    &&& s.subrange(0, name_prefix().len() as int) == name_prefix()
    &&& forall|i: int|
        name_prefix().len() <= i < s.len() ==> is_lower_alnum(#[trigger] s[i])
}

/// Generates a unique resource name: the controller prefix and a random
/// six-character lowercase alphanumeric suffix.
pub fn generate_name() -> (r: String)
    ensures
        is_generated_name(r@),
{
    let sampled = sample_alphanumeric(6);
    let mut name: String = "kufefe-generated-".to_owned();
    proof {
        reveal_strlit("kufefe-generated-");
        assert(name@.subrange(0, name_prefix().len() as int) =~= name_prefix());
    }
    let ghost prefix_len: int = name_prefix().len() as int;
    let mut i: usize = 0;
    while i < 6
        invariant
            i <= 6,
            sampled@.len() == 6,
            forall|k: int| 0 <= k < sampled@.len() ==> is_alnum_byte(#[trigger] sampled@[k]),
            name@.len() == prefix_len + i,
            prefix_len == name_prefix().len(),
            name@.subrange(0, prefix_len) == name_prefix(),
            forall|k: int| prefix_len <= k < name@.len() ==> is_lower_alnum(#[trigger] name@[k]),
        decreases 6 - i,
    {
        let b = lower_byte_exec(sampled[i]);
        let c: char = b as char;
        proof {
            assert(is_lower_alnum(c));
            assert(name@.push(c).subrange(0, prefix_len) =~= name@.subrange(0, prefix_len));
        }
        push_char(&mut name, c);
        i += 1;
    }
    name
}

/// The owner reference list for an owner whose uid may still be unknown:
/// one back-reference when it is known, none otherwise.
pub open spec fn spec_owner_refs(
    api_version: Seq<char>,
    kind: Seq<char>,
    name: Seq<char>,
    uid: Option<Seq<char>>,
) -> Seq<OwnerReferenceView> {
    match uid {
        Some(u) => seq![
            (OwnerReferenceView { api_version: api_version, kind: kind, name: name, uid: u }),
        ],
        None => Seq::empty(),
    }
}

/// The metadata stamped on an issued resource: the given name and namespace,
/// exactly the universal label, exactly the expiry annotation, and the owner
/// back-reference when the owner's uid is known.
pub open spec fn spec_meta(
    name: Seq<char>,
    namespace: Option<Seq<char>>,
    expiry: int,
    owner_api_version: Seq<char>,
    owner_kind: Seq<char>,
    owner_name: Seq<char>,
    owner_uid: Option<Seq<char>>,
) -> ObjectMetaView {
    ObjectMetaView {
        name: Some(name),
        namespace,
        labels: seq![(managed_by_key(), managed_by_value())],
        annotations: seq![(expire_by_key(), dec_seq_of_int(expiry))],
        owner_references: spec_owner_refs(owner_api_version, owner_kind, owner_name, owner_uid),
        uid: None,
    }
}

/// Creates the metadata stamped on an issued resource, with an owner
/// back-reference to the given resource when its uid is known.
pub fn meta_with_owner(
    name: String,
    namespace: Option<String>,
    expiry: i64,
    owner_api_version: &str,
    owner_kind: &str,
    owner_name: &str,
    owner_uid: Option<&String>,
) -> (m: ObjectMeta)
    ensures
        m@ == spec_meta(
            name@,
            match namespace {
                Some(n) => Some(n@),
                None => None,
            },
            expiry as int,
            owner_api_version@,
            owner_kind@,
            owner_name@,
            match owner_uid {
                Some(u) => Some(u@),
                None => None,
            },
        ),
{
    let mut m = ObjectMeta {
        name: Some(name),
        namespace,
        labels: labels(),
        annotations: annotations(expiry),
        owner_references: Vec::new(),
        uid: None,
    };
    if let Some(uid) = owner_uid {
        let owner_ref = OwnerReference {
            api_version: owner_api_version.to_owned(),
            kind: owner_kind.to_owned(),
            name: owner_name.to_owned(),
            uid: uid.clone(),
        };
        m.owner_references.push(owner_ref);
    }
    proof {
        let ghost v = m@;
        let ghost w = spec_meta(
            v.name.unwrap(),
            v.namespace,
            expiry as int,
            owner_api_version@,
            owner_kind@,
            owner_name@,
            match owner_uid {
                Some(u) => Some(u@),
                None => None,
            },
        );
        assert(v.labels =~= w.labels);
        assert(v.annotations =~= w.annotations);
        assert(v.owner_references =~= w.owner_references);
    }
    m
}

/// Creates metadata for a resource issued for an access request: the
/// supplied or generated name, the namespace, the universal stamp, and an
/// owner back-reference to the request when its uid is known.
pub fn meta(name: Option<String>, namespace: Option<String>, expiry: i64, owner: &Request) -> (m:
    ObjectMeta)
    ensures
        m@ == spec_meta(
            m@.name.unwrap(),
            match namespace {
                Some(n) => Some(n@),
                None => None,
            },
            expiry as int,
            "kufefe.io/v1"@,
            "Request"@,
            request_name_view(owner@),
            owner@.metadata.uid,
        ),
        match name {
            Some(n) => m@.name == Some(n@),
            None => m@.name is Some && is_generated_name(m@.name.unwrap()),
        },
{
    let resolved_name: String = match name {
        Some(n) => n,
        None => generate_name(),
    };
    let owner_name = owner.name_any();
    meta_with_owner(
        resolved_name,
        namespace,
        expiry,
        "kufefe.io/v1",
        "Request",
        owner_name.as_str(),
        owner.metadata.uid.as_ref(),
    )
}

/// A request's name, or the empty string when it has none.
pub open spec fn request_name_view(r: crate::crd::RequestView) -> Seq<char> {
    match r.metadata.name {
        Some(n) => n,
        None => Seq::empty(),
    }
}

/// The owning request's name, or the empty string when it has none.
pub open spec fn owner_name_view(r: &Request) -> Seq<char> {
    request_name_view(r@)
}

} // verus!
