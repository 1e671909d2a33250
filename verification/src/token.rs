//! The credential secret bound to an issued identity. The platform fills
//! its payload asynchronously; picking fields out of that payload is the
//! logic here.

use crate::error::Error;
use crate::meta::{meta_with_owner, spec_meta, ObjectMeta, ObjectMetaView};
use vstd::prelude::*;

verus! {

/// The annotation binding a token secret to its service identity.
pub open spec fn sa_name_key() -> Seq<char> {
    "kubernetes.io/service-account.name"@
}

/// The platform-defined type of a service-account token secret.
pub open spec fn sa_token_type() -> Seq<char> {
    "kubernetes.io/service-account-token"@
}

/// A token secret record, ready to be created on the cluster.
pub struct Token {
    pub metadata: ObjectMeta,
    pub type_: String,
}

pub struct TokenView {
    pub metadata: ObjectMetaView,
    pub type_: Seq<char>,
}

impl View for Token {
    type V = TokenView;

    open spec fn view(&self) -> TokenView {
        TokenView { metadata: self.metadata@, type_: self.type_@ }
    }
}

/// The token secret issued for the identity `sa_name`: stamped metadata
/// with the identity-binding annotation added, an owner back-reference to
/// the identity when its uid is known, and the platform token type.
pub open spec fn spec_token(
    name: Seq<char>,
    namespace: Seq<char>,
    expiry: int,
    sa_name: Seq<char>,
    sa_uid: Option<Seq<char>>,
) -> TokenView {
    let base = spec_meta(
        name,
        Some(namespace),
        expiry,
        "v1"@,
        "ServiceAccount"@,
        sa_name,
        sa_uid,
    );
    TokenView {
        metadata: ObjectMetaView {
            annotations: base.annotations.push((sa_name_key(), sa_name)),
            ..base
        },
        type_: sa_token_type(),
    }
}

/// The first entry of a secret's payload under the given key, if any.
pub open spec fn spec_secret_field(m: Seq<(String, Vec<u8>)>, key: Seq<char>) -> Option<Seq<u8>>
    decreases m.len(),
{
    if m.len() == 0 {
        None
    } else if m[0].0@ == key {
        Some(m[0].1@)
    } else {
        spec_secret_field(m.drop_first(), key)
    }
}

impl Token {
    /// Builds the token secret record for the identity `sa_name`.
    pub fn new(
        name: String,
        namespace: String,
        expiry: i64,
        sa_name: String,
        sa_uid: Option<&String>,
    ) -> (r: Self)
        ensures
            r@ == spec_token(name@, namespace@, expiry as int, sa_name@, match sa_uid {
                Some(u) => Some(u@),
                None => None,
            }),
    {
        let mut metadata = meta_with_owner(
            name,
            Some(namespace),
            expiry,
            "v1",
            "ServiceAccount",
            sa_name.as_str(),
            sa_uid,
        );
        metadata.annotations.push(("kubernetes.io/service-account.name".to_owned(), sa_name));
        let r = Token { metadata, type_: "kubernetes.io/service-account-token".to_owned() };
        proof {
            let ghost expected = spec_token(
                r@.metadata.name.unwrap(),
                r@.metadata.namespace.unwrap(),
                expiry as int,
                r@.metadata.annotations.last().1,
                match sa_uid {
                    Some(u) => Some(u@),
                    None => None,
                },
            );
            assert(r@.metadata.annotations =~= expected.metadata.annotations);
        }
        r
    }

    /// Picks the named field out of a secret's payload: the payload map when
    /// the secret carries one, the first entry under the key when the map
    /// holds it. Errors say exactly which part was missing.
    pub fn data(data: Option<&Vec<(String, Vec<u8>)>>, key: &str) -> (r: Result<Vec<u8>, Error>)
        ensures
            match data {
                None => r is Err && r->Err_0 is SecretNoData,
                Some(m) => match spec_secret_field(m@, key@) {
                    Some(v) => r is Ok && r->Ok_0@ == v,
                    None => r is Err && (r->Err_0 matches Error::MissingField(f) && f@ == key@),
                },
            },
    {
        match data {
            None => Err(Error::SecretNoData),
            Some(m) => {
                let key_string: String = key.to_owned();
                proof {
                    assert(m@.subrange(0, m@.len() as int) =~= m@);
                }
                let mut i: usize = 0;
                while i < m.len()
                    invariant
                        data == Some(m),
                        key_string@ == key@,
                        i <= m@.len(),
                        spec_secret_field(m@, key@) == spec_secret_field(
                            m@.subrange(i as int, m@.len() as int),
                            key@,
                        ),
                    decreases m@.len() - i,
                {
                    proof {
                        assert(m@.subrange(i as int, m@.len() as int).drop_first() =~= m@.subrange(
                            i + 1,
                            m@.len() as int,
                        ));
                        assert(m@.subrange(i as int, m@.len() as int)[0] == m@[i as int]);
                    }
                    if m[i].0 == key_string {
                        return Ok(m[i].1.clone());
                    }
                    i += 1;
                }
                proof {
                    assert(m@.subrange(m@.len() as int, m@.len() as int).len() == 0);
                }
                Err(Error::MissingField(key.to_owned()))
            },
        }
    }
}

} // verus!
