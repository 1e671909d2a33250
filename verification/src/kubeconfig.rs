//! The client-configuration document issued to the submitter: assembled
//! from the identity's name, the token secret's payload and the cluster
//! URL, and rendered as YAML with exactly one cluster, context and user
//! entry.

use crate::error::Error;
use crate::numfmt::push_char;
use base64::Engine;
use vstd::prelude::*;
use vstd::utf8::{decode_utf8, valid_utf8};

verus! {

/// What the standard base64 engine produces for a byte string. The result
/// is a function of the bytes alone.
pub uninterp spec fn base64_std_of(b: Seq<u8>) -> Seq<char>;

/// Relies on base64's `STANDARD` engine `encode`: the padded standard
/// alphabet encoding, four output characters for every started group of
/// three input bytes.
#[verifier::external_body]
fn base64_encode(b: &Vec<u8>) -> (r: String)
    requires
        b@.len() <= 0x1000_0000_0000_0000,
    ensures
        r@ == base64_std_of(b@),
        r@.len() == 4 * ((b@.len() + 2) / 3),
{
    base64::engine::general_purpose::STANDARD.encode(b)
}

#[verifier::external_type_specification]
#[verifier::external_body]
pub struct ExFromUtf8Error(std::string::FromUtf8Error);

/// Relies on std's `String::from_utf8`: succeeds exactly on valid UTF-8
/// and yields its decoding.
pub assume_specification[ String::from_utf8 ](v: Vec<u8>) -> (r: Result<
    String,
    std::string::FromUtf8Error,
>)
    ensures
        r is Ok <==> valid_utf8(v@),
        r is Ok ==> r->Ok_0@ == decode_utf8(v@),
;

/// One cluster entry: the CA data and the API server URL, under a fixed
/// entry name.
#[derive(Debug)]
pub struct Cluster {
    pub certificate_authority_data: String,
    pub server: String,
    pub name: String,
}

pub struct ClusterView {
    pub certificate_authority_data: Seq<char>,
    pub server: Seq<char>,
    pub name: Seq<char>,
}

impl View for Cluster {
    type V = ClusterView;

    open spec fn view(&self) -> ClusterView {
        ClusterView {
            certificate_authority_data: self.certificate_authority_data@,
            server: self.server@,
            name: self.name@,
        }
    }
}

/// One context entry tying the cluster entry to the user entry.
#[derive(Debug)]
pub struct Context {
    pub cluster: String,
    pub user: String,
    pub name: String,
}

pub struct ContextView {
    pub cluster: Seq<char>,
    pub user: Seq<char>,
    pub name: Seq<char>,
}

impl View for Context {
    type V = ContextView;

    open spec fn view(&self) -> ContextView {
        ContextView { cluster: self.cluster@, user: self.user@, name: self.name@ }
    }
}

/// One user entry: the identity's name and its decoded token.
#[derive(Debug)]
pub struct User {
    pub name: String,
    pub token: String,
}

pub struct UserView {
    pub name: Seq<char>,
    pub token: Seq<char>,
}

impl View for User {
    type V = UserView;

    open spec fn view(&self) -> UserView {
        UserView { name: self.name@, token: self.token@ }
    }
}

/// The client-configuration document.
#[derive(Debug)]
pub struct Kubeconfig {
    pub api_version: String,
    pub clusters: Vec<Cluster>,
    pub contexts: Vec<Context>,
    pub current_context: String,
    pub kind: String,
    pub users: Vec<User>,
}

pub struct KubeconfigView {
    pub api_version: Seq<char>,
    pub clusters: Seq<ClusterView>,
    pub contexts: Seq<ContextView>,
    pub current_context: Seq<char>,
    pub kind: Seq<char>,
    pub users: Seq<UserView>,
}

impl View for Kubeconfig {
    type V = KubeconfigView;

    open spec fn view(&self) -> KubeconfigView {
        KubeconfigView {
            api_version: self.api_version@,
            clusters: self.clusters@.map_values(|c: Cluster| c@),
            contexts: self.contexts@.map_values(|c: Context| c@),
            current_context: self.current_context@,
            kind: self.kind@,
            users: self.users@.map_values(|u: User| u@),
        }
    }
}

/// The fixed entry name shared by the cluster entry, the context entry and
/// the current-context marker.
pub open spec fn fixed_entry_name() -> Seq<char> {
    "kubernetes"@
}

/// The document assembled for identity `sa_name`: version and kind fixed,
/// exactly one cluster entry carrying `ca_data` and `server`, exactly one
/// context entry, and exactly one user entry carrying the decoded `token`.
pub open spec fn spec_kubeconfig(
    sa_name: Seq<char>,
    ca_data: Seq<char>,
    server: Seq<char>,
    token: Seq<char>,
) -> KubeconfigView {
    KubeconfigView {
        api_version: "v1"@,
        clusters: seq![
            (ClusterView {
                certificate_authority_data: ca_data,
                server: server,
                name: fixed_entry_name(),
            }),
        ],
        contexts: seq![
            (ContextView { cluster: fixed_entry_name(), user: sa_name, name: fixed_entry_name() }),
        ],
        current_context: fixed_entry_name(),
        kind: "Config"@,
        users: seq![(UserView { name: sa_name, token: token })],
    }
}

impl Kubeconfig {
    /// Assembles the document from the identity's name, the raw `ca.crt`
    /// and `token` payload bytes, and the cluster URL. Succeeds exactly
    /// when the name is present and the token bytes are valid UTF-8; the CA
    /// bytes are carried base64-encoded as they are, the token decoded.
    pub fn new(sa_name: Option<String>, ca: Vec<u8>, token: Vec<u8>, server: String) -> (r: Result<
        Kubeconfig,
        Error,
    >)
        requires
            ca@.len() <= 0x1000_0000_0000_0000,
        ensures
            match r {
                Ok(c) => valid_utf8(token@) && sa_name is Some && c@ == spec_kubeconfig(
                    sa_name.unwrap()@,
                    base64_std_of(ca@),
                    server@,
                    decode_utf8(token@),
                ),
                Err(e) => {
                    ||| (sa_name is None && e is MissingName)
                    ||| (!valid_utf8(token@) && (e matches Error::NotUtf8(f) && f@ == "token"@))
                },
            },
            r is Ok <==> sa_name is Some && valid_utf8(token@),
    {
        let sa_name = match sa_name {
            Some(n) => n,
            None => {
                return Err(Error::MissingName);
            },
        };
        let ca_data = base64_encode(&ca);
        let token_str = match String::from_utf8(token) {
            Ok(t) => t,
            Err(_) => {
                return Err(Error::NotUtf8("token".to_owned()));
            },
        };
        let mut clusters: Vec<Cluster> = Vec::new();
        clusters.push(
            Cluster {
                certificate_authority_data: ca_data,
                server,
                name: "kubernetes".to_owned(),
            },
        );
        let mut contexts: Vec<Context> = Vec::new();
        contexts.push(
            Context {
                cluster: "kubernetes".to_owned(),
                user: sa_name.clone(),
                name: "kubernetes".to_owned(),
            },
        );
        let mut users: Vec<User> = Vec::new();
        users.push(User { name: sa_name, token: token_str });
        let c = Kubeconfig {
            api_version: "v1".to_owned(),
            clusters,
            contexts,
            current_context: "kubernetes".to_owned(),
            kind: "Config".to_owned(),
            users,
        };
        proof {
            let ghost expected = spec_kubeconfig(
                c@.users[0].name,
                base64_std_of(ca@),
                server@,
                decode_utf8(token@),
            );
            assert(c@.clusters =~= expected.clusters);
            assert(c@.contexts =~= expected.contexts);
            assert(c@.users =~= expected.users);
        }
        Ok(c)
    }
}

/// A well-formed configuration: exactly one cluster entry, one context
/// entry and one user entry.
pub open spec fn wf_kubeconfig(c: KubeconfigView) -> bool {
    c.clusters.len() == 1 && c.contexts.len() == 1 && c.users.len() == 1
}

/// Every assembled configuration is well-formed.
pub proof fn lemma_assembled_wf(
    sa_name: Seq<char>,
    ca_data: Seq<char>,
    server: Seq<char>,
    token: Seq<char>,
)
    ensures
        wf_kubeconfig(spec_kubeconfig(sa_name, ca_data, server, token)),
{
}

/// The lowercase hexadecimal digit for a value below sixteen.
pub open spec fn hex_digit_char(d: nat) -> char {
    if d == 0 {
        '0'
    } else if d == 1 {
        '1'
    } else if d == 2 {
        '2'
    } else if d == 3 {
        '3'
    } else if d == 4 {
        '4'
    } else if d == 5 {
        '5'
    } else if d == 6 {
        '6'
    } else if d == 7 {
        '7'
    } else if d == 8 {
        '8'
    } else if d == 9 {
        '9'
    } else if d == 10 {
        'a'
    } else if d == 11 {
        'b'
    } else if d == 12 {
        'c'
    } else if d == 13 {
        'd'
    } else if d == 14 {
        'e'
    } else {
        'f'
    }
}

/// How one character stands inside a double-quoted document scalar:
/// backslash and double quote are backslash-escaped; control characters and
/// the Unicode line separators are written as escape codes, so that no
/// value can break out of its quotes or its line; every other character
/// stands as itself.
pub open spec fn yaml_escape_char(c: char) -> Seq<char> {
    if c == '\\' {
        seq!['\\', '\\']
    } else if c == '"' {
        seq!['\\', '"']
    } else if (c as u32) < 0x20 || c as u32 == 0x85 {
        seq![
            '\\',
            'x',
            hex_digit_char((c as u32 / 16) as nat),
            hex_digit_char((c as u32 % 16) as nat),
        ]
    } else if c as u32 == 0x2028 || c as u32 == 0x2029 {
        seq!['\\', 'u', '2', '0', '2', hex_digit_char((c as u32 % 16) as nat)]
    } else {
        seq![c]
    }
}

/// A character sequence with every character escaped for a double-quoted
/// scalar.
pub open spec fn yaml_escape(s: Seq<char>) -> Seq<char>
    decreases s.len(),
{
    if s.len() == 0 {
        Seq::empty()
    } else {
        yaml_escape(s.drop_last()) + yaml_escape_char(s.last())
    }
}

/// A value as it stands in the document: double-quoted, with every
/// character escaped.
pub open spec fn yaml_quoted(s: Seq<char>) -> Seq<char> {
    seq!['"'] + yaml_escape(s) + seq!['"']
}

/// A character that cannot end a quoted scalar early: not a line break or
/// other control character, and not one of the Unicode line separators.
pub open spec fn is_inline_char(c: char) -> bool {
    c as u32 >= 0x20 && c as u32 != 0x85 && c as u32 != 0x2028 && c as u32 != 0x2029
}

proof fn lemma_yaml_escape_char_inline(c: char)
    ensures
        forall|j: int|
            0 <= j < yaml_escape_char(c).len() ==> is_inline_char(#[trigger] yaml_escape_char(c)[j]),
{
}

/// An escaped value stays on its line: no character of it is a line break
/// or other control character, so the rendered document's layout cannot be
/// disturbed by any payload.
pub proof fn lemma_yaml_escape_inline(s: Seq<char>)
    ensures
        forall|i: int| 0 <= i < yaml_escape(s).len() ==> is_inline_char(#[trigger] yaml_escape(s)[i]),
    decreases s.len(),
{
    if s.len() > 0 {
        lemma_yaml_escape_inline(s.drop_last());
        lemma_yaml_escape_char_inline(s.last());
        let prefix = yaml_escape(s.drop_last());
        let suffix = yaml_escape_char(s.last());
        assert forall|i: int| 0 <= i < yaml_escape(s).len() implies is_inline_char(
            #[trigger] yaml_escape(s)[i],
        ) by {
            if i < prefix.len() {
                assert(yaml_escape(s)[i] == prefix[i]);
            } else {
                assert(yaml_escape(s)[i] == suffix[i - prefix.len()]);
            }
        }
    }
}

fn hex_digit_exec(d: u32) -> (c: char)
    requires
        d < 16,
    ensures
        c == hex_digit_char(d as nat),
{
    match d {
        0 => '0',
        1 => '1',
        2 => '2',
        3 => '3',
        4 => '4',
        5 => '5',
        6 => '6',
        7 => '7',
        8 => '8',
        9 => '9',
        10 => 'a',
        11 => 'b',
        12 => 'c',
        13 => 'd',
        14 => 'e',
        _ => 'f',
    }
}

/// Renders a value for the document: double-quoted, every character
/// escaped.
fn yaml_quote(s: &str) -> (r: String)
    ensures
        r@ == yaml_quoted(s@),
{
    let mut out = String::new();
    push_char(&mut out, '"');
    let len: usize = s.unicode_len();
    let mut i: usize = 0;
    while i < len
        invariant
            i <= len,
            len == s@.len(),
            out@ == seq!['"'] + yaml_escape(s@.take(i as int)),
        decreases len - i,
    {
        let c = s.get_char(i);
        proof {
            assert(s@.take(i + 1).drop_last() =~= s@.take(i as int));
            assert(s@.take(i + 1).last() == s@[i as int]);
        }
        let v: u32 = c as u32;
        if c == '\\' {
            push_char(&mut out, '\\');
            push_char(&mut out, '\\');
        } else if c == '"' {
            push_char(&mut out, '\\');
            push_char(&mut out, '"');
        } else if v < 0x20 || v == 0x85 {
            push_char(&mut out, '\\');
            push_char(&mut out, 'x');
            push_char(&mut out, hex_digit_exec(v / 16));
            push_char(&mut out, hex_digit_exec(v % 16));
        } else if v == 0x2028 || v == 0x2029 {
            push_char(&mut out, '\\');
            push_char(&mut out, 'u');
            push_char(&mut out, '2');
            push_char(&mut out, '0');
            push_char(&mut out, '2');
            push_char(&mut out, hex_digit_exec(v % 16));
        } else {
            push_char(&mut out, c);
        }
        proof {
            assert(out@ =~= seq!['"'] + yaml_escape(s@.take(i + 1)));
        }
        i += 1;
    }
    push_char(&mut out, '"');
    proof {
        assert(s@.take(len as int) =~= s@);
        assert(out@ =~= yaml_quoted(s@));
    }
    out
}

/// The YAML rendering of a well-formed configuration: the fixed document
/// skeleton with the six field values of the single cluster, context and
/// user entry interpolated, each double-quoted and escaped.
pub open spec fn spec_yaml(c: KubeconfigView) -> Seq<char>
    recommends
        wf_kubeconfig(c),
{
    "apiVersion: "@ + yaml_quoted(c.api_version)
        + "\nclusters:\n- cluster:\n    certificate-authority-data: "@ + yaml_quoted(
        c.clusters[0].certificate_authority_data,
    ) + "\n    server: "@ + yaml_quoted(c.clusters[0].server) + "\n  name: "@ + yaml_quoted(
        c.clusters[0].name,
    ) + "\ncontexts:\n- context:\n    cluster: "@ + yaml_quoted(c.contexts[0].cluster)
        + "\n    user: "@ + yaml_quoted(c.contexts[0].user) + "\n  name: "@ + yaml_quoted(
        c.contexts[0].name,
    ) + "\ncurrent-context: "@ + yaml_quoted(c.current_context) + "\nkind: "@ + yaml_quoted(c.kind)
        + "\npreferences: {}\nusers:\n- name: "@ + yaml_quoted(c.users[0].name)
        + "\n  user:\n    token: "@ + yaml_quoted(c.users[0].token) + "\n"@
}

impl Kubeconfig {
    /// Renders the document as YAML.
    pub fn to_yaml(&self) -> (r: String)
        requires
            wf_kubeconfig(self@),
        ensures
            r@ == spec_yaml(self@),
    {
        let r = "apiVersion: ".to_owned().concat(yaml_quote(self.api_version.as_str()).as_str())
            .concat("\nclusters:\n- cluster:\n    certificate-authority-data: ").concat(
            yaml_quote(self.clusters[0].certificate_authority_data.as_str()).as_str(),
        ).concat("\n    server: ").concat(yaml_quote(self.clusters[0].server.as_str()).as_str())
            .concat("\n  name: ").concat(yaml_quote(self.clusters[0].name.as_str()).as_str())
            .concat("\ncontexts:\n- context:\n    cluster: ").concat(
            yaml_quote(self.contexts[0].cluster.as_str()).as_str(),
        ).concat("\n    user: ").concat(yaml_quote(self.contexts[0].user.as_str()).as_str())
            .concat("\n  name: ").concat(yaml_quote(self.contexts[0].name.as_str()).as_str())
            .concat("\ncurrent-context: ").concat(
            yaml_quote(self.current_context.as_str()).as_str(),
        ).concat("\nkind: ").concat(yaml_quote(self.kind.as_str()).as_str()).concat(
            "\npreferences: {}\nusers:\n- name: ",
        ).concat(yaml_quote(self.users[0].name.as_str()).as_str()).concat(
            "\n  user:\n    token: ",
        ).concat(yaml_quote(self.users[0].token.as_str()).as_str()).concat("\n");
        proof {
            assert(r@ =~= spec_yaml(self@));
        }
        r
    }
}

/// How long to pause before retry attempt `n` at reading a token-secret
/// field: five milliseconds at first, then five seconds, then capped at
/// sixty seconds.
pub open spec fn spec_backoff_ms(n: nat) -> nat {
    if n == 0 {
        5
    } else if n == 1 {
        5000
    } else {
        60000
    }
}

/// The bound on read attempts per secret field.
pub open spec fn max_attempts() -> nat {
    30
}

/// The pause before retry attempt `attempt`, or `None` when the attempt
/// budget is spent and the retry must give up.
pub fn retry_delay_ms(attempt: u64) -> (r: Option<u64>)
    ensures
        attempt < max_attempts() ==> r == Some((spec_backoff_ms(attempt as nat) as u64)),
        attempt >= max_attempts() ==> r is None,
{
    if attempt >= 30 {
        None
    } else if attempt == 0 {
        Some(5)
    } else if attempt == 1 {
        Some(5000)
    } else {
        Some(60000)
    }
}

} // verus!
