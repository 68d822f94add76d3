use vstd::prelude::*;

verus! {

/// The options of the command that creates or verifies an API token.
pub struct TokenClapOptions {
    pub server: String,
    pub port: String,
    pub ent: String,
    pub user: String,
    pub verify: bool,
    pub raw: bool,
    /// `None`: use what the server says of SAML authentication.
    pub saml: Option<bool>,
}

/// The SAML choice that an option value gives: `true`, `false`, or none.
pub open spec fn saml_spec(s: Seq<char>) -> Option<bool> {
    if s == "true"@ {
        Some(true)
    } else if s == "false"@ {
        Some(false)
    } else {
        None
    }
}

/// Reads the value of the SAML option.
pub fn parse_saml(s: &str) -> (r: Option<bool>)
    ensures
        r == saml_spec(s@),
{
    proof {
        reveal_strlit("true");
        reveal_strlit("false");
    }
    let t = "true";
    let f = "false";
    if equal_text(s, t) {
        Some(true)
    } else if equal_text(s, f) {
        Some(false)
    } else {
        None
    }
}

/// Whether two strings hold the same characters.
fn equal_text(a: &str, b: &str) -> (r: bool)
    ensures
        r == (a@ == b@),
{
    let n = a.unicode_len();
    if n != b.unicode_len() {
        return false;
    }
    let mut i: usize = 0;
    while i < n
        invariant
            n == a@.len(),
            n == b@.len(),
            i <= n,
            forall|k: int| 0 <= k < i ==> a@[k] == b@[k],
        decreases n - i,
    {
        if a.get_char(i) != b.get_char(i) {
            return false;
        }
        i = i + 1;
    }
    assert(a@ =~= b@);
    true
}

impl TokenClapOptions {
    /// The options from the values given on the command line; `saml` is the
    /// text of the SAML option, empty where it was not given.
    pub fn new(server: &str, port: &str, ent: &str, user: &str, verify: bool, raw: bool, saml: &str) -> (r: Self)
        ensures
            r.server@ == server@,
            r.port@ == port@,
            r.ent@ == ent@,
            r.user@ == user@,
            r.verify == verify,
            r.raw == raw,
            r.saml == saml_spec(saml@),
    {
        TokenClapOptions {
            server: server.to_owned(),
            port: port.to_owned(),
            ent: ent.to_owned(),
            user: user.to_owned(),
            verify,
            raw,
            saml: parse_saml(saml),
        }
    }
}

impl Default for TokenClapOptions {
    fn default() -> (r: Self)
        ensures
            r.server@.len() == 0,
            r.port@.len() == 0,
            r.ent@.len() == 0,
            r.user@.len() == 0,
            !r.verify,
            !r.raw,
            r.saml is None,
    {
        TokenClapOptions {
            server: String::new(),
            port: String::new(),
            ent: String::new(),
            user: String::new(),
            verify: false,
            raw: false,
            saml: None,
        }
    }
}

} // verus!
