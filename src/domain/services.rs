//! Descriptions of the services deployed on the cluster, and the remote
//! kubectl commands that read them.

use vstd::prelude::*;
use crate::errors::{concat2, concat3};

verus! {

/// Information about a deployed service.
#[derive(Debug, Clone)]
pub struct ServiceInfo {
    pub name: String,
    pub url: Option<String>,
    pub username: Option<String>,
    pub password: Option<String>,
    pub notes: Option<String>,
}

/// `line` when `o` holds a value, else nothing.
pub open spec fn line_if(o: Option<String>, label: Seq<char>) -> Seq<char> {
    match o {
        Some(v) => label + v@ + "\n"@,
        None => Seq::<char>::empty(),
    }
}

/// The text block that describes a service.
pub open spec fn service_text(s: ServiceInfo) -> Seq<char> {
    s.name@ + ":\n"@ + match s.url {
        Some(u) => "  URL:      "@ + u@ + "\n"@,
        None => "  URL:      Not available\n"@,
    } + line_if(s.username, "  Username: "@) + line_if(s.password, "  Password: "@) + if s.username is None
        && s.password is None {
        "  Auth:     None\n"@
    } else {
        Seq::<char>::empty()
    } + line_if(s.notes, "  Notes:    "@)
}

fn push_line_if(out: &mut String, o: &Option<String>, label: &str)
    ensures
        final(out)@ == old(out)@ + line_if(*o, label@),
{
    match o {
        Some(v) => {
            let line = concat3(label, v, "\n");
            out.append(&line);
        },
        None => {
            assert(out@ + Seq::<char>::empty() =~= out@);
        },
    }
}

impl ServiceInfo {
    pub fn new(name: &str) -> (r: Self)
        ensures
            r.name@ == name@,
            r.url is None && r.username is None && r.password is None && r.notes is None,
    {
        ServiceInfo { name: name.to_owned(), url: None, username: None, password: None, notes: None }
    }

    pub fn with_url(self, url: String) -> (r: Self)
        ensures
            r == (ServiceInfo { url: Some(url), ..self }),
    {
        let mut s = self;
        s.url = Some(url);
        s
    }

    pub fn with_credentials(self, username: String, password: String) -> (r: Self)
        ensures
            r == (ServiceInfo { username: Some(username), password: Some(password), ..self }),
    {
        let mut s = self;
        s.username = Some(username);
        s.password = Some(password);
        s
    }

    pub fn with_note(self, note: String) -> (r: Self)
        ensures
            r == (ServiceInfo { notes: Some(note), ..self }),
    {
        let mut s = self;
        s.notes = Some(note);
        s
    }

    /// The service's description, one labelled line per known detail.
    pub fn render(&self) -> (r: String)
        ensures
            r@ == service_text(*self),
    {
        let mut out = concat2(&self.name, ":\n");
        match &self.url {
            Some(u) => {
                let line = concat3("  URL:      ", u, "\n");
                out.append(&line);
            },
            None => out.append("  URL:      Not available\n"),
        }
        push_line_if(&mut out, &self.username, "  Username: ");
        push_line_if(&mut out, &self.password, "  Password: ");
        if self.username.is_none() && self.password.is_none() {
            out.append("  Auth:     None\n");
        } else {
            assert(out@ + Seq::<char>::empty() =~= out@);
        }
        push_line_if(&mut out, &self.notes, "  Notes:    ");
        assert(out@ =~= service_text(*self));
        out
    }
}

/// The remote command line that runs `kubectl <command>` as root.
pub fn kubectl_command(command: &str) -> (r: String)
    ensures
        r@ == "sudo kubectl "@ + command@,
{
    concat2("sudo kubectl ", command)
}

/// The kubectl arguments that print one decoded key of a secret.
pub fn k8s_secret_command(secret_name: &str, namespace: &str, key: &str) -> (r: String)
    ensures
        r@ == "get secret "@ + secret_name@ + " -n "@ + namespace@ + " -o jsonpath=\"{.data."@ + key@
            + "}\" 2>/dev/null | base64 -d"@,
{
    let a = concat3("get secret ", secret_name, " -n ");
    let b = concat3(namespace, " -o jsonpath=\"{.data.", key);
    let c = a.concat(&b);
    let r = c.concat("}\" 2>/dev/null | base64 -d");
    assert(r@ =~= "get secret "@ + secret_name@ + " -n "@ + namespace@ + " -o jsonpath=\"{.data."@ + key@
        + "}\" 2>/dev/null | base64 -d"@);
    r
}

/// Unicode `White_Space`, the characters that std's `char::is_whitespace`
/// accepts.
pub open spec fn is_white_space(c: char) -> bool {
    let u = c as u32;
    (0x9 <= u <= 0xd) || u == 0x20 || u == 0x85 || u == 0xa0 || u == 0x1680 || (0x2000 <= u <= 0x200a)
        || u == 0x2028 || u == 0x2029 || u == 0x202f || u == 0x205f || u == 0x3000
}

/// `s` without its leading whitespace.
pub open spec fn trim_leading(s: Seq<char>) -> Seq<char>
    decreases s.len(),
{
    if s.len() > 0 && is_white_space(s[0]) {
        trim_leading(s.drop_first())
    } else {
        s
    }
}

/// `s` without its trailing whitespace.
pub open spec fn trim_trailing(s: Seq<char>) -> Seq<char>
    decreases s.len(),
{
    if s.len() > 0 && is_white_space(s.last()) {
        trim_trailing(s.drop_last())
    } else {
        s
    }
}

/// Text without its leading and trailing whitespace.
pub open spec fn trimmed(s: Seq<char>) -> Seq<char> {
    trim_trailing(trim_leading(s))
}

/// Relies on `str::trim`: removes the leading and trailing characters that
/// have the Unicode `White_Space` property.
#[verifier::external_body]
fn trim_text(s: &str) -> (r: String)
    ensures
        r@ == trimmed(s@),
{
    s.trim().to_string()
}

/// A secret's value from the output of the command that decodes it.
pub fn secret_value(output: &str) -> (r: String)
    ensures
        r@ == trimmed(output@),
{
    trim_text(output)
}

} // verus!
