//! The dialog that asks the user whether to trust a server certificate.

use vstd::prelude::*;
use crate::cert_prompt::CertificatePrompt;
use crate::text::{append_str, append_u64, decimal, string_of};

verus! {

/// The lines of the dialog for a prompt: a heading, then the server, the
/// certificate's subject and issuer, and its SHA-1 fingerprint.
pub open spec fn prompt_text(p: CertificatePrompt) -> Seq<Seq<char>> {
    seq![
        "Untrusted Server Certificate"@,
        "Server: "@ + p.host@ + ":"@ + decimal(p.port as nat),
        "Subject: "@ + p.subject@,
        "Issuer: "@ + p.issuer@,
        "Fingerprint (SHA1): "@ + p.fingerprint@,
    ]
}

fn labelled(label: &str, value: &str) -> (s: String)
    ensures
        s@ == label@ + value@,
{
    let mut s = string_of(label);
    append_str(&mut s, value);
    s
}

/// The lines of the dialog for a prompt.
pub fn prompt_lines(prompt: &CertificatePrompt) -> (r: Vec<String>)
    ensures
        r@.map_values(|s: String| s@) == prompt_text(*prompt),
{
    let mut server = string_of("Server: ");
    append_str(&mut server, prompt.host.as_str());
    append_str(&mut server, ":");
    append_u64(&mut server, prompt.port as u64);
    let mut r: Vec<String> = Vec::new();
    r.push(string_of("Untrusted Server Certificate"));
    r.push(server);
    r.push(labelled("Subject: ", prompt.subject.as_str()));
    r.push(labelled("Issuer: ", prompt.issuer.as_str()));
    r.push(labelled("Fingerprint (SHA1): ", prompt.fingerprint.as_str()));
    assert(r@.map_values(|s: String| s@) =~= seq![r@[0]@, r@[1]@, r@[2]@, r@[3]@, r@[4]@]);
    r
}

} // verus!
