//! Git's smart HTTP protocol: which services are offered, who may use
//! them, and the framing of the reference advertisement.
use vstd::prelude::*;
use vstd::string::*;
use vstd::utf8::encode_utf8;
use crate::error::{ServiceError, bad_request};
use crate::names::{byte_len, utf8_length};
use crate::text::{hex4, hex_value, is_hex_digit, lemma_hex4_roundtrip, owned, push_hex4, str_equal};

verus! {

/// The repository a git route addresses.
pub struct GitParams {
    pub owner: String,
    pub repo: String,
}

/// The `service` query parameter of a reference advertisement request.
pub struct ServiceQuery {
    pub service: String,
}

/// The git services offered over HTTP.
#[derive(Debug, Clone, PartialEq, Eq)]
pub enum GitService {
    /// Fetching and cloning.
    UploadPack,
    /// Pushing.
    ReceivePack,
}

impl GitService {
    /// The service's name on the wire, such as `git-upload-pack`.
    pub open spec fn wire_name(self) -> Seq<char> {
        match self {
            GitService::UploadPack => "git-upload-pack"@,
            GitService::ReceivePack => "git-receive-pack"@,
        }
    }

    /// The git subcommand that serves it, such as `upload-pack`.
    pub open spec fn subcommand(self) -> Seq<char> {
        match self {
            GitService::UploadPack => "upload-pack"@,
            GitService::ReceivePack => "receive-pack"@,
        }
    }

    /// The git subcommand that serves the service.
    pub fn program(&self) -> (p: String)
        ensures
            p@ == self.subcommand(),
    {
        match self {
            GitService::UploadPack => owned("upload-pack"),
            GitService::ReceivePack => owned("receive-pack"),
        }
    }

    /// The content type of the service's response to a pack request.
    pub fn result_content_type(&self) -> (t: String)
        ensures
            t@ == (match self {
                GitService::UploadPack => "application/x-git-upload-pack-result"@,
                GitService::ReceivePack => "application/x-git-receive-pack-result"@,
            }),
    {
        match self {
            GitService::UploadPack => owned("application/x-git-upload-pack-result"),
            GitService::ReceivePack => owned("application/x-git-receive-pack-result"),
        }
    }
}

impl ServiceQuery {
    /// The service asked for; anything but the two git services is refused.
    pub fn git_service(&self) -> (r: Result<GitService, ServiceError>)
        ensures
            self.service@ == "git-upload-pack"@ ==> r == Ok::<GitService, ServiceError>(GitService::UploadPack),
            self.service@ == "git-receive-pack"@ ==> r == Ok::<GitService, ServiceError>(GitService::ReceivePack),
            r matches Ok(s) ==> s.wire_name() == self.service@,
            r matches Err(e) ==> e.is_bad_request("Invalid service."@),
    {
        proof {
            reveal_strlit("git-upload-pack");
            reveal_strlit("git-receive-pack");
            assert("git-upload-pack"@.len() == 15);
            assert("git-receive-pack"@.len() == 16);
            assert("git-upload-pack"@ != "git-receive-pack"@);
        }
        if str_equal(self.service.as_str(), "git-upload-pack") {
            Ok(GitService::UploadPack)
        } else if str_equal(self.service.as_str(), "git-receive-pack") {
            Ok(GitService::ReceivePack)
        } else {
            Err(bad_request("Invalid service."))
        }
    }
}

/// Fetching from a private repository requires signing in.
pub fn check_fetch_access(is_private: bool, signed_in: bool) -> (r: Result<(), ServiceError>)
    ensures
        r is Ok <==> (!is_private || signed_in),
        r matches Err(e) ==> e is Unauthorized,
{
    if is_private && !signed_in {
        Err(ServiceError::Unauthorized)
    } else {
        Ok(())
    }
}

/// Pushing always requires signing in.
pub fn check_push_access(signed_in: bool) -> (r: Result<(), ServiceError>)
    ensures
        r is Ok <==> signed_in,
        r matches Err(e) ==> e is Unauthorized,
{
    if signed_in {
        Ok(())
    } else {
        Err(ServiceError::Unauthorized)
    }
}

/// The content type of a reference advertisement for `service`.
pub fn advertisement_content_type(service: &str) -> (t: String)
    ensures
        t@ == "application/x-"@ + service@ + "-advertisement"@,
{
    let mut t = owned("application/x-");
    t.append(service);
    t.append("-advertisement");
    t
}

/// A pkt-line: the payload preceded by its length, prefix included, in four
/// lowercase hex digits (more when it does not fit in four).
pub open spec fn pkt_line(payload: Seq<char>) -> Seq<char> {
    hex4(byte_len(payload) + 4) + payload
}

/// The line announcing the service: `# service=<service>` and a newline.
pub open spec fn service_line(service: Seq<char>) -> Seq<char> {
    "# service="@ + service + seq!['\n']
}

/// The pkt-line that opens a reference advertisement.
pub fn service_announcement(service: &str) -> (a: String)
    requires
        byte_len(service@) < 0xFFFF_FFFF_FFFF_0000,
    ensures
        a@ == pkt_line(service_line(service@)),
{
    let mut payload = owned("# service=");
    payload.append(service);
    crate::text::push_char(&mut payload, '\n');
    proof {
        lemma_byte_len_concat("# service="@ + service@, seq!['\n']);
        lemma_byte_len_concat("# service="@, service@);
        reveal_strlit("# service=");
        lemma_ascii_byte_len("# service="@);
        lemma_ascii_byte_len(seq!['\n']);
        assert(payload@ == service_line(service@));
    }
    let n = utf8_length(payload.as_str());
    let mut a = String::new();
    push_hex4(&mut a, (n + 4) as u64);
    a.append(payload.as_str());
    a
}

/// The body of a reference advertisement: the service announcement, then
/// the references git listed.
pub fn advertisement_body(service: &str, refs: &str) -> (b: String)
    requires
        byte_len(service@) < 0xFFFF_FFFF_FFFF_0000,
    ensures
        b@ == pkt_line(service_line(service@)) + refs@,
{
    let mut b = service_announcement(service);
    b.append(refs);
    b
}

/// The UTF-8 length of a concatenation is the sum of the lengths.
pub proof fn lemma_byte_len_concat(a: Seq<char>, b: Seq<char>)
    ensures
        byte_len(a + b) == byte_len(a) + byte_len(b),
        encode_utf8(a + b) == encode_utf8(a) + encode_utf8(b),
    decreases a.len(),
{
    if a.len() == 0 {
        assert(a + b =~= b);
        assert(encode_utf8(a) =~= Seq::<u8>::empty());
        assert(encode_utf8(a) + encode_utf8(b) =~= encode_utf8(b));
    } else {
        lemma_byte_len_concat(a.drop_first(), b);
        assert((a + b).drop_first() =~= a.drop_first() + b);
        assert((a + b)[0] == a[0]);
        assert(encode_utf8(a + b) =~= encode_utf8(a) + encode_utf8(b));
    }
}

/// ASCII text takes one byte per character.
pub proof fn lemma_ascii_byte_len(s: Seq<char>)
    requires
        forall|i: int| 0 <= i < s.len() ==> (s[i] as u32) < 128,
    ensures
        byte_len(s) == s.len(),
    decreases s.len(),
{
    if s.len() > 0 {
        assert forall|i: int| 0 <= i < s.drop_first().len() implies (s.drop_first()[i] as u32) < 128 by {
            assert(s.drop_first()[i] == s[i + 1]);
        }
        lemma_ascii_byte_len(s.drop_first());
    }
}

/// pkt-line framing: when a line is shorter than 65536 bytes, its first four
/// characters are hex digits whose value is the byte length of the whole
/// line, prefix included, and the payload follows them unchanged.
pub proof fn lemma_pkt_line_length_prefix(payload: Seq<char>)
    requires
        byte_len(payload) + 4 < 65536,
    ensures
        hex_value(pkt_line(payload).subrange(0, 4)) == byte_len(pkt_line(payload)),
        pkt_line(payload).subrange(4, pkt_line(payload).len() as int) == payload,
{
    let n = (byte_len(payload) + 4) as nat;
    lemma_hex4_roundtrip(n);
    let line = pkt_line(payload);
    assert(line.subrange(0, 4) =~= hex4(n));
    assert(line.subrange(4, line.len() as int) =~= payload);
    lemma_byte_len_concat(hex4(n), payload);
    assert forall|i: int| 0 <= i < hex4(n).len() implies (hex4(n)[i] as u32) < 128 by {
        assert(is_hex_digit(hex4(n)[i]));
    }
    lemma_ascii_byte_len(hex4(n));
}

} // verus!
