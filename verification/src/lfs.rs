//! The credential-exchange helper for the engine's large-file-storage
//! extension.
//!
//! The transport asks the remote side for a short-lived credential and
//! hands back a raw reply buffer; this module owns the decision part:
//! whether the exchange is attempted at all (only with transport callbacks
//! in place), which reply lengths are admissible, and what a well-formed
//! reply parses to.

use vstd::prelude::*;

verus! {

/// The size of the reply buffer the transport fills; a reply must be
/// strictly shorter to be read.
pub const REPLY_BUF_LEN: i32 = 4096;

/// The authorization header of a granted credential.
#[derive(Clone, Debug)]
pub struct LfsAuthHdr {
    /// The token the storage server expects, verbatim.
    pub authorization: String,
}

/// A granted large-file-storage credential.
#[derive(Clone, Debug)]
pub struct LfsAuth {
    /// The header to present to the storage server.
    pub header: LfsAuthHdr,
    /// The storage endpoint the credential is good for.
    pub href: String,
    /// The credential's lifetime, in seconds.
    pub expires_in: u32,
}

/// A stand-in for the transport's callback table. Its contents are
/// consumed by the transport layer that performs the exchange; the
/// decision logic only cares whether one was supplied.
pub struct RemoteCallbacks {}

/// What a reply buffer parses to: the credential carried by a JSON body
/// holding the authorization header, the endpoint and the lifetime, or
/// nothing for any other byte sequence.
pub uninterp spec fn lfs_reply_of(b: Seq<u8>) -> Option<LfsAuth>;

/// Relies on serde_json::from_slice and the field accessors of
/// serde_json::Value: the parse of a credential reply depends on the bytes
/// alone, and yields a credential exactly when the bytes are one JSON
/// object carrying a string under "header"."Authorization", a string under
/// "href", and an unsigned number under "expires_in" that fits 32 bits.
#[verifier::external_body]
fn parse_reply(reply: &Vec<u8>, len: usize) -> (r: Option<LfsAuth>)
    requires
        len <= reply@.len(),
    ensures
        r == lfs_reply_of(reply@.take(len as int)),
{
    let v: serde_json::Value = serde_json::from_slice(&reply[..len]).ok()?;
    let href = v.get("href")?.as_str()?.to_owned();
    let authorization = v.get("header")?.get("Authorization")?.as_str()?.to_owned();
    let expires_in = u32::try_from(v.get("expires_in")?.as_u64()?).ok()?;
    Some(LfsAuth { header: LfsAuthHdr { authorization }, href, expires_in })
}

/// What the exchange yields for a given reply: the parse of the reply's
/// first `reply_len` bytes when that length is positive, strictly under
/// the buffer size and within the buffer; nothing otherwise.
pub open spec fn spec_auth_reply(reply: Seq<u8>, reply_len: int) -> Option<LfsAuth> {
    if 0 < reply_len && reply_len < REPLY_BUF_LEN && reply_len <= reply.len() {
        lfs_reply_of(reply.take(reply_len))
    } else {
        None
    }
}

/// The credential-exchange helper for one repository URL.
pub struct LfsAuthenticate {
    remote_callbacks: Option<RemoteCallbacks>,
    repo_url: String,
}

impl LfsAuthenticate {
    /// The repository URL the exchange asks about.
    pub closed spec fn spec_repo_url(&self) -> Seq<char> {
        self.repo_url@
    }

    /// Whether transport callbacks were supplied.
    pub closed spec fn spec_has_callbacks(&self) -> bool {
        self.remote_callbacks is Some
    }

    /// A helper for one repository URL, with no transport callbacks yet.
    pub fn new(repo: &str) -> (r: Self)
        ensures
            r.spec_repo_url() == repo@,
            !r.spec_has_callbacks(),
    {
        LfsAuthenticate { remote_callbacks: None, repo_url: repo.to_owned() }
    }

    /// Supply the transport callbacks the exchange will use.
    pub fn remote_callbacks(&mut self, remote_callbacks: RemoteCallbacks) -> (r: &mut Self)
        ensures
            (*r).spec_has_callbacks(),
            (*r).spec_repo_url() == old(self).spec_repo_url(),
            *final(self) == *final(r),
    {
        self.remote_callbacks = Some(remote_callbacks);
        self
    }

    /// The exchange's decision for a transport reply: without callbacks no
    /// exchange was possible and nothing is granted; with them, the reply
    /// is read exactly when its reported length is positive, strictly
    /// under the buffer size and within the buffer, and grants whatever it
    /// parses to.
    pub fn auth(&self, reply: &Vec<u8>, reply_len: i32) -> (r: Option<LfsAuth>)
        ensures
            r == (if self.spec_has_callbacks() {
                spec_auth_reply(reply@, reply_len as int)
            } else {
                None
            }),
    {
        match &self.remote_callbacks {
            Some(_) => self.auth_with(reply, reply_len),
            None => None,
        }
    }

    /// Read a transport reply, whatever callbacks produced it: admissible
    /// lengths are parsed, every other reported length grants nothing.
    pub fn auth_with(&self, reply: &Vec<u8>, reply_len: i32) -> (r: Option<LfsAuth>)
        ensures
            r == spec_auth_reply(reply@, reply_len as int),
    {
        if reply_len > 0 && reply_len < REPLY_BUF_LEN {
            let len = reply_len as usize;
            if len <= reply.len() {
                return parse_reply(reply, len);
            }
        }
        None
    }
}

} // verus!
