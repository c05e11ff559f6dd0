//! The download pipeline: what happens to a downloaded artifact once it has
//! been written to its destination, and how an install is reported.
use vstd::prelude::*;
use crate::digest::{digest_accepts, sha256_hex_of, verify_digest};
use crate::resolver::{ArtifactDescriptor, Channel, InstallError};

verus! {

/// The verdict on a stored artifact.
#[derive(Debug, PartialEq, Eq)]
pub struct StoreOutcome {
    /// The verified digest, `None` for an unverified install, or the error.
    pub result: Result<Option<String>, InstallError>,
    /// Whether the stored file must be deleted.
    pub remove_file: bool,
}

/// A model of the files on disk: contents by path.
pub type Files = Map<Seq<char>, Seq<u8>>;

/// Whether an artifact with declared digest `expected` and contents `data` is rejected.
pub open spec fn rejected(expected: Option<String>, data: Seq<u8>) -> bool {
    match expected {
        Some(d) => !digest_accepts(data, d@),
        None => false,
    }
}

/// The files after `data` was written to `path` and, if `remove`, deleted again.
pub open spec fn files_after_store(files: Files, path: Seq<char>, data: Seq<u8>, remove: bool) -> Files {
    let written = files.insert(path, data);
    if remove {
        written.remove(path)
    } else {
        written
    }
}

/// Decides the fate of `data`, already written to `desc.destination`.
///
/// With a declared digest the data is verified: on a match the digest is
/// returned, on a mismatch the error is returned and the file is to be
/// removed. Without one the install succeeds unverified.
pub fn check_stored(desc: &ArtifactDescriptor, data: &[u8]) -> (r: StoreOutcome)
    ensures
        r.remove_file == rejected(desc.expected_digest, data@),
        match desc.expected_digest {
            None => r.result == Ok::<Option<String>, InstallError>(None),
            Some(d) => if digest_accepts(data@, d@) {
                r.result == Ok::<Option<String>, InstallError>(Some(d))
            } else {
                r.result matches Err(InstallError::Digest(m))
                    && m.expected@ == d@ && m.actual@ == sha256_hex_of(data@)
            },
        },
{
    match &desc.expected_digest {
        None => StoreOutcome { result: Ok(None), remove_file: false },
        Some(d) => match verify_digest(data, d.as_str()) {
            Ok(()) => StoreOutcome { result: Ok(Some(d.clone())), remove_file: false },
            Err(m) => {
                StoreOutcome { result: Err(InstallError::Digest(m)), remove_file: true }
            },
        },
    }
}

/// An artifact whose contents do not have the declared digest does not remain
/// at its destination, whatever was there before.
pub proof fn lemma_mismatch_leaves_no_file(files: Files, desc: ArtifactDescriptor, data: Seq<u8>, remove: bool)
    requires
        rejected(desc.expected_digest, data),
        remove == rejected(desc.expected_digest, data),
    ensures
        !files_after_store(files, desc.destination@, data, remove).contains_key(desc.destination@),
{
}

/// An accepted artifact stays at its destination with exactly the downloaded contents.
pub proof fn lemma_accepted_file_kept(files: Files, desc: ArtifactDescriptor, data: Seq<u8>, remove: bool)
    requires
        !rejected(desc.expected_digest, data),
        remove == rejected(desc.expected_digest, data),
    ensures
        files_after_store(files, desc.destination@, data, remove).contains_key(desc.destination@),
        files_after_store(files, desc.destination@, data, remove)[desc.destination@] == data,
{
}

/// The reply to an install request.
#[derive(Clone, Debug, PartialEq, Eq)]
pub struct InstallReply {
    pub message: String,
    pub hash: Option<String>,
}

/// The wire tag of a channel.
pub open spec fn channel_tag(channel: Channel) -> Seq<char> {
    match channel {
        Channel::A => "A"@,
        Channel::B => "B"@,
    }
}

/// The human-readable cause of an install failure.
pub open spec fn error_text(e: InstallError) -> Seq<char> {
    match e {
        InstallError::Network(c) => "network error: "@ + c@,
        InstallError::MalformedMetadata(c) => "malformed metadata: "@ + c@,
        InstallError::NoBuildsFound => "no builds found for this version"@,
        InstallError::NoStableLoader => "no stable loader for this version"@,
        InstallError::Digest(m) => "digest mismatch: expected "@ + m.expected@ + ", got "@ + m.actual@,
        InstallError::Storage(c) => "storage error: "@ + c@,
    }
}

/// The reply for the outcome of an install on `channel`.
pub open spec fn reply_of(channel: Channel, result: Result<Option<String>, InstallError>) -> (Seq<char>, Option<Seq<char>>) {
    match result {
        Ok(Some(h)) => ("install_success_"@ + channel_tag(channel), Some(h@)),
        Ok(None) => ("install_success_"@ + channel_tag(channel), None),
        Err(e) => ("install_failed: "@ + error_text(e), None),
    }
}

impl InstallError {
    /// The human-readable cause of this failure.
    pub fn describe(&self) -> (r: String)
        ensures
            r@ == error_text(*self),
    {
        match self {
            InstallError::Network(c) => {
                let mut s = String::from_str("network error: ");
                s.append(c.as_str());
                s
            },
            InstallError::MalformedMetadata(c) => {
                let mut s = String::from_str("malformed metadata: ");
                s.append(c.as_str());
                s
            },
            InstallError::NoBuildsFound => String::from_str("no builds found for this version"),
            InstallError::NoStableLoader => String::from_str("no stable loader for this version"),
            InstallError::Digest(m) => {
                let mut s = String::from_str("digest mismatch: expected ");
                s.append(m.expected.as_str());
                s.append(", got ");
                s.append(m.actual.as_str());
                s
            },
            InstallError::Storage(c) => {
                let mut s = String::from_str("storage error: ");
                s.append(c.as_str());
                s
            },
        }
    }
}

/// Builds the reply for the outcome of an install on `channel`.
pub fn install_reply(channel: Channel, result: Result<Option<String>, InstallError>) -> (r: InstallReply)
    ensures
        r.message@ == reply_of(channel, result).0,
        r.hash matches Some(h) ==> reply_of(channel, result).1 == Some(h@),
        r.hash is None ==> reply_of(channel, result).1 is None,
{
    match result {
        Ok(hash) => {
            let mut message = String::from_str("install_success_");
            match channel {
                Channel::A => message.append("A"),
                Channel::B => message.append("B"),
            }
            InstallReply { message, hash }
        },
        Err(e) => {
            let mut message = String::from_str("install_failed: ");
            message.append(e.describe().as_str());
            InstallReply { message, hash: None }
        },
    }
}

} // verus!
