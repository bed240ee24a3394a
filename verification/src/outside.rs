//! Requests to the host: files, directories and helper processes.
//!
//! The custody operations decide on what the host reports and never touch it. This module holds
//! the vocabulary in which they ask: fixed [`Place`]s, an [`OutsideRequest`] for each thing the
//! host can be asked to do, an [`OutsideReply`] for what came of it, and [`Replies`], the
//! replies received so far.
use vstd::prelude::*;

use crate::domain::TransportIdentity;
use crate::plan::{follow, Plan, Progress};

verus! {

/// Every file and directory that the custody operations deal with.
#[derive(Clone, Copy, PartialEq, Eq, Structural, Debug)]
pub enum Place {
    StateRoot,
    ApplicationDirectory,
    SetupDirectory,
    IntentRecord,
    IntentTemporary,
    BootstrapDirectory,
    IdentityRecord,
    IdentityTemporary,
    DatabaseDirectory,
    Database,
    CredentialDirectory,
    Ciphertext,
    CiphertextTemporary,
    ConfigRoot,
    SystemdDirectory,
    SystemdUserDirectory,
    DropinDirectory,
    Dropin,
    DropinTemporary,
    SystemdCreds,
    SystemdAnalyze,
    HostSecret,
    RuntimeCredentialDirectory,
    RuntimeCredential,
}

/// What the host reports of a file or directory, without following a symbolic link.
#[derive(Clone, Copy, PartialEq, Eq, Structural, Debug)]
pub struct FileMetadata {
    pub is_symlink: bool,
    pub is_dir: bool,
    pub is_file: bool,
    pub uid: u32,
    pub mode: u32,
    pub len: u64,
    pub device: u64,
    pub inode: u64,
}

/// One thing the host is asked to do. `B` is the type of byte strings.
pub enum OutsideRequest<B> {
    /// Report on the place itself, not on what a link there points to.
    Metadata(Place),
    /// Whether something is there once links are followed.
    Exists(Place),
    CreateDirectory(Place),
    /// Set the permission bits of what is at the place.
    SetMode(Place, u32),
    /// Open for reading, refusing a symbolic link. The file stays open under the place's name.
    Open(Place),
    /// Create a file that must not exist yet, with these permission bits, and keep it open.
    CreateNew(Place, u32),
    /// Report on the file that was opened at the place.
    OpenedMetadata(Place),
    SetOpenedMode(Place, u32),
    /// Write all bytes to the opened file, flush them and force them to disk.
    WriteAndSync(Place, B),
    SyncOpened(Place),
    /// Read the opened file to its end, at most this many bytes.
    Read(Place, u64),
    /// Rename, failing when the second place is taken.
    RenameNoReplace(Place, Place),
    Remove(Place),
    SyncDirectory(Place),
    /// Run the capability check for a usable TPM2.
    QueryTpm2,
    /// Make a fresh transport key and keep it for the encryption that follows.
    GenerateTransportKey,
    /// Encrypt the kept key to the place, with the host key alone when the flag is set, and
    /// erase the key.
    EncryptTransportKey(Place, bool),
    /// Start decrypting the opened file and read the plaintext, at most this many bytes.
    StartDecryption(Place, u64),
    /// Kill the decrypting process and reap it.
    AbortDecryption,
    /// Wait for the decrypting process.
    FinishDecryption,
    /// Draw three independent 128-bit random values.
    OwnerEntropy,
}

/// What came of a request.
pub enum OutsideReply<B> {
    Metadata(FileMetadata),
    Bytes(B),
    Flag(bool),
    /// A process ended; the code is missing when a signal ended it.
    Exit(Option<i32>),
    Identity(TransportIdentity),
    Entropy([u8; 16], [u8; 16], [u8; 16]),
    Completed,
    NotFound,
    /// The outcome was obtained and is unusable.
    Rejected,
    Failed,
}

pub type HostPlan<R> = Plan<OutsideRequest<Seq<u8>>, OutsideReply<Seq<u8>>, R>;

impl OutsideRequest<Vec<u8>> {
    pub open spec fn view(&self) -> OutsideRequest<Seq<u8>> {
        match *self {
            OutsideRequest::Metadata(place) => OutsideRequest::Metadata(place),
            OutsideRequest::Exists(place) => OutsideRequest::Exists(place),
            OutsideRequest::CreateDirectory(place) => OutsideRequest::CreateDirectory(place),
            OutsideRequest::SetMode(place, mode) => OutsideRequest::SetMode(place, mode),
            OutsideRequest::Open(place) => OutsideRequest::Open(place),
            OutsideRequest::CreateNew(place, mode) => OutsideRequest::CreateNew(place, mode),
            OutsideRequest::OpenedMetadata(place) => OutsideRequest::OpenedMetadata(place),
            OutsideRequest::SetOpenedMode(place, mode) => OutsideRequest::SetOpenedMode(place, mode),
            OutsideRequest::WriteAndSync(place, bytes) => OutsideRequest::WriteAndSync(
                place,
                bytes@,
            ),
            OutsideRequest::SyncOpened(place) => OutsideRequest::SyncOpened(place),
            OutsideRequest::Read(place, limit) => OutsideRequest::Read(place, limit),
            OutsideRequest::RenameNoReplace(from, to) => OutsideRequest::RenameNoReplace(from, to),
            OutsideRequest::Remove(place) => OutsideRequest::Remove(place),
            OutsideRequest::SyncDirectory(place) => OutsideRequest::SyncDirectory(place),
            OutsideRequest::QueryTpm2 => OutsideRequest::QueryTpm2,
            OutsideRequest::GenerateTransportKey => OutsideRequest::GenerateTransportKey,
            OutsideRequest::EncryptTransportKey(place, host_key_only) =>
                OutsideRequest::EncryptTransportKey(place, host_key_only),
            OutsideRequest::StartDecryption(place, limit) => OutsideRequest::StartDecryption(
                place,
                limit,
            ),
            OutsideRequest::AbortDecryption => OutsideRequest::AbortDecryption,
            OutsideRequest::FinishDecryption => OutsideRequest::FinishDecryption,
            OutsideRequest::OwnerEntropy => OutsideRequest::OwnerEntropy,
        }
    }
}

impl OutsideReply<Vec<u8>> {
    pub open spec fn view(&self) -> OutsideReply<Seq<u8>> {
        match *self {
            OutsideReply::Metadata(metadata) => OutsideReply::Metadata(metadata),
            OutsideReply::Bytes(bytes) => OutsideReply::Bytes(bytes@),
            OutsideReply::Flag(flag) => OutsideReply::Flag(flag),
            OutsideReply::Exit(code) => OutsideReply::Exit(code),
            OutsideReply::Identity(identity) => OutsideReply::Identity(identity),
            OutsideReply::Entropy(first, second, third) => OutsideReply::Entropy(
                first,
                second,
                third,
            ),
            OutsideReply::Completed => OutsideReply::Completed,
            OutsideReply::NotFound => OutsideReply::NotFound,
            OutsideReply::Rejected => OutsideReply::Rejected,
            OutsideReply::Failed => OutsideReply::Failed,
        }
    }
}

/// The replies as the plans see them.
pub open spec fn reply_views(replies: Seq<OutsideReply<Vec<u8>>>) -> Seq<OutsideReply<Seq<u8>>> {
    replies.map_values(|reply: OutsideReply<Vec<u8>>| reply@)
}

/// What a lookup of a place found.
#[derive(Clone, Copy, PartialEq, Eq, Structural, Debug)]
pub enum Lookup {
    Found(FileMetadata),
    Missing,
    Unreadable,
}

pub open spec fn lookup_of(reply: OutsideReply<Seq<u8>>) -> Lookup {
    match reply {
        OutsideReply::Metadata(metadata) => Lookup::Found(metadata),
        OutsideReply::NotFound => Lookup::Missing,
        _ => Lookup::Unreadable,
    }
}

pub open spec fn bytes_of(reply: OutsideReply<Seq<u8>>) -> Option<Seq<u8>> {
    match reply {
        OutsideReply::Bytes(bytes) => Some(bytes),
        _ => None,
    }
}

/// Ask for the metadata of a place.
pub open spec fn look_up(place: Place) -> HostPlan<Lookup> {
    Plan::Ask(
        OutsideRequest::Metadata(place),
        |reply: OutsideReply<Seq<u8>>| Plan::Finish(lookup_of(reply)),
    )
}

/// Ask for the metadata of the file opened at a place; a reply without it counts as unreadable.
pub open spec fn look_up_opened(place: Place) -> HostPlan<Lookup> {
    Plan::Ask(
        OutsideRequest::OpenedMetadata(place),
        |reply: OutsideReply<Seq<u8>>| Plan::Finish(lookup_of(reply)),
    )
}

/// Ask for something that is either done or not.
pub open spec fn perform(request: OutsideRequest<Seq<u8>>) -> HostPlan<bool> {
    Plan::Ask(request, |reply: OutsideReply<Seq<u8>>| Plan::Finish(reply is Completed))
}

/// Ask for bytes.
pub open spec fn obtain(request: OutsideRequest<Seq<u8>>) -> HostPlan<Option<Seq<u8>>> {
    Plan::Ask(request, |reply: OutsideReply<Seq<u8>>| Plan::Finish(bytes_of(reply)))
}

/// The replies received so far, and how many of them have been used.
pub struct Replies<'a> {
    all: &'a Vec<OutsideReply<Vec<u8>>>,
    next: usize,
}

impl<'a> Replies<'a> {
    pub closed spec fn wf(&self) -> bool {
        self.next <= self.all@.len()
    }

    /// The replies not used yet.
    pub closed spec fn rest(&self) -> Seq<OutsideReply<Seq<u8>>> {
        reply_views(self.all@).skip(self.next as int)
    }

    pub fn new(all: &'a Vec<OutsideReply<Vec<u8>>>) -> (replies: Replies<'a>)
        ensures
            replies.wf(),
            replies.rest() == reply_views(all@),
    {
        let replies = Replies { all, next: 0 };
        assert(replies.rest() =~= reply_views(all@));
        replies
    }

    /// Take the next reply, if one is there.
    pub fn take(&mut self) -> (reply: Option<&'a OutsideReply<Vec<u8>>>)
        requires
            old(self).wf(),
        ensures
            final(self).wf(),
            match reply {
                Some(taken) => old(self).rest().len() > 0 && taken@ == old(self).rest()[0]
                    && final(self).rest() == old(self).rest().drop_first(),
                None => old(self).rest().len() == 0 && final(self).rest() == old(self).rest(),
            },
    {
        if self.next < self.all.len() {
            let taken = &self.all[self.next];
            self.next = self.next + 1;
            assert(self.rest() =~= old(self).rest().drop_first());
            Some(taken)
        } else {
            None
        }
    }
}

/// An operation went along `plan` from `before` to `after` and came to `outcome`: a value, or
/// the request that has to be performed first.
pub open spec fn went_along<R>(
    plan: HostPlan<R>,
    before: Replies<'_>,
    outcome: Result<R, OutsideRequest<Seq<u8>>>,
    after: Replies<'_>,
) -> bool {
    &&& after.wf()
    &&& follow(plan, before.rest()) == (
        match outcome {
            Ok(value) => Progress::Done(value),
            Err(request) => Progress::Waiting(request),
        },
        after.rest(),
    )
}

/// The outcome with the request as the plans see it.
pub open spec fn seen<R>(outcome: Result<R, OutsideRequest<Vec<u8>>>) -> Result<
    R,
    OutsideRequest<Seq<u8>>,
> {
    match outcome {
        Ok(value) => Ok(value),
        Err(request) => Err(request@),
    }
}

impl<'a> Replies<'a> {
    pub fn look_up(&mut self, place: Place) -> (found: Result<Lookup, OutsideRequest<Vec<u8>>>)
        requires
            old(self).wf(),
        ensures
            went_along(look_up(place), *old(self), seen(found), *final(self)),
    {
        proof {
            reveal_with_fuel(follow, 2);
        }
        match self.take() {
            None => Err(OutsideRequest::Metadata(place)),
            Some(OutsideReply::Metadata(metadata)) => Ok(Lookup::Found(*metadata)),
            Some(OutsideReply::NotFound) => Ok(Lookup::Missing),
            Some(_) => Ok(Lookup::Unreadable),
        }
    }

    pub fn look_up_opened(&mut self, place: Place) -> (found: Result<
        Lookup,
        OutsideRequest<Vec<u8>>,
    >)
        requires
            old(self).wf(),
        ensures
            went_along(look_up_opened(place), *old(self), seen(found), *final(self)),
    {
        proof {
            reveal_with_fuel(follow, 2);
        }
        match self.take() {
            None => Err(OutsideRequest::OpenedMetadata(place)),
            Some(OutsideReply::Metadata(metadata)) => Ok(Lookup::Found(*metadata)),
            Some(OutsideReply::NotFound) => Ok(Lookup::Missing),
            Some(_) => Ok(Lookup::Unreadable),
        }
    }

    pub fn perform(&mut self, request: OutsideRequest<Vec<u8>>) -> (done: Result<
        bool,
        OutsideRequest<Vec<u8>>,
    >)
        requires
            old(self).wf(),
        ensures
            went_along(perform(request@), *old(self), seen(done), *final(self)),
    {
        proof {
            reveal_with_fuel(follow, 2);
        }
        match self.take() {
            None => Err(request),
            Some(OutsideReply::Completed) => Ok(true),
            Some(_) => Ok(false),
        }
    }

    pub fn obtain(&mut self, request: OutsideRequest<Vec<u8>>) -> (bytes: Result<
        Option<&'a Vec<u8>>,
        OutsideRequest<Vec<u8>>,
    >)
        requires
            old(self).wf(),
        ensures
            went_along(
                obtain(request@),
                *old(self),
                match bytes {
                    Ok(Some(value)) => Ok(Some(value@)),
                    Ok(None) => Ok(None),
                    Err(pending) => Err(pending@),
                },
                *final(self),
            ),
    {
        proof {
            reveal_with_fuel(follow, 2);
        }
        match self.take() {
            None => Err(request),
            Some(OutsideReply::Bytes(bytes)) => Ok(Some(bytes)),
            Some(_) => Ok(None),
        }
    }
}

} // verus!
