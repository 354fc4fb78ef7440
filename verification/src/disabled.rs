//! A blobstore that is switched off.

use vstd::prelude::*;
use vstd::string::StringExecFns;

verus! {

/// What a put may do when the key is already there.
#[derive(Clone, Copy, Debug, PartialEq, Eq, Structural)]
pub enum PutBehaviour {
    Overwrite,
    OverwriteAndLog,
    IfAbsent,
}

/// What a put found under the key.
#[derive(Clone, Copy, Debug, PartialEq, Eq, Structural)]
pub enum OverwriteStatus {
    NotChecked,
    New,
    Overwrote,
    Prevented,
}

/// The failure of every operation on a [`DisabledBlob`].
#[derive(Clone, Debug, PartialEq, Eq)]
pub struct BlobstoreDisabled {
    reason: String,
}

impl BlobstoreDisabled {
    /// Why the blobstore is disabled.
    pub closed spec fn reason(&self) -> Seq<char> {
        self.reason@
    }

    /// The text of the failure: `Blobstore disabled: ` and the reason.
    pub open spec fn message_spec(&self) -> Seq<char> {
        "Blobstore disabled: "@ + self.reason()
    }

    /// The text of the failure.
    pub fn message(&self) -> (text: String)
        ensures
            text@ == self.message_spec(),
    {
        String::from_str("Blobstore disabled: ").concat(self.reason.as_str())
    }
}

/// Disabled blobstore which fails all operations with a reason. Primarily
/// used as a placeholder for administratively disabled blobstores.
#[derive(Clone, Debug, PartialEq, Eq)]
pub struct DisabledBlob {
    reason: String,
}

impl View for DisabledBlob {
    type V = Seq<char>;

    /// The reason for which the blobstore is disabled.
    closed spec fn view(&self) -> Seq<char> {
        self.reason@
    }
}

impl DisabledBlob {
    /// A blobstore that is disabled for `reason`.
    pub fn new(reason: &str) -> (blob: DisabledBlob)
        ensures
            blob@ == reason@,
    {
        DisabledBlob { reason: reason.to_owned() }
    }

    /// The name of the blobstore: `DisabledBlob (`, the reason, `)`.
    pub fn to_string(&self) -> (text: String)
        ensures
            text@ == "DisabledBlob ("@ + self@ + ")"@,
    {
        String::from_str("DisabledBlob (").concat(self.reason.as_str()).concat(")")
    }

    /// The failure with which every operation ends.
    fn disabled(&self) -> (e: BlobstoreDisabled)
        ensures
            e.reason() == self@,
    {
        BlobstoreDisabled { reason: self.reason.clone() }
    }

    /// Fails: the blobstore is disabled.
    pub fn get(&self, key: &str) -> (r: Result<Option<Vec<u8>>, BlobstoreDisabled>)
        ensures
            r is Err,
            r->Err_0.reason() == self@,
    {
        Err(self.disabled())
    }

    /// Fails: the blobstore is disabled.
    pub fn put(&self, key: String, value: Vec<u8>) -> (r: Result<(), BlobstoreDisabled>)
        ensures
            r is Err,
            r->Err_0.reason() == self@,
    {
        match self.put_with_status(key, value) {
            Ok(_) => Ok(()),
            Err(e) => Err(e),
        }
    }

    /// Fails: the blobstore is disabled.
    pub fn put_explicit(&self, key: String, value: Vec<u8>, put_behaviour: PutBehaviour) -> (r:
        Result<OverwriteStatus, BlobstoreDisabled>)
        ensures
            r is Err,
            r->Err_0.reason() == self@,
    {
        Err(self.disabled())
    }

    /// Fails: the blobstore is disabled.
    pub fn put_with_status(&self, key: String, value: Vec<u8>) -> (r: Result<
        OverwriteStatus,
        BlobstoreDisabled,
    >)
        ensures
            r is Err,
            r->Err_0.reason() == self@,
    {
        Err(self.disabled())
    }

    /// Fails: the blobstore is disabled.
    pub fn link(&self, existing_key: &str, link_key: String) -> (r: Result<(), BlobstoreDisabled>)
        ensures
            r is Err,
            r->Err_0.reason() == self@,
    {
        Err(self.disabled())
    }

    /// Fails: the blobstore is disabled.
    pub fn unlink(&self, key: &str) -> (r: Result<(), BlobstoreDisabled>)
        ensures
            r is Err,
            r->Err_0.reason() == self@,
    {
        Err(self.disabled())
    }
}

} // verus!
