//! The share request: what a user hands the file server when registering
//! a new share, with its validation rules.
//!
//! Gathering the values — the file's name, its size, a fresh identifier,
//! the user's name — touches the file system and happens outside the
//! engine; this module holds the record and the rules that accept or
//! reject it.

use vstd::prelude::*;

verus! {

/// Why a share request was rejected.
pub enum ShareError {
    /// The file's extension could not be read.
    FileExtensionError,
    /// The file's name could not be read.
    FileNameError,
    /// The file's size could not be read.
    FileSizeError(String),
    /// The file does not exist, or is not a file.
    FileExistError(String),
    /// Both access restrictions were set at once.
    RestrictionError,
    /// The expiry lies in the past.
    TimeError,
    /// The backing hard link could not be created.
    HardLinkError(String),
}

impl ShareError {
    /// A short description of the error, for logs and for the user.
    pub fn description(&self) -> (r: &str)
        ensures
            match self {
                ShareError::FileExtensionError => r@ == "Failed to parse file extension."@,
                ShareError::FileNameError => r@ == "Failed to parse file name."@,
                ShareError::FileSizeError(t) => r@ == t@,
                ShareError::FileExistError(t) => r@ == t@,
                ShareError::RestrictionError => r@
                    == "Cannot set both restrict_wget and restrict_website at the same time!"@,
                ShareError::TimeError => r@ == "Expiry time set in the past."@,
                ShareError::HardLinkError(t) => r@ == t@,
            },
    {
        match self {
            ShareError::FileExtensionError => "Failed to parse file extension.",
            ShareError::FileNameError => "Failed to parse file name.",
            ShareError::FileSizeError(t) => t.as_str(),
            ShareError::FileExistError(t) => t.as_str(),
            ShareError::RestrictionError => (
                "Cannot set both restrict_wget and restrict_website at the same time!"
            ),
            ShareError::TimeError => "Expiry time set in the past.",
            ShareError::HardLinkError(t) => t.as_str(),
        }
    }
}

/// The data of one share registration request.
pub struct ShareRequest {
    /// Identifier of the new share.
    pub id: String,
    /// The user registering the share.
    pub usr: String,
    /// Expiry, in seconds past the epoch.
    pub exp: u64,
    /// Whether command-line downloads are refused.
    pub restrict_wget: bool,
    /// Whether website downloads are refused.
    pub restrict_website: bool,
    /// The file's display name.
    pub name: String,
    /// The file's size in bytes.
    pub size: u64,
    /// The file's extension.
    pub file_type: String,
}

/// Mathematical model of a share request.
pub struct RequestModel {
    pub id: Seq<char>,
    pub usr: Seq<char>,
    pub exp: u64,
    pub restrict_wget: bool,
    pub restrict_website: bool,
    pub name: Seq<char>,
    pub size: u64,
    pub file_type: Seq<char>,
}

impl View for ShareRequest {
    type V = RequestModel;

    open spec fn view(&self) -> RequestModel {
        RequestModel {
            id: self.id@,
            usr: self.usr@,
            exp: self.exp,
            restrict_wget: self.restrict_wget,
            restrict_website: self.restrict_website,
            name: self.name@,
            size: self.size,
            file_type: self.file_type@,
        }
    }
}

impl RequestModel {
    /// A request is acceptable when its restrictions do not contradict
    /// each other and its expiry has not already passed.
    pub open spec fn is_acceptable(self, now: u64) -> bool {
        !(self.restrict_website && self.restrict_wget) && self.exp >= now
    }
}

impl ShareRequest {
    /// Check the request at time `now`: both restrictions at once are
    /// contradictory, and an expiry in the past is of no use.  Accepts
    /// exactly the requests that `is_acceptable` admits, and names the
    /// first rule broken otherwise.
    pub fn validate(&self, now: u64) -> (r: Result<(), ShareError>)
        ensures
            r is Ok <==> self@.is_acceptable(now),
            self.restrict_website && self.restrict_wget ==> (r matches Err(e)
                && e is RestrictionError),
            !(self.restrict_website && self.restrict_wget) && self.exp < now ==> (r matches Err(e)
                && e is TimeError),
    {
        if self.restrict_website && self.restrict_wget {
            Err(ShareError::RestrictionError)
        } else if self.exp < now {
            Err(ShareError::TimeError)
        } else {
            Ok(())
        }
    }

    /// Replace the user name; validation is the caller's business.
    pub fn set_usr(self, new_usr: &str) -> (r: ShareRequest)
        ensures
            r@ == (RequestModel { usr: new_usr@, ..self@ }),
    {
        ShareRequest { usr: new_usr.to_owned(), ..self }
    }

    /// Replace the expiry time, in seconds past the epoch.
    pub fn set_exp(self, new_exp: &u64) -> (r: ShareRequest)
        ensures
            r@ == (RequestModel { exp: *new_exp, ..self@ }),
    {
        ShareRequest { exp: *new_exp, ..self }
    }

    /// Replace the command-line download restriction.
    pub fn set_restrict_wget(self, new_wget: bool) -> (r: ShareRequest)
        ensures
            r@ == (RequestModel { restrict_wget: new_wget, ..self@ }),
    {
        ShareRequest { restrict_wget: new_wget, ..self }
    }

    /// Replace the website download restriction.
    pub fn set_restrict_website(self, new_website: bool) -> (r: ShareRequest)
        ensures
            r@ == (RequestModel { restrict_website: new_website, ..self@ }),
    {
        ShareRequest { restrict_website: new_website, ..self }
    }

    /// Replace the display name.
    pub fn set_name(self, new_name: &str) -> (r: ShareRequest)
        ensures
            r@ == (RequestModel { name: new_name@, ..self@ }),
    {
        ShareRequest { name: new_name.to_owned(), ..self }
    }

    /// Replace the recorded file size.
    pub fn set_size(self, new_size: &u64) -> (r: ShareRequest)
        ensures
            r@ == (RequestModel { size: *new_size, ..self@ }),
    {
        ShareRequest { size: *new_size, ..self }
    }

    /// The identifier of this share.
    pub fn get_id(&self) -> (r: &str)
        ensures
            r@ == self.id@,
    {
        self.id.as_str()
    }
}

} // verus!
