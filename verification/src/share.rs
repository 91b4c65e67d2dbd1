//! The share record: one locally registered file available for remote
//! retrieval, with creation and expiry timestamps in epoch seconds.

use vstd::prelude::*;

use crate::text::{dec_digits, u64_to_string};

verus! {

/// A file share as the engine sees it.  The record is owned by the share
/// store; the engine only reads it and, through the sweeper, triggers
/// deletion.
pub struct Share {
    /// Unique identifier of the shared file.
    pub file_id: u32,
    /// Creation time, seconds past the epoch.
    pub crt: u64,
    /// Expiry time, seconds past the epoch.
    pub exp: u64,
    /// Size of the backing file in bytes.
    pub file_size: u64,
    /// The user who created the share.
    pub user_name: String,
    /// The display name of the shared file.
    pub file_name: String,
}

/// Mathematical model of a share: the same fields with strings as
/// character sequences.
pub struct ShareModel {
    pub file_id: u32,
    pub crt: u64,
    pub exp: u64,
    pub file_size: u64,
    pub user_name: Seq<char>,
    pub file_name: Seq<char>,
}

impl View for Share {
    type V = ShareModel;

    open spec fn view(&self) -> ShareModel {
        ShareModel {
            file_id: self.file_id,
            crt: self.crt,
            exp: self.exp,
            file_size: self.file_size,
            user_name: self.user_name@,
            file_name: self.file_name@,
        }
    }
}

impl ShareModel {
    /// A share is expired exactly when its expiry time lies strictly
    /// before the present moment.
    pub open spec fn is_expired(self, now: u64) -> bool {
        self.exp < now
    }
}

impl Share {
    /// Report whether this share has expired at time `now`.
    pub fn is_expired(&self, now: u64) -> (r: bool)
        ensures
            r == self@.is_expired(now),
    {
        self.exp < now
    }
}

/// The expiry of a share created at `crt` and kept for `hours`: the
/// creation time plus that many hours in seconds, or nothing where the
/// sum leaves the machine's range.
pub fn expiry_after_hours(crt: u64, hours: u64) -> (r: Option<u64>)
    ensures
        crt + hours * 3600 <= u64::MAX ==> r == Some((crt + hours * 3600) as u64),
        crt + hours * 3600 > u64::MAX ==> r is None,
{
    let seconds = match hours.checked_mul(3600) {
        Some(v) => v,
        None => {
            return None;
        },
    };
    crt.checked_add(seconds)
}

/// Warnings a new share earns under the current configuration: one when
/// the file exceeds the recommended size limit, none otherwise.
pub fn generate_warnings(share: &Share, size_limit_bytes: u64) -> (r: Vec<&'static str>)
    ensures
        share.file_size > size_limit_bytes ==> r@.len() == 1 && r@[0]@
            == "this file is greater than the recommended size limit."@,
        share.file_size <= size_limit_bytes ==> r@.len() == 0,
{
    let mut warnings: Vec<&'static str> = Vec::new();
    if share.file_size > size_limit_bytes {
        warnings.push("this file is greater than the recommended size limit.");
    }
    warnings
}

/// The path of the backing file for `file_id` under the configured store
/// root: the root, a separator, and the id in decimal.
pub fn backing_file_path(store_root: &str, file_id: u32) -> (r: String)
    ensures
        r@ == store_root@ + "/"@ + dec_digits(file_id as nat),
{
    let mut r = store_root.to_owned();
    r.append("/");
    let digits = u64_to_string(file_id as u64);
    r.append(digits.as_str());
    r
}

} // verus!
