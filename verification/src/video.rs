//! Video device selection and the classification of camera errors.
use vstd::prelude::*;

use crate::errors::AppError;
use crate::text::{contains_seq, contains_str};

verus! {

/// Where the camera backend finds a device: a number or a backend path.
#[derive(Debug, Clone, PartialEq, Eq)]
pub enum CameraIndex {
    Index(u32),
    String(String),
}

impl CameraIndex {
    /// A copy of this index.
    pub fn duplicate(&self) -> (r: Self)
        ensures
            r == *self,
    {
        match self {
            CameraIndex::Index(i) => CameraIndex::Index(*i),
            CameraIndex::String(s) => CameraIndex::String(s.clone()),
        }
    }
}

/// Entry `j` is the first device of `devices` called `name`.
pub open spec fn first_named(devices: Seq<(String, CameraIndex)>, name: Seq<char>, j: int) -> bool {
    &&& 0 <= j < devices.len()
    &&& devices[j].0@ == name
    &&& forall|i: int| 0 <= i < j ==> #[trigger] devices[i].0@ != name
}

/// `idx` is the index of the first device of `devices` called `name`.
pub open spec fn found_device(devices: Seq<(String, CameraIndex)>, name: Seq<char>, idx: CameraIndex) -> bool {
    exists|j: int| #[trigger] first_named(devices, name, j) && devices[j].1 == idx
}

/// Finds the video device saved under `name` among the listed devices: an
/// empty name or a name that no device carries is not found.
pub fn find_video_device(name: &str, devices: &[(String, CameraIndex)]) -> (r: Result<
    CameraIndex,
    AppError,
>)
    ensures
        name@.len() == 0 ==> r == Err::<CameraIndex, AppError>(AppError::VideoDeviceNotFound),
        name@.len() > 0 ==> match r {
            Ok(idx) => found_device(devices@, name@, idx),
            Err(e) => e == AppError::VideoDeviceNotFound && forall|i: int|
                0 <= i < devices@.len() ==> #[trigger] devices@[i].0@ != name@,
        },
{
    if name.unicode_len() == 0 {
        return Err(AppError::VideoDeviceNotFound);
    }
    let wanted = String::from_str(name);
    let n = devices.len();
    let mut i: usize = 0;
    while i < n
        invariant
            n == devices@.len(),
            i <= n,
            wanted@ == name@,
            name@.len() > 0,
            forall|k: int| 0 <= k < i ==> #[trigger] devices@[k].0@ != name@,
        decreases n - i,
    {
        if devices[i].0 == wanted {
            let idx = devices[i].1.duplicate();
            assert(first_named(devices@, name@, i as int));
            return Ok(idx);
        }
        i += 1;
    }
    Err(AppError::VideoDeviceNotFound)
}

/// The error that a camera failure message, already in lower case, stands
/// for: a device held by another program, or a failed stream.
pub open spec fn camera_error_class(lower: Seq<char>) -> AppError {
    if contains_seq(lower, "access"@) || contains_seq(lower, "denied"@) || contains_seq(
        lower,
        "0x80070005"@,
    ) || contains_seq(lower, "in use"@) || contains_seq(lower, "busy"@) {
        AppError::VideoDeviceInUse
    } else {
        AppError::VideoStreamFailed
    }
}

/// Classifies a camera failure message that is already in lower case.
pub fn classify_lowercase_camera_error(lower: &str) -> (r: AppError)
    ensures
        r == camera_error_class(lower@),
{
    if contains_str(lower, "access") || contains_str(lower, "denied") || contains_str(
        lower,
        "0x80070005",
    ) || contains_str(lower, "in use") || contains_str(lower, "busy") {
        AppError::VideoDeviceInUse
    } else {
        AppError::VideoStreamFailed
    }
}

/// What `str::to_lowercase` returns for a string (Unicode lower case).
pub uninterp spec fn lowercase_text(s: Seq<char>) -> Seq<char>;

/// Calls `str::to_lowercase`; the contract claims only that the result is
/// `lowercase_text` of the argument, which the standard library computes
/// from the argument alone.
#[verifier::external_body]
fn to_lowercase(s: &str) -> (r: String)
    ensures
        r@ == lowercase_text(s@),
{
    s.to_lowercase()
}

/// Classifies the message of a camera failure, whatever its case.
pub fn classify_camera_error(msg: &str) -> (r: AppError)
    ensures
        r == camera_error_class(lowercase_text(msg@)),
{
    let lower = to_lowercase(msg);
    classify_lowercase_camera_error(lower.as_str())
}

/// A lower-case camera message that mentions access, denial, the Windows
/// access-denied code, "in use" or "busy" means the device is held by
/// another program; a message that mentions none of them means the stream
/// failed.
pub proof fn law_in_use_keywords(lower: Seq<char>)
    ensures
        contains_seq(lower, "access"@) ==> camera_error_class(lower) == AppError::VideoDeviceInUse,
        contains_seq(lower, "denied"@) ==> camera_error_class(lower) == AppError::VideoDeviceInUse,
        contains_seq(lower, "0x80070005"@) ==> camera_error_class(lower)
            == AppError::VideoDeviceInUse,
        contains_seq(lower, "in use"@) ==> camera_error_class(lower) == AppError::VideoDeviceInUse,
        contains_seq(lower, "busy"@) ==> camera_error_class(lower) == AppError::VideoDeviceInUse,
        !contains_seq(lower, "access"@) && !contains_seq(lower, "denied"@) && !contains_seq(
            lower,
            "0x80070005"@,
        ) && !contains_seq(lower, "in use"@) && !contains_seq(lower, "busy"@)
            ==> camera_error_class(lower) == AppError::VideoStreamFailed,
{
}

} // verus!
