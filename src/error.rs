use vstd::prelude::*;

use crate::binding::CURLE_OK;

verus! {

/// Why an operation on a request failed.
#[derive(Clone, Debug, PartialEq, Eq)]
pub enum CurlError {
    /// The engine refused to hand out a session handle.
    Init,
    /// The engine reported a failure status; `detail` is its own description,
    /// copied out when the error was built.
    Engine { code: u32, detail: Option<String> },
    /// A local file could not be created, opened or measured; the engine was
    /// not involved.
    FileSystem { detail: String },
    /// The bytes received by `get` are not valid UTF-8.
    Decode,
    /// Writing a received chunk to the destination file failed; `written` bytes
    /// had reached the file before that.
    SinkWrite { written: u64 },
    /// The driver reported an event that the session did not wait for.
    Sequence,
}

pub open spec fn engine_label() -> Seq<char> {
    "Curl has returned an error"@
}

pub open spec fn label_spec(e: CurlError) -> Seq<char> {
    match e {
        CurlError::Init => "Curl could not create a session"@,
        CurlError::Engine { .. } => engine_label(),
        CurlError::FileSystem { .. } => "A local file operation failed"@,
        CurlError::Decode => "The response is not valid UTF-8"@,
        CurlError::SinkWrite { .. } => "Writing the response to its file failed"@,
        CurlError::Sequence => "The transfer received an unexpected event"@,
    }
}

/// The description of an error: the detail it carries where that is present
/// and non-empty, its fixed label otherwise.
pub open spec fn description_spec(e: CurlError) -> Seq<char> {
    match e {
        CurlError::Engine { detail: Some(d), .. } => if d@.len() > 0 {
            d@
        } else {
            label_spec(e)
        },
        CurlError::FileSystem { detail } => if detail@.len() > 0 {
            detail@
        } else {
            label_spec(e)
        },
        _ => label_spec(e),
    }
}

/// Builds the error for a failure status of the engine, keeping the engine's
/// own description of that status.
pub fn translate(code: u32, detail: Option<String>) -> (r: CurlError)
    requires
        code != CURLE_OK,
    ensures
        r == (CurlError::Engine { code, detail }),
{
    CurlError::Engine { code, detail }
}

impl CurlError {
    /// The fixed label of this kind of error.
    pub fn label(&self) -> (r: String)
        ensures
            r@ == label_spec(*self),
            r@.len() > 0,
    {
        match self {
            CurlError::Init => {
                proof { reveal_strlit("Curl could not create a session"); }
                "Curl could not create a session".to_owned()
            },
            CurlError::Engine { .. } => {
                proof { reveal_strlit("Curl has returned an error"); }
                "Curl has returned an error".to_owned()
            },
            CurlError::FileSystem { .. } => {
                proof { reveal_strlit("A local file operation failed"); }
                "A local file operation failed".to_owned()
            },
            CurlError::Decode => {
                proof { reveal_strlit("The response is not valid UTF-8"); }
                "The response is not valid UTF-8".to_owned()
            },
            CurlError::SinkWrite { .. } => {
                proof { reveal_strlit("Writing the response to its file failed"); }
                "Writing the response to its file failed".to_owned()
            },
            CurlError::Sequence => {
                proof { reveal_strlit("The transfer received an unexpected event"); }
                "The transfer received an unexpected event".to_owned()
            },
        }
    }

    /// A readable description: the carried detail where there is one, the
    /// label otherwise. Never empty.
    pub fn description(&self) -> (r: String)
        ensures
            r@ == description_spec(*self),
            r@.len() > 0,
    {
        match self {
            CurlError::Engine { detail: Some(d), .. } => {
                if !d.as_str().is_empty() {
                    d.clone()
                } else {
                    self.label()
                }
            },
            CurlError::FileSystem { detail } => {
                if !detail.as_str().is_empty() {
                    detail.clone()
                } else {
                    self.label()
                }
            },
            _ => self.label(),
        }
    }
}

/// Every failure status of the engine, whatever description the engine gave
/// for it (or none), turns into an error whose description is not empty.
pub proof fn law_engine_failure_is_described(code: u32, detail: Option<String>)
    requires
        code != CURLE_OK,
    ensures
        description_spec(CurlError::Engine { code, detail }).len() > 0,
{
    reveal_strlit("Curl has returned an error");
}

} // verus!
