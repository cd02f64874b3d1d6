use vstd::prelude::*;

verus! {

/// Status code the engine returns for a successful call.
pub const CURLE_OK: u32 = 0;

/// The engine options this library sets.
#[derive(Clone, Copy, Debug, PartialEq, Eq, Structural)]
pub enum CurlOption {
    Url,
    WriteFunction,
    WriteData,
    PostFields,
    Upload,
    Put,
    ReadData,
    InFileSizeLarge,
}

/// Which sink the write callback appends to.
#[derive(Clone, Copy, Debug, PartialEq, Eq, Structural)]
pub enum SinkKind {
    Buffer,
    File,
}

/// A value handed to the engine's untyped option setter.
///
/// Pointers never appear here: a callback or a sink is named by its kind, and
/// the driver that talks to the engine passes the matching native pointer.
#[derive(Clone, Debug)]
pub enum OptionValue {
    Text(String),
    Long(i64),
    Size(i64),
    Callback(SinkKind),
    Sink(SinkKind),
    Source,
}

/// One call that the driver makes into the engine on behalf of a request.
#[derive(Clone, Debug)]
pub enum EngineCall {
    /// Set `option` to `value` on the session `handle`.
    SetOption { handle: usize, option: CurlOption, value: OptionValue },
    /// Set every option of `handle` back to the engine's default.
    Reset { handle: usize },
    /// Run the transfer configured on `handle`.
    Perform { handle: usize },
    /// Fetch the engine's description of the failure status `code`.
    Describe { code: u32 },
    /// Release the session `handle`.
    Cleanup { handle: usize },
}

pub open spec fn option_id_spec(o: CurlOption) -> u32 {
    match o {
        CurlOption::Url => 10002,
        CurlOption::WriteFunction => 20011,
        CurlOption::WriteData => 10001,
        CurlOption::PostFields => 10015,
        CurlOption::Upload => 46,
        CurlOption::Put => 54,
        CurlOption::ReadData => 10009,
        CurlOption::InFileSizeLarge => 30115,
    }
}

impl CurlOption {
    /// The engine's numeric identifier for this option.
    pub fn id(&self) -> (r: u32)
        ensures
            r == option_id_spec(*self),
    {
        match self {
            CurlOption::Url => 10002,
            CurlOption::WriteFunction => 20011,
            CurlOption::WriteData => 10001,
            CurlOption::PostFields => 10015,
            CurlOption::Upload => 46,
            CurlOption::Put => 54,
            CurlOption::ReadData => 10009,
            CurlOption::InFileSizeLarge => 30115,
        }
    }
}

} // verus!
