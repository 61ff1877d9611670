//! Error definitions and the status-translation protocol.
//!
//! Every fallible foreign call returns a nullable status pointer; this module
//! turns that convention into structured errors. A null status becomes `Ok`,
//! a non-null status becomes an [`OrtApiError`] carrying the decoded message
//! (or the raw bytes where the message is not valid UTF-8), and each call
//! site wraps that in the [`OrtError`] variant naming the operation that
//! failed. The translation is stated by [`translates_to`], which pins the
//! result for every possible status.

use vstd::prelude::*;
use vstd::string::StringExecFns;
use vstd::utf8::{decode_utf8, valid_utf8};

use crate::api::{OrtApi, OrtStatusPtr};
use crate::render::{
    dec_u64, dec_usize, render_bytes, render_model_shapes, render_shapes, spec_dec,
    spec_render_bytes, spec_render_model_shapes, spec_render_shapes,
};

verus! {

/// Details reported by the foreign library when a call fails.
#[non_exhaustive]
#[derive(Debug, PartialEq, Eq)]
pub enum OrtApiError {
    /// Message reported by the foreign library, decoded to text.
    Msg(String),
    /// The reported message could not be converted to UTF-8; the raw bytes
    /// are kept as they were read.
    IntoStringError(Vec<u8>),
}

/// Error used when the dimensions of the inputs handed to an inference call
/// and the dimensions declared by the model do not match.
#[non_exhaustive]
#[derive(Debug, PartialEq, Eq)]
pub enum NonMatchingDimensionsError {
    /// The inputs from the inference call do not match the inputs declared
    /// by the model.
    InputsCount {
        /// Number of inputs used by the inference call.
        inference_input_count: usize,
        /// Number of inputs declared by the model.
        model_input_count: usize,
        /// Input shapes used by the inference call.
        inference_input: Vec<Vec<usize>>,
        /// Input shapes declared by the model; `None` marks a dynamic
        /// dimension that accepts any extent.
        model_input: Vec<Vec<Option<u32>>>,
    },
}

/// Error from downloading a pre-trained model.
#[non_exhaustive]
#[derive(Debug, PartialEq, Eq)]
pub enum OrtDownloadError {
    /// Generic input/output error, carrying the underlying error's text.
    IoError(String),
    /// The content length of an HTTP GET request was unavailable.
    ContentLengthError,
    /// Mismatch between the amount of downloaded and expected bytes.
    CopyError {
        /// Expected amount of bytes to download.
        expected: u64,
        /// Number of bytes actually read and written.
        io: u64,
    },
}

/// Error type centralizing all possible errors: every foreign-call failure
/// tagged with the operation that failed, and the pure domain failures.
#[non_exhaustive]
#[derive(Debug, PartialEq, Eq)]
pub enum OrtError {
    /// A message from the foreign library could not be converted to text.
    StringConversion(OrtApiError),
    /// An error occurred when creating an environment.
    Environment(OrtApiError),
    /// An error occurred when creating session options.
    SessionOptions(OrtApiError),
    /// An error occurred when creating a session.
    Session(OrtApiError),
    /// An error occurred when getting an allocator.
    Allocator(OrtApiError),
    /// An error occurred when counting inputs or outputs.
    InOutCount(OrtApiError),
    /// An error occurred when getting an input name.
    InputName(OrtApiError),
    /// An error occurred when getting type information.
    GetTypeInfo(OrtApiError),
    /// An error occurred when casting type information to tensor information.
    CastTypeInfoToTensorInfo(OrtApiError),
    /// An error occurred when getting the tensor element type.
    TensorElementType(OrtApiError),
    /// An error occurred when getting the dimensions count.
    GetDimensionsCount(OrtApiError),
    /// An error occurred when getting the dimensions.
    GetDimensions(OrtApiError),
    /// An error occurred when creating CPU memory information.
    CreateCpuMemoryInfo(OrtApiError),
    /// An error occurred when creating a tensor.
    CreateTensor(OrtApiError),
    /// An error occurred when creating a tensor over caller-supplied data.
    CreateTensorWithData(OrtApiError),
    /// An error occurred when filling a tensor with string data.
    FillStringTensor(OrtApiError),
    /// An error occurred when checking that a tensor was properly initialized.
    IsTensor(OrtApiError),
    /// An error occurred when getting a tensor's type and shape.
    GetTensorTypeAndShape(OrtApiError),
    /// An error occurred when running inference.
    Run(OrtApiError),
    /// An error occurred when extracting data from a tensor.
    GetTensorMutableData(OrtApiError),
    /// An error occurred when downloading a pre-trained model.
    DownloadError(OrtDownloadError),
    /// Dimensions of the inference inputs and of the model inputs do not
    /// match.
    NonMatchingDimensions(NonMatchingDimensionsError),
    /// A model file does not exist at the given path.
    FileDoesNotExists {
        /// Path at which no file was found.
        filename: String,
    },
    /// A path cannot be converted to UTF-8; the raw bytes are kept.
    NonUtf8Path {
        /// Path with invalid UTF-8.
        path: Vec<u8>,
    },
    /// A string destined for the foreign call contains an embedded nul byte
    /// and cannot be transmitted.
    CStringNulError {
        /// Position of the first embedded nul byte.
        position: usize,
    },
    /// A dynamic library holding the foreign entry points could not be
    /// loaded.
    DynamicLibraryLoadingError {
        /// Path of the library that failed to load.
        path: String,
        /// Loader error text.
        err: String,
    },
}

impl OrtApiError {
    /// The user-visible text of this error: a pure function of the value.
    pub open spec fn spec_message(&self) -> Seq<char> {
        match self {
            OrtApiError::Msg(s) => "Error calling ONNX Runtime C function: "@ + s@,
            OrtApiError::IntoStringError(
                _,
            ) => "Error calling ONNX Runtime C function and failed to convert error message to UTF-8"@,
        }
    }

    /// Renders the user-visible text of this error: deterministically the
    /// same for the same value, with no per-process artefact in it.
    pub fn message(&self) -> (r: String)
        ensures
            r@ == self.spec_message(),
    {
        match self {
            OrtApiError::Msg(s) => {
                let mut r = String::from_str("Error calling ONNX Runtime C function: ");
                r.append(s.as_str());
                r
            },
            OrtApiError::IntoStringError(_) => String::from_str(
                "Error calling ONNX Runtime C function and failed to convert error message to UTF-8",
            ),
        }
    }
}

impl OrtDownloadError {
    /// The user-visible text of this error: a pure function of the value.
    pub open spec fn spec_message(&self) -> Seq<char> {
        match self {
            OrtDownloadError::IoError(s) => "Error downloading data to file: "@ + s@,
            OrtDownloadError::ContentLengthError => "Error getting content-length"@,
            OrtDownloadError::CopyError { expected, io } => "Error copying data to file: expected "@
                + spec_dec(*expected as nat) + " length, received "@ + spec_dec(*io as nat),
        }
    }

    /// Renders the user-visible text of this error: deterministically the
    /// same for the same value, with no per-process artefact in it.
    pub fn message(&self) -> (r: String)
        ensures
            r@ == self.spec_message(),
    {
        match self {
            OrtDownloadError::IoError(s) => {
                let mut r = String::from_str("Error downloading data to file: ");
                r.append(s.as_str());
                r
            },
            OrtDownloadError::ContentLengthError => String::from_str("Error getting content-length"),
            OrtDownloadError::CopyError { expected, io } => {
                let mut r = String::from_str("Error copying data to file: expected ");
                let expected_text = dec_u64(*expected);
                r.append(expected_text.as_str());
                r.append(" length, received ");
                let io_text = dec_u64(*io);
                r.append(io_text.as_str());
                r
            },
        }
    }
}

impl NonMatchingDimensionsError {
    /// The user-visible text of this error: a pure function of the value,
    /// carrying both counts and both full shape lists.
    pub open spec fn spec_message(&self) -> Seq<char> {
        match self {
            NonMatchingDimensionsError::InputsCount {
                inference_input_count,
                model_input_count,
                inference_input,
                model_input,
            } => "Non-matching number of inputs: "@ + spec_dec(*inference_input_count as nat)
                + " for input vs "@ + spec_dec(*model_input_count as nat) + " for model (inputs: "@
                + spec_render_shapes(inference_input.deep_view()) + ", model: "@
                + spec_render_model_shapes(model_input.deep_view()) + ")"@,
        }
    }

    /// Renders the user-visible text of this error: deterministically the
    /// same for the same value, with no per-process artefact in it.
    pub fn message(&self) -> (r: String)
        ensures
            r@ == self.spec_message(),
    {
        match self {
            NonMatchingDimensionsError::InputsCount {
                inference_input_count,
                model_input_count,
                inference_input,
                model_input,
            } => {
                let mut r = String::from_str("Non-matching number of inputs: ");
                let icount_text = dec_usize(*inference_input_count);
                r.append(icount_text.as_str());
                r.append(" for input vs ");
                let mcount_text = dec_usize(*model_input_count);
                r.append(mcount_text.as_str());
                r.append(" for model (inputs: ");
                let inference_text = render_shapes(inference_input);
                r.append(inference_text.as_str());
                r.append(", model: ");
                let model_text = render_model_shapes(model_input);
                r.append(model_text.as_str());
                r.append(")");
                r
            },
        }
    }
}

impl OrtError {
    /// The user-visible text of this error: a pure function of the value.
    pub open spec fn spec_message(&self) -> Seq<char> {
        match self {
            OrtError::StringConversion(_) => "Failed to construct String"@,
            OrtError::Environment(e) => "Failed to create environment: "@ + e.spec_message(),
            OrtError::SessionOptions(e) => "Failed to create session options: "@
                + e.spec_message(),
            OrtError::Session(e) => "Failed to create session: "@ + e.spec_message(),
            OrtError::Allocator(e) => "Failed to get allocator: "@ + e.spec_message(),
            OrtError::InOutCount(e) => "Failed to get input or output count: "@ + e.spec_message(),
            OrtError::InputName(e) => "Failed to get input name: "@ + e.spec_message(),
            OrtError::GetTypeInfo(e) => "Failed to get type info: "@ + e.spec_message(),
            OrtError::CastTypeInfoToTensorInfo(e) => "Failed to cast type info to tensor info: "@
                + e.spec_message(),
            OrtError::TensorElementType(e) => "Failed to get tensor element type: "@
                + e.spec_message(),
            OrtError::GetDimensionsCount(e) => "Failed to get dimensions count: "@
                + e.spec_message(),
            OrtError::GetDimensions(e) => "Failed to get dimensions: "@ + e.spec_message(),
            OrtError::CreateCpuMemoryInfo(e) => "Failed to create CPU memory info: "@
                + e.spec_message(),
            OrtError::CreateTensor(e) => "Failed to create tensor: "@ + e.spec_message(),
            OrtError::CreateTensorWithData(e) => "Failed to create tensor with data: "@
                + e.spec_message(),
            OrtError::FillStringTensor(e) => "Failed to fill string tensor: "@ + e.spec_message(),
            OrtError::IsTensor(e) => "Failed to check if tensor: "@ + e.spec_message(),
            OrtError::GetTensorTypeAndShape(e) => "Failed to get tensor type and shape: "@
                + e.spec_message(),
            OrtError::Run(e) => "Failed to run: "@ + e.spec_message(),
            OrtError::GetTensorMutableData(e) => "Failed to get tensor data: "@ + e.spec_message(),
            OrtError::DownloadError(e) => "Failed to download ONNX model: "@ + e.spec_message(),
            OrtError::NonMatchingDimensions(e) => "Dimensions do not match: "@ + e.spec_message(),
            OrtError::FileDoesNotExists { filename } => "File \""@ + filename@
                + "\" does not exists"@,
            OrtError::NonUtf8Path { path } => "Path "@ + spec_render_bytes(path@)
                + " cannot be converted to UTF-8"@,
            OrtError::CStringNulError { position } => "Failed to build CString when original contains null: nul byte found in provided data at position: "@
                + spec_dec(*position as nat),
            OrtError::DynamicLibraryLoadingError { path, err } => "Failed to load a dynamic library of ONNX runtime '\""@
                + path@ + "\"' err: \""@ + err@ + "\""@,
        }
    }

    /// Renders the user-visible text of this error: deterministically the
    /// same for the same value, with no per-process artefact in it.
    pub fn message(&self) -> (r: String)
        ensures
            r@ == self.spec_message(),
    {
        match self {
            OrtError::StringConversion(_) => String::from_str("Failed to construct String"),
            OrtError::Environment(e) => Self::tagged("Failed to create environment: ", e),
            OrtError::SessionOptions(e) => Self::tagged("Failed to create session options: ", e),
            OrtError::Session(e) => Self::tagged("Failed to create session: ", e),
            OrtError::Allocator(e) => Self::tagged("Failed to get allocator: ", e),
            OrtError::InOutCount(e) => Self::tagged("Failed to get input or output count: ", e),
            OrtError::InputName(e) => Self::tagged("Failed to get input name: ", e),
            OrtError::GetTypeInfo(e) => Self::tagged("Failed to get type info: ", e),
            OrtError::CastTypeInfoToTensorInfo(e) => Self::tagged(
                "Failed to cast type info to tensor info: ",
                e,
            ),
            OrtError::TensorElementType(e) => Self::tagged(
                "Failed to get tensor element type: ",
                e,
            ),
            OrtError::GetDimensionsCount(e) => Self::tagged("Failed to get dimensions count: ", e),
            OrtError::GetDimensions(e) => Self::tagged("Failed to get dimensions: ", e),
            OrtError::CreateCpuMemoryInfo(e) => Self::tagged(
                "Failed to create CPU memory info: ",
                e,
            ),
            OrtError::CreateTensor(e) => Self::tagged("Failed to create tensor: ", e),
            OrtError::CreateTensorWithData(e) => Self::tagged(
                "Failed to create tensor with data: ",
                e,
            ),
            OrtError::FillStringTensor(e) => Self::tagged("Failed to fill string tensor: ", e),
            OrtError::IsTensor(e) => Self::tagged("Failed to check if tensor: ", e),
            OrtError::GetTensorTypeAndShape(e) => Self::tagged(
                "Failed to get tensor type and shape: ",
                e,
            ),
            OrtError::Run(e) => Self::tagged("Failed to run: ", e),
            OrtError::GetTensorMutableData(e) => Self::tagged("Failed to get tensor data: ", e),
            OrtError::DownloadError(e) => {
                let mut r = String::from_str("Failed to download ONNX model: ");
                let inner = e.message();
                r.append(inner.as_str());
                r
            },
            OrtError::NonMatchingDimensions(e) => {
                let mut r = String::from_str("Dimensions do not match: ");
                let inner = e.message();
                r.append(inner.as_str());
                r
            },
            OrtError::FileDoesNotExists { filename } => {
                let mut r = String::from_str("File \"");
                r.append(filename.as_str());
                r.append("\" does not exists");
                r
            },
            OrtError::NonUtf8Path { path } => {
                let mut r = String::from_str("Path ");
                let bytes_text = render_bytes(path);
                r.append(bytes_text.as_str());
                r.append(" cannot be converted to UTF-8");
                r
            },
            OrtError::CStringNulError { position } => {
                let mut r = String::from_str(
                    "Failed to build CString when original contains null: nul byte found in provided data at position: ",
                );
                let position_text = dec_usize(*position);
                r.append(position_text.as_str());
                r
            },
            OrtError::DynamicLibraryLoadingError { path, err } => {
                let mut r = String::from_str(
                    "Failed to load a dynamic library of ONNX runtime '\"",
                );
                r.append(path.as_str());
                r.append("\"' err: \"");
                r.append(err.as_str());
                r.append("\"");
                r
            },
        }
    }

    /// Renders one operation-tagged foreign failure: the operation's prefix
    /// followed by the translated foreign error's text.
    fn tagged(prefix: &str, e: &OrtApiError) -> (r: String)
        ensures
            r@ == prefix@ + e.spec_message(),
    {
        let mut r = String::from_str(prefix);
        let inner = e.message();
        r.append(inner.as_str());
        r
    }
}

/// How a non-null status' message bytes translate to an [`OrtApiError`]:
/// valid UTF-8 is decoded, anything else is kept raw.
pub open spec fn api_error_for(bytes: Seq<u8>, e: OrtApiError) -> bool {
    if valid_utf8(bytes) {
        e matches OrtApiError::Msg(s) && s@ == decode_utf8(bytes)
    } else {
        e matches OrtApiError::IntoStringError(raw) && raw@ == bytes
    }
}

/// The status-translation protocol: a null status translates to `Ok`, a
/// non-null status to the error its message bytes determine. This pins the
/// result of [`status_to_result`] for every status.
pub open spec fn translates_to(status: OrtStatusPtr, r: Result<(), OrtApiError>) -> bool {
    match status {
        OrtStatusPtr::Null => r is Ok,
        OrtStatusPtr::Failure(m) => r matches Err(e) && api_error_for(m@, e),
    }
}

/// Relies on `String::from_utf8`: by its documentation it succeeds exactly
/// when the bytes are valid UTF-8 (vstd's `valid_utf8`) and then returns the
/// text those bytes encode (vstd's `decode_utf8`).
#[verifier::external_body]
fn decode_message_bytes(bytes: &Vec<u8>) -> (r: Option<String>)
    ensures
        r is Some <==> valid_utf8(bytes@),
        r matches Some(s) ==> s@ == decode_utf8(bytes@),
{
    match String::from_utf8(bytes.clone()) {
        Ok(s) => Some(s),
        Err(_) => None,
    }
}

/// Wrapper around a foreign status pointer, together with what it needs from
/// the dispatch table to read the message: this facilitates conversion from
/// the foreign status convention to structured errors.
pub struct OrtStatusWrapper {
    status: OrtStatusPtr,
    get_error_message_present: bool,
}

impl OrtStatusWrapper {
    /// The wrapped status.
    pub closed spec fn spec_status(&self) -> OrtStatusPtr {
        self.status
    }

    /// Whether the table the wrapper was built from provides the message
    /// accessor.
    pub closed spec fn spec_message_accessor_present(&self) -> bool {
        self.get_error_message_present
    }

    /// Wraps a status returned by a foreign call, keeping from the dispatch
    /// table what is needed to read the message.
    pub fn new(api: &OrtApi, status: OrtStatusPtr) -> (r: OrtStatusWrapper)
        ensures
            r.spec_status() == status,
            r.spec_message_accessor_present() == api.get_error_message_present,
    {
        OrtStatusWrapper { status, get_error_message_present: api.get_error_message_present }
    }

    /// Translates the wrapped status: a null status is success; the message
    /// of a non-null status is read through the table's message accessor —
    /// which must therefore be present — and decoded. The read is the only
    /// effect; the status' backing memory stays owned by the foreign library.
    pub fn into_result(self) -> (r: Result<(), OrtApiError>)
        requires
            self.spec_status() is Failure ==> self.spec_message_accessor_present(),
        ensures
            translates_to(self.spec_status(), r),
    {
        match self.status {
            OrtStatusPtr::Null => Ok(()),
            OrtStatusPtr::Failure(raw) => match decode_message_bytes(&raw) {
                Option::Some(msg) => Err(OrtApiError::Msg(msg)),
                Option::None => Err(OrtApiError::IntoStringError(raw)),
            },
        }
    }
}

/// Translates one foreign status: null becomes `Ok`, non-null becomes the
/// error determined by its message bytes (see [`translates_to`]). Reading
/// the message goes through the table's message accessor, so a failure
/// status requires that accessor to be present.
pub fn status_to_result(api: &OrtApi, status: OrtStatusPtr) -> (r: Result<(), OrtApiError>)
    requires
        status is Failure ==> api.get_error_message_present,
    ensures
        translates_to(status, r),
{
    let status_wrapper: OrtStatusWrapper = OrtStatusWrapper::new(api, status);
    status_wrapper.into_result()
}

/// Runs one foreign call through the dispatch table and immediately
/// translates the status it returns, so that the null-check and decode logic
/// is written once rather than at every call site. The caller's closure
/// performs the call; whatever status it returns, the result is its exact
/// translation.
pub fn call_ort<F: FnOnce(&OrtApi) -> OrtStatusPtr>(api: &OrtApi, f: F) -> (r: Result<
    (),
    OrtApiError,
>)
    requires
        call_requires(f, (api,)),
        forall|s: OrtStatusPtr| #[trigger]
            call_ensures(f, (api,), s) && s is Failure ==> api.get_error_message_present,
    ensures
        exists|s: OrtStatusPtr| #[trigger] call_ensures(f, (api,), s) && translates_to(s, r),
{
    let status = f(api);
    let ghost returned_status = status;
    let r = status_to_result(api, status);
    proof {
        assert(call_ensures(f, (api,), returned_status) && translates_to(returned_status, r));
    }
    r
}

} // verus!
