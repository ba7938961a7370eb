//! Errors of the server: their codes, severities, recoverability, retry
//! delays, messages and recovery advice.

use crate::text::{append_decimal, append_signed, decimal, join, joined, signed_decimal};
use vstd::prelude::*;
use vstd::string::*;

verus! {

#[verifier::external_type_specification]
#[verifier::external_body]
pub struct ExAnyhowError(anyhow::Error);

/// `anyhow::Error::msg`: an error carrying `message`. The error is opaque
/// to the verifier; nothing is claimed of it.
#[verifier::external_body]
pub(crate) fn error_with_message(message: String) -> anyhow::Error {
    anyhow::Error::msg(message)
}

/// Network errors.
#[derive(Debug, Clone, PartialEq, Eq)]
pub enum NetworkError {
    ConnectionFailed(String),
    BindError(String),
    DnsResolution(String),
    Timeout { timeout: u64 },
    Discovery(String),
    Protocol(String),
}

impl NetworkError {
    /// Connection failures, timeouts, discovery and DNS failures can be
    /// retried; bind and protocol errors need intervention.
    pub fn is_recoverable(&self) -> (b: bool)
        ensures
            b == !(self is BindError || self is Protocol),
    {
        match self {
            NetworkError::ConnectionFailed(_) => true,
            NetworkError::Timeout { .. } => true,
            NetworkError::Discovery(_) => true,
            NetworkError::DnsResolution(_) => true,
            NetworkError::BindError(_) => false,
            NetworkError::Protocol(_) => false,
        }
    }
}

/// Emulator errors; the window timeout is in whole seconds.
#[derive(Debug, Clone, PartialEq, Eq)]
pub enum EmulatorError {
    ExecutableNotFound { path: String },
    StartupFailed { reason: String },
    ProcessCrashed { code: i32 },
    WindowNotFound { timeout_secs: u64 },
    RomNotFound { path: String },
    StartupTimeout,
    ProcessControlFailed { operation: String, reason: String },
    ConfigError(String),
}

/// Input errors.
#[derive(Debug, Clone, PartialEq, Eq)]
pub enum InputError {
    InitializationFailed { reason: String },
    InvalidPlayer { player: u8 },
    ControllerNotConnected { player: u8 },
    AdapterNotInitialized,
    CommandSendFailed { reason: String },
    ConfigurationError { field: String, value: String, reason: String },
    CalibrationFailed { reason: String },
    MappingError { reason: String },
}

/// Streaming errors.
#[derive(Debug, Clone, PartialEq, Eq)]
pub enum StreamingError {
    VideoEncodingFailed(String),
    AudioEncodingFailed(String),
    CaptureInitFailed(String),
    InitializationFailed { component: String, reason: String },
    StreamSetupFailed(String),
    UnsupportedCodec { codec: String },
    ClientDisconnected { client_id: String },
    BandwidthExceeded { current: u64, max: u64 },
    NoBuffersAvailable,
    HardwareAccelerationUnavailable { reason: String },
    FrameProcessingFailed { reason: String },
    PipelineError { operation: String, reason: String },
    EncoderNotAvailable { encoder: String, reason: String },
    InvalidPacket,
    ConfigurationError { field: String, reason: String },
    CaptureStartFailed { reason: String },
    CaptureStopFailed { reason: String },
}

impl StreamingError {
    /// Encoding failures, bandwidth overruns, buffer shortage, frame
    /// processing failures, bad packets and failed stops can be retried;
    /// setup, hardware, pipeline and configuration errors cannot.
    pub fn is_recoverable(&self) -> (b: bool)
        ensures
            b == (self is VideoEncodingFailed || self is AudioEncodingFailed
                || self is BandwidthExceeded || self is NoBuffersAvailable
                || self is FrameProcessingFailed || self is InvalidPacket
                || self is CaptureStopFailed),
    {
        match self {
            StreamingError::VideoEncodingFailed(_) => true,
            StreamingError::AudioEncodingFailed(_) => true,
            StreamingError::CaptureInitFailed(_) => false,
            StreamingError::InitializationFailed { .. } => false,
            StreamingError::StreamSetupFailed(_) => false,
            StreamingError::UnsupportedCodec { .. } => false,
            StreamingError::ClientDisconnected { .. } => false,
            StreamingError::BandwidthExceeded { .. } => true,
            StreamingError::NoBuffersAvailable => true,
            StreamingError::HardwareAccelerationUnavailable { .. } => false,
            StreamingError::FrameProcessingFailed { .. } => true,
            StreamingError::PipelineError { .. } => false,
            StreamingError::EncoderNotAvailable { .. } => false,
            StreamingError::InvalidPacket => true,
            StreamingError::ConfigurationError { .. } => false,
            StreamingError::CaptureStartFailed { .. } => false,
            StreamingError::CaptureStopFailed { .. } => true,
        }
    }
}

/// VPN errors.
#[derive(Debug, Clone, PartialEq, Eq)]
pub enum VpnError {
    TailscaleNotAvailable(String),
    AuthFailed(String),
    NetworkUnreachable(String),
    Config(String),
    Timeout,
}

/// Severity of an error for monitoring and alerting.
#[derive(Debug, Clone, Copy, PartialEq, Eq, Hash)]
pub enum ErrorSeverity {
    Low,
    Medium,
    High,
    Critical,
}

/// Any error of the server. I/O and serialization errors carry the message
/// of the underlying error.
#[derive(Debug, Clone, PartialEq, Eq)]
pub enum DpstreamError {
    Network(NetworkError),
    Emulator(EmulatorError),
    Streaming(StreamingError),
    Input(InputError),
    Vpn(VpnError),
    Config(String),
    Auth(String),
    Io(String),
    Serialization(String),
    Internal(String),
    ResourceExhaustion { resource: String, details: String },
    HardwareFailure { component: String, details: String },
    MemoryAllocation { size: usize },
    ServiceUnavailable { service: String, retry_after_ms: u64 },
}

/// The code of each kind of error: 1000 network, 2000 emulator, 3000
/// streaming, 3500 input, 4000 VPN, 5000 configuration, 6000
/// authentication, 7000 I/O, 8000 serialization, 9000 internal, then 9100 to
/// 9400 for resources, hardware, memory and unavailable services.
pub open spec fn code_of(e: DpstreamError) -> u32 {
    match e {
        DpstreamError::Network(_) => 1000,
        DpstreamError::Emulator(_) => 2000,
        DpstreamError::Streaming(_) => 3000,
        DpstreamError::Input(_) => 3500,
        DpstreamError::Vpn(_) => 4000,
        DpstreamError::Config(_) => 5000,
        DpstreamError::Auth(_) => 6000,
        DpstreamError::Io(_) => 7000,
        DpstreamError::Serialization(_) => 8000,
        DpstreamError::Internal(_) => 9000,
        DpstreamError::ResourceExhaustion { .. } => 9100,
        DpstreamError::HardwareFailure { .. } => 9200,
        DpstreamError::MemoryAllocation { .. } => 9300,
        DpstreamError::ServiceUnavailable { .. } => 9400,
    }
}

/// The severity table: hardware and memory failures are critical,
/// authentication and configuration errors high, input and serialization
/// errors low, all others medium.
pub open spec fn severity_of(e: DpstreamError) -> ErrorSeverity {
    match e {
        DpstreamError::HardwareFailure { .. } | DpstreamError::MemoryAllocation { .. } => {
            ErrorSeverity::Critical
        },
        DpstreamError::Auth(_) | DpstreamError::Config(_) => ErrorSeverity::High,
        DpstreamError::Input(_) | DpstreamError::Serialization(_) => ErrorSeverity::Low,
        _ => ErrorSeverity::Medium,
    }
}

/// Advice for the errors that have their own.
pub open spec fn suggestions_of(e: DpstreamError) -> Seq<Seq<char>> {
    match e {
        DpstreamError::Network(NetworkError::Timeout { .. }) => seq![
            "Retry the operation"@,
            "Check network connectivity"@,
        ],
        DpstreamError::Network(NetworkError::Discovery(_)) => seq![
            "Ensure Tailscale is running"@,
        ],
        DpstreamError::Emulator(EmulatorError::ExecutableNotFound { .. }) => seq![
            "Install Dolphin Emulator"@,
            "Check DOLPHIN_PATH configuration"@,
        ],
        DpstreamError::Vpn(VpnError::AuthFailed(_)) => seq![
            "Check Tailscale authentication"@,
            "Regenerate auth key"@,
        ],
        DpstreamError::Input(_) => seq![
            "Check controller connection"@,
            "Verify input configuration"@,
        ],
        DpstreamError::ResourceExhaustion { .. } => seq![
            "Free up system resources"@,
            "Close unused applications"@,
        ],
        DpstreamError::HardwareFailure { .. } => seq![
            "Check hardware connections"@,
            "Contact system administrator"@,
        ],
        DpstreamError::MemoryAllocation { .. } => seq![
            "Free system memory"@,
            "Restart the application"@,
        ],
        DpstreamError::ServiceUnavailable { .. } => seq![
            "Wait for service to become available"@,
            "Check service status"@,
        ],
        _ => seq!["Check logs for more details"@],
    }
}

/// The text of a network error.
pub open spec fn network_text(e: NetworkError) -> Seq<char> {
    match e {
        NetworkError::ConnectionFailed(s) => "Connection failed: "@ + s@,
        NetworkError::BindError(s) => "Socket bind error: "@ + s@,
        NetworkError::DnsResolution(s) => "DNS resolution failed: "@ + s@,
        NetworkError::Timeout { timeout } => "Timeout: operation took longer than "@ + decimal(
            timeout as nat,
        ) + "ms"@,
        NetworkError::Discovery(s) => "Service discovery failed: "@ + s@,
        NetworkError::Protocol(s) => "Protocol error: "@ + s@,
    }
}

/// The text of an emulator error.
pub open spec fn emulator_text(e: EmulatorError) -> Seq<char> {
    match e {
        EmulatorError::ExecutableNotFound { path } => "Dolphin executable not found at "@ + path@,
        EmulatorError::StartupFailed { reason } => "Failed to start Dolphin: "@ + reason@,
        EmulatorError::ProcessCrashed { code } => "Dolphin process crashed with exit code "@
            + signed_decimal(code as int),
        EmulatorError::WindowNotFound { timeout_secs } =>
            "Dolphin window not found after timeout: "@ + decimal(timeout_secs as nat) + "s"@,
        EmulatorError::RomNotFound { path } => "ROM file not found: "@ + path@,
        EmulatorError::StartupTimeout => "Dolphin startup timed out"@,
        EmulatorError::ProcessControlFailed { operation, reason } =>
            "Process control operation '"@ + operation@ + "' failed: "@ + reason@,
        EmulatorError::ConfigError(s) => "Configuration error: "@ + s@,
    }
}

/// The text of an input error.
pub open spec fn input_text(e: InputError) -> Seq<char> {
    match e {
        InputError::InitializationFailed { reason } => "Input initialization failed: "@
            + reason@,
        InputError::InvalidPlayer { player } => "Invalid player slot: "@ + decimal(player as nat)
            + " (must be 1-4)"@,
        InputError::ControllerNotConnected { player } => "Controller not connected for player "@
            + decimal(player as nat),
        InputError::AdapterNotInitialized => "Input adapter not initialized"@,
        InputError::CommandSendFailed { reason } => "Command send failed: "@ + reason@,
        InputError::ConfigurationError { field, value, reason } => "Configuration error in "@
            + field@ + " with value '"@ + value@ + "': "@ + reason@,
        InputError::CalibrationFailed { reason } => "Calibration failed: "@ + reason@,
        InputError::MappingError { reason } => "Input mapping error: "@ + reason@,
    }
}

/// The text of a streaming error.
pub open spec fn streaming_text(e: StreamingError) -> Seq<char> {
    match e {
        StreamingError::VideoEncodingFailed(s) => "Video encoding failed: "@ + s@,
        StreamingError::AudioEncodingFailed(s) => "Audio encoding failed: "@ + s@,
        StreamingError::CaptureInitFailed(s) => "Capture initialization failed: "@ + s@,
        StreamingError::InitializationFailed { component, reason } => "Initialization failed for "@
            + component@ + ": "@ + reason@,
        StreamingError::StreamSetupFailed(s) => "Stream setup failed: "@ + s@,
        StreamingError::UnsupportedCodec { codec } => "Codec not supported: "@ + codec@,
        StreamingError::ClientDisconnected { client_id } => "Client disconnected: "@
            + client_id@,
        StreamingError::BandwidthExceeded { current, max } => "Bandwidth exceeded: current "@
            + decimal(current as nat) + "bps, max "@ + decimal(max as nat) + "bps"@,
        StreamingError::NoBuffersAvailable => "No buffers available for processing"@,
        StreamingError::HardwareAccelerationUnavailable { reason } =>
            "Hardware acceleration not available: "@ + reason@,
        StreamingError::FrameProcessingFailed { reason } => "Frame processing failed: "@
            + reason@,
        StreamingError::PipelineError { operation, reason } => "Pipeline error in "@
            + operation@ + ": "@ + reason@,
        StreamingError::EncoderNotAvailable { encoder, reason } => "Encoder not available: "@
            + encoder@ + " - "@ + reason@,
        StreamingError::InvalidPacket => "Invalid packet data"@,
        StreamingError::ConfigurationError { field, reason } => "Configuration error in "@
            + field@ + ": "@ + reason@,
        StreamingError::CaptureStartFailed { reason } => "Capture start failed: "@ + reason@,
        StreamingError::CaptureStopFailed { reason } => "Capture stop failed: "@ + reason@,
    }
}

/// The text of a VPN error.
pub open spec fn vpn_text(e: VpnError) -> Seq<char> {
    match e {
        VpnError::TailscaleNotAvailable(s) => "Tailscale not available: "@ + s@,
        VpnError::AuthFailed(s) => "Authentication failed: "@ + s@,
        VpnError::NetworkUnreachable(s) => "Network unreachable: "@ + s@,
        VpnError::Config(s) => "Configuration error: "@ + s@,
        VpnError::Timeout => "Connection timeout"@,
    }
}

/// The text of any error.
pub open spec fn error_text(e: DpstreamError) -> Seq<char> {
    match e {
        DpstreamError::Network(n) => "Network error: "@ + network_text(n),
        DpstreamError::Emulator(m) => "Emulator error: "@ + emulator_text(m),
        DpstreamError::Streaming(s) => "Streaming error: "@ + streaming_text(s),
        DpstreamError::Input(i) => "Input error: "@ + input_text(i),
        DpstreamError::Vpn(v) => "VPN error: "@ + vpn_text(v),
        DpstreamError::Config(s) => "Configuration error: "@ + s@,
        DpstreamError::Auth(s) => "Authentication error: "@ + s@,
        DpstreamError::Io(s) => "IO error: "@ + s@,
        DpstreamError::Serialization(s) => "Serialization error: "@ + s@,
        DpstreamError::Internal(s) => "Internal error: "@ + s@,
        DpstreamError::ResourceExhaustion { resource, details } => "Resource exhaustion: "@
            + resource@ + " - "@ + details@,
        DpstreamError::HardwareFailure { component, details } => "Hardware failure: "@
            + component@ + " - "@ + details@,
        DpstreamError::MemoryAllocation { size } => "Memory allocation failed: requested "@
            + decimal(size as nat) + " bytes"@,
        DpstreamError::ServiceUnavailable { service, retry_after_ms } => "Service unavailable: "@
            + service@ + " - retry after "@ + decimal(retry_after_ms as nat) + "ms"@,
    }
}

/// The message shown to users: a fixed sentence for the errors that have
/// one, else "An error occurred: " and the error's text.
pub open spec fn user_text(e: DpstreamError) -> Seq<char> {
    match e {
        DpstreamError::Network(NetworkError::Timeout { .. }) =>
            "Network operation timed out. Please check your connection."@,
        DpstreamError::Emulator(EmulatorError::ExecutableNotFound { .. }) =>
            "Dolphin Emulator not found. Please ensure it's installed."@,
        DpstreamError::Vpn(VpnError::AuthFailed(_)) =>
            "VPN authentication failed. Please check your Tailscale configuration."@,
        DpstreamError::Input(_) =>
            "Controller input error. Please check your input device connections."@,
        DpstreamError::ResourceExhaustion { .. } =>
            "System resources exhausted. Please free up memory or CPU."@,
        DpstreamError::HardwareFailure { .. } =>
            "Hardware failure detected. Please check your system hardware."@,
        DpstreamError::MemoryAllocation { .. } =>
            "Memory allocation failed. System may be low on memory."@,
        DpstreamError::ServiceUnavailable { .. } =>
            "Service temporarily unavailable. Please try again later."@,
        _ => "An error occurred: "@ + error_text(e),
    }
}

/// A string holding `prefix` followed by `rest`.
fn prefixed(prefix: &str, rest: &str) -> (s: String)
    ensures
        s@ == prefix@ + rest@,
{
    let mut s = String::from_str(prefix);
    s.append(rest);
    s
}

impl NetworkError {
    /// The error's text.
    pub fn message(&self) -> (s: String)
        ensures
            s@ == network_text(*self),
    {
        match self {
            NetworkError::ConnectionFailed(s) => prefixed("Connection failed: ", s.as_str()),
            NetworkError::BindError(s) => prefixed("Socket bind error: ", s.as_str()),
            NetworkError::DnsResolution(s) => prefixed("DNS resolution failed: ", s.as_str()),
            NetworkError::Timeout { timeout } => {
                let mut s = String::from_str("Timeout: operation took longer than ");
                append_decimal(&mut s, *timeout);
                s.append("ms");
                s
            },
            NetworkError::Discovery(s) => prefixed("Service discovery failed: ", s.as_str()),
            NetworkError::Protocol(s) => prefixed("Protocol error: ", s.as_str()),
        }
    }
}

impl EmulatorError {
    /// The error's text.
    pub fn message(&self) -> (s: String)
        ensures
            s@ == emulator_text(*self),
    {
        match self {
            EmulatorError::ExecutableNotFound { path } => prefixed(
                "Dolphin executable not found at ",
                path.as_str(),
            ),
            EmulatorError::StartupFailed { reason } => prefixed(
                "Failed to start Dolphin: ",
                reason.as_str(),
            ),
            EmulatorError::ProcessCrashed { code } => {
                let mut s = String::from_str("Dolphin process crashed with exit code ");
                append_signed(&mut s, *code as i64);
                s
            },
            EmulatorError::WindowNotFound { timeout_secs } => {
                let mut s = String::from_str("Dolphin window not found after timeout: ");
                append_decimal(&mut s, *timeout_secs);
                s.append("s");
                s
            },
            EmulatorError::RomNotFound { path } => prefixed("ROM file not found: ", path.as_str()),
            EmulatorError::StartupTimeout => String::from_str("Dolphin startup timed out"),
            EmulatorError::ProcessControlFailed { operation, reason } => {
                let mut s = prefixed("Process control operation '", operation.as_str());
                s.append("' failed: ");
                s.append(reason.as_str());
                s
            },
            EmulatorError::ConfigError(s) => prefixed("Configuration error: ", s.as_str()),
        }
    }
}

impl InputError {
    /// The error's text.
    pub fn message(&self) -> (s: String)
        ensures
            s@ == input_text(*self),
    {
        match self {
            InputError::InitializationFailed { reason } => prefixed(
                "Input initialization failed: ",
                reason.as_str(),
            ),
            InputError::InvalidPlayer { player } => {
                let mut s = String::from_str("Invalid player slot: ");
                append_decimal(&mut s, *player as u64);
                s.append(" (must be 1-4)");
                s
            },
            InputError::ControllerNotConnected { player } => {
                let mut s = String::from_str("Controller not connected for player ");
                append_decimal(&mut s, *player as u64);
                s
            },
            InputError::AdapterNotInitialized => String::from_str("Input adapter not initialized"),
            InputError::CommandSendFailed { reason } => prefixed(
                "Command send failed: ",
                reason.as_str(),
            ),
            InputError::ConfigurationError { field, value, reason } => {
                let mut s = prefixed("Configuration error in ", field.as_str());
                s.append(" with value '");
                s.append(value.as_str());
                s.append("': ");
                s.append(reason.as_str());
                s
            },
            InputError::CalibrationFailed { reason } => prefixed(
                "Calibration failed: ",
                reason.as_str(),
            ),
            InputError::MappingError { reason } => prefixed(
                "Input mapping error: ",
                reason.as_str(),
            ),
        }
    }
}

impl StreamingError {
    /// The error's text.
    pub fn message(&self) -> (s: String)
        ensures
            s@ == streaming_text(*self),
    {
        match self {
            StreamingError::VideoEncodingFailed(s) => prefixed(
                "Video encoding failed: ",
                s.as_str(),
            ),
            StreamingError::AudioEncodingFailed(s) => prefixed(
                "Audio encoding failed: ",
                s.as_str(),
            ),
            StreamingError::CaptureInitFailed(s) => prefixed(
                "Capture initialization failed: ",
                s.as_str(),
            ),
            StreamingError::InitializationFailed { component, reason } => {
                let mut s = prefixed("Initialization failed for ", component.as_str());
                s.append(": ");
                s.append(reason.as_str());
                s
            },
            StreamingError::StreamSetupFailed(s) => prefixed("Stream setup failed: ", s.as_str()),
            StreamingError::UnsupportedCodec { codec } => prefixed(
                "Codec not supported: ",
                codec.as_str(),
            ),
            StreamingError::ClientDisconnected { client_id } => prefixed(
                "Client disconnected: ",
                client_id.as_str(),
            ),
            StreamingError::BandwidthExceeded { current, max } => {
                let mut s = String::from_str("Bandwidth exceeded: current ");
                append_decimal(&mut s, *current);
                s.append("bps, max ");
                append_decimal(&mut s, *max);
                s.append("bps");
                s
            },
            StreamingError::NoBuffersAvailable => String::from_str(
                "No buffers available for processing",
            ),
            StreamingError::HardwareAccelerationUnavailable { reason } => prefixed(
                "Hardware acceleration not available: ",
                reason.as_str(),
            ),
            StreamingError::FrameProcessingFailed { reason } => prefixed(
                "Frame processing failed: ",
                reason.as_str(),
            ),
            StreamingError::PipelineError { operation, reason } => {
                let mut s = prefixed("Pipeline error in ", operation.as_str());
                s.append(": ");
                s.append(reason.as_str());
                s
            },
            StreamingError::EncoderNotAvailable { encoder, reason } => {
                let mut s = prefixed("Encoder not available: ", encoder.as_str());
                s.append(" - ");
                s.append(reason.as_str());
                s
            },
            StreamingError::InvalidPacket => String::from_str("Invalid packet data"),
            StreamingError::ConfigurationError { field, reason } => {
                let mut s = prefixed("Configuration error in ", field.as_str());
                s.append(": ");
                s.append(reason.as_str());
                s
            },
            StreamingError::CaptureStartFailed { reason } => prefixed(
                "Capture start failed: ",
                reason.as_str(),
            ),
            StreamingError::CaptureStopFailed { reason } => prefixed(
                "Capture stop failed: ",
                reason.as_str(),
            ),
        }
    }
}

impl VpnError {
    /// The error's text.
    pub fn message(&self) -> (s: String)
        ensures
            s@ == vpn_text(*self),
    {
        match self {
            VpnError::TailscaleNotAvailable(s) => prefixed("Tailscale not available: ", s.as_str()),
            VpnError::AuthFailed(s) => prefixed("Authentication failed: ", s.as_str()),
            VpnError::NetworkUnreachable(s) => prefixed("Network unreachable: ", s.as_str()),
            VpnError::Config(s) => prefixed("Configuration error: ", s.as_str()),
            VpnError::Timeout => String::from_str("Connection timeout"),
        }
    }
}


/// Context for the error of a result.
pub trait ErrorContext<T>: Sized {
    /// The result with the context that `f` gives added to its error.
    fn with_context<F: FnOnce() -> String>(self, f: F) -> (r: Result<T, DpstreamError>)
        requires
            call_requires(f, ()),
    ;
}

impl<T> ErrorContext<T> for Result<T, DpstreamError> {
    /// A success stays as it is; an error becomes an internal error whose
    /// text is the context, a colon, a space and the error's text.
    fn with_context<F: FnOnce() -> String>(self, f: F) -> (r: Result<T, DpstreamError>)
        ensures
            self matches Ok(v) ==> r == Ok::<T, DpstreamError>(v),
            self matches Err(e) ==> exists|context: String|
                call_ensures(f, (), context) && (r matches Err(DpstreamError::Internal(m)) && m@
                    == context@ + ": "@ + error_text(e)),
    {
        match self {
            Ok(v) => Ok(v),
            Err(e) => {
                let context = f();
                let mut m = context.clone();
                m.append(": ");
                let text = e.message();
                m.append(text.as_str());
                proof {
                    reveal_strlit(": ");
                }
                Err(DpstreamError::Internal(m))
            },
        }
    }
}

impl DpstreamError {
    /// The code for programmatic handling.
    pub fn error_code(&self) -> (c: u32)
        ensures
            c == code_of(*self),
    {
        match self {
            DpstreamError::Network(_) => 1000,
            DpstreamError::Emulator(_) => 2000,
            DpstreamError::Streaming(_) => 3000,
            DpstreamError::Input(_) => 3500,
            DpstreamError::Vpn(_) => 4000,
            DpstreamError::Config(_) => 5000,
            DpstreamError::Auth(_) => 6000,
            DpstreamError::Io(_) => 7000,
            DpstreamError::Serialization(_) => 8000,
            DpstreamError::Internal(_) => 9000,
            DpstreamError::ResourceExhaustion { .. } => 9100,
            DpstreamError::HardwareFailure { .. } => 9200,
            DpstreamError::MemoryAllocation { .. } => 9300,
            DpstreamError::ServiceUnavailable { .. } => 9400,
        }
    }

    /// Whether the operation may be retried: network and streaming errors
    /// by their own rule, input errors, unavailable services and exhausted
    /// resources yes, everything else no.
    pub fn is_recoverable(&self) -> (b: bool)
        ensures
            b == match *self {
                DpstreamError::Network(n) => !(n is BindError || n is Protocol),
                DpstreamError::Streaming(s) => (s is VideoEncodingFailed || s is AudioEncodingFailed
                    || s is BandwidthExceeded || s is NoBuffersAvailable
                    || s is FrameProcessingFailed || s is InvalidPacket
                    || s is CaptureStopFailed),
                DpstreamError::Input(_) => true,
                DpstreamError::ServiceUnavailable { .. } => true,
                DpstreamError::ResourceExhaustion { .. } => true,
                _ => false,
            },
    {
        match self {
            DpstreamError::Network(net_err) => net_err.is_recoverable(),
            DpstreamError::Streaming(stream_err) => stream_err.is_recoverable(),
            DpstreamError::Input(_) => true,
            DpstreamError::ServiceUnavailable { .. } => true,
            DpstreamError::ResourceExhaustion { .. } => true,
            DpstreamError::HardwareFailure { .. } => false,
            DpstreamError::MemoryAllocation { .. } => false,
            DpstreamError::Auth(_) => false,
            _ => false,
        }
    }

    /// Milliseconds to wait before retrying: 1000 for network errors, 500
    /// for streaming errors, the service's own delay when unavailable, 2000
    /// for exhausted resources, none otherwise.
    pub fn retry_delay_ms(&self) -> (d: Option<u64>)
        ensures
            d == match *self {
                DpstreamError::Network(_) => Some(1000u64),
                DpstreamError::Streaming(_) => Some(500u64),
                DpstreamError::ServiceUnavailable { retry_after_ms, .. } => Some(retry_after_ms),
                DpstreamError::ResourceExhaustion { .. } => Some(2000u64),
                _ => None,
            },
    {
        match self {
            DpstreamError::Network(_) => Some(1000),
            DpstreamError::Streaming(_) => Some(500),
            DpstreamError::ServiceUnavailable { retry_after_ms, .. } => Some(*retry_after_ms),
            DpstreamError::ResourceExhaustion { .. } => Some(2000),
            _ => None,
        }
    }

    /// The severity for monitoring.
    pub fn severity(&self) -> (s: ErrorSeverity)
        ensures
            s == severity_of(*self),
    {
        match self {
            DpstreamError::HardwareFailure { .. } | DpstreamError::MemoryAllocation { .. } => {
                ErrorSeverity::Critical
            },
            DpstreamError::Auth(_) | DpstreamError::Config(_) => ErrorSeverity::High,
            DpstreamError::Network(_) | DpstreamError::Streaming(_)
            | DpstreamError::ServiceUnavailable { .. } => ErrorSeverity::Medium,
            DpstreamError::Input(_) | DpstreamError::Serialization(_) => ErrorSeverity::Low,
            _ => ErrorSeverity::Medium,
        }
    }

    /// The error's text, as it is displayed.
    pub fn message(&self) -> (s: String)
        ensures
            s@ == error_text(*self),
    {
        match self {
            DpstreamError::Network(n) => prefixed("Network error: ", n.message().as_str()),
            DpstreamError::Emulator(m) => prefixed("Emulator error: ", m.message().as_str()),
            DpstreamError::Streaming(s) => prefixed("Streaming error: ", s.message().as_str()),
            DpstreamError::Input(i) => prefixed("Input error: ", i.message().as_str()),
            DpstreamError::Vpn(v) => prefixed("VPN error: ", v.message().as_str()),
            DpstreamError::Config(s) => prefixed("Configuration error: ", s.as_str()),
            DpstreamError::Auth(s) => prefixed("Authentication error: ", s.as_str()),
            DpstreamError::Io(s) => prefixed("IO error: ", s.as_str()),
            DpstreamError::Serialization(s) => prefixed("Serialization error: ", s.as_str()),
            DpstreamError::Internal(s) => prefixed("Internal error: ", s.as_str()),
            DpstreamError::ResourceExhaustion { resource, details } => {
                let mut s = prefixed("Resource exhaustion: ", resource.as_str());
                s.append(" - ");
                s.append(details.as_str());
                s
            },
            DpstreamError::HardwareFailure { component, details } => {
                let mut s = prefixed("Hardware failure: ", component.as_str());
                s.append(" - ");
                s.append(details.as_str());
                s
            },
            DpstreamError::MemoryAllocation { size } => {
                let mut s = String::from_str("Memory allocation failed: requested ");
                append_decimal(&mut s, *size as u64);
                s.append(" bytes");
                s
            },
            DpstreamError::ServiceUnavailable { service, retry_after_ms } => {
                let mut s = prefixed("Service unavailable: ", service.as_str());
                s.append(" - retry after ");
                append_decimal(&mut s, *retry_after_ms);
                s.append("ms");
                s
            },
        }
    }

    /// Suggested recovery actions.
    pub fn recovery_suggestions(&self) -> (v: Vec<String>)
        ensures
            v@.map_values(|x: String| x@) == suggestions_of(*self),
    {
        let v = match self {
            DpstreamError::Network(NetworkError::Timeout { .. }) => vec![
                String::from_str("Retry the operation"),
                String::from_str("Check network connectivity"),
            ],
            DpstreamError::Network(NetworkError::Discovery(_)) => vec![
                String::from_str("Ensure Tailscale is running"),
            ],
            DpstreamError::Emulator(EmulatorError::ExecutableNotFound { .. }) => vec![
                String::from_str("Install Dolphin Emulator"),
                String::from_str("Check DOLPHIN_PATH configuration"),
            ],
            DpstreamError::Vpn(VpnError::AuthFailed(_)) => vec![
                String::from_str("Check Tailscale authentication"),
                String::from_str("Regenerate auth key"),
            ],
            DpstreamError::Input(_) => vec![
                String::from_str("Check controller connection"),
                String::from_str("Verify input configuration"),
            ],
            DpstreamError::ResourceExhaustion { .. } => vec![
                String::from_str("Free up system resources"),
                String::from_str("Close unused applications"),
            ],
            DpstreamError::HardwareFailure { .. } => vec![
                String::from_str("Check hardware connections"),
                String::from_str("Contact system administrator"),
            ],
            DpstreamError::MemoryAllocation { .. } => vec![
                String::from_str("Free system memory"),
                String::from_str("Restart the application"),
            ],
            DpstreamError::ServiceUnavailable { .. } => vec![
                String::from_str("Wait for service to become available"),
                String::from_str("Check service status"),
            ],
            _ => vec![String::from_str("Check logs for more details")],
        };
        assert(v@.map_values(|x: String| x@) =~= suggestions_of(*self));
        v
    }

    /// A message for users.
    pub fn user_message(&self) -> (s: String)
        ensures
            s@ == user_text(*self),
    {
        match self {
            DpstreamError::Network(NetworkError::Timeout { .. }) => String::from_str(
                "Network operation timed out. Please check your connection.",
            ),
            DpstreamError::Emulator(EmulatorError::ExecutableNotFound { .. }) => String::from_str(
                "Dolphin Emulator not found. Please ensure it's installed.",
            ),
            DpstreamError::Vpn(VpnError::AuthFailed(_)) => String::from_str(
                "VPN authentication failed. Please check your Tailscale configuration.",
            ),
            DpstreamError::Input(_) => String::from_str(
                "Controller input error. Please check your input device connections.",
            ),
            DpstreamError::ResourceExhaustion { .. } => String::from_str(
                "System resources exhausted. Please free up memory or CPU.",
            ),
            DpstreamError::HardwareFailure { .. } => String::from_str(
                "Hardware failure detected. Please check your system hardware.",
            ),
            DpstreamError::MemoryAllocation { .. } => String::from_str(
                "Memory allocation failed. System may be low on memory.",
            ),
            DpstreamError::ServiceUnavailable { .. } => String::from_str(
                "Service temporarily unavailable. Please try again later.",
            ),
            _ => prefixed("An error occurred: ", self.message().as_str()),
        }
    }
}

/// The name of a severity, as `Debug` prints it.
pub open spec fn severity_name(s: ErrorSeverity) -> Seq<char> {
    match s {
        ErrorSeverity::Low => "Low"@,
        ErrorSeverity::Medium => "Medium"@,
        ErrorSeverity::High => "High"@,
        ErrorSeverity::Critical => "Critical"@,
    }
}

/// The name of a severity, as `Debug` prints it.
pub fn severity_label(s: ErrorSeverity) -> (r: String)
    ensures
        r@ == severity_name(s),
{
    match s {
        ErrorSeverity::Low => String::from_str("Low"),
        ErrorSeverity::Medium => String::from_str("Medium"),
        ErrorSeverity::High => String::from_str("High"),
        ErrorSeverity::Critical => String::from_str("Critical"),
    }
}

/// What `chrono` prints for the UTC time `secs` seconds after 1970 with the
/// pattern `%Y-%m-%d %H:%M:%S UTC`.
pub uninterp spec fn utc_text(secs: i64) -> Seq<char>;

/// Formats a time with `chrono`: `DateTime::<Utc>::from_timestamp(secs, 0)`
/// printed as `%Y-%m-%d %H:%M:%S UTC`; the text is a function of `secs`
/// alone. Times that `chrono` cannot represent give the empty string.
#[verifier::external_body]
fn format_utc(secs: i64) -> (s: String)
    ensures
        s@ == utc_text(secs),
{
    match chrono::DateTime::<chrono::Utc>::from_timestamp(secs, 0) {
        Some(t) => t.format("%Y-%m-%d %H:%M:%S UTC").to_string(),
        None => String::new(),
    }
}

/// The current UTC time in seconds since 1970 (`chrono::Utc::now`). Nothing
/// is claimed of the value.
#[verifier::external_body]
fn utc_now_secs() -> (t: i64) {
    chrono::Utc::now().timestamp()
}

/// An error with the context gathered while it travelled up, for logging.
pub struct ErrorReport {
    pub error: DpstreamError,
    pub context: Vec<String>,
    pub correlation_id: Option<String>,
    /// Seconds since 1970, UTC.
    pub timestamp: i64,
    pub component: Option<String>,
    pub retry_count: u32,
}

/// The log line of a report whose context, correlation, component and
/// retry count are given as plain values.
pub open spec fn log_line(
    time: Seq<char>,
    error: DpstreamError,
    context: Seq<Seq<char>>,
    correlation: Option<Seq<char>>,
    component: Option<Seq<char>>,
    retries: u32,
) -> Seq<char> {
    "["@ + time + "] "@ + error_text(error) + " (Code: "@ + decimal(code_of(error) as nat)
        + ", Severity: "@ + severity_name(severity_of(error)) + ")"@ + (if context.len() == 0 {
        Seq::empty()
    } else {
        " | Context: "@ + joined(context, " -> "@)
    }) + (match correlation {
        Some(id) => " | Correlation: "@ + id,
        None => Seq::empty(),
    }) + (match component {
        Some(c) => " | Component: "@ + c,
        None => Seq::empty(),
    }) + (if retries > 0 {
        " | Retry: "@ + decimal(retries as nat)
    } else {
        Seq::empty()
    })
}

/// The view of an optional string.
pub open spec fn opt_view(s: Option<String>) -> Option<Seq<char>> {
    match s {
        Some(x) => Some(x@),
        None => None,
    }
}

impl ErrorReport {
    /// A report of `error` stamped with the current time, with no context.
    pub fn new(error: DpstreamError) -> (r: Self)
        ensures
            r.error == error,
            r.context@.len() == 0,
            r.correlation_id is None,
            r.component is None,
            r.retry_count == 0,
    {
        ErrorReport {
            error,
            context: Vec::new(),
            correlation_id: None,
            timestamp: utc_now_secs(),
            component: None,
            retry_count: 0,
        }
    }

    /// The report with one more line of context at the end.
    pub fn with_context(self, context: String) -> (r: Self)
        ensures
            r.context@ == self.context@.push(context),
            r.error == self.error,
            r.correlation_id == self.correlation_id,
            r.timestamp == self.timestamp,
            r.component == self.component,
            r.retry_count == self.retry_count,
    {
        let mut r = self;
        r.context.push(context);
        r
    }

    /// The report with a correlation id.
    pub fn with_correlation_id(self, correlation_id: String) -> (r: Self)
        ensures
            r.correlation_id == Some(correlation_id),
            r.error == self.error,
            r.context == self.context,
            r.timestamp == self.timestamp,
            r.component == self.component,
            r.retry_count == self.retry_count,
    {
        let mut r = self;
        r.correlation_id = Some(correlation_id);
        r
    }

    /// The report naming the component.
    pub fn with_component(self, component: String) -> (r: Self)
        ensures
            r.component == Some(component),
            r.error == self.error,
            r.context == self.context,
            r.timestamp == self.timestamp,
            r.correlation_id == self.correlation_id,
            r.retry_count == self.retry_count,
    {
        let mut r = self;
        r.component = Some(component);
        r
    }

    /// The report with a retry count.
    pub fn with_retry_count(self, retry_count: u32) -> (r: Self)
        ensures
            r.retry_count == retry_count,
            r.error == self.error,
            r.context == self.context,
            r.timestamp == self.timestamp,
            r.correlation_id == self.correlation_id,
            r.component == self.component,
    {
        let mut r = self;
        r.retry_count = retry_count;
        r
    }

    /// The structured log line:
    /// `[time] text (Code: n, Severity: s)` followed by the context joined
    /// with arrows, the correlation id, the component and the retry count,
    /// each only when present.
    pub fn format_for_log(&self) -> (s: String)
        ensures
            s@ == log_line(
                utc_text(self.timestamp),
                self.error,
                self.context@.map_values(|x: String| x@),
                opt_view(self.correlation_id),
                opt_view(self.component),
                self.retry_count,
            ),
    {
        let mut s = String::from_str("[");
        let time = format_utc(self.timestamp);
        s.append(time.as_str());
        s.append("] ");
        let text = self.error.message();
        s.append(text.as_str());
        s.append(" (Code: ");
        append_decimal(&mut s, self.error.error_code() as u64);
        s.append(", Severity: ");
        let sev = severity_label(self.error.severity());
        s.append(sev.as_str());
        s.append(")");
        let ghost head = s@;
        if self.context.len() > 0 {
            s.append(" | Context: ");
            let joined_context = join(&self.context, " -> ");
            s.append(joined_context.as_str());
        }
        let ghost with_context = s@;
        match &self.correlation_id {
            Some(id) => {
                s.append(" | Correlation: ");
                s.append(id.as_str());
            },
            None => {},
        }
        let ghost with_correlation = s@;
        match &self.component {
            Some(c) => {
                s.append(" | Component: ");
                s.append(c.as_str());
            },
            None => {},
        }
        let ghost with_component = s@;
        if self.retry_count > 0 {
            s.append(" | Retry: ");
            append_decimal(&mut s, self.retry_count as u64);
        }
        proof {
            let ctx = self.context@.map_values(|x: String| x@);
            assert(ctx.len() == self.context@.len());
            let a: Seq<char> = if ctx.len() == 0 {
                Seq::empty()
            } else {
                " | Context: "@ + joined(ctx, " -> "@)
            };
            let b: Seq<char> = match opt_view(self.correlation_id) {
                Some(id) => " | Correlation: "@ + id,
                None => Seq::empty(),
            };
            let c: Seq<char> = match opt_view(self.component) {
                Some(x) => " | Component: "@ + x,
                None => Seq::empty(),
            };
            let d: Seq<char> = if self.retry_count > 0 {
                " | Retry: "@ + decimal(self.retry_count as nat)
            } else {
                Seq::empty()
            };
            assert(with_context =~= head + a);
            assert(with_correlation =~= head + a + b);
            assert(with_component =~= head + a + b + c);
            assert(s@ =~= head + a + b + c + d);
        }
        s
    }
}

/// A recoverable error comes with a retry delay, except input errors, which
/// are retried at once.
pub proof fn lemma_recoverable_has_delay(e: DpstreamError)
    ensures
        (match e {
            DpstreamError::Network(n) => !(n is BindError || n is Protocol),
            DpstreamError::Streaming(s) => (s is VideoEncodingFailed || s is AudioEncodingFailed
                || s is BandwidthExceeded || s is NoBuffersAvailable || s is FrameProcessingFailed
                || s is InvalidPacket || s is CaptureStopFailed),
            DpstreamError::Input(_) => true,
            DpstreamError::ServiceUnavailable { .. } => true,
            DpstreamError::ResourceExhaustion { .. } => true,
            _ => false,
        }) && !(e is Input) ==> (e is Network || e is Streaming || e is ServiceUnavailable
            || e is ResourceExhaustion),
{
}

} // verus!
