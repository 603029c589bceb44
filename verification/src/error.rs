//! Error types of the print monitor, one enum per subsystem, and the
//! human-readable message of each error.

use vstd::prelude::*;
use crate::text::{decimal, u64_to_decimal};

verus! {

/// Errors of image acquisition and processing.
#[derive(Debug, Clone, PartialEq, Eq)]
pub enum ImageError {
    /// An image could not be downloaded from a source.
    DownloadFailed { url: String, reason: String },
    /// An image could not be saved.
    SaveFailed { path: String, reason: String },
    /// The image data is corrupted or of an unsupported format.
    InvalidFormat { path: String },
    /// An image could not be opened or read.
    ReadFailed { path: String, reason: String },
}

/// Errors of the detection pipeline.
#[derive(Debug, Clone, PartialEq, Eq)]
pub enum DetectionError {
    /// The model configuration could not be loaded.
    ModelConfigLoadFailed { path: String, reason: String },
    /// The model weights could not be loaded.
    WeightsLoadFailed { path: String, reason: String },
    /// The class labels could not be read.
    LabelsLoadFailed { path: String, reason: String },
    /// Inference failed.
    InferenceFailed { reason: String },
    /// The model weights could not be downloaded.
    WeightsDownloadFailed { url: String, reason: String },
}

/// Errors of printer control.
#[derive(Debug, Clone, PartialEq, Eq)]
pub enum PrinterError {
    /// The printer API could not be reached.
    ConnectionFailed { api_url: String, reason: String },
    /// The printer API answered with an error status.
    ApiError { endpoint: String, status: u16, message: String },
    /// The printer is in a state in which the action cannot be performed.
    InvalidState { requested_action: String, current_state: String },
    /// The printer API refused the credentials.
    AuthenticationFailed { api_url: String },
}

/// Errors of the notification channel.
#[derive(Debug, Clone, PartialEq, Eq)]
pub enum AlertError {
    /// The webhook request failed.
    WebhookFailed { reason: String },
    /// The alert message could not be formatted.
    MessageFormatError { reason: String },
    /// The webhook URL is not usable.
    InvalidWebhookUrl { url: String },
}

/// Errors of configuration and setup.
#[derive(Debug, Clone, PartialEq, Eq)]
pub enum ConfigError {
    /// A required setting is missing.
    MissingEnvVar { var_name: String },
    /// A configuration file could not be read.
    FileReadError { path: String, reason: String },
    /// A setting has a value that cannot be used.
    InvalidValue { field: String, value: String, reason: String },
    /// A required file does not exist.
    MissingFile { path: String },
}

/// Errors of network communication.
#[derive(Debug, Clone, PartialEq, Eq)]
pub enum NetworkError {
    /// A request failed.
    RequestFailed { url: String, reason: String },
    /// A request timed out.
    Timeout { url: String, timeout_seconds: u64 },
    /// A host name could not be resolved.
    DnsError { hostname: String },
    /// Certificate verification failed.
    SslError { url: String, reason: String },
}

/// Any error of the print monitor, tagged by the subsystem it came from.
#[derive(Debug, Clone, PartialEq, Eq)]
pub enum PrintGuardianError {
    ImageError(ImageError),
    DetectionError(DetectionError),
    PrinterError(PrinterError),
    AlertError(AlertError),
    ConfigError(ConfigError),
    NetworkError(NetworkError),
}

impl ImageError {
    /// The message of this error as a character sequence.
    pub open spec fn message_text(&self) -> Seq<char> {
        match self {
            ImageError::DownloadFailed { url, reason } => "Failed to download image from '"@
                + url@ + "': "@ + reason@,
            ImageError::SaveFailed { path, reason } => "Failed to save image to '"@ + path@
                + "': "@ + reason@,
            ImageError::InvalidFormat { path } => "Invalid or corrupted image format: "@ + path@,
            ImageError::ReadFailed { path, reason } => "Failed to read image from '"@ + path@
                + "': "@ + reason@,
        }
    }

    /// The human-readable message of this error.
    pub fn message(&self) -> (s: String)
        ensures
            s@ == self.message_text(),
    {
        match self {
            ImageError::DownloadFailed { url, reason } => {
                let mut s = String::from_str("Failed to download image from '");
                s.append(url.as_str());
                s.append("': ");
                s.append(reason.as_str());
                s
            },
            ImageError::SaveFailed { path, reason } => {
                let mut s = String::from_str("Failed to save image to '");
                s.append(path.as_str());
                s.append("': ");
                s.append(reason.as_str());
                s
            },
            ImageError::InvalidFormat { path } => {
                let mut s = String::from_str("Invalid or corrupted image format: ");
                s.append(path.as_str());
                s
            },
            ImageError::ReadFailed { path, reason } => {
                let mut s = String::from_str("Failed to read image from '");
                s.append(path.as_str());
                s.append("': ");
                s.append(reason.as_str());
                s
            },
        }
    }
}

impl DetectionError {
    /// The message of this error as a character sequence.
    pub open spec fn message_text(&self) -> Seq<char> {
        match self {
            DetectionError::ModelConfigLoadFailed { path, reason } =>
                "Failed to load model config from '"@ + path@ + "': "@ + reason@,
            DetectionError::WeightsLoadFailed { path, reason } =>
                "Failed to load model weights from '"@ + path@ + "': "@ + reason@,
            DetectionError::LabelsLoadFailed { path, reason } => "Failed to load labels from '"@
                + path@ + "': "@ + reason@,
            DetectionError::InferenceFailed { reason } => "Neural network inference failed: "@
                + reason@,
            DetectionError::WeightsDownloadFailed { url, reason } =>
                "Failed to download model weights from '"@ + url@ + "': "@ + reason@,
        }
    }

    /// The human-readable message of this error.
    pub fn message(&self) -> (s: String)
        ensures
            s@ == self.message_text(),
    {
        match self {
            DetectionError::ModelConfigLoadFailed { path, reason } => {
                let mut s = String::from_str("Failed to load model config from '");
                s.append(path.as_str());
                s.append("': ");
                s.append(reason.as_str());
                s
            },
            DetectionError::WeightsLoadFailed { path, reason } => {
                let mut s = String::from_str("Failed to load model weights from '");
                s.append(path.as_str());
                s.append("': ");
                s.append(reason.as_str());
                s
            },
            DetectionError::LabelsLoadFailed { path, reason } => {
                let mut s = String::from_str("Failed to load labels from '");
                s.append(path.as_str());
                s.append("': ");
                s.append(reason.as_str());
                s
            },
            DetectionError::InferenceFailed { reason } => {
                let mut s = String::from_str("Neural network inference failed: ");
                s.append(reason.as_str());
                s
            },
            DetectionError::WeightsDownloadFailed { url, reason } => {
                let mut s = String::from_str("Failed to download model weights from '");
                s.append(url.as_str());
                s.append("': ");
                s.append(reason.as_str());
                s
            },
        }
    }
}

impl PrinterError {
    /// The message of this error as a character sequence.
    pub open spec fn message_text(&self) -> Seq<char> {
        match self {
            PrinterError::ConnectionFailed { api_url, reason } =>
                "Failed to connect to printer at '"@ + api_url@ + "': "@ + reason@,
            PrinterError::ApiError { endpoint, status, message } => "Printer API error at '"@
                + endpoint@ + "' (HTTP "@ + decimal(*status as nat) + "): "@ + message@,
            PrinterError::InvalidState { requested_action, current_state } => "Cannot "@
                + requested_action@ + " printer in state '"@ + current_state@ + "'"@,
            PrinterError::AuthenticationFailed { api_url } =>
                "Authentication failed for printer API at '"@ + api_url@ + "'"@,
        }
    }

    /// The human-readable message of this error.
    pub fn message(&self) -> (s: String)
        ensures
            s@ == self.message_text(),
    {
        match self {
            PrinterError::ConnectionFailed { api_url, reason } => {
                let mut s = String::from_str("Failed to connect to printer at '");
                s.append(api_url.as_str());
                s.append("': ");
                s.append(reason.as_str());
                s
            },
            PrinterError::ApiError { endpoint, status, message } => {
                let code = u64_to_decimal(*status as u64);
                let mut s = String::from_str("Printer API error at '");
                s.append(endpoint.as_str());
                s.append("' (HTTP ");
                s.append(code.as_str());
                s.append("): ");
                s.append(message.as_str());
                s
            },
            PrinterError::InvalidState { requested_action, current_state } => {
                let mut s = String::from_str("Cannot ");
                s.append(requested_action.as_str());
                s.append(" printer in state '");
                s.append(current_state.as_str());
                s.append("'");
                s
            },
            PrinterError::AuthenticationFailed { api_url } => {
                let mut s = String::from_str("Authentication failed for printer API at '");
                s.append(api_url.as_str());
                s.append("'");
                s
            },
        }
    }
}

impl AlertError {
    /// The message of this error as a character sequence.
    pub open spec fn message_text(&self) -> Seq<char> {
        match self {
            AlertError::WebhookFailed { reason } => "Discord webhook request failed: "@ + reason@,
            AlertError::MessageFormatError { reason } => "Failed to format alert message: "@
                + reason@,
            AlertError::InvalidWebhookUrl { url } => "Invalid Discord webhook URL: "@ + url@,
        }
    }

    /// The human-readable message of this error.
    pub fn message(&self) -> (s: String)
        ensures
            s@ == self.message_text(),
    {
        match self {
            AlertError::WebhookFailed { reason } => {
                let mut s = String::from_str("Discord webhook request failed: ");
                s.append(reason.as_str());
                s
            },
            AlertError::MessageFormatError { reason } => {
                let mut s = String::from_str("Failed to format alert message: ");
                s.append(reason.as_str());
                s
            },
            AlertError::InvalidWebhookUrl { url } => {
                let mut s = String::from_str("Invalid Discord webhook URL: ");
                s.append(url.as_str());
                s
            },
        }
    }
}

impl ConfigError {
    /// The message of this error as a character sequence.
    pub open spec fn message_text(&self) -> Seq<char> {
        match self {
            ConfigError::MissingEnvVar { var_name } => "Required environment variable '"@
                + var_name@ + "' is not set"@,
            ConfigError::FileReadError { path, reason } =>
                "Failed to read configuration file '"@ + path@ + "': "@ + reason@,
            ConfigError::InvalidValue { field, value, reason } => "Invalid value '"@ + value@
                + "' for field '"@ + field@ + "': "@ + reason@,
            ConfigError::MissingFile { path } => "Required file not found: "@ + path@,
        }
    }

    /// The human-readable message of this error.
    pub fn message(&self) -> (s: String)
        ensures
            s@ == self.message_text(),
    {
        match self {
            ConfigError::MissingEnvVar { var_name } => {
                let mut s = String::from_str("Required environment variable '");
                s.append(var_name.as_str());
                s.append("' is not set");
                s
            },
            ConfigError::FileReadError { path, reason } => {
                let mut s = String::from_str("Failed to read configuration file '");
                s.append(path.as_str());
                s.append("': ");
                s.append(reason.as_str());
                s
            },
            ConfigError::InvalidValue { field, value, reason } => {
                let mut s = String::from_str("Invalid value '");
                s.append(value.as_str());
                s.append("' for field '");
                s.append(field.as_str());
                s.append("': ");
                s.append(reason.as_str());
                s
            },
            ConfigError::MissingFile { path } => {
                let mut s = String::from_str("Required file not found: ");
                s.append(path.as_str());
                s
            },
        }
    }
}

impl NetworkError {
    /// The message of this error as a character sequence.
    pub open spec fn message_text(&self) -> Seq<char> {
        match self {
            NetworkError::RequestFailed { url, reason } => "Network request to '"@ + url@
                + "' failed: "@ + reason@,
            NetworkError::Timeout { url, timeout_seconds } => "Request to '"@ + url@
                + "' timed out after "@ + decimal(*timeout_seconds as nat) + " seconds"@,
            NetworkError::DnsError { hostname } => "DNS resolution failed for hostname '"@
                + hostname@ + "'"@,
            NetworkError::SslError { url, reason } => "SSL/TLS error for '"@ + url@ + "': "@
                + reason@,
        }
    }

    /// The human-readable message of this error.
    pub fn message(&self) -> (s: String)
        ensures
            s@ == self.message_text(),
    {
        match self {
            NetworkError::RequestFailed { url, reason } => {
                let mut s = String::from_str("Network request to '");
                s.append(url.as_str());
                s.append("' failed: ");
                s.append(reason.as_str());
                s
            },
            NetworkError::Timeout { url, timeout_seconds } => {
                let seconds = u64_to_decimal(*timeout_seconds);
                let mut s = String::from_str("Request to '");
                s.append(url.as_str());
                s.append("' timed out after ");
                s.append(seconds.as_str());
                s.append(" seconds");
                s
            },
            NetworkError::DnsError { hostname } => {
                let mut s = String::from_str("DNS resolution failed for hostname '");
                s.append(hostname.as_str());
                s.append("'");
                s
            },
            NetworkError::SslError { url, reason } => {
                let mut s = String::from_str("SSL/TLS error for '");
                s.append(url.as_str());
                s.append("': ");
                s.append(reason.as_str());
                s
            },
        }
    }
}

impl PrintGuardianError {
    /// The message of this error as a character sequence: the subsystem's
    /// prefix, then the message of the error it wraps.
    pub open spec fn message_text(&self) -> Seq<char> {
        match self {
            PrintGuardianError::ImageError(e) => "Image error: "@ + e.message_text(),
            PrintGuardianError::DetectionError(e) => "Detection error: "@ + e.message_text(),
            PrintGuardianError::PrinterError(e) => "Printer error: "@ + e.message_text(),
            PrintGuardianError::AlertError(e) => "Alert error: "@ + e.message_text(),
            PrintGuardianError::ConfigError(e) => "Configuration error: "@ + e.message_text(),
            PrintGuardianError::NetworkError(e) => "Network error: "@ + e.message_text(),
        }
    }

    /// The human-readable message of this error.
    pub fn message(&self) -> (s: String)
        ensures
            s@ == self.message_text(),
    {
        match self {
            PrintGuardianError::ImageError(e) => {
                let inner = e.message();
                let mut s = String::from_str("Image error: ");
                s.append(inner.as_str());
                s
            },
            PrintGuardianError::DetectionError(e) => {
                let inner = e.message();
                let mut s = String::from_str("Detection error: ");
                s.append(inner.as_str());
                s
            },
            PrintGuardianError::PrinterError(e) => {
                let inner = e.message();
                let mut s = String::from_str("Printer error: ");
                s.append(inner.as_str());
                s
            },
            PrintGuardianError::AlertError(e) => {
                let inner = e.message();
                let mut s = String::from_str("Alert error: ");
                s.append(inner.as_str());
                s
            },
            PrintGuardianError::ConfigError(e) => {
                let inner = e.message();
                let mut s = String::from_str("Configuration error: ");
                s.append(inner.as_str());
                s
            },
            PrintGuardianError::NetworkError(e) => {
                let inner = e.message();
                let mut s = String::from_str("Network error: ");
                s.append(inner.as_str());
                s
            },
        }
    }
}

impl From<ImageError> for PrintGuardianError {
    fn from(err: ImageError) -> (r: PrintGuardianError) {
        PrintGuardianError::ImageError(err)
    }
}

impl vstd::std_specs::convert::FromSpecImpl<ImageError> for PrintGuardianError {
    open spec fn obeys_from_spec() -> bool {
        true
    }

    open spec fn from_spec(err: ImageError) -> PrintGuardianError {
        PrintGuardianError::ImageError(err)
    }
}

impl From<DetectionError> for PrintGuardianError {
    fn from(err: DetectionError) -> (r: PrintGuardianError) {
        PrintGuardianError::DetectionError(err)
    }
}

impl vstd::std_specs::convert::FromSpecImpl<DetectionError> for PrintGuardianError {
    open spec fn obeys_from_spec() -> bool {
        true
    }

    open spec fn from_spec(err: DetectionError) -> PrintGuardianError {
        PrintGuardianError::DetectionError(err)
    }
}

impl From<PrinterError> for PrintGuardianError {
    fn from(err: PrinterError) -> (r: PrintGuardianError) {
        PrintGuardianError::PrinterError(err)
    }
}

impl vstd::std_specs::convert::FromSpecImpl<PrinterError> for PrintGuardianError {
    open spec fn obeys_from_spec() -> bool {
        true
    }

    open spec fn from_spec(err: PrinterError) -> PrintGuardianError {
        PrintGuardianError::PrinterError(err)
    }
}

impl From<AlertError> for PrintGuardianError {
    fn from(err: AlertError) -> (r: PrintGuardianError) {
        PrintGuardianError::AlertError(err)
    }
}

impl vstd::std_specs::convert::FromSpecImpl<AlertError> for PrintGuardianError {
    open spec fn obeys_from_spec() -> bool {
        true
    }

    open spec fn from_spec(err: AlertError) -> PrintGuardianError {
        PrintGuardianError::AlertError(err)
    }
}

impl From<ConfigError> for PrintGuardianError {
    fn from(err: ConfigError) -> (r: PrintGuardianError) {
        PrintGuardianError::ConfigError(err)
    }
}

impl vstd::std_specs::convert::FromSpecImpl<ConfigError> for PrintGuardianError {
    open spec fn obeys_from_spec() -> bool {
        true
    }

    open spec fn from_spec(err: ConfigError) -> PrintGuardianError {
        PrintGuardianError::ConfigError(err)
    }
}

impl From<NetworkError> for PrintGuardianError {
    fn from(err: NetworkError) -> (r: PrintGuardianError) {
        PrintGuardianError::NetworkError(err)
    }
}

impl vstd::std_specs::convert::FromSpecImpl<NetworkError> for PrintGuardianError {
    open spec fn obeys_from_spec() -> bool {
        true
    }

    open spec fn from_spec(err: NetworkError) -> PrintGuardianError {
        PrintGuardianError::NetworkError(err)
    }
}

} // verus!
