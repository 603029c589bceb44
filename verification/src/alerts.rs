//! The notifications that the monitor sends to the operator channel: what
//! each of them says, and how it is stamped with the time.

use vstd::prelude::*;
use vstd::slice::slice_to_vec;
use crate::detector::Score;
use crate::error::AlertError;
use crate::printer::{text_or, PrinterObservation};
use crate::text::{
    decimal,
    i64_to_decimal,
    signed_decimal,
    two_digit_str,
    two_digits,
    u64_to_decimal,
};

verus! {

/// Colour of alerts that need attention at once.
pub const COLOR_RED: u32 = 0xFF0000;

/// Colour of alerts on a detected failure.
pub const COLOR_ORANGE: u32 = 0xFFA500;

/// Colour of alerts on a recovery.
pub const COLOR_GREEN: u32 = 0x00FF00;

/// Colour of alerts on the printer's status.
pub const COLOR_BLUE: u32 = 0x0099FF;

/// A point in time: seconds since the start of 1970 in UTC, and the
/// nanoseconds into that second.
#[derive(Debug, Clone, Copy, PartialEq, Eq, Structural)]
pub struct Timestamp {
    pub seconds: i64,
    pub nanos: u32,
}

/// What `chrono` writes for a point in time in UTC, in the format of RFC
/// 3339; `None` where `chrono` cannot represent the point in time.
pub uninterp spec fn rfc3339_text(seconds: i64, nanos: u32) -> Option<Seq<char>>;

/// Renders a point in time in the format of RFC 3339, in UTC.
///
/// Calls `chrono::DateTime::from_timestamp` and, on what that returns,
/// `chrono::DateTime::to_rfc3339`. Both depend on their arguments alone;
/// the first returns `None` where the seconds are out of range or the
/// nanoseconds invalid, and the second always returns. The contract gives
/// the result the name [`rfc3339_text`] and claims nothing else about it.
#[verifier::external_body]
fn rfc3339_utc(seconds: i64, nanos: u32) -> (r: Option<String>)
    ensures
        r matches Some(text) ==> rfc3339_text(seconds, nanos) == Some(text@),
        r is None ==> rfc3339_text(seconds, nanos) is None,
{
    match chrono::DateTime::from_timestamp(seconds, nanos) {
        Some(time) => Some(time.to_rfc3339()),
        None => None,
    }
}

/// An image that goes out with an alert.
#[derive(Debug, Clone, PartialEq, Eq)]
pub struct Attachment {
    pub filename: String,
    pub data: Vec<u8>,
}

/// Mathematical value of an [`Attachment`].
pub struct AttachmentView {
    pub filename: Seq<char>,
    pub data: Seq<u8>,
}

impl View for Attachment {
    type V = AttachmentView;

    open spec fn view(&self) -> AttachmentView {
        AttachmentView { filename: self.filename@, data: self.data@ }
    }
}

impl Attachment {
    /// The URL under which the message refers to the attached image.
    pub fn url(&self) -> (r: String)
        ensures
            r@ == "attachment://"@ + self@.filename,
    {
        let mut r = String::from_str("attachment://");
        r.append(self.filename.as_str());
        r
    }
}

/// A notification, ready to be sent to its webhook.
#[derive(Debug, Clone, PartialEq, Eq)]
pub struct Alert {
    /// Where the notification goes.
    pub webhook_url: String,
    /// The icon, a space and the title.
    pub title: String,
    /// The body; it may hold Markdown.
    pub description: String,
    /// Colour of the side bar, as 0xRRGGBB.
    pub color: u32,
    /// When the notification was made, in the format of RFC 3339.
    pub timestamp: String,
    /// The footer line.
    pub footer: String,
    /// The attached image, if any.
    pub attachment: Option<Attachment>,
}

/// Mathematical value of an [`Alert`].
pub struct AlertView {
    pub webhook_url: Seq<char>,
    pub title: Seq<char>,
    pub description: Seq<char>,
    pub color: u32,
    pub timestamp: Seq<char>,
    pub footer: Seq<char>,
    pub attachment: Option<AttachmentView>,
}

impl View for Alert {
    type V = AlertView;

    open spec fn view(&self) -> AlertView {
        AlertView {
            webhook_url: self.webhook_url@,
            title: self.title@,
            description: self.description@,
            color: self.color,
            timestamp: self.timestamp@,
            footer: self.footer@,
            attachment: match self.attachment {
                Some(a) => Some(a@),
                None => None,
            },
        }
    }
}

/// The alert with the given parts: the title line is the icon, a space and
/// the title, and the footer names the monitor.
pub open spec fn composed(
    webhook_url: Seq<char>,
    title: Seq<char>,
    description: Seq<char>,
    color: u32,
    emoji: Seq<char>,
    timestamp: Seq<char>,
    attachment: Option<AttachmentView>,
) -> AlertView {
    AlertView {
        webhook_url,
        title: emoji + " "@ + title,
        description,
        color,
        timestamp,
        footer: "Print Guardian"@,
        attachment,
    }
}

/// Whether `r` is what making an alert at the time `now` comes to: the
/// alert `expected` with the time written into it, or an error where the
/// time cannot be written.
pub open spec fn stamped(r: Result<Alert, AlertError>, now: Timestamp, expected: AlertView) -> bool {
    match rfc3339_text(now.seconds, now.nanos) {
        Some(text) => r matches Ok(alert) && alert@ == (AlertView { timestamp: text, ..expected }),
        None => {
            &&& r matches Err(AlertError::MessageFormatError { reason })
            &&& reason@ == "time out of range"@
        },
    }
}

/// The attachment that an optional image becomes: named `prefix`, the
/// seconds of `now` and ".jpg".
pub open spec fn image_attachment(image: Option<&[u8]>, prefix: Seq<char>, now: Timestamp) -> Option<
    AttachmentView,
> {
    match image {
        Some(data) => Some(
            AttachmentView {
                filename: prefix + signed_decimal(now.seconds as int) + ".jpg"@,
                data: data@,
            },
        ),
        None => None,
    }
}

/// Body of the alert on sources that stay offline.
pub open spec fn offline_description(image_url: Seq<char>, max_retries: u32) -> Seq<char> {
    "Failed to fetch image from "@ + image_url + " after "@ + decimal(max_retries as nat)
        + " attempts. Print monitoring is offline!"@
}

/// Body of the alert on a print that was paused.
pub open spec fn pause_description(failure_count: u32) -> Seq<char> {
    "Print has been paused after detecting "@ + decimal(failure_count as nat)
        + " print failures. Please check the printer."@
}

/// Body of the alert on a detected failure: the confidence, in percent,
/// with two decimals, and the place of the detection with one.
pub open spec fn failure_description(
    label: Seq<char>,
    confidence: Score,
    x: Score,
    y: Score,
    w: Score,
    h: Score,
) -> Seq<char> {
    "Detected **"@ + label + "** print failure with **"@ + confidence.fixed_text(100)
        + "%** confidence\n\n**Location:**\n• X: "@ + x.fixed_text(10) + "\n• Y: "@ + y.fixed_text(
        10,
    ) + "\n• Width: "@ + w.fixed_text(10) + "\n• Height: "@ + h.fixed_text(10)
}

/// A length given in millimetres, written in metres with two decimals,
/// rounded to the nearest centimetre.
pub open spec fn meters_text(mm: nat) -> Seq<char> {
    let cm = (mm + 5) / 10;
    decimal(cm / 100) + "."@ + two_digits(cm % 100)
}

/// A duration given in seconds, written in hours, minutes and seconds.
pub open spec fn duration_text(seconds: nat) -> Seq<char> {
    decimal(seconds / 3600) + "h "@ + decimal(seconds % 3600 / 60) + "m "@ + decimal(seconds % 60)
        + "s"@
}

/// Body of the alert on the printer's status.
pub open spec fn status_description(o: PrinterObservation) -> Seq<char> {
    "\n            Current file: **"@ + text_or(o.filename, "Unknown"@)
        + "**\n            Current printer state: **"@ + o.state_text()
        + "**\n            **Print Stats:**\n            • Filament Used: "@ + meters_text(
        o.filament_used_mm as nat,
    ) + "m\n            • Print Duration: "@ + duration_text(o.print_duration_seconds as nat)
        + "\n            "@
}

/// Renders a length given in millimetres in metres with two decimals.
pub fn render_meters(mm: u64) -> (s: String)
    ensures
        s@ == meters_text(mm as nat),
{
    let cm: u64 = if mm % 10 >= 5 {
        mm / 10 + 1
    } else {
        mm / 10
    };
    let whole = u64_to_decimal(cm / 100);
    let fraction = two_digit_str((cm % 100) as u8);
    let mut s = whole;
    s.append(".");
    s.append(fraction.as_str());
    s
}

/// Renders a duration given in seconds in hours, minutes and seconds.
pub fn render_duration(seconds: u64) -> (s: String)
    ensures
        s@ == duration_text(seconds as nat),
{
    let hours = u64_to_decimal(seconds / 3600);
    let minutes = u64_to_decimal(seconds % 3600 / 60);
    let rest = u64_to_decimal(seconds % 60);
    let mut s = hours;
    s.append("h ");
    s.append(minutes.as_str());
    s.append("m ");
    s.append(rest.as_str());
    s.append("s");
    s
}

/// Makes the notifications for one webhook.
#[derive(Debug, Clone, PartialEq, Eq)]
pub struct AlertService {
    webhook_url: String,
}

impl View for AlertService {
    type V = Seq<char>;

    closed spec fn view(&self) -> Seq<char> {
        self.webhook_url@
    }
}

impl AlertService {
    /// A service for the webhook at `webhook_url`.
    pub fn new(webhook_url: String) -> (r: Self)
        ensures
            r@ == webhook_url@,
    {
        AlertService { webhook_url }
    }

    /// The webhook that the alerts go to.
    pub fn webhook_url(&self) -> (r: &str)
        ensures
            r@ == self@,
    {
        self.webhook_url.as_str()
    }

    /// Puts an alert together from its parts.
    pub fn compose(
        &self,
        title: &str,
        description: &str,
        color: u32,
        emoji: &str,
        timestamp: String,
        attachment: Option<Attachment>,
    ) -> (alert: Alert)
        ensures
            alert@ == composed(
                self@,
                title@,
                description@,
                color,
                emoji@,
                timestamp@,
                match attachment {
                    Some(a) => Some(a@),
                    None => None,
                },
            ),
    {
        let mut line = String::from_str(emoji);
        line.append(" ");
        line.append(title);
        Alert {
            webhook_url: String::from_str(self.webhook_url.as_str()),
            title: line,
            description: String::from_str(description),
            color,
            timestamp,
            footer: String::from_str("Print Guardian"),
            attachment,
        }
    }

    /// Puts an alert together and stamps it with the time `now`.
    fn stamp(
        &self,
        title: &str,
        description: &str,
        color: u32,
        emoji: &str,
        attachment: Option<Attachment>,
        now: Timestamp,
    ) -> (r: Result<Alert, AlertError>)
        ensures
            stamped(
                r,
                now,
                composed(
                    self@,
                    title@,
                    description@,
                    color,
                    emoji@,
                    Seq::empty(),
                    match attachment {
                        Some(a) => Some(a@),
                        None => None,
                    },
                ),
            ),
    {
        match rfc3339_utc(now.seconds, now.nanos) {
            Some(timestamp) => Ok(
                self.compose(title, description, color, emoji, timestamp, attachment),
            ),
            None => Err(
                AlertError::MessageFormatError { reason: String::from_str("time out of range") },
            ),
        }
    }

    /// The attachment for an optional image.
    fn attach(image: Option<&[u8]>, prefix: &str, now: Timestamp) -> (r: Option<Attachment>)
        ensures
            (match r {
                Some(a) => Some(a@),
                None => None,
            }) == image_attachment(image, prefix@, now),
    {
        match image {
            Some(data) => {
                let seconds = i64_to_decimal(now.seconds);
                let mut filename = String::from_str(prefix);
                filename.append(seconds.as_str());
                filename.append(".jpg");
                Some(Attachment { filename, data: slice_to_vec(data) })
            },
            None => None,
        }
    }

    /// An alert without an image.
    pub fn send_alert(
        &self,
        title: &str,
        description: &str,
        color: u32,
        emoji: &str,
        now: Timestamp,
    ) -> (r: Result<Alert, AlertError>)
        ensures
            stamped(
                r,
                now,
                composed(self@, title@, description@, color, emoji@, Seq::empty(), None),
            ),
    {
        self.stamp(title, description, color, emoji, None, now)
    }

    /// An alert with the image `image_data` attached under `filename`.
    pub fn send_alert_with_image(
        &self,
        title: &str,
        description: &str,
        color: u32,
        emoji: &str,
        image_data: &[u8],
        filename: &str,
        now: Timestamp,
    ) -> (r: Result<Alert, AlertError>)
        ensures
            stamped(
                r,
                now,
                composed(
                    self@,
                    title@,
                    description@,
                    color,
                    emoji@,
                    Seq::empty(),
                    Some(AttachmentView { filename: filename@, data: image_data@ }),
                ),
            ),
    {
        let attachment = Attachment {
            filename: String::from_str(filename),
            data: slice_to_vec(image_data),
        };
        self.stamp(title, description, color, emoji, Some(attachment), now)
    }

    /// The alert on one detected failure, with the annotated frame where
    /// there is one. `confidence` is the confidence in percent; `x`, `y`,
    /// `w` and `h` are the place of the detection.
    pub fn send_print_failure_alert(
        &self,
        label: &str,
        confidence: Score,
        x: Score,
        y: Score,
        w: Score,
        h: Score,
        annotated_image: Option<&[u8]>,
        now: Timestamp,
    ) -> (r: Result<Alert, AlertError>)
        ensures
            stamped(
                r,
                now,
                composed(
                    self@,
                    "Print Failure Detected"@,
                    failure_description(label@, confidence, x, y, w, h),
                    COLOR_ORANGE,
                    "⚠️"@,
                    Seq::empty(),
                    image_attachment(annotated_image, "failure_detection_"@, now),
                ),
            ),
    {
        let percent = confidence.render_hundredths();
        let left = x.render_tenths();
        let top = y.render_tenths();
        let wide = w.render_tenths();
        let high = h.render_tenths();
        let mut description = String::from_str("Detected **");
        description.append(label);
        description.append("** print failure with **");
        description.append(percent.as_str());
        description.append("%** confidence\n\n**Location:**\n• X: ");
        description.append(left.as_str());
        description.append("\n• Y: ");
        description.append(top.as_str());
        description.append("\n• Width: ");
        description.append(wide.as_str());
        description.append("\n• Height: ");
        description.append(high.as_str());
        let attachment = Self::attach(annotated_image, "failure_detection_", now);
        self.stamp(
            "Print Failure Detected",
            description.as_str(),
            COLOR_ORANGE,
            "⚠️",
            attachment,
            now,
        )
    }

    /// The alert on a change of the printer's state, with a frame where
    /// there is one. Its title is the printer's own message on the state.
    pub fn send_printer_status_alert(
        &self,
        status: &PrinterObservation,
        image_data: Option<&[u8]>,
        now: Timestamp,
    ) -> (r: Result<Alert, AlertError>)
        ensures
            stamped(
                r,
                now,
                composed(
                    self@,
                    text_or(status.state_message, "Printer Status Update"@),
                    status_description(*status),
                    COLOR_BLUE,
                    "ℹ️"@,
                    Seq::empty(),
                    image_attachment(image_data, "printer_status_"@, now),
                ),
            ),
    {
        let filament = render_meters(status.filament_used_mm);
        let duration = render_duration(status.print_duration_seconds);
        let mut description = String::from_str("\n            Current file: **");
        match &status.filename {
            Some(name) => description.append(name.as_str()),
            None => description.append("Unknown"),
        }
        description.append("**\n            Current printer state: **");
        description.append(status.state());
        description.append("**\n            **Print Stats:**\n            • Filament Used: ");
        description.append(filament.as_str());
        description.append("m\n            • Print Duration: ");
        description.append(duration.as_str());
        description.append("\n            ");
        let title = match &status.state_message {
            Some(message) => message.as_str(),
            None => "Printer Status Update",
        };
        let attachment = Self::attach(image_data, "printer_status_", now);
        self.stamp(title, description.as_str(), COLOR_BLUE, "ℹ️", attachment, now)
    }

    /// The alert on sources that failed as often in a row as the retry
    /// limit allows.
    pub fn send_system_offline_alert(&self, image_url: &str, max_retries: u32, now: Timestamp) -> (r:
        Result<Alert, AlertError>)
        ensures
            stamped(
                r,
                now,
                composed(
                    self@,
                    "CRITICAL: Print Monitoring Offline"@,
                    offline_description(image_url@, max_retries),
                    COLOR_RED,
                    "🚨"@,
                    Seq::empty(),
                    None,
                ),
            ),
    {
        let count = u64_to_decimal(max_retries as u64);
        let mut description = String::from_str("Failed to fetch image from ");
        description.append(image_url);
        description.append(" after ");
        description.append(count.as_str());
        description.append(" attempts. Print monitoring is offline!");
        self.stamp(
            "CRITICAL: Print Monitoring Offline",
            description.as_str(),
            COLOR_RED,
            "🚨",
            None,
            now,
        )
    }

    /// The alert on a fetch that succeeded after an offline alert.
    pub fn send_system_recovery_alert(&self, now: Timestamp) -> (r: Result<Alert, AlertError>)
        ensures
            stamped(
                r,
                now,
                composed(
                    self@,
                    "RECOVERY: Print Monitoring Back Online"@,
                    "Image fetch successful after connection issues."@,
                    COLOR_GREEN,
                    "✅"@,
                    Seq::empty(),
                    None,
                ),
            ),
    {
        self.stamp(
            "RECOVERY: Print Monitoring Back Online",
            "Image fetch successful after connection issues.",
            COLOR_GREEN,
            "✅",
            None,
            now,
        )
    }

    /// The alert on a print that was paused after `failure_count`
    /// failures, with the annotated frame where there is one.
    pub fn send_print_pause_alert(
        &self,
        failure_count: u32,
        annotated_image: Option<&[u8]>,
        now: Timestamp,
    ) -> (r: Result<Alert, AlertError>)
        ensures
            stamped(
                r,
                now,
                composed(
                    self@,
                    "Print Paused Due to Multiple Failures"@,
                    pause_description(failure_count),
                    COLOR_RED,
                    "🚨"@,
                    Seq::empty(),
                    image_attachment(annotated_image, "print_pause_"@, now),
                ),
            ),
    {
        let count = u64_to_decimal(failure_count as u64);
        let mut description = String::from_str("Print has been paused after detecting ");
        description.append(count.as_str());
        description.append(" print failures. Please check the printer.");
        let attachment = Self::attach(annotated_image, "print_pause_", now);
        self.stamp(
            "Print Paused Due to Multiple Failures",
            description.as_str(),
            COLOR_RED,
            "🚨",
            attachment,
            now,
        )
    }
}

} // verus!
