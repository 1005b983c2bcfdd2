//! The outcome of a delivery and the line that records it.

use crate::address::optional_text;
use vstd::prelude::*;
use vstd::string::*;

verus! {

/// The directory of the log, made on first use.
pub const LOG_DIRECTORY: &'static str = "output";

/// The log file, one line per attempt to send, only ever appended to.
pub const LOG_FILE: &'static str = "output/courier.log";

/// Mathematical model of a [`DeliveryOutcome`].
pub enum DeliveryOutcomeView {
    Delivered,
    Failed { description: Seq<char> },
}

/// How the one attempt to send ended: the server took the whole message,
/// or nothing was sent and the transport said why.
#[derive(Debug)]
pub enum DeliveryOutcome {
    Delivered,
    Failed { description: String },
}

impl View for DeliveryOutcome {
    type V = DeliveryOutcomeView;

    open spec fn view(&self) -> DeliveryOutcomeView {
        match *self {
            DeliveryOutcome::Delivered => DeliveryOutcomeView::Delivered,
            DeliveryOutcome::Failed { description } => DeliveryOutcomeView::Failed {
                description: description@,
            },
        }
    }
}

/// Mathematical model of a [`LogRecord`].
pub struct LogRecordView {
    pub stamp: Seq<char>,
    pub outcome: DeliveryOutcomeView,
    pub recipient: Seq<char>,
    pub cc: Option<Seq<char>>,
}

/// What one run leaves in the log: when, how it ended, and for whom.
#[derive(Debug)]
pub struct LogRecord {
    pub stamp: String,
    pub outcome: DeliveryOutcome,
    pub recipient: String,
    pub cc: Option<String>,
}

impl View for LogRecord {
    type V = LogRecordView;

    open spec fn view(&self) -> LogRecordView {
        LogRecordView {
            stamp: self.stamp@,
            outcome: self.outcome@,
            recipient: self.recipient@,
            cc: optional_text(self.cc),
        }
    }
}

impl LogRecordView {
    /// The line appended to the log file, without its line break. A
    /// delivery names the recipient, and the copy recipient only when there
    /// is one; a failure carries the transport's description.
    pub open spec fn line(self) -> Seq<char> {
        match self.outcome {
            DeliveryOutcomeView::Delivered => match self.cc {
                Some(cc) => "[+] "@ + self.stamp + " 邮件发送成功！收信人："@ + self.recipient
                    + ", 抄送人："@ + cc,
                None => "[+] "@ + self.stamp + " 邮件发送成功！收信人："@ + self.recipient,
            },
            DeliveryOutcomeView::Failed { description } => "[!] "@ + self.stamp
                + " 邮件发送失败: "@ + description,
        }
    }

    /// The line shown on the console.
    pub open spec fn console_line(self) -> Seq<char> {
        match self.outcome {
            DeliveryOutcomeView::Delivered => "[+] "@ + self.stamp + " 邮件发送成功!"@,
            DeliveryOutcomeView::Failed { description } => "发送邮件失败: "@ + description,
        }
    }

    /// A failure is shown on standard error, a delivery on standard output.
    pub open spec fn on_stderr(self) -> bool {
        self.outcome is Failed
    }
}

impl LogRecord {
    /// The line appended to the log file, without its line break.
    pub fn line(&self) -> (line: String)
        ensures
            line@ == self@.line(),
    {
        match &self.outcome {
            DeliveryOutcome::Delivered => {
                let mut line = String::from_str("[+] ");
                line.append(self.stamp.as_str());
                line.append(" 邮件发送成功！收信人：");
                line.append(self.recipient.as_str());
                match &self.cc {
                    Some(cc) => {
                        line.append(", 抄送人：");
                        line.append(cc.as_str());
                    },
                    None => {},
                }
                line
            },
            DeliveryOutcome::Failed { description } => {
                let mut line = String::from_str("[!] ");
                line.append(self.stamp.as_str());
                line.append(" 邮件发送失败: ");
                line.append(description.as_str());
                line
            },
        }
    }

    /// The line shown on the console.
    pub fn console_line(&self) -> (line: String)
        ensures
            line@ == self@.console_line(),
    {
        match &self.outcome {
            DeliveryOutcome::Delivered => {
                let mut line = String::from_str("[+] ");
                line.append(self.stamp.as_str());
                line.append(" 邮件发送成功!");
                line
            },
            DeliveryOutcome::Failed { description } => {
                let mut line = String::from_str("发送邮件失败: ");
                line.append(description.as_str());
                line
            },
        }
    }

    /// Whether the console line goes to standard error.
    pub fn on_stderr(&self) -> (stderr: bool)
        ensures
            stderr == self@.on_stderr(),
    {
        match &self.outcome {
            DeliveryOutcome::Delivered => false,
            DeliveryOutcome::Failed { .. } => true,
        }
    }
}

} // verus!
