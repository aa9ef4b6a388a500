//! The error kinds of the daemon.
use vstd::prelude::*;

verus! {

/// What can go wrong.
#[derive(Debug)]
pub enum FreePPSError {
    /// An I/O call against an existing file failed; holds the system's message.
    FileOperation(String),
    /// Setting up inotify, epoll or the uevent socket failed.
    InotifyError(String),
    /// A PD authentication node did not take the value written to it.
    PdVerificationFailed(String),
}

/// The text that describes an error.
pub open spec fn error_text(e: FreePPSError) -> Seq<char> {
    match e {
        FreePPSError::FileOperation(m) => "系统文件操作失败: "@ + m@,
        FreePPSError::InotifyError(m) => "inotify监控失败: "@ + m@,
        FreePPSError::PdVerificationFailed(m) => "PD验证失败: "@ + m@,
    }
}

impl FreePPSError {
    /// The text that describes this error, for the log.
    pub fn message(&self) -> (r: String)
        ensures
            r@ == error_text(*self),
    {
        match self {
            FreePPSError::FileOperation(m) => {
                let mut s = String::from_str("系统文件操作失败: ");
                s.append(m.as_str());
                s
            },
            FreePPSError::InotifyError(m) => {
                let mut s = String::from_str("inotify监控失败: ");
                s.append(m.as_str());
                s
            },
            FreePPSError::PdVerificationFailed(m) => {
                let mut s = String::from_str("PD验证失败: ");
                s.append(m.as_str());
                s
            },
        }
    }
}

} // verus!
