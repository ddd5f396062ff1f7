//! The error type shared by every module.
//!
//! Each variant carries the message that is shown to the user; `Io` carries the
//! operating system's error as it came back.

use vstd::prelude::*;

use crate::util::text::{joined, starts_with};

verus! {

/// `std::io::Error` travels through the library unopened.
#[verifier::external_type_specification]
#[verifier::external_body]
pub struct ExIoError(std::io::Error);

/// The errors of a search: configuration, file access, the JVM bridge, cancellation.
#[derive(Debug)]
pub enum SearchError {
    InvalidPattern(String),
    InvalidRoot(String),
    RegexCompile(String),
    Jni(String),
    Io(std::io::Error),
    Cancelled,
    Internal(String),
}

/// What a contract can see of an error: its variant and, where it has one, its message.
pub enum ErrorView {
    InvalidPattern(Seq<char>),
    InvalidRoot(Seq<char>),
    RegexCompile(Seq<char>),
    Jni(Seq<char>),
    Io,
    Cancelled,
    Internal(Seq<char>),
}

impl View for SearchError {
    type V = ErrorView;

    open spec fn view(&self) -> ErrorView {
        match self {
            SearchError::InvalidPattern(m) => ErrorView::InvalidPattern(m@),
            SearchError::InvalidRoot(m) => ErrorView::InvalidRoot(m@),
            SearchError::RegexCompile(m) => ErrorView::RegexCompile(m@),
            SearchError::Jni(m) => ErrorView::Jni(m@),
            SearchError::Io(_) => ErrorView::Io,
            SearchError::Cancelled => ErrorView::Cancelled,
            SearchError::Internal(m) => ErrorView::Internal(m@),
        }
    }
}

/// The view of a result whose success carries nothing.
pub open spec fn unit_result_view(r: SearchResult<()>) -> Result<(), ErrorView> {
    match r {
        Ok(()) => Ok(()),
        Err(e) => Err(e@),
    }
}

/// `std::io::Error::other`: an error of kind `Other` with the given message.
#[verifier::external_body]
pub(crate) fn io_error_other(message: String) -> std::io::Error {
    std::io::Error::other(message)
}

/// `std::io::Error`'s `Display`, as text. Nothing is stated of the text: for
/// an error of the operating system it is the system's own description.
#[verifier::external_body]
pub(crate) fn io_error_text(e: &std::io::Error) -> String {
    e.to_string()
}

/// The message shown for an error, by its view; for an I/O error, the text
/// that comes after the prefix is the system's description of the error.
pub open spec fn message_of(e: ErrorView) -> Seq<char> {
    match e {
        ErrorView::InvalidPattern(m) => "无效的搜索模式: "@ + m,
        ErrorView::InvalidRoot(m) => "根目录不存在或不可访问: "@ + m,
        ErrorView::RegexCompile(m) => "正则表达式编译失败: "@ + m,
        ErrorView::Jni(m) => "JNI 交互错误: "@ + m,
        ErrorView::Io => "IO 错误: "@,
        ErrorView::Cancelled => "搜索已取消"@,
        ErrorView::Internal(m) => "内部错误: "@ + m,
    }
}

impl SearchError {
    /// The message shown to the user: a prefix that names the kind of error,
    /// then the error's own message (for an I/O error, the system's
    /// description of it).
    pub fn message(&self) -> (m: String)
        ensures
            self@ != ErrorView::Io ==> m@ == message_of(self@),
            self@ == ErrorView::Io ==> starts_with(m@, message_of(self@)),
    {
        match self {
            SearchError::InvalidPattern(m) => joined("无效的搜索模式: ", m.as_str()),
            SearchError::InvalidRoot(m) => joined("根目录不存在或不可访问: ", m.as_str()),
            SearchError::RegexCompile(m) => joined("正则表达式编译失败: ", m.as_str()),
            SearchError::Jni(m) => joined("JNI 交互错误: ", m.as_str()),
            SearchError::Io(e) => {
                let m = joined("IO 错误: ", io_error_text(e).as_str());
                proof {
                    reveal_strlit("IO 错误: ");
                    assert(m@.subrange(0, "IO 错误: "@.len() as int) =~= "IO 错误: "@);
                }
                m
            },
            SearchError::Cancelled => String::from_str("搜索已取消"),
            SearchError::Internal(m) => joined("内部错误: ", m.as_str()),
        }
    }
}

/// The result type used across the crate.
pub type SearchResult<T> = std::result::Result<T, SearchError>;

} // verus!
