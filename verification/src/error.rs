use vstd::prelude::*;
use vstd::string::StringExecFns;

verus! {

/// A failure of the application around the version-control core.
#[derive(Debug)]
pub enum AppError {
    Io(String),
    Db(String),
    Git(String),
    Other(String),
}

/// The mathematical value of an `AppError`.
pub enum AppErrorView {
    Io(Seq<char>),
    Db(Seq<char>),
    Git(Seq<char>),
    Other(Seq<char>),
}

impl DeepView for AppError {
    type V = AppErrorView;

    open spec fn deep_view(&self) -> AppErrorView {
        match self {
            AppError::Io(m) => AppErrorView::Io(m@),
            AppError::Db(m) => AppErrorView::Db(m@),
            AppError::Git(m) => AppErrorView::Git(m@),
            AppError::Other(m) => AppErrorView::Other(m@),
        }
    }
}

impl AppErrorView {
    /// The text shown for the error.
    pub open spec fn message(self) -> Seq<char> {
        match self {
            AppErrorView::Io(m) => "io: "@ + m,
            AppErrorView::Db(m) => "db: "@ + m,
            AppErrorView::Git(m) => "git: "@ + m,
            AppErrorView::Other(m) => m,
        }
    }
}

impl AppError {
    /// The text shown for the error.
    pub fn message(&self) -> (r: String)
        ensures
            r@ == self.deep_view().message(),
    {
        match self {
            AppError::Io(m) => String::from_str("io: ").concat(m.as_str()),
            AppError::Db(m) => String::from_str("db: ").concat(m.as_str()),
            AppError::Git(m) => String::from_str("git: ").concat(m.as_str()),
            AppError::Other(m) => m.clone(),
        }
    }
}

} // verus!
