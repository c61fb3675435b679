pub mod kind;

use vstd::prelude::*;

use crate::error::kind::{
    InvalidSuiteConfig, InvalidSuiteConfigView, SuiteConfigIo, SuiteConfigIoView, TestDriverIo,
    TestDriverIoView, TestFileExec, TestFileExecView,
};

verus! {

/// Every failure the engine reports. Case-level failures are recorded in the
/// execution context's per-case records; discovery failures surface to the
/// caller and abort only the affected suite's load.
#[derive(Debug)]
pub enum Error {
    SuiteConfigIo(SuiteConfigIo),
    InvalidSuiteConfig(InvalidSuiteConfig),
    UnknownTestDriver(String),
    UnknownTestSuite(String),
    TestDriverIo(TestDriverIo),
    TestFileExec(TestFileExec),
    NoTestFound(String),
    DuplicatedTestFn(String),
    Unknown,
}

/// The mathematical value of an `Error`.
pub ghost enum ErrorView {
    SuiteConfigIo(SuiteConfigIoView),
    InvalidSuiteConfig(InvalidSuiteConfigView),
    UnknownTestDriver(Seq<char>),
    UnknownTestSuite(Seq<char>),
    TestDriverIo(TestDriverIoView),
    TestFileExec(TestFileExecView),
    NoTestFound(Seq<char>),
    DuplicatedTestFn(Seq<char>),
    Unknown,
}

impl View for Error {
    type V = ErrorView;

    open spec fn view(&self) -> ErrorView {
        match self {
            Error::SuiteConfigIo(err) => ErrorView::SuiteConfigIo(err@),
            Error::InvalidSuiteConfig(err) => ErrorView::InvalidSuiteConfig(err@),
            Error::UnknownTestDriver(name) => ErrorView::UnknownTestDriver(name@),
            Error::UnknownTestSuite(dir) => ErrorView::UnknownTestSuite(dir@),
            Error::TestDriverIo(err) => ErrorView::TestDriverIo(err@),
            Error::TestFileExec(err) => ErrorView::TestFileExec(err@),
            Error::NoTestFound(file) => ErrorView::NoTestFound(file@),
            Error::DuplicatedTestFn(name) => ErrorView::DuplicatedTestFn(name@),
            Error::Unknown => ErrorView::Unknown,
        }
    }
}

} // verus!
