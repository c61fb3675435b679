use vstd::prelude::*;

verus! {

/// The suite configuration file could not be read; carries the host's
/// description of the underlying I/O failure.
#[derive(Debug)]
pub struct SuiteConfigIo {
    pub filename: String,
    pub message: String,
}

/// The mathematical value of a `SuiteConfigIo`.
pub ghost struct SuiteConfigIoView {
    pub filename: Seq<char>,
    pub message: Seq<char>,
}

impl View for SuiteConfigIo {
    type V = SuiteConfigIoView;

    open spec fn view(&self) -> SuiteConfigIoView {
        SuiteConfigIoView { filename: self.filename@, message: self.message@ }
    }
}

/// The suite configuration file was read but is not valid; carries the
/// parser's description of what is wrong.
#[derive(Debug)]
pub struct InvalidSuiteConfig {
    pub filename: String,
    pub message: String,
}

/// The mathematical value of an `InvalidSuiteConfig`.
pub ghost struct InvalidSuiteConfigView {
    pub filename: Seq<char>,
    pub message: Seq<char>,
}

impl View for InvalidSuiteConfig {
    type V = InvalidSuiteConfigView;

    open spec fn view(&self) -> InvalidSuiteConfigView {
        InvalidSuiteConfigView { filename: self.filename@, message: self.message@ }
    }
}

/// The test driver's own command could not be executed.
#[derive(Debug)]
pub struct TestDriverIo {
    pub filename: String,
    pub message: String,
}

/// The mathematical value of a `TestDriverIo`.
pub ghost struct TestDriverIoView {
    pub filename: Seq<char>,
    pub message: Seq<char>,
}

impl View for TestDriverIo {
    type V = TestDriverIoView;

    open spec fn view(&self) -> TestDriverIoView {
        TestDriverIoView { filename: self.filename@, message: self.message@ }
    }
}

/// A test file could not be executed.
#[derive(Debug)]
pub struct TestFileExec {
    pub filename: String,
    pub details: String,
}

/// The mathematical value of a `TestFileExec`.
pub ghost struct TestFileExecView {
    pub filename: Seq<char>,
    pub details: Seq<char>,
}

impl View for TestFileExec {
    type V = TestFileExecView;

    open spec fn view(&self) -> TestFileExecView {
        TestFileExecView { filename: self.filename@, details: self.details@ }
    }
}

} // verus!
