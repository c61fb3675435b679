use vstd::prelude::*;

verus! {

/// The parsed configuration of a test suite: its metadata, the driver that
/// runs it, the glob patterns selecting its test files, the optional global
/// fixture file and the targets it may be run against. Reading and parsing
/// the configuration file is the host's concern; the engine only consumes
/// the parsed values.
#[derive(Debug)]
pub struct TestSuiteConfig {
    pub name: String,
    pub description: String,
    pub version: String,
    pub driver: String,
    pub test_file_patterns: Vec<String>,
    pub global_fixture: Option<String>,
    pub targets: Vec<String>,
}

/// The mathematical value of a `TestSuiteConfig`.
pub ghost struct TestSuiteConfigView {
    pub name: Seq<char>,
    pub description: Seq<char>,
    pub version: Seq<char>,
    pub driver: Seq<char>,
    pub test_file_patterns: Seq<Seq<char>>,
    pub global_fixture: Option<Seq<char>>,
    pub targets: Seq<Seq<char>>,
}

impl View for TestSuiteConfig {
    type V = TestSuiteConfigView;

    open spec fn view(&self) -> TestSuiteConfigView {
        TestSuiteConfigView {
            name: self.name@,
            description: self.description@,
            version: self.version@,
            driver: self.driver@,
            test_file_patterns: self.test_file_patterns.deep_view(),
            global_fixture: self.global_fixture.deep_view(),
            targets: self.targets.deep_view(),
        }
    }
}

/// A copy of a list of strings, preserving its mathematical value.
pub fn clone_string_vec(v: &Vec<String>) -> (res: Vec<String>)
    ensures
        res.deep_view() == v.deep_view(),
{
    let mut res: Vec<String> = Vec::new();
    let mut i: usize = 0;
    while i < v.len()
        invariant
            i <= v.len(),
            res@.len() == i,
            forall|j: int| 0 <= j < i ==> (#[trigger] res@[j])@ == v@[j]@,
        decreases v.len() - i,
    {
        res.push(v[i].clone());
        i += 1;
    }
    assert(res.deep_view() =~= v.deep_view());
    res
}

impl Clone for TestSuiteConfig {
    fn clone(&self) -> (res: Self)
        ensures
            res@ == self@,
    {
        TestSuiteConfig {
            name: self.name.clone(),
            description: self.description.clone(),
            version: self.version.clone(),
            driver: self.driver.clone(),
            test_file_patterns: clone_string_vec(&self.test_file_patterns),
            global_fixture: match &self.global_fixture {
                Some(fixture) => Some(fixture.clone()),
                None => None,
            },
            targets: clone_string_vec(&self.targets),
        }
    }
}

} // verus!
