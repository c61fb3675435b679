use vstd::prelude::*;

use crate::error::Error;
use crate::test_suite::status::TestCaseStatus;

verus! {

/// Where one test case's driver run writes its output: the case's main log
/// and the env-out file its output variables are captured in, both named
/// after the case inside its output directory.
pub struct LogFiles {
    pub test_case: String,
    pub envout: String,
}

impl LogFiles {
    pub fn new(test_case_out_dir: &str, test_case_name: &str) -> (res: Self)
        ensures
            res.test_case@ == test_case_out_dir@ + "/"@ + test_case_name@ + ".test.log"@,
            res.envout@ == test_case_out_dir@ + "/"@ + test_case_name@ + ".envout.log"@,
    {
        let mut test_case = test_case_out_dir.to_owned();
        test_case.append("/");
        test_case.append(test_case_name);
        test_case.append(".test.log");
        let mut envout = test_case_out_dir.to_owned();
        envout.append("/");
        envout.append(test_case_name);
        envout.append(".envout.log");
        LogFiles { test_case, envout }
    }
}

/// The one function a lookup by exact name may select: none when the name
/// is absent, the single match when it is unique, and the duplicate-name
/// error otherwise.
pub fn select_named_function(functions: Vec<String>, fn_name: &str) -> (res: Result<
    Option<String>,
    Error,
>)
    ensures
        match res {
            Ok(selected) => match selected {
                Some(found) => functions.deep_view().len() == 1 && found@ == functions.deep_view()[0],
                None => functions.deep_view().len() == 0,
            },
            Err(err) => functions.deep_view().len() > 1 && err@
                == crate::error::ErrorView::DuplicatedTestFn(fn_name@),
        },
{
    let mut functions = functions;
    if functions.len() == 0 {
        Ok(None)
    } else if functions.len() == 1 {
        match functions.pop() {
            Some(found) => Ok(Some(found)),
            None => Ok(None),
        }
    } else {
        Err(Error::DuplicatedTestFn(fn_name.to_owned()))
    }
}

/// The bash snippet run for one test case: source the global fixture where
/// one applies, source the test file, call the function with the target and
/// the output directory as its arguments.
pub struct RunFnCommandBuilder {
    bash_command: String,
}

/// The snippet sourcing a file, with a leading note of what is sourced.
pub open spec fn source_snippet(what: Seq<char>, path: Seq<char>) -> Seq<char> {
    "echo Sourcing "@ + what + " '"@ + path + "'; source '"@ + path + "'; "@
}

/// The snippet calling the test function with the target and the output
/// directory as its two arguments.
pub open spec fn execute_fn_snippet(
    fn_name: Seq<char>,
    target: Seq<char>,
    out_dir: Seq<char>,
) -> Seq<char> {
    "\""@ + fn_name + "\" \""@ + target + "\" \""@ + out_dir + "\";"@
}

impl View for RunFnCommandBuilder {
    type V = Seq<char>;

    closed spec fn view(&self) -> Seq<char> {
        self.bash_command@
    }
}

impl RunFnCommandBuilder {
    pub fn new() -> (res: Self)
        ensures
            res@ == Seq::<char>::empty(),
    {
        RunFnCommandBuilder { bash_command: String::new() }
    }

    pub fn source_fixture(self, fixture: &str) -> (res: Self)
        ensures
            res@ == self@ + source_snippet("global fixture"@, fixture@),
    {
        let mut bash_command = self.bash_command;
        bash_command.append("echo Sourcing ");
        bash_command.append("global fixture");
        bash_command.append(" '");
        bash_command.append(fixture);
        bash_command.append("'; source '");
        bash_command.append(fixture);
        bash_command.append("'; ");
        RunFnCommandBuilder { bash_command }
    }

    /// Source the global fixture before the test file, unless the function
    /// to run lives in the fixture file itself.
    pub fn source_fixture_if_necessary(
        self,
        fixture: Option<&String>,
        file_path: &str,
        test_suite_dir: &str,
    ) -> (res: Self)
        ensures
            res@ == (match fixture.deep_view() {
                Some(fixture_name) => {
                    let fixture_path = test_suite_dir@ + "/"@ + fixture_name;
                    if fixture_path != file_path@ {
                        self@ + source_snippet("global fixture"@, fixture_path)
                    } else {
                        self@
                    }
                },
                None => self@,
            }),
    {
        match fixture {
            Some(fixture_name) => {
                let mut fixture_path = test_suite_dir.to_owned();
                fixture_path.append("/");
                fixture_path.append(fixture_name.as_str());
                let file_path_owned = file_path.to_owned();
                if !fixture_path.eq(&file_path_owned) {
                    self.source_fixture(fixture_path.as_str())
                } else {
                    self
                }
            },
            None => self,
        }
    }

    pub fn source_test_file(self, file_path: &str) -> (res: Self)
        ensures
            res@ == self@ + source_snippet("test file"@, file_path@),
    {
        let mut bash_command = self.bash_command;
        bash_command.append("echo Sourcing ");
        bash_command.append("test file");
        bash_command.append(" '");
        bash_command.append(file_path);
        bash_command.append("'; source '");
        bash_command.append(file_path);
        bash_command.append("'; ");
        RunFnCommandBuilder { bash_command }
    }

    pub fn execute_fn(self, fn_name: &str, target: &str, out_dir: &str) -> (res: Self)
        ensures
            res@ == self@ + execute_fn_snippet(fn_name@, target@, out_dir@),
    {
        let mut bash_command = self.bash_command;
        bash_command.append("\"");
        bash_command.append(fn_name);
        bash_command.append("\" \"");
        bash_command.append(target);
        bash_command.append("\" \"");
        bash_command.append(out_dir);
        bash_command.append("\";");
        RunFnCommandBuilder { bash_command }
    }

    pub fn build(self) -> (res: String)
        ensures
            res@ == self@,
    {
        self.bash_command
    }
}

/// The position of the first occurrence of `sep` in `s`, if any.
pub open spec fn first_index_of(s: Seq<char>, sep: char) -> Option<int>
    decreases s.len(),
{
    if s.len() == 0 {
        None
    } else if s[0] == sep {
        Some(0int)
    } else {
        match first_index_of(s.drop_first(), sep) {
            Some(i) => Some(i + 1),
            None => None,
        }
    }
}

proof fn lemma_first_index_of_found(s: Seq<char>, sep: char, i: int)
    requires
        0 <= i < s.len(),
        s[i] == sep,
        forall|j: int| 0 <= j < i ==> s[j] != sep,
    ensures
        first_index_of(s, sep) == Some(i),
    decreases i,
{
    if i > 0 {
        assert forall|j: int| 0 <= j < i - 1 implies s.drop_first()[j] != sep by {
            assert(s.drop_first()[j] == s[j + 1]);
        }
        assert(s.drop_first()[i - 1] == s[i]);
        lemma_first_index_of_found(s.drop_first(), sep, i - 1);
    }
}

proof fn lemma_first_index_of_absent(s: Seq<char>, sep: char)
    requires
        forall|j: int| 0 <= j < s.len() ==> s[j] != sep,
    ensures
        first_index_of(s, sep) is None,
    decreases s.len(),
{
    if s.len() > 0 {
        assert forall|j: int| 0 <= j < s.drop_first().len() implies s.drop_first()[j] != sep by {
            assert(s.drop_first()[j] == s[j + 1]);
        }
        lemma_first_index_of_absent(s.drop_first(), sep);
    }
}

/// The first position of `sep` in `s`.
fn find_char(s: &str, sep: char) -> (res: Option<usize>)
    ensures
        match res {
            Some(i) => first_index_of(s@, sep) == Some(i as int),
            None => first_index_of(s@, sep) is None,
        },
{
    let len = s.unicode_len();
    let mut i: usize = 0;
    while i < len
        invariant
            len == s@.len(),
            i <= len,
            forall|j: int| 0 <= j < i ==> s@[j] != sep,
        decreases len - i,
    {
        if s.get_char(i) == sep {
            proof {
                lemma_first_index_of_found(s@, sep, i as int);
            }
            return Some(i);
        }
        i += 1;
    }
    proof {
        lemma_first_index_of_absent(s@, sep);
    }
    None
}

/// An env-out line split at its first `=`: the variable's name and its
/// value; nothing for a line without `=`.
pub open spec fn env_line_split(line: Seq<char>) -> Option<(Seq<char>, Seq<char>)> {
    match first_index_of(line, '=') {
        Some(i) => Some((line.take(i), line.skip(i + 1))),
        None => None,
    }
}

/// Split one env-out line at its first `=`.
pub fn split_env_line(line: &str) -> (res: Option<(String, String)>)
    ensures
        match res {
            Some(pair) => env_line_split(line@) == Some((pair.0@, pair.1@)),
            None => env_line_split(line@) is None,
        },
{
    match find_char(line, '=') {
        Some(i) => {
            proof {
                lemma_first_index_of_in_range(line@, '=');
            }
            let len = line.unicode_len();
            let name = line.substring_char(0, i);
            let value = line.substring_char(i + 1, len);
            proof {
                assert(name@ =~= line@.take(i as int));
                assert(value@ =~= line@.skip(i + 1));
            }
            Some((name.to_owned(), value.to_owned()))
        },
        None => None,
    }
}

proof fn lemma_first_index_of_in_range(s: Seq<char>, sep: char)
    ensures
        match first_index_of(s, sep) {
            Some(i) => 0 <= i < s.len(),
            None => true,
        },
    decreases s.len(),
{
    if s.len() > 0 && s[0] != sep {
        lemma_first_index_of_in_range(s.drop_first(), sep);
    }
}

/// Whether one of the names equals the needle.
fn contains_string(names: &Vec<String>, needle: &String) -> (res: bool)
    ensures
        res == names.deep_view().contains(needle@),
{
    let mut k: usize = 0;
    while k < names.len()
        invariant
            k <= names@.len(),
            forall|j: int| 0 <= j < k ==> names.deep_view()[j] != needle@,
        decreases names@.len() - k,
    {
        if names[k].eq(needle) {
            assert(names.deep_view()[k as int] == needle@);
            return true;
        }
        k += 1;
    }
    assert(forall|j: int| 0 <= j < names.deep_view().len() ==> names.deep_view()[j] != needle@);
    false
}

/// The recognized (name, value) pairs of the env-out lines, in order: the
/// lines holding `=` whose variable name is one of the known names.
pub open spec fn known_env_pairs(lines: Seq<Seq<char>>, known: Seq<Seq<char>>) -> Seq<
    (Seq<char>, Seq<char>),
>
    decreases lines.len(),
{
    if lines.len() == 0 {
        Seq::empty()
    } else {
        let front = known_env_pairs(lines.drop_last(), known);
        match env_line_split(lines.last()) {
            Some(pair) => if known.contains(pair.0) {
                front.push(pair)
            } else {
                front
            },
            None => front,
        }
    }
}

/// The unrecognized variable names of the env-out lines, in order.
pub open spec fn unknown_env_names(lines: Seq<Seq<char>>, known: Seq<Seq<char>>) -> Seq<
    Seq<char>,
>
    decreases lines.len(),
{
    if lines.len() == 0 {
        Seq::empty()
    } else {
        let front = unknown_env_names(lines.drop_last(), known);
        match env_line_split(lines.last()) {
            Some(pair) => if known.contains(pair.0) {
                front
            } else {
                front.push(pair.0)
            },
            None => front,
        }
    }
}

/// Classify the env-out lines a driver run left behind: the values of the
/// known output variables, and the names of the unrecognized ones.
pub fn parse_output_env_vars(lines: &Vec<String>, known_vars: &Vec<String>) -> (res: (
    Vec<(String, String)>,
    Vec<String>,
))
    ensures
        res.0.deep_view() == known_env_pairs(lines.deep_view(), known_vars.deep_view()),
        res.1.deep_view() == unknown_env_names(lines.deep_view(), known_vars.deep_view()),
{
    let mut known_pairs: Vec<(String, String)> = Vec::new();
    let mut unknown_names: Vec<String> = Vec::new();
    let mut k: usize = 0;
    while k < lines.len()
        invariant
            k <= lines@.len(),
            known_pairs.deep_view() =~= known_env_pairs(
                lines.deep_view().take(k as int),
                known_vars.deep_view(),
            ),
            unknown_names.deep_view() =~= unknown_env_names(
                lines.deep_view().take(k as int),
                known_vars.deep_view(),
            ),
        decreases lines@.len() - k,
    {
        proof {
            assert(lines.deep_view().take(k + 1).drop_last() =~= lines.deep_view().take(
                k as int,
            ));
            assert(lines.deep_view().take(k + 1).last() == lines.deep_view()[k as int]);
        }
        match split_env_line(lines[k].as_str()) {
            Some(pair) => {
                if contains_string(known_vars, &pair.0) {
                    known_pairs.push(pair);
                } else {
                    unknown_names.push(pair.0);
                }
            },
            None => {},
        }
        proof {
            assert(known_pairs.deep_view() =~= known_env_pairs(
                lines.deep_view().take(k + 1),
                known_vars.deep_view(),
            ));
            assert(unknown_names.deep_view() =~= unknown_env_names(
                lines.deep_view().take(k + 1),
                known_vars.deep_view(),
            ));
        }
        k += 1;
    }
    proof {
        assert(lines.deep_view().take(lines@.len() as int) =~= lines.deep_view());
    }
    (known_pairs, unknown_names)
}

/// The terminal status of one driver run, from its exit and the skip
/// variable the script may have set: a failing exit is a test failure; a
/// passing exit is a skip exactly when the skip variable was set, with the
/// variable's value as the driver-supplied reason, and a pass otherwise.
pub fn run_status_from_output(success: bool, skipped_reason: Option<String>) -> (res:
    TestCaseStatus)
    ensures
        res@ == (if !success {
            crate::test_suite::status::TestCaseStatusView::Failed
        } else {
            match skipped_reason.deep_view() {
                Some(reason) => crate::test_suite::status::TestCaseStatusView::Skipped(
                    crate::test_suite::status::SkipReasonView::TestCaseSpecificReason(reason),
                ),
                None => crate::test_suite::status::TestCaseStatusView::Passed,
            }
        }),
{
    if !success {
        TestCaseStatus::Failed
    } else {
        match skipped_reason {
            Some(reason) => TestCaseStatus::Skipped(
                crate::test_suite::status::SkipReason::TestCaseSpecificReason(reason),
            ),
            None => TestCaseStatus::Passed,
        }
    }
}

} // verus!
