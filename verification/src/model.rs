//! The fixture model: one test case pairing framed binary data with the
//! value a correct client must decode from it, and a suite of such cases
//! keyed by one opcode.

use vstd::prelude::*;

use crate::errors::FixtureError;
use crate::json::JsonValue;

verus! {

/// One test case of a suite.
///
/// A case is built once and never mutated: the two binary fields hold the
/// base64 text of a complete request and response frame, and
/// `expected_response` holds the value a correct client decodes from the
/// response frame.
pub struct TestCase {
    /// Name of the case, unique within its suite.
    pub name: String,
    /// Human-readable request parameters, for documentation only.
    pub request_data: JsonValue,
    /// Base64 text of the request frame a client must produce.
    pub expected_request_binary: String,
    /// Base64 text of the response frame fed to the client under test.
    pub response_binary: String,
    /// The value a correct client decodes from the response frame.
    pub expected_response: JsonValue,
    /// Whether the client-facing call is expected to report success.
    pub expect_success: bool,
}

/// A suite of test cases for exactly one opcode.
pub struct TestSuite {
    /// The opcode every case of this suite exercises.
    pub op_code: u32,
    /// The cases, in emission order.
    pub tests: Vec<TestCase>,
}

/// All case names in the sequence are pairwise distinct.
pub open spec fn distinct_case_names(tests: Seq<TestCase>) -> bool {
    forall|i: int, j: int| 0 <= i < j < tests.len() ==> tests[i].name@ != tests[j].name@
}

/// The suite has at least one case expected to succeed.
pub open spec fn has_success_case(tests: Seq<TestCase>) -> bool {
    exists|i: int| 0 <= i < tests.len() && tests[i].expect_success
}

/// The suite has at least one case expected to fail.
pub open spec fn has_failure_case(tests: Seq<TestCase>) -> bool {
    exists|i: int| 0 <= i < tests.len() && !tests[i].expect_success
}

/// Every case expecting failure exposes the empty-object response shape:
/// the status-consistency rule for single-result operations.
pub open spec fn failing_cases_empty_object(tests: Seq<TestCase>) -> bool {
    forall|i: int|
        0 <= i < tests.len() && !tests[i].expect_success ==> crate::json::is_empty_object(
            tests[i].expected_response,
        )
}

/// Every case expecting failure exposes the empty-collection response
/// shape: the status-consistency rule for list-style operations.
pub open spec fn failing_cases_empty_array(tests: Seq<TestCase>) -> bool {
    forall|i: int|
        0 <= i < tests.len() && !tests[i].expect_success ==> crate::json::is_empty_array(
            tests[i].expected_response,
        )
}

/// Status consistency for a whole suite: every case expecting failure
/// exposes the empty shape documented for the suite's operation kind — the
/// empty array for list-style operations, the empty object for every
/// other.
pub open spec fn suite_failure_shapes_ok(s: TestSuite) -> bool {
    if crate::opcodes::is_list_style_opcode(s.op_code) {
        failing_cases_empty_array(s.tests@)
    } else {
        failing_cases_empty_object(s.tests@)
    }
}

impl TestSuite {
    /// Wrap cases into a suite for one opcode.
    ///
    /// Succeeds exactly when all case names are distinct; a name collision
    /// is rejected so that a case's name identifies it within its suite.
    pub fn new(op_code: u32, tests: Vec<TestCase>) -> (r: Result<TestSuite, FixtureError>)
        ensures
            distinct_case_names(tests@) ==> (r matches Ok(s) && s.op_code == op_code && s.tests@
                == tests@),
            !distinct_case_names(tests@) ==> r == Result::<TestSuite, FixtureError>::Err(
                FixtureError::DuplicateCaseName,
            ),
    {
        let n: usize = tests.len();
        let mut i: usize = 0;
        while i < n
            invariant
                n == tests@.len(),
                i <= n,
                forall|p: int, q: int| 0 <= p < q < tests@.len() && p < i ==> tests@[p].name@
                    != tests@[q].name@,
            decreases n - i,
        {
            let mut j: usize = i + 1;
            while j < n
                invariant
                    n == tests@.len(),
                    i < j || i + 1 == j,
                    i < n,
                    j <= n,
                    forall|q: int| i < q < j ==> tests@[i as int].name@ != tests@[q].name@,
                decreases n - j,
            {
                if tests[i].name == tests[j].name {
                    return Err(FixtureError::DuplicateCaseName);
                }
                j = j + 1;
            }
            i = i + 1;
        }
        Ok(TestSuite { op_code, tests })
    }
}

} // verus!
