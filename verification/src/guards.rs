use vstd::prelude::*;

verus! {

/// Whether some attribute's path is exactly the host language's built-in
/// unit-test marker `test`.
pub open spec fn has_test_attr(attrs: Seq<Seq<char>>) -> bool {
    exists|i: int| 0 <= i < attrs.len() && attrs[i] == "test"@
}

/// Diagnostic text for a function that already carries the unit-test
/// marker.
pub open spec fn duplicate_test_msg() -> Seq<char> {
    "multiple #[test] attributes were supplied"@
}

/// Diagnostic text for a function not declared asynchronous.
pub open spec fn not_async_msg() -> Seq<char> {
    "test fn must be async"@
}

/// Scans the attribute paths, in order, for the unit-test marker.
pub fn finds_test_attr(attrs: &Vec<String>) -> (r: bool)
    ensures
        r == has_test_attr(attrs.deep_view()),
{
    let marker: String = String::from_str("test");
    let n = attrs.len();
    for i in 0..n
        invariant
            n == attrs.len(),
            marker@ == "test"@,
            forall|j: int| 0 <= j < i ==> attrs.deep_view()[j] != "test"@,
    {
        if attrs[i] == marker {
            proof {
                assert(attrs.deep_view()[i as int] == attrs@[i as int]@);
                assert(has_test_attr(attrs.deep_view()));
            }
            return true;
        }
        proof {
            assert(attrs.deep_view()[i as int] == attrs@[i as int]@);
        }
    }
    false
}

} // verus!
