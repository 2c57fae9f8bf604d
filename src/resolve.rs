use vstd::prelude::*;

verus! {

/// The worker's executable name: `dendrite`, with `.exe` on Windows.
pub open spec fn executable_file_name_spec(windows: bool) -> Seq<char> {
    if windows {
        "dendrite.exe"@
    } else {
        "dendrite"@
    }
}

/// The worker's executable name; without the extension it is also the name looked up on
/// the search path when no bundled copy exists.
pub fn executable_file_name(windows: bool) -> (r: String)
    ensures
        r@ == executable_file_name_spec(windows),
{
    if windows {
        String::from_str("dendrite.exe")
    } else {
        String::from_str("dendrite")
    }
}

/// The places inside the resource directory where a bundled worker may lie, in the
/// order they are tried, each as a list of path components.
pub fn bundled_candidates(windows: bool) -> (r: Vec<Vec<String>>)
    ensures
        r@.len() == 2,
        r@[0]@.len() == 2,
        r@[0]@[0]@ == "sidecar"@,
        r@[0]@[1]@ == executable_file_name_spec(windows),
        r@[1]@.len() == 1,
        r@[1]@[0]@ == executable_file_name_spec(windows),
{
    let mut nested: Vec<String> = Vec::new();
    nested.push(String::from_str("sidecar"));
    nested.push(executable_file_name(windows));
    let mut top: Vec<String> = Vec::new();
    top.push(executable_file_name(windows));
    let mut r: Vec<Vec<String>> = Vec::new();
    r.push(nested);
    r.push(top);
    r
}

/// The index of the first candidate that exists; `None` sends the lookup to the search
/// path.
pub fn first_existing(exists: &Vec<bool>) -> (r: Option<usize>)
    ensures
        r is None <==> forall|i: int| 0 <= i < exists@.len() ==> !exists@[i],
        r is Some ==> r->Some_0 < exists@.len() && exists@[r->Some_0 as int] && forall|i: int|
            0 <= i < r->Some_0 ==> !exists@[i],
{
    let mut i: usize = 0;
    while i < exists.len()
        invariant
            i <= exists@.len(),
            forall|k: int| 0 <= k < i ==> !exists@[k],
        decreases exists@.len() - i,
    {
        if exists[i] {
            return Some(i);
        }
        i = i + 1;
    }
    None
}

} // verus!
