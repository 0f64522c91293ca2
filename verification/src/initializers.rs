use vstd::prelude::*;

verus! {

/// The prefix of the name of each codegen unit's global initializer.
pub open spec fn initializer_prefix() -> Seq<char> {
    "__gccGlobalInit"@
}

/// The name of the function that runs the global initializers of the
/// codegen unit called `unit_name`.
pub open spec fn initializer_name(unit_name: Seq<char>) -> Seq<char> {
    initializer_prefix() + unit_name
}

/// Names the function that runs the global initializers of one codegen unit.
pub fn initializer_function_name(unit_name: &str) -> (name: String)
    ensures
        name@ == initializer_name(unit_name@),
{
    let mut name = String::from_str("__gccGlobalInit");
    name.append(unit_name);
    name
}

/// Names, in order, the initializer functions that the program's entry
/// code calls: one for each codegen unit.
pub fn initializer_function_names(unit_names: &Vec<String>) -> (names: Vec<String>)
    ensures
        names@.len() == unit_names@.len(),
        forall|i: int|
            0 <= i < unit_names@.len() ==> #[trigger] names@[i]@ == initializer_name(
                unit_names@[i]@,
            ),
{
    let mut names: Vec<String> = Vec::new();
    let n = unit_names.len();
    for i in 0..n
        invariant
            n == unit_names@.len(),
            names@.len() == i,
            forall|j: int|
                0 <= j < i ==> #[trigger] names@[j]@ == initializer_name(unit_names@[j]@),
    {
        let name = initializer_function_name(unit_names[i].as_str());
        names.push(name);
    }
    names
}

/// Distinct codegen units get distinct initializer functions, so no unit's
/// initializer is declared twice or shadows another's.
pub proof fn initializer_names_are_distinct(a: Seq<char>, b: Seq<char>)
    requires
        a != b,
    ensures
        initializer_name(a) != initializer_name(b),
{
    let p = initializer_prefix();
    if initializer_name(a) == initializer_name(b) {
        assert(a =~= initializer_name(a).subrange(p.len() as int, initializer_name(a).len() as int));
        assert(b =~= initializer_name(b).subrange(p.len() as int, initializer_name(b).len() as int));
    }
}

/// Each initializer name starts with the common prefix and ends with the
/// unit's own name.
pub proof fn initializer_name_parts(unit_name: Seq<char>)
    ensures
        initializer_name(unit_name).len() == initializer_prefix().len() + unit_name.len(),
        initializer_name(unit_name).subrange(0, initializer_prefix().len() as int)
            == initializer_prefix(),
        initializer_name(unit_name).subrange(
            initializer_prefix().len() as int,
            initializer_name(unit_name).len() as int,
        ) == unit_name,
{
    let p = initializer_prefix();
    assert(initializer_name(unit_name).subrange(0, p.len() as int) =~= p);
    assert(initializer_name(unit_name).subrange(
        p.len() as int,
        initializer_name(unit_name).len() as int,
    ) =~= unit_name);
}

} // verus!
