use vstd::prelude::*;

verus! {

/// Text placed before the name in a greeting.
pub open spec fn greeting_prefix() -> Seq<char> {
    "Hello, "@
}

/// Text placed after the name in a greeting.
pub open spec fn greeting_suffix() -> Seq<char> {
    "! You've been greeted from Rust!"@
}

/// The greeting for `name`: the name embedded, as given, in a fixed template.
pub open spec fn greeting_of(name: Seq<char>) -> Seq<char> {
    greeting_prefix() + name + greeting_suffix()
}

/// Greets `name`.
pub fn greet(name: &str) -> (r: String)
    ensures
        r@ == greeting_of(name@),
        r@.subrange(
            greeting_prefix().len() as int,
            (greeting_prefix().len() + name@.len()) as int,
        ) == name@,
{
    let r = String::from_str("Hello, ").concat(name).concat("! You've been greeted from Rust!");
    assert(r@.subrange(greeting_prefix().len() as int, (greeting_prefix().len() + name@.len()) as int)
        =~= name@);
    r
}

} // verus!
