//! The greeting request: a name goes in, a sentence that addresses it comes out.

use vstd::prelude::*;
use vstd::string::*;

verus! {

/// The characters that stand before the name in every greeting.
pub open spec fn greeting_prefix() -> Seq<char> {
    "Hello, "@
}

/// The characters that stand after the name in every greeting.
pub open spec fn greeting_suffix() -> Seq<char> {
    "! You've been greeted from Rust!"@
}

/// The greeting for `name`: the prefix, the name as it was given, the suffix.
///
/// The name is taken verbatim. Nothing in it is trimmed, escaped or read as a
/// placeholder, so a name that itself looks like a template is echoed as is.
pub open spec fn greeting_of(name: Seq<char>) -> Seq<char> {
    greeting_prefix() + name + greeting_suffix()
}

/// Builds the greeting for `name`.
///
/// Total: every string is a name, the empty one included.
pub fn greet(name: &str) -> (greeting: String)
    ensures
        greeting@ == greeting_of(name@),
{
    let mut greeting = String::from_str("Hello, ");
    greeting.append(name);
    greeting.append("! You've been greeted from Rust!");
    greeting
}

/// The prefix has seven characters and the suffix thirty-two.
pub proof fn lemma_frame_lengths()
    ensures
        greeting_prefix().len() == 7,
        greeting_suffix().len() == 32,
{
    reveal_strlit("Hello, ");
    reveal_strlit("! You've been greeted from Rust!");
}

/// A greeting is longer than its name by exactly the length of the frame.
pub proof fn lemma_greeting_len(name: Seq<char>)
    ensures
        greeting_of(name).len() == name.len() + 39,
{
    lemma_frame_lengths();
}

/// Equal names have equal greetings: a greeting depends on nothing but the
/// name, so asking again for the same name gives the same answer.
pub proof fn lemma_greeting_repeatable(first: Seq<char>, second: Seq<char>)
    requires
        first == second,
    ensures
        greeting_of(first) == greeting_of(second),
{
}

/// The name can be read back out of its greeting: it stands, unchanged,
/// directly behind the prefix.
pub proof fn lemma_greeting_holds_name(name: Seq<char>)
    ensures
        greeting_of(name).subrange(
            greeting_prefix().len() as int,
            (greeting_prefix().len() + name.len()) as int,
        ) == name,
        greeting_of(name).subrange(0, greeting_prefix().len() as int) == greeting_prefix(),
        greeting_of(name).subrange(
            (greeting_prefix().len() + name.len()) as int,
            greeting_of(name).len() as int,
        ) == greeting_suffix(),
{
    let p = greeting_prefix();
    let g = greeting_of(name);
    assert(g.subrange(p.len() as int, (p.len() + name.len()) as int) =~= name);
    assert(g.subrange(0, p.len() as int) =~= p);
    assert(g.subrange((p.len() + name.len()) as int, g.len() as int) =~= greeting_suffix());
}

/// Different names never share a greeting: whatever two callers ask for, each
/// answer is tied to its own name and to no other.
pub proof fn lemma_greeting_injective(first: Seq<char>, second: Seq<char>)
    requires
        greeting_of(first) == greeting_of(second),
    ensures
        first == second,
{
    let p = greeting_prefix();
    let s = greeting_suffix();
    assert(greeting_of(first).len() == p.len() + first.len() + s.len());
    assert(greeting_of(second).len() == p.len() + second.len() + s.len());
    assert(first.len() == second.len());
    lemma_greeting_holds_name(first);
    lemma_greeting_holds_name(second);
}

} // verus!
