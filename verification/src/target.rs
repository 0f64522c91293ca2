use vstd::prelude::*;
use target_lexicon::{ParseError, Triple};

verus! {

#[verifier::external_type_specification]
#[verifier::external_body]
pub struct ExTriple(Triple);

#[verifier::external_type_specification]
#[verifier::external_body]
pub struct ExParseError(ParseError);

/// The triple that target-lexicon reads from `text`, or nothing when it
/// does not recognize the text. Parsing depends on the text alone.
pub uninterp spec fn parsed_triple(text: Seq<char>) -> Option<Triple>;

/// Whether target-lexicon recognizes `text` as a target triple.
pub open spec fn is_known_triple(text: Seq<char>) -> bool {
    parsed_triple(text) is Some
}

/// How target-lexicon writes out `triple`. Writing depends on the triple alone.
pub uninterp spec fn triple_text(triple: Triple) -> Seq<char>;

/// The CPU argument that linking derives from a target's LLVM name: the
/// name read as a triple and written out again.
pub open spec fn link_cpu_text(llvm_target: Seq<char>) -> Seq<char> {
    triple_text(parsed_triple(llvm_target)->Some_0)
}

/// The known target names (Linux on Android or as a kernel, WASI, and bare
/// metal) that are spelled without a vendor part.
pub open spec fn is_vendorless_target_name(s: Seq<char>) -> bool {
    ||| s == "aarch64-linux-android"@
    ||| s == "arm-linux-androideabi"@
    ||| s == "armv7-linux-androideabi"@
    ||| s == "i686-linux-android"@
    ||| s == "riscv64-linux-android"@
    ||| s == "thumbv7neon-linux-androideabi"@
    ||| s == "x86_64-linux-android"@
    ||| s == "x86_64-linux-kernel"@
    ||| s == "armebv7r-none-eabi"@
    ||| s == "armebv7r-none-eabihf"@
    ||| s == "armv4t-none-eabi"@
    ||| s == "armv5te-none-eabi"@
    ||| s == "armv7a-none-eabi"@
    ||| s == "armv7a-none-eabihf"@
    ||| s == "armv7r-none-eabi"@
    ||| s == "armv7r-none-eabihf"@
    ||| s == "armv8r-none-eabihf"@
    ||| s == "msp430-none-elf"@
    ||| s == "thumbv4t-none-eabi"@
    ||| s == "thumbv5te-none-eabi"@
    ||| s == "thumbv6m-none-eabi"@
    ||| s == "thumbv7em-none-eabi"@
    ||| s == "thumbv7em-none-eabihf"@
    ||| s == "thumbv7m-none-eabi"@
    ||| s == "thumbv8m.base-none-eabi"@
    ||| s == "thumbv8m.main-none-eabi"@
    ||| s == "thumbv8m.main-none-eabihf"@
    ||| s == "wasm32-wasi"@
    ||| s == "wasm64-wasi"@
    ||| s == "wasm32-wasip1"@
    ||| s == "wasm32-wasip1-threads"@
    ||| s == "wasm32-wasip2"@
}

/// Calls `<target_lexicon::Triple as FromStr>::from_str`. Claimed:
/// - the outcome is a function of the text (`parsed_triple`): it succeeds
///   exactly when `parsed_triple` gives a triple, and then returns it;
/// - a triple it returns, once written out (`triple_text`, the `Display`
///   impl), is read again, and writing that again gives the same text;
/// - each vendorless target name that target-lexicon lists as known is read,
///   and its triple is written back as the name itself (target-lexicon's own
///   round-trip test of its known targets asserts this).
/// What the triple holds, and which error comes back, is left unsaid: both
/// types are opaque here.
#[verifier::external_body]
fn parse_triple(text: &str) -> (r: Result<Triple, ParseError>)
    ensures
        r is Ok <==> parsed_triple(text@) is Some,
        r matches Ok(t) ==> parsed_triple(text@) == Some(t),
        r matches Ok(t) ==> parsed_triple(triple_text(t)) is Some,
        r matches Ok(t) ==> triple_text(parsed_triple(triple_text(t))->Some_0) == triple_text(t),
        r is Err ==> !is_vendorless_target_name(text@),
        r matches Ok(t) ==> (is_vendorless_target_name(text@) ==> triple_text(t) == text@),
{
    text.parse::<Triple>()
}

/// Calls `ToString::to_string` through target-lexicon's `Display` impl for
/// `Triple`. Claimed: the text is a function of the triple (`triple_text`).
/// What that text is, is stated only through `parse_triple`.
#[verifier::external_body]
fn write_triple(triple: &Triple) -> (text: String)
    ensures
        text@ == triple_text(*triple),
{
    triple.to_string()
}

/// A target name that target-lexicon does not recognize.
#[derive(Clone, Copy, Debug, PartialEq, Eq, Structural)]
pub struct UnknownTargetTriple;

/// The triple of the target that the session compiles for, read from the
/// target's LLVM name, which must be one that target-lexicon recognizes.
/// Written out, the triple is a name that reads back and writes out the
/// same; a vendorless known name is written back as itself.
pub fn target_triple(llvm_target: &str) -> (triple: Triple)
    requires
        is_known_triple(llvm_target@),
    ensures
        parsed_triple(llvm_target@) == Some(triple),
        is_known_triple(triple_text(triple)),
        link_cpu_text(triple_text(triple)) == triple_text(triple),
        is_vendorless_target_name(llvm_target@) ==> triple_text(triple) == llvm_target@,
{
    match parse_triple(llvm_target) {
        Ok(triple) => triple,
        Err(_) => vstd::pervasive::unreached(),
    }
}

/// Reads a target triple from a target's LLVM name: the triple when
/// target-lexicon recognizes the name, and `UnknownTargetTriple` otherwise.
/// Every vendorless known name is recognized.
pub fn try_target_triple(llvm_target: &str) -> (r: Result<Triple, UnknownTargetTriple>)
    ensures
        r is Ok <==> is_known_triple(llvm_target@),
        r matches Ok(t) ==> parsed_triple(llvm_target@) == Some(t),
        r matches Ok(t) ==> is_known_triple(triple_text(t)),
        r matches Ok(t) ==> link_cpu_text(triple_text(t)) == triple_text(t),
        is_vendorless_target_name(llvm_target@) ==> (r matches Ok(t) && triple_text(t)
            == llvm_target@),
{
    match parse_triple(llvm_target) {
        Ok(triple) => Ok(triple),
        Err(_) => Err(UnknownTargetTriple),
    }
}

/// The CPU argument that linking passes on: the target's triple, read from
/// its LLVM name and written out again. The name must be one that
/// target-lexicon recognizes. The argument is itself a recognized name,
/// deriving the argument from it again gives it back unchanged, and a
/// vendorless known name is passed on as it is.
pub fn link_target_cpu(llvm_target: &str) -> (cpu: String)
    requires
        is_known_triple(llvm_target@),
    ensures
        cpu@ == link_cpu_text(llvm_target@),
        is_known_triple(cpu@),
        link_cpu_text(cpu@) == cpu@,
        is_vendorless_target_name(llvm_target@) ==> cpu@ == llvm_target@,
{
    let triple = target_triple(llvm_target);
    write_triple(&triple)
}

/// The CPU argument that linking passes on, or `UnknownTargetTriple` when
/// target-lexicon does not recognize the target's LLVM name.
pub fn try_link_target_cpu(llvm_target: &str) -> (r: Result<String, UnknownTargetTriple>)
    ensures
        r is Ok <==> is_known_triple(llvm_target@),
        r matches Ok(cpu) ==> cpu@ == link_cpu_text(llvm_target@),
        r matches Ok(cpu) ==> is_known_triple(cpu@) && link_cpu_text(cpu@) == cpu@,
        is_vendorless_target_name(llvm_target@) ==> (r matches Ok(cpu) && cpu@ == llvm_target@),
{
    match try_target_triple(llvm_target) {
        Ok(_) => Ok(link_target_cpu(llvm_target)),
        Err(e) => Err(e),
    }
}

} // verus!
