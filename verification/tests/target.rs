use rustc_codegen_gcc::{link_target_cpu, target_triple, try_link_target_cpu, try_target_triple, UnknownTargetTriple};

#[test]
fn known_llvm_target_is_read() {
    let triple = target_triple("x86_64-unknown-linux-gnu");
    assert_eq!(triple.to_string(), "x86_64-unknown-linux-gnu");
    let other = try_target_triple("aarch64-apple-darwin").unwrap();
    assert_eq!(other.to_string(), "aarch64-apple-darwin");
}

#[test]
fn unknown_llvm_target_is_refused() {
    assert_eq!(try_target_triple("not-a-real-target").err(), Some(UnknownTargetTriple));
    assert_eq!(try_target_triple("").err(), Some(UnknownTargetTriple));
}

#[test]
fn link_cpu_is_the_triple_written_out() {
    assert_eq!(link_target_cpu("x86_64-unknown-linux-gnu"), "x86_64-unknown-linux-gnu");
    assert_eq!(try_link_target_cpu("aarch64-apple-darwin"), Ok(String::from("aarch64-apple-darwin")));
    assert_eq!(try_link_target_cpu("i686-pc-windows-msvc"), Ok(String::from("i686-pc-windows-msvc")));
}

#[test]
fn link_cpu_of_unknown_target_is_refused() {
    assert_eq!(try_link_target_cpu("not-a-real-target"), Err(UnknownTargetTriple));
}
