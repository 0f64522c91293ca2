use rustc_codegen_gcc::{initializer_function_name, initializer_function_names};

#[test]
fn initializer_name_of_one_unit() {
    assert_eq!(initializer_function_name("foo.7rcbfp3g-cgu.0"), "__gccGlobalInitfoo.7rcbfp3g-cgu.0");
    assert_eq!(initializer_function_name(""), "__gccGlobalInit");
}

#[test]
fn initializer_names_follow_the_units() {
    let units = vec![String::from("a"), String::from("b.cgu"), String::from("a0")];
    let names = initializer_function_names(&units);
    assert_eq!(
        names,
        vec![
            String::from("__gccGlobalInita"),
            String::from("__gccGlobalInitb.cgu"),
            String::from("__gccGlobalInita0"),
        ]
    );
    assert!(initializer_function_names(&Vec::new()).is_empty());
}

#[test]
fn distinct_units_get_distinct_initializers() {
    let units = vec![String::from("x"), String::from("xy"), String::from("y")];
    let names = initializer_function_names(&units);
    for i in 0..names.len() {
        for j in 0..names.len() {
            assert_eq!(i == j, names[i] == names[j]);
        }
    }
}
