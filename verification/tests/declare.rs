use evmc::declare::{contains_nul, parse_capabilities, remove_underscores, VMMetaData, VMNameSet};
use evmc::entry;
use evmc::ffi::EVMC_ABI_VERSION;

#[test]
fn names_of_a_declared_type() {
    let names = VMNameSet::new("ExampleVM".to_string());
    assert_eq!(names.get_type_name(), "ExampleVM");
    assert_eq!(names.get_name_caps(), "EXAMPLE_VM");
    assert_eq!(names.get_name_lowercase(), "examplevm");
    assert_eq!(names.get_type_as_ident(), "ExampleVM");
    assert_eq!(
        names.get_lowercase_as_ident_prepend("evmc_create_"),
        "evmc_create_examplevm"
    );
    assert_eq!(
        names.get_lowercase_as_ident_append("_create"),
        "examplevm_create"
    );
    assert_eq!(names.get_caps_as_ident_append("_NAME"), "EXAMPLE_VM_NAME");
    assert_eq!(
        names.get_caps_as_ident_append("_VERSION"),
        "EXAMPLE_VM_VERSION"
    );
}

#[test]
fn names_of_other_types() {
    let foo = VMNameSet::new("FooVM".to_string());
    assert_eq!(foo.get_name_caps(), "FOO_VM");
    assert_eq!(foo.get_name_lowercase(), "foovm");

    let spaced = VMNameSet::new("XMLHttpRequest".to_string());
    assert_eq!(spaced.get_name_caps(), "XML_HTTP_REQUEST");
    assert_eq!(spaced.get_name_lowercase(), "xmlhttprequest");

    let snake = VMNameSet::new("my_vm".to_string());
    assert_eq!(snake.get_type_name(), "my_vm");
    assert_eq!(snake.get_name_caps(), "MY_VM");
    assert_eq!(snake.get_name_lowercase(), "myvm");
}

#[test]
fn underscores_are_removed() {
    assert_eq!(remove_underscores("example_rust_vm"), "examplerustvm");
    assert_eq!(remove_underscores("__a__"), "a");
    assert_eq!(remove_underscores(""), "");
    assert_eq!(remove_underscores("none"), "none");
    assert_eq!(remove_underscores("_\u{e9}_"), "\u{e9}");
}

#[test]
fn capability_lists() {
    assert_eq!(parse_capabilities("evm"), Some(1));
    assert_eq!(parse_capabilities("ewasm"), Some(2));
    assert_eq!(parse_capabilities("precompiles"), Some(4));
    assert_eq!(parse_capabilities("ewasm, evm"), Some(3));
    assert_eq!(parse_capabilities("evm, precompiles"), Some(5));
    assert_eq!(parse_capabilities("evm,ewasm,precompiles"), Some(7));
    assert_eq!(parse_capabilities("evm, evm"), Some(1));
    assert_eq!(parse_capabilities("e_v_m , pre_compiles"), Some(5));
    assert_eq!(parse_capabilities("  evm  "), Some(1));
}

#[test]
fn capability_lists_that_state_nothing() {
    assert_eq!(parse_capabilities(""), None);
    assert_eq!(parse_capabilities("evm,"), None);
    assert_eq!(parse_capabilities(",evm"), None);
    assert_eq!(parse_capabilities("evm,,ewasm"), None);
    assert_eq!(parse_capabilities("wasm"), None);
    assert_eq!(parse_capabilities("EVM"), None);
    assert_eq!(parse_capabilities("evm;ewasm"), None);
    assert_eq!(parse_capabilities("evm1"), None);
    assert_eq!(parse_capabilities(" _ "), None);
}

#[test]
fn nul_characters_are_found() {
    assert!(!contains_nul("Foo VM"));
    assert!(!contains_nul(""));
    assert!(contains_nul("\0"));
    assert!(contains_nul("Foo\0VM"));
    assert!(contains_nul("Foo VM\0"));
}

#[test]
fn meta_data_of_a_declaration() {
    assert!(VMMetaData::is_acceptable(
        "Foo VM",
        "ewasm, evm",
        "1.42-alpha.gamma.starship"
    ));
    let data = VMMetaData::new("Foo VM", "ewasm, evm", "1.42-alpha.gamma.starship");
    assert_eq!(data.get_capabilities(), 3);
    assert_eq!(data.get_name_stylized_nulterm(), "Foo VM\0");
    assert_eq!(
        data.get_custom_version_nulterm(),
        "1.42-alpha.gamma.starship\0"
    );
    assert_eq!(data.get_name_stylized_nulterm().matches('\0').count(), 1);
    assert_eq!(data.get_custom_version_nulterm().matches('\0').count(), 1);

    let example = VMMetaData::new("ExampleRustVM", "evm, precompiles", "10.1.0");
    assert_eq!(example.get_capabilities(), 5);
    assert_eq!(entry::get_capabilities(&example), 5);
}

#[test]
fn declarations_that_are_not_taken() {
    assert!(!VMMetaData::is_acceptable("Foo VM", "ewasm, evn", "1.0"));
    assert!(!VMMetaData::is_acceptable("Foo\0VM", "evm", "1.0"));
    assert!(!VMMetaData::is_acceptable("Foo VM", "evm", "1.0\0"));
    assert!(!VMMetaData::is_acceptable("Foo VM", "", "1.0"));
    assert!(VMMetaData::is_acceptable("", "evm", ""));
}

#[test]
fn instance_of_a_declaration() {
    let data = VMMetaData::new("Foo VM", "ewasm, evm", "1.42-alpha.gamma.starship");
    let instance = entry::instance_of(&data);
    assert_eq!(instance.abi_version, EVMC_ABI_VERSION);
    assert_eq!(instance.name.as_deref(), Some("Foo VM"));
    assert_eq!(instance.version.as_deref(), Some("1.42-alpha.gamma.starship"));
    assert!(instance.destroy);
    assert!(instance.execute);
    assert!(instance.get_capabilities);
    assert!(!instance.set_option);
}
