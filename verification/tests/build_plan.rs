use diffharness::build_plan::{
    is_isolated, link_library_directive, link_search_directive, ordering_plan, ordering_table,
    parsing_plan, parsing_table, rename, runtime_library, target_arch, Rename,
};

fn pairs(renames: &[Rename]) -> Vec<(&str, &str)> {
    renames.iter().map(|r| (r.from.as_str(), r.to.as_str())).collect()
}

#[test]
fn rename_holds_both_names() {
    let entry = rename("swap", "c_swap");
    assert_eq!(entry, Rename { from: "swap".to_string(), to: "c_swap".to_string() });
}

#[test]
fn the_ordering_table_renames_the_routine_and_its_helpers() {
    assert_eq!(
        pairs(&ordering_table()),
        vec![("quickSort", "c_quickSort"), ("partition", "c_partition"), ("swap", "c_swap")]
    );
}

#[test]
fn the_parsing_table_renames_every_symbol() {
    assert_eq!(
        pairs(&parsing_table()),
        vec![
            ("url_parse", "c_url_parse"),
            ("url_free", "c_url_free"),
            ("url_get_protocol", "c_url_get_protocol"),
            ("url_get_host", "c_url_get_host"),
            ("url_get_hostname", "c_url_get_hostname"),
            ("url_get_path", "c_url_get_path"),
            ("url_get_query", "c_url_get_query"),
            ("url_get_hash", "c_url_get_hash"),
            ("url_get_port", "c_url_get_port"),
            ("url_get_auth", "c_url_get_auth"),
            ("url_get_pathname", "c_url_get_pathname"),
            ("url_get_search", "c_url_get_search"),
            ("URL_SCHEMES", "C_URL_SCHEMES"),
            ("strdup", "c_strdup"),
            ("url_is_protocol", "c_url_is_protocol"),
            ("url_is_ssh", "c_url_is_ssh"),
            ("url_inspect", "c_url_inspect"),
            ("url_data_inspect", "c_url_data_inspect"),
        ]
    );
}

#[test]
fn both_tables_are_isolated() {
    assert!(is_isolated(&ordering_table()));
    assert!(is_isolated(&parsing_table()));
    assert!(is_isolated(&Vec::new()));
}

#[test]
fn a_new_name_that_is_an_old_name_breaks_isolation() {
    assert!(!is_isolated(&vec![rename("swap", "swap")]));
    assert!(!is_isolated(&vec![rename("swap", "partition"), rename("partition", "c_partition")]));
    assert!(!is_isolated(&vec![rename("a", "c_a"), rename("b", "c_b"), rename("c_b", "a")]));
    assert!(is_isolated(&vec![rename("a", "c_a"), rename("b", "c_a")]));
}

#[test]
fn the_ordering_plan_is_instrumented() {
    let plan = ordering_plan();
    assert_eq!(plan.compiler, "clang");
    assert_eq!(plan.flags, vec!["-O1", "-g", "-fsanitize-coverage=trace-pc-guard,trace-cmp"]);
    assert!(!plan.warnings);
    assert_eq!(plan.renames, ordering_table());
    assert_eq!(plan.sources, vec!["c/qsort.c"]);
    assert_eq!(plan.library, "c_oracle");
}

#[test]
fn the_parsing_plan_is_instrumented() {
    let plan = parsing_plan();
    assert_eq!(plan.compiler, "clang");
    assert_eq!(plan.flags, vec!["-O1", "-g", "-fsanitize-coverage=trace-pc-guard,trace-cmp"]);
    assert!(!plan.warnings);
    assert_eq!(plan.renames, parsing_table());
    assert_eq!(plan.sources, vec!["c/url.c"]);
    assert_eq!(plan.library, "c_oracle");
}

#[test]
fn the_architecture_defaults_to_x86_64() {
    assert_eq!(target_arch(None), "x86_64");
    assert_eq!(target_arch(Some("aarch64".to_string())), "aarch64");
    assert_eq!(target_arch(Some(String::new())), "");
}

#[test]
fn the_runtime_is_named_after_the_architecture() {
    assert_eq!(runtime_library("x86_64"), "clang_rt.profile-x86_64");
    assert_eq!(runtime_library("aarch64"), "clang_rt.profile-aarch64");
    assert_eq!(runtime_library(&target_arch(None)), "clang_rt.profile-x86_64");
}

#[test]
fn the_link_directives_name_directory_and_library() {
    assert_eq!(
        link_search_directive("/usr/lib/clang/17/lib/linux"),
        "cargo:rustc-link-search=native=/usr/lib/clang/17/lib/linux"
    );
    assert_eq!(
        link_library_directive("clang_rt.profile-x86_64"),
        "cargo:rustc-link-lib=static=clang_rt.profile-x86_64"
    );
}
