use awesome_clicker::profile::{
    has_json_extension, name_le_exec, profile_file_name, profile_names_in_order, profile_stem,
};
use awesome_clicker::text::{push_decimal, push_signed_decimal, sanitize_name};

fn dec(n: u64) -> String {
    let mut s = String::new();
    push_decimal(&mut s, n);
    s
}

fn sdec(i: i32) -> String {
    let mut s = String::from("x=");
    push_signed_decimal(&mut s, i);
    s
}

#[test]
fn decimal_formatting() {
    assert_eq!(dec(0), "0");
    assert_eq!(dec(7), "7");
    assert_eq!(dec(10), "10");
    assert_eq!(dec(1234567890), "1234567890");
    assert_eq!(dec(u64::MAX), "18446744073709551615");
    assert_eq!(sdec(0), "x=0");
    assert_eq!(sdec(-5), "x=-5");
    assert_eq!(sdec(i32::MIN), "x=-2147483648");
}

#[test]
fn sanitize_profile_names() {
    assert_eq!(sanitize_name("My Profile!"), "My_Profile_");
    assert_eq!(sanitize_name("a-b_c9"), "a-b_c9");
    assert_eq!(sanitize_name("../etc/passwd"), "___etc_passwd");
    assert_eq!(sanitize_name("héllo日本"), "héllo日本");
    assert_eq!(sanitize_name(""), "");
}

#[test]
fn profile_file_names() {
    assert_eq!(profile_file_name("Default"), "Default.json");
    assert_eq!(profile_file_name("fast clicks"), "fast_clicks.json");
    assert_eq!(profile_file_name(""), ".json");
}

#[test]
fn json_extension() {
    assert!(has_json_extension("a.json"));
    assert!(has_json_extension("..json"));
    assert!(has_json_extension("x.tar.json"));
    assert!(!has_json_extension(".json"));
    assert!(!has_json_extension("json"));
    assert!(!has_json_extension("a.JSON"));
    assert!(!has_json_extension("a.json.bak"));
    assert!(!has_json_extension(""));
}

#[test]
fn saved_profile_is_listed_unless_name_empty() {
    assert!(has_json_extension(&profile_file_name("x")));
    assert!(!has_json_extension(&profile_file_name("")));
}

#[test]
fn stems() {
    assert_eq!(profile_stem("Default.json"), "Default");
    assert_eq!(profile_stem("..json"), ".");
}

#[test]
fn name_order() {
    assert!(name_le_exec("a", "b"));
    assert!(name_le_exec("a", "ab"));
    assert!(!name_le_exec("ab", "a"));
    assert!(name_le_exec("B", "a"));
    assert!(name_le_exec("same", "same"));
    assert!(name_le_exec("", ""));
    assert!(name_le_exec("z", "é"));
}

#[test]
fn profile_listing() {
    let names = vec![
        "zeta.json".to_string(),
        "notes.txt".to_string(),
        "Alpha.json".to_string(),
        ".json".to_string(),
        "alpha.json".to_string(),
        "beta.json".to_string(),
    ];
    assert_eq!(
        profile_names_in_order(&names),
        vec!["Alpha.json", "alpha.json", "beta.json", "zeta.json"]
    );
    assert!(profile_names_in_order(&Vec::new()).is_empty());
}
