use inspectah::web::aggregate::LanguagePackageDto;
use inspectah::web::content_key::language_content_key;

fn pkg(name: &str, version: &str) -> LanguagePackageDto {
    LanguagePackageDto { name: name.to_string(), version: version.to_string() }
}

#[test]
fn content_key_sorts_packages_by_name_then_version() {
    let ps = vec![pkg("requests", "2.31"), pkg("flask", "3.0"), pkg("flask", "2.3")];
    assert_eq!(language_content_key("pip list", &ps), "pip list\nflask=2.3\nflask=3.0\nrequests=2.31\n");
}

#[test]
fn content_key_ignores_package_order() {
    let a = vec![pkg("b", "1"), pkg("a", "2")];
    let b = vec![pkg("a", "2"), pkg("b", "1")];
    assert_eq!(language_content_key("npm lockfile", &a), language_content_key("npm lockfile", &b));
}

#[test]
fn content_key_without_packages() {
    assert_eq!(language_content_key("venv", &vec![]), "venv\n");
}
