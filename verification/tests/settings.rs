use yabook::server::settings::{db_settings, DbSettings};

fn s(v: &str) -> Option<String> {
    Some(v.to_string())
}

#[test]
fn settings_with_all_entries() {
    let got = db_settings(s("db.local"), s("5432"), s("yabook"), s("admin"), s("secret"));
    assert_eq!(
        got,
        Some(DbSettings {
            host: "db.local".to_string(),
            port: 5432,
            dbname: "yabook".to_string(),
            user: "admin".to_string(),
            pass: "secret".to_string(),
        })
    );
}

#[test]
fn settings_port_forms() {
    assert_eq!(db_settings(s("h"), s("+80"), s("d"), s("u"), s("p")).unwrap().port, 80);
    assert_eq!(db_settings(s("h"), s("65535"), s("d"), s("u"), s("p")).unwrap().port, 65535);
    assert_eq!(db_settings(s("h"), s("65536"), s("d"), s("u"), s("p")), None);
    assert_eq!(db_settings(s("h"), s("-1"), s("d"), s("u"), s("p")), None);
    assert_eq!(db_settings(s("h"), s("-0"), s("d"), s("u"), s("p")), None);
    assert_eq!(db_settings(s("h"), s(""), s("d"), s("u"), s("p")), None);
    assert_eq!(db_settings(s("h"), s(" 80"), s("d"), s("u"), s("p")), None);
}

#[test]
fn settings_missing_entry() {
    assert_eq!(db_settings(None, s("1"), s("d"), s("u"), s("p")), None);
    assert_eq!(db_settings(s("h"), None, s("d"), s("u"), s("p")), None);
    assert_eq!(db_settings(s("h"), s("1"), None, s("u"), s("p")), None);
    assert_eq!(db_settings(s("h"), s("1"), s("d"), None, s("p")), None);
    assert_eq!(db_settings(s("h"), s("1"), s("d"), s("u"), None), None);
}
