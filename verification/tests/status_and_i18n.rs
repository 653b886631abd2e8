//! Status-code translation and localized strings.

use denginks_opcua_diagnostic::status_codes::{status_code_color, translate_status_code};
use denginks_opcua_diagnostic::i18n::{t, Language, T};

#[test]
fn test_translate_good() {
    assert_eq!(translate_status_code(0x00000000), "Good");
}

#[test]
fn test_translate_bad_certificate() {
    assert_eq!(translate_status_code(0x801C0000), "Bad - Certificate Untrusted");
}

#[test]
fn test_translate_unknown() {
    let result = translate_status_code(0x80FF0000);
    assert!(result.contains("Bad"));
    assert!(result.contains("0x80FF0000"));
}

#[test]
fn test_wrapper() {
    let code = 0x00000000;
    assert_eq!(translate_status_code(code), "Good");
}

#[test]
fn test_translate_uncertain() {
    assert_eq!(translate_status_code(0x40010000), "Uncertain - Initial Value");
    let fallback = translate_status_code(0x40FF0000);
    assert_eq!(fallback, "Uncertain (0x40FF0000)");
}

#[test]
fn test_status_colors() {
    assert_eq!(status_code_color(0x00000000), [0, 200, 0]);
    assert_eq!(status_code_color(0x40000000), [255, 200, 0]);
    assert_eq!(status_code_color(0x80140000), [255, 50, 50]);
}

#[test]
fn test_english_translations() {
    assert_eq!(t(T::File, Language::English), "File");
    assert_eq!(t(T::Exit, Language::English), "Exit");
    assert_eq!(t(T::About, Language::English), "About");
}

#[test]
fn test_spanish_translations() {
    assert_eq!(t(T::File, Language::Spanish), "Archivo");
    assert_eq!(t(T::Exit, Language::Spanish), "Salir");
    assert_eq!(t(T::About, Language::Spanish), "Acerca de");
}

#[test]
fn test_security_translations() {
    assert_eq!(t(T::SecurityNone, Language::English), "None (No Security)");
    assert_eq!(t(T::SecurityNone, Language::Spanish), "Ninguna (Sin seguridad)");
}

#[test]
fn test_translate_good_fallback() {
    assert_eq!(translate_status_code(0x00000007), "Good (0x00000007)");
}
