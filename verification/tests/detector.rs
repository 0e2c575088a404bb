use translators::detector;
use translators::detector::Detectors;
use translators::languages::Language;

#[test]
fn test_detector() {
    let text = "Hallo Welt";
    let lang = detector::detect_language(text, &Detectors::Whatlang).unwrap();
    println!("{:?}", lang);
}

#[test]
fn detector_finds_german() {
    let text = "Dies ist ein kurzer Test, der zeigt, dass die Erkennung funktioniert.";
    let lang = detector::detect_language(text, &Detectors::Whatlang).unwrap();
    assert_eq!(lang, Language::German);
}

#[test]
fn detector_without_backend_errors() {
    let r = detector::detect_language("Hallo Welt", &Detectors::Lingua);
    assert!(r.is_err());
}
