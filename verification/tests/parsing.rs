use glslang::{GlslProfile, GlslangError, ShaderSource};

fn profile_of(text: &str) -> Option<(i32, GlslProfile)> {
    ShaderSource::from(text).expect("source").parse_profile()
}

#[test]
fn plain_version_is_parsed() {
    assert_eq!(
        profile_of("#version 450\nvoid main() {}\n"),
        Some((450, GlslProfile::NoProfile))
    );
}

#[test]
fn es_profile_is_parsed() {
    assert_eq!(profile_of("#version 310 es"), Some((310, GlslProfile::ES)));
}

#[test]
fn core_profile_is_parsed() {
    assert_eq!(
        profile_of("#version 450 core\n"),
        Some((450, GlslProfile::Core))
    );
}

#[test]
fn compatibility_profile_is_parsed() {
    assert_eq!(
        profile_of("#version 110 compatibility\n"),
        Some((110, GlslProfile::Compatibility))
    );
}

#[test]
fn leading_blank_lines_are_skipped() {
    assert_eq!(
        profile_of("\n\n   \t\n  #version 330\nvoid main() {}\n"),
        Some((330, GlslProfile::NoProfile))
    );
}

#[test]
fn trailing_spaces_on_the_line_are_trimmed() {
    assert_eq!(
        profile_of("#version 300 es   \r\nvoid main() {}\n"),
        Some((300, GlslProfile::ES))
    );
}

#[test]
fn repeated_directive_prefix_is_stripped() {
    assert_eq!(
        profile_of("#version #version 300 es\n"),
        Some((300, GlslProfile::ES))
    );
}

#[test]
fn missing_directive_yields_nothing() {
    assert_eq!(profile_of(""), None);
    assert_eq!(profile_of("void main() {}\n"), None);
    assert_eq!(profile_of("// a comment\n#version 450\n"), None);
    assert_eq!(profile_of("   \n \t \n"), None);
}

#[test]
fn malformed_version_numbers_yield_nothing() {
    assert_eq!(profile_of("#version 45\n"), None);
    assert_eq!(profile_of("#version 4500\n"), None);
    assert_eq!(profile_of("#version abc\n"), None);
    assert_eq!(profile_of("#version  450\n"), None);
    assert_eq!(profile_of("#version\n"), None);
}

#[test]
fn unknown_profile_word_yields_nothing() {
    assert_eq!(profile_of("#version 450 weird\n"), None);
    assert_eq!(profile_of("#version 450 CORE\n"), None);
}

#[test]
fn source_text_refuses_embedded_terminator() {
    let r = ShaderSource::from("#version 450\0\n");
    assert_eq!(r.unwrap_err(), GlslangError::InvalidSourceText);
}

#[test]
fn source_text_keeps_its_bytes() {
    let s = ShaderSource::from("#version 450\n").expect("source");
    assert_eq!(s.text(), "#version 450\n".as_bytes());
    assert_eq!(s.len(), 13);
}
