use glslang::callbacks::{
    marshal_include_result, resolve_include, IncludeHandler, IncludeResult, IncludeType,
};

#[test]
fn resolved_text_is_handed_over_nul_terminated() {
    let r = IncludeResult {
        name: "included_macro".to_string(),
        data: "#define INCLUDED_MACRO 0.0".to_string(),
    };
    let m = marshal_include_result(Some(r)).expect("marshaled");
    assert_eq!(m.name, b"included_macro\0".to_vec());
    assert_eq!(m.data, b"#define INCLUDED_MACRO 0.0\0".to_vec());
    assert_eq!(m.length, "#define INCLUDED_MACRO 0.0".len());
}

#[test]
fn no_answer_yields_no_result() {
    assert_eq!(marshal_include_result(None), None);
}

#[test]
fn embedded_terminators_yield_no_result() {
    let r = IncludeResult {
        name: "na\0me".to_string(),
        data: "data".to_string(),
    };
    assert_eq!(marshal_include_result(Some(r)), None);
    let r = IncludeResult {
        name: "name".to_string(),
        data: "da\0ta".to_string(),
    };
    assert_eq!(marshal_include_result(Some(r)), None);
}

struct RecordingHandler {
    headers_seen: Vec<String>,
    answer: Option<IncludeResult>,
}

impl IncludeHandler for RecordingHandler {
    fn resolve(
        &mut self,
        _ty: IncludeType,
        header_name: &str,
        _includer_name: &str,
        _depth: usize,
    ) -> Option<IncludeResult> {
        self.headers_seen.push(header_name.to_string());
        self.answer.clone()
    }
}

#[test]
fn the_handler_sees_the_header_name_and_its_answer_crosses() {
    let mut handler = RecordingHandler {
        headers_seen: vec![],
        answer: Some(IncludeResult {
            name: "included_macro".to_string(),
            data: "#define INCLUDED_MACRO 0.0".to_string(),
        }),
    };
    let m = resolve_include(
        &mut handler,
        IncludeType::Local,
        "custom_header.glsl",
        "shader.frag",
        1,
    )
    .expect("marshaled");
    assert_eq!(handler.headers_seen.len(), 1);
    assert_eq!(handler.headers_seen[0], "custom_header.glsl");
    assert_eq!(m.data, b"#define INCLUDED_MACRO 0.0\0".to_vec());
    assert_eq!(m.length, 26);
}

#[test]
fn a_declining_handler_yields_no_result() {
    let mut handler = RecordingHandler {
        headers_seen: vec![],
        answer: None,
    };
    let m = resolve_include(
        &mut handler,
        IncludeType::System,
        "missing.glsl",
        "shader.frag",
        2,
    );
    assert!(m.is_none());
    assert_eq!(handler.headers_seen, vec!["missing.glsl".to_string()]);
}
