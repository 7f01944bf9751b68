use raymarch_scene::camera::{process_keyboard, BasisVector, MoveStep};
use raymarch_scene::shader::{array_element_name, extract_defines, Shader, ShaderType};

fn step(along: BasisVector, positive: bool) -> Option<MoveStep> {
    Some(MoveStep { along, positive })
}

#[test]
fn keyboard_directions() {
    assert_eq!(process_keyboard("FORWARD"), step(BasisVector::Front, true));
    assert_eq!(process_keyboard("BACKWARD"), step(BasisVector::Front, false));
    assert_eq!(process_keyboard("LEFT"), step(BasisVector::Right, false));
    assert_eq!(process_keyboard("RIGHT"), step(BasisVector::Right, true));
    assert_eq!(process_keyboard("UP"), step(BasisVector::Up, true));
    assert_eq!(process_keyboard("DOWN"), step(BasisVector::Up, false));
}

#[test]
fn unknown_direction_is_ignored() {
    assert_eq!(process_keyboard("forward"), None);
    assert_eq!(process_keyboard(""), None);
    assert_eq!(process_keyboard("JUMP"), None);
}

fn pairs(v: &[(String, String)]) -> Vec<(&str, &str)> {
    v.iter().map(|(a, b)| (a.as_str(), b.as_str())).collect()
}

#[test]
fn extract_defines_reads_each_line() {
    let code = "#version 430\n#define SSBO_SIZE 512\nvoid main() {}\n#define  MIX  a  b   c\n";
    let d = extract_defines(code);
    assert_eq!(pairs(&d), vec![("SSBO_SIZE", "512"), ("MIX", "a b c")]);
}

#[test]
fn extract_defines_edge_cases() {
    assert!(extract_defines("").is_empty());
    assert!(extract_defines("#version 430\nvoid main() {}\n").is_empty());
    assert_eq!(pairs(&extract_defines("#define FLAG")), vec![("FLAG", "")]);
    assert_eq!(pairs(&extract_defines("#define \n#define B 2")), vec![("", ""), ("B", "2")]);
    assert_eq!(pairs(&extract_defines("x #define A 1\n")), vec![("A", "1")]);
}

#[test]
fn shader_define_table() {
    let mut s = Shader::new(
        "#version 430\n#define A 1\n".to_string(),
        "#version 430\n#define B 2\n#define C 3\n".to_string(),
    );
    assert_eq!(s.id, 0);
    assert!(!s.is_compiled());
    assert_eq!(s.get_define("A", ShaderType::Vertex), Some("1"));
    assert_eq!(s.get_define("A", ShaderType::Fragment), None);
    assert_eq!(s.get_define("C", ShaderType::Fragment), Some("3"));

    s.add_define("SSBO_SIZE", "512", ShaderType::Fragment);
    assert_eq!(s.get_define("SSBO_SIZE", ShaderType::Fragment), Some("512"));
    assert_eq!(s.get_define("SSBO_SIZE", ShaderType::Vertex), None);
    assert_eq!(s.source(ShaderType::Fragment), "#version 430\n#define B 2\n#define C 3\n");

    s.add_define("A", "9", ShaderType::Vertex);
    assert_eq!(s.get_define("A", ShaderType::Vertex), Some("1"));
    s.remove_define("A", ShaderType::Vertex);
    assert_eq!(s.get_define("A", ShaderType::Vertex), None);
    assert_eq!(s.get_define("B", ShaderType::Fragment), Some("2"));

    s.set_program_id(7);
    assert_eq!(s.id, 7);
    assert_eq!(s.source(ShaderType::Vertex), "#version 430\n#define A 1\n");
}

#[test]
fn defines_split_on_any_whitespace() {
    let d = extract_defines("#define TAB\tx\u{3000}y\r\n#define N\u{e9} caf\u{e9} ol\u{e9}\n");
    assert_eq!(pairs(&d), vec![("TAB", "x y"), ("N\u{e9}", "caf\u{e9} ol\u{e9}")]);
    assert!(extract_defines("#define\tX 1\n").is_empty());
}

#[test]
fn uniform_array_element_names() {
    assert_eq!(array_element_name("lights", 0), "lights[0]");
    assert_eq!(array_element_name("lights", 7), "lights[7]");
    assert_eq!(array_element_name("objects", 10), "objects[10]");
    assert_eq!(array_element_name("x", 4096), "x[4096]");
    assert_eq!(array_element_name("", usize::MAX), format!("[{}]", usize::MAX));
}
