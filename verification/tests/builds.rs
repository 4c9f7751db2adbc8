use ezgl::{
    debug_message_line, debug_severity_label, debug_type_label, BufferTarget, BufferUsageHint,
    DrawElementsType, DrawMode, EzGl, InfoLogStep, ProgramBuildStep, ProgramObject,
    ProgramOutcome, ShaderBuildStep, ShaderObject, ShaderType, VertexAttribPointerTy,
};
use gl_constants::{
    GL_DEBUG_SEVERITY_NOTIFICATION, GL_DEBUG_SOURCE_API, GL_DEBUG_TYPE_OTHER, GL_FRAGMENT_SHADER,
    GL_TRIANGLES, GL_UNSIGNED_INT, GL_VERTEX_SHADER,
};

const VERTEX_SOURCE: &str = "#version 310 es\nvoid main() { gl_Position = vec4(0.0); }\n";
const FRAGMENT_SOURCE: &str = "#version 310 es\nvoid main() { }\n";
const FRAGMENT_WITHOUT_MAIN: &str = "#version 310 es\nout vec4 color;\n";

/// A driver that allocates identifiers in order, compiles a source if it
/// defines `main`, and keeps count of what it created and deleted.
struct StubDriver {
    next_id: u32,
    shader_ids_left: u32,
    program_ids_left: u32,
    link_succeeds: bool,
    shader_types: Vec<(u32, u32)>,
    shader_logs: Vec<(u32, String)>,
    created: Vec<u32>,
    deleted: Vec<u32>,
    attached: Vec<(u32, u32)>,
    log_fetches: u32,
}

impl StubDriver {
    fn new() -> StubDriver {
        StubDriver {
            next_id: 1,
            shader_ids_left: u32::MAX,
            program_ids_left: u32::MAX,
            link_succeeds: true,
            shader_types: Vec::new(),
            shader_logs: Vec::new(),
            created: Vec::new(),
            deleted: Vec::new(),
            attached: Vec::new(),
            log_fetches: 0,
        }
    }

    fn allocate(&mut self) -> u32 {
        let id = self.next_id;
        self.next_id += 1;
        self.created.push(id);
        id
    }

    fn create_shader(&mut self, shader_type: u32) -> u32 {
        if self.shader_ids_left == 0 {
            return 0;
        }
        self.shader_ids_left -= 1;
        let id = self.allocate();
        self.shader_types.push((id, shader_type));
        id
    }

    fn create_program(&mut self) -> u32 {
        if self.program_ids_left == 0 {
            return 0;
        }
        self.program_ids_left -= 1;
        self.allocate()
    }

    fn compile(&mut self, shader: u32, source: &str) -> i32 {
        if source.contains("void main") {
            self.shader_logs.push((shader, String::new()));
            1
        } else {
            self.shader_logs.push((shader, String::from("ERROR: 0:1: 'main' : missing\0")));
            0
        }
    }

    fn link(&mut self, program: u32, vertex: u32, fragment: u32) -> i32 {
        self.attached.push((program, vertex));
        self.attached.push((program, fragment));
        if self.link_succeeds {
            1
        } else {
            0
        }
    }

    fn log_of(&self, object: u32) -> Vec<u8> {
        for (shader, log) in &self.shader_logs {
            if *shader == object {
                return log.clone().into_bytes();
            }
        }
        if self.link_succeeds {
            Vec::new()
        } else {
            b"error: vertex and fragment stages do not match\0".to_vec()
        }
    }

    /// Writes the log without its terminator into `buffer`, as the driver
    /// does, and returns the count of bytes written.
    fn fetch_log(&mut self, object: u32, buffer: &mut [u8]) -> i32 {
        self.log_fetches += 1;
        let log = self.log_of(object);
        let count = log.len().saturating_sub(1).min(buffer.len());
        buffer[..count].copy_from_slice(&log[..count]);
        count as i32
    }

    fn delete(&mut self, id: u32) {
        self.deleted.push(id);
    }

    fn live(&self) -> Vec<u32> {
        self.created.iter().copied().filter(|id| !self.deleted.contains(id)).collect()
    }
}

fn read_log(driver: &mut StubDriver, step: InfoLogStep) -> String {
    match step {
        InfoLogStep::Finished(text) => text,
        InfoLogStep::Fetch(fetch, awaiting) => {
            assert_eq!(fetch.buffer_size as usize, fetch.capacity);
            let mut buffer = vec![0u8; fetch.capacity];
            let written = driver.fetch_log(fetch.object, &mut buffer);
            assert!(awaiting.accepts(&buffer, written));
            awaiting.resume(&buffer, written)
        }
    }
}

fn shader_log(driver: &mut StubDriver, shader: &ShaderObject) -> String {
    let length = driver.log_of(shader.id()).len() as i32;
    read_log(driver, EzGl::get_shader_info_log(shader, length))
}

fn program_log(driver: &mut StubDriver, program: &ProgramObject) -> String {
    let length = driver.log_of(program.id()).len() as i32;
    read_log(driver, EzGl::get_program_info_log(program, length))
}

fn build_shader(
    driver: &mut StubDriver,
    shader_type: ShaderType,
    source: &str,
) -> Result<ShaderObject, String> {
    let mut step = EzGl::create_shader_with_source(shader_type);
    loop {
        step = match step {
            ShaderBuildStep::Allocate(asked, awaiting) => {
                assert_eq!(asked, shader_type);
                awaiting.resume(driver.create_shader(asked.gl_enum()))
            }
            ShaderBuildStep::Compile(shader, awaiting) => {
                assert_eq!(shader, awaiting.shader.id());
                let upload = EzGl::set_shader_source(&awaiting.shader, source);
                assert_eq!((upload.shader, upload.count), (shader, 1));
                assert_eq!(upload.length as usize, source.len());
                let status = driver.compile(shader, source);
                awaiting.resume(EzGl::get_shader_compile_success(status))
            }
            ShaderBuildStep::ReadLog(shader, awaiting) => {
                assert_eq!(shader, awaiting.shader.id());
                let log = shader_log(driver, &awaiting.shader);
                awaiting.resume(log)
            }
            ShaderBuildStep::Finished(Ok(shader)) => return Ok(shader),
            ShaderBuildStep::Finished(Err(failure)) => {
                if let Some(shader) = failure.discard {
                    driver.delete(EzGl::delete_shader(shader));
                }
                return Err(failure.diagnostic);
            }
        }
    }
}

fn build_program(
    driver: &mut StubDriver,
    vertex_source: &str,
    fragment_source: &str,
) -> Result<ProgramObject, String> {
    let mut step = EzGl::create_vertex_fragment_program();
    loop {
        step = match step {
            ProgramBuildStep::BuildVertexShader(shader_type, awaiting) => {
                awaiting.resume(build_shader(driver, shader_type, vertex_source))
            }
            ProgramBuildStep::BuildFragmentShader(shader_type, awaiting) => {
                awaiting.resume(build_shader(driver, shader_type, fragment_source))
            }
            ProgramBuildStep::Allocate(awaiting) => awaiting.resume(driver.create_program()),
            ProgramBuildStep::Link(request, awaiting) => {
                let status = driver.link(request.program, request.vertex, request.fragment);
                awaiting.resume(EzGl::get_program_link_success(status))
            }
            ProgramBuildStep::ReadLog(program, awaiting) => {
                assert_eq!(program, awaiting.program.id());
                let log = program_log(driver, &awaiting.program);
                awaiting.resume(log)
            }
            ProgramBuildStep::Finished(ProgramOutcome::Linked { program, .. }) => {
                return Ok(program)
            }
            ProgramBuildStep::Finished(ProgramOutcome::Failed {
                diagnostic,
                vertex,
                fragment,
                program,
            }) => {
                if let Some(program) = program {
                    driver.delete(EzGl::delete_program(program));
                }
                if let Some(fragment) = fragment {
                    driver.delete(EzGl::delete_shader(fragment));
                }
                if let Some(vertex) = vertex {
                    driver.delete(EzGl::delete_shader(vertex));
                }
                return Err(diagnostic);
            }
        }
    }
}

#[test]
fn a_shader_that_compiles_is_the_result_of_its_build() {
    let mut driver = StubDriver::new();
    let shader = build_shader(&mut driver, ShaderType::VertexShader, VERTEX_SOURCE).unwrap();
    assert_eq!(shader.id(), 1);
    assert_eq!(driver.shader_types, vec![(1, GL_VERTEX_SHADER)]);
    assert_eq!(driver.live(), vec![1]);
    assert_eq!(driver.log_fetches, 0);
}

#[test]
fn a_shader_that_fails_to_compile_is_deleted_and_its_log_returned() {
    let mut driver = StubDriver::new();
    let failure =
        build_shader(&mut driver, ShaderType::FragmentShader, FRAGMENT_WITHOUT_MAIN).unwrap_err();
    assert_eq!(failure, "ERROR: 0:1: 'main' : missing");
    assert_eq!(driver.shader_types, vec![(1, GL_FRAGMENT_SHADER)]);
    assert_eq!(driver.created, vec![1]);
    assert_eq!(driver.deleted, vec![1]);
    assert_eq!(driver.log_fetches, 1);
}

#[test]
fn a_driver_without_shader_identifiers_fails_the_build_with_the_fixed_text() {
    let mut driver = StubDriver::new();
    driver.shader_ids_left = 0;
    let failure = build_shader(&mut driver, ShaderType::VertexShader, VERTEX_SOURCE).unwrap_err();
    assert_eq!(failure, "Couldn't create a new shader ID.");
    assert!(driver.created.is_empty());
    assert!(driver.deleted.is_empty());
}

#[test]
fn each_step_of_a_shader_build_names_the_next_request() {
    let ShaderBuildStep::Allocate(asked, awaiting) =
        EzGl::create_shader_with_source(ShaderType::GeometryShader)
    else {
        panic!("a build starts by asking for a shader object");
    };
    assert_eq!(asked, ShaderType::GeometryShader);
    let ShaderBuildStep::Compile(shader, awaiting) = awaiting.resume(9) else {
        panic!("a new shader is compiled next");
    };
    assert_eq!(shader, 9);
    let ShaderBuildStep::ReadLog(shader, awaiting) = awaiting.resume(false) else {
        panic!("the log of a failed compile is read next");
    };
    assert_eq!(shader, 9);
    let ShaderBuildStep::Finished(Err(failure)) = awaiting.resume(String::from("bad")) else {
        panic!("the log ends the build");
    };
    assert_eq!(failure.diagnostic, "bad");
    assert_eq!(failure.discard.unwrap().id(), 9);
}

#[test]
fn two_shaders_that_compile_link_into_a_program() {
    let mut driver = StubDriver::new();
    let program = build_program(&mut driver, VERTEX_SOURCE, FRAGMENT_SOURCE).unwrap();
    assert_eq!(program.id(), 3);
    assert_eq!(driver.shader_types, vec![(1, GL_VERTEX_SHADER), (2, GL_FRAGMENT_SHADER)]);
    assert_eq!(driver.attached, vec![(3, 1), (3, 2)]);
    assert!(driver.deleted.is_empty());
    assert_eq!(driver.log_fetches, 0);
}

#[test]
fn an_invalid_fragment_source_fails_the_build_and_leaves_nothing_behind() {
    let mut driver = StubDriver::new();
    let failure = build_program(&mut driver, VERTEX_SOURCE, FRAGMENT_WITHOUT_MAIN).unwrap_err();
    assert!(!failure.is_empty());
    assert_eq!(failure, "ERROR: 0:1: 'main' : missing");
    assert_eq!(driver.created.len(), 2);
    assert_eq!(driver.created.len(), driver.deleted.len());
    assert!(driver.live().is_empty());
    assert!(driver.attached.is_empty());
}

#[test]
fn an_invalid_vertex_source_fails_the_build_before_the_fragment_shader() {
    let mut driver = StubDriver::new();
    let failure = build_program(&mut driver, "int x;", FRAGMENT_SOURCE).unwrap_err();
    assert_eq!(failure, "ERROR: 0:1: 'main' : missing");
    assert_eq!(driver.shader_types, vec![(1, GL_VERTEX_SHADER)]);
    assert!(driver.live().is_empty());
}

#[test]
fn the_first_failure_is_the_one_reported() {
    let mut driver = StubDriver::new();
    driver.link_succeeds = false;
    let failure = build_program(&mut driver, "int x;", FRAGMENT_WITHOUT_MAIN).unwrap_err();
    assert_eq!(failure, "ERROR: 0:1: 'main' : missing");
    assert_eq!(driver.created, vec![1]);
    assert_eq!(driver.deleted, vec![1]);
}

#[test]
fn a_driver_without_program_identifiers_fails_the_build_and_both_shaders_go() {
    let mut driver = StubDriver::new();
    driver.program_ids_left = 0;
    let failure = build_program(&mut driver, VERTEX_SOURCE, FRAGMENT_SOURCE).unwrap_err();
    assert_eq!(failure, "Couldn't create a new program ID.");
    assert_eq!(driver.created, vec![1, 2]);
    assert!(driver.live().is_empty());
}

#[test]
fn a_driver_that_runs_out_of_shader_identifiers_after_the_first() {
    let mut driver = StubDriver::new();
    driver.shader_ids_left = 1;
    let failure = build_program(&mut driver, VERTEX_SOURCE, FRAGMENT_SOURCE).unwrap_err();
    assert_eq!(failure, "Couldn't create a new shader ID.");
    assert_eq!(driver.created, vec![1]);
    assert_eq!(driver.deleted, vec![1]);
}

#[test]
fn a_program_that_fails_to_link_is_deleted_with_its_shaders() {
    let mut driver = StubDriver::new();
    driver.link_succeeds = false;
    let failure = build_program(&mut driver, VERTEX_SOURCE, FRAGMENT_SOURCE).unwrap_err();
    assert_eq!(failure, "error: vertex and fragment stages do not match");
    assert_eq!(driver.created, vec![1, 2, 3]);
    assert_eq!(driver.deleted, vec![3, 2, 1]);
    assert!(driver.live().is_empty());
    assert_eq!(driver.log_fetches, 1);
}

#[test]
fn an_empty_log_is_the_empty_text_and_nothing_is_fetched() {
    let shader = EzGl::create_shader(4).unwrap();
    match EzGl::get_shader_info_log(&shader, 0) {
        InfoLogStep::Finished(text) => assert_eq!(text, ""),
        InfoLogStep::Fetch(..) => panic!("an empty log is not fetched"),
    }
    let program = EzGl::create_program(5).unwrap();
    match EzGl::get_program_info_log(&program, 0) {
        InfoLogStep::Finished(text) => assert!(text.is_empty()),
        InfoLogStep::Fetch(..) => panic!("an empty log is not fetched"),
    }
}

#[test]
fn a_log_is_fetched_into_a_buffer_of_exactly_its_length() {
    let shader = EzGl::create_shader(4).unwrap();
    let InfoLogStep::Fetch(fetch, awaiting) = EzGl::get_shader_info_log(&shader, 12) else {
        panic!("a log of 12 bytes is fetched");
    };
    assert_eq!(fetch.object, 4);
    assert_eq!(fetch.buffer_size, 12);
    assert_eq!(fetch.capacity, 12);
    assert_eq!(awaiting.capacity, 12);
    let program = EzGl::create_program(6).unwrap();
    let InfoLogStep::Fetch(fetch, _) = EzGl::get_program_info_log(&program, 1) else {
        panic!("a log of 1 byte is fetched");
    };
    assert_eq!(fetch.object, 6);
    assert_eq!(fetch.capacity, 1);
}

#[test]
fn the_text_of_a_log_is_read_from_the_bytes_written_only() {
    let shader = EzGl::create_shader(4).unwrap();
    let InfoLogStep::Fetch(_, awaiting) = EzGl::get_shader_info_log(&shader, 8) else {
        panic!("a log of 8 bytes is fetched");
    };
    let buffer = *b"syntax!\0";
    assert!(awaiting.accepts(&buffer, 7));
    assert_eq!(awaiting.resume(&buffer, 7), "syntax!");
    let InfoLogStep::Fetch(_, awaiting) = EzGl::get_shader_info_log(&shader, 8) else {
        panic!("a log of 8 bytes is fetched");
    };
    assert_eq!(awaiting.resume(&buffer, 0), "");
    let InfoLogStep::Fetch(_, awaiting) = EzGl::get_shader_info_log(&shader, 8) else {
        panic!("a log of 8 bytes is fetched");
    };
    assert_eq!(awaiting.resume(&buffer, 8), "syntax!\0");
}

#[test]
fn a_log_that_is_not_utf8_is_still_read() {
    let program = EzGl::create_program(9).unwrap();
    let InfoLogStep::Fetch(_, awaiting) = EzGl::get_program_info_log(&program, 4) else {
        panic!("a log of 4 bytes is fetched");
    };
    assert_eq!(awaiting.resume(&[b'l', 0xC0, b'k', 0], 3), "l\u{FFFD}k");
}

#[test]
fn a_count_outside_the_buffer_is_not_accepted() {
    let shader = EzGl::create_shader(4).unwrap();
    let InfoLogStep::Fetch(_, awaiting) = EzGl::get_shader_info_log(&shader, 8) else {
        panic!("a log of 8 bytes is fetched");
    };
    let buffer = [0u8; 8];
    assert!(awaiting.accepts(&buffer, 0));
    assert!(awaiting.accepts(&buffer, 8));
    assert!(!awaiting.accepts(&buffer, 9));
    assert!(!awaiting.accepts(&buffer, -1));
    assert!(!awaiting.accepts(&buffer[..4], 5));
    assert!(!awaiting.accepts(&[0u8; 16], 9));
}

#[test]
fn a_quad_is_built_uploaded_and_drawn_without_an_error_message() {
    let mut driver = StubDriver::new();
    let vao = EzGl::gen_vertex_array(driver.allocate()).unwrap();
    let vertices = EzGl::gen_buffer(driver.allocate()).unwrap();
    let elements = EzGl::gen_buffer(driver.allocate()).unwrap();
    assert_eq!((vao.id(), vertices.id(), elements.id()), (1, 2, 3));

    let quad: [f32; 20] = [
        0.5, 0.5, 0.0, 1.0, 1.0, 0.5, -0.5, 0.0, 1.0, 0.0, -0.5, -0.5, 0.0, 0.0, 0.0, -0.5, 0.5,
        0.0, 0.0, 1.0,
    ];
    let indices: [[u32; 3]; 2] = [[0, 1, 3], [1, 2, 3]];
    let vertex_bytes: Vec<u8> = quad.iter().flat_map(|f| f.to_ne_bytes()).collect();
    let index_bytes: Vec<u8> = indices.iter().flatten().flat_map(|i| i.to_ne_bytes()).collect();

    let upload =
        EzGl::buffer_data(BufferTarget::ArrayBuffer, &vertex_bytes, BufferUsageHint::StaticDraw);
    assert_eq!(upload.size, 80);
    let upload = EzGl::buffer_data(
        BufferTarget::ElementArrayBuffer,
        &index_bytes,
        BufferUsageHint::StaticDraw,
    );
    assert_eq!(upload.size, 24);

    let position = EzGl::vertex_attrib_f32_pointer(VertexAttribPointerTy::Float3, 0, 20, 0);
    let uv = EzGl::vertex_attrib_f32_pointer(VertexAttribPointerTy::Float2, 1, 20, 12);
    assert_eq!((position.size, position.stride, position.offset), (3, 20, 0));
    assert_eq!((uv.size, uv.stride, uv.offset), (2, 20, 12));

    let program = build_program(&mut driver, VERTEX_SOURCE, FRAGMENT_SOURCE).unwrap();
    assert_ne!(program.id(), 0);

    let range = 0..6;
    assert!(EzGl::draw_elements_accepts(&range));
    let draw = EzGl::draw_elements(DrawElementsType::U32, DrawMode::Triangles, range);
    assert_eq!((draw.mode, draw.count, draw.index_type), (GL_TRIANGLES, 6, GL_UNSIGNED_INT));
    assert_eq!(draw.offset, 0);

    let reported = [(GL_DEBUG_TYPE_OTHER, GL_DEBUG_SEVERITY_NOTIFICATION, "buffer in video memory")];
    assert!(reported.len() <= 1);
    for (ty, severity, text) in reported {
        assert_eq!(debug_severity_label(severity), "Note");
        assert_ne!(debug_type_label(ty), "Error");
        let line = debug_message_line(GL_DEBUG_SOURCE_API, ty, 131_185, severity, text.as_bytes());
        assert_eq!(line, "API>OtherTy>131185>Note>buffer in video memory");
    }
}
