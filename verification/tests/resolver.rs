//! Module resolution: manifest handling, file-module resolution,
//! the inclusion filter, and the accumulated backend output.

use std::cell::RefCell;

use rua_gen::config::RuaConfig;
use rua_gen::dart::RuaDart;
use rua_gen::errors::{RuaError, RuaFsError};
use rua_gen::logic::{DeclRef, Module, Rua, RuaFrontEnd, RuaModuleType, RuaRunner, SkipReason};
use rua_gen::models::RuaStruct;
use rua_gen::nodes::{
    EnumNode, FieldsNode, FileNode, FnNode, ItemNode, ModNode, Span, StructNode,
};

fn sp(line: usize) -> Span {
    Span { start_line: line, start_col: 0, end_line: line, end_col: 1 }
}

fn unit_struct(name: &str, is_pub: bool, attrs: Vec<String>) -> ItemNode {
    ItemNode::Struct {
        s: StructNode {
            name: name.to_string(),
            fields: FieldsNode::Unit,
            is_pub,
            attrs,
            span: sp(1),
        },
    }
}

fn mod_item(name: &str, is_pub: bool) -> ItemNode {
    ItemNode::Mod {
        m: ModNode { name: name.to_string(), is_pub, attrs: vec![], span: sp(1) },
    }
}

fn empty_fn(name: &str, is_pub: bool) -> ItemNode {
    ItemNode::Fn {
        f: FnNode {
            name: name.to_string(),
            params: vec![],
            ret: None,
            is_pub,
            attrs: vec![],
            span: sp(1),
        },
    }
}

fn unit_enum(name: &str, is_pub: bool) -> ItemNode {
    ItemNode::Enum {
        e: EnumNode {
            name: name.to_string(),
            variants: vec![],
            is_pub,
            attrs: vec![],
            span: sp(1),
        },
    }
}

/// A backend over an in-memory filesystem. Files map a path to a
/// content marker; the front end maps markers to node trees.
struct TestBackend {
    entry: String,
    files: Vec<(String, String)>,
    reads: RefCell<Vec<String>>,
    marker_attr: Option<String>,
    written_structs: RefCell<Vec<(String, Result<RuaStruct, String>)>>,
    written_enums: RefCell<Vec<String>>,
    written_fns: RefCell<Vec<String>>,
    written_roots: RefCell<Vec<String>>,
}

impl TestBackend {
    fn new(entry: &str, files: Vec<(&str, &str)>) -> TestBackend {
        TestBackend {
            entry: entry.to_string(),
            files: files
                .into_iter()
                .map(|(p, c)| (p.to_string(), c.to_string()))
                .collect(),
            reads: RefCell::new(vec![]),
            marker_attr: None,
            written_structs: RefCell::new(vec![]),
            written_enums: RefCell::new(vec![]),
            written_fns: RefCell::new(vec![]),
            written_roots: RefCell::new(vec![]),
        }
    }
}

impl Rua for TestBackend {
    fn entry_path(&self) -> String {
        self.entry.clone()
    }

    fn read_file(&self, path: &str) -> Result<String, String> {
        self.reads.borrow_mut().push(path.to_string());
        for (p, c) in &self.files {
            if p == path {
                return Ok(c.clone());
            }
        }
        Err(format!("no such file: {}", path))
    }

    fn file_exists(&self, path: &str) -> bool {
        self.files.iter().any(|(p, _)| p == path)
    }

    fn should_include(&self, item: DeclRef<'_>) -> bool {
        match &self.marker_attr {
            None => true,
            Some(a) => item.has_attr(a.as_str()),
        }
    }

    fn write_fn(&mut self, m: &Module, f: &FnNode) {
        self.written_roots.borrow_mut().push(m.root_path().clone());
        self.written_fns.borrow_mut().push(f.name.clone());
    }

    fn write_struct(&mut self, m: &Module, s: &StructNode) {
        self.written_roots.borrow_mut().push(m.root_path().clone());
        let converted =
            RuaStruct::try_from_struct_node(s).map_err(|e| e.render());
        self.written_structs
            .borrow_mut()
            .push((s.name.clone(), converted));
    }

    fn write_enum(&mut self, m: &Module, e: &EnumNode) {
        self.written_roots.borrow_mut().push(m.root_path().clone());
        self.written_enums.borrow_mut().push(e.name.clone());
    }
}

/// A front end that maps content markers to prebuilt node trees.
struct TestFrontEnd;

impl RuaFrontEnd for TestFrontEnd {
    fn parse(&self, text: &str) -> Result<FileNode, String> {
        match text {
            "EMPTY" => Ok(FileNode { items: vec![] }),
            "UNIT_AND_HIDDEN" => Ok(FileNode {
                items: vec![
                    unit_struct("S", true, vec![]),
                    unit_struct("Hidden", false, vec![]),
                ],
            }),
            "MOD_FOO_THEN_STRUCT" => Ok(FileNode {
                items: vec![mod_item("foo", true), unit_struct("After", true, vec![])],
            }),
            "PRIVATE_MOD" => Ok(FileNode { items: vec![mod_item("inner", false)] }),
            "MIXED_DECLS" => Ok(FileNode {
                items: vec![
                    unit_struct("Marked", true, vec!["rua".to_string()]),
                    unit_struct("Unmarked", true, vec![]),
                    empty_fn("run_it", true),
                    unit_enum("Mode", true),
                ],
            }),
            "BROKEN" => Err("expected item".to_string()),
            other => Err(format!("unknown marker: {}", other)),
        }
    }
}

#[test]
fn package_manifest_round_trips_one_unit_struct() {
    let backend = TestBackend::new(
        "proj",
        vec![
            ("proj/Cargo.toml", "[package]\nname = \"demo\"\n"),
            ("proj/src/lib.rs", "UNIT_AND_HIDDEN"),
        ],
    );
    let mut runner = RuaRunner::new(backend, TestFrontEnd);
    runner.run().expect("run succeeds");

    let skipped = runner.skip_notes().clone();
    assert_eq!(skipped.len(), 1);
    assert_eq!(skipped[0].name, "Hidden");
    assert_eq!(skipped[0].reason, SkipReason::NotPublic);

    let written = runner.backend().written_structs.borrow();
    assert_eq!(written.len(), 1, "exactly one struct reaches the backend");
    let (name, converted) = &written[0];
    assert_eq!(name, "S");
    match converted.as_ref().expect("conversion succeeds") {
        RuaStruct::Unit(u) => assert_eq!(u.name.get_name(), "S"),
        other => panic!("expected a unit struct, got {:?}", other),
    }
    assert_eq!(
        runner.backend().written_roots.borrow().as_slice(),
        ["proj".to_string()]
    );
}

#[test]
fn missing_file_module_fails_naming_the_module() {
    let backend = TestBackend::new(
        "proj",
        vec![
            ("proj/Cargo.toml", "[package]\nname = \"demo\"\n"),
            ("proj/src/lib.rs", "MOD_FOO_THEN_STRUCT"),
        ],
    );
    let mut runner = RuaRunner::new(backend, TestFrontEnd);
    let err = runner.run().expect_err("missing module must fail the run");
    match err {
        RuaError::FsError(RuaFsError::FileNotFoundErr(name)) => assert_eq!(name, "foo"),
        other => panic!("expected file-not-found, got: {}", other.render()),
    }
    // No module file beyond the crate root was ever read.
    let reads = runner.backend().reads.borrow();
    assert_eq!(
        reads.as_slice(),
        ["proj/Cargo.toml".to_string(), "proj/src/lib.rs".to_string()]
    );
}

#[test]
fn workspace_manifest_resolves_each_member() {
    let backend = TestBackend::new(
        "ws",
        vec![
            ("ws/Cargo.toml", "[workspace]\nmembers = [\"a\", \"b\"]\n"),
            ("ws/a/src/lib.rs", "EMPTY"),
            ("ws/b/src/lib.rs", "EMPTY"),
        ],
    );
    let mut runner = RuaRunner::new(backend, TestFrontEnd);
    runner.run().expect("run succeeds");
    let reads = runner.backend().reads.borrow();
    assert_eq!(reads.len(), 3);
    assert_eq!(reads[0], "ws/Cargo.toml");
    assert!(reads.contains(&"ws/a/src/lib.rs".to_string()));
    assert!(reads.contains(&"ws/b/src/lib.rs".to_string()));
}

#[test]
fn parse_failure_carries_the_path() {
    let backend = TestBackend::new(
        "proj",
        vec![
            ("proj/Cargo.toml", "[package]\nname = \"demo\"\n"),
            ("proj/src/lib.rs", "BROKEN"),
        ],
    );
    let mut runner = RuaRunner::new(backend, TestFrontEnd);
    let err = runner.run().expect_err("parse failure aborts the run");
    match err {
        RuaError::ParseError(pe) => {
            assert_eq!(pe.path, "proj/src/lib.rs");
            assert_eq!(pe.err, "expected item");
        },
        other => panic!("expected parse error, got: {}", other.render()),
    }
}

#[test]
fn manifest_parse_failure_carries_the_path() {
    let backend = TestBackend::new(
        "proj",
        vec![("proj/Cargo.toml", "not [ valid toml")],
    );
    let mut runner = RuaRunner::new(backend, TestFrontEnd);
    let err = runner.run().expect_err("bad manifest aborts the run");
    match err {
        RuaError::ParseError(pe) => assert_eq!(pe.path, "proj/Cargo.toml"),
        other => panic!("expected parse error, got: {}", other.render()),
    }
}

#[test]
fn empty_manifest_yields_empty_module_set() {
    let backend = TestBackend::new(
        "proj",
        vec![("proj/Cargo.toml", "[dependencies]\nserde = \"1\"\n")],
    );
    let mut runner = RuaRunner::new(backend, TestFrontEnd);
    runner.run().expect("an empty module set is not an error");
}

#[test]
fn private_nested_modules_are_still_traversed() {
    let backend = TestBackend::new(
        "proj",
        vec![
            ("proj/Cargo.toml", "[package]\nname = \"demo\"\n"),
            ("proj/src/lib.rs", "PRIVATE_MOD"),
            ("proj/src/inner.rs", "EMPTY"),
        ],
    );
    let mut runner = RuaRunner::new(backend, TestFrontEnd);
    runner.run().expect("run succeeds");
    let skipped = runner.skip_notes().clone();
    assert_eq!(skipped.len(), 1);
    assert_eq!(skipped[0].name, "inner");
    assert_eq!(skipped[0].reason, SkipReason::PrivateModuleQueued);
    // The private module's file was still resolved and read.
    assert!(runner.backend().reads.borrow().contains(&"proj/src/inner.rs".to_string()));
}

#[test]
fn directory_module_convention_is_second_candidate() {
    let backend = TestBackend::new(
        "proj",
        vec![
            ("proj/Cargo.toml", "[package]\nname = \"demo\"\n"),
            ("proj/src/lib.rs", "PRIVATE_MOD"),
            ("proj/src/inner/mod.rs", "EMPTY"),
        ],
    );
    let mut runner = RuaRunner::new(backend, TestFrontEnd);
    runner.run().expect("run succeeds");
}

#[test]
fn marker_attribute_predicate_restricts_acceptance() {
    let mut backend = TestBackend::new(
        "proj",
        vec![
            ("proj/Cargo.toml", "[package]\nname = \"demo\"\n"),
            ("proj/src/lib.rs", "MIXED_DECLS"),
        ],
    );
    backend.marker_attr = Some("rua".to_string());
    let mut runner = RuaRunner::new(backend, TestFrontEnd);
    runner.run().expect("run succeeds");
    let skipped = runner.skip_notes().clone();
    let excluded: Vec<_> = skipped
        .iter()
        .filter(|n| n.reason == SkipReason::ExcludedByPredicate)
        .map(|n| n.name.clone())
        .collect();
    assert_eq!(excluded, vec!["Unmarked", "run_it", "Mode"]);
}

#[test]
fn module_value_carries_name_kind_and_root() {
    let m = Module {
        name: "demo".to_string(),
        ty: RuaModuleType::CrateModule,
        root_path: "proj".to_string(),
    };
    assert_eq!(m.name, "demo");
    assert_eq!(m.ty, RuaModuleType::CrateModule);
    assert_eq!(m.root_path(), "proj");
}

#[test]
fn config_defaults_and_setters() {
    let mut c = RuaConfig::default();
    assert_eq!(c.get_native_entry(), "native");
    assert_eq!(c.get_platform_entry(), "lib");
    c.set_native_entry("rust");
    c.set_platform_entry("flutter");
    assert_eq!(c.get_native_entry(), "rust");
    assert_eq!(c.get_platform_entry(), "flutter");
    assert_eq!(rua_gen::config::config_file_name(), "ruaconf.toml");

    let explicit = RuaConfig::new(
        "/tmp/x".to_string(),
        Some("n".to_string()),
        None,
    );
    assert_eq!(explicit.root_dir(), "/tmp/x");
    assert_eq!(explicit.get_native_entry(), "n");
    assert_eq!(explicit.get_platform_entry(), "lib");
}

#[test]
fn dart_backend_derives_names() {
    let mut dart = RuaDart::new(RuaConfig::default());
    assert_eq!(dart.entry_path(), "native");
    let m = Module {
        name: "geo".to_string(),
        ty: RuaModuleType::CrateModule,
        root_path: "native/geo".to_string(),
    };
    let f = FnNode {
        name: "find_path".to_string(),
        params: vec![],
        ret: None,
        is_pub: true,
        attrs: vec![],
        span: sp(1),
    };
    dart.write_fn(&m, &f);
    assert_eq!(dart.type_defs().as_slice(), ["GeoFindPath".to_string()]);
    assert_eq!(dart.fn_defs().as_slice(), ["geoFindPath".to_string()]);

    let s = StructNode {
        name: "WayPoint".to_string(),
        fields: FieldsNode::Unit,
        is_pub: true,
        attrs: vec![],
        span: sp(1),
    };
    dart.write_struct(&m, &s);
    assert_eq!(dart.class_defs().as_slice(), ["GeoWayPoint".to_string()]);

    let e = EnumNode {
        name: "Mode".to_string(),
        variants: vec![],
        is_pub: true,
        attrs: vec![],
        span: sp(1),
    };
    dart.write_enum(&m, &e);
    assert_eq!(dart.enum_defs().as_slice(), ["GeoMode".to_string()]);
}

#[test]
fn missing_manifest_is_a_read_failure() {
    let backend = TestBackend::new("proj", vec![]);
    let mut runner = RuaRunner::new(backend, TestFrontEnd);
    let err = runner.run().expect_err("a missing manifest aborts the run");
    match &err {
        RuaError::FsError(RuaFsError::ReadFileErr { path, err }) => {
            assert_eq!(path, "proj/Cargo.toml");
            assert_eq!(err, "no such file: proj/Cargo.toml");
        },
        other => panic!("expected read failure, got: {}", other.render()),
    }
    assert_eq!(
        err.render(),
        "failed to read proj/Cargo.toml: no such file: proj/Cargo.toml"
    );
}

#[test]
fn functions_and_enums_reach_their_own_handlers() {
    let backend = TestBackend::new(
        "proj",
        vec![
            ("proj/Cargo.toml", "[package]\nname = \"demo\"\n"),
            ("proj/src/lib.rs", "MIXED_DECLS"),
        ],
    );
    let mut runner = RuaRunner::new(backend, TestFrontEnd);
    runner.run().expect("run succeeds");
    assert_eq!(
        runner.backend().written_fns.borrow().as_slice(),
        ["run_it".to_string()]
    );
    assert_eq!(
        runner.backend().written_enums.borrow().as_slice(),
        ["Mode".to_string()]
    );
    let structs = runner.backend().written_structs.borrow();
    let names: Vec<&String> = structs.iter().map(|(n, _)| n).collect();
    assert_eq!(names, ["Marked", "Unmarked"]);
}
