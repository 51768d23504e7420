use qt_wrapper_generator::cmake::{BuildEnv, BuildOs, BuildType, CMakeVar, CppLibBuilder};
use qt_wrapper_generator::decl::{
    enum_declaration, flags_declaration, generate_type_declaration, only_c_code, only_cpp_code,
    struct_declaration,
};
use qt_wrapper_generator::generator::{filter_methods, generate_one, CGenerator, HeaderUnit};
use qt_wrapper_generator::model::{
    AllocationPlace, CArgumentRole, CFunctionArgument, CFunctionSignature, CppAndCMethod, CppMethod,
    CppMethodScope, CppType, CppTypeIndirection, CppTypeInfo, CppTypeKind, CType, CTypeExtended,
    EnumValue, GenError, IndirectionChange, TypeConversion, TypeModel, TypeOrigin,
};

fn s(x: &str) -> String {
    x.to_string()
}

fn no_conversion() -> TypeConversion {
    TypeConversion {
        indirection_change: IndirectionChange::NoChange,
        is_renamed: false,
        flags_to_integral: false,
    }
}

fn class_ptr(name: &str, change: IndirectionChange) -> CTypeExtended {
    CTypeExtended {
        c_type: CType { base: s(name), indirection: 1 },
        cpp_base: s(name),
        conversion: TypeConversion {
            indirection_change: change,
            is_renamed: false,
            flags_to_integral: false,
        },
    }
}

fn plain_method(name: &str) -> CppMethod {
    CppMethod {
        scope: CppMethodScope::ClassInstance { class_name: s("Bar") },
        name: s(name),
        is_constructor: false,
        is_destructor: false,
        is_protected: false,
        is_signal: false,
        arguments: vec![],
        return_type: None,
    }
}

fn this_arg() -> CFunctionArgument {
    CFunctionArgument {
        name: s("this_ptr"),
        argument_type: class_ptr("Bar", IndirectionChange::NoChange),
        role: CArgumentRole::ThisReceiver,
    }
}

fn color_model(header: &str) -> TypeModel {
    TypeModel {
        types: vec![
            (
                s("void"),
                CppTypeInfo { kind: CppTypeKind::Primitive, origin: TypeOrigin::BuiltIn },
            ),
            (
                s("Color"),
                CppTypeInfo {
                    kind: CppTypeKind::Enum {
                        values: vec![
                            EnumValue { name: s("A"), value: 0 },
                            EnumValue { name: s("B"), value: 1 },
                        ],
                    },
                    origin: TypeOrigin::OwningHeader { include_file: s(header) },
                },
            ),
        ],
    }
}

#[test]
fn enum_full_declaration_text() {
    let values = vec![
        EnumValue { name: s("A"), value: 0 },
        EnumValue { name: s("B"), value: 1 },
    ];
    let text = enum_declaration(&s("Color"), &values, true);
    assert_eq!(text, "typedef enum QTCW_Color { Color_A = 0, Color_B = 1 } Color;\n");
}

#[test]
fn enum_forward_declaration_text() {
    let values = vec![
        EnumValue { name: s("A"), value: 0 },
        EnumValue { name: s("B"), value: 1 },
    ];
    let text = enum_declaration(&s("Color"), &values, false);
    assert_eq!(text, "typedef enum QTCW_Color Color;\n");
}

#[test]
fn enum_declared_through_emitter_in_owning_header() {
    let model = color_model("qcolor");
    let t = CTypeExtended {
        c_type: CType { base: s("Color"), indirection: 0 },
        cpp_base: s("Color"),
        conversion: no_conversion(),
    };
    let mut visited = Vec::new();
    let text = generate_type_declaration(&model, &t, &s("qcolor"), &mut visited, 8).unwrap();
    assert_eq!(
        text,
        only_c_code(s("typedef enum QTCW_Color { Color_A = 0, Color_B = 1 } Color;\n"))
    );
    let other = generate_type_declaration(&model, &t, &s("qcolor"), &mut visited, 8).unwrap();
    assert_eq!(other, "");
}

#[test]
fn enum_forward_declared_in_other_header() {
    let model = color_model("qcolor");
    let t = CTypeExtended {
        c_type: CType { base: s("Color"), indirection: 0 },
        cpp_base: s("Color"),
        conversion: no_conversion(),
    };
    let mut visited = Vec::new();
    let text = generate_type_declaration(&model, &t, &s("qwidget"), &mut visited, 8).unwrap();
    assert_eq!(text, only_c_code(s("typedef enum QTCW_Color Color;\n")));
}

#[test]
fn struct_full_declaration_has_exact_size() {
    let text = struct_declaration(&s("QPoint"), &Some(8), true).unwrap();
    assert_eq!(
        text,
        "struct QTCW_QPoint { char space[8]; };\ntypedef struct QTCW_QPoint QPoint;\n\n"
    );
}

#[test]
fn struct_full_declaration_renders_multi_digit_size() {
    let text = struct_declaration(&s("QRect"), &Some(123), true).unwrap();
    assert_eq!(
        text,
        "struct QTCW_QRect { char space[123]; };\ntypedef struct QTCW_QRect QRect;\n\n"
    );
}

#[test]
fn enum_declaration_renders_negative_value() {
    let values = vec![EnumValue { name: s("N"), value: -5 }];
    let text = enum_declaration(&s("E"), &values, true);
    assert_eq!(text, "typedef enum QTCW_E { E_N = -5 } E;\n");
}

#[test]
fn struct_forward_declaration_has_no_payload() {
    let text = struct_declaration(&s("QPoint"), &Some(8), false).unwrap();
    assert_eq!(text, "struct QTCW_QPoint;\ntypedef struct QTCW_QPoint QPoint;\n\n");
}

#[test]
fn struct_full_declaration_of_unknown_size_fails() {
    let r = struct_declaration(&s("QPoint"), &None, true);
    assert!(matches!(r, Err(GenError::MetadataError { .. })));
}

#[test]
fn struct_declaration_rejects_scoped_name() {
    let r = struct_declaration(&s("Qt::Point"), &Some(4), true);
    assert!(matches!(r, Err(GenError::MetadataError { .. })));
}

#[test]
fn class_from_other_unit_is_forward_declared() {
    let model = TypeModel {
        types: vec![(
            s("QPoint"),
            CppTypeInfo {
                kind: CppTypeKind::Class { size: Some(8) },
                origin: TypeOrigin::OwningHeader { include_file: s("qpoint") },
            },
        )],
    };
    let t = class_ptr("QPoint", IndirectionChange::ValueToPointer);
    let mut visited = Vec::new();
    let text = generate_type_declaration(&model, &t, &s("qwidget"), &mut visited, 8).unwrap();
    assert!(!text.contains("space["));
    assert_eq!(
        text,
        only_c_code(s("struct QTCW_QPoint;\ntypedef struct QTCW_QPoint QPoint;\n\n"))
    );
}

#[test]
fn flags_typedef_text() {
    assert_eq!(flags_declaration(&s("MyFlags")), "typedef unsigned int MyFlags;\n");
}

#[test]
fn heap_value_return_wraps_in_new() {
    let mut cpp = plain_method("get");
    cpp.return_type = Some(CppType { base: s("Foo"), indirection: CppTypeIndirection::Direct });
    let m = CppAndCMethod {
        cpp_method: cpp,
        c_name: s("qtcw_Bar_get"),
        c_signature: CFunctionSignature {
            arguments: vec![this_arg()],
            return_type: class_ptr("Foo", IndirectionChange::ValueToPointer),
        },
        allocation_place: AllocationPlace::Heap,
    };
    let (decl, defn) = m.emit_wrapper().unwrap();
    assert_eq!(decl, "Foo* QTCW_EXPORT qtcw_Bar_get(Bar* this_ptr);\n");
    assert_eq!(
        defn,
        "Foo* qtcw_Bar_get(Bar* this_ptr) {\n  return new Foo(this_ptr->get());\n}\n\n"
    );
}

#[test]
fn flags_argument_is_rebuilt_from_integer() {
    let mut cpp = plain_method("setF");
    cpp.arguments = vec![CppType { base: s("MyFlags"), indirection: CppTypeIndirection::Direct }];
    let flags_arg = CFunctionArgument {
        name: s("arg0"),
        argument_type: CTypeExtended {
            c_type: CType { base: s("MyFlags"), indirection: 0 },
            cpp_base: s("MyFlags"),
            conversion: TypeConversion {
                indirection_change: IndirectionChange::NoChange,
                is_renamed: false,
                flags_to_integral: true,
            },
        },
        role: CArgumentRole::PositionalArgument { index: 0 },
    };
    let m = CppAndCMethod {
        cpp_method: cpp,
        c_name: s("qtcw_Bar_setF"),
        c_signature: CFunctionSignature {
            arguments: vec![this_arg(), flags_arg],
            return_type: CTypeExtended::void(),
        },
        allocation_place: AllocationPlace::Heap,
    };
    let (decl, defn) = m.emit_wrapper().unwrap();
    assert_eq!(decl, "void QTCW_EXPORT qtcw_Bar_setF(Bar* this_ptr, MyFlags arg0);\n");
    assert_eq!(
        defn,
        "void qtcw_Bar_setF(Bar* this_ptr, MyFlags arg0) {\n  this_ptr->setF(MyFlags(arg0));\n}\n\n"
    );
}

#[test]
fn stack_place_with_nonvoid_return_is_convention_violation() {
    let mut cpp = plain_method("get");
    cpp.return_type = Some(CppType { base: s("Foo"), indirection: CppTypeIndirection::Direct });
    let m = CppAndCMethod {
        cpp_method: cpp,
        c_name: s("qtcw_Bar_get"),
        c_signature: CFunctionSignature {
            arguments: vec![this_arg()],
            return_type: class_ptr("Foo", IndirectionChange::ValueToPointer),
        },
        allocation_place: AllocationPlace::Stack,
    };
    let r = m.emit_wrapper();
    assert!(matches!(r, Err(GenError::ConventionViolation { .. })));
}

#[test]
fn stack_constructor_builds_into_return_slot() {
    let mut cpp = plain_method("Bar");
    cpp.is_constructor = true;
    let slot = CFunctionArgument {
        name: s("output"),
        argument_type: class_ptr("Bar", IndirectionChange::NoChange),
        role: CArgumentRole::ReturnValueSlot,
    };
    let m = CppAndCMethod {
        cpp_method: cpp,
        c_name: s("qtcw_Bar_new"),
        c_signature: CFunctionSignature {
            arguments: vec![slot],
            return_type: CTypeExtended::void(),
        },
        allocation_place: AllocationPlace::Stack,
    };
    let (_, defn) = m.emit_wrapper().unwrap();
    assert_eq!(defn, "void qtcw_Bar_new(Bar* output) {\n  new(output) Bar();\n}\n\n");
}

#[test]
fn stack_constructor_without_slot_is_mapping_error() {
    let mut cpp = plain_method("Bar");
    cpp.is_constructor = true;
    let m = CppAndCMethod {
        cpp_method: cpp,
        c_name: s("qtcw_Bar_new"),
        c_signature: CFunctionSignature { arguments: vec![], return_type: CTypeExtended::void() },
        allocation_place: AllocationPlace::Stack,
    };
    assert!(matches!(m.emit_wrapper(), Err(GenError::MappingError { .. })));
}

#[test]
fn heap_destructor_deletes_receiver() {
    let mut cpp = plain_method("~Bar");
    cpp.is_destructor = true;
    let m = CppAndCMethod {
        cpp_method: cpp,
        c_name: s("qtcw_Bar_delete"),
        c_signature: CFunctionSignature {
            arguments: vec![this_arg()],
            return_type: CTypeExtended::void(),
        },
        allocation_place: AllocationPlace::Heap,
    };
    let (_, defn) = m.emit_wrapper().unwrap();
    assert_eq!(defn, "void qtcw_Bar_delete(Bar* this_ptr) {\n  delete this_ptr;\n}\n\n");
}

#[test]
fn stack_destructor_calls_destructor_explicitly() {
    let mut cpp = plain_method("~Bar");
    cpp.is_destructor = true;
    let m = CppAndCMethod {
        cpp_method: cpp,
        c_name: s("qtcw_Bar_destroy"),
        c_signature: CFunctionSignature {
            arguments: vec![this_arg()],
            return_type: CTypeExtended::void(),
        },
        allocation_place: AllocationPlace::Stack,
    };
    let (_, defn) = m.emit_wrapper().unwrap();
    assert_eq!(
        defn,
        "void qtcw_Bar_destroy(Bar* this_ptr) {\n  qtcw_call_destructor(this_ptr);\n}\n\n"
    );
}

#[test]
fn missing_positional_argument_is_mapping_error() {
    let mut cpp = plain_method("setX");
    cpp.arguments = vec![CppType { base: s("int"), indirection: CppTypeIndirection::Direct }];
    let m = CppAndCMethod {
        cpp_method: cpp,
        c_name: s("qtcw_Bar_setX"),
        c_signature: CFunctionSignature {
            arguments: vec![this_arg()],
            return_type: CTypeExtended::void(),
        },
        allocation_place: AllocationPlace::Heap,
    };
    assert!(matches!(m.emit_wrapper(), Err(GenError::MappingError { .. })));
}

#[test]
fn protected_and_signal_methods_are_filtered_out() {
    let mut protected = plain_method("hidden");
    protected.is_protected = true;
    let mut signal = plain_method("changed");
    signal.is_signal = true;
    let visible = plain_method("shown");
    let wrap = |cpp: CppMethod, n: &str| CppAndCMethod {
        cpp_method: cpp,
        c_name: s(n),
        c_signature: CFunctionSignature {
            arguments: vec![this_arg()],
            return_type: CTypeExtended::void(),
        },
        allocation_place: AllocationPlace::Heap,
    };
    let kept = filter_methods(vec![
        wrap(protected, "qtcw_Bar_hidden"),
        wrap(visible, "qtcw_Bar_shown"),
        wrap(signal, "qtcw_Bar_changed"),
    ]);
    assert_eq!(kept.len(), 1);
    assert_eq!(kept[0].c_name, "qtcw_Bar_shown");
}

fn sample_unit(header: &str) -> HeaderUnit {
    let mut cpp = plain_method("shown");
    cpp.scope = CppMethodScope::ClassStatic { class_name: s("Color") };
    let mut hidden = plain_method("hidden");
    hidden.is_protected = true;
    HeaderUnit {
        include_file: s(header),
        type_names: vec![s("Color")],
        methods: vec![
            CppAndCMethod {
                cpp_method: cpp,
                c_name: s("qtcw_Color_shown"),
                c_signature: CFunctionSignature {
                    arguments: vec![],
                    return_type: CTypeExtended::void(),
                },
                allocation_place: AllocationPlace::Heap,
            },
            CppAndCMethod {
                cpp_method: hidden,
                c_name: s("qtcw_Color_hidden"),
                c_signature: CFunctionSignature {
                    arguments: vec![],
                    return_type: CTypeExtended::void(),
                },
                allocation_place: AllocationPlace::Heap,
            },
        ],
    }
}

#[test]
fn unit_output_is_deterministic() {
    let model = color_model("qcolor");
    let first = generate_one(&model, sample_unit("qcolor")).unwrap();
    let second = generate_one(&model, sample_unit("qcolor")).unwrap();
    assert_eq!(first.header_text, second.header_text);
    assert_eq!(first.source_text, second.source_text);
}

#[test]
fn unit_header_shape() {
    let model = color_model("qcolor");
    let data = generate_one(&model, sample_unit("qcolor")).unwrap();
    assert!(data.header_text.starts_with("#ifndef QTCW_QCOLOR_H\n#define QTCW_QCOLOR_H\n\n"));
    assert!(data.header_text.contains("QTCW_EXTERN_C_BEGIN"));
    assert!(data.header_text.contains("typedef enum QTCW_Color { Color_A = 0, Color_B = 1 } Color;\n"));
    assert!(data.header_text.contains("void QTCW_EXPORT qtcw_Color_shown();\n"));
    assert!(data.header_text.ends_with("\nQTCW_EXTERN_C_END\n\n#endif // QTCW_QCOLOR_H\n"));
    assert!(data.source_text.starts_with("#include \"qtcw_qcolor.h\"\n\n"));
    assert!(data.source_text.contains("void qtcw_Color_shown() {\n  Color::shown();\n}\n\n"));
    assert!(!data.header_text.contains("hidden"));
    assert!(!data.source_text.contains("hidden"));
    assert_eq!(data.methods.len(), 1);
}

#[test]
fn duplicate_declarations_are_suppressed_per_unit() {
    let model = color_model("qcolor");
    let data = generate_one(&model, sample_unit("qcolor")).unwrap();
    let needle = "typedef enum QTCW_Color";
    let count = data.header_text.matches(needle).count();
    assert_eq!(count, 1);
}

#[test]
fn umbrella_header_lists_every_unit() {
    let model = color_model("qcolor");
    let gen = CGenerator::new(model, vec![sample_unit("qcolor")]);
    let out = gen.generate_all().unwrap();
    assert_eq!(
        out.all_header_text,
        "#ifndef QTCW_H\n#define QTCW_H\n\n#include \"qtcw_qcolor.h\"\n#endif // QTCW_H\n"
    );
    assert_eq!(out.c_headers.len(), 1);
    assert_eq!(out.c_headers[0].include_file, "qcolor");
}

#[test]
fn unknown_type_kind_is_metadata_error() {
    let model = TypeModel {
        types: vec![(
            s("Mystery"),
            CppTypeInfo {
                kind: CppTypeKind::Unknown,
                origin: TypeOrigin::OwningHeader { include_file: s("qmystery") },
            },
        )],
    };
    let unit = HeaderUnit {
        include_file: s("qmystery"),
        type_names: vec![s("Mystery")],
        methods: vec![],
    };
    assert!(matches!(generate_one(&model, unit), Err(GenError::MetadataError { .. })));
}

#[test]
fn alias_declares_target_then_typedef() {
    let model = TypeModel {
        types: vec![
            (
                s("QPoint"),
                CppTypeInfo {
                    kind: CppTypeKind::Class { size: Some(8) },
                    origin: TypeOrigin::OwningHeader { include_file: s("qpoint") },
                },
            ),
            (
                s("PointAlias"),
                CppTypeInfo {
                    kind: CppTypeKind::TypeAlias {
                        target: CppType { base: s("QPoint"), indirection: CppTypeIndirection::Direct },
                    },
                    origin: TypeOrigin::OwningHeader { include_file: s("qpoint") },
                },
            ),
        ],
    };
    let t = CTypeExtended {
        c_type: CType { base: s("PointAlias"), indirection: 1 },
        cpp_base: s("PointAlias"),
        conversion: TypeConversion {
            indirection_change: IndirectionChange::ValueToPointer,
            is_renamed: true,
            flags_to_integral: false,
        },
    };
    let mut visited = Vec::new();
    let text = generate_type_declaration(&model, &t, &s("qpoint"), &mut visited, 8).unwrap();
    let expected_struct =
        only_c_code(s("struct QTCW_QPoint { char space[8]; };\ntypedef struct QTCW_QPoint QPoint;\n\n"));
    let expected_typedef = only_c_code(s("typedef QPoint* PointAlias;\n"));
    let expected_rename = only_cpp_code(s("typedef PointAlias PointAlias;\n"));
    assert_eq!(text, format!("{expected_struct}{expected_typedef}{expected_rename}"));
    assert_eq!(visited, vec![s("QPoint"), s("PointAlias")]);
}

#[test]
fn wchar_type_pulls_system_include() {
    let model = TypeModel { types: vec![] };
    let t = CTypeExtended {
        c_type: CType { base: s("wchar_t"), indirection: 0 },
        cpp_base: s("wchar_t"),
        conversion: no_conversion(),
    };
    let mut visited = Vec::new();
    let text = generate_type_declaration(&model, &t, &s("qstring"), &mut visited, 8).unwrap();
    assert_eq!(text, only_c_code(s("#include <wchar.h>\n")));
}

#[test]
fn cmake_var_list_joins_with_semicolon() {
    let var = CMakeVar::new_list(s("PATHS"), vec![s("a"), s("b"), s("c")]).unwrap();
    assert_eq!(var.name, "PATHS");
    assert_eq!(var.value, "a;b;c");
}

#[test]
fn cmake_var_list_rejects_semicolon_in_item() {
    let r = CMakeVar::new_list(s("PATHS"), vec![s("a"), s("b;c")]);
    assert_eq!(r.unwrap_err(), "b;c");
}

fn sample_builder(jobs: Option<i32>) -> CppLibBuilder {
    CppLibBuilder {
        cmake_source_dir: s("/src"),
        build_dir: s("/build"),
        install_dir: s("/install"),
        num_jobs: jobs,
        build_type: BuildType::Debug,
        pipe_output: false,
        cmake_vars: vec![CMakeVar::new(s("FOO"), s("1"))],
    }
}

#[test]
fn cmake_command_plan_on_linux() {
    let cmd = sample_builder(Some(2)).plan_cmake_command(BuildOs::OtherOs, BuildEnv::Gnu);
    assert_eq!(cmd.program, "cmake");
    assert_eq!(cmd.current_dir, "/build");
    assert_eq!(
        cmd.args,
        vec![s("/src"), s("-DFOO=1"), s("-DCMAKE_BUILD_TYPE=Debug"), s("-DCMAKE_INSTALL_PREFIX=/install")]
    );
}

#[test]
fn cmake_command_plan_forces_release_under_msvc() {
    let cmd = sample_builder(Some(2)).plan_cmake_command(BuildOs::Windows, BuildEnv::Msvc);
    assert_eq!(
        cmd.args,
        vec![
            s("/src"),
            s("-G"),
            s("NMake Makefiles"),
            s("-DFOO=1"),
            s("-DCMAKE_BUILD_TYPE=Release"),
            s("-DCMAKE_INSTALL_PREFIX=/install"),
        ]
    );
}

#[test]
fn make_command_plan_on_linux_uses_detected_cpus() {
    let cmd = sample_builder(None).plan_make_command(BuildOs::OtherOs, BuildEnv::Gnu, 4, false);
    assert_eq!(cmd.program, "make");
    assert_eq!(cmd.args, vec![s("-j4"), s("install")]);
}

#[test]
fn make_command_plan_uses_jom_when_available() {
    let cmd = sample_builder(Some(3)).plan_make_command(BuildOs::Windows, BuildEnv::Msvc, 8, true);
    assert_eq!(cmd.program, "jom");
    assert_eq!(cmd.args, vec![s("/J"), s("3"), s("install")]);
}

#[test]
fn make_command_plan_without_jom_is_serial_nmake() {
    let cmd = sample_builder(Some(3)).plan_make_command(BuildOs::Windows, BuildEnv::Msvc, 8, false);
    assert_eq!(cmd.program, "nmake");
    assert_eq!(cmd.args, vec![s("install")]);
}
