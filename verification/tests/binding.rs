use enchantron_core::binding::{
    render_byte_buffer_type, split_c_header, render_rust_struct_type, ByteBufferType, DataType, DynTraitDef,
    PrimitiveDataType, RenderableDataType, RenderableDynTraitType, RustGenericDataType,
    RustStructDataType, SwiftGenericDataType, SwiftGenericizedDataType, SwiftStructDataType,
};

fn rust_struct(name: &str) -> RustStructDataType {
    RustStructDataType { name: name.to_string() }
}

fn swift_struct(name: &str) -> SwiftStructDataType {
    SwiftStructDataType { name: name.to_string() }
}

#[test]
fn render_any() {
    let r = RenderableDataType::from_raw(&DataType::Any);
    assert_eq!("Any", r.name);
    assert_eq!("Any", r.sanitized_name);
    assert_eq!("BoxedAny", r.rust_name_internal);
    assert_eq!("*mut BoxedAny", r.rust_name_incoming);
    assert_eq!("*mut BoxedAny", r.rust_name_outgoing);
    assert!(!r.borrow_outgoing);
    assert_eq!("unsafe { &*", r.rust_type_coersion_prefix_incoming);
    assert_eq!(" }", r.rust_type_coersion_postfix_incoming);
    assert_eq!("Box::into_raw(Box::new(", r.rust_type_coersion_prefix_outgoing);
    assert_eq!("))", r.rust_type_coersion_postfix_outgoing);
    assert_eq!("RustAny", r.swift_name_internal);
    assert_eq!("OpaquePointer?", r.swift_name_incoming);
    assert_eq!("OpaquePointer?", r.swift_name_outgoing);
    assert_eq!("BoxedAny(", r.swift_type_coersion_prefix_incoming);
    assert_eq!(")", r.swift_type_coersion_postfix_incoming);
    assert_eq!("", r.swift_type_coersion_prefix_outgoing);
    assert_eq!(".ref", r.swift_type_coersion_postfix_outgoing);
}

#[test]
fn render_primitive() {
    let r = RenderableDataType::from_raw(&DataType::Primitive(PrimitiveDataType {
        name: "DOUBLE".to_string(),
        rust_name: "f64".to_string(),
        swift_name: "Double".to_string(),
    }));
    assert_eq!("DOUBLE", r.name);
    assert_eq!("", r.sanitized_name);
    assert_eq!("f64", r.rust_name_internal);
    assert_eq!("f64", r.rust_name_incoming);
    assert_eq!("f64", r.rust_name_outgoing);
    assert_eq!("Double", r.swift_name_internal);
    assert_eq!("Double", r.swift_name_incoming);
    assert_eq!("Double", r.swift_name_outgoing);
    assert_eq!("", r.rust_type_coersion_prefix_incoming);
    assert_eq!("", r.swift_type_coersion_postfix_outgoing);
}

#[test]
fn render_future() {
    let r = RenderableDataType::from_raw(&DataType::Future(rust_struct("Texture")));
    assert_eq!("", r.name);
    assert_eq!("Future_Texture", r.sanitized_name);
    assert_eq!("Future<Output = Texture>", r.rust_name_internal);
    assert_eq!("*mut Future", r.rust_name_incoming);
    assert_eq!("*mut Future_Texture", r.rust_name_outgoing);
    assert_eq!("RustFuture<Texture>", r.swift_name_internal);
    assert_eq!("Texture(", r.swift_type_coersion_prefix_incoming);
    assert_eq!(".ref", r.swift_type_coersion_postfix_outgoing);
}

#[test]
fn render_rust_struct_and_generic() {
    let r = RenderableDataType::from_raw(&DataType::RustStruct(rust_struct("ClickHandler")));
    assert_eq!("ClickHandler", r.sanitized_name);
    assert_eq!("ClickHandler", r.rust_name_internal);
    assert_eq!("*mut ClickHandler", r.rust_name_incoming);
    assert_eq!("*mut ClickHandler", r.rust_name_outgoing);
    assert_eq!("ClickHandler(", r.swift_type_coersion_prefix_incoming);
    assert!(!r.borrow_outgoing);

    let g = RenderableDataType::from_raw(&DataType::RustGeneric(RustGenericDataType {
        symbol: Some("LV".to_string()),
        bound_type: rust_struct("LoadingViewPublic"),
    }));
    assert_eq!("Self::LV", g.rust_name_internal);
    assert_eq!("*mut LoadingViewPublic", g.rust_name_incoming);

    let plain = RenderableDataType::from_raw(&DataType::RustGeneric(RustGenericDataType {
        symbol: None,
        bound_type: rust_struct("Texture"),
    }));
    assert_eq!("Self", plain.rust_name_internal);
}

#[test]
fn render_swift_struct_generic_and_genericized() {
    let r = RenderableDataType::from_raw(&DataType::SwiftStruct(swift_struct("Sprite")));
    assert!(r.borrow_outgoing);
    assert_eq!("Sprite", r.sanitized_name);
    assert_eq!("*mut Opaque_Sprite", r.rust_name_incoming);
    assert_eq!("Sprite(", r.rust_type_coersion_prefix_incoming);
    assert_eq!(".0", r.rust_type_coersion_postfix_outgoing);
    assert_eq!("Unmanaged.fromOpaque(UnsafeRawPointer(", r.swift_type_coersion_prefix_incoming);
    assert_eq!("!)).takeUnretainedValue()", r.swift_type_coersion_postfix_incoming);
    assert_eq!("OpaquePointer(Unmanaged.passRetained(", r.swift_type_coersion_prefix_outgoing);
    assert_eq!(").toOpaque())", r.swift_type_coersion_postfix_outgoing);

    let g = RenderableDataType::from_raw(&DataType::SwiftGeneric(SwiftGenericDataType {
        symbol: Some("T".to_string()),
        bound_type: swift_struct("Texture"),
    }));
    assert_eq!("Self::T", g.rust_name_internal);
    assert_eq!("*mut Opaque_Texture", g.rust_name_outgoing);

    let z = RenderableDataType::from_raw(&DataType::SwiftGenericized(SwiftGenericizedDataType {
        sanitized_name: "ProgressBar_ViewTypes".to_string(),
        full_type: "ProgressBarPublic<ViewTypes>".to_string(),
        bound_type: swift_struct("ProgressBar"),
    }));
    assert!(z.borrow_outgoing);
    assert_eq!("ProgressBar_ViewTypes", z.sanitized_name);
    assert_eq!("ProgressBarPublic<ViewTypes>", z.rust_name_internal);
    assert_eq!("*mut Opaque_ProgressBar_ViewTypes", z.rust_name_incoming);
    assert_eq!("*mut Opaque_ProgressBar_ViewTypes", z.rust_name_outgoing);
    assert_eq!("ProgressBar", z.swift_name_internal);
    assert_eq!("ProgressBar(", z.rust_type_coersion_prefix_incoming);
}

#[test]
fn render_byte_buffers() {
    let s = RenderableDataType::from_raw(&DataType::ByteBuffer(ByteBufferType::Stringy));
    assert_eq!("String", s.name);
    assert_eq!("*mut Opaque_SwiftString", s.rust_name_incoming);
    assert_eq!(
        "Box::into_raw(Box::new(ByteBuffer::from_string(",
        s.rust_type_coersion_prefix_outgoing
    );
    assert_eq!(")))", s.rust_type_coersion_postfix_outgoing);
    assert_eq!("byteBufferToString(ByteBuffer(", s.swift_type_coersion_prefix_incoming);

    let t = RenderableDataType::from_raw(&DataType::ByteBuffer(ByteBufferType::TextureData));
    assert_eq!("TextureData", t.name);
    assert_eq!("ByteBuffer", t.rust_name_internal);
    assert_eq!("panic!(\"Cannot receive ", t.rust_type_coersion_prefix_incoming);
    assert_eq!(" from swift\")", t.rust_type_coersion_postfix_incoming);
    assert_eq!("byteBufferToCGData(ByteBuffer(", t.swift_type_coersion_prefix_incoming);
    assert_eq!("String", t.swift_name_internal);
}

#[test]
fn render_helpers_keep_untouched_fields() {
    let mut base = RenderableDataType::blank();
    base.name = "Kept".to_string();
    let r = render_rust_struct_type(&rust_struct("Thing"), base.clone());
    assert_eq!("Kept", r.name);
    assert_eq!("*mut Thing", r.rust_name_outgoing);
    let b = render_byte_buffer_type(base, &ByteBufferType::Stringy);
    assert_eq!("String", b.name);
}

#[test]
fn dyn_trait_rendering() {
    let def = DynTraitDef {
        trait_name: "Presenter".to_string(),
        trait_path: "crate::presenter::Presenter".to_string(),
        imports: vec![],
    };
    let r = RenderableDynTraitType::from_def(&def);
    assert_eq!("Presenter", r.trait_name());
    assert_eq!("crate::presenter::Presenter", r.trait_path());
}

#[test]
fn c_header_splits_at_first_typedef() {
    let header = "#include <stdint.h>\n#define N 3\ntypedef struct A A;\ntypedef int B;\n";
    let (imports, body) = split_c_header(header).unwrap();
    assert_eq!("#include <stdint.h>\n#define N 3\n", imports);
    assert_eq!("typedef struct A A;\ntypedef int B;\n", body);
}

#[test]
fn c_header_starting_with_typedef_has_no_imports() {
    let (imports, body) = split_c_header("typedef int A;").unwrap();
    assert_eq!("", imports);
    assert_eq!("typedef int A;", body);
}

#[test]
fn c_header_without_typedef_does_not_split() {
    assert!(split_c_header("#include <stdint.h>\ntypede int A;").is_none());
    assert!(split_c_header("").is_none());
    assert!(split_c_header("typede").is_none());
}

#[test]
fn c_header_split_keeps_other_characters() {
    let (imports, body) = split_c_header("// é ü\ntypedef é;").unwrap();
    assert_eq!("// é ü\n", imports);
    assert_eq!("typedef é;", body);
}
