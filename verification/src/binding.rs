//! Descriptions of the data types that cross the boundary between the Rust
//! core and the Swift front end, and how each is rendered: the names it has
//! on either side and the text that coerces a value from one side to the
//! other. The binding generator fills its templates with these renderings.

use vstd::prelude::*;
use vstd::string::*;

verus! {

/// The kinds of byte buffer that cross the boundary.
#[derive(Clone, Copy, Debug, PartialEq, Eq, Structural)]
pub enum ByteBufferType {
    Stringy,
    TextureData,
}

/// A primitive type and its name on each side.
#[derive(Clone, Debug)]
pub struct PrimitiveDataType {
    pub name: String,
    pub rust_name: String,
    pub swift_name: String,
}

/// A struct owned by the Rust side.
#[derive(Clone, Debug)]
pub struct RustStructDataType {
    pub name: String,
}

/// A struct owned by the Swift side.
#[derive(Clone, Debug)]
pub struct SwiftStructDataType {
    pub name: String,
}

/// A Rust struct standing for `Self` or one of its associated types.
#[derive(Clone, Debug)]
pub struct RustGenericDataType {
    pub symbol: Option<String>,
    pub bound_type: RustStructDataType,
}

/// A Swift struct standing for `Self` or one of its associated types.
#[derive(Clone, Debug)]
pub struct SwiftGenericDataType {
    pub symbol: Option<String>,
    pub bound_type: SwiftStructDataType,
}

/// A Swift struct used under a generic Rust type.
#[derive(Clone, Debug)]
pub struct SwiftGenericizedDataType {
    pub sanitized_name: String,
    pub full_type: String,
    pub bound_type: SwiftStructDataType,
}

/// Every data type the binding generator knows.
#[derive(Clone, Debug)]
pub enum DataType {
    Nil,
    Any,
    ByteBuffer(ByteBufferType),
    Primitive(PrimitiveDataType),
    Future(RustStructDataType),
    RustGeneric(RustGenericDataType),
    RustStruct(RustStructDataType),
    SwiftGeneric(SwiftGenericDataType),
    SwiftStruct(SwiftStructDataType),
    SwiftGenericized(SwiftGenericizedDataType),
}

/// How a data type is rendered in the generated bindings.
#[derive(Clone, Debug)]
pub struct RenderableDataType {
    pub name: String,
    pub sanitized_name: String,
    pub rust_name_internal: String,
    pub rust_name_incoming: String,
    pub rust_name_outgoing: String,
    pub borrow_outgoing: bool,
    pub rust_type_coersion_prefix_incoming: String,
    pub rust_type_coersion_postfix_incoming: String,
    pub rust_type_coersion_prefix_outgoing: String,
    pub rust_type_coersion_postfix_outgoing: String,
    pub swift_name_internal: String,
    pub swift_name_incoming: String,
    pub swift_name_outgoing: String,
    pub swift_type_coersion_prefix_incoming: String,
    pub swift_type_coersion_postfix_incoming: String,
    pub swift_type_coersion_prefix_outgoing: String,
    pub swift_type_coersion_postfix_outgoing: String,
}

/// The text of each field of a rendering.
pub struct RenderedText {
    pub name: Seq<char>,
    pub sanitized_name: Seq<char>,
    pub rust_name_internal: Seq<char>,
    pub rust_name_incoming: Seq<char>,
    pub rust_name_outgoing: Seq<char>,
    pub borrow_outgoing: bool,
    pub rust_type_coersion_prefix_incoming: Seq<char>,
    pub rust_type_coersion_postfix_incoming: Seq<char>,
    pub rust_type_coersion_prefix_outgoing: Seq<char>,
    pub rust_type_coersion_postfix_outgoing: Seq<char>,
    pub swift_name_internal: Seq<char>,
    pub swift_name_incoming: Seq<char>,
    pub swift_name_outgoing: Seq<char>,
    pub swift_type_coersion_prefix_incoming: Seq<char>,
    pub swift_type_coersion_postfix_incoming: Seq<char>,
    pub swift_type_coersion_prefix_outgoing: Seq<char>,
    pub swift_type_coersion_postfix_outgoing: Seq<char>,
}

impl View for RenderableDataType {
    type V = RenderedText;

    open spec fn view(&self) -> RenderedText {
        RenderedText {
            name: self.name@,
            sanitized_name: self.sanitized_name@,
            rust_name_internal: self.rust_name_internal@,
            rust_name_incoming: self.rust_name_incoming@,
            rust_name_outgoing: self.rust_name_outgoing@,
            borrow_outgoing: self.borrow_outgoing,
            rust_type_coersion_prefix_incoming: self.rust_type_coersion_prefix_incoming@,
            rust_type_coersion_postfix_incoming: self.rust_type_coersion_postfix_incoming@,
            rust_type_coersion_prefix_outgoing: self.rust_type_coersion_prefix_outgoing@,
            rust_type_coersion_postfix_outgoing: self.rust_type_coersion_postfix_outgoing@,
            swift_name_internal: self.swift_name_internal@,
            swift_name_incoming: self.swift_name_incoming@,
            swift_name_outgoing: self.swift_name_outgoing@,
            swift_type_coersion_prefix_incoming: self.swift_type_coersion_prefix_incoming@,
            swift_type_coersion_postfix_incoming: self.swift_type_coersion_postfix_incoming@,
            swift_type_coersion_prefix_outgoing: self.swift_type_coersion_prefix_outgoing@,
            swift_type_coersion_postfix_outgoing: self.swift_type_coersion_postfix_outgoing@,
        }
    }
}

/// A rendering with every text empty and nothing borrowed.
pub open spec fn blank_rendering() -> RenderedText {
    RenderedText {
        name: Seq::empty(),
        sanitized_name: Seq::empty(),
        rust_name_internal: Seq::empty(),
        rust_name_incoming: Seq::empty(),
        rust_name_outgoing: Seq::empty(),
        borrow_outgoing: false,
        rust_type_coersion_prefix_incoming: Seq::empty(),
        rust_type_coersion_postfix_incoming: Seq::empty(),
        rust_type_coersion_prefix_outgoing: Seq::empty(),
        rust_type_coersion_postfix_outgoing: Seq::empty(),
        swift_name_internal: Seq::empty(),
        swift_name_incoming: Seq::empty(),
        swift_name_outgoing: Seq::empty(),
        swift_type_coersion_prefix_incoming: Seq::empty(),
        swift_type_coersion_postfix_incoming: Seq::empty(),
        swift_type_coersion_prefix_outgoing: Seq::empty(),
        swift_type_coersion_postfix_outgoing: Seq::empty(),
    }
}

/// `base` with the texts of a Rust owned struct named `name`: the Swift
/// side holds it as an opaque pointer to a boxed value.
pub open spec fn rust_struct_rendering(base: RenderedText, name: Seq<char>) -> RenderedText {
    RenderedText {
        sanitized_name: name,
        rust_name_internal: name,
        rust_name_incoming: "*mut "@ + name,
        rust_name_outgoing: "*mut "@ + name,
        rust_type_coersion_prefix_incoming: "unsafe { &*"@,
        rust_type_coersion_postfix_incoming: " }"@,
        rust_type_coersion_prefix_outgoing: "Box::into_raw(Box::new("@,
        rust_type_coersion_postfix_outgoing: "))"@,
        swift_name_internal: name,
        swift_name_incoming: "OpaquePointer?"@,
        swift_name_outgoing: "OpaquePointer?"@,
        swift_type_coersion_prefix_incoming: name + "("@,
        swift_type_coersion_postfix_incoming: ")"@,
        swift_type_coersion_prefix_outgoing: ""@,
        swift_type_coersion_postfix_outgoing: ".ref"@,
        ..base
    }
}

/// `base` with the texts of a Swift owned struct named `name`: the Rust side
/// holds it as an opaque pointer to a retained Swift object.
pub open spec fn swift_struct_rendering(base: RenderedText, name: Seq<char>) -> RenderedText {
    RenderedText {
        borrow_outgoing: true,
        sanitized_name: name,
        rust_name_internal: name,
        rust_name_incoming: "*mut Opaque_"@ + name,
        rust_name_outgoing: "*mut Opaque_"@ + name,
        rust_type_coersion_prefix_incoming: name + "("@,
        rust_type_coersion_postfix_incoming: ")"@,
        rust_type_coersion_prefix_outgoing: ""@,
        rust_type_coersion_postfix_outgoing: ".0"@,
        swift_name_internal: name,
        swift_name_incoming: "OpaquePointer?"@,
        swift_name_outgoing: "OpaquePointer?"@,
        swift_type_coersion_prefix_incoming: "Unmanaged.fromOpaque(UnsafeRawPointer("@,
        swift_type_coersion_postfix_incoming: "!)).takeUnretainedValue()"@,
        swift_type_coersion_prefix_outgoing: "OpaquePointer(Unmanaged.passRetained("@,
        swift_type_coersion_postfix_outgoing: ").toOpaque())"@,
        ..base
    }
}

/// `base` with the texts of a Swift struct used under the generic Rust type
/// `full_type`, named `sanitized_name` in generated identifiers.
pub open spec fn swift_genericized_rendering(
    base: RenderedText,
    bound_name: Seq<char>,
    sanitized_name: Seq<char>,
    full_type: Seq<char>,
) -> RenderedText {
    RenderedText {
        sanitized_name: sanitized_name,
        rust_name_internal: full_type,
        rust_name_incoming: "*mut Opaque_"@ + sanitized_name,
        rust_name_outgoing: "*mut Opaque_"@ + sanitized_name,
        ..swift_struct_rendering(base, bound_name)
    }
}

/// `base` with the texts of a byte buffer of the given kind.
pub open spec fn byte_buffer_rendering(base: RenderedText, bb_type: ByteBufferType) -> RenderedText {
    match bb_type {
        ByteBufferType::Stringy => RenderedText {
            name: "String"@,
            sanitized_name: "String"@,
            rust_name_internal: "String"@,
            rust_name_incoming: "*mut Opaque_SwiftString"@,
            rust_name_outgoing: "*mut ByteBuffer"@,
            rust_type_coersion_prefix_incoming: "SwiftString("@,
            rust_type_coersion_postfix_incoming: ").to_string()"@,
            rust_type_coersion_prefix_outgoing: "Box::into_raw(Box::new(ByteBuffer::from_string("@,
            rust_type_coersion_postfix_outgoing: ")))"@,
            swift_name_internal: "String"@,
            swift_name_incoming: "OpaquePointer?"@,
            swift_name_outgoing: "OpaquePointer?"@,
            swift_type_coersion_prefix_incoming: "byteBufferToString(ByteBuffer("@,
            swift_type_coersion_postfix_incoming: "))"@,
            swift_type_coersion_prefix_outgoing: "OpaquePointer(Unmanaged.passRetained(SwiftString("@,
            swift_type_coersion_postfix_outgoing: ")).toOpaque())"@,
            ..base
        },
        ByteBufferType::TextureData => RenderedText {
            name: "TextureData"@,
            sanitized_name: "TextureData"@,
            rust_name_internal: "ByteBuffer"@,
            rust_name_incoming: "*mut Opaque_SwiftTextureData"@,
            rust_name_outgoing: "*mut ByteBuffer"@,
            rust_type_coersion_prefix_incoming: "panic!(\"Cannot receive "@,
            rust_type_coersion_postfix_incoming: " from swift\")"@,
            rust_type_coersion_prefix_outgoing: "Box::into_raw(Box::new("@,
            rust_type_coersion_postfix_outgoing: "))"@,
            swift_name_internal: "String"@,
            swift_name_incoming: "OpaquePointer?"@,
            swift_name_outgoing: "OpaquePointer?"@,
            swift_type_coersion_prefix_incoming: "byteBufferToCGData(ByteBuffer("@,
            swift_type_coersion_postfix_incoming: "))"@,
            swift_type_coersion_prefix_outgoing: "OpaquePointer(Unmanaged.passRetained(SwiftString("@,
            swift_type_coersion_postfix_outgoing: ")).toOpaque())"@,
            ..base
        },
    }
}

/// The name Rust code uses for `Self`, or for its associated type `symbol`.
pub open spec fn self_type_name(symbol: Option<String>) -> Seq<char> {
    "Self"@ + match symbol {
        Some(sym) => "::"@ + sym@,
        None => ""@,
    }
}

/// The rendering of the boxed `Any` type.
pub open spec fn any_rendering() -> RenderedText {
    RenderedText {
        name: "Any"@,
        sanitized_name: "Any"@,
        rust_name_internal: "BoxedAny"@,
        rust_name_incoming: "*mut BoxedAny"@,
        rust_name_outgoing: "*mut BoxedAny"@,
        rust_type_coersion_prefix_incoming: "unsafe { &*"@,
        rust_type_coersion_postfix_incoming: " }"@,
        rust_type_coersion_prefix_outgoing: "Box::into_raw(Box::new("@,
        rust_type_coersion_postfix_outgoing: "))"@,
        swift_name_internal: "RustAny"@,
        swift_name_incoming: "OpaquePointer?"@,
        swift_name_outgoing: "OpaquePointer?"@,
        swift_type_coersion_prefix_incoming: "BoxedAny("@,
        swift_type_coersion_postfix_incoming: ")"@,
        swift_type_coersion_prefix_outgoing: ""@,
        swift_type_coersion_postfix_outgoing: ".ref"@,
        ..blank_rendering()
    }
}

/// The rendering of a primitive type: the same name on the way in and out.
pub open spec fn primitive_rendering(p: PrimitiveDataType) -> RenderedText {
    RenderedText {
        name: p.name@,
        rust_name_internal: p.rust_name@,
        rust_name_incoming: p.rust_name@,
        rust_name_outgoing: p.rust_name@,
        swift_name_internal: p.swift_name@,
        swift_name_incoming: p.swift_name@,
        swift_name_outgoing: p.swift_name@,
        ..blank_rendering()
    }
}

/// The rendering of a future of the Rust struct named `name`.
pub open spec fn future_rendering(name: Seq<char>) -> RenderedText {
    RenderedText {
        sanitized_name: "Future_"@ + name,
        rust_name_internal: "Future<Output = "@ + name + ">"@,
        rust_name_incoming: "*mut Future"@,
        rust_name_outgoing: "*mut Future_"@ + name,
        rust_type_coersion_prefix_incoming: "unsafe { &*"@,
        rust_type_coersion_postfix_incoming: " }"@,
        rust_type_coersion_prefix_outgoing: "Box::into_raw(Box::new("@,
        rust_type_coersion_postfix_outgoing: "))"@,
        swift_name_internal: "RustFuture<"@ + name + ">"@,
        swift_name_incoming: "OpaquePointer?"@,
        swift_name_outgoing: "OpaquePointer?"@,
        swift_type_coersion_prefix_incoming: name + "("@,
        swift_type_coersion_postfix_incoming: ")"@,
        swift_type_coersion_prefix_outgoing: ""@,
        swift_type_coersion_postfix_outgoing: ".ref"@,
        ..blank_rendering()
    }
}

/// The rendering of every data type but `Nil`, which has none.
pub open spec fn rendering_of(data_type: DataType) -> RenderedText {
    match data_type {
        DataType::Nil => blank_rendering(),
        DataType::Any => any_rendering(),
        DataType::ByteBuffer(bb_type) => byte_buffer_rendering(blank_rendering(), bb_type),
        DataType::Primitive(p) => primitive_rendering(p),
        DataType::Future(s) => future_rendering(s.name@),
        DataType::RustGeneric(g) => RenderedText {
            rust_name_internal: self_type_name(g.symbol),
            ..rust_struct_rendering(blank_rendering(), g.bound_type.name@)
        },
        DataType::RustStruct(s) => rust_struct_rendering(blank_rendering(), s.name@),
        DataType::SwiftGeneric(g) => RenderedText {
            rust_name_internal: self_type_name(g.symbol),
            ..swift_struct_rendering(blank_rendering(), g.bound_type.name@)
        },
        DataType::SwiftStruct(s) => swift_struct_rendering(blank_rendering(), s.name@),
        DataType::SwiftGenericized(g) => swift_genericized_rendering(
            blank_rendering(),
            g.bound_type.name@,
            g.sanitized_name@,
            g.full_type@,
        ),
    }
}

/// A future goes out boxed: its outgoing Rust coercion wraps the value in
/// `Box::into_raw(Box::new(..))`, and its outgoing Rust type is the raw
/// pointer `*mut Future_<name>` that this produces.
pub proof fn lemma_future_goes_out_boxed(s: RustStructDataType)
    ensures
        rendering_of(DataType::Future(s)).rust_type_coersion_prefix_outgoing == "Box::into_raw(Box::new("@,
        rendering_of(DataType::Future(s)).rust_type_coersion_postfix_outgoing == "))"@,
        rendering_of(DataType::Future(s)).rust_name_outgoing == "*mut "@ + rendering_of(
            DataType::Future(s),
        ).sanitized_name,
        rendering_of(DataType::Future(s)).sanitized_name == "Future_"@ + s.name@,
{
    assert("*mut Future_"@ + s.name@ =~= "*mut "@ + ("Future_"@ + s.name@)) by {
        reveal_strlit("*mut Future_");
        reveal_strlit("*mut ");
        reveal_strlit("Future_");
    }
}

/// A Rust owned struct, alone or standing for a generic type, is boxed on
/// the way out of Rust, and Swift hands it back as the wrapper's opaque
/// pointer, `.ref`, whatever its name and whatever the builder held.
pub proof fn lemma_rust_struct_crossing(base: RenderedText, name: Seq<char>, data_type: DataType)
    requires
        data_type is RustStruct || data_type is RustGeneric,
    ensures
        rust_struct_rendering(base, name).swift_type_coersion_prefix_outgoing == ""@,
        rust_struct_rendering(base, name).swift_type_coersion_postfix_outgoing == ".ref"@,
        rust_struct_rendering(base, name).rust_type_coersion_prefix_outgoing == "Box::into_raw(Box::new("@,
        rust_struct_rendering(base, name).rust_type_coersion_postfix_outgoing == "))"@,
        rendering_of(data_type).swift_type_coersion_prefix_outgoing == ""@,
        rendering_of(data_type).swift_type_coersion_postfix_outgoing == ".ref"@,
        rendering_of(data_type).rust_type_coersion_prefix_outgoing == "Box::into_raw(Box::new("@,
        rendering_of(data_type).rust_type_coersion_postfix_outgoing == "))"@,
{
}

/// The Swift side declares every value that crosses the C boundary, but a
/// primitive, as an opaque pointer: the Swift names on the way in and out
/// are `OpaquePointer?`, whatever the type is named.
pub proof fn lemma_swift_boundary_is_opaque(data_type: DataType)
    requires
        !(data_type is Nil),
        !(data_type is Primitive),
    ensures
        rendering_of(data_type).swift_name_incoming == "OpaquePointer?"@,
        rendering_of(data_type).swift_name_outgoing == "OpaquePointer?"@,
{
    match data_type {
        DataType::ByteBuffer(bb) => {
            match bb {
                ByteBufferType::Stringy => {},
                ByteBufferType::TextureData => {},
            }
        },
        _ => {},
    }
}

/// A Swift owned struct, whatever its name and whatever the builder held,
/// crosses the C boundary as `OpaquePointer?` on the Swift side, in both
/// directions; so do its generic and genericized forms.
pub proof fn lemma_swift_struct_is_opaque(
    base: RenderedText,
    name: Seq<char>,
    sanitized_name: Seq<char>,
    full_type: Seq<char>,
)
    ensures
        swift_struct_rendering(base, name).swift_name_incoming == "OpaquePointer?"@,
        swift_struct_rendering(base, name).swift_name_outgoing == "OpaquePointer?"@,
        swift_genericized_rendering(base, name, sanitized_name, full_type).swift_name_incoming
            == "OpaquePointer?"@,
        swift_genericized_rendering(base, name, sanitized_name, full_type).swift_name_outgoing
            == "OpaquePointer?"@,
{
}

/// A byte buffer of either kind leaves Rust as a boxed `ByteBuffer`: its
/// outgoing Rust type is `*mut ByteBuffer`, which differs from the type it
/// comes in as, and its outgoing coercion boxes the value.
pub proof fn lemma_byte_buffer_goes_out_as_byte_buffer(base: RenderedText, bb_type: ByteBufferType)
    ensures
        byte_buffer_rendering(base, bb_type).rust_name_outgoing == "*mut ByteBuffer"@,
        byte_buffer_rendering(base, bb_type).rust_name_incoming != byte_buffer_rendering(
            base,
            bb_type,
        ).rust_name_outgoing,
        byte_buffer_rendering(base, bb_type).rust_type_coersion_prefix_outgoing.take(
            "Box::into_raw(Box::new("@.len() as int,
        ) == "Box::into_raw(Box::new("@,
{
    reveal_strlit("*mut ByteBuffer");
    reveal_strlit("*mut Opaque_SwiftString");
    reveal_strlit("*mut Opaque_SwiftTextureData");
    reveal_strlit("Box::into_raw(Box::new(");
    reveal_strlit("Box::into_raw(Box::new(ByteBuffer::from_string(");
    let boxing = "Box::into_raw(Box::new("@;
    match bb_type {
        ByteBufferType::Stringy => {
            assert(byte_buffer_rendering(base, bb_type).rust_name_incoming[6] != "*mut ByteBuffer"@[6]);
            assert("Box::into_raw(Box::new(ByteBuffer::from_string("@.take(boxing.len() as int) =~= boxing);
        },
        ByteBufferType::TextureData => {
            assert(byte_buffer_rendering(base, bb_type).rust_name_incoming[6] != "*mut ByteBuffer"@[6]);
            assert(boxing.take(boxing.len() as int) =~= boxing);
        },
    }
}

/// A primitive crosses by value: no coercion text in either direction on
/// either side, nothing borrowed, and the same Rust and Swift names on the
/// way in and out as the primitive declares.
pub proof fn lemma_primitive_crosses_by_value(p: PrimitiveDataType)
    ensures
        rendering_of(DataType::Primitive(p)).rust_type_coersion_prefix_incoming == ""@,
        rendering_of(DataType::Primitive(p)).rust_type_coersion_postfix_incoming == ""@,
        rendering_of(DataType::Primitive(p)).rust_type_coersion_prefix_outgoing == ""@,
        rendering_of(DataType::Primitive(p)).rust_type_coersion_postfix_outgoing == ""@,
        rendering_of(DataType::Primitive(p)).swift_type_coersion_prefix_incoming == ""@,
        rendering_of(DataType::Primitive(p)).swift_type_coersion_postfix_incoming == ""@,
        rendering_of(DataType::Primitive(p)).swift_type_coersion_prefix_outgoing == ""@,
        rendering_of(DataType::Primitive(p)).swift_type_coersion_postfix_outgoing == ""@,
        !rendering_of(DataType::Primitive(p)).borrow_outgoing,
        rendering_of(DataType::Primitive(p)).rust_name_incoming == p.rust_name@,
        rendering_of(DataType::Primitive(p)).rust_name_outgoing == p.rust_name@,
        rendering_of(DataType::Primitive(p)).swift_name_incoming == p.swift_name@,
        rendering_of(DataType::Primitive(p)).swift_name_outgoing == p.swift_name@,
{
    reveal_strlit("");
}

/// `prefix` followed by `name`.
fn prefixed(prefix: &str, name: &String) -> (r: String)
    ensures
        r@ == prefix@ + name@,
{
    prefix.to_owned().concat(name.as_str())
}

/// `name` followed by `suffix`.
fn suffixed(name: &String, suffix: &str) -> (r: String)
    ensures
        r@ == name@ + suffix@,
{
    name.clone().concat(suffix)
}

/// `prefix`, then `name`, then `suffix`.
fn enclosed(prefix: &str, name: &String, suffix: &str) -> (r: String)
    ensures
        r@ == prefix@ + name@ + suffix@,
{
    prefix.to_owned().concat(name.as_str()).concat(suffix)
}

impl RenderableDataType {
    /// A rendering with every text empty and nothing borrowed.
    pub fn blank() -> (r: RenderableDataType)
        ensures
            r@ == blank_rendering(),
    {
        RenderableDataType {
            name: String::new(),
            sanitized_name: String::new(),
            rust_name_internal: String::new(),
            rust_name_incoming: String::new(),
            rust_name_outgoing: String::new(),
            borrow_outgoing: false,
            rust_type_coersion_prefix_incoming: String::new(),
            rust_type_coersion_postfix_incoming: String::new(),
            rust_type_coersion_prefix_outgoing: String::new(),
            rust_type_coersion_postfix_outgoing: String::new(),
            swift_name_internal: String::new(),
            swift_name_incoming: String::new(),
            swift_name_outgoing: String::new(),
            swift_type_coersion_prefix_incoming: String::new(),
            swift_type_coersion_postfix_incoming: String::new(),
            swift_type_coersion_prefix_outgoing: String::new(),
            swift_type_coersion_postfix_outgoing: String::new(),
        }
    }

    /// How the given data type is rendered. `Nil` has no rendering.
    pub fn from_raw(data_type: &DataType) -> (r: RenderableDataType)
        requires
            !(data_type is Nil),
        ensures
            r@ == rendering_of(*data_type),
            data_type is Future ==> r.rust_type_coersion_prefix_outgoing@ == "Box::into_raw(Box::new("@
                && r.rust_type_coersion_postfix_outgoing@ == "))"@,
            data_type is RustStruct || data_type is RustGeneric ==> r.swift_type_coersion_prefix_outgoing@
                == ""@ && r.swift_type_coersion_postfix_outgoing@ == ".ref"@,
            !(data_type is Primitive) ==> r.swift_name_incoming@ == "OpaquePointer?"@
                && r.swift_name_outgoing@ == "OpaquePointer?"@,
            data_type is ByteBuffer ==> r.rust_name_outgoing@ == "*mut ByteBuffer"@
                && r.rust_name_incoming@ != r.rust_name_outgoing@,
            data_type is Primitive ==> {
                &&& r.rust_type_coersion_prefix_incoming@ == ""@
                &&& r.rust_type_coersion_postfix_incoming@ == ""@
                &&& r.rust_type_coersion_prefix_outgoing@ == ""@
                &&& r.rust_type_coersion_postfix_outgoing@ == ""@
                &&& r.swift_type_coersion_prefix_incoming@ == ""@
                &&& r.swift_type_coersion_postfix_incoming@ == ""@
                &&& r.swift_type_coersion_prefix_outgoing@ == ""@
                &&& r.swift_type_coersion_postfix_outgoing@ == ""@
                &&& !r.borrow_outgoing
            },
    {
        proof {
            match data_type {
                DataType::Future(st) => lemma_future_goes_out_boxed(*st),
                DataType::Primitive(p) => lemma_primitive_crosses_by_value(*p),
                DataType::ByteBuffer(bb) => {
                    lemma_byte_buffer_goes_out_as_byte_buffer(blank_rendering(), *bb);
                    lemma_swift_boundary_is_opaque(*data_type);
                },
                DataType::RustStruct(st) => {
                    lemma_rust_struct_crossing(blank_rendering(), st.name@, *data_type);
                    lemma_swift_boundary_is_opaque(*data_type);
                },
                DataType::RustGeneric(g) => {
                    lemma_rust_struct_crossing(blank_rendering(), g.bound_type.name@, *data_type);
                    lemma_swift_boundary_is_opaque(*data_type);
                },
                DataType::Nil => {},
                _ => lemma_swift_boundary_is_opaque(*data_type),
            }
        }
        let builder = RenderableDataType::blank();
        match data_type {
            DataType::Nil => builder,
            DataType::Any => {
                let mut b = builder;
                b.name = "Any".to_owned();
                b.sanitized_name = "Any".to_owned();
                b.rust_name_internal = "BoxedAny".to_owned();
                b.rust_name_incoming = "*mut BoxedAny".to_owned();
                b.rust_name_outgoing = "*mut BoxedAny".to_owned();
                b.rust_type_coersion_prefix_incoming = "unsafe { &*".to_owned();
                b.rust_type_coersion_postfix_incoming = " }".to_owned();
                b.rust_type_coersion_prefix_outgoing = "Box::into_raw(Box::new(".to_owned();
                b.rust_type_coersion_postfix_outgoing = "))".to_owned();
                b.swift_name_internal = "RustAny".to_owned();
                b.swift_name_incoming = "OpaquePointer?".to_owned();
                b.swift_name_outgoing = "OpaquePointer?".to_owned();
                b.swift_type_coersion_prefix_incoming = "BoxedAny(".to_owned();
                b.swift_type_coersion_postfix_incoming = ")".to_owned();
                b.swift_type_coersion_prefix_outgoing = "".to_owned();
                b.swift_type_coersion_postfix_outgoing = ".ref".to_owned();
                b
            },
            DataType::ByteBuffer(bb_type) => render_byte_buffer_type(builder, bb_type),
            DataType::Primitive(primitive_type) => {
                let mut b = builder;
                b.name = primitive_type.name.clone();
                b.rust_name_internal = primitive_type.rust_name.clone();
                b.rust_name_incoming = primitive_type.rust_name.clone();
                b.rust_name_outgoing = primitive_type.rust_name.clone();
                b.swift_name_internal = primitive_type.swift_name.clone();
                b.swift_name_incoming = primitive_type.swift_name.clone();
                b.swift_name_outgoing = primitive_type.swift_name.clone();
                b
            },
            DataType::Future(struct_type) => {
                let name = &struct_type.name;
                let mut b = builder;
                b.sanitized_name = prefixed("Future_", name);
                b.rust_name_internal = enclosed("Future<Output = ", name, ">");
                b.rust_name_incoming = "*mut Future".to_owned();
                b.rust_name_outgoing = prefixed("*mut Future_", name);
                b.rust_type_coersion_prefix_incoming = "unsafe { &*".to_owned();
                b.rust_type_coersion_postfix_incoming = " }".to_owned();
                b.rust_type_coersion_prefix_outgoing = "Box::into_raw(Box::new(".to_owned();
                b.rust_type_coersion_postfix_outgoing = "))".to_owned();
                b.swift_name_internal = enclosed("RustFuture<", name, ">");
                b.swift_name_incoming = "OpaquePointer?".to_owned();
                b.swift_name_outgoing = "OpaquePointer?".to_owned();
                b.swift_type_coersion_prefix_incoming = suffixed(name, "(");
                b.swift_type_coersion_postfix_incoming = ")".to_owned();
                b.swift_type_coersion_prefix_outgoing = "".to_owned();
                b.swift_type_coersion_postfix_outgoing = ".ref".to_owned();
                b
            },
            DataType::RustGeneric(generic_type) => {
                let mut b = render_rust_struct_type(&generic_type.bound_type, builder);
                b.rust_name_internal = self_name(&generic_type.symbol);
                b
            },
            DataType::RustStruct(struct_type) => render_rust_struct_type(struct_type, builder),
            DataType::SwiftGeneric(generic_type) => {
                let mut b = render_swift_struct_type(&generic_type.bound_type, builder);
                b.rust_name_internal = self_name(&generic_type.symbol);
                b
            },
            DataType::SwiftStruct(struct_type) => render_swift_struct_type(struct_type, builder),
            DataType::SwiftGenericized(generic_type) => render_swift_genericized_type(
                generic_type,
                builder,
            ),
        }
    }
}

/// The name Rust code uses for `Self`, or for its associated type `symbol`.
fn self_name(symbol: &Option<String>) -> (r: String)
    ensures
        r@ == self_type_name(*symbol),
{
    let tail = match symbol {
        Some(sym) => prefixed("::", sym),
        None => "".to_owned(),
    };
    "Self".to_owned().concat(tail.as_str())
}

/// Set the texts of a Rust owned struct.
pub fn render_rust_struct_type(
    struct_type: &RustStructDataType,
    builder: RenderableDataType,
) -> (r: RenderableDataType)
    ensures
        r@ == rust_struct_rendering(builder@, struct_type.name@),
        r.swift_type_coersion_prefix_outgoing@ == ""@,
        r.swift_type_coersion_postfix_outgoing@ == ".ref"@,
        r.rust_type_coersion_prefix_outgoing@ == "Box::into_raw(Box::new("@,
        r.rust_type_coersion_postfix_outgoing@ == "))"@,
{
    let name = &struct_type.name;
    let mut b = builder;
    b.sanitized_name = name.clone();
    b.rust_name_internal = name.clone();
    b.rust_name_incoming = prefixed("*mut ", name);
    b.rust_name_outgoing = prefixed("*mut ", name);
    b.rust_type_coersion_prefix_incoming = "unsafe { &*".to_owned();
    b.rust_type_coersion_postfix_incoming = " }".to_owned();
    b.rust_type_coersion_prefix_outgoing = "Box::into_raw(Box::new(".to_owned();
    b.rust_type_coersion_postfix_outgoing = "))".to_owned();
    b.swift_name_internal = name.clone();
    b.swift_name_incoming = "OpaquePointer?".to_owned();
    b.swift_name_outgoing = "OpaquePointer?".to_owned();
    b.swift_type_coersion_prefix_incoming = suffixed(name, "(");
    b.swift_type_coersion_postfix_incoming = ")".to_owned();
    b.swift_type_coersion_prefix_outgoing = "".to_owned();
    b.swift_type_coersion_postfix_outgoing = ".ref".to_owned();
    b
}

/// Set the texts of a Swift owned struct.
pub fn render_swift_struct_type(
    struct_type: &SwiftStructDataType,
    builder: RenderableDataType,
) -> (r: RenderableDataType)
    ensures
        r@ == swift_struct_rendering(builder@, struct_type.name@),
        r.swift_name_incoming@ == "OpaquePointer?"@,
        r.swift_name_outgoing@ == "OpaquePointer?"@,
{
    let name = &struct_type.name;
    let mut b = builder;
    b.borrow_outgoing = true;
    b.sanitized_name = name.clone();
    b.rust_name_internal = name.clone();
    b.rust_name_incoming = prefixed("*mut Opaque_", name);
    b.rust_name_outgoing = prefixed("*mut Opaque_", name);
    b.rust_type_coersion_prefix_incoming = suffixed(name, "(");
    b.rust_type_coersion_postfix_incoming = ")".to_owned();
    b.rust_type_coersion_prefix_outgoing = "".to_owned();
    b.rust_type_coersion_postfix_outgoing = ".0".to_owned();
    b.swift_name_internal = name.clone();
    b.swift_name_incoming = "OpaquePointer?".to_owned();
    b.swift_name_outgoing = "OpaquePointer?".to_owned();
    b.swift_type_coersion_prefix_incoming = "Unmanaged.fromOpaque(UnsafeRawPointer(".to_owned();
    b.swift_type_coersion_postfix_incoming = "!)).takeUnretainedValue()".to_owned();
    b.swift_type_coersion_prefix_outgoing = "OpaquePointer(Unmanaged.passRetained(".to_owned();
    b.swift_type_coersion_postfix_outgoing = ").toOpaque())".to_owned();
    b
}

/// Set the texts of a Swift struct used under a generic Rust type.
pub fn render_swift_genericized_type(
    generic_type: &SwiftGenericizedDataType,
    builder: RenderableDataType,
) -> (r: RenderableDataType)
    ensures
        r@ == swift_genericized_rendering(
            builder@,
            generic_type.bound_type.name@,
            generic_type.sanitized_name@,
            generic_type.full_type@,
        ),
{
    let mut b = render_swift_struct_type(&generic_type.bound_type, builder);
    b.sanitized_name = generic_type.sanitized_name.clone();
    b.rust_name_internal = generic_type.full_type.clone();
    b.rust_name_incoming = prefixed("*mut Opaque_", &generic_type.sanitized_name);
    b.rust_name_outgoing = prefixed("*mut Opaque_", &generic_type.sanitized_name);
    b
}

/// Set the texts of a byte buffer of the given kind.
pub fn render_byte_buffer_type(builder: RenderableDataType, bb_type: &ByteBufferType) -> (r:
    RenderableDataType)
    ensures
        r@ == byte_buffer_rendering(builder@, *bb_type),
        r.rust_name_outgoing@ == "*mut ByteBuffer"@,
        r.rust_name_incoming@ != r.rust_name_outgoing@,
{
    proof {
        lemma_byte_buffer_goes_out_as_byte_buffer(builder@, *bb_type);
    }
    let mut b = builder;
    match bb_type {
        ByteBufferType::Stringy => {
            b.name = "String".to_owned();
            b.sanitized_name = "String".to_owned();
            b.rust_name_internal = "String".to_owned();
            b.rust_name_incoming = "*mut Opaque_SwiftString".to_owned();
            b.rust_name_outgoing = "*mut ByteBuffer".to_owned();
            b.rust_type_coersion_prefix_incoming = "SwiftString(".to_owned();
            b.rust_type_coersion_postfix_incoming = ").to_string()".to_owned();
            b.rust_type_coersion_prefix_outgoing = "Box::into_raw(Box::new(ByteBuffer::from_string(".to_owned();
            b.rust_type_coersion_postfix_outgoing = ")))".to_owned();
            b.swift_name_internal = "String".to_owned();
            b.swift_name_incoming = "OpaquePointer?".to_owned();
            b.swift_name_outgoing = "OpaquePointer?".to_owned();
            b.swift_type_coersion_prefix_incoming = "byteBufferToString(ByteBuffer(".to_owned();
            b.swift_type_coersion_postfix_incoming = "))".to_owned();
            b.swift_type_coersion_prefix_outgoing = "OpaquePointer(Unmanaged.passRetained(SwiftString(".to_owned();
            b.swift_type_coersion_postfix_outgoing = ")).toOpaque())".to_owned();
        },
        ByteBufferType::TextureData => {
            b.name = "TextureData".to_owned();
            b.sanitized_name = "TextureData".to_owned();
            b.rust_name_internal = "ByteBuffer".to_owned();
            b.rust_name_incoming = "*mut Opaque_SwiftTextureData".to_owned();
            b.rust_name_outgoing = "*mut ByteBuffer".to_owned();
            b.rust_type_coersion_prefix_incoming = "panic!(\"Cannot receive ".to_owned();
            b.rust_type_coersion_postfix_incoming = " from swift\")".to_owned();
            b.rust_type_coersion_prefix_outgoing = "Box::into_raw(Box::new(".to_owned();
            b.rust_type_coersion_postfix_outgoing = "))".to_owned();
            b.swift_name_internal = "String".to_owned();
            b.swift_name_incoming = "OpaquePointer?".to_owned();
            b.swift_name_outgoing = "OpaquePointer?".to_owned();
            b.swift_type_coersion_prefix_incoming = "byteBufferToCGData(ByteBuffer(".to_owned();
            b.swift_type_coersion_postfix_incoming = "))".to_owned();
            b.swift_type_coersion_prefix_outgoing = "OpaquePointer(Unmanaged.passRetained(SwiftString(".to_owned();
            b.swift_type_coersion_postfix_outgoing = ")).toOpaque())".to_owned();
        },
    }
    b
}

/// A trait object type the bindings must be able to name.
#[derive(Clone, Debug)]
pub struct DynTraitDef {
    pub trait_name: String,
    pub trait_path: String,
    pub imports: Vec<String>,
}

/// The rendering of a trait object type: its name and path.
#[derive(Clone, Debug)]
pub struct RenderableDynTraitType {
    trait_name: String,
    trait_path: String,
}

impl View for RenderableDynTraitType {
    type V = (Seq<char>, Seq<char>);

    closed spec fn view(&self) -> (Seq<char>, Seq<char>) {
        (self.trait_name@, self.trait_path@)
    }
}

impl RenderableDynTraitType {
    pub fn from_def(raw: &DynTraitDef) -> (r: RenderableDynTraitType)
        ensures
            r@ == (raw.trait_name@, raw.trait_path@),
    {
        RenderableDynTraitType { trait_name: raw.trait_name.clone(), trait_path: raw.trait_path.clone() }
    }

    /// The trait's name.
    pub fn trait_name(&self) -> (r: &str)
        ensures
            r@ == self@.0,
    {
        self.trait_name.as_str()
    }

    /// The trait's path.
    pub fn trait_path(&self) -> (r: &str)
        ensures
            r@ == self@.1,
    {
        self.trait_path.as_str()
    }
}

/// The word on whose first occurrence a generated C header is split: what
/// comes before it is includes and constants, what follows is types and
/// functions.
pub open spec fn header_split_word() -> Seq<char> {
    seq!['t', 'y', 'p', 'e', 'd', 'e', 'f']
}

/// The split word starts at position `i` of `s`.
pub open spec fn split_word_at(s: Seq<char>, i: int) -> bool {
    &&& 0 <= i
    &&& i + header_split_word().len() <= s.len()
    &&& s.subrange(i, i + header_split_word().len()) == header_split_word()
}

/// The character at position `k` of the split word.
fn split_word_char(k: usize) -> (c: char)
    requires
        k < header_split_word().len(),
    ensures
        c == header_split_word()[k as int],
{
    match k {
        0 => 't',
        1 => 'y',
        2 => 'p',
        3 => 'e',
        4 => 'd',
        5 => 'e',
        _ => 'f',
    }
}

/// Whether the split word starts at position `i` of `contents`.
fn split_word_starts_at(contents: &str, i: usize) -> (b: bool)
    requires
        i + header_split_word().len() <= contents@.len(),
        contents@.len() <= usize::MAX,
    ensures
        b == split_word_at(contents@, i as int),
{
    let mut k: usize = 0;
    while k < 7
        invariant
            k <= 7,
            i + 7 <= contents@.len(),
            contents@.len() <= usize::MAX,
            forall|m: int| 0 <= m < k ==> contents@[i + m] == header_split_word()[m],
        decreases 7 - k,
    {
        if contents.get_char(i + k) != split_word_char(k) {
            assert(contents@.subrange(i as int, i + 7)[k as int] == contents@[i + k]);
            return false;
        }
        k = k + 1;
    }
    assert(contents@.subrange(i as int, i + 7) =~= header_split_word());
    true
}

/// Split a generated C header at the first occurrence of the split word:
/// the part before it and the part that starts with it. `None` where the
/// word does not occur.
pub fn split_c_header(contents: &str) -> (r: Option<(String, String)>)
    ensures
        r is None <==> forall|i: int| !split_word_at(contents@, i),
        r matches Some(parts) ==> {
            &&& parts.0@ + parts.1@ == contents@
            &&& split_word_at(contents@, parts.0@.len() as int)
            &&& forall|j: int| 0 <= j < parts.0@.len() ==> !split_word_at(contents@, j)
        },
{
    let n = contents.unicode_len();
    let mut i: usize = 0;
    while i < n && n - i >= 7
        invariant
            n == contents@.len(),
            i <= n,
            forall|j: int| 0 <= j < i ==> !split_word_at(contents@, j),
        decreases n - i,
    {
        if split_word_starts_at(contents, i) {
            let imports = contents.substring_char(0, i).to_owned();
            let body = contents.substring_char(i, n).to_owned();
            assert(imports@ + body@ =~= contents@);
            return Some((imports, body));
        }
        i = i + 1;
    }
    None
}

} // verus!
