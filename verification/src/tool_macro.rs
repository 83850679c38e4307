//! What the `#[ailoop_tool]` attribute and `#[derive(ToolJsonType)]` decide.
//!
//! The functions here work on plain descriptions of the annotated item. Token handling stays
//! with the macro crate, which fills these descriptions in and prints the results.

use vstd::prelude::*;
use vstd::string::*;

use crate::json::{Json, JsonModel};
use crate::text::{self, chars_of, join, same_text, text_of};

verus! {

/// A Rust type as it is written in a signature.
pub struct RustType {
    /// The type's source text.
    pub text: String,
    pub shape: TypeShape,
}

/// The part of a type's syntax that the expansion looks at.
pub enum TypeShape {
    /// A path, by its last segment; `None` for a path without segments.
    Path(Option<PathSegment>),
    Tuple(Vec<RustType>),
    Reference(Box<RustType>),
    Other,
}

/// The last segment of a path type.
pub struct PathSegment {
    pub ident: String,
    pub arguments: PathArguments,
}

/// What follows the identifier of a path segment.
pub enum PathArguments {
    Absent,
    AngleBracketed(Vec<GenericArgument>),
    Parenthesized,
}

/// One argument between angle brackets.
pub enum GenericArgument {
    Type(RustType),
    /// A lifetime, constant, binding or constraint, by its source text.
    Other(String),
}

/// An expression that evaluates to a JSON Schema fragment.
pub enum SchemaExpr {
    Text(String),
    List(Vec<SchemaExpr>),
    Object(Vec<(String, SchemaExpr)>),
    /// `<T as ToolJsonType>::json_type()` for the type with this source text.
    Dispatch(String),
}

/// What a [`SchemaExpr`] says.
pub enum SchemaModel {
    Text(Seq<char>),
    List(Seq<SchemaModel>),
    Object(Seq<(Seq<char>, SchemaModel)>),
    Dispatch(Seq<char>),
}

pub open spec fn schema_model(e: SchemaExpr) -> SchemaModel
    decreases e,
{
    match e {
        SchemaExpr::Text(s) => SchemaModel::Text(s@),
        SchemaExpr::List(items) => SchemaModel::List(
            Seq::new(
                items@.len(),
                |i: int|
                    if 0 <= i < items@.len() {
                        schema_model(items@[i])
                    } else {
                        SchemaModel::Text(Seq::empty())
                    },
            ),
        ),
        SchemaExpr::Object(entries) => SchemaModel::Object(
            Seq::new(
                entries@.len(),
                |i: int|
                    if 0 <= i < entries@.len() {
                        (entries@[i].0@, schema_model(entries@[i].1))
                    } else {
                        (Seq::empty(), SchemaModel::Text(Seq::empty()))
                    },
            ),
        ),
        SchemaExpr::Dispatch(s) => SchemaModel::Dispatch(s@),
    }
}

impl View for SchemaExpr {
    type V = SchemaModel;

    open spec fn view(&self) -> SchemaModel {
        schema_model(*self)
    }
}

/// The types among generic arguments, in order.
pub open spec fn argument_types(args: Seq<GenericArgument>) -> Seq<RustType>
    decreases args.len(),
{
    if args.len() == 0 {
        Seq::empty()
    } else {
        let before = argument_types(args.drop_last());
        match args.last() {
            GenericArgument::Type(t) => before.push(t),
            GenericArgument::Other(_) => before,
        }
    }
}

/// The types among the arguments of a segment; none without angle brackets.
pub open spec fn generic_types(args: PathArguments) -> Seq<RustType> {
    match args {
        PathArguments::AngleBracketed(generics) => argument_types(generics@),
        _ => Seq::empty(),
    }
}

/// Whether the last segment of a path type is `name`.
pub open spec fn is_path_named(ty: RustType, name: Seq<char>) -> bool {
    ty.shape matches TypeShape::Path(Some(segment)) && segment.ident@ == name
}

/// The names of Rust's numeric types.
pub open spec fn numeric_name(s: Seq<char>) -> bool {
    ||| s == "i8"@
    ||| s == "i16"@
    ||| s == "i32"@
    ||| s == "i64"@
    ||| s == "i128"@
    ||| s == "isize"@
    ||| s == "u8"@
    ||| s == "u16"@
    ||| s == "u32"@
    ||| s == "u64"@
    ||| s == "u128"@
    ||| s == "usize"@
    ||| s == "f32"@
    ||| s == "f64"@
}

/// `{"type": name}`
pub open spec fn typed_schema(name: Seq<char>) -> SchemaModel {
    SchemaModel::Object(seq![("type"@, SchemaModel::Text(name))])
}

/// `{"type": name, key: value}`
pub open spec fn typed_schema_with(name: Seq<char>, key: Seq<char>, value: SchemaModel) -> SchemaModel {
    SchemaModel::Object(seq![("type"@, SchemaModel::Text(name)), (key, value)])
}

/// Each type among generic arguments is one of them.
pub proof fn lemma_argument_types_are_arguments(args: Seq<GenericArgument>, i: int)
    requires
        0 <= i < argument_types(args).len(),
    ensures
        exists|k: int|
            0 <= k < args.len() && #[trigger] args[k] == GenericArgument::Type(argument_types(args)[i]),
    decreases args.len(),
{
    let rest = args.drop_last();
    if i < argument_types(rest).len() {
        lemma_argument_types_are_arguments(rest, i);
        let k = choose|k: int|
            0 <= k < rest.len() && #[trigger] rest[k] == GenericArgument::Type(argument_types(rest)[i]);
        assert(args[k] == rest[k]);
    } else {
        assert(args[args.len() - 1] == args.last());
    }
}

/// A type among a segment's arguments is smaller than the arguments.
pub proof fn lemma_generic_type_smaller(args: PathArguments, i: int)
    requires
        0 <= i < generic_types(args).len(),
    ensures
        decreases_to!(args => generic_types(args)[i]),
{
    let generics = args->AngleBracketed_0;
    lemma_argument_types_are_arguments(generics@, i);
    let k = choose|k: int|
        0 <= k < generics@.len() && #[trigger] generics@[k] == GenericArgument::Type(
            generic_types(args)[i],
        );
    assert(decreases_to!(args => args->AngleBracketed_0));
    assert(decreases_to!(generics => generics@[k]));
    assert(decreases_to!(generics@[k] => generics@[k]->Type_0));
}

/// The schema of a type: numbers, strings, booleans, lists, string-keyed maps and tuples are
/// spelled out, `Option<T>` is as `T`, and every other type is asked at run time.
pub open spec fn schema_of(ty: RustType) -> SchemaModel
    decreases ty,
{
    match ty.shape {
        TypeShape::Tuple(elems) => typed_schema_with(
            "array"@,
            "prefixItems"@,
            SchemaModel::List(
                Seq::new(
                    elems@.len(),
                    |i: int|
                        if 0 <= i < elems@.len() {
                            schema_of(elems@[i])
                        } else {
                            SchemaModel::Text(Seq::empty())
                        },
                ),
            ),
        ),
        TypeShape::Path(Some(segment)) => {
            let name = segment.ident@;
            let types = generic_types(segment.arguments);
            proof {
                if types.len() > 0 {
                    lemma_generic_type_smaller(segment.arguments, 0);
                }
                if types.len() > 1 {
                    lemma_generic_type_smaller(segment.arguments, 1);
                }
            }
            if name == "Vec"@ {
                if types.len() > 0 {
                    typed_schema_with("array"@, "items"@, schema_of(types[0]))
                } else {
                    typed_schema("array"@)
                }
            } else if name == "Option"@ && types.len() > 0 {
                schema_of(types[0])
            } else if (name == "HashMap"@ || name == "BTreeMap"@) && types.len() > 1
                && is_path_named(types[0], "String"@) {
                typed_schema_with("object"@, "additionalProperties"@, schema_of(types[1]))
            } else if numeric_name(name) {
                typed_schema("number"@)
            } else if name == "String"@ || name == "str"@ {
                typed_schema("string"@)
            } else if name == "bool"@ {
                typed_schema("boolean"@)
            } else {
                SchemaModel::Dispatch(ty.text@)
            }
        },
        _ => SchemaModel::Dispatch(ty.text@),
    }
}

/// The first two types among generic arguments, as far as there are any.
fn leading_types(args: &Vec<GenericArgument>) -> (r: (Option<&RustType>, Option<&RustType>))
    ensures
        r.0 is Some <==> argument_types(args@).len() > 0,
        r.1 is Some <==> argument_types(args@).len() > 1,
        r.0 matches Some(t) ==> *t == argument_types(args@)[0],
        r.1 matches Some(t) ==> *t == argument_types(args@)[1],
{
    let mut first: Option<&RustType> = None;
    let mut second: Option<&RustType> = None;
    let mut i: usize = 0;
    while i < args.len()
        invariant
            i <= args.len(),
            first is Some <==> argument_types(args@.take(i as int)).len() > 0,
            second is Some <==> argument_types(args@.take(i as int)).len() > 1,
            first matches Some(t) ==> *t == argument_types(args@.take(i as int))[0],
            second matches Some(t) ==> *t == argument_types(args@.take(i as int))[1],
        decreases args.len() - i,
    {
        assert(args@.take(i as int + 1).drop_last() =~= args@.take(i as int));
        if let GenericArgument::Type(t) = &args[i] {
            if first.is_none() {
                first = Some(t);
            } else if second.is_none() {
                second = Some(t);
            }
        }
        i = i + 1;
    }
    assert(args@.take(i as int) =~= args@);
    (first, second)
}

/// The first type between a segment's angle brackets.
pub fn first_generic_type(args: &PathArguments) -> (r: Option<&RustType>)
    ensures
        r is Some <==> generic_types(*args).len() > 0,
        r matches Some(t) ==> *t == generic_types(*args)[0],
{
    match args {
        PathArguments::AngleBracketed(generics) => leading_types(generics).0,
        _ => None,
    }
}

/// The first two types between a segment's angle brackets.
pub fn first_two_generic_types(args: &PathArguments) -> (r: Option<(&RustType, &RustType)>)
    ensures
        r is Some <==> generic_types(*args).len() > 1,
        r matches Some((a, b)) ==> *a == generic_types(*args)[0] && *b == generic_types(*args)[1],
{
    match args {
        PathArguments::AngleBracketed(generics) => {
            let (first, second) = leading_types(generics);
            match (first, second) {
                (Some(a), Some(b)) => Some((a, b)),
                _ => None,
            }
        },
        _ => None,
    }
}

/// Whether a type is a path that ends in `String`.
pub fn is_string_type(ty: &RustType) -> (r: bool)
    ensures
        r == is_path_named(*ty, "String"@),
{
    match &ty.shape {
        TypeShape::Path(Some(segment)) => same_text(segment.ident.as_str(), "String"),
        _ => false,
    }
}

/// The inner type of an `Option<T>`, whatever path leads to `Option`.
pub open spec fn option_inner(ty: RustType) -> Option<RustType> {
    match ty.shape {
        TypeShape::Path(Some(segment)) => if segment.ident@ == "Option"@ && generic_types(
            segment.arguments,
        ).len() > 0 {
            Some(generic_types(segment.arguments)[0])
        } else {
            None
        },
        _ => None,
    }
}

/// Pulls the inner type out of an `Option<T>`.
pub fn unwrap_option(ty: &RustType) -> (r: Option<&RustType>)
    ensures
        r is Some <==> option_inner(*ty) is Some,
        r matches Some(t) ==> Some(*t) == option_inner(*ty),
{
    match &ty.shape {
        TypeShape::Path(Some(segment)) => {
            if same_text(segment.ident.as_str(), "Option") {
                first_generic_type(&segment.arguments)
            } else {
                None
            }
        },
        _ => None,
    }
}

/// Whether a type is an `Option<T>`.
pub fn is_option_type(ty: &RustType) -> (r: bool)
    ensures
        r == (option_inner(*ty) is Some),
{
    unwrap_option(ty).is_some()
}

/// The schema that asks the type itself.
fn fallback_via_trait(ty: &RustType) -> (r: SchemaExpr)
    ensures
        r@ == SchemaModel::Dispatch(ty.text@),
{
    SchemaExpr::Dispatch(ty.text.clone())
}

fn schema_typed(name: &str) -> (r: SchemaExpr)
    ensures
        r@ == typed_schema(name@),
{
    let mut entries: Vec<(String, SchemaExpr)> = Vec::new();
    let value = SchemaExpr::Text(name.to_owned());
    assert(value@ == SchemaModel::Text(name@));
    entries.push(("type".to_owned(), value));
    let r = SchemaExpr::Object(entries);
    assert(r@->Object_0 =~= typed_schema(name@)->Object_0);
    r
}

fn schema_typed_with(name: &str, key: &str, value: SchemaExpr) -> (r: SchemaExpr)
    ensures
        r@ == typed_schema_with(name@, key@, value@),
{
    let mut entries: Vec<(String, SchemaExpr)> = Vec::new();
    let first = SchemaExpr::Text(name.to_owned());
    assert(first@ == SchemaModel::Text(name@));
    entries.push(("type".to_owned(), first));
    entries.push((key.to_owned(), value));
    let r = SchemaExpr::Object(entries);
    assert(r@->Object_0 =~= typed_schema_with(name@, key@, value@)->Object_0);
    r
}

fn is_numeric_name(s: &str) -> (r: bool)
    ensures
        r == numeric_name(s@),
{
    same_text(s, "i8") || same_text(s, "i16") || same_text(s, "i32") || same_text(s, "i64")
        || same_text(s, "i128") || same_text(s, "isize") || same_text(s, "u8") || same_text(s, "u16")
        || same_text(s, "u32") || same_text(s, "u64") || same_text(s, "u128") || same_text(s, "usize")
        || same_text(s, "f32") || same_text(s, "f64")
}

/// Builds the expression for the JSON Schema fragment of a type.
pub fn get_json_type(ty: &RustType) -> (r: SchemaExpr)
    ensures
        r@ == schema_of(*ty),
    decreases ty,
{
    match &ty.shape {
        TypeShape::Tuple(elems) => {
            let mut inner: Vec<SchemaExpr> = Vec::new();
            let mut i: usize = 0;
            while i < elems.len()
                invariant
                    i <= elems.len(),
                    inner.len() == i,
                    ty.shape == TypeShape::Tuple(*elems),
                    forall|k: int|
                        0 <= k < i ==> schema_model(#[trigger] inner@[k]) == schema_of(elems@[k]),
                decreases elems.len() - i,
            {
                assert(decreases_to!(*ty => ty.shape));
                assert(decreases_to!(ty.shape => ty.shape->Tuple_0));
                assert(decreases_to!(*elems => elems@[i as int]));
                let made = get_json_type(&elems[i]);
                inner.push(made);
                i = i + 1;
            }
            let list = SchemaExpr::List(inner);
            assert(list@->List_0 =~= schema_of(*ty)->Object_0[1].1->List_0);
            schema_typed_with("array", "prefixItems", list)
        },
        TypeShape::Path(Some(segment)) => {
            let name = segment.ident.as_str();
            proof {
                assert(decreases_to!(*ty => ty.shape));
                assert(decreases_to!(ty.shape => ty.shape->Path_0));
                assert(decreases_to!(ty.shape->Path_0 => ty.shape->Path_0->0));
                assert(decreases_to!(*segment => segment.arguments));
                let types = generic_types(segment.arguments);
                if types.len() > 0 {
                    lemma_generic_type_smaller(segment.arguments, 0);
                }
                if types.len() > 1 {
                    lemma_generic_type_smaller(segment.arguments, 1);
                }
            }
            if same_text(name, "Vec") {
                match first_generic_type(&segment.arguments) {
                    Some(inner) => {
                        let items = get_json_type(inner);
                        return schema_typed_with("array", "items", items);
                    },
                    None => {
                        return schema_typed("array");
                    },
                }
            }
            if same_text(name, "Option") {
                if let Some(inner) = first_generic_type(&segment.arguments) {
                    return get_json_type(inner);
                }
            }
            if same_text(name, "HashMap") || same_text(name, "BTreeMap") {
                if let Some((key, value)) = first_two_generic_types(&segment.arguments) {
                    if is_string_type(key) {
                        let inner = get_json_type(value);
                        return schema_typed_with("object", "additionalProperties", inner);
                    }
                }
            }
            if is_numeric_name(name) {
                schema_typed("number")
            } else if same_text(name, "String") || same_text(name, "str") {
                schema_typed("string")
            } else if same_text(name, "bool") {
                schema_typed("boolean")
            } else {
                fallback_via_trait(ty)
            }
        },
        _ => fallback_via_trait(ty),
    }
}

/// The source text of a generic argument.
pub open spec fn argument_text(arg: GenericArgument) -> Seq<char> {
    match arg {
        GenericArgument::Type(t) => t.text@,
        GenericArgument::Other(s) => s@,
    }
}

fn clone_argument_text(arg: &GenericArgument) -> (r: String)
    ensures
        r@ == argument_text(*arg),
{
    match arg {
        GenericArgument::Type(t) => t.text.clone(),
        GenericArgument::Other(s) => s.clone(),
    }
}

/// What a tool function hands back.
pub struct ReturnInfo {
    /// Source text of the output type.
    pub output: String,
    /// Source text of the error type.
    pub error: String,
    pub is_fallible: bool,
}

/// What a [`ReturnInfo`] says.
pub struct ReturnModel {
    pub output: Seq<char>,
    pub error: Seq<char>,
    pub is_fallible: bool,
}

impl View for ReturnInfo {
    type V = ReturnModel;

    open spec fn view(&self) -> ReturnModel {
        ReturnModel { output: self.output@, error: self.error@, is_fallible: self.is_fallible }
    }
}

/// A function without an error: its tool's error type is uninhabited.
pub open spec fn infallible(output: Seq<char>) -> ReturnModel {
    ReturnModel { output, error: "::core::convert::Infallible"@, is_fallible: false }
}

/// The return type split up: `Result<T, E>` is fallible, all else is not. A `Result` needs
/// exactly two arguments between angle brackets.
pub open spec fn return_info(output: Option<RustType>) -> Result<ReturnModel, Seq<char>> {
    match output {
        None => Ok(infallible("()"@)),
        Some(ty) => match ty.shape {
            TypeShape::Path(Some(segment)) => if segment.ident@ == "Result"@ {
                match segment.arguments {
                    PathArguments::AngleBracketed(args) => if args@.len() == 2 {
                        Ok(
                            ReturnModel {
                                output: argument_text(args@[0]),
                                error: argument_text(args@[1]),
                                is_fallible: true,
                            },
                        )
                    } else {
                        Err("expected Result<T, E> with exactly two type parameters"@)
                    },
                    _ => Err("expected angle-bracketed type parameters for Result<T, E>"@),
                }
            } else {
                Ok(infallible(ty.text@))
            },
            _ => Ok(infallible(ty.text@)),
        },
    }
}

/// What a result with texts says.
pub open spec fn return_result(r: Result<ReturnInfo, String>) -> Result<ReturnModel, Seq<char>> {
    match r {
        Ok(info) => Ok(info@),
        Err(e) => Err(e@),
    }
}

/// Splits a function's return type into the tool's output and error types.
pub fn analyze_return_type(output: &Option<RustType>) -> (r: Result<ReturnInfo, String>)
    ensures
        return_result(r) == return_info(*output),
{
    let ty = match output {
        Some(ty) => ty,
        None => {
            return Ok(
                ReturnInfo {
                    output: "()".to_owned(),
                    error: "::core::convert::Infallible".to_owned(),
                    is_fallible: false,
                },
            );
        },
    };
    if let TypeShape::Path(Some(segment)) = &ty.shape {
        if same_text(segment.ident.as_str(), "Result") {
            return match &segment.arguments {
                PathArguments::AngleBracketed(args) => {
                    if args.len() == 2 {
                        Ok(
                            ReturnInfo {
                                output: clone_argument_text(&args[0]),
                                error: clone_argument_text(&args[1]),
                                is_fallible: true,
                            },
                        )
                    } else {
                        Err("expected Result<T, E> with exactly two type parameters".to_owned())
                    }
                },
                _ => Err("expected angle-bracketed type parameters for Result<T, E>".to_owned()),
            };
        }
    }
    Ok(
        ReturnInfo {
            output: ty.text.clone(),
            error: "::core::convert::Infallible".to_owned(),
            is_fallible: false,
        },
    )
}

/// Whether a type is a reference to a path that ends in `ToolContext`.
pub open spec fn tool_context_ref(ty: RustType) -> bool {
    ty.shape matches TypeShape::Reference(elem) && is_path_named(*elem, "ToolContext"@)
}

/// Detects the trailing `ctx: &ToolContext` parameter, whatever path leads to `ToolContext`.
pub fn is_tool_context_ref(ty: &RustType) -> (r: bool)
    ensures
        r == tool_context_ref(*ty),
{
    match &ty.shape {
        TypeShape::Reference(elem) => match &elem.shape {
            TypeShape::Path(Some(segment)) => same_text(segment.ident.as_str(), "ToolContext"),
            _ => false,
        },
        _ => false,
    }
}

/// An attribute of the annotated item or of one of its parameters.
pub struct Attribute {
    /// The attribute's path where it is a single identifier.
    pub ident: Option<String>,
    /// The value of a `name = "text"` attribute; `None` for every other form.
    pub literal: Option<String>,
}

/// A documentation line without the one space that `///` puts in front.
pub open spec fn doc_line(raw: Seq<char>) -> Seq<char> {
    if raw.len() > 0 && raw[0] == ' ' {
        raw.subrange(1, raw.len() as int)
    } else {
        raw
    }
}

/// Whether an attribute is a line of documentation.
pub open spec fn is_doc(attr: Attribute) -> bool {
    text::opt_text(attr.ident) == Some("doc"@) && attr.literal is Some
}

/// The documentation lines among attributes, in order.
pub open spec fn doc_lines(attrs: Seq<Attribute>) -> Seq<Seq<char>>
    decreases attrs.len(),
{
    if attrs.len() == 0 {
        Seq::empty()
    } else {
        let before = doc_lines(attrs.drop_last());
        if is_doc(attrs.last()) {
            before.push(doc_line(attrs.last().literal->0@))
        } else {
            before
        }
    }
}

/// The documentation of an item, line by line; `None` where there is none.
pub open spec fn doc_comment(attrs: Seq<Attribute>) -> Option<Seq<char>> {
    if doc_lines(attrs).len() == 0 {
        None
    } else {
        Some(text::join_text(doc_lines(attrs), "\n"@))
    }
}

fn has_ident(attr: &Attribute, name: &str) -> (r: bool)
    ensures
        r == (text::opt_text(attr.ident) == Some(name@)),
{
    match &attr.ident {
        Some(s) => same_text(s.as_str(), name),
        None => false,
    }
}

fn strip_one_space(raw: &str) -> (r: String)
    ensures
        r@ == doc_line(raw@),
{
    let chars = chars_of(raw);
    if chars.len() > 0 && chars[0] == ' ' {
        text_of(&chars, 1, chars.len())
    } else {
        raw.to_owned()
    }
}

/// Reads the documentation out of attributes.
pub fn extract_doc_comment(attrs: &Vec<Attribute>) -> (r: Option<String>)
    ensures
        text::opt_text(r) == doc_comment(attrs@),
{
    let mut lines: Vec<String> = Vec::new();
    let mut i: usize = 0;
    while i < attrs.len()
        invariant
            i <= attrs.len(),
            text::texts(lines@) == doc_lines(attrs@.take(i as int)),
        decreases attrs.len() - i,
    {
        let ghost before = lines@;
        assert(attrs@.take(i as int + 1).drop_last() =~= attrs@.take(i as int));
        if has_ident(&attrs[i], "doc") {
            if let Some(raw) = &attrs[i].literal {
                lines.push(strip_one_space(raw.as_str()));
                assert(text::texts(lines@) =~= text::texts(before).push(doc_line(raw@)));
            }
        }
        i = i + 1;
    }
    assert(attrs@.take(i as int) =~= attrs@);
    assert(text::texts(lines@).len() == lines@.len());
    if lines.len() == 0 {
        None
    } else {
        Some(join(&lines, "\n"))
    }
}

/// An ASCII letter.
pub open spec fn ascii_letter(c: char) -> bool {
    ('a' <= c && c <= 'z') || ('A' <= c && c <= 'Z')
}

/// An ASCII letter, digit, underscore or hyphen.
pub open spec fn name_char(c: char) -> bool {
    ascii_letter(c) || ('0' <= c && c <= '9') || c == '_' || c == '-'
}

/// Why a text cannot be a tool's name; `None` where it can.
pub open spec fn tool_name_error(name: Seq<char>) -> Option<Seq<char>> {
    if name.len() == 0 || vstd::utf8::encode_utf8(name).len() > 64 {
        Some("`name` must be between 1 and 64 characters long"@)
    } else if !(ascii_letter(name[0]) || name[0] == '_') {
        Some("`name` must start with an ASCII letter or underscore"@)
    } else if exists|i: int| 1 <= i < name.len() && !name_char(#[trigger] name[i]) {
        Some("`name` may only contain ASCII letters, digits, underscores, or hyphens"@)
    } else {
        None
    }
}

fn is_ascii_letter(c: char) -> (r: bool)
    ensures
        r == ascii_letter(c),
{
    ('a' <= c && c <= 'z') || ('A' <= c && c <= 'Z')
}

fn is_name_char(c: char) -> (r: bool)
    ensures
        r == name_char(c),
{
    is_ascii_letter(c) || ('0' <= c && c <= '9') || c == '_' || c == '-'
}

/// Checks a tool name given in the attribute.
pub fn validate_explicit_tool_name(name: &str) -> (r: Result<(), String>)
    ensures
        r is Ok <==> tool_name_error(name@) is None,
        r matches Err(e) ==> tool_name_error(name@) == Some(e@),
{
    let chars = chars_of(name);
    if chars.len() == 0 || name.as_bytes().len() > 64 {
        return Err("`name` must be between 1 and 64 characters long".to_owned());
    }
    if !is_ascii_letter(chars[0]) && chars[0] != '_' {
        return Err("`name` must start with an ASCII letter or underscore".to_owned());
    }
    let mut i: usize = 1;
    while i < chars.len()
        invariant
            chars@ == name@,
            1 <= i <= chars@.len(),
            forall|k: int| 1 <= k < i ==> name_char(#[trigger] name@[k]),
            vstd::utf8::encode_utf8(name@).len() <= 64,
            ascii_letter(name@[0]) || name@[0] == '_',
        decreases chars.len() - i,
    {
        if !is_name_char(chars[i]) {
            assert(!name_char(name@[i as int]));
            return Err(
                "`name` may only contain ASCII letters, digits, underscores, or hyphens".to_owned(),
            );
        }
        i = i + 1;
    }
    Ok(())
}

/// One argument of `#[ailoop_tool(..)]`.
///
/// `ident` is the argument's path where that is a single identifier.
pub enum MetaItem {
    /// `path = value`; `literal` is the value where that is a string literal.
    NameValue { ident: Option<String>, literal: Option<String> },
    /// `path(..)`, its contents read as metas and read as identifiers, each with the parser's
    /// message where they are none.
    List {
        ident: Option<String>,
        metas: Result<Vec<ParamMeta>, String>,
        idents: Result<Vec<String>, String>,
    },
    /// A bare path.
    Path { ident: Option<String> },
}

/// One entry of `params(..)`.
pub enum ParamMeta {
    /// `path = value`; `literal` is the value where that is a string literal.
    NameValue { ident: Option<String>, literal: Option<String> },
    Other,
}

/// The arguments of `#[ailoop_tool(..)]`.
pub struct MacroArgs {
    pub name: Option<String>,
    pub description: Option<String>,
    /// Parameter names with their descriptions; of entries with one name the last counts.
    pub param_descriptions: Vec<(String, String)>,
    /// `None` where required parameters are to be inferred from their types.
    pub required: Option<Vec<String>>,
    pub tags: Vec<String>,
}

/// What [`MacroArgs`] say.
pub struct ArgsModel {
    pub name: Option<Seq<char>>,
    pub description: Option<Seq<char>>,
    pub param_descriptions: Map<Seq<char>, Seq<char>>,
    pub required: Option<Seq<Seq<char>>>,
    pub tags: Seq<Seq<char>>,
}

/// Pairs of texts as a map in which the last pair of a key counts.
pub open spec fn pairs_model(pairs: Seq<(String, String)>) -> Map<Seq<char>, Seq<char>>
    decreases pairs.len(),
{
    if pairs.len() == 0 {
        Map::empty()
    } else {
        pairs_model(pairs.drop_last()).insert(pairs.last().0@, pairs.last().1@)
    }
}

impl View for MacroArgs {
    type V = ArgsModel;

    open spec fn view(&self) -> ArgsModel {
        ArgsModel {
            name: text::opt_text(self.name),
            description: text::opt_text(self.description),
            param_descriptions: pairs_model(self.param_descriptions@),
            required: match self.required {
                Some(names) => Some(text::texts(names@)),
                None => None,
            },
            tags: text::texts(self.tags@),
        }
    }
}

/// The arguments of a bare `#[ailoop_tool]`.
pub open spec fn no_args() -> ArgsModel {
    ArgsModel {
        name: None,
        description: None,
        param_descriptions: Map::empty(),
        required: None,
        tags: Seq::empty(),
    }
}

/// The refusal of an argument, with its name where it has one.
pub open spec fn unsupported(ident: Option<String>) -> Seq<char> {
    match ident {
        Some(name) => "unsupported top-level #[ailoop_tool] argument `"@ + name@ + "`"@,
        None => "unsupported top-level #[ailoop_tool] argument"@,
    }
}

/// `params(..)` read entry by entry: string literals count, other values are skipped.
pub open spec fn params_from(
    metas: Seq<ParamMeta>,
    known: Map<Seq<char>, Seq<char>>,
) -> Result<Map<Seq<char>, Seq<char>>, Seq<char>>
    decreases metas.len(),
{
    if metas.len() == 0 {
        Ok(known)
    } else {
        let rest = metas.subrange(1, metas.len() as int);
        match metas[0] {
            ParamMeta::NameValue { ident, literal: Some(value) } => match ident {
                Some(name) => params_from(rest, known.insert(name@, value@)),
                None => Err("parameter descriptions must use identifier keys"@),
            },
            _ => params_from(rest, known),
        }
    }
}

/// The arguments after one more item.
pub open spec fn with_item(args: ArgsModel, item: MetaItem) -> Result<ArgsModel, Seq<char>> {
    match item {
        MetaItem::NameValue { ident, literal } => if text::opt_text(ident) == Some("name"@) {
            match literal {
                None => Err("`name` must be a string literal"@),
                Some(value) => match tool_name_error(value@) {
                    Some(e) => Err(e),
                    None => Ok(ArgsModel { name: Some(value@), ..args }),
                },
            }
        } else if text::opt_text(ident) == Some("description"@) {
            match literal {
                None => Err("`description` must be a string literal"@),
                Some(value) => Ok(ArgsModel { description: Some(value@), ..args }),
            }
        } else {
            Err(unsupported(ident))
        },
        MetaItem::List { ident, metas, idents } => if text::opt_text(ident) == Some("params"@) {
            match metas {
                Err(e) => Err(e@),
                Ok(list) => match params_from(list@, args.param_descriptions) {
                    Err(e) => Err(e),
                    Ok(known) => Ok(ArgsModel { param_descriptions: known, ..args }),
                },
            }
        } else if text::opt_text(ident) == Some("required"@) {
            match idents {
                Err(e) => Err(e@),
                Ok(names) => Ok(ArgsModel { required: Some(text::texts(names@)), ..args }),
            }
        } else if text::opt_text(ident) == Some("tags"@) {
            match idents {
                Err(e) => Err(e@),
                Ok(names) => Ok(ArgsModel { tags: args.tags + text::texts(names@), ..args }),
            }
        } else {
            Err(unsupported(ident))
        },
        MetaItem::Path { ident } => Err(unsupported(ident)),
    }
}

/// The arguments after all items, or the message of the first item that is refused.
pub open spec fn with_items(args: ArgsModel, items: Seq<MetaItem>) -> Result<ArgsModel, Seq<char>>
    decreases items.len(),
{
    if items.len() == 0 {
        Ok(args)
    } else {
        match with_item(args, items[0]) {
            Ok(next) => with_items(next, items.subrange(1, items.len() as int)),
            Err(e) => Err(e),
        }
    }
}

/// What a result of reading arguments says.
pub open spec fn args_result(r: Result<MacroArgs, String>) -> Result<ArgsModel, Seq<char>> {
    match r {
        Ok(args) => Ok(args@),
        Err(e) => Err(e@),
    }
}

fn unsupported_argument(ident: &Option<String>) -> (r: String)
    ensures
        r@ == unsupported(*ident),
{
    match ident {
        Some(name) => {
            let mut message = "unsupported top-level #[ailoop_tool] argument `".to_owned();
            message.append(name.as_str());
            message.append("`");
            message
        },
        None => "unsupported top-level #[ailoop_tool] argument".to_owned(),
    }
}

/// Whether an optional identifier is `name`.
fn is_ident(ident: &Option<String>, name: &str) -> (r: bool)
    ensures
        r == (text::opt_text(*ident) == Some(name@)),
{
    match ident {
        Some(s) => same_text(s.as_str(), name),
        None => false,
    }
}

/// The string literal of a top-level argument.
fn parse_string_literal(literal: Option<String>, field_name: &str) -> (r: Result<String, String>)
    ensures
        r is Ok <==> literal is Some,
        r matches Ok(s) ==> literal == Some(s),
        r matches Err(e) ==> e@ == "`"@ + field_name@ + "` must be a string literal"@,
{
    match literal {
        Some(s) => Ok(s),
        None => {
            let mut message = "`".to_owned();
            message.append(field_name);
            message.append("` must be a string literal");
            Err(message)
        },
    }
}

/// Adds the entries of `params(..)` to the descriptions known so far.
fn read_params(metas: Vec<ParamMeta>, known: Vec<(String, String)>) -> (r: Result<
    Vec<(String, String)>,
    String,
>)
    ensures
        params_from(metas@, pairs_model(known@)) == (match r {
            Ok(pairs) => Ok::<Map<Seq<char>, Seq<char>>, Seq<char>>(pairs_model(pairs@)),
            Err(e) => Err(e@),
        }),
{
    let ghost all = metas@;
    let ghost start = pairs_model(known@);
    let mut pairs = known;
    assert(all.subrange(0, all.len() as int) =~= all);
    for meta in it: metas
        invariant
            it.seq() == all,
            all == metas@,
            start == pairs_model(known@),
            params_from(all, start) == params_from(
                all.subrange(it.index() as int, all.len() as int),
                pairs_model(pairs@),
            ),
    {
        let ghost k: int = it.index() as int;
        let ghost left = all.subrange(k, all.len() as int);
        assert(left.subrange(1, left.len() as int) =~= all.subrange(k + 1, all.len() as int));
        assert(meta == all[k]);
        match meta {
            ParamMeta::NameValue { ident, literal: Some(value) } => match ident {
                Some(name) => {
                    let ghost before = pairs@;
                    pairs.push((name, value));
                    assert(pairs@.drop_last() =~= before);
                },
                None => {
                    return Err("parameter descriptions must use identifier keys".to_owned());
                },
            },
            _ => {},
        }
    }
    Ok(pairs)
}

impl MacroArgs {
    /// Reads the arguments of `#[ailoop_tool(..)]`.
    pub fn parse(items: Vec<MetaItem>) -> (r: Result<MacroArgs, String>)
        ensures
            args_result(r) == with_items(no_args(), items@),
    {
        let ghost all = items@;
        let mut name: Option<String> = None;
        let mut description: Option<String> = None;
        let mut param_descriptions: Vec<(String, String)> = Vec::new();
        let mut required: Option<Vec<String>> = None;
        let mut tags: Vec<String> = Vec::new();
        let ghost mut sofar = no_args();
        assert(all.subrange(0, all.len() as int) =~= all);
        assert(text::texts(tags@) =~= Seq::<Seq<char>>::empty());
        for item in it: items
            invariant
                it.seq() == all,
                all == items@,
                sofar.name == text::opt_text(name),
                sofar.description == text::opt_text(description),
                sofar.param_descriptions == pairs_model(param_descriptions@),
                sofar.required == (match required {
                    Some(names) => Some(text::texts(names@)),
                    None => None,
                }),
                sofar.tags == text::texts(tags@),
                with_items(no_args(), all) == with_items(
                    sofar,
                    all.subrange(it.index() as int, all.len() as int),
                ),
        {
            let ghost k: int = it.index() as int;
            let ghost left = all.subrange(k, all.len() as int);
            assert(left.subrange(1, left.len() as int) =~= all.subrange(k + 1, all.len() as int));
            assert(item == all[k]);
            match item {
                MetaItem::NameValue { ident, literal } => {
                    if is_ident(&ident, "name") {
                        let parsed_name = match parse_string_literal(literal, "name") {
                            Ok(value) => value,
                            Err(e) => {
                                proof {
                                    reveal_strlit("`");
                                    reveal_strlit("name");
                                    reveal_strlit("` must be a string literal");
                                    reveal_strlit("`name` must be a string literal");
                                    assert(e@ =~= "`name` must be a string literal"@);
                                }
                                return Err(e);
                            },
                        };
                        if let Err(e) = validate_explicit_tool_name(parsed_name.as_str()) {
                            return Err(e);
                        }
                        name = Some(parsed_name);
                    } else if is_ident(&ident, "description") {
                        let parsed = match parse_string_literal(literal, "description") {
                            Ok(value) => value,
                            Err(e) => {
                                proof {
                                    reveal_strlit("`");
                                    reveal_strlit("description");
                                    reveal_strlit("` must be a string literal");
                                    reveal_strlit("`description` must be a string literal");
                                    assert(e@ =~= "`description` must be a string literal"@);
                                }
                                return Err(e);
                            },
                        };
                        description = Some(parsed);
                    } else {
                        return Err(unsupported_argument(&ident));
                    }
                },
                MetaItem::List { ident, metas, idents } => {
                    if is_ident(&ident, "params") {
                        let list = match metas {
                            Ok(list) => list,
                            Err(e) => {
                                return Err(e);
                            },
                        };
                        match read_params(list, param_descriptions) {
                            Ok(pairs) => {
                                param_descriptions = pairs;
                            },
                            Err(e) => {
                                return Err(e);
                            },
                        }
                    } else if is_ident(&ident, "required") {
                        match idents {
                            Ok(names) => {
                                required = Some(names);
                            },
                            Err(e) => {
                                return Err(e);
                            },
                        }
                    } else if is_ident(&ident, "tags") {
                        match idents {
                            Ok(names) => {
                                let ghost before = tags@;
                                let mut more = names;
                                tags.append(&mut more);
                                assert(text::texts(tags@) =~= text::texts(before) + text::texts(names@));
                            },
                            Err(e) => {
                                return Err(e);
                            },
                        }
                    } else {
                        return Err(unsupported_argument(&ident));
                    }
                },
                MetaItem::Path { ident } => {
                    return Err(unsupported_argument(&ident));
                },
            }
            proof {
                sofar = with_item(sofar, item)->Ok_0;
            }
        }
        Ok(MacroArgs { name, description, param_descriptions, required, tags })
    }
}

/// The function an `#[ailoop_tool]` attribute stands on.
pub struct ToolFn {
    pub name: String,
    pub is_async: bool,
    pub attrs: Vec<Attribute>,
    pub inputs: Vec<FnInput>,
    /// The return type; `None` where none is written.
    pub output: Option<RustType>,
}

/// One parameter of a function.
pub enum FnInput {
    /// `self` in one of its forms.
    Receiver,
    /// `pattern: Type`; `ident` is the pattern where that is a plain identifier.
    Typed { ident: Option<String>, ty: RustType, attrs: Vec<Attribute> },
}

/// A parameter that the model fills in.
pub struct ToolParam {
    pub name: String,
    /// Source text of the parameter's type.
    pub ty: String,
    pub description: String,
    pub schema: SchemaExpr,
}

/// What a [`ToolParam`] says.
pub struct ParamModel {
    pub name: Seq<char>,
    pub ty: Seq<char>,
    pub description: Seq<char>,
    pub schema: SchemaModel,
}

impl View for ToolParam {
    type V = ParamModel;

    open spec fn view(&self) -> ParamModel {
        ParamModel {
            name: self.name@,
            ty: self.ty@,
            description: self.description@,
            schema: self.schema@,
        }
    }
}

/// Everything the expansion of `#[ailoop_tool]` prints.
pub struct ToolPlan {
    pub tool_name: String,
    /// Name of the generated tool struct.
    pub struct_name: String,
    /// Name of the generated arguments struct.
    pub params_struct_name: String,
    /// Name of the generated static.
    pub static_name: String,
    pub description: String,
    pub params: Vec<ToolParam>,
    /// Names of the parameters a call must give.
    pub required: Vec<String>,
    pub tags: Vec<String>,
    /// The function takes the tool context as its last parameter.
    pub takes_ctx: bool,
    pub is_async: bool,
    pub return_shape: ReturnInfo,
}

/// What a [`ToolPlan`] says.
pub struct PlanModel {
    pub tool_name: Seq<char>,
    pub struct_name: Seq<char>,
    pub params_struct_name: Seq<char>,
    pub static_name: Seq<char>,
    pub description: Seq<char>,
    pub params: Seq<ParamModel>,
    pub required: Seq<Seq<char>>,
    pub tags: Seq<Seq<char>>,
    pub takes_ctx: bool,
    pub is_async: bool,
    pub return_shape: ReturnModel,
}

impl View for ToolPlan {
    type V = PlanModel;

    open spec fn view(&self) -> PlanModel {
        PlanModel {
            tool_name: self.tool_name@,
            struct_name: self.struct_name@,
            params_struct_name: self.params_struct_name@,
            static_name: self.static_name@,
            description: self.description@,
            params: self.params@.map_values(|p: ToolParam| p@),
            required: text::texts(self.required@),
            tags: text::texts(self.tags@),
            takes_ctx: self.takes_ctx,
            is_async: self.is_async,
            return_shape: self.return_shape@,
        }
    }
}

/// What `convert_case` makes of a text in Pascal case.
pub uninterp spec fn pascal_case(s: Seq<char>) -> Seq<char>;

/// What `str::to_uppercase` makes of a text.
pub uninterp spec fn upper_case(s: Seq<char>) -> Seq<char>;

/// Calls `to_case` of `convert_case::Casing` with `Case::Pascal`; the result is named by
/// [`pascal_case`].
#[verifier::external_body]
fn to_pascal_case(s: &str) -> (r: String)
    ensures
        r@ == pascal_case(s@),
{
    convert_case::Casing::to_case(&s, convert_case::Case::Pascal)
}

/// Calls `str::to_uppercase`; the result is named by [`upper_case`].
#[verifier::external_body]
fn to_upper_case(s: &str) -> (r: String)
    ensures
        r@ == upper_case(s@),
{
    s.to_uppercase()
}

/// Whether the last of a function's parameters is the tool context.
pub open spec fn takes_context(inputs: Seq<FnInput>) -> bool {
    inputs.len() > 0 && (inputs.last() matches FnInput::Typed { ty, .. } && tool_context_ref(ty))
}

/// The parameters without the trailing tool context.
pub open spec fn payload_inputs(inputs: Seq<FnInput>) -> Seq<FnInput> {
    if takes_context(inputs) {
        inputs.drop_last()
    } else {
        inputs
    }
}

/// A parameter's description: the attribute's, or its own documentation, or nothing.
pub open spec fn param_description(
    descriptions: Map<Seq<char>, Seq<char>>,
    name: Seq<char>,
    attrs: Seq<Attribute>,
) -> Seq<char> {
    if descriptions.dom().contains(name) {
        descriptions[name]
    } else {
        match doc_comment(attrs) {
            Some(doc) => doc,
            None => Seq::empty(),
        }
    }
}

/// The parameters that the model fills in: those with a plain identifier, in order.
pub open spec fn tool_params(
    descriptions: Map<Seq<char>, Seq<char>>,
    inputs: Seq<FnInput>,
) -> Seq<ParamModel>
    decreases inputs.len(),
{
    if inputs.len() == 0 {
        Seq::empty()
    } else {
        let before = tool_params(descriptions, inputs.drop_last());
        match inputs.last() {
            FnInput::Typed { ident: Some(name), ty, attrs } => before.push(
                ParamModel {
                    name: name@,
                    ty: ty.text@,
                    description: param_description(descriptions, name@, attrs@),
                    schema: schema_of(ty),
                },
            ),
            _ => before,
        }
    }
}

/// The parameters whose type is not an `Option`.
pub open spec fn inferred_required(inputs: Seq<FnInput>) -> Seq<Seq<char>>
    decreases inputs.len(),
{
    if inputs.len() == 0 {
        Seq::empty()
    } else {
        let before = inferred_required(inputs.drop_last());
        match inputs.last() {
            FnInput::Typed { ident: Some(name), ty, .. } => if option_inner(ty) is None {
                before.push(name@)
            } else {
                before
            },
            _ => before,
        }
    }
}

/// The expansion's content for a function under given arguments and generated names.
pub open spec fn tool_plan(
    args: ArgsModel,
    f: ToolFn,
    struct_name: Seq<char>,
    static_name: Seq<char>,
) -> Result<PlanModel, Seq<char>> {
    match return_info(f.output) {
        Err(e) => Err(e),
        Ok(return_shape) => Ok(
            PlanModel {
                tool_name: match args.name {
                    Some(name) => name,
                    None => f.name@,
                },
                struct_name,
                params_struct_name: struct_name + "Parameters"@,
                static_name,
                description: match args.description {
                    Some(description) => description,
                    None => match doc_comment(f.attrs@) {
                        Some(doc) => doc,
                        None => Seq::empty(),
                    },
                },
                params: tool_params(args.param_descriptions, payload_inputs(f.inputs@)),
                required: match args.required {
                    Some(names) => names,
                    None => inferred_required(payload_inputs(f.inputs@)),
                },
                tags: args.tags,
                takes_ctx: takes_context(f.inputs@),
                is_async: f.is_async,
                return_shape,
            },
        ),
    }
}

/// What a result of planning says.
pub open spec fn plan_result(r: Result<ToolPlan, String>) -> Result<PlanModel, Seq<char>> {
    match r {
        Ok(plan) => Ok(plan@),
        Err(e) => Err(e@),
    }
}

fn find_description(pairs: &Vec<(String, String)>, name: &str) -> (r: Option<String>)
    ensures
        r is Some <==> pairs_model(pairs@).dom().contains(name@),
        r matches Some(s) ==> s@ == pairs_model(pairs@)[name@],
{
    let mut n: usize = pairs.len();
    assert(pairs@.take(n as int) =~= pairs@);
    while n > 0
        invariant
            n <= pairs.len(),
            pairs_model(pairs@).dom().contains(name@) <==> pairs_model(
                pairs@.take(n as int),
            ).dom().contains(name@),
            pairs_model(pairs@)[name@] == pairs_model(pairs@.take(n as int))[name@],
        decreases n,
    {
        assert(pairs@.take(n as int).drop_last() =~= pairs@.take(n as int - 1));
        if same_text(pairs[n - 1].0.as_str(), name) {
            return Some(pairs[n - 1].1.clone());
        }
        n = n - 1;
    }
    None
}

fn describe_param(pairs: &Vec<(String, String)>, name: &str, attrs: &Vec<Attribute>) -> (r: String)
    ensures
        r@ == param_description(pairs_model(pairs@), name@, attrs@),
{
    match find_description(pairs, name) {
        Some(s) => s,
        None => match extract_doc_comment(attrs) {
            Some(doc) => doc,
            None => String::new(),
        },
    }
}

/// Decides what `#[ailoop_tool]` expands to.
pub fn ailoop_tool(args: MacroArgs, f: &ToolFn) -> (r: Result<ToolPlan, String>)
    ensures
        plan_result(r) == tool_plan(args@, *f, pascal_case(f.name@), upper_case(f.name@)),
{
    let struct_name = to_pascal_case(f.name.as_str());
    let static_name = to_upper_case(f.name.as_str());
    plan_tool(args, f, struct_name, static_name)
}

/// Decides what `#[ailoop_tool]` expands to, given the names of the generated items.
pub fn plan_tool(args: MacroArgs, f: &ToolFn, struct_name: String, static_name: String) -> (r: Result<
    ToolPlan,
    String,
>)
    ensures
        plan_result(r) == tool_plan(args@, *f, struct_name@, static_name@),
{
    let return_shape = match analyze_return_type(&f.output) {
        Ok(info) => info,
        Err(e) => {
            return Err(e);
        },
    };
    let tool_name = match &args.name {
        Some(name) => name.clone(),
        None => f.name.clone(),
    };
    let description = match &args.description {
        Some(description) => description.clone(),
        None => match extract_doc_comment(&f.attrs) {
            Some(doc) => doc,
            None => String::new(),
        },
    };
    let total: usize = f.inputs.len();
    let takes_ctx = if total == 0 {
        false
    } else {
        match &f.inputs[total - 1] {
            FnInput::Typed { ty, .. } => is_tool_context_ref(ty),
            FnInput::Receiver => false,
        }
    };
    let payload: usize = if takes_ctx {
        total - 1
    } else {
        total
    };
    let ghost inputs = payload_inputs(f.inputs@);
    let ghost descriptions = pairs_model(args.param_descriptions@);
    assert(inputs =~= f.inputs@.take(payload as int));
    let mut params: Vec<ToolParam> = Vec::new();
    let mut inferred: Vec<String> = Vec::new();
    let mut i: usize = 0;
    assert(params@.map_values(|p: ToolParam| p@) =~= Seq::<ParamModel>::empty());
    assert(text::texts(inferred@) =~= Seq::<Seq<char>>::empty());
    while i < payload
        invariant
            i <= payload <= f.inputs@.len(),
            inputs == f.inputs@.take(payload as int),
            descriptions == pairs_model(args.param_descriptions@),
            params@.map_values(|p: ToolParam| p@) == tool_params(descriptions, inputs.take(i as int)),
            text::texts(inferred@) == inferred_required(inputs.take(i as int)),
        decreases payload - i,
    {
        let ghost before = params@;
        let ghost before_names = inferred@;
        assert(inputs.take(i as int + 1).drop_last() =~= inputs.take(i as int));
        if let FnInput::Typed { ident: Some(name), ty, attrs } = &f.inputs[i] {
            let param = ToolParam {
                name: name.clone(),
                ty: ty.text.clone(),
                description: describe_param(&args.param_descriptions, name.as_str(), attrs),
                schema: get_json_type(ty),
            };
            params.push(param);
            assert(params@.map_values(|p: ToolParam| p@) =~= before.map_values(
                |p: ToolParam| p@,
            ).push(param@));
            if !is_option_type(ty) {
                inferred.push(name.clone());
                assert(text::texts(inferred@) =~= text::texts(before_names).push(name@));
            }
        }
        i = i + 1;
    }
    assert(inputs.take(i as int) =~= inputs);
    let required = match args.required {
        Some(names) => names,
        None => inferred,
    };
    let mut params_struct_name = struct_name.clone();
    params_struct_name.append("Parameters");
    let plan = ToolPlan {
        tool_name,
        struct_name,
        params_struct_name,
        static_name,
        description,
        params,
        required,
        tags: args.tags,
        takes_ctx,
        is_async: f.is_async,
        return_shape,
    };
    Ok(plan)
}

/// What `#[derive(ToolJsonType)]` stands on.
pub enum DeriveData {
    Enum(Vec<DeriveVariant>),
    Struct,
    Union,
}

/// One variant of an enum.
pub struct DeriveVariant {
    pub ident: String,
    /// The variant carries no fields.
    pub is_unit: bool,
}

/// The schema of an enum of unit variants: a string out of their names.
pub open spec fn derived_schema(data: DeriveData) -> Result<SchemaModel, Seq<char>> {
    match data {
        DeriveData::Enum(variants) => if forall|i: int|
            0 <= i < variants@.len() ==> (#[trigger] variants@[i]).is_unit {
            Ok(
                typed_schema_with(
                    "string"@,
                    "enum"@,
                    SchemaModel::List(
                        variants@.map_values(|v: DeriveVariant| SchemaModel::Text(v.ident@)),
                    ),
                ),
            )
        } else {
            Err(
                "#[derive(ToolJsonType)] only supports C-style enums (unit variants). Variants carrying a payload are out of scope — implement `ToolJsonType` manually for this type."@,
            )
        },
        _ => Err(
            "#[derive(ToolJsonType)] is only supported on enums; implement `ToolJsonType` manually for structs or unions."@,
        ),
    }
}

/// Decides what `#[derive(ToolJsonType)]` expands to.
pub fn derive_tool_json_type(data: &DeriveData) -> (r: Result<SchemaExpr, String>)
    ensures
        derived_schema(*data) == (match r {
            Ok(schema) => Ok::<SchemaModel, Seq<char>>(schema@),
            Err(e) => Err(e@),
        }),
{
    match data {
        DeriveData::Enum(variants) => {
            let mut names: Vec<SchemaExpr> = Vec::new();
            let mut i: usize = 0;
            while i < variants.len()
                invariant
                    i <= variants.len(),
                    names.len() == i,
                    *data == DeriveData::Enum(*variants),
                    forall|k: int| 0 <= k < i ==> (#[trigger] variants@[k]).is_unit,
                    forall|k: int|
                        0 <= k < i ==> schema_model(#[trigger] names@[k]) == SchemaModel::Text(
                            variants@[k].ident@,
                        ),
                decreases variants.len() - i,
            {
                if !variants[i].is_unit {
                    assert(!variants@[i as int].is_unit);
                    return Err(
                        "#[derive(ToolJsonType)] only supports C-style enums (unit variants). Variants carrying a payload are out of scope — implement `ToolJsonType` manually for this type.".to_owned(),
                    );
                }
                names.push(SchemaExpr::Text(variants[i].ident.clone()));
                i = i + 1;
            }
            let list = SchemaExpr::List(names);
            assert(list@->List_0 =~= variants@.map_values(
                |v: DeriveVariant| SchemaModel::Text(v.ident@),
            ));
            Ok(schema_typed_with("string", "enum", list))
        },
        _ => Err(
            "#[derive(ToolJsonType)] is only supported on enums; implement `ToolJsonType` manually for structs or unions.".to_owned(),
        ),
    }
}

/// A schema with its `description` entry set; a schema that is no object stays as it is.
pub open spec fn described(schema: JsonModel, description: Seq<char>) -> JsonModel {
    match schema {
        JsonModel::Object(m) => JsonModel::Object(
            m.insert("description"@, JsonModel::Text(description)),
        ),
        other => other,
    }
}

/// The `properties` of a tool's input, parameter by parameter.
pub open spec fn properties(params: Seq<(String, String, Json)>) -> Map<Seq<char>, JsonModel>
    decreases params.len(),
{
    if params.len() == 0 {
        Map::empty()
    } else {
        let (name, description, schema) = params.last();
        properties(params.drop_last()).insert(name@, described(schema@, description@))
    }
}

/// The JSON Schema of a tool's input.
pub open spec fn input_schema(
    params: Seq<(String, String, Json)>,
    required: Seq<Seq<char>>,
) -> JsonModel {
    JsonModel::Object(
        Map::empty().insert("type"@, JsonModel::Text("object"@)).insert(
            "properties"@,
            JsonModel::Object(properties(params)),
        ).insert(
            "required"@,
            JsonModel::Array(required.map_values(|name: Seq<char>| JsonModel::Text(name))),
        ),
    )
}

/// Assembles a tool's input schema out of each parameter's name, description and schema.
pub fn tool_input_schema(params: Vec<(String, String, Json)>, required: &Vec<String>) -> (r: Json)
    ensures
        r@ == input_schema(params@, text::texts(required@)),
{
    let ghost all = params@;
    let mut props = Json::empty_object();
    for param in it: params
        invariant
            it.seq() == all,
            all == params@,
            props@ == JsonModel::Object(properties(all.take(it.index() as int))),
    {
        assert(param == all[it.index() as int]);
        assert(all.take(it.index() as int + 1).drop_last() =~= all.take(it.index() as int));
        let (name, description, schema) = param;
        let mut schema = schema;
        schema.set("description", Json::text(description.as_str()));
        props.set(name.as_str(), schema);
    }
    assert(all.take(all.len() as int) =~= all);
    let mut schema = Json::empty_object();
    schema.set("type", Json::text("object"));
    schema.set("properties", props);
    schema.set("required", Json::texts(required));
    assert(text::texts(required@).map_values(|name: Seq<char>| JsonModel::Text(name))
        =~= required@.map_values(|s: String| JsonModel::Text(s@)));
    schema
}

/// Where the build finds a crate, as `proc_macro_crate::crate_name` reports it.
pub enum FoundCrate {
    /// The crate being compiled.
    Itself,
    /// A dependency, by the name it is imported under.
    Name(String),
}

/// A crate's name as an identifier.
pub open spec fn crate_ident(name: Seq<char>) -> Seq<char> {
    name.map_values(|c: char| if c == '-' { '_' } else { c })
}

/// The path to `item`: through the first crate that is found, else through the last candidate.
pub open spec fn item_path(
    candidates: Seq<Seq<char>>,
    found: Seq<Option<FoundCrate>>,
    item: Seq<char>,
) -> Seq<char>
    decreases found.len(),
{
    if found.len() == 0 {
        "::"@ + crate_ident(candidates.last()) + "::"@ + item
    } else {
        match found[0] {
            Some(FoundCrate::Itself) => "crate::"@ + item,
            Some(FoundCrate::Name(name)) => "::"@ + name@ + "::"@ + item,
            None => item_path(candidates, found.subrange(1, found.len() as int), item),
        }
    }
}

fn to_crate_ident(name: &str) -> (r: String)
    ensures
        r@ == crate_ident(name@),
{
    let mut out = String::new();
    for c in it: name.chars()
        invariant
            it.seq() == name@,
            out@ == crate_ident(name@.take(it.index() as int)),
    {
        assert(crate_ident(name@.take(it.index() as int + 1)) =~= crate_ident(
            name@.take(it.index() as int),
        ).push(if c == '-' { '_' } else { c }));
        if c == '-' {
            out.push('_');
        } else {
            out.push(c);
        }
    }
    assert(name@.take(name@.len() as int) =~= name@);
    out
}

/// Resolves the path to an item that lives in, or is re-exported by, one of the candidate
/// crates. `found` says for each candidate, in order, whether the build knows it.
pub fn resolve_item_path(
    candidates: &Vec<String>,
    found: &Vec<Option<FoundCrate>>,
    item: &str,
) -> (r: String)
    requires
        candidates@.len() > 0,
        found@.len() == candidates@.len(),
    ensures
        r@ == item_path(text::texts(candidates@), found@, item@),
{
    let mut i: usize = 0;
    assert(found@.subrange(0, found@.len() as int) =~= found@);
    while i < found.len()
        invariant
            candidates@.len() > 0,
            i <= found@.len(),
            item_path(text::texts(candidates@), found@, item@) == item_path(
                text::texts(candidates@),
                found@.subrange(i as int, found@.len() as int),
                item@,
            ),
        decreases found.len() - i,
    {
        let ghost left = found@.subrange(i as int, found@.len() as int);
        assert(left.subrange(1, left.len() as int) =~= found@.subrange(
            i as int + 1,
            found@.len() as int,
        ));
        match &found[i] {
            Some(FoundCrate::Itself) => {
                let mut out = "crate::".to_owned();
                out.append(item);
                return out;
            },
            Some(FoundCrate::Name(name)) => {
                let mut out = "::".to_owned();
                out.append(name.as_str());
                out.append("::");
                out.append(item);
                return out;
            },
            None => {},
        }
        i = i + 1;
    }
    let mut out = "::".to_owned();
    let last = to_crate_ident(candidates[candidates.len() - 1].as_str());
    out.append(last.as_str());
    out.append("::");
    out.append(item);
    out
}

/// The crates that are tried for an item, in order: the facade and the item's home.
pub open spec fn through(home: Seq<char>) -> Seq<Seq<char>> {
    seq!["ailoop"@, home]
}

fn resolve_through(home: &str, found: &Vec<Option<FoundCrate>>, item: &str) -> (r: String)
    requires
        found@.len() == 2,
    ensures
        r@ == item_path(through(home@), found@, item@),
{
    let mut candidates: Vec<String> = Vec::new();
    candidates.push("ailoop".to_owned());
    candidates.push(home.to_owned());
    assert(text::texts(candidates@) =~= through(home@));
    resolve_item_path(&candidates, found, item)
}

/// The path to the trait `Tool`, given where the build finds `ailoop` and `ailoop-tools`.
pub fn ailoop_tool_path(found: &Vec<Option<FoundCrate>>) -> (r: String)
    requires
        found@.len() == 2,
    ensures
        r@ == item_path(through("ailoop-tools"@), found@, "Tool"@),
{
    resolve_through("ailoop-tools", found, "Tool")
}

/// The path to `ToolContext`, given where the build finds `ailoop` and `ailoop-tools`.
pub fn ailoop_tool_context_path(found: &Vec<Option<FoundCrate>>) -> (r: String)
    requires
        found@.len() == 2,
    ensures
        r@ == item_path(through("ailoop-tools"@), found@, "ToolContext"@),
{
    resolve_through("ailoop-tools", found, "ToolContext")
}

/// The path to `ToolDefinition`, given where the build finds `ailoop` and `ailoop-core`.
pub fn ailoop_tool_definition_path(found: &Vec<Option<FoundCrate>>) -> (r: String)
    requires
        found@.len() == 2,
    ensures
        r@ == item_path(through("ailoop-core"@), found@, "ToolDefinition"@),
{
    resolve_through("ailoop-core", found, "ToolDefinition")
}

/// The path to `ToolTag`, given where the build finds `ailoop` and `ailoop-core`.
pub fn ailoop_tool_tag_path(found: &Vec<Option<FoundCrate>>) -> (r: String)
    requires
        found@.len() == 2,
    ensures
        r@ == item_path(through("ailoop-core"@), found@, "ToolTag"@),
{
    resolve_through("ailoop-core", found, "ToolTag")
}

/// The path to the trait `ToolJsonType`, given where the build finds `ailoop` and
/// `ailoop-tools`.
pub fn ailoop_tool_json_type_path(found: &Vec<Option<FoundCrate>>) -> (r: String)
    requires
        found@.len() == 2,
    ensures
        r@ == item_path(through("ailoop-tools"@), found@, "ToolJsonType"@),
{
    resolve_through("ailoop-tools", found, "ToolJsonType")
}

} // verus!
