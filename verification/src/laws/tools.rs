//! Tool macros: what a function's signature and attributes become.

use vstd::prelude::*;

use super::wire;
use crate::json::{Json, JsonModel};
use crate::text;
use crate::tool_macro::{
    self as macros, ArgsModel, Attribute, DeriveData, FnInput, FoundCrate, GenericArgument,
    MetaItem, ParamMeta, PathArguments, RustType, SchemaModel, ToolFn, TypeShape,
};

verus! {

/// Whether a type is a path that ends in a name with the given types between angle brackets.
pub open spec fn is_generic(ty: RustType, name: Seq<char>, types: Seq<RustType>) -> bool {
    &&& ty.shape matches TypeShape::Path(Some(segment))
    &&& segment.ident@ == name
    &&& segment.arguments matches PathArguments::AngleBracketed(args)
    &&& args@ == types.map_values(|t: RustType| GenericArgument::Type(t))
}

/// Whether a type is a path that ends in a name without arguments.
pub open spec fn is_plain(ty: RustType, name: Seq<char>) -> bool {
    &&& ty.shape matches TypeShape::Path(Some(segment))
    &&& segment.ident@ == name
    &&& segment.arguments is Absent
}

proof fn lemma_argument_types(types: Seq<RustType>)
    ensures
        macros::argument_types(types.map_values(|t: RustType| GenericArgument::Type(t))) == types,
    decreases types.len(),
{
    let args = types.map_values(|t: RustType| GenericArgument::Type(t));
    if types.len() > 0 {
        lemma_argument_types(types.drop_last());
        assert(args.drop_last() =~= types.drop_last().map_values(
            |t: RustType| GenericArgument::Type(t),
        ));
        assert(types.drop_last().push(types.last()) =~= types);
    } else {
        assert(macros::argument_types(args) =~= types);
    }
}

proof fn lemma_type_names()
    ensures
        forall|name: Seq<char>| #[trigger]
            is_scalar(name) ==> name != "Vec"@ && name != "Option"@ && name != "HashMap"@ && name
                != "BTreeMap"@,
        "Vec"@ != "Option"@ && "Vec"@ != "HashMap"@ && "Vec"@ != "BTreeMap"@,
        "Option"@ != "HashMap"@ && "Option"@ != "BTreeMap"@,
        "String"@ != "bool"@ && "str"@ != "bool"@,
        forall|name: Seq<char>| #[trigger]
            is_number(name) ==> name != "String"@ && name != "str"@ && name != "bool"@,
{
    reveal_strlit("Vec");
    reveal_strlit("Option");
    reveal_strlit("HashMap");
    reveal_strlit("BTreeMap");
    reveal_strlit("String");
    reveal_strlit("str");
    reveal_strlit("bool");
    reveal_strlit("i8");
    reveal_strlit("i16");
    reveal_strlit("i32");
    reveal_strlit("i64");
    reveal_strlit("i128");
    reveal_strlit("isize");
    reveal_strlit("u8");
    reveal_strlit("u16");
    reveal_strlit("u32");
    reveal_strlit("u64");
    reveal_strlit("u128");
    reveal_strlit("usize");
    reveal_strlit("f32");
    reveal_strlit("f64");
    assert("Vec"@.len() == 3 && "Vec"@[0] == 'V');
    assert("Option"@.len() == 6 && "Option"@[0] == 'O');
    assert("HashMap"@.len() == 7);
    assert("BTreeMap"@.len() == 8);
    assert("String"@.len() == 6 && "String"@[0] == 'S');
    assert("str"@.len() == 3 && "str"@[0] == 's');
    assert("bool"@.len() == 4 && "bool"@[0] == 'b');
    assert("i8"@.len() == 2 && "u8"@.len() == 2);
    assert("i16"@[0] == 'i' && "i32"@[0] == 'i' && "i64"@[0] == 'i');
    assert("u16"@[0] == 'u' && "u32"@[0] == 'u' && "u64"@[0] == 'u');
    assert("i16"@.len() == 3 && "i32"@.len() == 3 && "i64"@.len() == 3);
    assert("u16"@.len() == 3 && "u32"@.len() == 3 && "u64"@.len() == 3);
    assert("f32"@.len() == 3 && "f64"@.len() == 3);
    assert("f32"@[0] == 'f' && "f64"@[0] == 'f');
    assert("i128"@.len() == 4 && "i128"@[0] == 'i');
    assert("u128"@.len() == 4 && "u128"@[0] == 'u');
    assert("isize"@.len() == 5 && "usize"@.len() == 5);
}

/// The names of number types.
pub open spec fn is_number(name: Seq<char>) -> bool {
    ||| name == "i8"@ || name == "i16"@ || name == "i32"@ || name == "i64"@ || name == "i128"@
    ||| name == "u8"@ || name == "u16"@ || name == "u32"@ || name == "u64"@ || name == "u128"@
    ||| name == "isize"@ || name == "usize"@ || name == "f32"@ || name == "f64"@
}

/// The names of numbers, texts and truth values.
pub open spec fn is_scalar(name: Seq<char>) -> bool {
    is_number(name) || name == "String"@ || name == "str"@ || name == "bool"@
}

/// Numbers of every width are numbers, texts are strings and truth values are booleans.
pub proof fn scalars_have_their_type(ty: RustType, name: Seq<char>)
    requires
        is_plain(ty, name),
        is_scalar(name),
    ensures
        macros::schema_of(ty) == SchemaModel::Object(
            seq![
                (
                    "type"@,
                    SchemaModel::Text(
                        if is_number(name) {
                            "number"@
                        } else if name == "bool"@ {
                            "boolean"@
                        } else {
                            "string"@
                        },
                    ),
                ),
            ],
        ),
{
    lemma_type_names();
    assert(is_scalar(name));
    if is_number(name) {
        assert(macros::numeric_name(name));
    } else {
        assert(!macros::numeric_name(name));
    }
}

/// An optional type has the schema of what it may hold, a list has that of its items, a map with
/// text keys that of its values, and a tuple those of its places in order.
pub proof fn containers_hold_their_schemas(
    ty: RustType,
    inner: RustType,
    key: RustType,
    places: Vec<RustType>,
)
    ensures
        is_generic(ty, "Option"@, seq![inner]) ==> macros::schema_of(ty) == macros::schema_of(inner),
        is_generic(ty, "Vec"@, seq![inner]) ==> macros::schema_of(ty) == SchemaModel::Object(
            seq![
                ("type"@, SchemaModel::Text("array"@)),
                ("items"@, macros::schema_of(inner)),
            ],
        ),
        is_plain(ty, "Vec"@) ==> macros::schema_of(ty) == SchemaModel::Object(
            seq![("type"@, SchemaModel::Text("array"@))],
        ),
        (is_generic(ty, "HashMap"@, seq![key, inner]) || is_generic(
            ty,
            "BTreeMap"@,
            seq![key, inner],
        )) && is_plain(key, "String"@) ==> macros::schema_of(ty) == SchemaModel::Object(
            seq![
                ("type"@, SchemaModel::Text("object"@)),
                ("additionalProperties"@, macros::schema_of(inner)),
            ],
        ),
        ty.shape == TypeShape::Tuple(places) ==> (macros::schema_of(ty) matches SchemaModel::Object(
            entries,
        ) && entries.len() == 2 && entries[0] == ("type"@, SchemaModel::Text("array"@))
            && entries[1].0 == "prefixItems"@ && (entries[1].1 matches SchemaModel::List(items)
            && items.len() == places@.len() && forall|i: int|
            0 <= i < items.len() ==> #[trigger] items[i] == macros::schema_of(places@[i]))),
{
    lemma_type_names();
    lemma_argument_types(seq![inner]);
    lemma_argument_types(seq![key, inner]);
}

/// Any other type is asked at run time, by its own text: a map whose keys are no texts, a reference,
/// a type that is not known.
pub proof fn other_types_are_asked(ty: RustType, inner: RustType, key: RustType, name: Seq<char>)
    ensures
        !(ty.shape is Path) && !(ty.shape is Tuple) ==> macros::schema_of(ty)
            == SchemaModel::Dispatch(ty.text@),
        is_plain(ty, name) && !is_scalar(name) && name != "Vec"@ ==> macros::schema_of(ty)
            == SchemaModel::Dispatch(ty.text@),
        (is_generic(ty, "HashMap"@, seq![key, inner]) || is_generic(
            ty,
            "BTreeMap"@,
            seq![key, inner],
        )) && is_plain(key, name) && name != "String"@ ==> macros::schema_of(ty)
            == SchemaModel::Dispatch(ty.text@),
{
    lemma_type_names();
    lemma_argument_types(seq![key, inner]);
    if is_plain(ty, name) && !is_scalar(name) {
        assert(!macros::numeric_name(name));
    }
    if is_generic(ty, "HashMap"@, seq![key, inner]) || is_generic(
        ty,
        "BTreeMap"@,
        seq![key, inner],
    ) {
        let found = ty.shape->Path_0->0.ident@;
        reveal_strlit("HashMap");
        reveal_strlit("BTreeMap");
        assert("HashMap"@.len() == 7);
        assert("BTreeMap"@.len() == 8);
        assert(!macros::numeric_name(found)) by {
            if macros::numeric_name(found) {
                assert(is_number(found));
                assert(is_scalar(found));
            }
        }
        assert(!is_scalar("HashMap"@) && !is_scalar("BTreeMap"@));
    }
}

/// A `Result` of two types is fallible, with the first as output and the second as error; any other
/// number of arguments is refused. Every other type is the output as it stands and cannot fail, and
/// no type is the unit type.
pub proof fn return_types_are_split(ty: RustType)
    ensures
        macros::return_info(None) matches Ok(info) && info.output == "()"@ && !info.is_fallible,
        ty.shape matches TypeShape::Path(Some(segment)) ==> segment.ident@ == "Result"@ ==> {
            match segment.arguments {
                PathArguments::AngleBracketed(args) => {
                    &&& args@.len() == 2 ==> (macros::return_info(Some(ty)) matches Ok(info)
                        && info.is_fallible && info.output == written(args@[0]) && info.error
                        == written(args@[1]))
                    &&& args@.len() != 2 ==> macros::return_info(Some(ty)) is Err
                },
                _ => macros::return_info(Some(ty)) is Err,
            }
        },
        !(ty.shape matches TypeShape::Path(Some(segment)) && segment.ident@ == "Result"@) ==> (
        macros::return_info(Some(ty)) matches Ok(info) && info.output == ty.text@
            && !info.is_fallible && info.error == "::core::convert::Infallible"@),
{
}

/// The source text of a generic argument.
pub open spec fn written(arg: GenericArgument) -> Seq<char> {
    match arg {
        GenericArgument::Type(t) => t.text@,
        GenericArgument::Other(s) => s@,
    }
}

/// Whether an attribute is a documentation line.
pub open spec fn documents(attr: Attribute) -> bool {
    attr.ident is Some && attr.ident->0@ == "doc"@ && attr.literal is Some
}

/// Documentation grows line by line: a line goes under those before it, without the one space in
/// front that the comment puts there, and other attributes do not matter.
pub proof fn documentation_is_read(attrs: Seq<Attribute>, attr: Attribute)
    ensures
        macros::doc_comment(Seq::empty()) is None,
        documents(attr) ==> ({
            let raw = attr.literal->0@;
            let line = if raw.len() > 0 && raw[0] == ' ' {
                raw.skip(1)
            } else {
                raw
            };
            macros::doc_comment(attrs.push(attr)) == (match macros::doc_comment(attrs) {
                None => Some(line),
                Some(above) => Some(above.push('\n') + line),
            })
        }),
        !documents(attr) ==> macros::doc_comment(attrs.push(attr)) == macros::doc_comment(attrs),
{
    assert(attrs.push(attr).drop_last() =~= attrs);
    let lines = macros::doc_lines(attrs);
    if documents(attr) {
        let raw = attr.literal->0@;
        let line = macros::doc_line(raw);
        assert(raw.len() > 0 ==> raw.skip(1) =~= raw.subrange(1, raw.len() as int));
        assert(lines.push(line).drop_last() =~= lines);
        reveal_strlit("\n");
        if lines.len() > 0 {
            let above = text::join_text(lines, "\n"@);
            assert(above + "\n"@ + line =~= above.push('\n') + line);
        }
    }
}

/// A name can be a tool's name exactly where it has 1 to 64 bytes, begins with a letter or an
/// underscore and goes on with letters, digits, underscores and hyphens.
pub proof fn tool_names(name: Seq<char>)
    ensures
        macros::tool_name_error(name) is None <==> {
            &&& 1 <= name.len()
            &&& vstd::utf8::encode_utf8(name).len() <= 64
            &&& name[0] == '_' || 'a' <= name[0] <= 'z' || 'A' <= name[0] <= 'Z'
            &&& forall|i: int|
                1 <= i < name.len() ==> {
                    let c = #[trigger] name[i];
                    c == '_' || c == '-' || 'a' <= c <= 'z' || 'A' <= c <= 'Z' || '0' <= c <= '9'
                }
        },
{
}

/// Arguments of the attribute are taken one after the other, and the first that is refused decides.
pub proof fn arguments_are_taken_in_order(args: ArgsModel, a: Seq<MetaItem>, b: Seq<MetaItem>)
    ensures
        macros::with_items(args, a + b) == (match macros::with_items(args, a) {
            Ok(next) => macros::with_items(next, b),
            Err(e) => Err(e),
        }),
        macros::with_items(args, Seq::empty()) == Ok::<ArgsModel, Seq<char>>(args),
    decreases a.len(),
{
    if a.len() == 0 {
        assert(a + b =~= b);
    } else {
        let rest = a.subrange(1, a.len() as int);
        assert((a + b).subrange(1, (a + b).len() as int) =~= rest + b);
        assert((a + b)[0] == a[0]);
        if let Ok(next) = macros::with_item(args, a[0]) {
            arguments_are_taken_in_order(next, rest, b);
        }
    }
}

/// Each argument sets its own part and no other: `name` and `description` their text, `required`
/// its list, and `tags` adds to those before. A `name` must be one that a tool can have, and
/// arguments that are not known are refused.
pub proof fn arguments_set_their_part(args: ArgsModel, ident: Option<String>, value: String)
    ensures
        ({
            let item = MetaItem::NameValue { ident, literal: Some(value) };
            let word = match ident {
                Some(s) => Some(s@),
                None => None,
            };
            &&& word == Some("name"@) && macros::tool_name_error(value@) is None ==> (
            macros::with_item(args, item) == Ok::<ArgsModel, Seq<char>>(
                ArgsModel { name: Some(value@), ..args },
            ))
            &&& word == Some("name"@) && macros::tool_name_error(value@) is Some
                ==> macros::with_item(args, item) is Err
            &&& word == Some("description"@) ==> macros::with_item(args, item) == Ok::<
                ArgsModel,
                Seq<char>,
            >(ArgsModel { description: Some(value@), ..args })
            &&& word != Some("name"@) && word != Some("description"@) ==> macros::with_item(
                args,
                item,
            ) is Err
        }),
        forall|path: Option<String>| #[trigger]
            macros::with_item(args, MetaItem::Path { ident: path }) is Err,
{
    reveal_strlit("name");
    reveal_strlit("description");
    assert("name"@.len() == 4);
    assert("description"@.len() == 11);
}

/// Lists of the attribute set their own part and no other: `required` in place of earlier ones,
/// `tags` behind earlier ones.
pub proof fn lists_set_their_part(args: ArgsModel, ident: String, item: MetaItem, names: Vec<String>)
    requires
        item matches MetaItem::List { ident: Some(i), idents: Ok(list), .. } && i == ident && list
            == names,
    ensures
        ident@ == "required"@ ==> macros::with_item(args, item) == Ok::<ArgsModel, Seq<char>>(
            ArgsModel { required: Some(names@.map_values(|s: String| s@)), ..args },
        ),
        ident@ == "tags"@ ==> macros::with_item(args, item) == Ok::<ArgsModel, Seq<char>>(
            ArgsModel { tags: args.tags + names@.map_values(|s: String| s@), ..args },
        ),
        ident@ != "required"@ && ident@ != "tags"@ && ident@ != "params"@ ==> macros::with_item(
            args,
            item,
        ) is Err,
{
    reveal_strlit("params");
    reveal_strlit("required");
    reveal_strlit("tags");
    assert("params"@.len() == 6);
    assert("required"@.len() == 8);
    assert("tags"@.len() == 4);
}

/// Descriptions of parameters add up; of two for one parameter the later one counts, and the others
/// stay. Entries without a text are skipped.
pub proof fn parameter_descriptions_add_up(
    metas: Seq<ParamMeta>,
    known: Map<Seq<char>, Seq<char>>,
    name: String,
    value: String,
)
    ensures
        macros::params_from(Seq::empty(), known) == Ok::<Map<Seq<char>, Seq<char>>, Seq<char>>(known),
        macros::params_from(
            metas.push(ParamMeta::NameValue { ident: Some(name), literal: Some(value) }),
            known,
        ) == (match macros::params_from(metas, known) {
            Ok(all) => Ok::<Map<Seq<char>, Seq<char>>, Seq<char>>(all.insert(name@, value@)),
            Err(e) => Err(e),
        }),
        macros::params_from(metas.push(ParamMeta::Other), known) == macros::params_from(metas, known),
    decreases metas.len(),
{
    let given = ParamMeta::NameValue { ident: Some(name), literal: Some(value) };
    let x = metas.push(given);
    let y = metas.push(ParamMeta::Other);
    reveal_with_fuel(macros::params_from, 2);
    if metas.len() == 0 {
        assert(x.subrange(1, x.len() as int) =~= Seq::empty());
        assert(y.subrange(1, y.len() as int) =~= Seq::empty());
    } else {
        let rest = metas.subrange(1, metas.len() as int);
        assert(x.subrange(1, x.len() as int) =~= rest.push(given));
        assert(y.subrange(1, y.len() as int) =~= rest.push(ParamMeta::Other));
        assert(x[0] == metas[0] && y[0] == metas[0]);
        match metas[0] {
            ParamMeta::NameValue { ident: Some(n), literal: Some(v) } => {
                parameter_descriptions_add_up(rest, known.insert(n@, v@), name, value);
            },
            ParamMeta::NameValue { ident: None, literal: Some(v) } => {},
            _ => {
                parameter_descriptions_add_up(rest, known, name, value);
            },
        }
    }
}

/// A parameter with a plain name is one more parameter of the tool, at the end, under its name, with
/// its type and schema, described by the attribute or else by its own documentation. It is required
/// unless its type is optional. Any other input is none.
pub proof fn parameters_follow_the_signature(
    descriptions: Map<Seq<char>, Seq<char>>,
    inputs: Seq<FnInput>,
    input: FnInput,
    inner: RustType,
)
    ensures
        input matches FnInput::Typed { ident: Some(name), ty, attrs } ==> {
            let all = macros::tool_params(descriptions, inputs.push(input));
            let before = macros::tool_params(descriptions, inputs);
            &&& all.len() == before.len() + 1 && all.drop_last() == before
            &&& all.last().name == name@
            &&& all.last().ty == ty.text@
            &&& all.last().schema == macros::schema_of(ty)
            &&& descriptions.dom().contains(name@) ==> all.last().description
                == descriptions[name@]
            &&& !descriptions.dom().contains(name@) && macros::doc_comment(attrs@) is Some
                ==> Some(all.last().description) == macros::doc_comment(attrs@)
            &&& !descriptions.dom().contains(name@) && macros::doc_comment(attrs@) is None
                ==> all.last().description.len() == 0
            &&& is_generic(ty, "Option"@, seq![inner]) ==> macros::inferred_required(
                inputs.push(input),
            ) == macros::inferred_required(inputs)
            &&& !macros::is_path_named(ty, "Option"@) ==> macros::inferred_required(
                inputs.push(input),
            ) == macros::inferred_required(inputs).push(name@)
        },
        !(input matches FnInput::Typed { ident: Some(_), .. }) ==> macros::tool_params(
            descriptions,
            inputs.push(input),
        ) == macros::tool_params(descriptions, inputs) && macros::inferred_required(
            inputs.push(input),
        ) == macros::inferred_required(inputs),
{
    assert(inputs.push(input).drop_last() =~= inputs);
    lemma_argument_types(seq![inner]);
    if let FnInput::Typed { ident: Some(name), ty, attrs } = input {
        let all = macros::tool_params(descriptions, inputs.push(input));
        assert(all.drop_last() =~= macros::tool_params(descriptions, inputs));
    }
}

/// A plan says what the attribute says, and where that is silent what the function says: its name,
/// its documentation, which parameters are required. A trailing tool context is no parameter.
pub proof fn plans_follow_attribute_and_function(
    args: ArgsModel,
    f: ToolFn,
    struct_name: Seq<char>,
    static_name: Seq<char>,
)
    ensures
        macros::tool_plan(args, f, struct_name, static_name) is Ok <==> macros::return_info(
            f.output,
        ) is Ok,
        macros::tool_plan(args, f, struct_name, static_name) matches Ok(plan) ==> {
            let payload = if plan.takes_ctx {
                f.inputs@.drop_last()
            } else {
                f.inputs@
            };
            &&& args.name matches Some(name) ==> plan.tool_name == name
            &&& args.name is None ==> plan.tool_name == f.name@
            &&& args.description matches Some(d) ==> plan.description == d
            &&& args.description is None && macros::doc_comment(f.attrs@) is Some ==> Some(
                plan.description,
            ) == macros::doc_comment(f.attrs@)
            &&& args.description is None && macros::doc_comment(f.attrs@) is None
                ==> plan.description.len() == 0
            &&& plan.params == macros::tool_params(args.param_descriptions, payload)
            &&& args.required matches Some(names) ==> plan.required == names
            &&& args.required is None ==> plan.required == macros::inferred_required(payload)
            &&& plan.tags == args.tags
            &&& plan.takes_ctx <==> f.inputs@.len() > 0 && (f.inputs@.last() matches FnInput::Typed {
                ty,
                ..
            } && (ty.shape matches TypeShape::Reference(elem) && (elem.shape matches TypeShape::Path(
                Some(segment),
            ) && segment.ident@ == "ToolContext"@)))
            &&& plan.is_async == f.is_async
            &&& plan.struct_name == struct_name
            &&& plan.params_struct_name == struct_name + "Parameters"@
            &&& plan.static_name == static_name
            &&& macros::return_info(f.output) == Ok::<macros::ReturnModel, Seq<char>>(
                plan.return_shape,
            )
        },
{
}

/// An enumeration of unit variants is a string out of their names, in order; anything else is
/// refused.
pub proof fn enumerations_are_strings(data: DeriveData)
    ensures
        match data {
            DeriveData::Enum(variants) => {
                &&& macros::derived_schema(data) is Ok <==> forall|i: int|
                    0 <= i < variants@.len() ==> (#[trigger] variants@[i]).is_unit
                &&& macros::derived_schema(data) matches Ok(schema) ==> (schema matches
                    SchemaModel::Object(entries) && entries.len() == 2 && entries[0] == (
                    "type"@,
                    SchemaModel::Text("string"@),
                ) && entries[1].0 == "enum"@ && (entries[1].1 matches SchemaModel::List(names)
                    && names.len() == variants@.len() && forall|i: int|
                    0 <= i < names.len() ==> #[trigger] names[i] == SchemaModel::Text(
                        variants@[i].ident@,
                    )))
            },
            _ => macros::derived_schema(data) is Err,
        },
{
}

/// An input schema is an object schema with the required names in order and each parameter under
/// its name: its own schema with its description in it. Of two parameters with one name the later
/// one counts.
pub proof fn input_schemas_describe_parameters(
    params: Seq<(String, String, Json)>,
    param: (String, String, Json),
    required: Seq<Seq<char>>,
)
    ensures
        ({
            let all = macros::input_schema(params.push(param), required);
            let before = macros::input_schema(params, required);
            &&& wire::word(all, "type"@) == Some("object"@)
            &&& wire::entry(all, "required"@) matches Some(JsonModel::Array(names))
            &&& names.len() == required.len()
            &&& forall|i: int|
                0 <= i < names.len() ==> #[trigger] names[i] == JsonModel::Text(required[i])
            &&& wire::entry(all, "properties"@) matches Some(JsonModel::Object(properties))
            &&& wire::entry(before, "properties"@) matches Some(JsonModel::Object(earlier))
            &&& properties.dom() =~= earlier.dom().insert(param.0@)
            &&& forall|name: Seq<char>|
                earlier.dom().contains(name) && name != param.0@ ==> #[trigger] properties[name]
                    == earlier[name]
            &&& param.2@ matches JsonModel::Object(schema) ==> {
                &&& wire::word(properties[param.0@], "description"@) == Some(param.1@)
                &&& forall|key: Seq<char>|
                    key != "description"@ ==> #[trigger] wire::entry(properties[param.0@], key)
                        == wire::entry(param.2@, key)
            }
            &&& !(param.2@ is Object) ==> properties[param.0@] == param.2@
            &&& wire::entry(macros::input_schema(Seq::empty(), required), "properties"@) == Some(
                JsonModel::Object(Map::empty()),
            )
        }),
{
    reveal_strlit("type");
    reveal_strlit("properties");
    reveal_strlit("required");
    assert("type"@.len() == 4);
    assert("properties"@.len() == 10);
    assert("required"@.len() == 8);
    assert(params.push(param).drop_last() =~= params);
}

/// The path to an item goes through the first crate that the build knows: the crate itself, or the
/// name it goes by there. Crates that are not known do not matter, and where none is known the path
/// goes through the last candidate, with underscores for hyphens.
pub proof fn paths_go_through_the_first_crate(
    candidates: Seq<Seq<char>>,
    unknown: nat,
    found: FoundCrate,
    later: Seq<Option<FoundCrate>>,
    item: Seq<char>,
)
    ensures
        ({
            let known = Seq::new(unknown, |i: int| None::<FoundCrate>) + seq![Some(found)] + later;
            macros::item_path(candidates, known, item) == (match found {
                FoundCrate::Itself => "crate::"@ + item,
                FoundCrate::Name(name) => "::"@ + name@ + "::"@ + item,
            })
        }),
        macros::item_path(candidates, Seq::new(unknown, |i: int| None::<FoundCrate>), item) == "::"@
            + macros::crate_ident(candidates.last()) + "::"@ + item,
        forall|i: int|
            0 <= i < candidates.last().len() ==> #[trigger] macros::crate_ident(
                candidates.last(),
            )[i] == (if candidates.last()[i] == '-' {
                '_'
            } else {
                candidates.last()[i]
            }),
        macros::crate_ident(candidates.last()).len() == candidates.last().len(),
    decreases unknown,
{
    let none = Seq::new(unknown, |i: int| None::<FoundCrate>);
    let known = none + seq![Some(found)] + later;
    if unknown == 0 {
        assert(known[0] == Some(found));
    } else {
        let fewer = Seq::new((unknown - 1) as nat, |i: int| None::<FoundCrate>);
        paths_go_through_the_first_crate(
            candidates,
            (unknown - 1) as nat,
            found,
            later,
            item,
        );
        assert(known.subrange(1, known.len() as int) =~= fewer + seq![Some(found)] + later);
        assert(none.subrange(1, none.len() as int) =~= fewer);
        assert(known[0] == none[0]);
    }
}

} // verus!
