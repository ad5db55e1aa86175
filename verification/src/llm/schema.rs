//! The schemas of the parameters that a tool takes.

use crate::json::{json_views, Json, JsonV};
use crate::text;
use vstd::prelude::*;

verus! {

/// What a parameter is.
#[derive(Debug)]
pub enum Kind {
    /// A value of a type.
    Plain(&'static str),
    /// One of some texts.
    OneOf(Vec<&'static str>),
    /// A list of values of a type.
    ListOf(&'static str),
}

/// The model of what a parameter is.
#[verifier::ext_equal]
pub enum KindV {
    Plain(Seq<char>),
    OneOf(Seq<Seq<char>>),
    ListOf(Seq<char>),
}

impl View for Kind {
    type V = KindV;

    open spec fn view(&self) -> KindV {
        match self {
            Kind::Plain(t) => KindV::Plain(t@),
            Kind::OneOf(l) => KindV::OneOf(text::slice_views(l@)),
            Kind::ListOf(t) => KindV::ListOf(t@),
        }
    }
}

/// A parameter of a tool, with a remark on it or none.
#[derive(Debug)]
pub struct Param {
    pub name: &'static str,
    pub kind: Kind,
    pub about: &'static str,
}

/// The model of a parameter.
#[verifier::ext_equal]
pub struct ParamV {
    pub name: Seq<char>,
    pub kind: KindV,
    pub about: Seq<char>,
}

impl View for Param {
    type V = ParamV;

    open spec fn view(&self) -> ParamV {
        ParamV { name: self.name@, kind: self.kind@, about: self.about@ }
    }
}

/// The models of a list of parameters.
pub open spec fn param_views(l: Seq<Param>) -> Seq<ParamV> {
    l.map_values(|p: Param| p@)
}

/// A parameter of a type, with a remark.
pub open spec fn plain_of(name: Seq<char>, kind: Seq<char>, about: Seq<char>) -> ParamV {
    ParamV { name, kind: KindV::Plain(kind), about }
}

/// A parameter of a type, with a remark.
pub fn plain(name: &'static str, kind: &'static str, about: &'static str) -> (r: Param)
    ensures
        r@ == plain_of(name@, kind@, about@),
{
    Param { name, kind: Kind::Plain(kind), about }
}

/// A parameter of a type, without a remark.
pub open spec fn bare_of(name: Seq<char>, kind: Seq<char>) -> ParamV {
    ParamV { name, kind: KindV::Plain(kind), about: Seq::empty() }
}

/// A parameter of a type, without a remark.
pub fn bare(name: &'static str, kind: &'static str) -> (r: Param)
    ensures
        r@ == bare_of(name@, kind@),
{
    proof {
        reveal_strlit("");
        assert(""@ =~= Seq::empty());
    }
    Param { name, kind: Kind::Plain(kind), about: "" }
}

/// A parameter that is one of some texts, with a remark.
pub open spec fn one_of_these(name: Seq<char>, values: Seq<Seq<char>>, about: Seq<char>) -> ParamV {
    ParamV { name, kind: KindV::OneOf(values), about }
}

/// A parameter that is one of some texts, with a remark.
pub fn one_of(name: &'static str, values: Vec<&'static str>, about: &'static str) -> (r: Param)
    ensures
        r@ == one_of_these(name@, text::slice_views(values@), about@),
{
    Param { name, kind: Kind::OneOf(values), about }
}

/// A parameter that is a list of values of a type, with a remark.
pub open spec fn list_of_these(name: Seq<char>, kind: Seq<char>, about: Seq<char>) -> ParamV {
    ParamV { name, kind: KindV::ListOf(kind), about }
}

/// A parameter that is a list of values of a type, with a remark.
pub fn list_of(name: &'static str, kind: &'static str, about: &'static str) -> (r: Param)
    ensures
        r@ == list_of_these(name@, kind@, about@),
{
    Param { name, kind: Kind::ListOf(kind), about }
}

/// The models of the members of an object.
pub open spec fn member_views(l: Seq<(String, Json)>) -> Seq<(Seq<char>, JsonV)> {
    l.map_values(|m: (String, Json)| (m.0@, m.1@))
}

/// An object with the given members.
pub fn object(members: Vec<(String, Json)>) -> (r: Json)
    ensures
        r@ == JsonV::Object(member_views(members@)),
{
    let r = Json::Object(members);
    assert(r@->Object_0 =~= member_views(members@));
    r
}

/// A list of texts.
pub open spec fn texts(l: Seq<Seq<char>>) -> JsonV {
    JsonV::List(l.map_values(|t: Seq<char>| JsonV::Text(t)))
}

/// A list of texts.
pub fn text_list(l: &Vec<&'static str>) -> (r: Json)
    ensures
        r@ == texts(text::slice_views(l@)),
{
    let ghost want = text::slice_views(l@).map_values(|t: Seq<char>| JsonV::Text(t));
    let mut out: Vec<Json> = Vec::new();
    assert(json_views(out@) =~= want.take(0));
    for i in 0..l.len()
        invariant
            want == text::slice_views(l@).map_values(|t: Seq<char>| JsonV::Text(t)),
            json_views(out@) == want.take(i as int),
    {
        let ghost before = out@;
        let t = Json::Text(l[i].to_owned());
        assert(want[i as int] == t@);
        out.push(t);
        assert(json_views(out@) =~= json_views(before).push(t@));
        assert(want.take(i + 1) =~= want.take(i as int).push(t@));
    }
    assert(want.take(want.len() as int) =~= want);
    let r = Json::List(out);
    assert(r@->List_0 =~= json_views(out@));
    r
}

/// What a schema says of a type.
pub open spec fn typed(kind: Seq<char>) -> (Seq<char>, JsonV) {
    ("type"@, JsonV::Text(kind))
}

/// The schema of a parameter.
pub open spec fn param_schema(p: ParamV) -> JsonV {
    let members = match p.kind {
        KindV::Plain(t) => seq![typed(t)],
        KindV::OneOf(l) => seq![typed("string"@), ("enum"@, texts(l))],
        KindV::ListOf(t) => seq![
            typed("array"@),
            ("items"@, JsonV::Object(seq![typed(t)])),
        ],
    };
    JsonV::Object(
        if p.about.len() == 0 {
            members
        } else {
            members.push(("description"@, JsonV::Text(p.about)))
        },
    )
}

fn type_member(kind: &str) -> (r: (String, Json))
    ensures
        (r.0@, r.1@) == typed(kind@),
{
    ("type".to_owned(), Json::Text(kind.to_owned()))
}

/// The schema of a parameter.
pub fn make_param_schema(p: &Param) -> (r: Json)
    ensures
        r@ == param_schema(p@),
{
    let mut members: Vec<(String, Json)> = Vec::new();
    match &p.kind {
        Kind::Plain(t) => {
            members.push(type_member(t));
            assert(member_views(members@) =~= seq![typed(t@)]);
        },
        Kind::OneOf(l) => {
            members.push(type_member("string"));
            members.push(("enum".to_owned(), text_list(l)));
            assert(member_views(members@) =~= seq![
                typed("string"@),
                ("enum"@, texts(text::slice_views(l@))),
            ]);
        },
        Kind::ListOf(t) => {
            let mut inner: Vec<(String, Json)> = Vec::new();
            inner.push(type_member(t));
            assert(member_views(inner@) =~= seq![typed(t@)]);
            members.push(type_member("array"));
            members.push(("items".to_owned(), object(inner)));
            assert(member_views(members@) =~= seq![
                typed("array"@),
                ("items"@, JsonV::Object(seq![typed(t@)])),
            ]);
        },
    }
    let ghost first = member_views(members@);
    if !p.about.is_empty() {
        members.push(("description".to_owned(), Json::Text(p.about.to_owned())));
        assert(member_views(members@) =~= first.push(("description"@, JsonV::Text(p.about@))));
    }
    object(members)
}

/// The schemas of a list of parameters, under their names.
pub open spec fn properties(params: Seq<ParamV>) -> Seq<(Seq<char>, JsonV)> {
    params.map_values(|p: ParamV| (p.name, param_schema(p)))
}

/// The schema of an object: its properties, and which of them must be given.
pub open spec fn object_schema(
    properties: Seq<(Seq<char>, JsonV)>,
    required: Seq<Seq<char>>,
) -> JsonV {
    let members = seq![typed("object"@), ("properties"@, JsonV::Object(properties))];
    JsonV::Object(
        if required.len() == 0 {
            members
        } else {
            members.push(("required"@, texts(required)))
        },
    )
}

/// The schema of some parameters, of which some must be given.
pub open spec fn schema_of(params: Seq<ParamV>, required: Seq<Seq<char>>) -> JsonV {
    object_schema(properties(params), required)
}

/// The schema of an object.
pub fn make_object_schema(members: Vec<(String, Json)>, required: &Vec<&'static str>) -> (r: Json)
    ensures
        r@ == object_schema(member_views(members@), text::slice_views(required@)),
{
    let ghost inner = member_views(members@);
    let mut out: Vec<(String, Json)> = Vec::new();
    out.push(type_member("object"));
    out.push(("properties".to_owned(), object(members)));
    let ghost first = seq![typed("object"@), ("properties"@, JsonV::Object(inner))];
    assert(member_views(out@) =~= first);
    assert(text::slice_views(required@).len() == required@.len());
    if required.len() > 0 {
        out.push(("required".to_owned(), text_list(required)));
        assert(member_views(out@) =~= first.push(
            ("required"@, texts(text::slice_views(required@))),
        ));
    }
    object(out)
}

/// Adds the schemas of some parameters to the properties of an object.
pub fn add_properties(members: &mut Vec<(String, Json)>, params: &Vec<Param>)
    ensures
        member_views(final(members)@) == member_views(old(members)@) + properties(
            param_views(params@),
        ),
{
    let ghost first = member_views(members@);
    let ghost want = properties(param_views(params@));
    assert(first + want.take(0) =~= first);
    for i in 0..params.len()
        invariant
            want == properties(param_views(params@)),
            member_views(members@) == first + want.take(i as int),
    {
        let p = &params[i];
        let ghost before = members@;
        assert(param_views(params@)[i as int] == p@);
        let schema = make_param_schema(p);
        members.push((p.name.to_owned(), schema));
        assert(member_views(members@) =~= member_views(before).push((p.name@, schema@)));
        assert(first + want.take(i + 1) =~= (first + want.take(i as int)).push(
            (p.name@, schema@),
        ));
    }
    assert(want.take(want.len() as int) =~= want);
}

/// The schema of some parameters, of which some must be given.
pub fn make_schema(params: &Vec<Param>, required: &Vec<&'static str>) -> (r: Json)
    ensures
        r@ == schema_of(param_views(params@), text::slice_views(required@)),
{
    let mut members: Vec<(String, Json)> = Vec::new();
    assert(member_views(members@) =~= Seq::empty());
    add_properties(&mut members, params);
    assert(member_views(members@) =~= properties(param_views(params@)));
    make_object_schema(members, required)
}

/// A schema is one of an object with properties.
pub open spec fn is_object_schema(s: JsonV) -> bool {
    s.text_at("type"@) == Some("object"@) && s.get("properties"@) is Some
}

/// Every schema that is put together here is one of an object with properties.
pub proof fn schemas_are_objects(
    properties: Seq<(Seq<char>, JsonV)>,
    required: Seq<Seq<char>>,
)
    ensures
        is_object_schema(object_schema(properties, required)),
        object_schema(properties, required).get("properties"@) == Some(JsonV::Object(properties)),
{
    reveal_strlit("type");
    reveal_strlit("properties");
    assert("type"@.len() != "properties"@.len());
    let members = object_schema(properties, required)->Object_0;
    assert(members[0] == typed("object"@));
    assert(members[1] == ("properties"@, JsonV::Object(properties)));
    assert(members.skip(1)[0] == members[1]);
    reveal_with_fuel(JsonV::find, 3);
}

/// What is told of a thing to do.
pub open spec fn todo_params(content: Seq<char>, active: Seq<char>) -> Seq<ParamV> {
    seq![
        plain_of("content"@, "string"@, content),
        plain_of("activeForm"@, "string"@, active),
        one_of_these("status"@, seq!["pending"@, "in_progress"@, "completed"@], ""@),
    ]
}

/// The schema of the list of things to do, with remarks on what is to be done and
/// on how it is called while it is done.
pub open spec fn todo_schema(content: Seq<char>, active: Seq<char>) -> JsonV {
    let item = schema_of(
        todo_params(content, active),
        seq!["content"@, "activeForm"@, "status"@],
    );
    object_schema(
        seq![("todos"@, JsonV::Object(seq![typed("array"@), ("items"@, item)]))],
        seq!["todos"@],
    )
}

/// The schema of the list of things to do.
pub fn make_todo_schema(content: &'static str, active: &'static str) -> (r: Json)
    ensures
        r@ == todo_schema(content@, active@),
{
    let params = vec![
        plain("content", "string", content),
        plain("activeForm", "string", active),
        one_of("status", vec!["pending", "in_progress", "completed"], ""),
    ];
    let required = vec!["content", "activeForm", "status"];
    assert(params@[2]@.kind =~= KindV::OneOf(seq!["pending"@, "in_progress"@, "completed"@]));
    assert(param_views(params@) =~= todo_params(content@, active@));
    assert(text::slice_views(required@) =~= seq!["content"@, "activeForm"@, "status"@]);
    let item = make_schema(&params, &required);
    let mut list: Vec<(String, Json)> = Vec::new();
    list.push(type_member("array"));
    list.push(("items".to_owned(), item));
    assert(member_views(list@) =~= seq![typed("array"@), ("items"@, item@)]);
    let todos = object(list);
    let mut members: Vec<(String, Json)> = Vec::new();
    members.push(("todos".to_owned(), todos));
    assert(member_views(members@) =~= seq![("todos"@, todos@)]);
    let first = vec!["todos"];
    assert(text::slice_views(first@) =~= seq!["todos"@]);
    make_object_schema(members, &first)
}

} // verus!
