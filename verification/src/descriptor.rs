//! The description of one callable function: its name, where it is served,
//! how it is carried and encoded, and what it takes and gives.

use crate::path::{is_valid_path, lemma_no_problem_is_valid, validate_path_chars, PathError};
use crate::wire::{json_quote, json_quoted};
use crate::text::{
    ascii_upper, char_uppercase, chars_of, contains, contains_text, find_char, first_index, is_char, push_char,
    str_equal, texts, uppercase_char,
};
use vstd::prelude::*;
use vstd::string::StringExecFns;

verus! {

/// How a function is carried.
#[derive(Debug, Clone, Copy, PartialEq, Eq, Structural)]
pub enum Transport {
    /// One request, one response.
    Rpc,
    /// One request, then a stream of items from the server.
    ServerStream,
    /// A stream of items in each direction.
    Bidirectional,
}

/// How values are encoded.
#[derive(Debug, Clone, Copy, PartialEq, Eq, Structural)]
pub enum Encoding {
    /// JSON: the default, readable by a person.
    Json,
    /// MessagePack: the same values, smaller and faster.
    Binary,
}

/// The method of a request.
#[derive(Debug, Clone, Copy, PartialEq, Eq, Structural)]
pub enum Method {
    Get,
    Post,
}

impl Transport {
    /// The method a function carried this way is called by: `POST` for a
    /// call with a body to answer, `GET` for opening a stream.
    pub open spec fn spec_method(self) -> Method {
        match self {
            Transport::Rpc => Method::Post,
            Transport::ServerStream => Method::Get,
            Transport::Bidirectional => Method::Get,
        }
    }

    /// The method a function carried this way is called by.
    pub fn method(self) -> (method: Method)
        ensures
            method == self.spec_method(),
    {
        match self {
            Transport::Rpc => Method::Post,
            Transport::ServerStream => Method::Get,
            Transport::Bidirectional => Method::Get,
        }
    }
}

impl Encoding {
    /// The content type of a body in this encoding.
    pub open spec fn spec_content_type(self) -> Seq<char> {
        match self {
            Encoding::Json => "application/json"@,
            Encoding::Binary => "application/msgpack"@,
        }
    }

    /// The content type of a body in this encoding.
    pub fn content_type(self) -> (content_type: &'static str)
        ensures
            content_type@ == self.spec_content_type(),
    {
        match self {
            Encoding::Json => "application/json",
            Encoding::Binary => "application/msgpack",
        }
    }
}

/// How a function is to be carried and encoded.
#[derive(Debug, Clone, Copy, PartialEq, Eq, Structural)]
pub struct ServerAttrs {
    pub mode: Transport,
    pub encoding: Encoding,
}

/// What the text of an attribute asks for: `ws` anywhere in it asks for a
/// bidirectional stream; else `sse` asks for a stream from the server; else
/// the function is a plain call. `msgpack` anywhere in it asks for the
/// binary encoding.
pub open spec fn attrs_of(attr: Seq<char>) -> ServerAttrs {
    ServerAttrs {
        mode: if contains_text(attr, "ws"@) {
            Transport::Bidirectional
        } else if contains_text(attr, "sse"@) {
            Transport::ServerStream
        } else {
            Transport::Rpc
        },
        encoding: if contains_text(attr, "msgpack"@) {
            Encoding::Binary
        } else {
            Encoding::Json
        },
    }
}

/// Reads from the text of an attribute how a function is to be carried and
/// encoded.
pub fn parse_attrs(attr: &str) -> (attrs: ServerAttrs)
    ensures
        attrs == attrs_of(attr@),
{
    let chars = chars_of(attr);
    let mode = if contains(&chars, &chars_of("ws")) {
        Transport::Bidirectional
    } else if contains(&chars, &chars_of("sse")) {
        Transport::ServerStream
    } else {
        Transport::Rpc
    };
    let encoding = if contains(&chars, &chars_of("msgpack")) {
        Encoding::Binary
    } else {
        Encoding::Json
    };
    ServerAttrs { mode, encoding }
}

/// One parameter of a function: its name and the name of its type.
#[derive(Debug, Clone, PartialEq, Eq)]
pub struct ParamField {
    pub name: String,
    pub ty: String,
}

/// The upper-case form of a character by the Unicode tables.
pub open spec fn unicode_upper() -> spec_fn(char) -> Seq<char> {
    |c: char| char_uppercase(c)
}

/// The upper-case form of a character where only ASCII letters count.
pub open spec fn ascii_capital() -> spec_fn(char) -> Seq<char> {
    |c: char| seq![ascii_upper(c)]
}

/// `word` with its first character in upper case, as `upper` gives it.
pub open spec fn capitalized(word: Seq<char>, upper: spec_fn(char) -> Seq<char>) -> Seq<char> {
    if word.len() == 0 {
        word
    } else {
        upper(word[0]) + word.skip(1)
    }
}

/// The words of `s` from `from` on that `_` parts, each capitalized, joined
/// without the `_`.
pub open spec fn pascal_from(s: Seq<char>, from: int, upper: spec_fn(char) -> Seq<char>) -> Seq<
    char,
>
    decreases s.len() - from,
{
    let end = first_index(s, is_char('_'), from);
    if from < 0 || from > s.len() {
        Seq::empty()
    } else if from <= end < s.len() {
        capitalized(s.subrange(from, end), upper) + pascal_from(s, end + 1, upper)
    } else {
        capitalized(s.subrange(from, s.len() as int), upper)
    }
}

/// `name` in Pascal case: `get_user` becomes `GetUser`.
pub open spec fn pascal_case(name: Seq<char>) -> Seq<char> {
    pascal_from(name, 0, unicode_upper())
}

/// `name` in Pascal case where only ASCII letters are capitalized. For a
/// name in ASCII this is its Pascal case.
pub open spec fn ascii_pascal_case(name: Seq<char>) -> Seq<char> {
    pascal_from(name, 0, ascii_capital())
}

/// Whether every character of `text` is an ASCII character.
pub open spec fn is_ascii_text(text: Seq<char>) -> bool {
    forall|i: int| 0 <= i < text.len() ==> (#[trigger] text[i] as u32) < 128
}

/// Turns a name in snake case into Pascal case: the name is split at each
/// `_`, the first character of each word is put in upper case, and the words
/// are joined.
pub fn to_pascal_case(name: &str) -> (pascal: String)
    ensures
        pascal@ == pascal_case(name@),
        is_ascii_text(name@) ==> pascal@ == ascii_pascal_case(name@),
{
    let chars = chars_of(name);
    let mut pascal = String::new();
    let mut from: usize = 0;
    let mut done = false;
    while !done
        invariant
            from <= chars.len(),
            chars@ == name@,
            done ==> pascal@ == pascal_case(name@),
            done && is_ascii_text(name@) ==> pascal@ == ascii_pascal_case(name@),
            !done ==> pascal@ + pascal_from(name@, from as int, unicode_upper()) == pascal_case(
                name@,
            ),
            !done && is_ascii_text(name@) ==> pascal@ + pascal_from(
                name@,
                from as int,
                ascii_capital(),
            ) == ascii_pascal_case(name@),
        decreases
                (if done {
                    0
                } else {
                    chars.len() - from + 1
                }),
    {
        let end = find_char(&chars, '_', from);
        let ghost before = pascal@;
        let ghost word = chars@.subrange(from as int, end as int);
        if from < end {
            let upper = uppercase_char(chars[from]);
            pascal.append(upper.as_str());
            let mut i: usize = from + 1;
            while i < end
                invariant
                    from < i <= end <= chars.len(),
                    word == chars@.subrange(from as int, end as int),
                    pascal@ == before + char_uppercase(word[0]) + word.subrange(1, i - from),
                decreases end - i,
            {
                push_char(&mut pascal, chars[i]);
                proof {
                    assert(word.subrange(1, i - from + 1) =~= word.subrange(1, i - from).push(
                        chars@[i as int],
                    ));
                    assert(pascal@ =~= before + char_uppercase(word[0]) + word.subrange(
                        1,
                        i - from + 1,
                    ));
                }
                i = i + 1;
            }
            proof {
                assert(word.subrange(1, end - from) =~= word.skip(1));
                if is_ascii_text(name@) {
                    assert((word[0] as u32) < 128);
                }
            }
        } else {
            proof {
                assert(word =~= Seq::<char>::empty());
            }
        }
        proof {
            assert(pascal@ =~= before + capitalized(word, unicode_upper()));
            if end < chars.len() {
                assert(before + pascal_from(name@, from as int, unicode_upper()) =~= pascal@
                    + pascal_from(name@, end + 1, unicode_upper()));
            } else {
                assert(before + pascal_from(name@, from as int, unicode_upper()) =~= pascal@);
            }
            if is_ascii_text(name@) {
                assert(pascal@ =~= before + capitalized(word, ascii_capital()));
                if end < chars.len() {
                    assert(before + pascal_from(name@, from as int, ascii_capital()) =~= pascal@
                        + pascal_from(name@, end + 1, ascii_capital()));
                } else {
                    assert(before + pascal_from(name@, from as int, ascii_capital()) =~= pascal@);
                }
            }
        }
        if end < chars.len() {
            from = end + 1;
        } else {
            done = true;
        }
    }
    pascal
}

/// The path a function is served at where none is given: `/api/` and the
/// function's name.
pub open spec fn default_path(name: Seq<char>) -> Seq<char> {
    "/api/"@ + name
}

/// The description of one callable function. Its path keeps the rules for
/// endpoint paths.
pub struct FunctionDescriptor {
    name: String,
    path: String,
    transport: Transport,
    encoding: Encoding,
    param_schema: Vec<ParamField>,
    success_type: String,
    error_type: String,
}

impl FunctionDescriptor {
    #[verifier::type_invariant]
    spec fn path_is_valid(self) -> bool {
        is_valid_path(self.path@)
    }

    /// The name of the function.
    pub closed spec fn spec_name(self) -> Seq<char> {
        self.name@
    }

    /// The path the function is served at.
    pub closed spec fn spec_path(self) -> Seq<char> {
        self.path@
    }

    /// How the function is carried.
    pub closed spec fn spec_transport(self) -> Transport {
        self.transport
    }

    /// How its values are encoded.
    pub closed spec fn spec_encoding(self) -> Encoding {
        self.encoding
    }

    /// Its parameters, in order.
    pub closed spec fn spec_params(self) -> Seq<ParamField> {
        self.param_schema@
    }

    /// The name of the type it gives on success.
    pub closed spec fn spec_success_type(self) -> Seq<char> {
        self.success_type@
    }

    /// The name of the type of its application errors.
    pub closed spec fn spec_error_type(self) -> Seq<char> {
        self.error_type@
    }

    /// Describes the function `name`, served at `path`, or at
    /// `/api/{name}` where no path is given. The path is checked here, once:
    /// a path that breaks a rule gives the error for the first rule broken.
    pub fn new(
        name: &str,
        path: Option<&str>,
        transport: Transport,
        encoding: Encoding,
        param_schema: Vec<ParamField>,
        success_type: &str,
        error_type: &str,
    ) -> (described: Result<Self, PathError>)
        ensures
            ({
                let served = match path {
                    Some(given) => given@,
                    None => default_path(name@),
                };
                match described {
                    Ok(descriptor) => {
                        &&& is_valid_path(served)
                        &&& descriptor.spec_name() == name@
                        &&& descriptor.spec_path() == served
                        &&& descriptor.spec_transport() == transport
                        &&& descriptor.spec_encoding() == encoding
                        &&& descriptor.spec_params() == param_schema@
                        &&& descriptor.spec_success_type() == success_type@
                        &&& descriptor.spec_error_type() == error_type@
                    },
                    Err(problem) => crate::path::path_problem(served) == Some(problem),
                }
            }),
    {
        let served = match path {
            Some(given) => String::from_str(given),
            None => String::from_str("/api/").concat(name),
        };
        let chars = chars_of(served.as_str());
        proof {
            lemma_no_problem_is_valid(served@);
        }
        match validate_path_chars(&chars) {
            Ok(()) => Ok(
                FunctionDescriptor {
                    name: String::from_str(name),
                    path: served,
                    transport,
                    encoding,
                    param_schema,
                    success_type: String::from_str(success_type),
                    error_type: String::from_str(error_type),
                },
            ),
            Err(problem) => Err(problem),
        }
    }

    /// The name of the function.
    pub fn name(&self) -> (name: &str)
        ensures
            name@ == self.spec_name(),
    {
        self.name.as_str()
    }

    /// The path the function is served at. It keeps the rules for endpoint
    /// paths.
    pub fn path(&self) -> (path: &str)
        ensures
            path@ == self.spec_path(),
            is_valid_path(path@),
    {
        proof {
            use_type_invariant(self);
        }
        self.path.as_str()
    }

    /// How the function is carried.
    pub fn transport(&self) -> (transport: Transport)
        ensures
            transport == self.spec_transport(),
    {
        self.transport
    }

    /// How its values are encoded.
    pub fn encoding(&self) -> (encoding: Encoding)
        ensures
            encoding == self.spec_encoding(),
    {
        self.encoding
    }

    /// The method the function is called by.
    pub fn method(&self) -> (method: Method)
        ensures
            method == self.spec_transport().spec_method(),
    {
        self.transport.method()
    }

    /// Its parameters, in order.
    pub fn param_schema(&self) -> (params: &Vec<ParamField>)
        ensures
            params@ == self.spec_params(),
    {
        &self.param_schema
    }

    /// The name of the type it gives on success.
    pub fn success_type(&self) -> (name: &str)
        ensures
            name@ == self.spec_success_type(),
    {
        self.success_type.as_str()
    }

    /// The name of the type of its application errors.
    pub fn error_type(&self) -> (name: &str)
        ensures
            name@ == self.spec_error_type(),
    {
        self.error_type.as_str()
    }

    /// The name of the type that holds the arguments of one call: the
    /// function's name in Pascal case, then `Request`.
    pub fn request_name(&self) -> (name: String)
        ensures
            name@ == pascal_case(self.spec_name()) + "Request"@,
    {
        to_pascal_case(self.name.as_str()).concat("Request")
    }

    /// The name of the type that holds the result of one call: the
    /// function's name in Pascal case, then `Response`.
    pub fn response_name(&self) -> (name: String)
        ensures
            name@ == pascal_case(self.spec_name()) + "Response"@,
    {
        to_pascal_case(self.name.as_str()).concat("Response")
    }

    /// Binds `values` to the parameters, in order. There must be one value
    /// for each parameter.
    pub fn bind<V>(&self, values: Vec<V>) -> (request: Option<Request<V>>)
        ensures
            match request {
                Some(bound) => values.len() == self.spec_params().len() && bound.values()
                    == values@ && bound.names() == param_names(self.spec_params()),
                None => values.len() != self.spec_params().len(),
            },
    {
        if values.len() != self.param_schema.len() {
            return None;
        }
        let mut names: Vec<String> = Vec::new();
        let mut i: usize = 0;
        while i < self.param_schema.len()
            invariant
                i <= self.param_schema.len(),
                crate::text::texts(names@) == param_names(self.param_schema@.take(i as int)),
            decreases self.param_schema.len() - i,
        {
            let ghost before = names@;
            let name = self.param_schema[i].name.clone();
            names.push(name);
            proof {
                assert(crate::text::texts(names@) =~= crate::text::texts(before).push(name@));
                assert(param_names(self.param_schema@.take(i + 1)) =~= param_names(
                    self.param_schema@.take(i as int),
                ).push(self.param_schema@[i as int].name@));
            }
            i = i + 1;
        }
        proof {
            assert(self.param_schema@.take(self.param_schema.len() as int)
                =~= self.param_schema@);
        }
        Some(Request { names, values })
    }
}

/// The names of the parameters, in order.
pub open spec fn param_names(params: Seq<ParamField>) -> Seq<Seq<char>> {
    params.map_values(|param: ParamField| param.name@)
}

/// The arguments of one call, each under the name of its parameter.
pub struct Request<V> {
    names: Vec<String>,
    values: Vec<V>,
}

/// The index of the first of `names` that is `name`, or their number.
pub open spec fn index_of_name(names: Seq<Seq<char>>, name: Seq<char>) -> int
    decreases names.len(),
{
    if names.len() == 0 {
        0
    } else if names[0] == name {
        0
    } else {
        1 + index_of_name(names.drop_first(), name)
    }
}

/// The members of a JSON object that holds `values` under `names`, in
/// order: each name as a JSON string, a colon, the value as it is; commas
/// in between.
pub open spec fn json_members(names: Seq<Seq<char>>, values: Seq<Seq<char>>) -> Seq<char>
    decreases names.len(),
{
    if names.len() == 0 || values.len() != names.len() {
        Seq::empty()
    } else {
        let last = json_quoted(names.last()) + seq![':'] + values.last();
        if names.len() == 1 {
            last
        } else {
            json_members(names.drop_last(), values.drop_last()) + seq![','] + last
        }
    }
}

/// The JSON object that holds `values` under `names`.
pub open spec fn json_object(names: Seq<Seq<char>>, values: Seq<Seq<char>>) -> Seq<char> {
    seq!['{'] + json_members(names, values) + seq!['}']
}

impl Request<String> {
    /// The arguments as the body of a call in JSON: an object with one
    /// member for each parameter, in order, where each argument is the JSON
    /// text it was encoded to.
    pub fn to_json(&self) -> (body: String)
        ensures
            body@ == json_object(self.names(), texts(self.values())),
    {
        proof {
            use_type_invariant(self);
        }
        let mut body = String::from_str("{");
        let mut i: usize = 0;
        proof {
            reveal_strlit("{");
            reveal_strlit("}");
            reveal_strlit(":");
            reveal_strlit(",");
            assert("{"@ =~= seq!['{']);
            assert(texts(self.names@).take(0) =~= Seq::<Seq<char>>::empty());
            assert(body@ =~= seq!['{'] + json_members(
                texts(self.names@).take(0),
                texts(self.values@).take(0),
            ));
        }
        while i < self.names.len()
            invariant
                i <= self.names.len(),
                self.names.len() == self.values.len(),
                body@ == seq!['{'] + json_members(
                    texts(self.names@).take(i as int),
                    texts(self.values@).take(i as int),
                ),
            decreases self.names.len() - i,
        {
            let ghost before = body@;
            let ghost names = texts(self.names@).take(i + 1);
            let ghost values = texts(self.values@).take(i + 1);
            if i > 0 {
                body.append(",");
            }
            let quoted = json_quote(self.names[i].as_str());
            body.append(quoted.as_str());
            body.append(":");
            body.append(self.values[i].as_str());
            proof {
                reveal_strlit(":");
                reveal_strlit(",");
                assert(":"@ =~= seq![':']);
                assert(","@ =~= seq![',']);
                assert(names.drop_last() =~= texts(self.names@).take(i as int));
                assert(values.drop_last() =~= texts(self.values@).take(i as int));
                assert(names.last() == self.names@[i as int]@);
                assert(values.last() == self.values@[i as int]@);
                let last = json_quoted(names.last()) + seq![':'] + values.last();
                if i > 0 {
                    assert(body@ =~= before + seq![','] + last);
                } else {
                    assert(json_members(names.drop_last(), values.drop_last()) =~= Seq::<
                        char,
                    >::empty());
                    assert(body@ =~= before + last);
                }
                assert(body@ =~= seq!['{'] + json_members(names, values));
            }
            i = i + 1;
        }
        proof {
            reveal_strlit("}");
            assert("}"@ =~= seq!['}']);
            assert(texts(self.names@).take(self.names.len() as int) =~= texts(self.names@));
            assert(texts(self.values@).take(self.values.len() as int) =~= texts(self.values@));
        }
        body.append("}");
        body
    }
}

impl<V> Request<V> {
    #[verifier::type_invariant]
    spec fn one_value_each(self) -> bool {
        self.names.len() == self.values.len()
    }

    /// The names of the parameters, in order.
    pub closed spec fn names(self) -> Seq<Seq<char>> {
        crate::text::texts(self.names@)
    }

    /// The arguments, in the order of the parameters.
    pub closed spec fn values(self) -> Seq<V> {
        self.values@
    }

    /// The argument for the parameter `name`: for the first of that name.
    pub fn get(&self, name: &str) -> (value: Option<&V>)
        ensures
            self.names().len() == self.values().len(),
            match value {
                Some(found) => index_of_name(self.names(), name@) < self.values().len() && *found
                    == self.values()[index_of_name(self.names(), name@)],
                None => index_of_name(self.names(), name@) >= self.values().len(),
            },
    {
        proof {
            use_type_invariant(self);
        }
        let mut i: usize = 0;
        assert(self.names().skip(0) =~= self.names());
        while i < self.names.len()
            invariant
                i <= self.names.len(),
                self.names.len() == self.values.len(),
                index_of_name(self.names(), name@) == i + index_of_name(
                    self.names().skip(i as int),
                    name@,
                ),
            decreases self.names.len() - i,
        {
            proof {
                assert(self.names().skip(i as int).drop_first() =~= self.names().skip(i + 1));
            }
            if str_equal(self.names[i].as_str(), name) {
                return Some(&self.values[i]);
            }
            i = i + 1;
        }
        None
    }

    /// The arguments, in the order of the parameters.
    pub fn into_values(self) -> (values: Vec<V>)
        ensures
            values@ == self.values(),
    {
        self.values
    }
}

} // verus!
