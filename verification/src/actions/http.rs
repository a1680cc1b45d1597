//! The HTTP action: sends one request to a URL.
use vstd::prelude::*;

use crate::action_builder::{ActionError, ActionErrorView};
use crate::actions::log::text_field;
use crate::decode::{
    auth_names, basic_schema, bearer_schema, complete_fields_spec, decode_auth_spec, decode_record, decode_record_spec,
    decode_value_spec, defaulted_field, field_names, map_fields_spec, method_names, position,
    position_from, required_field, scan_entries_spec, schema_view, values_view, FieldKind,
    FieldSpecView, FieldValue, FieldValueView,
};
use crate::json::{DecodeErrorView, JsonValue};

verus! {

/// The HTTP method of the request.
#[derive(Clone, Copy, Debug, PartialEq, Eq, Structural)]
pub enum HttpMethod {
    Get,
    Post,
    Patch,
    Put,
    Delete,
}

/// How the request authenticates.
pub enum AuthMethod {
    Basic { username: String, password: Option<String> },
    Bearer { token: String },
    NoAuth,
}

pub enum AuthMethodView {
    Basic { username: Seq<char>, password: Option<Seq<char>> },
    Bearer { token: Seq<char> },
    NoAuth,
}

impl View for AuthMethod {
    type V = AuthMethodView;

    open spec fn view(&self) -> AuthMethodView {
        match self {
            AuthMethod::Basic { username, password } => AuthMethodView::Basic {
                username: username@,
                password: password.deep_view(),
            },
            AuthMethod::Bearer { token } => AuthMethodView::Bearer { token: token@ },
            AuthMethod::NoAuth => AuthMethodView::NoAuth,
        }
    }
}

impl AuthMethod {
    /// A copy of this method.
    pub fn duplicate(&self) -> (r: AuthMethod)
        ensures
            r@ == self@,
    {
        match self {
            AuthMethod::Basic { username, password } => AuthMethod::Basic {
                username: username.clone(),
                password: match password {
                    Some(p) => Some(p.clone()),
                    None => None,
                },
            },
            AuthMethod::Bearer { token } => AuthMethod::Bearer { token: token.clone() },
            AuthMethod::NoAuth => AuthMethod::NoAuth,
        }
    }
}

/// An HTTP action: `auth`, `url`, `method` and an optional `body`.
pub struct HttpV1 {
    auth: AuthMethod,
    url: String,
    method: HttpMethod,
    body: String,
}

pub struct HttpV1View {
    pub auth: AuthMethodView,
    pub url: Seq<char>,
    pub method: HttpMethod,
    pub body: Seq<char>,
}

impl View for HttpV1 {
    type V = HttpV1View;

    closed spec fn view(&self) -> HttpV1View {
        HttpV1View { auth: self.auth@, url: self.url@, method: self.method, body: self.body@ }
    }
}

/// The fields of an HTTP action; `body` is empty when absent.
pub open spec fn http_schema() -> Seq<FieldSpecView> {
    seq![
        FieldSpecView { name: "auth"@, kind: FieldKind::Auth, default: None },
        FieldSpecView { name: "url"@, kind: FieldKind::Text, default: None },
        FieldSpecView { name: "method"@, kind: FieldKind::Method, default: None },
        FieldSpecView { name: "body"@, kind: FieldKind::Text, default: Some(Seq::empty()) },
    ]
}

pub open spec fn auth_of(v: FieldValueView) -> AuthMethodView {
    match v {
        FieldValueView::Auth(a) => a,
        _ => AuthMethodView::NoAuth,
    }
}

pub open spec fn method_of(v: FieldValueView) -> HttpMethod {
    match v {
        FieldValueView::Method(m) => m,
        _ => HttpMethod::Get,
    }
}

/// What `HttpV1::init` gives for the attributes `v`.
pub open spec fn http_v1_spec(v: JsonValue) -> Result<HttpV1View, ActionErrorView> {
    match decode_record_spec(v, "HttpV1"@, http_schema()) {
        Err(e) => Err(ActionErrorView::ParseError(e)),
        Ok(fs) => Ok(
            HttpV1View {
                auth: auth_of(fs[0]),
                url: text_field(fs[1]),
                method: method_of(fs[2]),
                body: text_field(fs[3]),
            },
        ),
    }
}

pub open spec fn http_result_view(r: Result<HttpV1, ActionError>) -> Result<HttpV1View, ActionErrorView> {
    match r {
        Ok(a) => Ok(a@),
        Err(e) => Err(e@),
    }
}

/// The request an HTTP action sends.
pub struct RequestPlan {
    pub method: HttpMethod,
    pub url: String,
    /// The body, sent with a JSON content type; `None` sends no body.
    pub json_body: Option<String>,
    pub auth: AuthMethod,
}

impl HttpV1 {
    /// Reads an HTTP action from message attributes.
    pub fn init(attributes: &JsonValue) -> (r: Result<HttpV1, ActionError>)
        ensures
            http_result_view(r) == http_v1_spec(*attributes),
    {
        let mut schema = Vec::new();
        schema.push(required_field("auth", FieldKind::Auth));
        schema.push(required_field("url", FieldKind::Text));
        schema.push(required_field("method", FieldKind::Method));
        schema.push(defaulted_field("body", ""));
        proof {
            reveal_strlit("");
            assert(""@ =~= Seq::<char>::empty());
            assert(schema_view(schema@)[3] == http_schema()[3]);
        }
        assert(schema_view(schema@) =~= http_schema());
        match decode_record(attributes, "HttpV1", &schema) {
            Err(e) => Err(ActionError::ParseError(e)),
            Ok(fields) => {
                let ghost fv = values_view(fields@);
                assert(fv[0] is Auth && fv[1] is Text && fv[2] is Method && fv[3] is Text);
                let mut fields = fields;
                let body = fields.pop();
                let method = fields.pop();
                let url = fields.pop();
                let auth = fields.pop();
                match (auth, url, method, body) {
                    (
                        Some(FieldValue::Auth(a)),
                        Some(FieldValue::Text(u)),
                        Some(FieldValue::Method(m)),
                        Some(FieldValue::Text(b)),
                    ) => Ok(HttpV1 { auth: a, url: u, method: m, body: b }),
                    _ => vstd::pervasive::unreached(),
                }
            },
        }
    }

    /// The request to send: a body, with a JSON content type, goes with
    /// every method but GET, when it is not empty.
    pub fn request_plan(&self) -> (r: RequestPlan)
        ensures
            r.method == self@.method,
            r.url@ == self@.url,
            r.auth@ == self@.auth,
            r.json_body is Some <==> (self@.method != HttpMethod::Get && self@.body.len() > 0),
            r.json_body is Some ==> r.json_body->Some_0@ == self@.body,
    {
        let json_body = match self.method {
            HttpMethod::Get => None,
            _ => if self.body.as_str().is_empty() {
                None
            } else {
                Some(self.body.clone())
            },
        };
        RequestPlan {
            method: self.method,
            url: self.url.clone(),
            json_body,
            auth: self.auth.duplicate(),
        }
    }
}


/// The method named by `name`, when it names one: `get`, `post`, `patch`,
/// `put` and `delete` name GET, POST, PATCH, PUT and DELETE.
proof fn lemma_method_decodes(v: JsonValue)
    requires
        v is String,
    ensures
        v->String_0@ == "get"@ ==> decode_value_spec(FieldKind::Method, v) == Ok::<
            FieldValueView,
            DecodeErrorView,
        >(FieldValueView::Method(HttpMethod::Get)),
        v->String_0@ == "post"@ ==> decode_value_spec(FieldKind::Method, v) == Ok::<
            FieldValueView,
            DecodeErrorView,
        >(FieldValueView::Method(HttpMethod::Post)),
        v->String_0@ == "patch"@ ==> decode_value_spec(FieldKind::Method, v) == Ok::<
            FieldValueView,
            DecodeErrorView,
        >(FieldValueView::Method(HttpMethod::Patch)),
        v->String_0@ == "put"@ ==> decode_value_spec(FieldKind::Method, v) == Ok::<
            FieldValueView,
            DecodeErrorView,
        >(FieldValueView::Method(HttpMethod::Put)),
        v->String_0@ == "delete"@ ==> decode_value_spec(FieldKind::Method, v) == Ok::<
            FieldValueView,
            DecodeErrorView,
        >(FieldValueView::Method(HttpMethod::Delete)),
{
    reveal_strlit("get");
    reveal_strlit("post");
    reveal_strlit("patch");
    reveal_strlit("put");
    reveal_strlit("delete");
    reveal_with_fuel(position_from, 6);
    let names = method_names();
    assert("get"@[0] != "post"@[0]);
    assert("get"@[0] != "patch"@[0]);
    assert("get"@[0] != "put"@[0]);
    assert("get"@[0] != "delete"@[0]);
    assert("post"@[1] != "patch"@[1]);
    assert("post"@[1] != "put"@[1]);
    assert("post"@[0] != "delete"@[0]);
    assert("patch"@[1] != "put"@[1]);
    assert("patch"@[0] != "delete"@[0]);
    assert("put"@[0] != "delete"@[0]);
    let n = v->String_0@;
    if n == "get"@ {
        assert(position(names, n) == 0);
    } else if n == "post"@ {
        assert(position(names, n) == 1);
    } else if n == "patch"@ {
        assert(position(names, n) == 2);
    } else if n == "put"@ {
        assert(position(names, n) == 3);
    } else if n == "delete"@ {
        assert(position(names, n) == 4);
    }
}

/// An object that gives `auth` as `none`, `url` as a string and `method` as
/// one of `get`, `post`, `patch`, `put`, `delete`, and no body, decodes to no
/// authentication, that URL, the method of that name (GET, POST, PATCH, PUT,
/// DELETE), and an empty body; so distinct method names give distinct methods.
pub proof fn http_object_decodes_method_by_name(v: JsonValue)
    requires
        v is Object,
        v->Object_0@.len() == 3,
        v->Object_0@[0].0@ == "auth"@,
        v->Object_0@[1].0@ == "url"@,
        v->Object_0@[2].0@ == "method"@,
        v->Object_0@[0].1 is String,
        v->Object_0@[0].1->String_0@ == "none"@,
        v->Object_0@[1].1 is String,
        v->Object_0@[2].1 is String,
    ensures
        ({
            let m = v->Object_0@[2].1->String_0@;
            let expect = |method: HttpMethod|
                Ok::<HttpV1View, ActionErrorView>(
                    HttpV1View {
                        auth: AuthMethodView::NoAuth,
                        url: v->Object_0@[1].1->String_0@,
                        method: method,
                        body: Seq::empty(),
                    },
                );
            &&& m == "get"@ ==> http_v1_spec(v) == expect(HttpMethod::Get)
            &&& m == "post"@ ==> http_v1_spec(v) == expect(HttpMethod::Post)
            &&& m == "patch"@ ==> http_v1_spec(v) == expect(HttpMethod::Patch)
            &&& m == "put"@ ==> http_v1_spec(v) == expect(HttpMethod::Put)
            &&& m == "delete"@ ==> http_v1_spec(v) == expect(HttpMethod::Delete)
        }),
{
    reveal_strlit("auth");
    reveal_strlit("url");
    reveal_strlit("method");
    reveal_strlit("body");
    reveal_strlit("basic");
    reveal_strlit("bearer");
    reveal_strlit("none");
    reveal_with_fuel(position_from, 5);
    reveal_with_fuel(complete_fields_spec, 5);
    let entries = v->Object_0@;
    let sv = http_schema();
    let m = entries[2].1->String_0@;
    if m == "get"@ || m == "post"@ || m == "patch"@ || m == "put"@ || m == "delete"@ {
        lemma_method_decodes(entries[2].1);
        let fm = decode_value_spec(FieldKind::Method, entries[2].1);
        assert(fm is Ok);
        assert(field_names(sv) =~= seq!["auth"@, "url"@, "method"@, "body"@]);
        assert("auth"@[0] != "url"@[0]);
        assert("auth"@[0] != "method"@[0]);
        assert("url"@[0] != "method"@[0]);
        assert(position(field_names(sv), "auth"@) == 0);
        assert(position(field_names(sv), "url"@) == 1);
        assert(position(field_names(sv), "method"@) == 2);
        assert("basic"@[0] != "none"@[0]);
        assert("bearer"@[0] != "none"@[0]);
        assert(position(auth_names(), "none"@) == 2);
        assert(decode_auth_spec(entries[0].1) == Ok::<FieldValueView, DecodeErrorView>(
            FieldValueView::Auth(AuthMethodView::NoAuth),
        ));
        let none = Seq::new(sv.len(), |j: int| None::<FieldValueView>);
        let f1 = none.update(0, Some(FieldValueView::Auth(AuthMethodView::NoAuth)));
        let f2 = f1.update(1, Some(FieldValueView::Text(entries[1].1->String_0@)));
        let f3 = f2.update(2, Some(fm->Ok_0));
        assert(scan_entries_spec(entries, sv, 3, f3) == Ok::<
            Seq<Option<FieldValueView>>,
            DecodeErrorView,
        >(f3));
        assert(scan_entries_spec(entries, sv, 2, f2) == scan_entries_spec(entries, sv, 3, f3));
        assert(scan_entries_spec(entries, sv, 1, f1) == scan_entries_spec(entries, sv, 2, f2));
        assert(scan_entries_spec(entries, sv, 0, none) == scan_entries_spec(entries, sv, 1, f1));
        assert(map_fields_spec(entries, sv) is Ok);
    }
}


/// An authentication given as `{"basic": {"username": u, "password": p}}`
/// with string `u` and `p` decodes to basic authentication with user `u` and
/// password `p`; one given as `{"bearer": {"token": t}}` with string `t`
/// decodes to bearer authentication with token `t`.
pub proof fn auth_object_decodes(v: JsonValue)
    requires
        v is Object,
        v->Object_0@.len() == 1,
        v->Object_0@[0].1 is Object,
    ensures
        ({
            let name = v->Object_0@[0].0@;
            let inner = v->Object_0@[0].1->Object_0@;
            name == "basic"@ && inner.len() == 2 && inner[0].0@ == "username"@ && inner[1].0@
                == "password"@ && inner[0].1 is String && inner[1].1 is String
                ==> decode_value_spec(FieldKind::Auth, v) == Ok::<FieldValueView, DecodeErrorView>(
                FieldValueView::Auth(
                    AuthMethodView::Basic {
                        username: inner[0].1->String_0@,
                        password: Some(inner[1].1->String_0@),
                    },
                ),
            )
        }),
        ({
            let name = v->Object_0@[0].0@;
            let inner = v->Object_0@[0].1->Object_0@;
            name == "bearer"@ && inner.len() == 1 && inner[0].0@ == "token"@ && inner[0].1 is String
                ==> decode_value_spec(FieldKind::Auth, v) == Ok::<FieldValueView, DecodeErrorView>(
                FieldValueView::Auth(AuthMethodView::Bearer { token: inner[0].1->String_0@ }),
            )
        }),
{
    reveal_strlit("basic");
    reveal_strlit("bearer");
    reveal_strlit("none");
    reveal_strlit("username");
    reveal_strlit("password");
    reveal_strlit("token");
    reveal_with_fuel(position_from, 4);
    reveal_with_fuel(complete_fields_spec, 3);
    assert("basic"@[1] != "bearer"@[1]);
    assert("basic"@[0] != "none"@[0]);
    assert("bearer"@[0] != "none"@[0]);
    let name = v->Object_0@[0].0@;
    let inner = v->Object_0@[0].1->Object_0@;
    if name == "basic"@ && inner.len() == 2 && inner[0].0@ == "username"@ && inner[1].0@
        == "password"@ && inner[0].1 is String && inner[1].1 is String {
        let sv = basic_schema();
        assert(position(auth_names(), "basic"@) == 0);
        assert(field_names(sv) =~= seq!["username"@, "password"@]);
        assert("username"@[0] != "password"@[0]);
        assert(position(field_names(sv), "username"@) == 0);
        assert(position(field_names(sv), "password"@) == 1);
        let none = Seq::new(sv.len(), |j: int| None::<FieldValueView>);
        let f1 = none.update(0, Some(FieldValueView::Text(inner[0].1->String_0@)));
        let f2 = f1.update(1, Some(FieldValueView::OptionalText(Some(inner[1].1->String_0@))));
        assert(scan_entries_spec(inner, sv, 2, f2) == Ok::<
            Seq<Option<FieldValueView>>,
            DecodeErrorView,
        >(f2));
        assert(scan_entries_spec(inner, sv, 1, f1) == scan_entries_spec(inner, sv, 2, f2));
        assert(scan_entries_spec(inner, sv, 0, none) == scan_entries_spec(inner, sv, 1, f1));
        assert(map_fields_spec(inner, sv) is Ok);
        assert(decode_auth_spec(v) == Ok::<FieldValueView, DecodeErrorView>(
            FieldValueView::Auth(
                AuthMethodView::Basic {
                    username: inner[0].1->String_0@,
                    password: Some(inner[1].1->String_0@),
                },
            ),
        ));
    }
    if name == "bearer"@ && inner.len() == 1 && inner[0].0@ == "token"@ && inner[0].1 is String {
        let sv = bearer_schema();
        assert(position(auth_names(), "bearer"@) == 1);
        assert(field_names(sv) =~= seq!["token"@]);
        assert(position(field_names(sv), "token"@) == 0);
        let none = Seq::new(sv.len(), |j: int| None::<FieldValueView>);
        let f1 = none.update(0, Some(FieldValueView::Text(inner[0].1->String_0@)));
        assert(scan_entries_spec(inner, sv, 1, f1) == Ok::<
            Seq<Option<FieldValueView>>,
            DecodeErrorView,
        >(f1));
        assert(scan_entries_spec(inner, sv, 0, none) == scan_entries_spec(inner, sv, 1, f1));
        assert(map_fields_spec(inner, sv) is Ok);
        assert(decode_auth_spec(v) == Ok::<FieldValueView, DecodeErrorView>(
            FieldValueView::Auth(AuthMethodView::Bearer { token: inner[0].1->String_0@ }),
        ));
    }
}

} // verus!
