//! The user-creation request and the user record that comes back.

use vstd::prelude::*;
use crate::error::{is_invalid_request, Auth0Error, Result};
use crate::text::{contains_char, has_char};
use crate::wire::{
    document_of, flag_of, lemma_distinct_names, lemma_fields_read_back, lemma_only_present_fields,
    lookup, name_unused, names_differ, only_present_fields, opt_document, opt_flag, opt_text,
    present, text_of, Json, ObjectBuilder, WireValue,
};

verus! {

/// Body of a request that creates a user.
#[derive(Debug)]
pub struct CreateUserRequest {
    /// The user's e-mail address.
    pub email: String,
    /// The connection to create the user in.
    pub connection: String,
    /// The user's password, if applicable.
    pub password: Option<String>,
    /// The user's given name.
    pub given_name: Option<String>,
    /// The user's family name.
    pub family_name: Option<String>,
    /// The user's full name.
    pub name: Option<String>,
    /// The user's nickname.
    pub nickname: Option<String>,
    /// URL of the user's picture.
    pub picture: Option<String>,
    /// The user's ID.
    pub user_id: Option<String>,
    /// Whether the user's e-mail is verified.
    pub email_verified: Option<bool>,
    /// The user's phone number (E.164 format).
    pub phone_number: Option<String>,
    /// Whether the user's phone number is verified.
    pub phone_verified: Option<bool>,
    /// Additional metadata for the user.
    pub user_metadata: Option<serde_json::Value>,
    /// Application-specific metadata.
    pub app_metadata: Option<serde_json::Value>,
    /// Whether the user is blocked.
    pub blocked: Option<bool>,
}

impl Default for CreateUserRequest {
    /// Empty required text, and no optional field.
    fn default() -> (r: Self)
        ensures
            r.email@.len() == 0,
            r.connection@.len() == 0,
            r.password is None,
            r.given_name is None,
            r.family_name is None,
            r.name is None,
            r.nickname is None,
            r.picture is None,
            r.user_id is None,
            r.email_verified is None,
            r.phone_number is None,
            r.phone_verified is None,
            r.user_metadata is None,
            r.app_metadata is None,
            r.blocked is None,
    {
        CreateUserRequest {
            email: String::new(),
            connection: String::new(),
            password: None,
            given_name: None,
            family_name: None,
            name: None,
            nickname: None,
            picture: None,
            user_id: None,
            email_verified: None,
            phone_number: None,
            phone_verified: None,
            user_metadata: None,
            app_metadata: None,
            blocked: None,
        }
    }
}

/// The body of a user-creation request holds nothing but the fields that
/// are set, and reading each field back by its name gives its value.
pub proof fn lemma_create_user_wire(req: CreateUserRequest)
    ensures
        only_present_fields(req.wire_fields()),
        lookup(present(req.wire_fields()), "email"@) == Some(Json::Text(req.email@)),
        lookup(present(req.wire_fields()), "connection"@) == Some(Json::Text(req.connection@)),
        lookup(present(req.wire_fields()), "password"@) == text_of(req.password),
        lookup(present(req.wire_fields()), "given_name"@) == text_of(req.given_name),
        lookup(present(req.wire_fields()), "family_name"@) == text_of(req.family_name),
        lookup(present(req.wire_fields()), "name"@) == text_of(req.name),
        lookup(present(req.wire_fields()), "nickname"@) == text_of(req.nickname),
        lookup(present(req.wire_fields()), "picture"@) == text_of(req.picture),
        lookup(present(req.wire_fields()), "user_id"@) == text_of(req.user_id),
        lookup(present(req.wire_fields()), "email_verified"@) == flag_of(req.email_verified),
        lookup(present(req.wire_fields()), "phone_number"@) == text_of(req.phone_number),
        lookup(present(req.wire_fields()), "phone_verified"@) == flag_of(req.phone_verified),
        lookup(present(req.wire_fields()), "user_metadata"@) == document_of(req.user_metadata),
        lookup(present(req.wire_fields()), "app_metadata"@) == document_of(req.app_metadata),
        lookup(present(req.wire_fields()), "blocked"@) == flag_of(req.blocked),
{
    let fs = req.wire_fields();
    lemma_only_present_fields(fs);
    reveal_strlit("email");
    reveal_strlit("connection");
    reveal_strlit("password");
    reveal_strlit("given_name");
    reveal_strlit("family_name");
    reveal_strlit("name");
    reveal_strlit("nickname");
    reveal_strlit("picture");
    reveal_strlit("user_id");
    reveal_strlit("email_verified");
    reveal_strlit("phone_number");
    reveal_strlit("phone_verified");
    reveal_strlit("user_metadata");
    reveal_strlit("app_metadata");
    reveal_strlit("blocked");
    assert(fs[0].0 == "email"@);
    assert(fs[1].0 == "connection"@);
    assert(fs[2].0 == "password"@);
    assert(fs[3].0 == "given_name"@);
    assert(fs[4].0 == "family_name"@);
    assert(fs[5].0 == "name"@);
    assert(fs[6].0 == "nickname"@);
    assert(fs[7].0 == "picture"@);
    assert(fs[8].0 == "user_id"@);
    assert(fs[9].0 == "email_verified"@);
    assert(fs[10].0 == "phone_number"@);
    assert(fs[11].0 == "phone_verified"@);
    assert(fs[12].0 == "user_metadata"@);
    assert(fs[13].0 == "app_metadata"@);
    assert(fs[14].0 == "blocked"@);
    // Names of equal length differ at these letters.
    assert(fs[1].0[0] == 'c');
    assert(fs[2].0[0] == 'p');
    assert(fs[3].0[0] == 'g');
    assert(fs[6].0[0] == 'n');
    assert(fs[7].0[0] == 'p');
    assert(fs[8].0[0] == 'u');
    assert(fs[9].0[0] == 'e');
    assert(fs[10].0[0] == 'p');
    assert(fs[11].0[0] == 'p');
    assert(fs[13].0[0] == 'a');
    assert(fs[14].0[0] == 'b');
    reveal_with_fuel(names_differ, 16);
    reveal_with_fuel(name_unused, 16);
    lemma_distinct_names(fs, fs.len() as int);
    lemma_fields_read_back(fs);
}

/// Omitting a required field fails the build with a message that names
/// the first one missing; setting every required field in a valid form,
/// and nothing else, passes, and the request has no optional field.
pub proof fn lemma_create_user_builder(b: CreateUserRequestBuilder)
    ensures
        b@.email is None ==> b.rejection() == Some("Email is required"@),
        b@.email is Some && b@.connection is None ==> b.rejection() == Some("Connection is required"@),
        b@.email is Some && has_char(b@.email->0, '@') && b@.connection is Some ==> b.rejection() is None,
{
}

/// Collects the fields of a [`CreateUserRequest`] before validation.
pub struct CreateUserRequestBuilder {
    email: Option<String>,
    connection: Option<String>,
    password: Option<String>,
    given_name: Option<String>,
    family_name: Option<String>,
    name: Option<String>,
    nickname: Option<String>,
    picture: Option<String>,
    user_id: Option<String>,
    email_verified: Option<bool>,
    phone_number: Option<String>,
    phone_verified: Option<bool>,
    user_metadata: Option<serde_json::Value>,
    app_metadata: Option<serde_json::Value>,
    blocked: Option<bool>,
}

/// What a [`CreateUserRequestBuilder`] has staged so far.
pub struct CreateUserFields {
    pub email: Option<Seq<char>>,
    pub connection: Option<Seq<char>>,
    pub password: Option<Seq<char>>,
    pub given_name: Option<Seq<char>>,
    pub family_name: Option<Seq<char>>,
    pub name: Option<Seq<char>>,
    pub nickname: Option<Seq<char>>,
    pub picture: Option<Seq<char>>,
    pub user_id: Option<Seq<char>>,
    pub email_verified: Option<bool>,
    pub phone_number: Option<Seq<char>>,
    pub phone_verified: Option<bool>,
    pub user_metadata: Option<serde_json::Value>,
    pub app_metadata: Option<serde_json::Value>,
    pub blocked: Option<bool>,
}

impl View for CreateUserRequestBuilder {
    type V = CreateUserFields;

    closed spec fn view(&self) -> CreateUserFields {
        CreateUserFields {
            email: self.email.deep_view(),
            connection: self.connection.deep_view(),
            password: self.password.deep_view(),
            given_name: self.given_name.deep_view(),
            family_name: self.family_name.deep_view(),
            name: self.name.deep_view(),
            nickname: self.nickname.deep_view(),
            picture: self.picture.deep_view(),
            user_id: self.user_id.deep_view(),
            email_verified: self.email_verified,
            phone_number: self.phone_number.deep_view(),
            phone_verified: self.phone_verified,
            user_metadata: self.user_metadata,
            app_metadata: self.app_metadata,
            blocked: self.blocked,
        }
    }
}

impl CreateUserRequest {
    /// The body's fields, by their names on the wire.
    pub open spec fn wire_fields(&self) -> Seq<(Seq<char>, Option<Json>)> {
        seq![
            ("email"@, Some(Json::Text(self.email@))),
            ("connection"@, Some(Json::Text(self.connection@))),
            ("password"@, text_of(self.password)),
            ("given_name"@, text_of(self.given_name)),
            ("family_name"@, text_of(self.family_name)),
            ("name"@, text_of(self.name)),
            ("nickname"@, text_of(self.nickname)),
            ("picture"@, text_of(self.picture)),
            ("user_id"@, text_of(self.user_id)),
            ("email_verified"@, flag_of(self.email_verified)),
            ("phone_number"@, text_of(self.phone_number)),
            ("phone_verified"@, flag_of(self.phone_verified)),
            ("user_metadata"@, document_of(self.user_metadata)),
            ("app_metadata"@, document_of(self.app_metadata)),
            ("blocked"@, flag_of(self.blocked)),
        ]
    }

    /// The JSON body of the request; an absent field leaves no key.
    pub fn into_wire(self) -> (r: WireValue)
        ensures
            r.model() == Json::Object(present(self.wire_fields())),
    {
        let ghost fields = self.wire_fields();
        let mut obj = ObjectBuilder::new();
        obj.field("email", Some(WireValue::Text(self.email)));
        obj.field("connection", Some(WireValue::Text(self.connection)));
        obj.field("password", opt_text(self.password));
        obj.field("given_name", opt_text(self.given_name));
        obj.field("family_name", opt_text(self.family_name));
        obj.field("name", opt_text(self.name));
        obj.field("nickname", opt_text(self.nickname));
        obj.field("picture", opt_text(self.picture));
        obj.field("user_id", opt_text(self.user_id));
        obj.field("email_verified", opt_flag(self.email_verified));
        obj.field("phone_number", opt_text(self.phone_number));
        obj.field("phone_verified", opt_flag(self.phone_verified));
        obj.field("user_metadata", opt_document(self.user_metadata));
        obj.field("app_metadata", opt_document(self.app_metadata));
        obj.field("blocked", opt_flag(self.blocked));
        assert(obj.fields() =~= fields);
        obj.finish()
    }

    pub fn builder() -> (r: CreateUserRequestBuilder)
        ensures
            r@.email is None,
            r@.connection is None,
            r@.password is None,
            r@.given_name is None,
            r@.family_name is None,
            r@.name is None,
            r@.nickname is None,
            r@.picture is None,
            r@.user_id is None,
            r@.email_verified is None,
            r@.phone_number is None,
            r@.phone_verified is None,
            r@.user_metadata is None,
            r@.app_metadata is None,
            r@.blocked is None,
    {
        CreateUserRequestBuilder {
            email: None,
            connection: None,
            password: None,
            given_name: None,
            family_name: None,
            name: None,
            nickname: None,
            picture: None,
            user_id: None,
            email_verified: None,
            phone_number: None,
            phone_verified: None,
            user_metadata: None,
            app_metadata: None,
            blocked: None,
        }
    }
}

impl CreateUserRequestBuilder {
    /// The first check that the staged fields fail, as the message that
    /// reports it: required fields first, then the e-mail's shape.
    pub open spec fn rejection(&self) -> Option<Seq<char>> {
        if self@.email is None {
            Some("Email is required"@)
        } else if self@.connection is None {
            Some("Connection is required"@)
        } else if !has_char(self@.email->0, '@') {
            Some("Invalid email format"@)
        } else {
            None
        }
    }

    pub fn email(self, email: &str) -> (r: Self)
        ensures
            r@.email == Some(email@),
            r@.connection == self@.connection,
            r@.password == self@.password,
            r@.given_name == self@.given_name,
            r@.family_name == self@.family_name,
            r@.name == self@.name,
            r@.nickname == self@.nickname,
            r@.picture == self@.picture,
            r@.user_id == self@.user_id,
            r@.email_verified == self@.email_verified,
            r@.phone_number == self@.phone_number,
            r@.phone_verified == self@.phone_verified,
            r@.user_metadata == self@.user_metadata,
            r@.app_metadata == self@.app_metadata,
            r@.blocked == self@.blocked,
    {
        CreateUserRequestBuilder { email: Some(String::from_str(email)), ..self }
    }

    pub fn connection(self, connection: &str) -> (r: Self)
        ensures
            r@.connection == Some(connection@),
            r@.email == self@.email,
            r@.password == self@.password,
            r@.given_name == self@.given_name,
            r@.family_name == self@.family_name,
            r@.name == self@.name,
            r@.nickname == self@.nickname,
            r@.picture == self@.picture,
            r@.user_id == self@.user_id,
            r@.email_verified == self@.email_verified,
            r@.phone_number == self@.phone_number,
            r@.phone_verified == self@.phone_verified,
            r@.user_metadata == self@.user_metadata,
            r@.app_metadata == self@.app_metadata,
            r@.blocked == self@.blocked,
    {
        CreateUserRequestBuilder { connection: Some(String::from_str(connection)), ..self }
    }

    pub fn password(self, password: &str) -> (r: Self)
        ensures
            r@.password == Some(password@),
            r@.email == self@.email,
            r@.connection == self@.connection,
            r@.given_name == self@.given_name,
            r@.family_name == self@.family_name,
            r@.name == self@.name,
            r@.nickname == self@.nickname,
            r@.picture == self@.picture,
            r@.user_id == self@.user_id,
            r@.email_verified == self@.email_verified,
            r@.phone_number == self@.phone_number,
            r@.phone_verified == self@.phone_verified,
            r@.user_metadata == self@.user_metadata,
            r@.app_metadata == self@.app_metadata,
            r@.blocked == self@.blocked,
    {
        CreateUserRequestBuilder { password: Some(String::from_str(password)), ..self }
    }

    pub fn given_name(self, given_name: &str) -> (r: Self)
        ensures
            r@.given_name == Some(given_name@),
            r@.email == self@.email,
            r@.connection == self@.connection,
            r@.password == self@.password,
            r@.family_name == self@.family_name,
            r@.name == self@.name,
            r@.nickname == self@.nickname,
            r@.picture == self@.picture,
            r@.user_id == self@.user_id,
            r@.email_verified == self@.email_verified,
            r@.phone_number == self@.phone_number,
            r@.phone_verified == self@.phone_verified,
            r@.user_metadata == self@.user_metadata,
            r@.app_metadata == self@.app_metadata,
            r@.blocked == self@.blocked,
    {
        CreateUserRequestBuilder { given_name: Some(String::from_str(given_name)), ..self }
    }

    pub fn family_name(self, family_name: &str) -> (r: Self)
        ensures
            r@.family_name == Some(family_name@),
            r@.email == self@.email,
            r@.connection == self@.connection,
            r@.password == self@.password,
            r@.given_name == self@.given_name,
            r@.name == self@.name,
            r@.nickname == self@.nickname,
            r@.picture == self@.picture,
            r@.user_id == self@.user_id,
            r@.email_verified == self@.email_verified,
            r@.phone_number == self@.phone_number,
            r@.phone_verified == self@.phone_verified,
            r@.user_metadata == self@.user_metadata,
            r@.app_metadata == self@.app_metadata,
            r@.blocked == self@.blocked,
    {
        CreateUserRequestBuilder { family_name: Some(String::from_str(family_name)), ..self }
    }

    pub fn name(self, name: &str) -> (r: Self)
        ensures
            r@.name == Some(name@),
            r@.email == self@.email,
            r@.connection == self@.connection,
            r@.password == self@.password,
            r@.given_name == self@.given_name,
            r@.family_name == self@.family_name,
            r@.nickname == self@.nickname,
            r@.picture == self@.picture,
            r@.user_id == self@.user_id,
            r@.email_verified == self@.email_verified,
            r@.phone_number == self@.phone_number,
            r@.phone_verified == self@.phone_verified,
            r@.user_metadata == self@.user_metadata,
            r@.app_metadata == self@.app_metadata,
            r@.blocked == self@.blocked,
    {
        CreateUserRequestBuilder { name: Some(String::from_str(name)), ..self }
    }

    pub fn nickname(self, nickname: &str) -> (r: Self)
        ensures
            r@.nickname == Some(nickname@),
            r@.email == self@.email,
            r@.connection == self@.connection,
            r@.password == self@.password,
            r@.given_name == self@.given_name,
            r@.family_name == self@.family_name,
            r@.name == self@.name,
            r@.picture == self@.picture,
            r@.user_id == self@.user_id,
            r@.email_verified == self@.email_verified,
            r@.phone_number == self@.phone_number,
            r@.phone_verified == self@.phone_verified,
            r@.user_metadata == self@.user_metadata,
            r@.app_metadata == self@.app_metadata,
            r@.blocked == self@.blocked,
    {
        CreateUserRequestBuilder { nickname: Some(String::from_str(nickname)), ..self }
    }

    pub fn picture(self, picture: &str) -> (r: Self)
        ensures
            r@.picture == Some(picture@),
            r@.email == self@.email,
            r@.connection == self@.connection,
            r@.password == self@.password,
            r@.given_name == self@.given_name,
            r@.family_name == self@.family_name,
            r@.name == self@.name,
            r@.nickname == self@.nickname,
            r@.user_id == self@.user_id,
            r@.email_verified == self@.email_verified,
            r@.phone_number == self@.phone_number,
            r@.phone_verified == self@.phone_verified,
            r@.user_metadata == self@.user_metadata,
            r@.app_metadata == self@.app_metadata,
            r@.blocked == self@.blocked,
    {
        CreateUserRequestBuilder { picture: Some(String::from_str(picture)), ..self }
    }

    pub fn user_id(self, user_id: &str) -> (r: Self)
        ensures
            r@.user_id == Some(user_id@),
            r@.email == self@.email,
            r@.connection == self@.connection,
            r@.password == self@.password,
            r@.given_name == self@.given_name,
            r@.family_name == self@.family_name,
            r@.name == self@.name,
            r@.nickname == self@.nickname,
            r@.picture == self@.picture,
            r@.email_verified == self@.email_verified,
            r@.phone_number == self@.phone_number,
            r@.phone_verified == self@.phone_verified,
            r@.user_metadata == self@.user_metadata,
            r@.app_metadata == self@.app_metadata,
            r@.blocked == self@.blocked,
    {
        CreateUserRequestBuilder { user_id: Some(String::from_str(user_id)), ..self }
    }

    pub fn email_verified(self, verified: bool) -> (r: Self)
        ensures
            r@.email_verified == Some(verified),
            r@.email == self@.email,
            r@.connection == self@.connection,
            r@.password == self@.password,
            r@.given_name == self@.given_name,
            r@.family_name == self@.family_name,
            r@.name == self@.name,
            r@.nickname == self@.nickname,
            r@.picture == self@.picture,
            r@.user_id == self@.user_id,
            r@.phone_number == self@.phone_number,
            r@.phone_verified == self@.phone_verified,
            r@.user_metadata == self@.user_metadata,
            r@.app_metadata == self@.app_metadata,
            r@.blocked == self@.blocked,
    {
        CreateUserRequestBuilder { email_verified: Some(verified), ..self }
    }

    pub fn phone_number(self, phone_number: &str) -> (r: Self)
        ensures
            r@.phone_number == Some(phone_number@),
            r@.email == self@.email,
            r@.connection == self@.connection,
            r@.password == self@.password,
            r@.given_name == self@.given_name,
            r@.family_name == self@.family_name,
            r@.name == self@.name,
            r@.nickname == self@.nickname,
            r@.picture == self@.picture,
            r@.user_id == self@.user_id,
            r@.email_verified == self@.email_verified,
            r@.phone_verified == self@.phone_verified,
            r@.user_metadata == self@.user_metadata,
            r@.app_metadata == self@.app_metadata,
            r@.blocked == self@.blocked,
    {
        CreateUserRequestBuilder { phone_number: Some(String::from_str(phone_number)), ..self }
    }

    pub fn phone_verified(self, verified: bool) -> (r: Self)
        ensures
            r@.phone_verified == Some(verified),
            r@.email == self@.email,
            r@.connection == self@.connection,
            r@.password == self@.password,
            r@.given_name == self@.given_name,
            r@.family_name == self@.family_name,
            r@.name == self@.name,
            r@.nickname == self@.nickname,
            r@.picture == self@.picture,
            r@.user_id == self@.user_id,
            r@.email_verified == self@.email_verified,
            r@.phone_number == self@.phone_number,
            r@.user_metadata == self@.user_metadata,
            r@.app_metadata == self@.app_metadata,
            r@.blocked == self@.blocked,
    {
        CreateUserRequestBuilder { phone_verified: Some(verified), ..self }
    }

    pub fn user_metadata(self, metadata: serde_json::Value) -> (r: Self)
        ensures
            r@.user_metadata == Some(metadata),
            r@.email == self@.email,
            r@.connection == self@.connection,
            r@.password == self@.password,
            r@.given_name == self@.given_name,
            r@.family_name == self@.family_name,
            r@.name == self@.name,
            r@.nickname == self@.nickname,
            r@.picture == self@.picture,
            r@.user_id == self@.user_id,
            r@.email_verified == self@.email_verified,
            r@.phone_number == self@.phone_number,
            r@.phone_verified == self@.phone_verified,
            r@.app_metadata == self@.app_metadata,
            r@.blocked == self@.blocked,
    {
        CreateUserRequestBuilder { user_metadata: Some(metadata), ..self }
    }

    pub fn app_metadata(self, metadata: serde_json::Value) -> (r: Self)
        ensures
            r@.app_metadata == Some(metadata),
            r@.email == self@.email,
            r@.connection == self@.connection,
            r@.password == self@.password,
            r@.given_name == self@.given_name,
            r@.family_name == self@.family_name,
            r@.name == self@.name,
            r@.nickname == self@.nickname,
            r@.picture == self@.picture,
            r@.user_id == self@.user_id,
            r@.email_verified == self@.email_verified,
            r@.phone_number == self@.phone_number,
            r@.phone_verified == self@.phone_verified,
            r@.user_metadata == self@.user_metadata,
            r@.blocked == self@.blocked,
    {
        CreateUserRequestBuilder { app_metadata: Some(metadata), ..self }
    }

    pub fn blocked(self, blocked: bool) -> (r: Self)
        ensures
            r@.blocked == Some(blocked),
            r@.email == self@.email,
            r@.connection == self@.connection,
            r@.password == self@.password,
            r@.given_name == self@.given_name,
            r@.family_name == self@.family_name,
            r@.name == self@.name,
            r@.nickname == self@.nickname,
            r@.picture == self@.picture,
            r@.user_id == self@.user_id,
            r@.email_verified == self@.email_verified,
            r@.phone_number == self@.phone_number,
            r@.phone_verified == self@.phone_verified,
            r@.user_metadata == self@.user_metadata,
            r@.app_metadata == self@.app_metadata,
    {
        CreateUserRequestBuilder { blocked: Some(blocked), ..self }
    }

    /// Checks the staged fields in a fixed order and produces the request,
    /// or the first failure as an `InvalidRequest`.
    pub fn build(self) -> (r: Result<CreateUserRequest>)
        ensures
            match self.rejection() {
                Some(msg) => is_invalid_request(r, msg),
                None => r matches Ok(req) && Some(req.email@) == self@.email
                    && Some(req.connection@) == self@.connection
                    && req.password.deep_view() == self@.password
                    && req.given_name.deep_view() == self@.given_name
                    && req.family_name.deep_view() == self@.family_name
                    && req.name.deep_view() == self@.name
                    && req.nickname.deep_view() == self@.nickname
                    && req.picture.deep_view() == self@.picture
                    && req.user_id.deep_view() == self@.user_id
                    && req.email_verified == self@.email_verified
                    && req.phone_number.deep_view() == self@.phone_number
                    && req.phone_verified == self@.phone_verified
                    && req.user_metadata == self@.user_metadata
                    && req.app_metadata == self@.app_metadata
                    && req.blocked == self@.blocked,
            },
    {
        let email = match self.email {
            Some(v) => v,
            None => return Err(Auth0Error::InvalidRequest(String::from_str("Email is required"))),
        };
        let connection = match self.connection {
            Some(v) => v,
            None => return Err(Auth0Error::InvalidRequest(String::from_str("Connection is required"))),
        };
        if !contains_char(email.as_str(), '@') {
            return Err(Auth0Error::InvalidRequest(String::from_str("Invalid email format")));
        }
        Ok(CreateUserRequest {
            email,
            connection,
            password: self.password,
            given_name: self.given_name,
            family_name: self.family_name,
            name: self.name,
            nickname: self.nickname,
            picture: self.picture,
            user_id: self.user_id,
            email_verified: self.email_verified,
            phone_number: self.phone_number,
            phone_verified: self.phone_verified,
            user_metadata: self.user_metadata,
            app_metadata: self.app_metadata,
            blocked: self.blocked,
        })
    }
}

/// The user record returned once a user has been created.
#[derive(Debug)]
pub struct CreateUserResponse {
    /// The user's unique identifier.
    pub user_id: String,
    /// The user's e-mail address.
    pub email: String,
    /// Whether the user's e-mail is verified.
    pub email_verified: bool,
    /// The user's given name.
    pub given_name: Option<String>,
    /// The user's family name.
    pub family_name: Option<String>,
    /// The user's full name.
    pub name: Option<String>,
    /// The user's nickname.
    pub nickname: Option<String>,
    /// URL of the user's picture.
    pub picture: Option<String>,
    /// The user's phone number.
    pub phone_number: Option<String>,
    /// Whether the user's phone number is verified.
    pub phone_verified: Option<bool>,
    /// Additional metadata for the user.
    pub user_metadata: Option<serde_json::Value>,
    /// Application-specific metadata.
    pub app_metadata: Option<serde_json::Value>,
    /// Whether the user is blocked.
    pub blocked: Option<bool>,
    /// When the user was created.
    pub created_at: String,
    /// When the user was last updated.
    pub updated_at: String,
    /// The identity providers linked to the user.
    pub identities: Vec<Identity>,
}

/// One identity provider linked to a user.
#[derive(Debug)]
pub struct Identity {
    /// The connection name.
    pub connection: String,
    /// The user ID for this identity.
    pub user_id: String,
    /// The identity provider.
    pub provider: String,
    /// Whether this is a social identity.
    pub is_social: Option<bool>,
}

} // verus!
